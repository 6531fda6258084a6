//! The messages the interface reacts to, and what it asks its host to do in
//! return.

use vstd::prelude::*;

use crate::chart::{ChartType, ReportSortType};
use crate::notifications::{Notification, Sound};
use crate::pages::{MyModal, RunningPage, SettingsPage};
use crate::settings::{GradientType, Language, StyleType};
use crate::traffic::{Host, IpVersion, MyDevice, Protocol, SearchParameters};

verus! {

/// A web page the interface can open.
#[derive(Clone, Copy, PartialEq, Eq, Structural, Debug, Hash)]
pub enum WebPage {
    Repository,
    Website,
    WebsiteSponsor,
    WebsiteDownload,
    Issues,
    IssueLanguages,
    Wiki,
    MyGitHub,
}

/// A message the interface reacts to.
///
/// Times are in milliseconds on the host's clock. Where a message depends on
/// what only the host can read (the adapters of the system, whether a file or
/// a filter could be read), the host reads it first and the message carries it.
pub enum Message {
    /// Periodic refresh of the statistics while a capture runs.
    TickRun,
    /// The notifications of the last interval were checked; so many were emitted.
    NotificationsEmitted(usize),
    /// The user picked the adapter with this name; the adapters the system lists.
    AdapterSelection(String, Vec<MyDevice>),
    /// Include (`true`) or exclude an IP version from the filters.
    IpVersionSelection(IpVersion, bool),
    /// Include (`true`) or exclude a protocol from the filters.
    ProtocolSelection(Protocol, bool),
    /// The address filter as typed, and whether it parses.
    AddressFilter(String, bool),
    /// The port filter as typed, and whether it parses.
    PortFilter(String, bool),
    ChartSelection(ChartType),
    ReportSortSelection(ReportSortType),
    OpenWebPage(WebPage),
    /// Start a capture.
    Start,
    /// The adapters the system lists, read to start a capture.
    CaptureDevices(Vec<MyDevice>),
    /// The capture was opened; the error it gave, if any.
    CaptureOpened(Option<String>),
    /// Stop the capture and go back to the initial page.
    Reset,
    Style(StyleType),
    /// A custom style file was chosen; whether it could be read.
    LoadStyle(String, bool),
    /// Advance the waiting dots.
    Waiting,
    /// Mark (`true`) or unmark a host as favorite.
    AddOrRemoveFavorite(Host, bool),
    ShowModal(MyModal),
    HideModal,
    OpenSettings(SettingsPage),
    OpenLastSettings,
    CloseSettings,
    ChangeRunningPage(RunningPage),
    LanguageSelection(Language),
    /// A new value of one notification setting, and whether to play its sound.
    UpdateNotificationSettings(Notification, bool),
    ChangeVolume(u8),
    ClearAllNotifications,
    Quit,
    /// Switch to the next (`true`) or previous page, at the given time.
    SwitchPage(bool, u64),
    ReturnKeyPressed,
    EscKeyPressed,
    ResetButtonPressed,
    CtrlDPressed,
    Search(SearchParameters),
    /// Go to the next (`true`) or previous page of search results.
    UpdatePageNumber(bool),
    /// An arrow key; the number of search results at that moment.
    ArrowPressed(bool, usize),
    /// The window gained focus at the given time.
    WindowFocused(u64),
    GradientsSelection(GradientType),
    WindowMoved(i32, i32),
    /// The window was resized; its size once scaled.
    WindowResized(u32, u32),
    /// A custom country database was chosen.
    CustomCountryDb(String),
    /// A custom ASN database was chosen.
    CustomAsnDb(String),
    /// The window is about to close.
    CloseRequested,
    /// An address was copied, at the given time.
    CopyIp(String, u64),
}

/// What the host has to do after a message.
pub enum Action {
    /// Nothing.
    Nothing,
    /// Close the window.
    CloseWindow,
    /// Save the configuration (see `Sniffer::get_configs`), then close the window.
    StoreConfigsAndClose,
    /// Open a web page.
    OpenWeb(WebPage),
    /// Play a sound at a volume.
    PlaySound(Sound, u8),
    /// List the adapters of the system and answer with `Message::CaptureDevices`.
    ListCaptureDevices,
    /// Open a capture on the current adapter and answer with `Message::CaptureOpened`.
    OpenCapture,
    /// Start parsing the opened capture, with the current adapter, filters and capture id.
    StartParsing,
    /// Check the notifications of the interval and answer with `Message::NotificationsEmitted`.
    EmitNotifications,
    /// Update the chart with the new statistics.
    UpdateCharts,
    /// Write this text to the clipboard.
    WriteClipboard(String),
    /// Load the country database at this path.
    LoadCountryDb(String),
    /// Load the ASN database at this path.
    LoadAsnDb(String),
}

} // verus!
