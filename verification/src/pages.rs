//! The pages of the interface: the running pages shown while a capture is
//! active, the settings pages and the modal overlays.

use vstd::prelude::*;

verus! {

/// The page shown in the main area of the window.
#[derive(Clone, Copy, PartialEq, Eq, Structural, Debug, Hash)]
pub enum RunningPage {
    /// The initial page, where the capture is configured.
    Init,
    /// Overview of the captured traffic.
    Overview,
    /// Detailed list of the connections.
    Inspect,
    /// The logged notifications.
    Notifications,
}

impl RunningPage {
    /// The running page that follows this one in the tab bar (the initial page has no neighbours).
    pub open spec fn following(self) -> RunningPage {
        match self {
            RunningPage::Init => RunningPage::Init,
            RunningPage::Overview => RunningPage::Inspect,
            RunningPage::Inspect => RunningPage::Notifications,
            RunningPage::Notifications => RunningPage::Overview,
        }
    }

    /// The running page that precedes this one in the tab bar.
    pub open spec fn preceding(self) -> RunningPage {
        match self {
            RunningPage::Init => RunningPage::Init,
            RunningPage::Overview => RunningPage::Notifications,
            RunningPage::Inspect => RunningPage::Overview,
            RunningPage::Notifications => RunningPage::Inspect,
        }
    }

    pub fn next(self) -> (r: RunningPage)
        ensures
            r == self.following(),
    {
        match self {
            RunningPage::Init => RunningPage::Init,
            RunningPage::Overview => RunningPage::Inspect,
            RunningPage::Inspect => RunningPage::Notifications,
            RunningPage::Notifications => RunningPage::Overview,
        }
    }

    pub fn previous(self) -> (r: RunningPage)
        ensures
            r == self.preceding(),
    {
        match self {
            RunningPage::Init => RunningPage::Init,
            RunningPage::Overview => RunningPage::Notifications,
            RunningPage::Inspect => RunningPage::Overview,
            RunningPage::Notifications => RunningPage::Inspect,
        }
    }
}

/// The page of the settings overlay.
#[derive(Clone, Copy, PartialEq, Eq, Structural, Debug, Hash)]
pub enum SettingsPage {
    Notifications,
    Appearance,
    General,
}

impl SettingsPage {
    /// The settings page that follows this one, cyclically.
    pub open spec fn following(self) -> SettingsPage {
        match self {
            SettingsPage::Notifications => SettingsPage::Appearance,
            SettingsPage::Appearance => SettingsPage::General,
            SettingsPage::General => SettingsPage::Notifications,
        }
    }

    /// The settings page that precedes this one, cyclically.
    pub open spec fn preceding(self) -> SettingsPage {
        match self {
            SettingsPage::Notifications => SettingsPage::General,
            SettingsPage::Appearance => SettingsPage::Notifications,
            SettingsPage::General => SettingsPage::Appearance,
        }
    }

    pub fn next(self) -> (r: SettingsPage)
        ensures
            r == self.following(),
    {
        match self {
            SettingsPage::Notifications => SettingsPage::Appearance,
            SettingsPage::Appearance => SettingsPage::General,
            SettingsPage::General => SettingsPage::Notifications,
        }
    }

    pub fn previous(self) -> (r: SettingsPage)
        ensures
            r == self.preceding(),
    {
        match self {
            SettingsPage::Notifications => SettingsPage::General,
            SettingsPage::Appearance => SettingsPage::Notifications,
            SettingsPage::General => SettingsPage::Appearance,
        }
    }
}

/// A modal overlay.
#[derive(Clone, Copy, PartialEq, Eq, Structural, Debug, Hash)]
pub enum MyModal {
    /// Asks whether to quit the running capture.
    Quit,
    /// Asks whether to clear all the logged notifications.
    ClearAll,
    /// Details of the connection with the given index.
    ConnectionDetails(usize),
}

} // verus!
