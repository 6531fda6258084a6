//! Properties of the interface that hold across messages.

use vstd::prelude::*;

use crate::message::{Action, Message};
use crate::pages::{RunningPage, SettingsPage};
use crate::settings::Configs;
use crate::sniffer::Sniffer;
use crate::text::{dots, lemma_dots_byte_len};
use crate::pages::MyModal;
use crate::traffic::{Host, InfoTraffic, IpVersion, MyDevice, Protocol};

verus! {

impl Sniffer {
    /// A modal and the settings are never open together.
    pub open spec fn overlays_exclusive(self) -> bool {
        !(self.modal is Some && self.settings_page is Some)
    }

    /// While the notifications page is shown, no notification is unread.
    pub open spec fn notifications_seen(self) -> bool {
        self.running_page == RunningPage::Notifications ==> self.unread_notifications == 0
    }

    /// The chart is drawn in the language and style of the settings.
    pub open spec fn chart_follows_settings(self) -> bool {
        &&& self.traffic_chart.language == self.settings.language
        &&& self.traffic_chart.style == self.settings.style
    }
}

/// A freshly opened interface has no overlay open, its notifications seen,
/// and its chart drawn as the settings say.
pub proof fn law_initial_state(s: Sniffer, configs: Configs, device: MyDevice)
    requires
        s.is_initial_for(&configs, device),
    ensures
        s.overlays_exclusive(),
        s.notifications_seen(),
        s.chart_follows_settings(),
{
}

/// The configuration saved by a freshly opened interface is the one it was
/// opened with.
pub proof fn law_configs_round_trip(s: Sniffer, configs: Configs, device: MyDevice, saved: Configs)
    requires
        s.is_initial_for(&configs, device),
        s.saves(saved),
    ensures
        saved.settings == configs.settings,
        saved.device.device_name@ == configs.device.device_name@,
        saved.window == configs.window,
{
}

/// No message opens a modal and the settings together.
pub proof fn law_overlays_stay_exclusive(
    pre: Sniffer,
    info: InfoTraffic,
    message: Message,
    post: Sniffer,
    post_info: InfoTraffic,
    act: Action,
)
    requires
        pre.overlays_exclusive(),
        Sniffer::step(pre, info, message, post, post_info, act),
    ensures
        post.overlays_exclusive(),
{
}

/// No message leaves a notification unread while the notifications page is shown.
pub proof fn law_notifications_stay_seen(
    pre: Sniffer,
    info: InfoTraffic,
    message: Message,
    post: Sniffer,
    post_info: InfoTraffic,
    act: Action,
)
    requires
        pre.notifications_seen(),
        Sniffer::step(pre, info, message, post, post_info, act),
    ensures
        post.notifications_seen(),
{
}

/// No message makes the chart and the settings disagree on language or style.
pub proof fn law_chart_keeps_following_settings(
    pre: Sniffer,
    info: InfoTraffic,
    message: Message,
    post: Sniffer,
    post_info: InfoTraffic,
    act: Action,
)
    requires
        pre.chart_follows_settings(),
        Sniffer::step(pre, info, message, post, post_info, act),
    ensures
        post.chart_follows_settings(),
{
}

/// Closing the settings and opening the last settings shows the same page again.
pub proof fn law_reopen_last_settings(
    pre: Sniffer,
    info: InfoTraffic,
    mid: Sniffer,
    mid_info: InfoTraffic,
    a1: Action,
    post: Sniffer,
    post_info: InfoTraffic,
    a2: Action,
)
    requires
        pre.modal is None,
        pre.settings_page is Some,
        Sniffer::step(pre, info, Message::CloseSettings, mid, mid_info, a1),
        Sniffer::step(mid, mid_info, Message::OpenLastSettings, post, post_info, a2),
    ensures
        mid.settings_page is None,
        post.settings_page == pre.settings_page,
        post.last_opened_setting == pre.settings_page->0,
{
}

/// The next and the previous settings page undo each other.
pub proof fn law_settings_pages_cycle(page: SettingsPage)
    ensures
        page.following().preceding() == page,
        page.preceding().following() == page,
        page.following().following().following() == page,
{
}

/// The next and the previous running page undo each other.
pub proof fn law_running_pages_cycle(page: RunningPage)
    ensures
        page.following().preceding() == page,
        page.preceding().following() == page,
        page != RunningPage::Init ==> page.following() != RunningPage::Init,
{
}

/// Switching forward then back, outside the time after a focus, shows the
/// same running page and settings page again.
pub proof fn law_switch_forward_and_back(
    pre: Sniffer,
    info: InfoTraffic,
    t1: u64,
    t2: u64,
    mid: Sniffer,
    mid_info: InfoTraffic,
    a1: Action,
    post: Sniffer,
    post_info: InfoTraffic,
    a2: Action,
)
    requires
        !pre.timing_events.just_focused(t1),
        !pre.timing_events.just_focused(t2),
        Sniffer::step(pre, info, Message::SwitchPage(true, t1), mid, mid_info, a1),
        Sniffer::step(mid, mid_info, Message::SwitchPage(false, t2), post, post_info, a2),
    ensures
        post.running_page == pre.running_page,
        post.settings_page == pre.settings_page,
{
    match pre.settings_page {
        Some(p) => {
            law_settings_pages_cycle(p);
        },
        None => {
            law_running_pages_cycle(pre.running_page);
        },
    }
}

/// The waiting dots go from one to three and back to one.
pub proof fn law_waiting_cycle(
    pre: Sniffer,
    info: InfoTraffic,
    n: nat,
    post: Sniffer,
    post_info: InfoTraffic,
    act: Action,
)
    requires
        1 <= n <= 3,
        pre.waiting@ == dots(n),
        Sniffer::step(pre, info, Message::Waiting, post, post_info, act),
    ensures
        post.waiting@ == dots(n % 3 + 1),
{
    lemma_dots_byte_len(n);
}

/// Marking a host as favorite then unmarking it leaves the other favorites
/// as they were, without it.
pub proof fn law_favorite_add_then_remove(
    pre: Sniffer,
    info: InfoTraffic,
    host: Host,
    same: Host,
    mid: Sniffer,
    mid_info: InfoTraffic,
    a1: Action,
    post: Sniffer,
    post_info: InfoTraffic,
    a2: Action,
)
    requires
        same@ == host@,
        Sniffer::step(pre, info, Message::AddOrRemoveFavorite(host, true), mid, mid_info, a1),
        Sniffer::step(mid, mid_info, Message::AddOrRemoveFavorite(same, false), post, post_info, a2),
    ensures
        mid_info.favorites().contains(host@),
        !post_info.favorites().contains(host@),
        post_info.favorites() == info.favorites().remove(host@),
{
    assert(post_info.favorites() =~= info.favorites().remove(host@));
}

/// Including an IP version twice is including it once; excluding it after
/// including it leaves the others as they were.
pub proof fn law_ip_version_toggle(
    pre: Sniffer,
    info: InfoTraffic,
    v: IpVersion,
    mid: Sniffer,
    mid_info: InfoTraffic,
    a1: Action,
    again: Sniffer,
    again_info: InfoTraffic,
    a2: Action,
    post: Sniffer,
    post_info: InfoTraffic,
    a3: Action,
)
    requires
        Sniffer::step(pre, info, Message::IpVersionSelection(v, true), mid, mid_info, a1),
        Sniffer::step(mid, mid_info, Message::IpVersionSelection(v, true), again, again_info, a2),
        Sniffer::step(mid, mid_info, Message::IpVersionSelection(v, false), post, post_info, a3),
    ensures
        again.filters.ip_versions@.to_set() == mid.filters.ip_versions@.to_set(),
        post.filters.ip_versions@.to_set() == pre.filters.ip_versions@.to_set().remove(v),
{
    assert(again.filters.ip_versions@.to_set() =~= mid.filters.ip_versions@.to_set());
    assert(post.filters.ip_versions@.to_set() =~= pre.filters.ip_versions@.to_set().remove(v));
}

/// A refresh while packets flow shows each counter of the capture in the
/// statistics field of the same meaning, and asks for the notifications to be
/// checked; the other statistics stay as they were.
pub proof fn law_refresh_copies_each_counter(
    pre: Sniffer,
    info: InfoTraffic,
    post: Sniffer,
    post_info: InfoTraffic,
    act: Action,
)
    requires
        info.tot_received_packets + info.tot_sent_packets > 0,
        Sniffer::step(pre, info, Message::TickRun, post, post_info, act),
    ensures
        post.runtime_data.tot_received_bytes == info.tot_received_bytes,
        post.runtime_data.tot_sent_bytes == info.tot_sent_bytes,
        post.runtime_data.tot_received_packets == info.tot_received_packets,
        post.runtime_data.tot_sent_packets == info.tot_sent_packets,
        post.runtime_data.all_bytes == info.all_bytes,
        post.runtime_data.all_packets == info.all_packets,
        post.runtime_data.dropped_packets == info.dropped_packets,
        post.runtime_data.tot_emitted_notifications == pre.runtime_data.tot_emitted_notifications,
        post.runtime_data.logged_notifications == pre.runtime_data.logged_notifications,
        post.waiting == pre.waiting,
        post_info == info,
        act == Action::EmitNotifications,
{
}

/// A refresh before any packet flowed only copies the packet count; the
/// other statistics stay as they were and nothing is asked of the host.
pub proof fn law_refresh_without_traffic(
    pre: Sniffer,
    info: InfoTraffic,
    post: Sniffer,
    post_info: InfoTraffic,
    act: Action,
)
    requires
        info.tot_received_packets + info.tot_sent_packets == 0,
        Sniffer::step(pre, info, Message::TickRun, post, post_info, act),
    ensures
        post.runtime_data.all_packets == info.all_packets,
        post.runtime_data.tot_received_bytes == pre.runtime_data.tot_received_bytes,
        post.runtime_data.tot_sent_bytes == pre.runtime_data.tot_sent_bytes,
        post.runtime_data.tot_received_packets == pre.runtime_data.tot_received_packets,
        post.runtime_data.tot_sent_packets == pre.runtime_data.tot_sent_packets,
        post.runtime_data.all_bytes == pre.runtime_data.all_bytes,
        post.runtime_data.dropped_packets == pre.runtime_data.dropped_packets,
        post_info == info,
        act == Action::Nothing,
{
}

/// While a modal is shown, Tab and Shift+Tab change nothing.
pub proof fn law_no_page_switch_under_modal(
    pre: Sniffer,
    info: InfoTraffic,
    next: bool,
    now: u64,
    post: Sniffer,
    post_info: InfoTraffic,
    act: Action,
)
    requires
        pre.modal is Some,
        Sniffer::step(pre, info, Message::SwitchPage(next, now), post, post_info, act),
    ensures
        post == pre,
        post_info == info,
        act == Action::Nothing,
{
}

/// With the settings open and no modal, a page switch moves through the
/// settings pages and leaves the running page and unread count alone.
pub proof fn law_page_switch_in_settings(
    pre: Sniffer,
    info: InfoTraffic,
    next: bool,
    now: u64,
    post: Sniffer,
    post_info: InfoTraffic,
    act: Action,
)
    requires
        pre.modal is None,
        pre.settings_page is Some,
        !pre.timing_events.just_focused(now),
        Sniffer::step(pre, info, Message::SwitchPage(next, now), post, post_info, act),
    ensures
        post.running_page == pre.running_page,
        post.unread_notifications == pre.unread_notifications,
        post.settings_page is Some,
        post.settings_page != pre.settings_page,
        post.modal is None,
{
}

/// Ctrl+D does nothing away from the notifications page.
pub proof fn law_ctrl_d_only_on_notifications_page(
    pre: Sniffer,
    info: InfoTraffic,
    post: Sniffer,
    post_info: InfoTraffic,
    act: Action,
)
    requires
        pre.running_page != RunningPage::Notifications,
        Sniffer::step(pre, info, Message::CtrlDPressed, post, post_info, act),
    ensures
        post == pre,
        post_info == info,
        act == Action::Nothing,
{
}

/// On the notifications page with something logged and no overlay open,
/// Ctrl+D asks whether to clear everything, and changes nothing else.
pub proof fn law_ctrl_d_asks_to_clear(
    pre: Sniffer,
    info: InfoTraffic,
    post: Sniffer,
    post_info: InfoTraffic,
    act: Action,
)
    requires
        pre.running_page == RunningPage::Notifications,
        pre.runtime_data.logged_notifications@.len() > 0,
        pre.modal is None,
        pre.settings_page is None,
        Sniffer::step(pre, info, Message::CtrlDPressed, post, post_info, act),
    ensures
        post.modal == Some(MyModal::ClearAll),
        post.runtime_data.logged_notifications == pre.runtime_data.logged_notifications,
        post.running_page == pre.running_page,
{
}

/// Once a capture is opened, the statistics and the traffic data start from
/// nothing, on the overview page, and parsing starts exactly when opening
/// gave no error.
pub proof fn law_capture_starts_afresh(
    pre: Sniffer,
    info: InfoTraffic,
    error: Option<String>,
    post: Sniffer,
    post_info: InfoTraffic,
    act: Action,
)
    requires
        Sniffer::step(pre, info, Message::CaptureOpened(error), post, post_info, act),
    ensures
        post.runtime_data.all_bytes == 0,
        post.runtime_data.all_packets == 0,
        post.runtime_data.tot_sent_bytes == 0,
        post.runtime_data.tot_received_bytes == 0,
        post.runtime_data.tot_sent_packets == 0,
        post.runtime_data.tot_received_packets == 0,
        post.runtime_data.dropped_packets == 0,
        post.runtime_data.tot_emitted_notifications == 0,
        post.runtime_data.logged_notifications@.len() == 0,
        post_info.all_packets == 0,
        post_info.all_bytes == 0,
        post_info.tot_received_packets == 0,
        post_info.tot_sent_packets == 0,
        post_info.hosts@.len() == 0,
        post_info.favorite_hosts@.len() == 0,
        post.running_page == RunningPage::Overview,
        post.pcap_error == error,
        (act == Action::StartParsing) == (error is None),
        act == Action::StartParsing || act == Action::Nothing,
{
}

/// Including an IP version puts it in the filters, excluding it takes it out,
/// and the other versions stay as they were.
pub proof fn law_ip_version_selection(
    pre: Sniffer,
    info: InfoTraffic,
    v: IpVersion,
    insert: bool,
    post: Sniffer,
    post_info: InfoTraffic,
    act: Action,
)
    requires
        Sniffer::step(pre, info, Message::IpVersionSelection(v, insert), post, post_info, act),
    ensures
        post.filters.ip_versions@.contains(v) == insert,
        forall|w: IpVersion|
            w != v ==> post.filters.ip_versions@.contains(w) == pre.filters.ip_versions@.contains(
                w,
            ),
        post.filters.protocols == pre.filters.protocols,
{
    assert(post.filters.ip_versions@.to_set().contains(v) == insert);
    assert forall|w: IpVersion| w != v implies post.filters.ip_versions@.contains(w)
        == pre.filters.ip_versions@.contains(w) by {
        assert(post.filters.ip_versions@.to_set().contains(w)
            == pre.filters.ip_versions@.to_set().contains(w));
    }
}

/// Including a protocol puts it in the filters, excluding it takes it out,
/// and the other protocols stay as they were.
pub proof fn law_protocol_selection(
    pre: Sniffer,
    info: InfoTraffic,
    p: Protocol,
    insert: bool,
    post: Sniffer,
    post_info: InfoTraffic,
    act: Action,
)
    requires
        Sniffer::step(pre, info, Message::ProtocolSelection(p, insert), post, post_info, act),
    ensures
        post.filters.protocols@.contains(p) == insert,
        forall|q: Protocol|
            q != p ==> post.filters.protocols@.contains(q) == pre.filters.protocols@.contains(q),
        post.filters.ip_versions == pre.filters.ip_versions,
{
    assert(post.filters.protocols@.to_set().contains(p) == insert);
    assert forall|q: Protocol| q != p implies post.filters.protocols@.contains(q)
        == pre.filters.protocols@.contains(q) by {
        assert(post.filters.protocols@.to_set().contains(q)
            == pre.filters.protocols@.to_set().contains(q));
    }
}

} // verus!
