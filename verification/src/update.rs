//! The reaction of the interface to each message.

use vstd::prelude::*;

use crate::chart::TrafficChart;
use crate::message::{Action, Message};
use crate::notifications::{Notification, Notifications, Sound};
use crate::pages::{MyModal, RunningPage};
use crate::settings::{ConfigSettings, ConfigWindow, ExtraStyles, StyleType};
use crate::sniffer::Sniffer;
use crate::timing::TimingEvents;
use crate::traffic::{Filters, InfoTraffic};

verus! {

/// Number of search results shown on one page.
pub const RESULTS_PER_PAGE: usize = 20;

impl Sniffer {
    /// `post` is `pre` after the return key: on the initial page with no
    /// overlay it starts the capture when the filters are valid; with the quit
    /// modal it resets; with the clear-all modal it clears the notifications.
    pub open spec fn return_pressed(pre: Sniffer, post: Sniffer, act: Action) -> bool {
        if pre.running_page == RunningPage::Init && pre.settings_page is None && pre.modal is None {
            post == pre && act == if pre.filters.valid() {
                Action::ListCaptureDevices
            } else {
                Action::Nothing
            }
        } else if pre.modal == Some(MyModal::Quit) {
            Sniffer::reset_done(pre, post) && act == Action::Nothing
        } else if pre.modal == Some(MyModal::ClearAll) {
            Sniffer::notifications_cleared(pre, post) && act == Action::Nothing
        } else {
            post == pre && act == Action::Nothing
        }
    }

    /// The escape key closes the modal, else the settings.
    pub open spec fn after_esc(self) -> Sniffer {
        if self.modal is Some {
            self.with_modal_hidden()
        } else if self.settings_page is Some {
            self.with_settings_closed()
        } else {
            self
        }
    }

    /// Whether the reset button resets at once: a capture runs, no packet
    /// was seen and the settings are closed.
    pub open spec fn resets_at_once(pre: Sniffer, info: InfoTraffic) -> bool {
        pre.running_page != RunningPage::Init && info.all_packets == 0 && pre.settings_page is None
    }

    /// `post` is `pre` after the reset button: while a capture runs, it resets
    /// when no packet was seen and the settings are closed, else it asks with
    /// the quit modal.
    pub open spec fn reset_button_done(pre: Sniffer, info: InfoTraffic, post: Sniffer) -> bool {
        if Sniffer::resets_at_once(pre, info) {
            Sniffer::reset_done(pre, post)
        } else if pre.running_page != RunningPage::Init {
            post == pre.with_modal_shown(MyModal::Quit)
        } else {
            post == pre
        }
    }

    /// Ctrl+D on the notifications page with something logged asks whether to clear it.
    pub open spec fn after_ctrl_d(self) -> Sniffer {
        if self.running_page == RunningPage::Notifications
            && self.runtime_data.logged_notifications@.len() != 0 {
            self.with_modal_shown(MyModal::ClearAll)
        } else {
            self
        }
    }

    /// The next (`next`) or previous page of search results.
    pub open spec fn with_page_moved(self, next: bool) -> Sniffer {
        Sniffer {
            page_number: if next {
                (self.page_number + 1) as usize
            } else {
                (self.page_number - 1) as usize
            },
            ..self
        }
    }

    /// Number of pages `results` search results take.
    pub open spec fn pages_for(results: usize) -> int {
        (results + RESULTS_PER_PAGE - 1) / RESULTS_PER_PAGE as int
    }

    /// An arrow key on the inspect page with no overlay moves through the
    /// pages of the `results` search results, within their bounds.
    pub open spec fn after_arrow(self, next: bool, results: usize) -> Sniffer {
        if self.running_page == RunningPage::Inspect && self.settings_page is None
            && self.modal is None {
            if next {
                if self.page_number < Sniffer::pages_for(results) {
                    self.with_page_moved(true)
                } else {
                    self
                }
            } else if self.page_number > 1 {
                self.with_page_moved(false)
            } else {
                self
            }
        } else {
            self
        }
    }

    /// One notification setting replaced by `value`.
    pub open spec fn with_notification(self, value: Notification) -> Sniffer {
        Sniffer {
            settings: ConfigSettings {
                notifications: self.settings.notifications.with(value),
                ..self.settings
            },
            ..self
        }
    }

    pub fn shortcut_return(&mut self) -> (act: Action)
        requires
            old(self).modal == Some(MyModal::Quit) ==> old(self).current_capture_id < usize::MAX,
        ensures
            Sniffer::return_pressed(*old(self), *final(self), act),
    {
        if self.running_page == RunningPage::Init && self.settings_page.is_none()
            && self.modal.is_none() {
            if self.filters.are_valid() {
                return Action::ListCaptureDevices;
            }
        } else if self.modal == Some(MyModal::Quit) {
            self.reset();
        } else if self.modal == Some(MyModal::ClearAll) {
            self.clear_all_notifications();
        }
        Action::Nothing
    }

    pub fn shortcut_esc(&mut self)
        ensures
            *final(self) == old(self).after_esc(),
    {
        if self.modal.is_some() {
            self.hide_modal();
        } else if self.settings_page.is_some() {
            self.close_settings();
        }
    }

    /// The reset button, also the backspace key while a capture runs.
    pub fn reset_button_pressed(&mut self, info_traffic: &InfoTraffic)
        requires
            Sniffer::resets_at_once(*old(self), *info_traffic) ==> old(self).current_capture_id
                < usize::MAX,
        ensures
            Sniffer::reset_button_done(*old(self), *info_traffic, *final(self)),
    {
        if self.running_page != RunningPage::Init {
            if info_traffic.all_packets == 0 && self.settings_page.is_none() {
                self.reset();
            } else {
                self.show_modal(MyModal::Quit);
            }
        }
    }

    pub fn shortcut_ctrl_d(&mut self)
        ensures
            *final(self) == old(self).after_ctrl_d(),
    {
        if self.running_page == RunningPage::Notifications
            && self.runtime_data.logged_notifications.len() != 0 {
            self.show_modal(MyModal::ClearAll);
        }
    }

    pub fn update_page_number(&mut self, next: bool)
        requires
            next ==> old(self).page_number < usize::MAX,
            !next ==> old(self).page_number >= 1,
        ensures
            *final(self) == old(self).with_page_moved(next),
    {
        if next {
            self.page_number = self.page_number + 1;
        } else {
            self.page_number = self.page_number - 1;
        }
    }

    pub fn arrow_pressed(&mut self, next: bool, results: usize)
        requires
            next && old(self).running_page == RunningPage::Inspect && old(self).settings_page is None
                && old(self).modal is None ==> results + RESULTS_PER_PAGE <= usize::MAX,
        ensures
            *final(self) == old(self).after_arrow(next, results),
    {
        if self.running_page == RunningPage::Inspect && self.settings_page.is_none()
            && self.modal.is_none() {
            if next {
                if self.page_number < (results + RESULTS_PER_PAGE - 1) / RESULTS_PER_PAGE {
                    self.update_page_number(true);
                }
            } else if self.page_number > 1 {
                self.update_page_number(false);
            }
        }
    }

    /// Replace one notification setting; play its sound if `emit_sound`.
    pub fn update_notification_settings(&mut self, value: Notification, emit_sound: bool) -> (act: Action)
        ensures
            *final(self) == old(self).with_notification(value),
            act == if emit_sound {
                Action::PlaySound(value.sound_of(), old(self).settings.notifications.volume)
            } else {
                Action::Nothing
            },
    {
        let sound = match value {
            Notification::Packets(packets_notification) => {
                self.settings.notifications.packets_notification = packets_notification;
                packets_notification.sound
            },
            Notification::Bytes(bytes_notification) => {
                self.settings.notifications.bytes_notification = bytes_notification;
                bytes_notification.sound
            },
            Notification::Favorite(favorite_notification) => {
                self.settings.notifications.favorite_notification = favorite_notification;
                favorite_notification.sound
            },
        };
        if emit_sound {
            Action::PlaySound(sound, self.settings.notifications.volume)
        } else {
            Action::Nothing
        }
    }
    /// Whether no counter overflows on `message`; the original panics there.
    pub open spec fn can_update(pre: Sniffer, info: InfoTraffic, message: Message) -> bool {
        match message {
            Message::TickRun => info.tot_received_packets + info.tot_sent_packets <= u128::MAX,
            Message::NotificationsEmitted(emitted) => Sniffer::can_count(pre, emitted),
            Message::Reset => pre.current_capture_id < usize::MAX,
            Message::ReturnKeyPressed => pre.modal == Some(MyModal::Quit)
                ==> pre.current_capture_id < usize::MAX,
            Message::ResetButtonPressed => Sniffer::resets_at_once(pre, info)
                ==> pre.current_capture_id < usize::MAX,
            Message::SwitchPage(_, now) => !pre.timing_events.just_focused(now)
                && Sniffer::switches_running_page(pre) ==> pre.runtime_data.tot_sent_packets
                + pre.runtime_data.tot_received_packets <= u128::MAX,
            Message::UpdatePageNumber(next) => (next ==> pre.page_number < usize::MAX) && (!next
                ==> pre.page_number >= 1),
            Message::ArrowPressed(next, results) => next && pre.running_page
                == RunningPage::Inspect && pre.settings_page is None && pre.modal is None
                ==> results + RESULTS_PER_PAGE <= usize::MAX,
            _ => true,
        }
    }

    /// The traffic data is untouched and nothing is asked of the host.
    pub open spec fn quiet(info: InfoTraffic, post_info: InfoTraffic, act: Action) -> bool {
        post_info == info && act == Action::Nothing
    }

    /// What `message` does: `pre` and `info` become `post` and `post_info`,
    /// and the host is asked to do `act`.
    pub open spec fn step(
        pre: Sniffer,
        info: InfoTraffic,
        message: Message,
        post: Sniffer,
        post_info: InfoTraffic,
        act: Action,
    ) -> bool {
        match message {
            Message::TickRun => Sniffer::refreshed(pre, info, post, act) && post_info == info,
            Message::NotificationsEmitted(emitted) => Sniffer::notifications_counted(
                pre,
                info,
                emitted,
                post,
                post_info,
                act,
            ),
            Message::AdapterSelection(name, devices) => Sniffer::adapter_set(
                pre,
                name@,
                devices@,
                post,
            ) && Sniffer::quiet(info, post_info, act),
            Message::IpVersionSelection(v, insert) => Sniffer::ip_version_selected(
                pre,
                v,
                insert,
                post,
            ) && Sniffer::quiet(info, post_info, act),
            Message::ProtocolSelection(p, insert) => Sniffer::protocol_selected(
                pre,
                p,
                insert,
                post,
            ) && Sniffer::quiet(info, post_info, act),
            Message::AddressFilter(value, parses) => post == Sniffer {
                filters: Filters {
                    address_str: value,
                    address_collection: if parses {
                        value
                    } else {
                        pre.filters.address_collection
                    },
                    ..pre.filters
                },
                ..pre
            } && Sniffer::quiet(info, post_info, act),
            Message::PortFilter(value, parses) => post == Sniffer {
                filters: Filters {
                    port_str: value,
                    port_collection: if parses {
                        value
                    } else {
                        pre.filters.port_collection
                    },
                    ..pre.filters
                },
                ..pre
            } && Sniffer::quiet(info, post_info, act),
            Message::ChartSelection(kind) => post == Sniffer {
                traffic_chart: TrafficChart { chart_type: kind, ..pre.traffic_chart },
                ..pre
            } && Sniffer::quiet(info, post_info, act),
            Message::ReportSortSelection(sort) => post == Sniffer {
                report_sort_type: sort,
                ..pre
            } && Sniffer::quiet(info, post_info, act),
            Message::OpenWebPage(page) => post == pre && post_info == info && act
                == Action::OpenWeb(page),
            Message::Start => post == pre && post_info == info && act
                == Action::ListCaptureDevices,
            Message::CaptureDevices(devices) => Sniffer::adapter_set(
                pre,
                pre.device.name@,
                devices@,
                post,
            ) && post_info == info && act == Action::OpenCapture,
            Message::CaptureOpened(error) => Sniffer::capture_started(
                pre,
                error,
                post,
                post_info,
                act,
            ),
            Message::Reset => Sniffer::reset_done(pre, post) && Sniffer::quiet(
                info,
                post_info,
                act,
            ),
            Message::Style(style) => post == Sniffer {
                settings: ConfigSettings { style, ..pre.settings },
                traffic_chart: TrafficChart { style, ..pre.traffic_chart },
                ..pre
            } && Sniffer::quiet(info, post_info, act),
            Message::LoadStyle(path, loaded) => {
                let custom = StyleType::Custom(ExtraStyles::CustomToml);
                &&& if loaded {
                    post == Sniffer {
                        settings: ConfigSettings { style_path: path, style: custom, ..pre.settings },
                        traffic_chart: TrafficChart { style: custom, ..pre.traffic_chart },
                        ..pre
                    }
                } else {
                    post == Sniffer {
                        settings: ConfigSettings { style_path: path, ..pre.settings },
                        ..pre
                    }
                }
                &&& Sniffer::quiet(info, post_info, act)
            },
            Message::Waiting => Sniffer::waiting_advanced(pre, post) && Sniffer::quiet(
                info,
                post_info,
                act,
            ),
            Message::AddOrRemoveFavorite(host, add) => post == pre && Sniffer::favorite_toggled(
                info,
                host@,
                add,
                post_info,
            ) && act == Action::Nothing,
            Message::ShowModal(modal) => post == pre.with_modal_shown(modal) && Sniffer::quiet(
                info,
                post_info,
                act,
            ),
            Message::HideModal => post == pre.with_modal_hidden() && Sniffer::quiet(
                info,
                post_info,
                act,
            ),
            Message::OpenSettings(page) => post == pre.with_settings_opened(page)
                && Sniffer::quiet(info, post_info, act),
            Message::OpenLastSettings => post == pre.with_last_settings_opened()
                && Sniffer::quiet(info, post_info, act),
            Message::CloseSettings => post == pre.with_settings_closed() && Sniffer::quiet(
                info,
                post_info,
                act,
            ),
            Message::ChangeRunningPage(page) => post == pre.with_running_page(page)
                && Sniffer::quiet(info, post_info, act),
            Message::LanguageSelection(language) => post == Sniffer {
                settings: ConfigSettings { language, ..pre.settings },
                traffic_chart: TrafficChart { language, ..pre.traffic_chart },
                ..pre
            } && Sniffer::quiet(info, post_info, act),
            Message::UpdateNotificationSettings(value, emit_sound) => post
                == pre.with_notification(value) && post_info == info && act == if emit_sound {
                Action::PlaySound(value.sound_of(), pre.settings.notifications.volume)
            } else {
                Action::Nothing
            },
            Message::ChangeVolume(volume) => post == Sniffer {
                settings: ConfigSettings {
                    notifications: Notifications { volume, ..pre.settings.notifications },
                    ..pre.settings
                },
                ..pre
            } && post_info == info && act == Action::PlaySound(Sound::Pop, volume),
            Message::ClearAllNotifications => Sniffer::notifications_cleared(pre, post)
                && Sniffer::quiet(info, post_info, act),
            Message::Quit => post == pre && post_info == info && act == Action::CloseWindow,
            Message::SwitchPage(next, now) => post == (if pre.timing_events.just_focused(now) {
                pre
            } else {
                pre.with_page_switched(next)
            }) && Sniffer::quiet(info, post_info, act),
            Message::ReturnKeyPressed => Sniffer::return_pressed(pre, post, act) && post_info
                == info,
            Message::EscKeyPressed => post == pre.after_esc() && Sniffer::quiet(
                info,
                post_info,
                act,
            ),
            Message::ResetButtonPressed => Sniffer::reset_button_done(pre, info, post)
                && Sniffer::quiet(info, post_info, act),
            Message::CtrlDPressed => post == pre.after_ctrl_d() && Sniffer::quiet(
                info,
                post_info,
                act,
            ),
            Message::Search(parameters) => post == Sniffer {
                page_number: 1,
                running_page: RunningPage::Inspect,
                search: parameters,
                ..pre
            } && Sniffer::quiet(info, post_info, act),
            Message::UpdatePageNumber(next) => post == pre.with_page_moved(next)
                && Sniffer::quiet(info, post_info, act),
            Message::ArrowPressed(next, results) => post == pre.after_arrow(next, results)
                && Sniffer::quiet(info, post_info, act),
            Message::WindowFocused(now) => post == Sniffer {
                timing_events: TimingEvents { focus: now, ..pre.timing_events },
                ..pre
            } && Sniffer::quiet(info, post_info, act),
            Message::GradientsSelection(gradient) => post == Sniffer {
                settings: ConfigSettings { color_gradient: gradient, ..pre.settings },
                ..pre
            } && Sniffer::quiet(info, post_info, act),
            Message::WindowMoved(x, y) => post == Sniffer {
                window: ConfigWindow { position: (x, y), ..pre.window },
                ..pre
            } && Sniffer::quiet(info, post_info, act),
            Message::WindowResized(width, height) => post == Sniffer {
                window: ConfigWindow { size: (width, height), ..pre.window },
                ..pre
            } && Sniffer::quiet(info, post_info, act),
            Message::CustomCountryDb(db) => post == Sniffer {
                settings: ConfigSettings { mmdb_country: db, ..pre.settings },
                ..pre
            } && post_info == info && act == Action::LoadCountryDb(db),
            Message::CustomAsnDb(db) => post == Sniffer {
                settings: ConfigSettings { mmdb_asn: db, ..pre.settings },
                ..pre
            } && post_info == info && act == Action::LoadAsnDb(db),
            Message::CloseRequested => post == pre && post_info == info && act
                == Action::StoreConfigsAndClose,
            Message::CopyIp(ip, now) => post == Sniffer {
                timing_events: TimingEvents { copy_ip: (now, ip), ..pre.timing_events },
                ..pre
            } && post_info == info && act == Action::WriteClipboard(ip),
        }
    }

    /// React to `message`, with `info_traffic` the traffic data the capture
    /// gathered, and tell the host what to do next.
    pub fn update(&mut self, message: Message, info_traffic: &mut InfoTraffic) -> (act: Action)
        requires
            old(self).wf(),
            old(info_traffic).wf(),
            Sniffer::can_update(*old(self), *old(info_traffic), message),
        ensures
            Sniffer::step(*old(self), *old(info_traffic), message, *final(self), *final(info_traffic), act),
            final(self).wf(),
            final(info_traffic).wf(),
    {
        let group: u8 = message.group_of();
        if group == 0 {
            self.update_capture(message, info_traffic)
        } else if group == 1 {
            self.update_pages(message, info_traffic)
        } else {
            self.update_settings(message, info_traffic)
        }
    }

    /// The messages about the capture.
    #[verifier::spinoff_prover]
    fn update_capture(&mut self, message: Message, info_traffic: &mut InfoTraffic) -> (act: Action)
        requires
            message.group() == 0,
            old(self).wf(),
            old(info_traffic).wf(),
            Sniffer::can_update(*old(self), *old(info_traffic), message),
        ensures
            Sniffer::step(*old(self), *old(info_traffic), message, *final(self), *final(info_traffic), act),
            final(self).wf(),
            final(info_traffic).wf(),
    {
        match message {
            Message::TickRun => self.refresh_data(info_traffic),
            Message::NotificationsEmitted(emitted) => self.count_notifications(info_traffic, emitted),
            Message::AdapterSelection(name, devices) => {
                self.set_adapter(&name, devices);
                Action::Nothing
            },
            Message::IpVersionSelection(version, insert) => {
                self.select_ip_version(version, insert);
                Action::Nothing
            },
            Message::ProtocolSelection(protocol, insert) => {
                self.select_protocol(protocol, insert);
                Action::Nothing
            },
            Message::AddressFilter(value, parses) => {
                self.set_address_filter(value, parses);
                Action::Nothing
            },
            Message::PortFilter(value, parses) => {
                self.set_port_filter(value, parses);
                Action::Nothing
            },
            Message::Start => Action::ListCaptureDevices,
            Message::CaptureDevices(devices) => {
                let name = self.device.name.clone();
                self.set_adapter(&name, devices);
                Action::OpenCapture
            },
            Message::CaptureOpened(error) => self.capture_opened(info_traffic, error),
            Message::Reset => {
                self.reset();
                Action::Nothing
            },
            Message::AddOrRemoveFavorite(host, add) => {
                Sniffer::add_or_remove_favorite(info_traffic, host, add);
                Action::Nothing
            },
            Message::ClearAllNotifications => {
                self.clear_all_notifications();
                Action::Nothing
            },
            _ => Action::Nothing,
        }
    }

    /// The messages about the pages and overlays.
    #[verifier::spinoff_prover]
    fn update_pages(&mut self, message: Message, info_traffic: &mut InfoTraffic) -> (act: Action)
        requires
            message.group() == 1,
            old(self).wf(),
            old(info_traffic).wf(),
            Sniffer::can_update(*old(self), *old(info_traffic), message),
        ensures
            Sniffer::step(*old(self), *old(info_traffic), message, *final(self), *final(info_traffic), act),
            final(self).wf(),
            final(info_traffic).wf(),
    {
        match message {
            Message::ShowModal(modal) => {
                self.show_modal(modal);
                Action::Nothing
            },
            Message::HideModal => {
                self.hide_modal();
                Action::Nothing
            },
            Message::OpenSettings(page) => {
                self.open_settings(page);
                Action::Nothing
            },
            Message::OpenLastSettings => {
                self.open_last_settings();
                Action::Nothing
            },
            Message::CloseSettings => {
                self.close_settings();
                Action::Nothing
            },
            Message::ChangeRunningPage(page) => {
                self.change_running_page(page);
                Action::Nothing
            },
            Message::SwitchPage(next, now) => {
                if !self.timing_events.was_just_focus(now) {
                    self.switch_page(next);
                }
                Action::Nothing
            },
            Message::ReturnKeyPressed => self.shortcut_return(),
            Message::EscKeyPressed => {
                self.shortcut_esc();
                Action::Nothing
            },
            Message::ResetButtonPressed => {
                self.reset_button_pressed(info_traffic);
                Action::Nothing
            },
            Message::CtrlDPressed => {
                self.shortcut_ctrl_d();
                Action::Nothing
            },
            Message::Search(parameters) => {
                self.page_number = 1;
                self.running_page = RunningPage::Inspect;
                self.search = parameters;
                Action::Nothing
            },
            Message::UpdatePageNumber(next) => {
                self.update_page_number(next);
                Action::Nothing
            },
            Message::ArrowPressed(next, results) => {
                self.arrow_pressed(next, results);
                Action::Nothing
            },
            _ => Action::Nothing,
        }
    }

    /// The messages about the settings and the window.
    #[verifier::spinoff_prover]
    fn update_settings(&mut self, message: Message, info_traffic: &mut InfoTraffic) -> (act: Action)
        requires
            message.group() == 2,
            old(self).wf(),
            old(info_traffic).wf(),
            Sniffer::can_update(*old(self), *old(info_traffic), message),
        ensures
            Sniffer::step(*old(self), *old(info_traffic), message, *final(self), *final(info_traffic), act),
            final(self).wf(),
            final(info_traffic).wf(),
    {
        match message {
            Message::ChartSelection(kind) => {
                self.traffic_chart.change_kind(kind);
                Action::Nothing
            },
            Message::ReportSortSelection(sort) => {
                self.report_sort_type = sort;
                Action::Nothing
            },
            Message::OpenWebPage(page) => Action::OpenWeb(page),
            Message::Style(style) => {
                self.settings.style = style;
                self.traffic_chart.change_style(style);
                Action::Nothing
            },
            Message::LoadStyle(path, loaded) => {
                self.settings.style_path = path;
                if loaded {
                    self.settings.style = StyleType::Custom(ExtraStyles::CustomToml);
                    self.traffic_chart.change_style(self.settings.style);
                }
                Action::Nothing
            },
            Message::Waiting => {
                self.update_waiting_dots();
                Action::Nothing
            },
            Message::LanguageSelection(language) => {
                self.settings.language = language;
                self.traffic_chart.change_language(language);
                Action::Nothing
            },
            Message::UpdateNotificationSettings(value, emit_sound) => {
                self.update_notification_settings(value, emit_sound)
            },
            Message::ChangeVolume(volume) => {
                self.settings.notifications.volume = volume;
                Action::PlaySound(Sound::Pop, volume)
            },
            Message::Quit => Action::CloseWindow,
            Message::WindowFocused(now) => {
                self.timing_events.focus_now(now);
                Action::Nothing
            },
            Message::GradientsSelection(gradient) => {
                self.settings.color_gradient = gradient;
                Action::Nothing
            },
            Message::WindowMoved(x, y) => {
                self.window.position = (x, y);
                Action::Nothing
            },
            Message::WindowResized(width, height) => {
                self.window.size = (width, height);
                Action::Nothing
            },
            Message::CustomCountryDb(db) => {
                self.settings.mmdb_country = db.clone();
                Action::LoadCountryDb(db)
            },
            Message::CustomAsnDb(db) => {
                self.settings.mmdb_asn = db.clone();
                Action::LoadAsnDb(db)
            },
            Message::CloseRequested => Action::StoreConfigsAndClose,
            Message::CopyIp(ip, now) => {
                self.timing_events.copy_ip_now(ip.clone(), now);
                Action::WriteClipboard(ip)
            },
            _ => Action::Nothing,
        }
    }
}

impl Message {
    /// Which part of the interface the message concerns: the capture (0),
    /// the pages and overlays (1), the settings and the window (2).
    pub open spec fn group(self) -> int {
        match self {
            Message::TickRun => 0,
            Message::NotificationsEmitted(_) => 0,
            Message::AdapterSelection(_, _) => 0,
            Message::IpVersionSelection(_, _) => 0,
            Message::ProtocolSelection(_, _) => 0,
            Message::AddressFilter(_, _) => 0,
            Message::PortFilter(_, _) => 0,
            Message::Start => 0,
            Message::CaptureDevices(_) => 0,
            Message::CaptureOpened(_) => 0,
            Message::Reset => 0,
            Message::AddOrRemoveFavorite(_, _) => 0,
            Message::ClearAllNotifications => 0,
            Message::ShowModal(_) => 1,
            Message::HideModal => 1,
            Message::OpenSettings(_) => 1,
            Message::OpenLastSettings => 1,
            Message::CloseSettings => 1,
            Message::ChangeRunningPage(_) => 1,
            Message::SwitchPage(_, _) => 1,
            Message::ReturnKeyPressed => 1,
            Message::EscKeyPressed => 1,
            Message::ResetButtonPressed => 1,
            Message::CtrlDPressed => 1,
            Message::Search(_) => 1,
            Message::UpdatePageNumber(_) => 1,
            Message::ArrowPressed(_, _) => 1,
            Message::ChartSelection(_) => 2,
            Message::ReportSortSelection(_) => 2,
            Message::OpenWebPage(_) => 2,
            Message::Style(_) => 2,
            Message::LoadStyle(_, _) => 2,
            Message::Waiting => 2,
            Message::LanguageSelection(_) => 2,
            Message::UpdateNotificationSettings(_, _) => 2,
            Message::ChangeVolume(_) => 2,
            Message::Quit => 2,
            Message::WindowFocused(_) => 2,
            Message::GradientsSelection(_) => 2,
            Message::WindowMoved(_, _) => 2,
            Message::WindowResized(_, _) => 2,
            Message::CustomCountryDb(_) => 2,
            Message::CustomAsnDb(_) => 2,
            Message::CloseRequested => 2,
            Message::CopyIp(_, _) => 2,
        }
    }

    pub(crate) fn group_of(&self) -> (r: u8)
        ensures
            r == self.group(),
    {
        match self {
            Message::TickRun => 0,
            Message::NotificationsEmitted(_) => 0,
            Message::AdapterSelection(_, _) => 0,
            Message::IpVersionSelection(_, _) => 0,
            Message::ProtocolSelection(_, _) => 0,
            Message::AddressFilter(_, _) => 0,
            Message::PortFilter(_, _) => 0,
            Message::Start => 0,
            Message::CaptureDevices(_) => 0,
            Message::CaptureOpened(_) => 0,
            Message::Reset => 0,
            Message::AddOrRemoveFavorite(_, _) => 0,
            Message::ClearAllNotifications => 0,
            Message::ShowModal(_) => 1,
            Message::HideModal => 1,
            Message::OpenSettings(_) => 1,
            Message::OpenLastSettings => 1,
            Message::CloseSettings => 1,
            Message::ChangeRunningPage(_) => 1,
            Message::SwitchPage(_, _) => 1,
            Message::ReturnKeyPressed => 1,
            Message::EscKeyPressed => 1,
            Message::ResetButtonPressed => 1,
            Message::CtrlDPressed => 1,
            Message::Search(_) => 1,
            Message::UpdatePageNumber(_) => 1,
            Message::ArrowPressed(_, _) => 1,
            Message::ChartSelection(_) => 2,
            Message::ReportSortSelection(_) => 2,
            Message::OpenWebPage(_) => 2,
            Message::Style(_) => 2,
            Message::LoadStyle(_, _) => 2,
            Message::Waiting => 2,
            Message::LanguageSelection(_) => 2,
            Message::UpdateNotificationSettings(_, _) => 2,
            Message::ChangeVolume(_) => 2,
            Message::Quit => 2,
            Message::WindowFocused(_) => 2,
            Message::GradientsSelection(_) => 2,
            Message::WindowMoved(_, _) => 2,
            Message::WindowResized(_, _) => 2,
            Message::CustomCountryDb(_) => 2,
            Message::CustomAsnDb(_) => 2,
            Message::CloseRequested => 2,
            Message::CopyIp(_, _) => 2,
        }
    }
}

} // verus!
