//! The state of the interface and the transitions each message makes.

use vstd::prelude::*;

use crate::chart::{ChartType, ReportSortType, TrafficChart};
use crate::pages::{MyModal, RunningPage, SettingsPage};
use crate::settings::{ConfigDevice, ConfigSettings, ConfigWindow, Configs};
use crate::text::{byte_len, dots, lemma_dots_byte_len, lemma_repeated_dot, str_repeat};
use crate::timing::TimingEvents;
use crate::traffic::{Filters, IpVersion, MyDevice, Protocol, RunTimeData, SearchParameters};
use vstd::utf8::encode_utf8;

verus! {

/// The state of the interface.
pub struct Sniffer {
    /// Number of the current capture, increased at every reset so that the
    /// parsing of an older capture stops.
    pub current_capture_id: usize,
    /// Traffic statistics shown by the interface.
    pub runtime_data: RunTimeData,
    /// The adapter to capture from.
    pub device: MyDevice,
    /// Name of the last adapter packets were seen on; saved in the configuration.
    pub last_device_name_sniffed: String,
    /// The filters of the capture.
    pub filters: Filters,
    /// The error the capture gave when it was opened, if any.
    pub pcap_error: Option<String>,
    /// The waiting dots.
    pub waiting: String,
    /// The traffic chart.
    pub traffic_chart: TrafficChart,
    /// How the report is ordered.
    pub report_sort_type: ReportSortType,
    /// The modal shown, if any.
    pub modal: Option<MyModal>,
    /// The settings page shown, if the settings are open.
    pub settings_page: Option<SettingsPage>,
    /// The settings page that was open last.
    pub last_opened_setting: SettingsPage,
    /// The running page.
    pub running_page: RunningPage,
    /// Number of notifications not seen yet.
    pub unread_notifications: usize,
    /// The search of the inspect page.
    pub search: SearchParameters,
    /// Page of the search results shown.
    pub page_number: usize,
    /// The application settings.
    pub settings: ConfigSettings,
    /// Position and size of the window.
    pub window: ConfigWindow,
    /// Time-related events.
    pub timing_events: TimingEvents,
}

impl Sniffer {
    /// The IP versions and protocols of the filters occur once each.
    pub open spec fn wf(&self) -> bool {
        &&& self.filters.ip_versions@.no_duplicates()
        &&& self.filters.protocols@.no_duplicates()
    }

    /// The state of a freshly opened interface for the configuration `configs`
    /// and the adapter `device` it names.
    pub open spec fn is_initial_for(&self, configs: &Configs, device: MyDevice) -> bool {
        &&& self.current_capture_id == 0
        &&& self.runtime_data.is_empty()
        &&& self.device == device
        &&& self.last_device_name_sniffed@ == configs.device.device_name@
        &&& self.filters.is_initial()
        &&& self.pcap_error is None
        &&& self.waiting@ == dots(1)
        &&& self.traffic_chart == TrafficChart {
            chart_type: ChartType::Bytes,
            language: configs.settings.language,
            style: configs.settings.style,
        }
        &&& self.report_sort_type == ReportSortType::MostRecent
        &&& self.modal is None
        &&& self.settings_page is None
        &&& self.last_opened_setting == SettingsPage::Notifications
        &&& self.running_page == RunningPage::Init
        &&& self.unread_notifications == 0
        &&& self.search.is_initial()
        &&& self.page_number == 1
        &&& self.settings == configs.settings
        &&& self.window == configs.window
        &&& self.timing_events.focus == 0
        &&& self.timing_events.copy_ip.0 == 0
        &&& self.timing_events.copy_ip.1@.len() == 0
    }

    /// The interface opened with the configuration `configs`, capturing from
    /// `device`, the adapter the configuration names (see `ConfigDevice::to_my_device`).
    pub fn new(configs: &Configs, device: MyDevice) -> (r: Sniffer)
        ensures
            r.is_initial_for(configs, device),
            r.wf(),
    {
        let waiting = ".".to_owned();
        proof {
            reveal_strlit(".");
            assert(waiting@ =~= dots(1));
        }
        let settings = configs.settings.duplicate();
        let r = Sniffer {
            current_capture_id: 0,
            runtime_data: RunTimeData::new(),
            device,
            last_device_name_sniffed: configs.device.device_name.clone(),
            filters: Filters::new(),
            pcap_error: None,
            waiting,
            traffic_chart: TrafficChart::new(configs.settings.style, configs.settings.language),
            report_sort_type: ReportSortType::MostRecent,
            modal: None,
            settings_page: None,
            last_opened_setting: SettingsPage::Notifications,
            running_page: RunningPage::Init,
            unread_notifications: 0,
            search: SearchParameters::new(),
            page_number: 1,
            settings,
            window: configs.window,
            timing_events: TimingEvents::new(),
        };
        proof {
            assert(r.filters.ip_versions@ == seq![IpVersion::IPv4, IpVersion::IPv6]);
            assert(r.filters.protocols@ == seq![Protocol::TCP, Protocol::UDP, Protocol::ICMP]);
        }
        r
    }

    /// `configs` is the configuration this state saves: its settings, the
    /// last adapter packets were seen on, and its window.
    pub open spec fn saves(self, configs: Configs) -> bool {
        &&& configs.settings == self.settings
        &&& configs.device.device_name@ == self.last_device_name_sniffed@
        &&& configs.window == self.window
    }

    /// The configuration to save.
    pub fn get_configs(&self) -> (r: Configs)
        ensures
            self.saves(r),
    {
        Configs {
            settings: self.settings.duplicate(),
            device: ConfigDevice { device_name: self.last_device_name_sniffed.clone() },
            window: self.window,
        }
    }
    /// The waiting dots after one more step: a dot more, back to one dot after three.
    pub open spec fn next_waiting(waiting: Seq<char>) -> Seq<char> {
        if byte_len(waiting) > 2 {
            dots(1)
        } else {
            dots((byte_len(waiting) + 1) as nat)
        }
    }

    /// `post` is `pre` with the waiting dots advanced.
    pub open spec fn waiting_advanced(pre: Sniffer, post: Sniffer) -> bool {
        &&& post.waiting@ == Sniffer::next_waiting(pre.waiting@)
        &&& post == Sniffer { waiting: post.waiting, ..pre }
    }

    pub fn update_waiting_dots(&mut self)
        ensures
            Sniffer::waiting_advanced(*old(self), *final(self)),
    {
        if self.waiting.as_str().len() > 2 {
            self.waiting = String::new();
            proof {
                lemma_dots_byte_len(0);
                assert(self.waiting@ =~= dots(0));
            }
        }
        let n: usize = self.waiting.as_str().len();
        proof {
            reveal_strlit(".");
            lemma_dots_byte_len(1);
            assert("."@ =~= seq!['.']);
            assert(seq!['.'] =~= dots(1));
            assert(n <= 2);
            assert(encode_utf8("."@).len() * (n + 1) <= 3) by (nonlinear_arith)
                requires
                    encode_utf8("."@).len() == 1,
                    n <= 2,
            ;
            lemma_repeated_dot((n + 1) as nat);
        }
        self.waiting = str_repeat(".", n + 1);
    }
    /// The modal `m` shown, unless the settings or another modal are open.
    pub open spec fn with_modal_shown(self, m: MyModal) -> Sniffer {
        if self.settings_page is None && self.modal is None {
            Sniffer { modal: Some(m), ..self }
        } else {
            self
        }
    }

    /// No modal shown.
    pub open spec fn with_modal_hidden(self) -> Sniffer {
        Sniffer { modal: None, ..self }
    }

    /// The settings open on page `page`, unless a modal is shown.
    pub open spec fn with_settings_opened(self, page: SettingsPage) -> Sniffer {
        if self.modal is None {
            Sniffer { settings_page: Some(page), ..self }
        } else {
            self
        }
    }

    /// The settings open on the page that was open last, unless a modal is
    /// shown or the settings are open already.
    pub open spec fn with_last_settings_opened(self) -> Sniffer {
        if self.modal is None && self.settings_page is None {
            Sniffer { settings_page: Some(self.last_opened_setting), ..self }
        } else {
            self
        }
    }

    /// The settings closed, their page remembered as the one open last.
    pub open spec fn with_settings_closed(self) -> Sniffer {
        match self.settings_page {
            Some(page) => Sniffer { last_opened_setting: page, settings_page: None, ..self },
            None => self,
        }
    }

    /// The running page `page` shown; the notifications count as read once their page is shown.
    pub open spec fn with_running_page(self, page: RunningPage) -> Sniffer {
        Sniffer {
            running_page: page,
            unread_notifications: if page == RunningPage::Notifications {
                0
            } else {
                self.unread_notifications
            },
            ..self
        }
    }

    /// The next (`next`) or previous page: of the settings when they are open,
    /// else of the running pages once packets have been seen; nothing changes
    /// while a modal is shown.
    pub open spec fn with_page_switched(self, next: bool) -> Sniffer {
        if self.modal is None {
            match self.settings_page {
                Some(current) => Sniffer {
                    settings_page: Some(
                        if next {
                            current.following()
                        } else {
                            current.preceding()
                        },
                    ),
                    ..self
                },
                None => {
                    if self.running_page != RunningPage::Init
                        && self.runtime_data.tot_sent_packets
                        + self.runtime_data.tot_received_packets > 0 {
                        self.with_running_page(
                            if next {
                                self.running_page.following()
                            } else {
                                self.running_page.preceding()
                            },
                        )
                    } else {
                        self
                    }
                },
            }
        } else {
            self
        }
    }

    /// Whether a page switch would move through the running pages: a capture
    /// runs and no overlay is open.
    pub open spec fn switches_running_page(self) -> bool {
        self.modal is None && self.settings_page is None && self.running_page != RunningPage::Init
    }

    pub fn show_modal(&mut self, modal: MyModal)
        ensures
            *final(self) == old(self).with_modal_shown(modal),
    {
        if self.settings_page.is_none() && self.modal.is_none() {
            self.modal = Some(modal);
        }
    }

    pub fn hide_modal(&mut self)
        ensures
            *final(self) == old(self).with_modal_hidden(),
    {
        self.modal = None;
    }

    pub fn open_settings(&mut self, page: SettingsPage)
        ensures
            *final(self) == old(self).with_settings_opened(page),
    {
        if self.modal.is_none() {
            self.settings_page = Some(page);
        }
    }

    pub fn open_last_settings(&mut self)
        ensures
            *final(self) == old(self).with_last_settings_opened(),
    {
        if self.modal.is_none() && self.settings_page.is_none() {
            self.settings_page = Some(self.last_opened_setting);
        }
    }

    pub fn close_settings(&mut self)
        ensures
            *final(self) == old(self).with_settings_closed(),
    {
        if let Some(page) = self.settings_page {
            self.last_opened_setting = page;
            self.settings_page = None;
        }
    }

    pub fn change_running_page(&mut self, page: RunningPage)
        ensures
            *final(self) == old(self).with_running_page(page),
    {
        self.running_page = page;
        if page == RunningPage::Notifications {
            self.unread_notifications = 0;
        }
    }

    pub fn switch_page(&mut self, next: bool)
        requires
            Sniffer::switches_running_page(*old(self)) ==> old(self).runtime_data.tot_sent_packets
                + old(self).runtime_data.tot_received_packets <= u128::MAX,
        ensures
            *final(self) == old(self).with_page_switched(next),
    {
        if self.modal.is_none() {
            match self.settings_page {
                Some(current) => {
                    if next {
                        self.settings_page = Some(current.next());
                    } else {
                        self.settings_page = Some(current.previous());
                    }
                },
                None => {
                    if self.running_page != RunningPage::Init {
                        if self.runtime_data.tot_sent_packets
                            + self.runtime_data.tot_received_packets > 0 {
                            let page = if next {
                                self.running_page.next()
                            } else {
                                self.running_page.previous()
                            };
                            self.change_running_page(page);
                        }
                    }
                },
            }
        }
    }
}

} // verus!
