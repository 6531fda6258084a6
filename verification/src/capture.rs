//! Transitions of the capture: the adapter, the filters, the favorites, the
//! periodic refresh, starting and resetting a capture.

use std::collections::VecDeque;

use vstd::prelude::*;

use crate::chart::{ChartType, ReportSortType, TrafficChart};
use crate::message::Action;
use crate::pages::RunningPage;
use crate::sets::{lemma_push_fresh, lemma_remove_distinct};
use crate::settings::is_first_named;
use crate::sniffer::Sniffer;
use crate::traffic::{
    DataInfoHost, Filters, Host, HostView, InfoTraffic, IpVersion, MyDevice, Protocol,
    RunTimeData, SearchParameters,
};

verus! {

/// Index of `v` in `vs`, if it occurs.
fn position_of_ip_version(vs: &Vec<IpVersion>, v: IpVersion) -> (r: Option<usize>)
    ensures
        match r {
            Some(i) => i < vs@.len() && vs@[i as int] == v,
            None => !vs@.contains(v),
        },
{
    let mut i: usize = 0;
    while i < vs.len()
        invariant
            i <= vs@.len(),
            forall|j: int| 0 <= j < i ==> vs@[j] != v,
        decreases vs@.len() - i,
    {
        if vs[i] == v {
            return Some(i);
        }
        i = i + 1;
    }
    None
}

/// Index of `p` in `ps`, if it occurs.
fn position_of_protocol(ps: &Vec<Protocol>, p: Protocol) -> (r: Option<usize>)
    ensures
        match r {
            Some(i) => i < ps@.len() && ps@[i as int] == p,
            None => !ps@.contains(p),
        },
{
    let mut i: usize = 0;
    while i < ps.len()
        invariant
            i <= ps@.len(),
            forall|j: int| 0 <= j < i ==> ps@[j] != p,
        decreases ps@.len() - i,
    {
        if ps[i] == p {
            return Some(i);
        }
        i = i + 1;
    }
    None
}

/// Index of a host that is the same as `host` in `hosts`, if there is one.
fn position_of_host(hosts: &Vec<Host>, host: &Host) -> (r: Option<usize>)
    ensures
        match r {
            Some(i) => i < hosts@.len() && hosts@[i as int]@ == host@,
            None => !hosts@.map_values(|h: Host| h@).contains(host@),
        },
{
    let mut i: usize = 0;
    while i < hosts.len()
        invariant
            i <= hosts@.len(),
            forall|j: int| 0 <= j < i ==> hosts@[j]@ != host@,
        decreases hosts@.len() - i,
    {
        if hosts[i].same_as(host) {
            return Some(i);
        }
        i = i + 1;
    }
    proof {
        let views = hosts@.map_values(|h: Host| h@);
        assert forall|k: int| 0 <= k < views.len() implies views[k] != host@ by {
            assert(views[k] == hosts@[k]@);
        }
    }
    None
}

/// The set `s` with `x` added (`insert`) or taken out.
pub open spec fn toggled<A>(s: Set<A>, x: A, insert: bool) -> Set<A> {
    if insert {
        s.insert(x)
    } else {
        s.remove(x)
    }
}

impl Sniffer {
    /// `post` is `pre` with the adapter named `name` among `devices` selected,
    /// the first such; unchanged when none has that name.
    pub open spec fn adapter_set(
        pre: Sniffer,
        name: Seq<char>,
        devices: Seq<MyDevice>,
        post: Sniffer,
    ) -> bool {
        ||| exists|i: int|
            is_first_named(devices, name, i) && post == Sniffer { device: devices[i], ..pre }
        ||| (forall|i: int| 0 <= i < devices.len() ==> #[trigger] devices[i].name@ != name)
            && post == pre
    }

    /// Select the adapter named `name` among `devices`, the adapters the system lists.
    pub fn set_adapter(&mut self, name: &String, devices: Vec<MyDevice>)
        ensures
            Sniffer::adapter_set(*old(self), name@, devices@, *final(self)),
    {
        let mut remaining = devices;
        let ghost listed = remaining@;
        let mut i: usize = 0;
        while i < remaining.len()
            invariant
                remaining@ == listed,
                listed == devices@,
                *self == *old(self),
                i <= remaining@.len(),
                forall|j: int| 0 <= j < i ==> #[trigger] remaining@[j].name@ != name@,
            decreases remaining@.len() - i,
        {
            if remaining[i].name == *name {
                let found = remaining.remove(i);
                let ghost pre = *self;
                self.device = found;
                assert(is_first_named(listed, name@, i as int) && *self == Sniffer {
                    device: listed[i as int],
                    ..pre
                });
                assert(exists|k: int|
                    is_first_named(listed, name@, k) && *self == Sniffer { device: listed[k], ..pre });
                return;
            }
            i = i + 1;
        }
    }

    /// `post` is `pre` with the IP version `v` included in (`insert`) or
    /// excluded from the filters.
    pub open spec fn ip_version_selected(pre: Sniffer, v: IpVersion, insert: bool, post: Sniffer) -> bool {
        &&& post.filters.ip_versions@.to_set() == toggled(
            pre.filters.ip_versions@.to_set(),
            v,
            insert,
        )
        &&& post.filters.ip_versions@.no_duplicates()
        &&& post == Sniffer {
            filters: Filters { ip_versions: post.filters.ip_versions, ..pre.filters },
            ..pre
        }
    }

    pub fn select_ip_version(&mut self, v: IpVersion, insert: bool)
        requires
            old(self).wf(),
        ensures
            Sniffer::ip_version_selected(*old(self), v, insert, *final(self)),
    {
        let ghost s = self.filters.ip_versions@;
        match position_of_ip_version(&self.filters.ip_versions, v) {
            Some(i) => {
                if !insert {
                    self.filters.ip_versions.remove(i);
                    proof {
                        lemma_remove_distinct(s, i as int);
                    }
                } else {
                    assert(s.to_set().insert(v) =~= s.to_set());
                }
            },
            None => {
                if insert {
                    self.filters.ip_versions.push(v);
                    proof {
                        lemma_push_fresh(s, v);
                    }
                } else {
                    assert(s.to_set().remove(v) =~= s.to_set());
                }
            },
        }
    }

    /// `post` is `pre` with the protocol `p` included in (`insert`) or
    /// excluded from the filters.
    pub open spec fn protocol_selected(pre: Sniffer, p: Protocol, insert: bool, post: Sniffer) -> bool {
        &&& post.filters.protocols@.to_set() == toggled(
            pre.filters.protocols@.to_set(),
            p,
            insert,
        )
        &&& post.filters.protocols@.no_duplicates()
        &&& post == Sniffer {
            filters: Filters { protocols: post.filters.protocols, ..pre.filters },
            ..pre
        }
    }

    pub fn select_protocol(&mut self, p: Protocol, insert: bool)
        requires
            old(self).wf(),
        ensures
            Sniffer::protocol_selected(*old(self), p, insert, *final(self)),
    {
        let ghost s = self.filters.protocols@;
        match position_of_protocol(&self.filters.protocols, p) {
            Some(i) => {
                if !insert {
                    self.filters.protocols.remove(i);
                    proof {
                        lemma_remove_distinct(s, i as int);
                    }
                } else {
                    assert(s.to_set().insert(p) =~= s.to_set());
                }
            },
            None => {
                if insert {
                    self.filters.protocols.push(p);
                    proof {
                        lemma_push_fresh(s, p);
                    }
                } else {
                    assert(s.to_set().remove(p) =~= s.to_set());
                }
            },
        }
    }

    /// The address filter `value` as typed; the collection follows it when it parses.
    pub fn set_address_filter(&mut self, value: String, parses: bool)
        ensures
            *final(self) == (Sniffer {
                filters: Filters {
                    address_str: value,
                    address_collection: if parses {
                        value
                    } else {
                        old(self).filters.address_collection
                    },
                    ..old(self).filters
                },
                ..*old(self)
            }),
    {
        if parses {
            self.filters.address_collection = value.clone();
        }
        self.filters.address_str = value;
    }

    /// The port filter `value` as typed; the collection follows it when it parses.
    pub fn set_port_filter(&mut self, value: String, parses: bool)
        ensures
            *final(self) == (Sniffer {
                filters: Filters {
                    port_str: value,
                    port_collection: if parses {
                        value
                    } else {
                        old(self).filters.port_collection
                    },
                    ..old(self).filters
                },
                ..*old(self)
            }),
    {
        if parses {
            self.filters.port_collection = value.clone();
        }
        self.filters.port_str = value;
    }

    /// `post` is `pre` with `host` marked favorite (`add`) or not: the set of
    /// favorites gains or loses it, and the entry of the host, if it was
    /// seen, says so.
    pub open spec fn favorite_toggled(pre: InfoTraffic, host: HostView, add: bool, post: InfoTraffic) -> bool {
        &&& post.favorites() == toggled(pre.favorites(), host, add)
        &&& post.wf()
        &&& post.hosts@.len() == pre.hosts@.len()
        &&& forall|i: int|
            0 <= i < pre.hosts@.len() ==> (#[trigger] post.hosts@[i]).0 == pre.hosts@[i].0
                && post.hosts@[i].1 == if pre.hosts@[i].0@ == host {
                DataInfoHost { is_favorite: add, ..pre.hosts@[i].1 }
            } else {
                pre.hosts@[i].1
            }
        &&& post == InfoTraffic { hosts: post.hosts, favorite_hosts: post.favorite_hosts, ..pre }
    }

    /// Mark `host` as favorite (`add`) or not, in the traffic data of the capture.
    pub fn add_or_remove_favorite(info_traffic: &mut InfoTraffic, host: Host, add: bool)
        requires
            old(info_traffic).wf(),
        ensures
            Sniffer::favorite_toggled(*old(info_traffic), host@, add, *final(info_traffic)),
    {
        let ghost pre = *info_traffic;
        let mut i: usize = 0;
        while i < info_traffic.hosts.len()
            invariant
                i <= info_traffic.hosts@.len(),
                info_traffic.hosts@.len() == pre.hosts@.len(),
                forall|k: int|
                    0 <= k < i ==> (#[trigger] info_traffic.hosts@[k]).0 == pre.hosts@[k].0
                        && info_traffic.hosts@[k].1 == if pre.hosts@[k].0@ == host@ {
                        DataInfoHost { is_favorite: add, ..pre.hosts@[k].1 }
                    } else {
                        pre.hosts@[k].1
                    },
                forall|k: int|
                    i <= k < info_traffic.hosts@.len() ==> #[trigger] info_traffic.hosts@[k]
                        == pre.hosts@[k],
                *info_traffic == (InfoTraffic { hosts: info_traffic.hosts, ..pre }),
            decreases info_traffic.hosts@.len() - i,
        {
            if info_traffic.hosts[i].0.same_as(&host) {
                info_traffic.hosts[i].1.is_favorite = add;
            }
            i = i + 1;
        }
        let ghost s = info_traffic.favorite_hosts@;
        let ghost views = s.map_values(|h: Host| h@);
        match position_of_host(&info_traffic.favorite_hosts, &host) {
            Some(j) => {
                if !add {
                    info_traffic.favorite_hosts.remove(j);
                    proof {
                        lemma_remove_distinct(views, j as int);
                        assert(info_traffic.favorite_hosts@.map_values(|h: Host| h@)
                            =~= views.remove(j as int));
                    }
                } else {
                    assert(views[j as int] == host@);
                    assert(views.contains(host@));
                    assert(views.to_set().insert(host@) =~= views.to_set());
                }
            },
            None => {
                if add {
                    let ghost hv = host@;
                    info_traffic.favorite_hosts.push(host);
                    proof {
                        lemma_push_fresh(views, hv);
                        assert(info_traffic.favorite_hosts@.map_values(|h: Host| h@)
                            =~= views.push(hv));
                    }
                } else {
                    assert(views.to_set().remove(host@) =~= views.to_set());
                }
            },
        }
    }
    /// `post` is `pre` after a refresh of the statistics from `info`: the
    /// packet count is copied; without traffic yet only the waiting dots
    /// advance, else every counter is copied and the notifications are to be
    /// checked.
    pub open spec fn refreshed(pre: Sniffer, info: InfoTraffic, post: Sniffer, act: Action) -> bool {
        let counted = Sniffer {
            runtime_data: RunTimeData { all_packets: info.all_packets, ..pre.runtime_data },
            ..pre
        };
        if info.tot_received_packets + info.tot_sent_packets == 0 {
            Sniffer::waiting_advanced(counted, post) && act == Action::Nothing
        } else {
            &&& post == Sniffer {
                runtime_data: RunTimeData {
                    tot_sent_packets: info.tot_sent_packets,
                    tot_received_packets: info.tot_received_packets,
                    all_bytes: info.all_bytes,
                    tot_received_bytes: info.tot_received_bytes,
                    tot_sent_bytes: info.tot_sent_bytes,
                    dropped_packets: info.dropped_packets,
                    ..counted.runtime_data
                },
                ..pre
            }
            &&& act == Action::EmitNotifications
        }
    }

    pub fn refresh_data(&mut self, info_traffic: &InfoTraffic) -> (act: Action)
        requires
            info_traffic.tot_received_packets + info_traffic.tot_sent_packets <= u128::MAX,
        ensures
            Sniffer::refreshed(*old(self), *info_traffic, *final(self), act),
    {
        self.runtime_data.all_packets = info_traffic.all_packets;
        if info_traffic.tot_received_packets + info_traffic.tot_sent_packets == 0 {
            self.update_waiting_dots();
            return Action::Nothing;
        }
        self.runtime_data.tot_sent_packets = info_traffic.tot_sent_packets;
        self.runtime_data.tot_received_packets = info_traffic.tot_received_packets;
        self.runtime_data.all_bytes = info_traffic.all_bytes;
        self.runtime_data.tot_received_bytes = info_traffic.tot_received_bytes;
        self.runtime_data.tot_sent_bytes = info_traffic.tot_sent_bytes;
        self.runtime_data.dropped_packets = info_traffic.dropped_packets;
        Action::EmitNotifications
    }

    /// Counting `emitted` notifications cannot overflow.
    pub open spec fn can_count(pre: Sniffer, emitted: usize) -> bool {
        &&& pre.runtime_data.tot_emitted_notifications + emitted <= usize::MAX
        &&& pre.running_page != RunningPage::Notifications ==> pre.unread_notifications
            + emitted <= usize::MAX
    }

    /// `post` and `post_info` follow `pre` and `info` once `emitted`
    /// notifications were emitted in the last interval: the favorites of the
    /// interval are forgotten, the notifications counted (as unread unless
    /// their page is shown), the adapter remembered, the waiting dots advanced
    /// while the notifications page is shown with nothing logged, and the
    /// chart is to be updated.
    pub open spec fn notifications_counted(
        pre: Sniffer,
        info: InfoTraffic,
        emitted: usize,
        post: Sniffer,
        post_info: InfoTraffic,
        act: Action,
    ) -> bool {
        let counted = Sniffer {
            runtime_data: RunTimeData {
                tot_emitted_notifications: (pre.runtime_data.tot_emitted_notifications
                    + emitted) as usize,
                ..pre.runtime_data
            },
            unread_notifications: if pre.running_page != RunningPage::Notifications {
                (pre.unread_notifications + emitted) as usize
            } else {
                pre.unread_notifications
            },
            last_device_name_sniffed: post.last_device_name_sniffed,
            ..pre
        };
        &&& post_info.favorites_last_interval@.len() == 0
        &&& post_info == InfoTraffic {
            favorites_last_interval: post_info.favorites_last_interval,
            ..info
        }
        &&& post.last_device_name_sniffed@ == pre.device.name@
        &&& if pre.running_page == RunningPage::Notifications
            && pre.runtime_data.logged_notifications@.len() == 0 {
            Sniffer::waiting_advanced(counted, post)
        } else {
            post == counted
        }
        &&& act == Action::UpdateCharts
    }

    pub fn count_notifications(&mut self, info_traffic: &mut InfoTraffic, emitted: usize) -> (act: Action)
        requires
            Sniffer::can_count(*old(self), emitted),
        ensures
            Sniffer::notifications_counted(
                *old(self),
                *old(info_traffic),
                emitted,
                *final(self),
                *final(info_traffic),
                act,
            ),
    {
        info_traffic.favorites_last_interval = Vec::new();
        self.runtime_data.tot_emitted_notifications = self.runtime_data.tot_emitted_notifications
            + emitted;
        if self.running_page != RunningPage::Notifications {
            self.unread_notifications = self.unread_notifications + emitted;
        }
        if self.device.name != self.last_device_name_sniffed {
            self.last_device_name_sniffed = self.device.name.clone();
        }
        if self.running_page == RunningPage::Notifications
            && self.runtime_data.logged_notifications.len() == 0 {
            self.update_waiting_dots();
        }
        Action::UpdateCharts
    }

    /// `post` and `post_info` follow `pre` once the capture on the current
    /// adapter was opened, with error `error` if it failed: traffic data,
    /// statistics and chart start afresh on the overview page, and parsing is
    /// to start unless there was an error.
    pub open spec fn capture_started(
        pre: Sniffer,
        error: Option<String>,
        post: Sniffer,
        post_info: InfoTraffic,
        act: Action,
    ) -> bool {
        &&& post_info.is_empty()
        &&& post.runtime_data.is_empty()
        &&& post == Sniffer {
            pcap_error: error,
            runtime_data: post.runtime_data,
            traffic_chart: TrafficChart {
                chart_type: ChartType::Bytes,
                language: pre.settings.language,
                style: pre.settings.style,
            },
            running_page: RunningPage::Overview,
            ..pre
        }
        &&& act == if error is None {
            Action::StartParsing
        } else {
            Action::Nothing
        }
    }

    pub fn capture_opened(&mut self, info_traffic: &mut InfoTraffic, pcap_error: Option<String>) -> (act: Action)
        ensures
            Sniffer::capture_started(*old(self), pcap_error, *final(self), *final(info_traffic), act),
    {
        let failed = pcap_error.is_some();
        self.pcap_error = pcap_error;
        *info_traffic = InfoTraffic::new();
        self.runtime_data = RunTimeData::new();
        self.traffic_chart = TrafficChart::new(self.settings.style, self.settings.language);
        self.running_page = RunningPage::Overview;
        if failed {
            Action::Nothing
        } else {
            Action::StartParsing
        }
    }

    /// `post` is `pre` after a reset: back to the initial page with no modal,
    /// a new capture id, no capture error, the default report order and
    /// search, the first page of results and no unread notification.
    pub open spec fn reset_done(pre: Sniffer, post: Sniffer) -> bool {
        &&& post.search.is_initial()
        &&& post == Sniffer {
            running_page: RunningPage::Init,
            current_capture_id: (pre.current_capture_id + 1) as usize,
            pcap_error: None,
            report_sort_type: ReportSortType::MostRecent,
            unread_notifications: 0,
            search: post.search,
            page_number: 1,
            modal: None,
            ..pre
        }
    }

    pub fn reset(&mut self)
        requires
            old(self).current_capture_id < usize::MAX,
        ensures
            Sniffer::reset_done(*old(self), *final(self)),
    {
        self.running_page = RunningPage::Init;
        self.current_capture_id = self.current_capture_id + 1;
        self.pcap_error = None;
        self.report_sort_type = ReportSortType::MostRecent;
        self.unread_notifications = 0;
        self.search = SearchParameters::new();
        self.page_number = 1;
        self.hide_modal();
    }

    /// `post` is `pre` with the logged notifications cleared and no modal.
    pub open spec fn notifications_cleared(pre: Sniffer, post: Sniffer) -> bool {
        &&& post.runtime_data.logged_notifications@.len() == 0
        &&& post == Sniffer {
            runtime_data: RunTimeData {
                logged_notifications: post.runtime_data.logged_notifications,
                ..pre.runtime_data
            },
            modal: None,
            ..pre
        }
    }

    pub fn clear_all_notifications(&mut self)
        ensures
            Sniffer::notifications_cleared(*old(self), *final(self)),
    {
        self.runtime_data.logged_notifications = VecDeque::new();
        self.hide_modal();
    }
}

} // verus!
