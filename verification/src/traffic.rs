//! What the capture has seen: hosts, favorites, counters, and the filters
//! and adapter the capture runs with.

use std::collections::VecDeque;

use vstd::prelude::*;

use crate::notifications::LoggedNotification;

verus! {

/// Version of the IP protocol.
#[derive(Clone, Copy, PartialEq, Eq, Structural, Debug, Hash)]
pub enum IpVersion {
    IPv4,
    IPv6,
}

impl IpVersion {
    pub const ALL: [IpVersion; 2] = [IpVersion::IPv4, IpVersion::IPv6];
}

/// Transport protocol.
#[derive(Clone, Copy, PartialEq, Eq, Structural, Debug, Hash)]
pub enum Protocol {
    TCP,
    UDP,
    ICMP,
}

impl Protocol {
    pub const ALL: [Protocol; 3] = [Protocol::TCP, Protocol::UDP, Protocol::ICMP];
}

/// Country of a host (ISO 3166 code; `ZZ` when unknown).
#[derive(Clone, Copy, PartialEq, Eq, Structural, Debug, Hash)]
pub enum Country {
    AU,
    BR,
    CA,
    CH,
    CN,
    DE,
    ES,
    FR,
    GB,
    IE,
    IN,
    IT,
    JP,
    KR,
    NL,
    RU,
    SE,
    US,
    ZZ,
}

/// Autonomous system of a host.
#[derive(Clone, Debug, Default, PartialEq, Eq, Hash)]
pub struct Asn {
    pub number: u32,
    pub name: String,
}

/// A remote host: its domain, autonomous system and country.
#[derive(Clone, Debug, PartialEq, Eq, Hash)]
pub struct Host {
    pub domain: String,
    pub asn: Asn,
    pub country: Country,
}

/// A host as a value: the text of its domain and of its AS name.
pub struct HostView {
    pub domain: Seq<char>,
    pub asn_number: u32,
    pub asn_name: Seq<char>,
    pub country: Country,
}

impl View for Host {
    type V = HostView;

    open spec fn view(&self) -> HostView {
        HostView {
            domain: self.domain@,
            asn_number: self.asn.number,
            asn_name: self.asn.name@,
            country: self.country,
        }
    }
}

impl Host {
    /// Whether two hosts are the same host.
    pub fn same_as(&self, other: &Host) -> (r: bool)
        ensures
            r == (self@ == other@),
    {
        self.domain == other.domain && self.asn.number == other.asn.number && self.asn.name
            == other.asn.name && self.country == other.country
    }
}

/// Data exchanged with a host.
#[derive(Clone, Copy, PartialEq, Eq, Structural, Debug, Default, Hash)]
pub struct DataInfoHost {
    pub incoming_packets: u128,
    pub outgoing_packets: u128,
    pub incoming_bytes: u128,
    pub outgoing_bytes: u128,
    pub is_favorite: bool,
    pub is_loopback: bool,
    pub is_local: bool,
}

/// The set of hosts a sequence of hosts holds.
pub open spec fn host_set(hosts: Seq<Host>) -> Set<HostView> {
    hosts.map_values(|h: Host| h@).to_set()
}

/// No host occurs twice.
pub open spec fn hosts_distinct(hosts: Seq<Host>) -> bool {
    forall|i: int, j: int|
        0 <= i < hosts.len() && 0 <= j < hosts.len() && i != j ==> #[trigger] hosts[i]@
            != #[trigger] hosts[j]@
}

/// What the capture has gathered; the parsing thread fills it.
pub struct InfoTraffic {
    pub tot_received_packets: u128,
    pub tot_sent_packets: u128,
    pub tot_received_bytes: u128,
    pub tot_sent_bytes: u128,
    pub all_packets: u128,
    pub all_bytes: u128,
    pub dropped_packets: u32,
    /// Data exchanged with each host seen, keyed by host.
    pub hosts: Vec<(Host, DataInfoHost)>,
    /// The hosts the user marked as favorite.
    pub favorite_hosts: Vec<Host>,
    /// Favorite hosts that exchanged data in the last interval.
    pub favorites_last_interval: Vec<(Host, DataInfoHost)>,
}

impl InfoTraffic {
    /// Freshly started: no traffic, no hosts, no favorites.
    pub open spec fn is_empty(&self) -> bool {
        &&& self.tot_received_packets == 0
        &&& self.tot_sent_packets == 0
        &&& self.tot_received_bytes == 0
        &&& self.tot_sent_bytes == 0
        &&& self.all_packets == 0
        &&& self.all_bytes == 0
        &&& self.dropped_packets == 0
        &&& self.hosts@.len() == 0
        &&& self.favorite_hosts@.len() == 0
        &&& self.favorites_last_interval@.len() == 0
    }

    pub fn new() -> (r: InfoTraffic)
        ensures
            r.is_empty(),
    {
        InfoTraffic {
            tot_received_packets: 0,
            tot_sent_packets: 0,
            tot_received_bytes: 0,
            tot_sent_bytes: 0,
            all_packets: 0,
            all_bytes: 0,
            dropped_packets: 0,
            hosts: Vec::new(),
            favorite_hosts: Vec::new(),
            favorites_last_interval: Vec::new(),
        }
    }

    /// The set of favorite hosts.
    pub open spec fn favorites(&self) -> Set<HostView> {
        host_set(self.favorite_hosts@)
    }

    /// No favorite host occurs twice.
    pub open spec fn wf(&self) -> bool {
        self.favorite_hosts@.map_values(|h: Host| h@).no_duplicates()
    }
}

/// The traffic statistics shown by the interface.
pub struct RunTimeData {
    pub all_bytes: u128,
    pub all_packets: u128,
    pub tot_sent_bytes: u128,
    pub tot_received_bytes: u128,
    pub tot_sent_packets: u128,
    pub tot_received_packets: u128,
    pub dropped_packets: u32,
    pub tot_emitted_notifications: usize,
    pub logged_notifications: VecDeque<LoggedNotification>,
}

impl RunTimeData {
    /// Freshly started: every counter at zero, nothing logged.
    pub open spec fn is_empty(&self) -> bool {
        &&& self.all_bytes == 0
        &&& self.all_packets == 0
        &&& self.tot_sent_bytes == 0
        &&& self.tot_received_bytes == 0
        &&& self.tot_sent_packets == 0
        &&& self.tot_received_packets == 0
        &&& self.dropped_packets == 0
        &&& self.tot_emitted_notifications == 0
        &&& self.logged_notifications@.len() == 0
    }

    pub fn new() -> (r: RunTimeData)
        ensures
            r.is_empty(),
    {
        RunTimeData {
            all_bytes: 0,
            all_packets: 0,
            tot_sent_bytes: 0,
            tot_received_bytes: 0,
            tot_sent_packets: 0,
            tot_received_packets: 0,
            dropped_packets: 0,
            tot_emitted_notifications: 0,
            logged_notifications: VecDeque::new(),
        }
    }
}

/// A network adapter.
#[derive(Clone, Debug)]
pub struct MyDevice {
    pub name: String,
    pub desc: Option<String>,
    /// The addresses of the adapter, as text.
    pub addresses: Vec<String>,
}

/// The filters the capture applies.
///
/// An address or port filter is text typed by the user; the collection is the
/// text of the last such filter that parsed, which is what the capture uses.
#[derive(Clone, Debug)]
pub struct Filters {
    pub ip_versions: Vec<IpVersion>,
    pub protocols: Vec<Protocol>,
    pub address_str: String,
    pub address_collection: String,
    pub port_str: String,
    pub port_collection: String,
}

impl Filters {
    /// Every IP version and protocol, no address or port restriction.
    pub open spec fn is_initial(&self) -> bool {
        &&& self.ip_versions@ == seq![IpVersion::IPv4, IpVersion::IPv6]
        &&& self.protocols@ == seq![Protocol::TCP, Protocol::UDP, Protocol::ICMP]
        &&& self.address_str@.len() == 0
        &&& self.address_collection@.len() == 0
        &&& self.port_str@.len() == 0
        &&& self.port_collection@.len() == 0
    }

    pub fn new() -> (r: Filters)
        ensures
            r.is_initial(),
    {
        Filters {
            ip_versions: vec![IpVersion::IPv4, IpVersion::IPv6],
            protocols: vec![Protocol::TCP, Protocol::UDP, Protocol::ICMP],
            address_str: String::new(),
            address_collection: String::new(),
            port_str: String::new(),
            port_collection: String::new(),
        }
    }

    /// The address and the port filter as typed both parse.
    pub open spec fn valid(&self) -> bool {
        self.address_str@ == self.address_collection@ && self.port_str@ == self.port_collection@
    }

    pub fn are_valid(&self) -> (r: bool)
        ensures
            r == self.valid(),
    {
        self.address_str == self.address_collection && self.port_str == self.port_collection
    }
}

/// What the user searches for in the inspect page.
pub struct SearchParameters {
    pub app: String,
    pub domain: String,
    pub country: String,
    pub as_name: String,
    pub only_favorites: bool,
}

impl SearchParameters {
    /// No search: every text empty, favorites not required.
    pub open spec fn is_initial(&self) -> bool {
        &&& self.app@.len() == 0
        &&& self.domain@.len() == 0
        &&& self.country@.len() == 0
        &&& self.as_name@.len() == 0
        &&& !self.only_favorites
    }

    pub fn new() -> (r: SearchParameters)
        ensures
            r.is_initial(),
    {
        SearchParameters {
            app: String::new(),
            domain: String::new(),
            country: String::new(),
            as_name: String::new(),
            only_favorites: false,
        }
    }
}

} // verus!
