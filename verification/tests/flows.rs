use std::collections::VecDeque;

use sniffnet::chart::{ChartType, ReportSortType};
use sniffnet::message::{Action, Message, WebPage};
use sniffnet::notifications::{LoggedNotification, PacketsThresholdExceeded};
use sniffnet::pages::{MyModal, RunningPage, SettingsPage};
use sniffnet::settings::{ConfigDevice, Configs, ExtraStyles, GradientType, Language, StyleType};
use sniffnet::sniffer::Sniffer;
use sniffnet::svg::SvgType;
use sniffnet::traffic::{Country, DataInfoHost, Host, InfoTraffic, MyDevice, SearchParameters};

fn dev(name: &str, address: &str) -> MyDevice {
    MyDevice {
        name: name.to_string(),
        desc: Some(format!("adapter {}", name)),
        addresses: vec![address.to_string()],
    }
}

fn new_sniffer() -> (Sniffer, InfoTraffic) {
    (
        Sniffer::new(&Configs::default(), dev("eth0", "10.0.0.1")),
        InfoTraffic::new(),
    )
}

fn logged() -> LoggedNotification {
    LoggedNotification::PacketsThresholdExceeded(PacketsThresholdExceeded {
        threshold: 1,
        incoming: 2,
        outgoing: 3,
        timestamp: "12:00".to_string(),
    })
}

#[test]
fn configs_round_trip() {
    let mut configs = Configs::default();
    configs.device.device_name = "wlan0".to_string();
    configs.settings.language = Language::FR;
    configs.settings.style = StyleType::DeepSea;
    configs.settings.mmdb_asn = "/tmp/asn.mmdb".to_string();
    configs.window.position = (10, -20);
    let sniffer = Sniffer::new(&configs, dev("wlan0", "10.0.0.2"));
    let saved = sniffer.get_configs();
    assert_eq!(saved.device.device_name, "wlan0");
    assert_eq!(saved.settings.language, Language::FR);
    assert_eq!(saved.settings.style, StyleType::DeepSea);
    assert_eq!(saved.settings.mmdb_asn, "/tmp/asn.mmdb");
    assert_eq!(saved.window.position, (10, -20));
    assert_eq!(saved.window.size, (1190, 670));
    assert_eq!(sniffer.traffic_chart.language, Language::FR);
    assert_eq!(sniffer.traffic_chart.style, StyleType::DeepSea);
    assert_eq!(sniffer.page_number, 1);
    assert_eq!(sniffer.running_page, RunningPage::Init);
}

#[test]
fn device_named_by_configuration() {
    let config = ConfigDevice {
        device_name: "wlan0".to_string(),
    };
    let found = config.to_my_device(
        vec![dev("eth0", "a"), dev("wlan0", "b"), dev("wlan0", "c")],
        dev("lo", "d"),
    );
    assert_eq!(found.name, "wlan0");
    assert_eq!(found.addresses, vec!["b".to_string()]);
    let fallback = config.to_my_device(vec![dev("eth0", "a")], dev("lo", "d"));
    assert_eq!(fallback.name, "lo");
}

#[test]
fn adapter_selection() {
    let (mut sniffer, mut info) = new_sniffer();
    let act = sniffer.update(
        Message::AdapterSelection(
            "wlan0".to_string(),
            vec![dev("eth0", "a"), dev("wlan0", "b")],
        ),
        &mut info,
    );
    assert!(matches!(act, Action::Nothing));
    assert_eq!(sniffer.device.name, "wlan0");
    assert_eq!(sniffer.device.addresses, vec!["b".to_string()]);
    sniffer.update(
        Message::AdapterSelection("missing".to_string(), vec![dev("eth0", "a")]),
        &mut info,
    );
    assert_eq!(sniffer.device.name, "wlan0");
}

#[test]
fn address_and_port_filters() {
    let (mut sniffer, mut info) = new_sniffer();
    assert!(sniffer.filters.are_valid());
    sniffer.update(Message::AddressFilter("1.1.1.1".to_string(), true), &mut info);
    assert_eq!(sniffer.filters.address_collection, "1.1.1.1");
    assert!(sniffer.filters.are_valid());
    sniffer.update(Message::AddressFilter("1.1.1.".to_string(), false), &mut info);
    assert_eq!(sniffer.filters.address_str, "1.1.1.");
    assert_eq!(sniffer.filters.address_collection, "1.1.1.1");
    assert!(!sniffer.filters.are_valid());
    // an invalid filter keeps the capture from starting with the return key
    assert!(matches!(
        sniffer.update(Message::ReturnKeyPressed, &mut info),
        Action::Nothing
    ));
    sniffer.update(Message::AddressFilter(String::new(), true), &mut info);
    sniffer.update(Message::PortFilter("80, 443".to_string(), true), &mut info);
    assert_eq!(sniffer.filters.port_collection, "80, 443");
    assert!(sniffer.filters.are_valid());
    assert!(matches!(
        sniffer.update(Message::ReturnKeyPressed, &mut info),
        Action::ListCaptureDevices
    ));
}

#[test]
fn start_a_capture() {
    let (mut sniffer, mut info) = new_sniffer();
    info.all_packets = 5;
    assert!(matches!(
        sniffer.update(Message::Start, &mut info),
        Action::ListCaptureDevices
    ));
    assert!(matches!(
        sniffer.update(
            Message::CaptureDevices(vec![dev("eth0", "10.0.0.9")]),
            &mut info
        ),
        Action::OpenCapture
    ));
    assert_eq!(sniffer.device.addresses, vec!["10.0.0.9".to_string()]);
    sniffer.update(Message::ChartSelection(ChartType::Packets), &mut info);
    assert!(matches!(
        sniffer.update(Message::CaptureOpened(None), &mut info),
        Action::StartParsing
    ));
    assert_eq!(sniffer.running_page, RunningPage::Overview);
    assert_eq!(sniffer.pcap_error, None);
    assert_eq!(info.all_packets, 0);
    assert_eq!(sniffer.traffic_chart.chart_type, ChartType::Bytes);
}

#[test]
fn capture_that_fails() {
    let (mut sniffer, mut info) = new_sniffer();
    let act = sniffer.update(
        Message::CaptureOpened(Some("permission denied".to_string())),
        &mut info,
    );
    assert!(matches!(act, Action::Nothing));
    assert_eq!(sniffer.pcap_error, Some("permission denied".to_string()));
    assert_eq!(sniffer.running_page, RunningPage::Overview);
}

#[test]
fn refresh_without_and_with_traffic() {
    let (mut sniffer, mut info) = new_sniffer();
    info.all_packets = 7;
    assert!(matches!(
        sniffer.update(Message::TickRun, &mut info),
        Action::Nothing
    ));
    assert_eq!(sniffer.runtime_data.all_packets, 7);
    assert_eq!(sniffer.waiting, "..");
    info.tot_received_packets = 4;
    info.tot_sent_packets = 3;
    info.all_bytes = 900;
    info.dropped_packets = 2;
    assert!(matches!(
        sniffer.update(Message::TickRun, &mut info),
        Action::EmitNotifications
    ));
    assert_eq!(sniffer.runtime_data.tot_received_packets, 4);
    assert_eq!(sniffer.runtime_data.tot_sent_packets, 3);
    assert_eq!(sniffer.runtime_data.all_bytes, 900);
    assert_eq!(sniffer.runtime_data.dropped_packets, 2);
    assert_eq!(sniffer.waiting, "..");
}

#[test]
fn counting_notifications() {
    let (mut sniffer, mut info) = new_sniffer();
    sniffer.running_page = RunningPage::Overview;
    sniffer.last_device_name_sniffed = "old".to_string();
    let h = Host {
        domain: "x.y".to_string(),
        asn: Default::default(),
        country: Country::IT,
    };
    info.favorites_last_interval.push((h, DataInfoHost::default()));
    assert!(matches!(
        sniffer.update(Message::NotificationsEmitted(3), &mut info),
        Action::UpdateCharts
    ));
    assert_eq!(sniffer.unread_notifications, 3);
    assert_eq!(sniffer.runtime_data.tot_emitted_notifications, 3);
    assert_eq!(sniffer.last_device_name_sniffed, "eth0");
    assert!(info.favorites_last_interval.is_empty());
    // on the notifications page they count as read, and with nothing logged the dots advance
    sniffer.update(Message::ChangeRunningPage(RunningPage::Notifications), &mut info);
    assert_eq!(sniffer.unread_notifications, 0);
    sniffer.update(Message::NotificationsEmitted(2), &mut info);
    assert_eq!(sniffer.unread_notifications, 0);
    assert_eq!(sniffer.runtime_data.tot_emitted_notifications, 5);
    assert_eq!(sniffer.waiting, "..");
}

#[test]
fn favorite_flag_of_seen_host() {
    let (mut sniffer, mut info) = new_sniffer();
    let h = Host {
        domain: "a.b".to_string(),
        asn: Default::default(),
        country: Country::DE,
    };
    let other = Host {
        domain: "c.d".to_string(),
        asn: Default::default(),
        country: Country::DE,
    };
    info.hosts.push((h.clone(), DataInfoHost::default()));
    info.hosts.push((other.clone(), DataInfoHost::default()));
    sniffer.update(Message::AddOrRemoveFavorite(h.clone(), true), &mut info);
    assert!(info.hosts[0].1.is_favorite);
    assert!(!info.hosts[1].1.is_favorite);
    sniffer.update(Message::AddOrRemoveFavorite(h, false), &mut info);
    assert!(!info.hosts[0].1.is_favorite);
}

#[test]
fn reset_and_reset_button() {
    let (mut sniffer, mut info) = new_sniffer();
    sniffer.running_page = RunningPage::Inspect;
    sniffer.page_number = 4;
    sniffer.unread_notifications = 2;
    sniffer.report_sort_type = ReportSortType::MostBytes;
    // packets were seen: the button asks first
    info.all_packets = 10;
    sniffer.update(Message::ResetButtonPressed, &mut info);
    assert_eq!(sniffer.modal, Some(MyModal::Quit));
    assert_eq!(sniffer.running_page, RunningPage::Inspect);
    // the return key confirms
    sniffer.update(Message::ReturnKeyPressed, &mut info);
    assert_eq!(sniffer.modal, None);
    assert_eq!(sniffer.running_page, RunningPage::Init);
    assert_eq!(sniffer.current_capture_id, 1);
    assert_eq!(sniffer.page_number, 1);
    assert_eq!(sniffer.unread_notifications, 0);
    assert_eq!(sniffer.report_sort_type, ReportSortType::MostRecent);
    // no packet seen: the button resets at once
    sniffer.running_page = RunningPage::Overview;
    info.all_packets = 0;
    sniffer.update(Message::ResetButtonPressed, &mut info);
    assert_eq!(sniffer.running_page, RunningPage::Init);
    assert_eq!(sniffer.current_capture_id, 2);
    // on the initial page it does nothing
    sniffer.update(Message::ResetButtonPressed, &mut info);
    assert_eq!(sniffer.current_capture_id, 2);
    assert_eq!(sniffer.modal, None);
}

#[test]
fn escape_and_ctrl_d() {
    let (mut sniffer, mut info) = new_sniffer();
    sniffer.update(Message::OpenSettings(SettingsPage::General), &mut info);
    sniffer.update(Message::EscKeyPressed, &mut info);
    assert_eq!(sniffer.settings_page, None);
    assert_eq!(sniffer.last_opened_setting, SettingsPage::General);
    sniffer.running_page = RunningPage::Notifications;
    sniffer.update(Message::CtrlDPressed, &mut info);
    assert_eq!(sniffer.modal, None);
    sniffer.runtime_data.logged_notifications = VecDeque::from([logged()]);
    sniffer.update(Message::CtrlDPressed, &mut info);
    assert_eq!(sniffer.modal, Some(MyModal::ClearAll));
    sniffer.update(Message::ReturnKeyPressed, &mut info);
    assert_eq!(sniffer.modal, None);
    assert!(sniffer.runtime_data.logged_notifications.is_empty());
    sniffer.update(Message::ShowModal(MyModal::ConnectionDetails(3)), &mut info);
    sniffer.update(Message::EscKeyPressed, &mut info);
    assert_eq!(sniffer.modal, None);
}

#[test]
fn search_and_result_pages() {
    let (mut sniffer, mut info) = new_sniffer();
    let search = SearchParameters {
        app: String::new(),
        domain: "example".to_string(),
        country: String::new(),
        as_name: String::new(),
        only_favorites: true,
    };
    sniffer.page_number = 3;
    sniffer.update(Message::Search(search), &mut info);
    assert_eq!(sniffer.running_page, RunningPage::Inspect);
    assert_eq!(sniffer.page_number, 1);
    assert_eq!(sniffer.search.domain, "example");
    // 41 results take 3 pages of 20
    sniffer.update(Message::ArrowPressed(true, 41), &mut info);
    sniffer.update(Message::ArrowPressed(true, 41), &mut info);
    assert_eq!(sniffer.page_number, 3);
    sniffer.update(Message::ArrowPressed(true, 41), &mut info);
    assert_eq!(sniffer.page_number, 3);
    sniffer.update(Message::ArrowPressed(false, 41), &mut info);
    sniffer.update(Message::ArrowPressed(false, 41), &mut info);
    sniffer.update(Message::ArrowPressed(false, 41), &mut info);
    assert_eq!(sniffer.page_number, 1);
    // 40 results take 2 pages
    sniffer.update(Message::ArrowPressed(true, 40), &mut info);
    sniffer.update(Message::ArrowPressed(true, 40), &mut info);
    assert_eq!(sniffer.page_number, 2);
    sniffer.update(Message::UpdatePageNumber(true), &mut info);
    assert_eq!(sniffer.page_number, 3);
    // arrows do nothing with an overlay open
    sniffer.update(Message::OpenLastSettings, &mut info);
    sniffer.update(Message::ArrowPressed(false, 40), &mut info);
    assert_eq!(sniffer.page_number, 3);
}

#[test]
fn window_and_databases() {
    let (mut sniffer, mut info) = new_sniffer();
    sniffer.update(Message::WindowMoved(-5, 30), &mut info);
    sniffer.update(Message::WindowResized(800, 600), &mut info);
    assert_eq!(sniffer.window.position, (-5, 30));
    assert_eq!(sniffer.window.size, (800, 600));
    sniffer.update(Message::GradientsSelection(GradientType::Wild), &mut info);
    assert_eq!(sniffer.settings.color_gradient, GradientType::Wild);
    match sniffer.update(Message::CustomCountryDb("/db/country.mmdb".to_string()), &mut info) {
        Action::LoadCountryDb(path) => assert_eq!(path, "/db/country.mmdb"),
        _ => panic!("the country database is to be loaded"),
    }
    assert_eq!(sniffer.settings.mmdb_country, "/db/country.mmdb");
    match sniffer.update(Message::CustomAsnDb("/db/asn.mmdb".to_string()), &mut info) {
        Action::LoadAsnDb(path) => assert_eq!(path, "/db/asn.mmdb"),
        _ => panic!("the ASN database is to be loaded"),
    }
    assert_eq!(sniffer.settings.mmdb_asn, "/db/asn.mmdb");
    match sniffer.update(Message::CopyIp("8.8.8.8".to_string(), 1234), &mut info) {
        Action::WriteClipboard(ip) => assert_eq!(ip, "8.8.8.8"),
        _ => panic!("the address is to be copied"),
    }
    assert_eq!(sniffer.timing_events.copy_ip, (1234, "8.8.8.8".to_string()));
    assert!(matches!(
        sniffer.update(Message::CloseRequested, &mut info),
        Action::StoreConfigsAndClose
    ));
    assert!(matches!(
        sniffer.update(Message::Quit, &mut info),
        Action::CloseWindow
    ));
    assert!(matches!(
        sniffer.update(Message::OpenWebPage(WebPage::Issues), &mut info),
        Action::OpenWeb(WebPage::Issues)
    ));
}

#[test]
fn custom_style_file() {
    let (mut sniffer, mut info) = new_sniffer();
    sniffer.update(Message::LoadStyle("/bad.toml".to_string(), false), &mut info);
    assert_eq!(sniffer.settings.style_path, "/bad.toml");
    assert_eq!(sniffer.settings.style, StyleType::Night);
    sniffer.update(Message::LoadStyle("/good.toml".to_string(), true), &mut info);
    assert_eq!(sniffer.settings.style_path, "/good.toml");
    assert_eq!(
        sniffer.settings.style,
        StyleType::Custom(ExtraStyles::CustomToml)
    );
    assert_eq!(
        sniffer.traffic_chart.style,
        StyleType::Custom(ExtraStyles::CustomToml)
    );
}

#[test]
fn switching_pages_forward_and_back() {
    let (mut sniffer, mut info) = new_sniffer();
    sniffer.running_page = RunningPage::Notifications;
    sniffer.runtime_data.tot_sent_packets = 1;
    sniffer.update(Message::SwitchPage(true, 1000), &mut info);
    assert_eq!(sniffer.running_page, RunningPage::Overview);
    sniffer.update(Message::SwitchPage(false, 1000), &mut info);
    assert_eq!(sniffer.running_page, RunningPage::Notifications);
    // right after the start the window counts as just focused
    let (mut fresh, mut fresh_info) = new_sniffer();
    fresh.running_page = RunningPage::Overview;
    fresh.runtime_data.tot_sent_packets = 1;
    fresh.update(Message::SwitchPage(true, 100), &mut fresh_info);
    assert_eq!(fresh.running_page, RunningPage::Overview);
    fresh.update(Message::SwitchPage(true, 200), &mut fresh_info);
    assert_eq!(fresh.running_page, RunningPage::Inspect);
}

#[test]
fn unread_notifications_while_elsewhere() {
    let (mut sniffer, mut info) = new_sniffer();
    sniffer.running_page = RunningPage::Inspect;
    sniffer.update(Message::NotificationsEmitted(4), &mut info);
    assert_eq!(sniffer.unread_notifications, 4);
    sniffer.runtime_data.tot_received_packets = 2;
    sniffer.update(Message::SwitchPage(true, 5000), &mut info);
    assert_eq!(sniffer.running_page, RunningPage::Notifications);
    assert_eq!(sniffer.unread_notifications, 0);
}

#[test]
fn svg_coloring() {
    assert_eq!(SvgType::default(), SvgType::Standard);
    assert!(SvgType::AdaptColor.adapts_color());
    assert!(!SvgType::Standard.adapts_color());
}
