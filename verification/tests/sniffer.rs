use std::collections::{HashSet, VecDeque};

use sniffnet::chart::{ChartType, ReportSortType};
use sniffnet::message::{Action, Message};
use sniffnet::notifications::{
    ByteMultiple, BytesNotification, FavoriteNotification, LoggedNotification, Notification,
    PacketsNotification, PacketsThresholdExceeded, Sound,
};
use sniffnet::pages::{MyModal, RunningPage, SettingsPage};
use sniffnet::settings::{Configs, Language, StyleType};
use sniffnet::sniffer::Sniffer;
use sniffnet::traffic::{Country, Host, InfoTraffic, IpVersion, MyDevice, Protocol};

fn device() -> MyDevice {
    MyDevice {
        name: "eth0".to_string(),
        desc: None,
        addresses: vec![],
    }
}

fn new_sniffer() -> (Sniffer, InfoTraffic) {
    (Sniffer::new(&Configs::default(), device()), InfoTraffic::new())
}

fn set_of<T: Clone + Eq + std::hash::Hash>(v: &[T]) -> HashSet<T> {
    v.iter().cloned().collect()
}

fn host(domain: &str) -> Host {
    Host {
        domain: domain.to_string(),
        asn: Default::default(),
        country: Country::US,
    }
}

#[test]
fn test_correctly_update_ip_version() {
    let (mut sniffer, mut info) = new_sniffer();

    assert_eq!(set_of(&sniffer.filters.ip_versions), HashSet::from(IpVersion::ALL));
    sniffer.update(Message::IpVersionSelection(IpVersion::IPv6, true), &mut info);
    assert_eq!(set_of(&sniffer.filters.ip_versions), HashSet::from(IpVersion::ALL));
    sniffer.update(Message::IpVersionSelection(IpVersion::IPv4, false), &mut info);
    assert_eq!(
        set_of(&sniffer.filters.ip_versions),
        HashSet::from([IpVersion::IPv6])
    );
    sniffer.update(Message::IpVersionSelection(IpVersion::IPv6, false), &mut info);
    assert_eq!(set_of(&sniffer.filters.ip_versions), HashSet::new());
}

#[test]
fn test_correctly_update_protocol() {
    let (mut sniffer, mut info) = new_sniffer();

    assert_eq!(set_of(&sniffer.filters.protocols), HashSet::from(Protocol::ALL));
    sniffer.update(Message::ProtocolSelection(Protocol::UDP, true), &mut info);
    assert_eq!(set_of(&sniffer.filters.protocols), HashSet::from(Protocol::ALL));
    sniffer.update(Message::ProtocolSelection(Protocol::UDP, false), &mut info);
    assert_eq!(
        set_of(&sniffer.filters.protocols),
        HashSet::from([Protocol::TCP, Protocol::ICMP])
    );
    sniffer.update(Message::ProtocolSelection(Protocol::TCP, false), &mut info);
    assert_eq!(set_of(&sniffer.filters.protocols), HashSet::from([Protocol::ICMP]));
    sniffer.update(Message::ProtocolSelection(Protocol::ICMP, false), &mut info);
    assert_eq!(set_of(&sniffer.filters.protocols), HashSet::new());
    sniffer.update(Message::ProtocolSelection(Protocol::UDP, true), &mut info);
    assert_eq!(set_of(&sniffer.filters.protocols), HashSet::from([Protocol::UDP]));
}

#[test]
fn test_correctly_update_chart_kind() {
    let (mut sniffer, mut info) = new_sniffer();

    assert_eq!(sniffer.traffic_chart.chart_type, ChartType::Bytes);
    sniffer.update(Message::ChartSelection(ChartType::Packets), &mut info);
    assert_eq!(sniffer.traffic_chart.chart_type, ChartType::Packets);
    sniffer.update(Message::ChartSelection(ChartType::Packets), &mut info);
    assert_eq!(sniffer.traffic_chart.chart_type, ChartType::Packets);
    sniffer.update(Message::ChartSelection(ChartType::Bytes), &mut info);
    assert_eq!(sniffer.traffic_chart.chart_type, ChartType::Bytes);
}

#[test]
fn test_correctly_update_report_kind() {
    let (mut sniffer, mut info) = new_sniffer();

    assert_eq!(sniffer.report_sort_type, ReportSortType::MostRecent);
    sniffer.update(Message::ReportSortSelection(ReportSortType::MostBytes), &mut info);
    assert_eq!(sniffer.report_sort_type, ReportSortType::MostBytes);
    sniffer.update(Message::ReportSortSelection(ReportSortType::MostPackets), &mut info);
    assert_eq!(sniffer.report_sort_type, ReportSortType::MostPackets);
    sniffer.update(Message::ReportSortSelection(ReportSortType::MostPackets), &mut info);
    assert_eq!(sniffer.report_sort_type, ReportSortType::MostPackets);
    sniffer.update(Message::ReportSortSelection(ReportSortType::MostRecent), &mut info);
    assert_eq!(sniffer.report_sort_type, ReportSortType::MostRecent);
}

#[test]
fn test_correctly_update_style() {
    let (mut sniffer, mut info) = new_sniffer();

    sniffer.update(Message::Style(StyleType::MonAmour), &mut info);
    assert_eq!(sniffer.settings.style, StyleType::MonAmour);
    sniffer.update(Message::Style(StyleType::Day), &mut info);
    assert_eq!(sniffer.settings.style, StyleType::Day);
    sniffer.update(Message::Style(StyleType::Night), &mut info);
    assert_eq!(sniffer.settings.style, StyleType::Night);
    sniffer.update(Message::Style(StyleType::DeepSea), &mut info);
    assert_eq!(sniffer.settings.style, StyleType::DeepSea);
    sniffer.update(Message::Style(StyleType::DeepSea), &mut info);
    assert_eq!(sniffer.settings.style, StyleType::DeepSea);
}

#[test]
fn test_waiting_dots_update() {
    let (mut sniffer, mut info) = new_sniffer();

    assert_eq!(sniffer.waiting, ".".to_string());
    sniffer.update(Message::Waiting, &mut info);
    assert_eq!(sniffer.waiting, "..".to_string());

    sniffer.update(Message::Waiting, &mut info);
    assert_eq!(sniffer.waiting, "...".to_string());

    sniffer.update(Message::Waiting, &mut info);
    assert_eq!(sniffer.waiting, ".".to_string());
}

#[test]
fn test_modify_favorite_connections() {
    let (mut sniffer, mut info) = new_sniffer();
    // remove 1
    sniffer.update(Message::AddOrRemoveFavorite(host("1.1"), false), &mut info);
    assert_eq!(set_of(&info.favorite_hosts), HashSet::new());
    // remove 2
    sniffer.update(Message::AddOrRemoveFavorite(host("2.2"), false), &mut info);
    assert_eq!(set_of(&info.favorite_hosts), HashSet::new());
    // add 2
    sniffer.update(Message::AddOrRemoveFavorite(host("2.2"), true), &mut info);
    assert_eq!(set_of(&info.favorite_hosts), HashSet::from([host("2.2")]));
    // remove 1
    sniffer.update(Message::AddOrRemoveFavorite(host("1.1"), false), &mut info);
    assert_eq!(set_of(&info.favorite_hosts), HashSet::from([host("2.2")]));
    // add 2
    sniffer.update(Message::AddOrRemoveFavorite(host("2.2"), true), &mut info);
    assert_eq!(set_of(&info.favorite_hosts), HashSet::from([host("2.2")]));
    // add 1
    sniffer.update(Message::AddOrRemoveFavorite(host("1.1"), true), &mut info);
    assert_eq!(
        set_of(&info.favorite_hosts),
        HashSet::from([host("1.1"), host("2.2")])
    );
    // add 3
    sniffer.update(Message::AddOrRemoveFavorite(host("3.3"), true), &mut info);
    assert_eq!(
        set_of(&info.favorite_hosts),
        HashSet::from([host("1.1"), host("2.2"), host("3.3")])
    );
    // remove 2
    sniffer.update(Message::AddOrRemoveFavorite(host("2.2"), false), &mut info);
    assert_eq!(
        set_of(&info.favorite_hosts),
        HashSet::from([host("1.1"), host("3.3")])
    );
    // remove 3
    sniffer.update(Message::AddOrRemoveFavorite(host("3.3"), false), &mut info);
    assert_eq!(set_of(&info.favorite_hosts), HashSet::from([host("1.1")]));
    // remove 1
    sniffer.update(Message::AddOrRemoveFavorite(host("1.1"), false), &mut info);
    assert_eq!(set_of(&info.favorite_hosts), HashSet::new());
}

#[test]
fn test_show_and_hide_modal_and_settings() {
    let (mut sniffer, mut info) = new_sniffer();

    assert_eq!(sniffer.modal, None);
    assert_eq!(sniffer.settings_page, None);
    assert_eq!(sniffer.last_opened_setting, SettingsPage::Notifications);
    // open settings
    sniffer.update(Message::OpenLastSettings, &mut info);
    assert_eq!(sniffer.modal, None);
    assert_eq!(sniffer.settings_page, Some(SettingsPage::Notifications));
    assert_eq!(sniffer.last_opened_setting, SettingsPage::Notifications);
    // switch settings page
    sniffer.update(Message::OpenSettings(SettingsPage::Appearance), &mut info);
    assert_eq!(sniffer.modal, None);
    assert_eq!(sniffer.settings_page, Some(SettingsPage::Appearance));
    sniffer.update(Message::OpenSettings(SettingsPage::General), &mut info);
    assert_eq!(sniffer.modal, None);
    assert_eq!(sniffer.settings_page, Some(SettingsPage::General));
    // try opening modal with settings opened
    sniffer.update(Message::ShowModal(MyModal::Quit), &mut info);
    assert_eq!(sniffer.modal, None);
    assert_eq!(sniffer.settings_page, Some(SettingsPage::General));
    assert_eq!(sniffer.last_opened_setting, SettingsPage::Notifications);
    // close settings
    sniffer.update(Message::CloseSettings, &mut info);
    assert_eq!(sniffer.modal, None);
    assert_eq!(sniffer.settings_page, None);
    assert_eq!(sniffer.last_opened_setting, SettingsPage::General);
    // reopen settings
    sniffer.update(Message::OpenLastSettings, &mut info);
    assert_eq!(sniffer.modal, None);
    assert_eq!(sniffer.settings_page, Some(SettingsPage::General));
    assert_eq!(sniffer.last_opened_setting, SettingsPage::General);
    // switch settings page
    sniffer.update(Message::OpenSettings(SettingsPage::Appearance), &mut info);
    assert_eq!(sniffer.modal, None);
    assert_eq!(sniffer.settings_page, Some(SettingsPage::Appearance));
    // close settings
    sniffer.update(Message::CloseSettings, &mut info);
    assert_eq!(sniffer.modal, None);
    assert_eq!(sniffer.settings_page, None);
    assert_eq!(sniffer.last_opened_setting, SettingsPage::Appearance);

    // open clear all modal
    sniffer.update(Message::ShowModal(MyModal::ClearAll), &mut info);
    assert_eq!(sniffer.modal, Some(MyModal::ClearAll));
    assert_eq!(sniffer.settings_page, None);
    assert_eq!(sniffer.last_opened_setting, SettingsPage::Appearance);
    // try opening settings with clear all modal opened
    sniffer.update(Message::OpenLastSettings, &mut info);
    assert_eq!(sniffer.modal, Some(MyModal::ClearAll));
    assert_eq!(sniffer.settings_page, None);
    assert_eq!(sniffer.last_opened_setting, SettingsPage::Appearance);
    // try opening quit modal with clear all modal opened
    sniffer.update(Message::ShowModal(MyModal::Quit), &mut info);
    assert_eq!(sniffer.modal, Some(MyModal::ClearAll));
    assert_eq!(sniffer.settings_page, None);
    assert_eq!(sniffer.last_opened_setting, SettingsPage::Appearance);
    // close clear all modal
    sniffer.update(Message::HideModal, &mut info);
    assert_eq!(sniffer.modal, None);
    assert_eq!(sniffer.settings_page, None);
    assert_eq!(sniffer.last_opened_setting, SettingsPage::Appearance);

    // open quit modal
    sniffer.update(Message::ShowModal(MyModal::Quit), &mut info);
    assert_eq!(sniffer.modal, Some(MyModal::Quit));
    assert_eq!(sniffer.settings_page, None);
    assert_eq!(sniffer.last_opened_setting, SettingsPage::Appearance);
    // try opening settings with clear all modal opened
    sniffer.update(Message::OpenLastSettings, &mut info);
    assert_eq!(sniffer.modal, Some(MyModal::Quit));
    assert_eq!(sniffer.settings_page, None);
    assert_eq!(sniffer.last_opened_setting, SettingsPage::Appearance);
    // try opening clear all modal with quit modal opened
    sniffer.update(Message::ShowModal(MyModal::ClearAll), &mut info);
    assert_eq!(sniffer.modal, Some(MyModal::Quit));
    assert_eq!(sniffer.settings_page, None);
    assert_eq!(sniffer.last_opened_setting, SettingsPage::Appearance);
    // close quit modal
    sniffer.update(Message::HideModal, &mut info);
    assert_eq!(sniffer.modal, None);
    assert_eq!(sniffer.settings_page, None);
    assert_eq!(sniffer.last_opened_setting, SettingsPage::Appearance);
}

#[test]
fn test_correctly_update_language() {
    let (mut sniffer, mut info) = new_sniffer();

    assert_eq!(sniffer.settings.language, Language::EN);
    assert_eq!(sniffer.traffic_chart.language, Language::EN);
    sniffer.update(Message::LanguageSelection(Language::IT), &mut info);
    assert_eq!(sniffer.settings.language, Language::IT);
    assert_eq!(sniffer.traffic_chart.language, Language::IT);
    sniffer.update(Message::LanguageSelection(Language::IT), &mut info);
    assert_eq!(sniffer.settings.language, Language::IT);
    assert_eq!(sniffer.traffic_chart.language, Language::IT);
    sniffer.update(Message::LanguageSelection(Language::ZH), &mut info);
    assert_eq!(sniffer.settings.language, Language::ZH);
    assert_eq!(sniffer.traffic_chart.language, Language::ZH);
}

fn default_packets() -> PacketsNotification {
    PacketsNotification {
        threshold: None,
        sound: Sound::Gulp,
        previous_threshold: 750,
    }
}

fn default_bytes() -> BytesNotification {
    BytesNotification {
        threshold: None,
        byte_multiple: ByteMultiple::KB,
        sound: Sound::Pop,
        previous_threshold: 800000,
    }
}

fn default_favorite() -> FavoriteNotification {
    FavoriteNotification {
        notify_on_favorite: false,
        sound: Sound::Swhoosh,
    }
}

#[test]
fn test_correctly_update_notification_settings() {
    let (mut sniffer, mut info) = new_sniffer();

    // initial default state
    assert_eq!(sniffer.settings.notifications.volume, 60);
    assert_eq!(sniffer.settings.notifications.packets_notification, default_packets());
    assert_eq!(sniffer.settings.notifications.bytes_notification, default_bytes());
    assert_eq!(sniffer.settings.notifications.favorite_notification, default_favorite());
    // change volume
    sniffer.update(Message::ChangeVolume(95), &mut info);
    assert_eq!(sniffer.settings.notifications.volume, 95);
    assert_eq!(sniffer.settings.notifications.packets_notification, default_packets());
    assert_eq!(sniffer.settings.notifications.bytes_notification, default_bytes());
    assert_eq!(sniffer.settings.notifications.favorite_notification, default_favorite());
    // change packets notifications
    let packets = PacketsNotification {
        threshold: Some(1122),
        sound: Sound::NoSound,
        previous_threshold: 1122,
    };
    sniffer.update(
        Message::UpdateNotificationSettings(Notification::Packets(packets), false),
        &mut info,
    );
    assert_eq!(sniffer.settings.notifications.volume, 95);
    assert_eq!(sniffer.settings.notifications.packets_notification, packets);
    assert_eq!(sniffer.settings.notifications.bytes_notification, default_bytes());
    assert_eq!(sniffer.settings.notifications.favorite_notification, default_favorite());
    // change bytes notifications
    let bytes = BytesNotification {
        threshold: Some(3),
        byte_multiple: ByteMultiple::GB,
        sound: Sound::NoSound,
        previous_threshold: 3,
    };
    sniffer.update(
        Message::UpdateNotificationSettings(Notification::Bytes(bytes), true),
        &mut info,
    );
    assert_eq!(sniffer.settings.notifications.volume, 95);
    assert_eq!(sniffer.settings.notifications.packets_notification, packets);
    assert_eq!(sniffer.settings.notifications.bytes_notification, bytes);
    assert_eq!(sniffer.settings.notifications.favorite_notification, default_favorite());
    // change favorite notifications
    let favorite = FavoriteNotification {
        notify_on_favorite: true,
        sound: Sound::Pop,
    };
    sniffer.update(
        Message::UpdateNotificationSettings(Notification::Favorite(favorite), true),
        &mut info,
    );
    assert_eq!(sniffer.settings.notifications.volume, 95);
    assert_eq!(sniffer.settings.notifications.packets_notification, packets);
    assert_eq!(sniffer.settings.notifications.bytes_notification, bytes);
    assert_eq!(sniffer.settings.notifications.favorite_notification, favorite);
}

#[test]
fn test_clear_all_notifications() {
    let (mut sniffer, mut info) = new_sniffer();
    sniffer.runtime_data.logged_notifications =
        VecDeque::from([LoggedNotification::PacketsThresholdExceeded(
            PacketsThresholdExceeded {
                threshold: 0,
                incoming: 0,
                outgoing: 0,
                timestamp: "".to_string(),
            },
        )]);

    assert_eq!(sniffer.modal, None);
    sniffer.update(Message::ShowModal(MyModal::ClearAll), &mut info);
    assert_eq!(sniffer.modal, Some(MyModal::ClearAll));
    assert_eq!(sniffer.runtime_data.logged_notifications.len(), 1);
    sniffer.update(Message::ClearAllNotifications, &mut info);
    assert_eq!(sniffer.modal, None);
    assert_eq!(sniffer.runtime_data.logged_notifications.len(), 0);
}

#[test]
fn test_correctly_switch_running_and_settings_pages() {
    let (mut sniffer, mut info) = new_sniffer();
    // the window gained focus 400 ms before `now`
    let now = 400;
    sniffer.timing_events.focus = 0;

    // initial status
    assert_eq!(sniffer.settings_page, None);
    assert_eq!(sniffer.modal, None);
    assert_eq!(sniffer.running_page, RunningPage::Init);
    // nothing changes
    sniffer.update(Message::SwitchPage(true, now), &mut info);
    assert_eq!(sniffer.settings_page, None);
    assert_eq!(sniffer.modal, None);
    assert_eq!(sniffer.running_page, RunningPage::Init);
    // switch settings
    sniffer.update(Message::OpenLastSettings, &mut info);
    assert_eq!(sniffer.settings_page, Some(SettingsPage::Notifications));
    assert_eq!(sniffer.running_page, RunningPage::Init);
    sniffer.update(Message::SwitchPage(false, now), &mut info);
    assert_eq!(sniffer.settings_page, Some(SettingsPage::General));
    assert_eq!(sniffer.modal, None);
    assert_eq!(sniffer.running_page, RunningPage::Init);
    sniffer.update(Message::SwitchPage(true, now), &mut info);
    assert_eq!(sniffer.settings_page, Some(SettingsPage::Notifications));
    assert_eq!(sniffer.modal, None);
    assert_eq!(sniffer.running_page, RunningPage::Init);
    sniffer.update(Message::CloseSettings, &mut info);
    assert_eq!(sniffer.settings_page, None);
    assert_eq!(sniffer.running_page, RunningPage::Init);
    // change state to running
    sniffer.running_page = RunningPage::Overview;
    assert_eq!(sniffer.settings_page, None);
    assert_eq!(sniffer.modal, None);
    assert_eq!(sniffer.running_page, RunningPage::Overview);
    // switch with closed setting and no packets received => nothing changes
    sniffer.update(Message::SwitchPage(true, now), &mut info);
    assert_eq!(sniffer.running_page, RunningPage::Overview);
    assert_eq!(sniffer.settings_page, None);
    // switch with closed setting and some packets received => change running page
    sniffer.runtime_data.tot_received_packets += 1;
    sniffer.update(Message::SwitchPage(true, now), &mut info);
    assert_eq!(sniffer.running_page, RunningPage::Inspect);
    assert_eq!(sniffer.settings_page, None);
    // switch with opened settings => change settings
    sniffer.update(Message::OpenLastSettings, &mut info);
    assert_eq!(sniffer.running_page, RunningPage::Inspect);
    assert_eq!(sniffer.settings_page, Some(SettingsPage::Notifications));
    sniffer.update(Message::SwitchPage(true, now), &mut info);
    assert_eq!(sniffer.running_page, RunningPage::Inspect);
    assert_eq!(sniffer.settings_page, Some(SettingsPage::Appearance));

    // focus the window and try to switch => nothing changes
    sniffer.update(Message::WindowFocused(now), &mut info);
    sniffer.update(Message::SwitchPage(true, now), &mut info);
    assert_eq!(sniffer.running_page, RunningPage::Inspect);
    assert_eq!(sniffer.settings_page, Some(SettingsPage::Appearance));
}

#[test]
fn action_of_volume_and_notifications() {
    let (mut sniffer, mut info) = new_sniffer();
    assert!(matches!(
        sniffer.update(Message::ChangeVolume(30), &mut info),
        Action::PlaySound(Sound::Pop, 30)
    ));
    let favorite = FavoriteNotification {
        notify_on_favorite: true,
        sound: Sound::Swhoosh,
    };
    assert!(matches!(
        sniffer.update(
            Message::UpdateNotificationSettings(Notification::Favorite(favorite), true),
            &mut info
        ),
        Action::PlaySound(Sound::Swhoosh, 30)
    ));
    assert!(matches!(
        sniffer.update(
            Message::UpdateNotificationSettings(Notification::Favorite(favorite), false),
            &mut info
        ),
        Action::Nothing
    ));
}
