use cacheman::discovery::advertise::connection_fate;
use cacheman::discovery::advertise::AdvertiseAction;
use cacheman::discovery::advertise::Advertiser;
use cacheman::discovery::advertise::ConnectionFate;
use cacheman::discovery::advertise::TerminationSignal;
use cacheman::discovery::browse::browse_request;
use cacheman::discovery::browse::AnnouncementEvent;
use cacheman::discovery::browse::Browser;
use cacheman::discovery::browse::BrowserAction;
use cacheman::discovery::browse::HostInfo;
use cacheman::discovery::browse::ListenerItem;
use cacheman::discovery::browse::ListenerVerdict;
use cacheman::discovery::Lifecycle;
use cacheman::discovery::DESTINATION;
use cacheman::discovery::SERVICE_TYPE;
use cacheman::error::Error;

fn joined(hostname: &str) -> AnnouncementEvent {
    AnnouncementEvent::Joined(hostname.to_string())
}

fn left(hostname: &str) -> AnnouncementEvent {
    AnnouncementEvent::Left(hostname.to_string())
}

fn host(hostname: &str) -> HostInfo {
    HostInfo { hostname: hostname.to_string() }
}

/// A browser whose setup has succeeded.
fn active_browser() -> Browser {
    let mut browser = Browser::new();
    while browser.next_action() != BrowserAction::Listen {
        browser.on_setup_reply(true).expect("a call that succeeded is no failure");
    }
    browser
}

/// An advertiser whose registration has succeeded.
fn active_advertiser(hostname: &str, port: u16) -> Advertiser {
    let mut advertiser = Advertiser::new(hostname, port);
    while advertiser.next_action() != AdvertiseAction::HoldConnection {
        advertiser.on_reply(true).expect("a call that succeeded is no failure");
    }
    advertiser
}

fn names(mut items: Vec<HostInfo>) -> Vec<String> {
    let mut names: Vec<String> = items.drain(..).map(|item| item.hostname).collect();
    names.sort();
    names
}

#[test]
fn wire_names_are_fixed() {
    assert_eq!(DESTINATION, "org.freedesktop.Avahi");
    assert_eq!(SERVICE_TYPE, "_cacheman._tcp");
}

#[test]
fn test_advertise() {
    let mut advertiser = Advertiser::new("node-a", 8080);
    assert_eq!(advertiser.lifecycle(), Lifecycle::Starting);
    assert_eq!(advertiser.next_action(), AdvertiseAction::Connect);
    assert_eq!(advertiser.on_reply(true), Ok(AdvertiseAction::ReserveGroup));
    assert_eq!(advertiser.on_reply(true), Ok(AdvertiseAction::AddService));
    let record = advertiser.service_record();
    assert_eq!(record.interface, -1);
    assert_eq!(record.protocol, -1);
    assert_eq!(record.flags, 0);
    assert_eq!(record.name, "node-a");
    assert_eq!(record.service_type, "_cacheman._tcp");
    assert_eq!(record.domain, "");
    assert_eq!(record.host, "");
    assert_eq!(record.port, 8080);
    assert!(record.txt.is_empty());
    assert_eq!(advertiser.on_reply(true), Ok(AdvertiseAction::Commit));
    assert_eq!(advertiser.on_reply(true), Ok(AdvertiseAction::HoldConnection));
    assert_eq!(advertiser.lifecycle(), Lifecycle::Active);
    assert_eq!(advertiser.on_reply(false), Ok(AdvertiseAction::HoldConnection));
    assert_eq!(advertiser.lifecycle(), Lifecycle::Active);
}

#[test]
fn test_advertise_failure() {
    for successes in 0..4 {
        let mut advertiser = Advertiser::new("node-a", 8080);
        for _ in 0..successes {
            assert!(advertiser.on_reply(true).is_ok());
        }
        assert_eq!(advertiser.on_reply(false), Err(Error::RegistrationFailed));
        assert_eq!(advertiser.lifecycle(), Lifecycle::Terminated);
        assert_eq!(advertiser.next_action(), AdvertiseAction::Rest);
        assert_eq!(advertiser.on_reply(true), Ok(AdvertiseAction::Rest));
        assert_eq!(advertiser.terminate(), AdvertiseAction::Rest);
    }
}

#[test]
fn terminate_handle() {
    let mut handle = active_advertiser("node-a", 8080).terminate_handle();
    assert_eq!(handle.release(), AdvertiseAction::ReleaseConnection);
    assert_eq!(handle.release(), AdvertiseAction::Rest);
}

#[test]
fn terminate_releases_an_open_connection() {
    assert_eq!(active_advertiser("node-a", 1052).terminate(), AdvertiseAction::ReleaseConnection);
    assert_eq!(Advertiser::new("node-a", 1052).terminate(), AdvertiseAction::Rest);
    let mut advertiser = Advertiser::new("node-a", 1052);
    assert!(advertiser.on_reply(true).is_ok());
    assert_eq!(advertiser.terminate(), AdvertiseAction::ReleaseConnection);
}

#[test]
fn connection_is_leaked_without_termination() {
    assert_eq!(connection_fate(TerminationSignal::Sent), ConnectionFate::Close);
    assert_eq!(connection_fate(TerminationSignal::SenderLost), ConnectionFate::Leak);
}

#[test]
fn browser_is_set_up_in_order() {
    let mut browser = Browser::new();
    assert_eq!(browser.lifecycle(), Lifecycle::Starting);
    assert_eq!(browser.next_action(), BrowserAction::Connect);
    assert_eq!(browser.on_setup_reply(true), Ok(BrowserAction::PrepareBrowser));
    assert_eq!(browser.on_setup_reply(true), Ok(BrowserAction::SubscribeJoined));
    assert_eq!(browser.on_setup_reply(true), Ok(BrowserAction::SubscribeLeft));
    assert_eq!(browser.on_setup_reply(true), Ok(BrowserAction::SubscribeBarrier));
    assert_eq!(browser.on_setup_reply(true), Ok(BrowserAction::SubscribeFailure));
    assert_eq!(browser.on_setup_reply(true), Ok(BrowserAction::Start));
    assert_eq!(browser.lifecycle(), Lifecycle::Starting);
    assert_eq!(browser.on_setup_reply(true), Ok(BrowserAction::Listen));
    assert_eq!(browser.lifecycle(), Lifecycle::Active);
    assert_eq!(browser.on_setup_reply(false), Ok(BrowserAction::Listen));
    assert_eq!(browser.lifecycle(), Lifecycle::Active);
}

#[test]
fn browser_setup_failure_shuts_it_down() {
    for successes in 0..7 {
        let mut browser = Browser::new();
        for _ in 0..successes {
            assert!(browser.on_setup_reply(true).is_ok());
        }
        assert_eq!(browser.on_setup_reply(false), Err(Error::DiscoveryFailed));
        assert_eq!(browser.lifecycle(), Lifecycle::Terminated);
        assert_eq!(browser.next_action(), BrowserAction::Rest);
    }
}

#[test]
fn browse_request_asks_for_the_cache_service() {
    let request = browse_request();
    assert_eq!(request.interface, -1);
    assert_eq!(request.protocol, -1);
    assert_eq!(request.service_type, "_cacheman._tcp");
    assert_eq!(request.domain, "");
    assert_eq!(request.flags, 0);
}

#[test]
fn test_browse() {
    let mut browser = active_browser();
    assert!(!browser.handle_event(joined("node-a")));
    assert!(browser.handle_event(AnnouncementEvent::SyncBarrier));
    let items = browser.get_updated_items().expect("a notification waits").expect("no failure");
    assert!(items.contains(&host("node-a")));
}

#[test]
fn test_browse_failure() {
    let mut browser = active_browser();
    browser.handle_event(joined("node-a"));
    browser.handle_event(AnnouncementEvent::SyncBarrier);
    let items = browser.get_updated_items().expect("a notification waits").expect("no failure");
    assert!(!items.contains(&host("node-b")));
}

#[test]
fn departed_neighbour_is_gone_from_a_fresh_browse() {
    let mut browser = active_browser();
    browser.handle_event(joined("node-a"));
    browser.handle_event(joined("node-b"));
    browser.handle_event(joined("node-a"));
    assert_eq!(names(browser.get_current_items().unwrap()), vec!["node-a", "node-b"]);
    browser.handle_event(left("node-a"));
    browser.handle_event(left("node-c"));
    assert_eq!(names(browser.get_current_items().unwrap()), vec!["node-b"]);
    browser.handle_event(left("node-b"));
    assert!(browser.get_current_items().unwrap().is_empty());
}

#[test]
fn updated_items_wait_for_a_notification() {
    let mut browser = active_browser();
    browser.handle_event(joined("node-a"));
    assert_eq!(browser.get_updated_items(), None);
    assert!(browser.handle_event(AnnouncementEvent::SyncBarrier));
    assert_eq!(browser.get_updated_items(), Some(Ok(vec![host("node-a")])));
    assert_eq!(browser.get_updated_items(), None);
}

#[test]
fn notifications_do_not_pile_up() {
    let mut browser = active_browser();
    assert!(browser.handle_event(AnnouncementEvent::SyncBarrier));
    assert!(!browser.handle_event(AnnouncementEvent::SyncBarrier));
    assert!(!browser.handle_event(AnnouncementEvent::SyncBarrier));
    assert!(browser.get_updated_items().is_some());
    assert_eq!(browser.get_updated_items(), None);
    assert!(browser.handle_event(AnnouncementEvent::SyncBarrier));
}

#[test]
fn failed_browser_reports_discovery_failed() {
    let mut browser = active_browser();
    browser.handle_event(joined("node-a"));
    browser.handle_event(AnnouncementEvent::SyncBarrier);
    assert!(!browser.handle_event(AnnouncementEvent::Failure));
    assert_eq!(browser.lifecycle(), Lifecycle::Failed);
    assert_eq!(browser.get_current_items(), Err(Error::DiscoveryFailed));
    assert_eq!(browser.get_updated_items(), Some(Err(Error::DiscoveryFailed)));
    browser.handle_event(joined("node-b"));
    browser.handle_event(AnnouncementEvent::SyncBarrier);
    assert_eq!(browser.lifecycle(), Lifecycle::Failed);
    assert_eq!(browser.get_current_items(), Err(Error::DiscoveryFailed));
    assert_eq!(browser.terminate(), BrowserAction::Release);
    assert_eq!(browser.lifecycle(), Lifecycle::Terminated);
    assert_eq!(browser.get_current_items(), Err(Error::DiscoveryFailed));
}

#[test]
fn terminated_browser_ignores_announcements() {
    let mut browser = active_browser();
    browser.handle_event(joined("node-a"));
    assert_eq!(browser.terminate(), BrowserAction::Release);
    assert_eq!(browser.terminate(), BrowserAction::Rest);
    assert_eq!(browser.lifecycle(), Lifecycle::Terminated);
    assert!(!browser.handle_event(joined("node-b")));
    assert!(!browser.handle_event(left("node-a")));
    assert!(!browser.handle_event(AnnouncementEvent::SyncBarrier));
    assert!(!browser.handle_event(AnnouncementEvent::Failure));
    assert_eq!(browser.get_updated_items(), None);
    assert_eq!(browser.get_current_items(), Ok(vec![host("node-a")]));
    assert_eq!(browser.on_setup_reply(true), Ok(BrowserAction::Rest));
    assert_eq!(browser.lifecycle(), Lifecycle::Terminated);
}

#[test]
fn listener_ends_on_an_item_it_cannot_decode() {
    let mut browser = active_browser();
    assert_eq!(
        browser.deliver(ListenerItem::Announcement(joined("node-a"))),
        ListenerVerdict::Continue
    );
    assert_eq!(
        browser.deliver(ListenerItem::Announcement(AnnouncementEvent::SyncBarrier)),
        ListenerVerdict::Wake
    );
    assert_eq!(
        browser.deliver(ListenerItem::Announcement(AnnouncementEvent::SyncBarrier)),
        ListenerVerdict::Continue
    );
    assert_eq!(browser.deliver(ListenerItem::Undecodable), ListenerVerdict::Abort);
    assert_eq!(
        browser.deliver(ListenerItem::Announcement(AnnouncementEvent::Failure)),
        ListenerVerdict::Continue
    );
    assert_eq!(browser.lifecycle(), Lifecycle::Failed);
}

#[test]
fn host_info_is_compared_by_hostname() {
    assert_eq!(host("node-a"), host("node-a"));
    assert_ne!(host("node-a"), host("node-b"));
    assert_eq!(host("node-a").clone(), host("node-a"));
}
