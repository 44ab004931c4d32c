use btui::blueman::{BMEvent, BMMode, BluemanApp, Banner, BannerType};
use btui::btui::{Flow, Operation};
use btui::device::BTDevice;

fn dev(name: &str, last: u8, paired: bool, connected: bool) -> BTDevice {
    BTDevice::new(
        Some(name.to_string()),
        None,
        [0, 0, 0, 0, 0, last],
        paired,
        connected,
        None,
        None,
    )
}

fn names(app: &BluemanApp) -> Vec<String> {
    app.devices.iter().map(|d| d.name.clone()).collect()
}

#[test]
fn blueman_starts_empty() {
    let app = BluemanApp::new();
    assert!(app.devices.is_empty());
    assert!(matches!(app.mode, BMMode::Browse));
    assert!(app.banner.is_none());
    assert_eq!(app.selected, None);
}

#[test]
fn blueman_exit_quits() {
    let mut app = BluemanApp::new();
    let s = app.handle_event(BMEvent::Exit);
    assert!(matches!(s.flow, Flow::Quit));
    assert!(s.expiries.is_empty());
}

#[test]
fn blueman_modify_keeps_position() {
    let mut app = BluemanApp::new();
    app.handle_event(BMEvent::DeviceAdded(dev("b", 1, false, false)));
    app.handle_event(BMEvent::DeviceAdded(dev("a", 2, false, false)));
    assert_eq!(names(&app), vec!["b", "a"]);
    app.handle_event(BMEvent::DeviceModified(dev("a", 2, true, true)));
    assert_eq!(names(&app), vec!["b", "a"]);
    app.handle_event(BMEvent::DeviceAdded(dev("c", 3, false, false)));
    assert_eq!(names(&app), vec!["a", "c", "b"]);
    app.handle_event(BMEvent::DeviceRemoved(dev("a", 2, false, false)));
    assert_eq!(names(&app), vec!["c", "b"]);
}

#[test]
fn blueman_scroll_down_enters_even_when_empty() {
    let mut app = BluemanApp::new();
    app.handle_event(BMEvent::ScrollDown);
    assert_eq!(app.selected, Some(1));
    app.handle_event(BMEvent::ScrollUp);
    assert_eq!(app.selected, None);
}

#[test]
fn blueman_debug_banners() {
    let mut app = BluemanApp::new();
    let s = app.handle_event(BMEvent::DebugFailBanner);
    assert!(matches!(s.flow, Flow::Draw));
    assert_eq!(s.expiries.len(), 1);
    assert_eq!(s.expiries[0].message, "Failure message!");
    assert_eq!(s.expiries[0].seconds, 4);
    assert!(matches!(&app.banner, Some(Banner(m, BannerType::Failure)) if m == "Failure message!"));
    let s = app.handle_event(BMEvent::DebugSuccessBanner);
    assert_eq!(s.expiries[0].message, "Success message!");
    assert_eq!(s.expiries[0].seconds, 2);
    app.handle_event(BMEvent::BannerExpired("Success message!".to_string()));
    assert!(app.banner.is_none());
}

#[test]
fn blueman_pair_flow() {
    let mut app = BluemanApp::new();
    app.handle_event(BMEvent::DeviceAdded(dev("Spk", 1, false, false)));
    app.selected = Some(1);
    app.handle_event(BMEvent::PairRequested);
    assert!(matches!(&app.mode, BMMode::TryPair(d) if d.name == "Spk"));
    let s = app.handle_event(BMEvent::Pass);
    let d = match s.flow {
        Flow::Perform(Operation::Pair, d) => d,
        _ => panic!("expected a pairing"),
    };
    let x = app.complete(Operation::Pair, &d, Err("no agent".to_string()));
    assert_eq!(x.message, "Failed to pair with Spk: no agent");
    assert_eq!(x.seconds, 4);
    assert!(matches!(app.mode, BMMode::Browse));
}

#[test]
fn blueman_needless_disconnect() {
    let mut app = BluemanApp::new();
    app.handle_event(BMEvent::DeviceAdded(dev("Spk", 1, false, false)));
    app.selected = Some(1);
    app.handle_event(BMEvent::DisconnectRequested);
    let s = app.handle_event(BMEvent::DebugSuccessBanner);
    assert!(matches!(s.flow, Flow::Hold));
    assert_eq!(s.expiries.len(), 2);
    assert_eq!(s.expiries[1].message, "Spk is not connected");
    assert_eq!(s.expiries[1].seconds, 2);
    assert!(matches!(app.mode, BMMode::Browse));
}

#[test]
fn blueman_requests_act_on_the_listed_row() {
    let mut app = BluemanApp::new();
    let hidden = BTDevice::new(None, None, [0, 0, 0, 0, 0, 1], true, true, None, None);
    app.handle_event(BMEvent::DeviceAdded(hidden));
    app.handle_event(BMEvent::DeviceAdded(dev("Spk", 2, false, false)));
    app.selected = Some(1);
    app.handle_event(BMEvent::RemoveRequested);
    assert!(matches!(&app.mode, BMMode::TryRemove(d) if d.name == "Spk"));
    let mut other = BluemanApp::new();
    other.handle_event(BMEvent::DeviceAdded(dev("Spk", 2, false, false)));
    other.selected = Some(2);
    other.handle_event(BMEvent::ConnectRequested);
    assert!(matches!(other.mode, BMMode::Browse));
}
