use btui::btui::{AppEvent, AppMode, BTUIApp, Banner, BannerType, Flow, Operation};
use btui::device::BTDevice;

fn dev(name: &str, last: u8, paired: bool, connected: bool) -> BTDevice {
    BTDevice::new(
        Some(name.to_string()),
        None,
        [0, 0, 0, 0, 0, last],
        paired,
        connected,
        None,
        None,
    )
}

fn names(app: &BTUIApp) -> Vec<String> {
    app.devices.iter().map(|d| d.name.clone()).collect()
}

#[test]
fn new_app_is_empty_and_browsing() {
    let app = BTUIApp::new();
    assert!(app.devices.is_empty());
    assert!(matches!(app.mode, AppMode::Browse));
    assert!(app.banner.is_none());
    assert_eq!(app.selected, None);
    assert!(!app.show_unnamed);
    assert!(app.inspect_text.is_none());
}

#[test]
fn exit_quits_without_change() {
    let mut app = BTUIApp::new();
    app.handle_event(AppEvent::DeviceAdded(dev("a", 1, false, false)));
    let s = app.handle_event(AppEvent::Exit);
    assert!(matches!(s.flow, Flow::Quit));
    assert!(s.expiry.is_none());
    assert_eq!(names(&app), vec!["a"]);
}

#[test]
fn added_devices_are_kept_sorted_and_unique() {
    let mut app = BTUIApp::new();
    let s = app.handle_event(AppEvent::DeviceAdded(dev("b", 1, false, false)));
    assert!(matches!(s.flow, Flow::Draw));
    app.handle_event(AppEvent::DeviceAdded(dev("a", 2, true, false)));
    app.handle_event(AppEvent::DeviceAdded(dev("c", 3, false, false)));
    app.handle_event(AppEvent::DeviceAdded(dev("dup", 1, true, true)));
    assert_eq!(names(&app), vec!["a", "c", "b"]);
}

#[test]
fn modified_device_is_replaced_and_resorted() {
    let mut app = BTUIApp::new();
    app.handle_event(AppEvent::DeviceAdded(dev("b", 1, false, false)));
    app.handle_event(AppEvent::DeviceAdded(dev("a", 2, false, false)));
    assert_eq!(names(&app), vec!["b", "a"]);
    app.handle_event(AppEvent::DeviceModified(dev("a", 2, false, true)));
    assert_eq!(names(&app), vec!["a", "b"]);
    assert!(app.devices[0].connected);
    app.handle_event(AppEvent::DeviceModified(dev("x", 9, true, true)));
    assert_eq!(names(&app), vec!["a", "b"]);
}

#[test]
fn removed_device_leaves_the_list() {
    let mut app = BTUIApp::new();
    app.handle_event(AppEvent::DeviceAdded(dev("b", 1, false, false)));
    app.handle_event(AppEvent::DeviceAdded(dev("a", 2, false, false)));
    app.handle_event(AppEvent::DeviceRemoved(dev("whatever", 1, false, false)));
    assert_eq!(names(&app), vec!["a"]);
}

#[test]
fn scrolling_moves_the_highlight() {
    let mut app = BTUIApp::new();
    app.handle_event(AppEvent::ScrollDown);
    assert_eq!(app.selected, None);
    app.handle_event(AppEvent::DeviceAdded(dev("a", 1, false, false)));
    app.handle_event(AppEvent::ScrollDown);
    assert_eq!(app.selected, Some(1));
    app.handle_event(AppEvent::ScrollDown);
    assert_eq!(app.selected, Some(2));
    app.handle_event(AppEvent::ScrollUp);
    assert_eq!(app.selected, Some(1));
    app.handle_event(AppEvent::ScrollUp);
    assert_eq!(app.selected, None);
    app.handle_event(AppEvent::ScrollUp);
    assert_eq!(app.selected, None);
    app.selected = Some(usize::MAX);
    app.handle_event(AppEvent::ScrollDown);
    assert_eq!(app.selected, Some(usize::MAX));
}

#[test]
fn show_hide_unnamed_toggles() {
    let mut app = BTUIApp::new();
    app.handle_event(AppEvent::ShowHideUnnamed);
    assert!(app.show_unnamed);
    app.handle_event(AppEvent::ShowHideUnnamed);
    assert!(!app.show_unnamed);
}

#[test]
fn request_without_highlight_is_ignored() {
    let mut app = BTUIApp::new();
    app.handle_event(AppEvent::DeviceAdded(dev("a", 1, false, false)));
    app.handle_event(AppEvent::ConnectRequested);
    assert!(matches!(app.mode, AppMode::Browse));
    app.selected = Some(5);
    app.handle_event(AppEvent::PairRequested);
    assert!(matches!(app.mode, AppMode::Browse));
    app.selected = Some(0);
    app.handle_event(AppEvent::RemoveRequested);
    assert!(matches!(app.mode, AppMode::Browse));
}

#[test]
fn connect_request_then_success() {
    let mut app = BTUIApp::new();
    app.handle_event(AppEvent::DeviceAdded(dev("Pods", 1, false, false)));
    app.handle_event(AppEvent::ScrollDown);
    let s = app.handle_event(AppEvent::ConnectRequested);
    assert!(matches!(s.flow, Flow::Draw));
    assert!(matches!(&app.mode, AppMode::TryConnect(d) if d.name == "Pods"));
    let s = app.handle_event(AppEvent::Pass);
    let d = match s.flow {
        Flow::Perform(Operation::Connect, d) => d,
        _ => panic!("expected a connect"),
    };
    let x = app.complete(Operation::Connect, &d, Ok(()));
    assert!(matches!(app.mode, AppMode::Browse));
    assert_eq!(x.message, "Successfully connected to Pods");
    assert_eq!(x.seconds, 3);
    assert!(matches!(&app.banner, Some(Banner(m, BannerType::Success)) if m == "Successfully connected to Pods"));
}

#[test]
fn failed_operations_carry_the_error() {
    let d = dev("Kbd", 1, true, true);
    let mut app = BTUIApp::new();
    let x = app.complete(Operation::Pair, &d, Err("busy".to_string()));
    assert_eq!(x.message, "Failed to pair with Kbd: busy");
    assert_eq!(x.seconds, 4);
    assert!(matches!(&app.banner, Some(Banner(_, BannerType::Failure))));
    assert_eq!(app.complete(Operation::Connect, &d, Err("e".to_string())).message, "Failed to connect to Kbd: e");
    assert_eq!(app.complete(Operation::Disconnect, &d, Err("e".to_string())).message, "Failed to disconnect from Kbd: e");
    assert_eq!(app.complete(Operation::Remove, &d, Err("e".to_string())).message, "Failed to remove device Kbd: e");
    assert_eq!(app.complete(Operation::Pair, &d, Ok(())).message, "Successfully paired with Kbd");
    assert_eq!(app.complete(Operation::Disconnect, &d, Ok(())).message, "Successfully disconnected from Kbd");
    assert_eq!(app.complete(Operation::Remove, &d, Ok(())).message, "Successfully removed device Kbd");
}

#[test]
fn needless_operations_put_up_a_status_banner() {
    let cases = [
        (AppEvent::ConnectRequested, true, true, "Dev already connected"),
        (AppEvent::PairRequested, true, false, "Dev already paired"),
        (AppEvent::DisconnectRequested, false, false, "Dev is not connected"),
        (AppEvent::RemoveRequested, false, false, "Dev is not paired"),
    ];
    for (req, paired, connected, msg) in cases {
        let mut app = BTUIApp::new();
        app.handle_event(AppEvent::DeviceAdded(dev("Dev", 1, paired, connected)));
        app.selected = Some(1);
        app.handle_event(req);
        let s = app.handle_event(AppEvent::Pass);
        assert!(matches!(s.flow, Flow::Hold));
        let x = s.expiry.unwrap();
        assert_eq!(x.message, msg);
        assert_eq!(x.seconds, 3);
        assert!(matches!(app.mode, AppMode::Browse));
        assert!(matches!(&app.banner, Some(Banner(m, BannerType::Status)) if m == msg));
    }
}

#[test]
fn banner_expires_only_by_its_own_message() {
    let mut app = BTUIApp::new();
    let x = app.set_new_banner(Banner("hello".to_string(), BannerType::Status));
    assert_eq!(x.message, "hello");
    assert_eq!(x.seconds, 3);
    app.handle_event(AppEvent::BannerExpired("other".to_string()));
    assert!(app.banner.is_some());
    app.handle_event(AppEvent::BannerExpired("hello".to_string()));
    assert!(app.banner.is_none());
}

#[test]
fn inspect_then_escape() {
    let mut app = BTUIApp::new();
    app.handle_event(AppEvent::DeviceAdded(dev("Mouse", 1, false, false)));
    app.selected = Some(1);
    let s = app.handle_event(AppEvent::InspectCurrent);
    assert!(s.nudge);
    assert!(matches!(&app.mode, AppMode::Inspect(d) if d.name == "Mouse"));
    let s = app.handle_event(AppEvent::Pass);
    assert!(matches!(&s.flow, Flow::Inspect(d) if d.name == "Mouse"));
    app.set_inspect_text(vec!["Name: Mouse".to_string()]);
    assert_eq!(app.inspect_text.as_ref().unwrap().len(), 1);
    let s = app.handle_event(AppEvent::Esc);
    assert!(matches!(s.flow, Flow::Draw));
    assert!(matches!(app.mode, AppMode::Browse));
    assert!(app.inspect_text.is_none());
}

#[test]
fn escape_cancels_a_pending_operation() {
    let mut app = BTUIApp::new();
    app.handle_event(AppEvent::DeviceAdded(dev("Dev", 1, false, false)));
    app.selected = Some(1);
    app.handle_event(AppEvent::ConnectRequested);
    let s = app.handle_event(AppEvent::Esc);
    assert!(matches!(s.flow, Flow::Draw));
    assert!(matches!(app.mode, AppMode::Browse));
}

#[test]
fn selected_device_follows_the_row() {
    let mut app = BTUIApp::new();
    app.handle_event(AppEvent::DeviceAdded(dev("b", 1, false, false)));
    app.handle_event(AppEvent::DeviceAdded(dev("a", 2, false, false)));
    app.selected = Some(2);
    assert_eq!(app.selected_device().unwrap().name, "a");
    app.selected = Some(3);
    assert!(app.selected_device().is_none());
}

#[test]
fn requests_act_on_the_listed_row() {
    let mut app = BTUIApp::new();
    let hidden = BTDevice::new(None, None, [0, 0, 0, 0, 0, 1], true, true, None, None);
    app.handle_event(AppEvent::DeviceAdded(hidden));
    app.handle_event(AppEvent::DeviceAdded(dev("Spk", 2, false, false)));
    assert_eq!(names(&app), vec!["???", "Spk"]);
    app.selected = Some(1);
    app.handle_event(AppEvent::ConnectRequested);
    assert!(matches!(&app.mode, AppMode::TryConnect(d) if d.name == "Spk"));
    app.handle_event(AppEvent::Esc);
    app.handle_event(AppEvent::ShowHideUnnamed);
    app.handle_event(AppEvent::InspectCurrent);
    assert!(matches!(&app.mode, AppMode::Inspect(d) if d.name == "???"));
    app.handle_event(AppEvent::Esc);
    app.selected = Some(2);
    app.handle_event(AppEvent::PairRequested);
    assert!(matches!(&app.mode, AppMode::TryPair(d) if d.name == "Spk"));
}
