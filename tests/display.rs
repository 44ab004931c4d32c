use btui::btui::BannerType;
use btui::device::BTDevice;
use btui::display::{
    banner_look, format_battery_span, format_signal_span, get_icon_for_bt_type, listed_devices,
    row_marker, BMColors, Shade, Tint,
};

#[test]
fn icons_by_type() {
    assert_eq!(get_icon_for_bt_type("audio-headphones"), "\u{f025} ");
    assert_eq!(get_icon_for_bt_type("headphones"), "\u{f025} ");
    assert_eq!(get_icon_for_bt_type("headset"), "\u{ee59} ");
    assert_eq!(get_icon_for_bt_type("car-audio"), "\u{f04c3} ");
    assert_eq!(get_icon_for_bt_type("keyboard"), "\u{f11c} ");
    assert_eq!(get_icon_for_bt_type("audio-card"), "\u{f101e} ");
    assert_eq!(get_icon_for_bt_type("laptop"), "\u{f109} ");
    assert_eq!(get_icon_for_bt_type("phone"), "\u{f10b} ");
    assert_eq!(get_icon_for_bt_type("input-mouse"), "\u{f037d} ");
    assert_eq!(get_icon_for_bt_type("gamepad"), "\u{f0297} ");
    assert_eq!(get_icon_for_bt_type("printer"), "\u{f042a} ");
    assert_eq!(get_icon_for_bt_type("lightbulb"), "\u{f0335} ");
    assert_eq!(get_icon_for_bt_type(""), " ");
    assert_eq!(get_icon_for_bt_type("phones"), " ");
}

#[test]
fn palette_values() {
    assert_eq!(BMColors::BLUE.rgb(), (0, 127, 245));
    assert_eq!(BMColors::RED.rgb(), (245, 20, 30));
    assert_eq!(BMColors::ORANGE.rgb(), (245, 145, 30));
    assert_eq!(BMColors::YELLOW.rgb(), (245, 245, 30));
    assert_eq!(BMColors::GREEN.rgb(), (0, 245, 10));
    assert_eq!(BMColors::GRAY.rgb(), (150, 150, 150));
    assert_eq!(BMColors::DARK_GRAY.rgb(), (80, 80, 80));
}

#[test]
fn banner_looks() {
    let s = banner_look(BannerType::Success);
    assert_eq!(s.icon, " \u{f00b1} ");
    assert_eq!(s.fg, Tint::Palette(Shade::Green));
    assert_eq!(s.bg, None);
    let f = banner_look(BannerType::Failure);
    assert_eq!(f.fg, Tint::White);
    assert_eq!(f.bg, Some(Tint::Palette(Shade::Red)));
    let t = banner_look(BannerType::Status);
    assert_eq!(t.icon, " \u{ea74} ");
    assert_eq!(t.bg, Some(Tint::Palette(Shade::DarkGray)));
}

#[test]
fn signal_levels() {
    assert!(format_signal_span(None).is_none());
    assert_eq!(format_signal_span(Some(-50)).unwrap().shade, Shade::Green);
    assert_eq!(format_signal_span(Some(-1)).unwrap().shade, Shade::Green);
    assert_eq!(format_signal_span(Some(0)).unwrap().shade, Shade::Red);
    assert_eq!(format_signal_span(Some(-51)).unwrap().shade, Shade::Red);
    assert_eq!(format_signal_span(Some(-52)).unwrap().shade, Shade::Yellow);
    assert_eq!(format_signal_span(Some(-90)).unwrap().text, "\u{f08bd} ");
    assert_eq!(format_signal_span(Some(-91)).unwrap().text, "\u{f08bc} ");
}

#[test]
fn battery_levels() {
    assert!(format_battery_span(None).is_none());
    assert_eq!(format_battery_span(Some(0)).unwrap().shade, Shade::Red);
    assert_eq!(format_battery_span(Some(10)).unwrap().shade, Shade::Orange);
    assert_eq!(format_battery_span(Some(59)).unwrap().shade, Shade::Yellow);
    assert_eq!(format_battery_span(Some(70)).unwrap().text, "\u{f241} ");
    assert_eq!(format_battery_span(Some(100)).unwrap().text, "\u{f240} ");
}

#[test]
fn markers_and_listing() {
    let named = BTDevice::new(Some("A".to_string()), None, [0, 0, 0, 0, 0, 1], true, false, None, None);
    let unnamed = BTDevice::new(None, None, [0, 0, 0, 0, 0, 2], false, true, None, None);
    let plain = BTDevice::new(Some("C".to_string()), None, [0, 0, 0, 0, 0, 3], false, false, None, None);
    assert_eq!(row_marker(&named), "\u{f00af}");
    assert_eq!(row_marker(&unnamed), "\u{f00b1}");
    assert_eq!(row_marker(&plain), " ");
    let all = vec![named, unnamed, plain];
    let hidden = listed_devices(&all, false);
    assert_eq!(hidden.iter().map(|d| d.name.clone()).collect::<Vec<_>>(), vec!["A", "C"]);
    assert_eq!(listed_devices(&all, true).len(), 3);
}
