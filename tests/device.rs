use btui::device::{
    battery_level, contains_address, reads_battery, format_address, remove_address, replace_device,
    sort_devices, sorts_below, BTDevice, BATTERY_LEVEL_UUID, BATTERY_SERVICE_UUID,
};

fn dev(name: &str, last: u8, paired: bool, connected: bool) -> BTDevice {
    BTDevice::new(
        Some(name.to_string()),
        None,
        [0, 0, 0, 0, 0, last],
        paired,
        connected,
        None,
        None,
    )
}

fn names(v: &[BTDevice]) -> Vec<String> {
    v.iter().map(|d| d.name.clone()).collect()
}

#[test]
fn address_is_lowercase_hex_pairs() {
    assert_eq!(format_address([0xAB, 0x00, 0x01, 0x2f, 0x90, 0xff]), "ab:00:01:2f:90:ff");
    assert_eq!(format_address([0; 6]), "00:00:00:00:00:00");
}

#[test]
fn new_device_defaults() {
    let d = BTDevice::new(None, None, [1, 2, 3, 4, 5, 6], true, false, Some(80), Some(-40));
    assert_eq!(d.name, "???");
    assert_eq!(d.icon_name, "");
    assert_eq!(d.address, "01:02:03:04:05:06");
    assert!(d.paired);
    assert!(!d.connected);
    assert_eq!(d.battery, Some(80));
    assert_eq!(d.rssi, Some(-40));
    assert!(!d.is_named());
    let e = BTDevice::new(Some("Pods".to_string()), Some("audio-headset".to_string()), [0; 6], false, false, None, None);
    assert_eq!(e.name, "Pods");
    assert_eq!(e.icon_name, "audio-headset");
    assert!(e.is_named());
}

#[test]
fn ordering_connected_then_paired_then_name() {
    let a = dev("a", 1, false, false);
    let b = dev("b", 2, false, false);
    let p = dev("a", 3, true, false);
    let c = dev("a", 4, false, true);
    assert!(sorts_below(&a, &b));
    assert!(!sorts_below(&b, &a));
    assert!(sorts_below(&b, &p));
    assert!(sorts_below(&p, &c));
    assert!(!sorts_below(&a, &a));
    assert!(sorts_below(&dev("ab", 5, false, false), &dev("abc", 6, false, false)));
}

#[test]
fn sort_is_descending_and_stable() {
    let v = vec![
        dev("alpha", 1, false, false),
        dev("zed", 2, true, false),
        dev("mid", 3, false, true),
        dev("alpha", 4, false, false),
        dev("beta", 5, false, false),
    ];
    let s = sort_devices(&v);
    assert_eq!(names(&s), vec!["mid", "zed", "beta", "alpha", "alpha"]);
    assert_eq!(s[3].address, "00:00:00:00:00:01");
    assert_eq!(s[4].address, "00:00:00:00:00:04");
    assert!(sort_devices(&Vec::new()).is_empty());
}

#[test]
fn list_operations_by_address() {
    let v = vec![dev("a", 1, false, false), dev("b", 2, false, false), dev("c", 3, false, false)];
    assert!(contains_address(&v, "00:00:00:00:00:02"));
    assert!(!contains_address(&v, "00:00:00:00:00:09"));
    let r = remove_address(&v, "00:00:00:00:00:02");
    assert_eq!(names(&r), vec!["a", "c"]);
    let r = remove_address(&v, "00:00:00:00:00:09");
    assert_eq!(names(&r), vec!["a", "b", "c"]);
    let r = replace_device(&v, &dev("B2", 2, true, true));
    assert_eq!(names(&r), vec!["a", "B2", "c"]);
    assert!(r[1].connected);
}

#[test]
fn battery_level_reads_first_byte_of_battery_characteristic() {
    assert_eq!(battery_level(BATTERY_SERVICE_UUID, BATTERY_LEVEL_UUID, &vec![57, 1]), Some(57));
    assert_eq!(battery_level(BATTERY_SERVICE_UUID, BATTERY_LEVEL_UUID, &vec![]), None);
    assert_eq!(battery_level(0x1800, BATTERY_LEVEL_UUID, &vec![57]), None);
    assert_eq!(battery_level(BATTERY_SERVICE_UUID, 0x2A00, &vec![57]), None);
    assert_eq!(BATTERY_SERVICE_UUID, 0x180F);
    assert_eq!(BATTERY_LEVEL_UUID, 0x2A19);
}

#[test]
fn battery_characteristic_is_recognised() {
    assert!(reads_battery(0x180F, 0x2A19));
    assert!(!reads_battery(0x2A19, 0x180F));
}

#[test]
fn records_of_one_address_are_equal() {
    assert!(dev("a", 1, false, false) == dev("b", 1, true, true));
    assert!(dev("a", 1, false, false) != dev("a", 2, false, false));
}

#[test]
fn battery_service_is_recognised() {
    assert!(btui::device::is_battery_service(0x180F));
    assert!(!btui::device::is_battery_service(0x2A19));
}
