use btui::listener::{any_arg, transport_for, ListenerOptions, Transport};

fn args(v: &[&str]) -> Vec<String> {
    v.iter().map(|s| s.to_string()).collect()
}

#[test]
fn transport_flags() {
    assert_eq!(transport_for(&args(&["prog"])), Transport::Auto);
    assert_eq!(transport_for(&args(&["prog", "--bredr"])), Transport::BrEdr);
    assert_eq!(transport_for(&args(&["prog", "--bredr", "--le"])), Transport::Le);
    assert!(any_arg(&args(&["a", "b"]), "b"));
    assert!(!any_arg(&args(&["a", "b"]), "c"));
}

#[test]
fn address_filter_from_arguments() {
    let o = ListenerOptions::from_args(&args(&["prog", "--le", "AA:bb:0C:00:01:ff", "nope", "11:22:33:44:55"]));
    assert_eq!(o.transport, Transport::Le);
    assert_eq!(o.filter, vec![[0xaa, 0xbb, 0x0c, 0x00, 0x01, 0xff]]);
    assert!(o.admits(&[0xaa, 0xbb, 0x0c, 0x00, 0x01, 0xff]));
    assert!(!o.admits(&[0xaa, 0xbb, 0x0c, 0x00, 0x01, 0xfe]));
    let all = ListenerOptions::from_args(&args(&["prog"]));
    assert!(all.filter.is_empty());
    assert!(all.admits(&[1, 2, 3, 4, 5, 6]));
}
