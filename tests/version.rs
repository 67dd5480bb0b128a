use libftd3xx::version::Version;

fn assert_newer(big: Version, little: Version) {
    assert!(big > little);
    assert!(little < big);
}

#[test]
fn newer_build_orders_above() {
    assert_newer(Version::new(0, 0, 1), Version::new(0, 0, 0));
}

#[test]
fn newer_minor_orders_above() {
    assert_newer(Version::new(0, 1, 0), Version::new(0, 0, 0));
}

#[test]
fn newer_major_orders_above() {
    assert_newer(Version::new(1, 0, 0), Version::new(0, 0, 0));
}

#[test]
fn all_parts_newer_orders_above() {
    assert_newer(Version::new(2, 2, 2), Version::new(1, 1, 1));
}

#[test]
fn largest_major_orders_above() {
    assert_newer(Version::new(255, 255, 255), Version::new(254, 255, 255));
}

#[test]
fn major_outweighs_minor_and_build() {
    assert_newer(Version::new(1, 0, 0), Version::new(0, 255, 255));
}

#[test]
fn minor_outweighs_build() {
    assert_newer(Version::new(13, 255, 0), Version::new(13, 254, 255));
    assert_newer(Version::new(0, 1, 0), Version::new(0, 0, 255));
}

#[test]
fn equal_versions_compare_equal() {
    let a = Version::new(3, 1, 15);
    let b = Version::new(3, 1, 15);
    assert_eq!(a, b);
    assert_eq!(a.partial_cmp(&b), Some(std::cmp::Ordering::Equal));
    assert_eq!(a.cmp(&b), std::cmp::Ordering::Equal);
    assert!(!(a < b) && !(a > b));
}

#[test]
fn order_agrees_with_packed_word() {
    let a = Version::new(1, 0, 0);
    let b = Version::new(0, 255, 65535);
    assert!(a > b);
    assert!(a.raw() > b.raw());
}

#[test]
fn with_raw_splits_bytes() {
    let v = Version::with_raw(0x0103_0004);
    assert_eq!(v, Version { major: 1, minor: 3, build: 4 });
    let v = Version::with_raw(0x0100_0016);
    assert_eq!(v, Version::new(1, 0, 22));
    let v = Version::with_raw(0x0003_0115);
    assert_eq!(v, Version::new(0, 3, 0x0115));
}

#[test]
fn raw_packs_bytes() {
    assert_eq!(Version::new(1, 3, 4).raw(), 0x0103_0004);
    assert_eq!(Version::new(255, 255, 65535).raw(), 0xFFFF_FFFF);
    assert_eq!(Version::new(0, 0, 0).raw(), 0);
}

#[test]
fn word_round_trips() {
    for word in [0u32, 1, 0x0001_0000, 0x0100_0016, 0x1234_5678, 0xFFFF_FFFF, 0x00FF_FFFF] {
        assert_eq!(Version::with_raw(word).raw(), word);
    }
}

#[test]
fn parts_round_trip() {
    for (a, b, c) in [(0u8, 0u8, 0u16), (3, 1, 15), (255, 0, 65535), (13, 254, 255)] {
        let v = Version::new(a, b, c);
        assert_eq!(Version::with_raw(v.raw()), v);
    }
}

#[test]
fn version_text() {
    assert_eq!(Version::new(3, 1, 15).to_string(), String::from("3.1.15"));
    assert_eq!(Version::new(0, 0, 0).to_string(), String::from("0.0.0"));
    assert_eq!(Version::new(255, 10, 65535).to_string(), String::from("255.10.65535"));
    assert_eq!(Version::with_raw(0x0103_0004).to_string(), String::from("1.3.4"));
}

#[test]
fn display() {
    assert_eq!(Version::with_raw(0x0003_0115).to_string(), String::from("0.3.277"));
}
