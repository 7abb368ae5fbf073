use deox::version::MajorVersion;

#[test]
fn resolve_known_table_test() {
    assert_eq!(MajorVersion::from_u16(0x3F), MajorVersion::Java19);
    assert_eq!(MajorVersion::from_u16(0x3E), MajorVersion::Java18);
    assert_eq!(MajorVersion::from_u16(0x3D), MajorVersion::Java17);
    assert_eq!(MajorVersion::from_u16(0x3C), MajorVersion::Java16);
    assert_eq!(MajorVersion::from_u16(0x3B), MajorVersion::Java15);
    assert_eq!(MajorVersion::from_u16(0x3A), MajorVersion::Java14);
    assert_eq!(MajorVersion::from_u16(0x39), MajorVersion::Java13);
    assert_eq!(MajorVersion::from_u16(0x38), MajorVersion::Java12);
    assert_eq!(MajorVersion::from_u16(0x37), MajorVersion::Java11);
    assert_eq!(MajorVersion::from_u16(0x36), MajorVersion::Java10);
    assert_eq!(MajorVersion::from_u16(0x35), MajorVersion::Java9);
    assert_eq!(MajorVersion::from_u16(0x34), MajorVersion::Java8);
    assert_eq!(MajorVersion::from_u16(0x33), MajorVersion::Java7);
    assert_eq!(MajorVersion::from_u16(0x32), MajorVersion::Java6);
    assert_eq!(MajorVersion::from_u16(0x31), MajorVersion::Java5);
    assert_eq!(MajorVersion::from_u16(0x30), MajorVersion::Java1_4);
    assert_eq!(MajorVersion::from_u16(0x2F), MajorVersion::Java1_3);
    assert_eq!(MajorVersion::from_u16(0x2E), MajorVersion::Java1_2);
    assert_eq!(MajorVersion::from_u16(0x2D), MajorVersion::Java1_1);
}

#[test]
fn resolve_outside_table_test() {
    assert_eq!(MajorVersion::from_u16(0x0000), MajorVersion::Unknown);
    assert_eq!(MajorVersion::from_u16(0x002C), MajorVersion::Unknown);
    assert_eq!(MajorVersion::from_u16(0x0040), MajorVersion::Unknown);
    assert_eq!(MajorVersion::from_u16(0xFFFF), MajorVersion::Unknown);
}

#[test]
fn resolved_label_test() {
    assert_eq!(MajorVersion::from_u16(0x30).label(), "Java 1.4");
    assert_eq!(MajorVersion::from_u16(0x34).label(), "Java SE 8");
}

#[test]
fn label_table_test() {
    assert_eq!(MajorVersion::Java19.label(), "Java SE 19");
    assert_eq!(MajorVersion::Java18.label(), "Java SE 18");
    assert_eq!(MajorVersion::Java17.label(), "Java SE 17");
    assert_eq!(MajorVersion::Java16.label(), "Java SE 16");
    assert_eq!(MajorVersion::Java15.label(), "Java SE 15");
    assert_eq!(MajorVersion::Java14.label(), "Java SE 14");
    assert_eq!(MajorVersion::Java13.label(), "Java SE 13");
    assert_eq!(MajorVersion::Java12.label(), "Java SE 12");
    assert_eq!(MajorVersion::Java11.label(), "Java SE 11");
    assert_eq!(MajorVersion::Java10.label(), "Java SE 10");
    assert_eq!(MajorVersion::Java9.label(), "Java SE 9");
    assert_eq!(MajorVersion::Java7.label(), "Java SE 7");
    assert_eq!(MajorVersion::Java6.label(), "Java SE 6.0");
    assert_eq!(MajorVersion::Java5.label(), "Java SE 50.");
    assert_eq!(MajorVersion::Java1_3.label(), "Java 1.3");
    assert_eq!(MajorVersion::Java1_2.label(), "Java 1.2");
    assert_eq!(MajorVersion::Java1_1.label(), "Java 1.1");
    assert_eq!(MajorVersion::Unknown.label(), "Unknown Version");
}
