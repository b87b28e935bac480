use acct201::{AccountClassIdentity, ClassID, DomainID, SegmentID, SerialID, SystemID, ID, UID};

#[test]
fn test_v1_system_min_mid_max() {
    let expected: [(SystemID, ClassID, SerialID); 4] = [
        (SystemID::MIN, ClassID::MIN, SerialID::MIN),
        (SystemID::MIN + 1, ClassID::MIN + 1, SerialID::MIN + 1),
        (SystemID::MAX / 2, ClassID::MAX / 2, SerialID::MAX / 2),
        (SystemID::MAX, ClassID::MAX, SerialID::MAX),
    ];

    for (system_id, class_id, serial_id) in expected {
        let id = ID::v1_system(system_id, class_id, serial_id);
        let uid: UID = id.into();
        let id = ID::from(uid);

        assert_eq!(class_id, id.class);
        assert_eq!(ID::DOMAIN_LOCAL, id.domain);
        assert_eq!(0, id.segment);
        assert_eq!(serial_id, id.serial);
    }
}

#[test]
fn test_v1_local_min_mid_max() {
    let expected: [(ClassID, SegmentID, SerialID); 4] = [
        (ClassID::MIN, SegmentID::MIN, SerialID::MIN),
        (ClassID::MIN + 1, SegmentID::MIN, SerialID::MIN + 1),
        (ClassID::MAX / 2, SegmentID::MIN, SerialID::MAX / 2),
        (ClassID::MAX, SegmentID::MIN, SerialID::MAX),
    ];

    for (class_id, segment_id, serial_id) in expected {
        let id = ID::v1_local(class_id, segment_id, serial_id);
        let uid: UID = id.into();
        let id = ID::from(uid);

        assert_eq!(class_id, id.class);
        assert_eq!(ID::DOMAIN_LOCAL, id.domain);
        assert_eq!(segment_id, id.segment);
        assert_eq!(serial_id, id.serial);
    }
}

#[test]
fn test_v1_min_mid_max() {
    let expected: [(SystemID, ClassID, DomainID, SegmentID, SerialID); 4] = [
        (SystemID::MIN, ClassID::MIN, DomainID::MIN, SegmentID::MIN, SerialID::MIN),
        (SystemID::MIN + 1, ClassID::MIN + 1, DomainID::MIN + 1, SegmentID::MIN + 1, SerialID::MIN + 1),
        (SystemID::MAX / 2, ClassID::MAX / 2, DomainID::MAX / 2, SegmentID::MAX, SerialID::MAX / 2),
        (SystemID::MAX, ClassID::MAX, DomainID::MAX, SegmentID::MAX, SerialID::MAX),
    ];

    for (system_id, class_id, domain_id, segment_id, serial_id) in expected {
        let id = ID::v1(system_id, class_id, domain_id, segment_id, serial_id);
        let uid: UID = id.into();
        let id = ID::from(uid);

        assert_eq!(class_id, id.class);
        assert_eq!(domain_id, id.domain);
        assert_eq!(segment_id, id.segment);
        assert_eq!(serial_id, id.serial);
    }
}

#[test]
fn round_trip_keeps_every_field() {
    let cases: [(SystemID, ClassID, DomainID, SegmentID, SerialID); 5] = [
        (0, 0, 0, 0, 0),
        (1, 1, 1, 1, 1),
        (SystemID::MAX / 2, ClassID::MAX / 2, DomainID::MAX / 2, SegmentID::MAX / 2, SerialID::MAX / 2),
        (SystemID::MAX, ClassID::MAX, DomainID::MAX, SegmentID::MAX, SerialID::MAX),
        (7, 2, 0, 9, 123_456),
    ];
    for (system, class, domain, segment, serial) in cases {
        let id = ID::v1(system, class, domain, segment, serial);
        assert_eq!(id, ID::from_uid(id.into_uid()));
        assert_eq!(system, ID::from_uid(id.into_uid()).system);
    }
}

#[test]
fn packed_key_lays_the_fields_end_to_end() {
    let id = ID::v1(0x0a0b_0c0d, 0x0102, 0x1122_3344, 0x5566, 0x7788_99aa);
    assert_eq!(0x0102_0a0b_0c0d_1122_3344_5566_7788_99aa_u128, id.into_uid());
    assert_eq!(id, ID::from_uid(0x0102_0a0b_0c0d_1122_3344_5566_7788_99aa));
    assert_eq!(0, ID::zero().into_uid());
    assert_eq!(1, ID::v1(0, 0, 0, 0, 1).into_uid());
    assert_eq!(1u128 << 112, ID::v1(0, 1, 0, 0, 0).into_uid());
    assert_eq!(1u128 << 80, ID::v1(1, 0, 0, 0, 0).into_uid());
    assert_eq!(1u128 << 48, ID::v1(0, 0, 1, 0, 0).into_uid());
    assert_eq!(1u128 << 32, ID::v1(0, 0, 0, 1, 0).into_uid());
}

#[test]
fn every_key_comes_back_from_its_fields() {
    for uid in [0u128, 1, u128::MAX, u128::MAX / 2, 0xdead_beef_0000_1234_5678_9abc_def0_1357] {
        assert_eq!(uid, ID::from_uid(uid).into_uid());
    }
}

#[test]
fn packed_order_is_the_order_of_the_identifiers() {
    let low = ID::v1(9, 1, 9, 9, 9);
    let high = ID::v1(0, 2, 0, 0, 0);
    assert!(low < high);
    assert!(low.into_uid() < high.into_uid());
}

#[test]
fn validity_needs_class_serial_and_a_domain_for_a_registered_system() {
    assert!(!ID::zero().valid());
    assert!(ID::v1_local(1, 0, 1).valid());
    assert!(!ID::v1_local(0, 0, 1).valid());
    assert!(!ID::v1_local(1, 0, 0).valid());
    assert!(!ID::v1_system(1, 1, 1).valid());
    assert!(ID::v1(1, 1, 1, 0, 1).valid());
    assert!(ID::v1(0, 1, 5, 0, 1).valid());
}

#[test]
fn class_numbers_are_fixed() {
    assert_eq!(0, AccountClassIdentity::Unknown.into_class_id());
    assert_eq!(1, AccountClassIdentity::StandardAccountDefinition.into_class_id());
    assert_eq!(2, AccountClassIdentity::CustomAccountDefinition.into_class_id());
    assert_eq!(AccountClassIdentity::Unknown, AccountClassIdentity::from_class_id(0));
    assert_eq!(AccountClassIdentity::StandardAccountDefinition, AccountClassIdentity::from(1));
    assert_eq!(AccountClassIdentity::CustomAccountDefinition, AccountClassIdentity::from_class_id(2));
    assert_eq!(AccountClassIdentity::Unknown, AccountClassIdentity::from_class_id(3));
    assert_eq!(AccountClassIdentity::Unknown, AccountClassIdentity::from_class_id(ClassID::MAX));
    let number: ClassID = AccountClassIdentity::CustomAccountDefinition.into();
    assert_eq!(2, number);
}
