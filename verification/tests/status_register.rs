use sht3x::status::{Flag, Status, KNOWN_BITS};

const FLAGS: [Flag; 7] = [
    Flag::AlertPending,
    Flag::Heater,
    Flag::RhTrackingAlert,
    Flag::TTrackingAlert,
    Flag::SystemResetDetected,
    Flag::Command,
    Flag::WriteDataChecksum,
];

#[test]
fn flag_positions() {
    assert_eq!(Flag::AlertPending.mask(), 1 << 15);
    assert_eq!(Flag::Heater.mask(), 1 << 13);
    assert_eq!(Flag::RhTrackingAlert.mask(), 1 << 11);
    assert_eq!(Flag::TTrackingAlert.mask(), 1 << 10);
    assert_eq!(Flag::SystemResetDetected.mask(), 1 << 4);
    assert_eq!(Flag::Command.mask(), 1 << 1);
    assert_eq!(Flag::WriteDataChecksum.mask(), 1 << 0);
}

#[test]
fn known_bits_are_the_flags() {
    let mut all = 0u16;
    for flag in FLAGS {
        all |= flag.mask();
    }
    assert_eq!(all, KNOWN_BITS);
    assert_eq!(KNOWN_BITS, 0xAC13);
}

#[test]
fn alert_and_checksum_only() {
    let status = Status::from_bits_truncate(0x8001);
    for flag in FLAGS {
        let expected = flag == Flag::AlertPending || flag == Flag::WriteDataChecksum;
        assert_eq!(status.contains(flag), expected, "{:?}", flag);
    }
    assert_eq!(status.bits(), 0x8001);
    assert!(!status.is_empty());
}

#[test]
fn reserved_bits_are_dropped() {
    let status = Status::from_bits_truncate(0xFFFF);
    assert_eq!(status.bits(), 0xAC13);
    for flag in FLAGS {
        assert!(status.contains(flag));
    }
    let reserved_only = Status::from_bits_truncate(!KNOWN_BITS);
    assert_eq!(reserved_only.bits(), 0);
    assert!(reserved_only.is_empty());
    assert_eq!(reserved_only, Status::empty());
}

#[test]
fn reserved_bits_do_not_change_the_flags() {
    assert_eq!(
        Status::from_bits_truncate(0x8001),
        Status::from_bits_truncate(0x8001 | 0x4000 | 0x0100)
    );
}

#[test]
fn empty_status_raises_nothing() {
    let status = Status::empty();
    assert!(status.is_empty());
    assert_eq!(status.bits(), 0);
    for flag in FLAGS {
        assert!(!status.contains(flag));
    }
    assert_eq!(Status::from_bits_truncate(0), status);
}

#[test]
fn each_flag_alone() {
    for flag in FLAGS {
        let status = Status::from_bits_truncate(flag.mask());
        for other in FLAGS {
            assert_eq!(status.contains(other), other == flag);
        }
    }
}

#[test]
fn address_values() {
    assert_eq!(sht3x::bus::Address::Low.value(), 0x44);
    assert_eq!(sht3x::bus::Address::High.value(), 0x45);
}
