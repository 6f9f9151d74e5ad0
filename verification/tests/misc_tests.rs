//! Size-string and initiator-ID tests.

use lsm::misc::verify_init_id_str;
use lsm::{size_bytes_2_size_human, size_human_2_size_bytes, InitiatorType, LsmErrorKind};

#[test]
fn test_size_human() {
    assert_eq!(size_human_2_size_bytes("1.9GB"), 1_900_000_000u64);
    assert_eq!(size_human_2_size_bytes("1KiB"), 1024u64);
    assert_eq!(size_human_2_size_bytes("1 KiB"), 1024u64);
    assert_eq!(size_human_2_size_bytes("1 B"), 1u64);
    assert_eq!(size_human_2_size_bytes("2 K"), 2048u64);
    assert_eq!(size_human_2_size_bytes("2 k"), 2048u64);
    assert_eq!(size_human_2_size_bytes("2 KB"), 2000u64);
}

#[test]
fn unreadable_sizes_are_zero() {
    assert_eq!(size_human_2_size_bytes(""), 0);
    assert_eq!(size_human_2_size_bytes("GiB"), 0);
    assert_eq!(size_human_2_size_bytes("1.2.3KiB"), 0);
    assert_eq!(size_human_2_size_bytes("."), 0);
    assert_eq!(size_human_2_size_bytes("12XY"), 0);
    assert_eq!(size_human_2_size_bytes("12 KiB extra"), 0);
}

#[test]
fn fractional_and_saturating_sizes() {
    assert_eq!(size_human_2_size_bytes("1.5KiB"), 1536);
    assert_eq!(size_human_2_size_bytes(".5 KiB"), 512);
    assert_eq!(size_human_2_size_bytes("1. B"), 1);
    assert_eq!(size_human_2_size_bytes("1."), 0);
    // Far beyond the range of u64, the result saturates.
    assert_eq!(size_human_2_size_bytes("99999999999999999999999EB"), u64::MAX);
    assert_eq!(size_human_2_size_bytes("999999999999999999999999999999B"), u64::MAX);
    // Fractional digits beyond the twentieth cannot add a whole byte.
    assert_eq!(size_human_2_size_bytes("0.000000000000000000000001KiB"), 0);
}

#[test]
fn sizes_to_human_strings() {
    assert_eq!(size_bytes_2_size_human(0), "0.00B");
    assert_eq!(size_bytes_2_size_human(500), "500.00B");
    assert_eq!(size_bytes_2_size_human(1024), "1.00KiB");
    assert_eq!(size_bytes_2_size_human(1536), "1.50KiB");
    // An exact half rounds to the even hundredth.
    assert_eq!(size_bytes_2_size_human(1152), "1.12KiB");
    assert_eq!(size_bytes_2_size_human(1 << 30), "1.00GiB");
    assert_eq!(size_bytes_2_size_human(u64::MAX), "16.00EiB");
}

#[test]
fn wwpn_validation() {
    assert!(verify_init_id_str("0x20:00:00:81:23:45:ac:01", InitiatorType::Wwpn).is_ok());
    assert!(verify_init_id_str("20:00:00:81:23:45:ac:01", InitiatorType::Wwpn).is_ok());
    assert!(verify_init_id_str("200000812345ac01", InitiatorType::Wwpn).is_ok());
    assert!(verify_init_id_str("20.00-00:812345ac01", InitiatorType::Wwpn).is_ok());
    let e = verify_init_id_str("20:00:00:81:23:45:ac", InitiatorType::Wwpn).unwrap_err();
    assert_eq!(e.kind, LsmErrorKind::InvalidArgument);
    assert!(verify_init_id_str("20:00:00:81:23:45:ac:zz", InitiatorType::Wwpn).is_err());
    assert!(verify_init_id_str("0x", InitiatorType::Wwpn).is_err());
}

#[test]
fn iqn_validation() {
    assert!(verify_init_id_str("iqn.2017-11.com.example:rust-test", InitiatorType::IscsiIqn).is_ok());
    assert!(verify_init_id_str("eui.02004567A425678D", InitiatorType::IscsiIqn).is_ok());
    assert!(verify_init_id_str("naa.52004567BA64678D", InitiatorType::IscsiIqn).is_ok());
    assert!(verify_init_id_str("foo.bar", InitiatorType::IscsiIqn).is_err());
}

#[test]
fn unsupported_initiator_types_are_rejected() {
    let e = verify_init_id_str("whatever", InitiatorType::Other).unwrap_err();
    assert_eq!(e.kind, LsmErrorKind::InvalidArgument);
    assert!(verify_init_id_str("whatever", InitiatorType::Unknown).is_err());
    assert!(verify_init_id_str("whatever", InitiatorType::Mixed).is_err());
}
