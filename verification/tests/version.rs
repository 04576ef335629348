use hypervisor_report::decimal::decimal_text;
use hypervisor_report::version::HypervisorVersion;

fn parts(raw: u32) -> (u32, u32, u32) {
    let v = HypervisorVersion::from_raw(raw);
    (v.major, v.minor, v.release)
}

#[test]
fn version_2008000_is_2_8_0() {
    assert_eq!(parts(2_008_000), (2, 8, 0));
}

#[test]
fn version_parts_use_both_divisors() {
    assert_eq!(parts(1_002_003), (1, 2, 3));
    assert_eq!(parts(12_345_678), (12, 345, 678));
}

#[test]
fn version_zero_is_all_zero() {
    assert_eq!(parts(0), (0, 0, 0));
}

#[test]
fn version_below_one_thousand_is_release_only() {
    assert_eq!(parts(999), (0, 0, 999));
    assert_eq!(parts(1_000), (0, 1, 0));
    assert_eq!(parts(999_999), (0, 999, 999));
    assert_eq!(parts(1_000_000), (1, 0, 0));
}

#[test]
fn version_largest_number() {
    assert_eq!(parts(u32::MAX), (4294, 967, 295));
}

#[test]
fn version_parts_pack_back() {
    for raw in [0u32, 7, 1_000, 2_008_000, 9_001_002, 4_294_967_295] {
        let v = HypervisorVersion::from_raw(raw);
        let packed = v.major as u64 * 1_000_000 + v.minor as u64 * 1_000 + v.release as u64;
        assert_eq!(packed, raw as u64);
        assert!(v.minor < 1_000);
        assert!(v.release < 1_000);
    }
}

#[test]
fn version_equality_is_by_parts() {
    assert_eq!(
        HypervisorVersion::from_raw(2_008_000),
        HypervisorVersion { major: 2, minor: 8, release: 0 }
    );
    assert_ne!(HypervisorVersion::from_raw(2_008_000), HypervisorVersion::from_raw(2_008_001));
}

#[test]
fn decimal_of_zero() {
    assert_eq!(decimal_text(0), "0");
}

#[test]
fn decimal_of_single_digits() {
    let expected = ["0", "1", "2", "3", "4", "5", "6", "7", "8", "9"];
    for d in 0..10u64 {
        assert_eq!(decimal_text(d), expected[d as usize]);
    }
}

#[test]
fn decimal_has_no_leading_zero() {
    assert_eq!(decimal_text(10), "10");
    assert_eq!(decimal_text(100), "100");
    assert_eq!(decimal_text(1_000_000), "1000000");
    assert_eq!(decimal_text(907), "907");
}

#[test]
fn decimal_of_largest_number() {
    assert_eq!(decimal_text(u64::MAX), "18446744073709551615");
}

#[test]
fn decimal_agrees_with_std() {
    for n in [11u64, 42, 99, 101, 12_345, 524_288, 4_294_967_295, 123_456_789_012] {
        assert_eq!(decimal_text(n), format!("{}", n));
    }
}
