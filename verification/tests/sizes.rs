use filey::decimal::{decimal_string, digit};
use filey::units::{EIB, GIB, KIB, MIB, PIB, TIB};
use filey::UnitOfInfo;

#[test]
fn format_at_the_unit_multipliers() {
    assert_eq!(UnitOfInfo::format(1024), "1KiB");
    assert_eq!(UnitOfInfo::format(1048576), "1MiB");
    assert_eq!(UnitOfInfo::format(1073741824), "1GiB");
    assert_eq!(UnitOfInfo::format(0), "0B");
}

#[test]
fn format_below_four_digits_is_bare_bytes() {
    assert_eq!(UnitOfInfo::format(1), "1B");
    assert_eq!(UnitOfInfo::format(512), "512B");
    assert_eq!(UnitOfInfo::format(999), "999B");
}

#[test]
fn format_buckets_by_digit_count() {
    assert_eq!(UnitOfInfo::format(1_000), "0KiB");
    assert_eq!(UnitOfInfo::format(1_023), "0KiB");
    assert_eq!(UnitOfInfo::format(999_999), "976KiB");
    assert_eq!(UnitOfInfo::format(1_000_000), "0MiB");
    assert_eq!(UnitOfInfo::format(17_825_792), "17MiB");
    assert_eq!(UnitOfInfo::format(999_999_999), "953MiB");
    assert_eq!(UnitOfInfo::format(1_000_000_000), "0GiB");
    assert_eq!(UnitOfInfo::format(1_073_741_823), "0GiB");
    assert_eq!(UnitOfInfo::format(999_999_999_999), "931GiB");
    assert_eq!(UnitOfInfo::format(1_000_000_000_000), "0TiB");
    assert_eq!(UnitOfInfo::format(1_099_511_627_776), "1TiB");
    assert_eq!(UnitOfInfo::format(1_000_000_000_000_000), "0PiB");
    assert_eq!(UnitOfInfo::format(1_125_899_906_842_624), "1PiB");
    assert_eq!(UnitOfInfo::format(1_000_000_000_000_000_000), "0EiB");
    assert_eq!(UnitOfInfo::format(1_152_921_504_606_846_976), "1EiB");
    assert_eq!(UnitOfInfo::format(u64::MAX), "15EiB");
}

#[test]
fn format_divides_before_it_rounds() {
    // 1 MiB less one byte is 1023 whole KiB and a fraction; the fraction is
    // dropped by the division, and the count has seven digits.
    assert_eq!(UnitOfInfo::format(1_048_575), "0MiB");
    assert_eq!(UnitOfInfo::format(1_572_864), "1MiB");
    assert_eq!(UnitOfInfo::format(2_097_151), "1MiB");
    assert_eq!(UnitOfInfo::format(2_097_152), "2MiB");
}

#[test]
fn format_ends_with_mib_from_one_mebibyte_to_nine_digits() {
    for n in [1_048_576u64, 1_048_577, 5_000_000, 123_456_789, 999_999_998, 999_999_999] {
        assert!(UnitOfInfo::format(n).ends_with("MiB"), "{}", n);
    }
}

#[test]
fn convert_is_integer_division() {
    let n: u64 = UnitOfInfo::GiB.into();
    assert_eq!(UnitOfInfo::convert(n, UnitOfInfo::MiB), 1_024);
    assert_eq!(UnitOfInfo::convert(1_048_575, UnitOfInfo::MiB), 0);
    assert_eq!(UnitOfInfo::convert(3 * 1_048_576 + 5, UnitOfInfo::MiB), 3);
    assert_eq!(UnitOfInfo::convert(u64::MAX, UnitOfInfo::EiB), 15);
}

#[test]
fn units_convert_into_their_multipliers() {
    assert_eq!(u64::from(UnitOfInfo::KiB), 1_024);
    assert_eq!(u64::from(UnitOfInfo::MiB), 1_048_576);
    assert_eq!(u64::from(UnitOfInfo::GiB), 1_073_741_824);
    assert_eq!(u64::from(UnitOfInfo::TiB), 1_099_511_627_776);
    assert_eq!(u64::from(UnitOfInfo::PiB), 1_125_899_906_842_624);
    assert_eq!(u64::from(UnitOfInfo::EiB), 1_152_921_504_606_846_976);
    assert_eq!(KIB, 1 << 10);
    assert_eq!(MIB, 1 << 20);
    assert_eq!(GIB, 1 << 30);
    assert_eq!(TIB, 1 << 40);
    assert_eq!(PIB, 1 << 50);
    assert_eq!(EIB, 1 << 60);
}

#[test]
fn units_are_named() {
    assert_eq!(UnitOfInfo::KiB.to_string(), "KiB");
    assert_eq!(UnitOfInfo::MiB.to_string(), "MiB");
    assert_eq!(UnitOfInfo::GiB.to_string(), "GiB");
    assert_eq!(UnitOfInfo::TiB.to_string(), "TiB");
    assert_eq!(UnitOfInfo::PiB.to_string(), "PiB");
    assert_eq!(UnitOfInfo::EiB.symbol(), "EiB");
}

#[test]
fn digit_counts_decimal_places() {
    assert_eq!(digit(0), 1);
    assert_eq!(digit(9), 1);
    assert_eq!(digit(10), 2);
    assert_eq!(digit(999), 3);
    assert_eq!(digit(1_000), 4);
    assert_eq!(digit(u64::MAX), 20);
}

#[test]
fn decimal_string_writes_numbers() {
    assert_eq!(decimal_string(0), "0");
    assert_eq!(decimal_string(7), "7");
    assert_eq!(decimal_string(10), "10");
    assert_eq!(decimal_string(1_234_567_890), "1234567890");
    assert_eq!(decimal_string(u64::MAX), "18446744073709551615");
}
