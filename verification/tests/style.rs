use streamertools::settings::Separator::{CommaDecimalDotThousand, DotDecimalCommaThousand};
use streamertools::style::thousand_separator_with;

/// The helpers under test take the separator explicitly so they never touch the
/// process-global setting, which tests running in parallel would otherwise race on.
fn cddt(number: i64) -> String {
    thousand_separator_with(number, CommaDecimalDotThousand)
}

#[test]
fn zero() {
    assert_eq!(cddt(0), "0");
}

#[test]
fn no_separator_below_one_thousand() {
    assert_eq!(cddt(1), "1");
    assert_eq!(cddt(999), "999");
}

#[test]
fn single_separator() {
    assert_eq!(cddt(1000), "1.000");
    assert_eq!(cddt(999999), "999.999");
}

#[test]
fn multiple_separators() {
    assert_eq!(cddt(1000000), "1.000.000");
    assert_eq!(cddt(1234567), "1.234.567");
}

#[test]
fn negative_numbers() {
    assert_eq!(cddt(-1), "-1");
    assert_eq!(cddt(-1000), "-1.000");
    assert_eq!(cddt(-1234567), "-1.234.567");
}

#[test]
fn extremes() {
    assert_eq!(cddt(i32::MAX as i64), "2.147.483.647");
    assert_eq!(cddt(i32::MIN as i64), "-2.147.483.648");
    assert_eq!(cddt(i64::MAX), "9.223.372.036.854.775.807");
    assert_eq!(cddt(i64::MIN), "-9.223.372.036.854.775.808");
}

#[test]
fn thousands_follow_the_selected_format() {
    assert_eq!(
        thousand_separator_with(1234567, DotDecimalCommaThousand),
        "1,234,567"
    );
    assert_eq!(
        thousand_separator_with(-1234567, DotDecimalCommaThousand),
        "-1,234,567"
    );
}

#[test]
fn removing_marks_gives_the_plain_number() {
    for n in [0i64, 7, 12_345, -98_765_432, i64::MIN] {
        let grouped = thousand_separator_with(n, DotDecimalCommaThousand);
        assert_eq!(grouped.replace(',', ""), n.to_string());
    }
}

#[test]
fn default_separator_is_dot_decimal() {
    assert_eq!(
        streamertools::settings::Separator::default(),
        DotDecimalCommaThousand
    );
}
