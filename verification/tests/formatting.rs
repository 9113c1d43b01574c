use timersock::hms::{format_hms, push_decimal, push_two_digits};

#[test]
fn format_hms_of_zero() {
    assert_eq!(format_hms(0), "00:00:00");
}

#[test]
fn format_hms_of_an_hour_a_minute_and_a_second() {
    assert_eq!(format_hms(3661), "01:01:01");
}

#[test]
fn format_hms_of_the_last_second_of_a_day() {
    assert_eq!(format_hms(86399), "23:59:59");
}

#[test]
fn format_hms_lets_the_hours_grow() {
    assert_eq!(format_hms(90000), "25:00:00");
    assert_eq!(format_hms(360000), "100:00:00");
    assert_eq!(format_hms(u64::MAX), "5124095576030431:00:15");
}

#[test]
fn format_hms_agrees_with_the_standard_formatter() {
    let mut total: u64 = 0;
    for step in 0..20_000u64 {
        let hours = total / 3600;
        let minutes = (total % 3600) / 60;
        let seconds = total % 60;
        assert_eq!(format_hms(total), format!("{hours:02}:{minutes:02}:{seconds:02}"));
        total = total.wrapping_mul(6364136223846793005).wrapping_add(step * 2 + 1);
    }
    for total in 0..7300u64 {
        let hours = total / 3600;
        let minutes = (total % 3600) / 60;
        let seconds = total % 60;
        assert_eq!(format_hms(total), format!("{hours:02}:{minutes:02}:{seconds:02}"));
    }
}

#[test]
fn decimal_numerals() {
    for n in [0u64, 7, 10, 99, 100, 65535, 1_000_000_007, u64::MAX] {
        let mut out = String::from("n=");
        push_decimal(&mut out, n);
        assert_eq!(out, format!("n={n}"));
        let mut padded = String::new();
        push_two_digits(&mut padded, n);
        assert_eq!(padded, format!("{n:02}"));
    }
}
