use productized_shell::calendar::{
    civil_from_days, days_from_civil, div_euclid_i64, pad_decimal, parse_utc_millis,
    utc_from_millis,
};

#[test]
fn epoch_and_known_dates() {
    assert_eq!(days_from_civil(1970, 1, 1), 0);
    assert_eq!(civil_from_days(0), (1970, 1, 1));
    assert_eq!(days_from_civil(2000, 3, 1), 11_017);
    assert_eq!(civil_from_days(11_017), (2000, 3, 1));
    assert_eq!(days_from_civil(1969, 12, 31), -1);
    assert_eq!(civil_from_days(-1), (1969, 12, 31));
    assert_eq!(civil_from_days(days_from_civil(2024, 2, 29)), (2024, 2, 29));
}

#[test]
fn civil_round_trips_over_a_range() {
    let mut d = -800_000;
    while d <= 800_000 {
        let (y, m, day) = civil_from_days(d);
        assert_eq!(days_from_civil(y, m, day), d);
        d += 997;
    }
}

#[test]
fn utc_text_formats_epoch_millis() {
    assert_eq!(utc_from_millis(0).unwrap(), "1970-01-01T00:00:00.000Z");
    assert_eq!(
        utc_from_millis(1_767_225_600_123).unwrap(),
        "2026-01-01T00:00:00.123Z"
    );
    assert_eq!(
        utc_from_millis(951_782_400_000 + 86_399_999).unwrap(),
        "2000-02-29T23:59:59.999Z"
    );
    assert_eq!(utc_from_millis(-1).unwrap_err(), "m6_org_consult_clock_invalid");
}

#[test]
fn utc_text_parses_back() {
    for ms in [0i64, 1, 999, 86_400_000, 951_782_400_000, 1_767_225_600_123, 253_402_300_799_999] {
        let text = utc_from_millis(ms).unwrap();
        assert_eq!(parse_utc_millis(&text).unwrap(), ms, "{text}");
    }
}

#[test]
fn malformed_timestamps_are_refused() {
    for bad in [
        "",
        "2026-01-01T00:00:00Z",
        "2026-01-01 00:00:00.000Z",
        "2026-02-30T00:00:00.000Z",
        "2025-02-29T00:00:00.000Z",
        "1969-12-31T23:59:59.999Z",
        "2026-13-01T00:00:00.000Z",
        "2026-01-01T24:00:00.000Z",
        "2026-01-01T00:60:00.000Z",
        "2026-01-01T00:00:60.000Z",
        "2026-01-0xT00:00:00.000Z",
        "2026-01-01T00:00:00.000z",
    ] {
        assert_eq!(
            parse_utc_millis(bad).unwrap_err(),
            "m6_org_consult_utc_millis_required",
            "{bad}"
        );
    }
    assert_eq!(parse_utc_millis("2024-02-29T00:00:00.000Z").unwrap(), 1_709_164_800_000);
    assert_eq!(parse_utc_millis("+970-01-01T00:00:00.000Z").unwrap_err(), "m6_org_consult_utc_millis_required");
}

#[test]
fn padding_and_euclidean_division() {
    assert_eq!(pad_decimal(7, 3), "007");
    assert_eq!(pad_decimal(12345, 3), "12345");
    assert_eq!(div_euclid_i64(-7, 2), -4);
    assert_eq!(div_euclid_i64(7, 2), 3);
}

#[test]
fn written_timestamps_read_back() {
    for ms in [0i64, 1, 999, 86_399_999, 951_782_400_000, 1_767_225_600_123, 253_402_300_799_999] {
        let text = utc_from_millis(ms).unwrap();
        assert_eq!(parse_utc_millis(&text), Ok(ms), "{text}");
    }
    let mut ms = 0i64;
    while ms < 253_402_300_800_000 {
        assert_eq!(parse_utc_millis(&utc_from_millis(ms).unwrap()), Ok(ms));
        ms += 7_777_777_777;
    }
    // From year 10000 on the year no longer has four digits.
    let text = utc_from_millis(253_402_300_800_000).unwrap();
    assert_eq!(text, "10000-01-01T00:00:00.000Z");
    assert!(parse_utc_millis(&text).is_err());
}
