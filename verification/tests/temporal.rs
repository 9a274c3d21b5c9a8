use timestamp_kernels::errors::KernelError;
use timestamp_kernels::temporal::{
    instant_to_millis, instant_to_nanos, localize, string_to_datetime_formatted,
    string_to_timestamp_millis_formatted, string_to_timestamp_nanos_formatted,
    string_to_timestamp_nanos_shim, Instant, Timezone,
};

const D_2023_01_01: i64 = 1_672_531_200;

#[test]
fn formatted_naive_datetime_parses_as_utc() {
    let r = string_to_timestamp_nanos_formatted("2023-01-01 04:05:06", "%Y-%m-%d %H:%M:%S");
    assert_eq!(r.unwrap(), (D_2023_01_01 + 4 * 3600 + 5 * 60 + 6) * 1_000_000_000);
}

#[test]
fn formatted_date_only_defaults_to_midnight() {
    let r = string_to_timestamp_nanos_formatted("2023-01-01", "%Y-%m-%d");
    assert_eq!(r.unwrap(), D_2023_01_01 * 1_000_000_000);
}

#[test]
fn formatted_zone_carrying_string_wins_over_naive_reading() {
    let base = D_2023_01_01 + 4 * 3600 + 5 * 60 + 6;
    let utc = string_to_timestamp_nanos_formatted(
        "2023-01-01 04:05:06 +0000",
        "%Y-%m-%d %H:%M:%S %z",
    );
    assert_eq!(utc.unwrap(), base * 1_000_000_000);

    let plus5 = string_to_timestamp_nanos_formatted(
        "2023-01-01 04:05:06 +0500",
        "%Y-%m-%d %H:%M:%S %z",
    );
    assert_eq!(plus5.unwrap(), (base - 5 * 3600) * 1_000_000_000);
}

#[test]
fn formatted_mismatch_is_a_parse_failure() {
    let r = string_to_timestamp_nanos_formatted("2023-01-01", "%H:%M:%S");
    match r {
        Err(KernelError::ParseFailure { text, format, cause }) => {
            assert_eq!(text, "2023-01-01");
            assert_eq!(format.as_deref(), Some("%H:%M:%S"));
            assert!(!cause.is_empty());
        }
        other => panic!("expected a parse failure, got {other:?}"),
    }
}

#[test]
fn named_zone_single_localization_succeeds() {
    let tz = Timezone::named("America/Denver".to_string()).unwrap();
    let r = string_to_datetime_formatted(&tz, "2024-06-01 12:00:00", "%Y-%m-%d %H:%M:%S");
    // 2024-06-01 12:00 MDT (UTC-6) is 18:00 UTC.
    assert_eq!(r.unwrap(), Instant { secs: 1_717_264_800, nanos: 0 });
}

#[test]
fn spring_forward_gap_is_a_parse_failure() {
    let tz = Timezone::named("America/Denver".to_string()).unwrap();
    let r = string_to_datetime_formatted(&tz, "2024-03-10 02:30:00", "%Y-%m-%d %H:%M:%S");
    match r {
        Err(KernelError::ParseFailure { text, .. }) => assert_eq!(text, "2024-03-10 02:30:00"),
        other => panic!("an impossible local time must fail, got {other:?}"),
    }
}

#[test]
fn fall_back_overlap_is_a_parse_failure() {
    let tz = Timezone::named("America/Denver".to_string()).unwrap();
    let r = string_to_datetime_formatted(&tz, "2024-11-03 01:30:00", "%Y-%m-%d %H:%M:%S");
    match r {
        Err(KernelError::ParseFailure { text, .. }) => assert_eq!(text, "2024-11-03 01:30:00"),
        other => panic!("an ambiguous local time must fail, got {other:?}"),
    }
}

#[test]
fn unknown_zone_name_is_rejected() {
    assert!(Timezone::named("Not/AZone".to_string()).is_none());
    assert!(Timezone::named("America/Denver".to_string()).is_some());
}

#[test]
fn localize_detects_the_overlap_directly() {
    let tz = Timezone::named("America/Denver".to_string()).unwrap();
    // 2024-11-03 01:30 local falls in the fall-back overlap.
    let ambiguous = Instant { secs: 1_730_597_400, nanos: 0 };
    assert_eq!(localize(&tz, &ambiguous), None);
    // 2024-06-01 12:00 local maps to exactly one instant.
    let single = Instant { secs: 1_717_243_200, nanos: 0 };
    assert_eq!(localize(&tz, &single), Some(Instant { secs: 1_717_264_800, nanos: 0 }));
    // UTC localization is the identity.
    assert_eq!(localize(&Timezone::Utc, &single), Some(single));
}

#[test]
fn nanosecond_range_is_checked_where_millisecond_is_not() {
    let before = "1600-01-01 00:00:00";
    let after = "2263-01-01 00:00:00";
    let fmt = "%Y-%m-%d %H:%M:%S";

    for s in [before, after] {
        match string_to_timestamp_nanos_formatted(s, fmt) {
            Err(KernelError::RangeFailure { message }) => {
                assert!(message.contains("1677-09-21T00:12:44.0"));
            }
            other => panic!("expected a range failure for {s}, got {other:?}"),
        }
    }

    assert_eq!(
        string_to_timestamp_millis_formatted(before, fmt).unwrap(),
        -11_676_096_000_000
    );
    assert_eq!(
        string_to_timestamp_millis_formatted(after, fmt).unwrap(),
        9_246_182_400_000
    );
}

#[test]
fn epoch_truncations_on_instants() {
    let half_before_epoch = Instant { secs: -1, nanos: 500_000_000 };
    assert_eq!(instant_to_nanos(&half_before_epoch), Some(-500_000_000));
    assert_eq!(instant_to_millis(&half_before_epoch), -500);

    let far = Instant { secs: 9_300_000_000, nanos: 0 };
    assert_eq!(instant_to_nanos(&far), None);
    assert_eq!(instant_to_millis(&far), 9_300_000_000_000);
}

#[test]
fn shim_parses_rfc3339_and_converts_the_error() {
    let r = string_to_timestamp_nanos_shim("2020-09-08T13:42:29.190855Z");
    assert_eq!(r.unwrap(), 1_599_572_549_190_855_000);

    match string_to_timestamp_nanos_shim("not a timestamp") {
        Err(KernelError::ParseFailure { text, format, cause }) => {
            assert_eq!(text, "not a timestamp");
            assert_eq!(format, None);
            assert!(!cause.is_empty());
        }
        other => panic!("expected a parse failure, got {other:?}"),
    }
}

#[test]
fn formatted_parse_is_idempotent() {
    let a = string_to_timestamp_nanos_formatted("2023-01-01 04:05:06", "%Y-%m-%d %H:%M:%S");
    let b = string_to_timestamp_nanos_formatted("2023-01-01 04:05:06", "%Y-%m-%d %H:%M:%S");
    assert_eq!(a.unwrap(), b.unwrap());

    let e1 = string_to_timestamp_nanos_formatted("bad", "%Y-%m-%d");
    let e2 = string_to_timestamp_nanos_formatted("bad", "%Y-%m-%d");
    assert_eq!(e1.unwrap_err(), e2.unwrap_err());
}
