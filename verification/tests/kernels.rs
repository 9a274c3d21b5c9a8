use timestamp_kernels::errors::KernelError;
use timestamp_kernels::fallback::{handle_multiple, strings_to_primitive_function};
use timestamp_kernels::kernel::{validate_data_types, ColumnarOutput};
use timestamp_kernels::operand::{ColumnarOperand, TextEncoding};
use timestamp_kernels::parsers::{
    FormattedMillisParser, FormattedNanosParser, FormattedSecondsParser, IsoNanosParser,
};
use timestamp_kernels::unary::handle;

fn utf8_array(vals: &[Option<&str>]) -> ColumnarOperand {
    ColumnarOperand::Array {
        encoding: TextEncoding::Utf8,
        rows: vals.iter().map(|v| v.map(|s| s.to_string())).collect(),
    }
}

fn utf8_scalar(v: Option<&str>) -> ColumnarOperand {
    ColumnarOperand::Scalar { encoding: TextEncoding::Utf8, value: v.map(|s| s.to_string()) }
}

fn other(desc: &str) -> ColumnarOperand {
    ColumnarOperand::Other { description: desc.to_string() }
}

const D_2023_01_01: i64 = 1_672_531_200;
const D_2023_06_01: i64 = 1_685_577_600;

#[test]
fn accessor_reads_arrays_and_scalars_uniformly() {
    let arr = utf8_array(&[Some("a"), None]);
    assert_eq!(arr.length(99), 2);
    assert!(arr.is_array());
    assert!(arr.is_text());
    assert_eq!(arr.value_at(0).map(|s| s.as_str()), Some("a"));
    assert!(arr.value_at(1).is_none());

    let sc = utf8_scalar(Some("x"));
    assert_eq!(sc.length(7), 7);
    assert!(!sc.is_array());
    assert_eq!(sc.value_at(0).map(|s| s.as_str()), Some("x"));
    assert_eq!(sc.value_at(5).map(|s| s.as_str()), Some("x"));

    assert!(!other("Int32").is_text());
    assert_eq!(other("Int32").type_description(), "Int32");
}

#[test]
fn unary_array_end_to_end_aborts_on_bad_row() {
    let args = vec![utf8_array(&[Some("2023-06-01"), None, Some("bad")])];
    let r = handle(&args, &IsoNanosParser, "to_timestamp");
    match r {
        Err(KernelError::ParseFailure { text, format, .. }) => {
            assert_eq!(text, "bad");
            assert_eq!(format, None);
        }
        other => panic!("expected a parse failure for the whole call, got {other:?}"),
    }
}

#[test]
fn unary_array_null_rows_stay_null() {
    let args = vec![utf8_array(&[None, Some("2023-06-01"), None])];
    let r = handle(&args, &IsoNanosParser, "to_timestamp").unwrap();
    assert_eq!(
        r,
        ColumnarOutput::Array(vec![None, Some(D_2023_06_01 * 1_000_000_000), None])
    );
}

#[test]
fn unary_all_null_array_never_fails() {
    let args = vec![utf8_array(&[None, None])];
    let r = handle(&args, &IsoNanosParser, "to_timestamp").unwrap();
    assert_eq!(r, ColumnarOutput::Array(vec![None, None]));
}

#[test]
fn unary_scalar_paths() {
    let ok = handle(&vec![utf8_scalar(Some("2023-06-01"))], &IsoNanosParser, "to_timestamp");
    assert_eq!(
        ok.unwrap(),
        ColumnarOutput::Scalar(Some(D_2023_06_01 * 1_000_000_000))
    );

    let null = handle(&vec![utf8_scalar(None)], &IsoNanosParser, "to_timestamp");
    assert_eq!(null.unwrap(), ColumnarOutput::Scalar(None));

    let bad = handle(&vec![utf8_scalar(Some("bad"))], &IsoNanosParser, "to_timestamp");
    assert!(matches!(bad, Err(KernelError::ParseFailure { .. })));
}

#[test]
fn unary_rejects_non_text_operand() {
    let r = handle(&vec![other("Int32")], &IsoNanosParser, "to_timestamp");
    match r {
        Err(KernelError::UnsupportedType { function, index, actual }) => {
            assert_eq!(function, "to_timestamp");
            assert_eq!(index, 0);
            assert_eq!(actual, "Int32");
        }
        other => panic!("expected a type error, got {other:?}"),
    }
}

#[test]
fn validate_data_types_reports_first_violation_from_second_argument() {
    let ok = validate_data_types(
        &vec![other("Int32"), utf8_scalar(Some("x")), utf8_array(&[Some("y")])],
        "f",
    );
    assert!(ok.is_ok());

    let bad = validate_data_types(
        &vec![utf8_scalar(Some("x")), utf8_scalar(Some("y")), other("Float16"), other("Int8")],
        "f",
    );
    match bad {
        Err(KernelError::UnsupportedType { function, index, actual }) => {
            assert_eq!(function, "f");
            assert_eq!(index, 2);
            assert_eq!(actual, "Float16");
        }
        other => panic!("expected a type error, got {other:?}"),
    }
}

#[test]
fn fallback_first_success_wins() {
    let args = vec![
        utf8_array(&[Some("2023-01-01")]),
        utf8_scalar(Some("%Y/%m/%d")),
        utf8_scalar(Some("%Y-%m-%d")),
        utf8_scalar(Some("%d.%m.%Y")),
    ];
    let r = handle_multiple(&args, &FormattedNanosParser, "to_timestamp").unwrap();
    assert_eq!(
        r,
        ColumnarOutput::Array(vec![Some(D_2023_01_01 * 1_000_000_000)])
    );
}

#[test]
fn fallback_applies_transform_to_accepted_result_only() {
    let args = vec![
        utf8_array(&[Some("2023-01-01")]),
        utf8_scalar(Some("%Y/%m/%d")),
        utf8_scalar(Some("%Y-%m-%d")),
    ];
    let r = handle_multiple(&args, &FormattedSecondsParser, "to_timestamp_seconds").unwrap();
    assert_eq!(r, ColumnarOutput::Array(vec![Some(D_2023_01_01)]));

    let m = handle_multiple(&args, &FormattedMillisParser, "to_timestamp_millis").unwrap();
    assert_eq!(m, ColumnarOutput::Array(vec![Some(D_2023_01_01 * 1_000)]));
}

#[test]
fn seconds_transform_truncates_toward_zero() {
    let before_epoch = vec![
        utf8_array(&[Some("1960-01-01"), Some("1969-12-31 23:59:59.500")]),
        utf8_scalar(Some("%Y-%m-%d")),
        utf8_scalar(Some("%Y-%m-%d %H:%M:%S%.3f")),
    ];
    let r = handle_multiple(&before_epoch, &FormattedSecondsParser, "to_timestamp_seconds").unwrap();
    // -315619200 whole seconds; half a second before the epoch truncates to 0.
    assert_eq!(r, ColumnarOutput::Array(vec![Some(-315_619_200), Some(0)]));
}

#[test]
fn fallback_escalates_last_candidate_failure() {
    let args = vec![
        utf8_array(&[Some("2023-01-01")]),
        utf8_scalar(Some("%Y/%m/%d")),
        utf8_scalar(Some("%H:%M:%S")),
    ];
    let r = handle_multiple(&args, &FormattedNanosParser, "to_timestamp");
    match r {
        Err(KernelError::ParseFailure { text, format, .. }) => {
            assert_eq!(text, "2023-01-01");
            assert_eq!(format.as_deref(), Some("%H:%M:%S"));
        }
        other => panic!("expected the last candidate's failure, got {other:?}"),
    }
}

#[test]
fn fallback_skips_null_candidates() {
    let args = vec![
        utf8_array(&[Some("2023-01-01"), Some("2023-06-01")]),
        utf8_scalar(None),
        utf8_array(&[None, Some("%Y-%m-%d")]),
        utf8_scalar(Some("%Y-%m-%d")),
    ];
    let r = handle_multiple(&args, &FormattedNanosParser, "to_timestamp").unwrap();
    assert_eq!(
        r,
        ColumnarOutput::Array(vec![
            Some(D_2023_01_01 * 1_000_000_000),
            Some(D_2023_06_01 * 1_000_000_000),
        ])
    );
}

#[test]
fn fallback_null_primary_rows_consult_no_candidate() {
    let args = vec![
        utf8_array(&[None, None]),
        utf8_scalar(Some("not a usable pattern at all")),
    ];
    let r = handle_multiple(&args, &FormattedNanosParser, "to_timestamp").unwrap();
    assert_eq!(r, ColumnarOutput::Array(vec![None, None]));
}

#[test]
fn fallback_row_with_no_usable_candidate_is_null() {
    let args = vec![utf8_array(&[Some("2023-01-01")]), utf8_scalar(None)];
    let r = handle_multiple(&args, &FormattedNanosParser, "to_timestamp").unwrap();
    assert_eq!(r, ColumnarOutput::Array(vec![None]));
}

#[test]
fn type_validation_runs_before_any_row_work() {
    // Row 0 would fail to parse, but the type violation at position 1
    // must win: the parser is never consulted.
    let args = vec![utf8_array(&[Some("unparseable")]), other("Int32")];
    let r = handle_multiple(&args, &FormattedNanosParser, "to_timestamp");
    match r {
        Err(KernelError::UnsupportedType { function, index, actual }) => {
            assert_eq!(function, "to_timestamp");
            assert_eq!(index, 1);
            assert_eq!(actual, "Int32");
        }
        other => panic!("expected a type error before row processing, got {other:?}"),
    }
}

#[test]
fn fallback_requires_two_operands() {
    let args = vec![utf8_array(&[Some("2023-01-01")])];
    let r = handle_multiple(&args, &FormattedNanosParser, "to_timestamp");
    match r {
        Err(KernelError::ArgumentCount { function, received, required }) => {
            assert_eq!(function, "to_timestamp");
            assert_eq!(received, 1);
            assert_eq!(required, 2);
        }
        other => panic!("expected an argument-count error, got {other:?}"),
    }
}

#[test]
fn fallback_rejects_zero_operands() {
    let r = handle_multiple(&vec![], &FormattedNanosParser, "to_timestamp");
    match r {
        Err(KernelError::ArgumentCount { received, required, .. }) => {
            assert_eq!(received, 0);
            assert_eq!(required, 2);
        }
        other => panic!("expected an argument-count error, got {other:?}"),
    }
}

#[test]
fn scalar_fallback_first_success_wins() {
    let args = vec![
        utf8_scalar(Some("2023-01-01")),
        utf8_scalar(Some("%Y/%m/%d")),
        utf8_scalar(Some("%Y-%m-%d")),
    ];
    let r = handle_multiple(&args, &FormattedNanosParser, "to_timestamp").unwrap();
    assert_eq!(r, ColumnarOutput::Scalar(Some(D_2023_01_01 * 1_000_000_000)));
}

#[test]
fn scalar_fallback_null_subject_is_internal_violation() {
    let args = vec![utf8_scalar(None), utf8_scalar(Some("%Y-%m-%d"))];
    let r = handle_multiple(&args, &FormattedNanosParser, "to_timestamp");
    assert!(matches!(r, Err(KernelError::InternalInvariantViolation { .. })));
}

#[test]
fn scalar_fallback_without_usable_candidate_is_internal_violation() {
    let args = vec![utf8_scalar(Some("2023-01-01")), utf8_scalar(None), utf8_scalar(None)];
    let r = handle_multiple(&args, &FormattedNanosParser, "to_timestamp");
    assert!(matches!(r, Err(KernelError::InternalInvariantViolation { .. })));
}

#[test]
fn scalar_fallback_rejects_array_candidate() {
    let args = vec![
        utf8_scalar(Some("2023-01-01")),
        utf8_array(&[Some("%Y-%m-%d")]),
    ];
    let r = handle_multiple(&args, &FormattedNanosParser, "to_timestamp");
    match r {
        Err(KernelError::UnsupportedType { index, .. }) => assert_eq!(index, 1),
        other => panic!("expected a type error for the array candidate, got {other:?}"),
    }
}

#[test]
fn strings_to_primitive_rejects_non_array_subject() {
    let args = vec![utf8_scalar(Some("2023-01-01")), utf8_scalar(Some("%Y-%m-%d"))];
    let r = strings_to_primitive_function(&args, &FormattedNanosParser, "to_timestamp");
    match r {
        Err(KernelError::UnsupportedType { index, actual, .. }) => {
            assert_eq!(index, 0);
            assert_eq!(actual, "Utf8");
        }
        other => panic!("expected a type error for the subject, got {other:?}"),
    }
}

#[test]
fn strings_to_primitive_builds_the_column() {
    let args = vec![
        utf8_array(&[Some("2023-01-01"), None]),
        utf8_scalar(Some("%Y-%m-%d")),
    ];
    let r = strings_to_primitive_function(&args, &FormattedNanosParser, "to_timestamp").unwrap();
    assert_eq!(r, vec![Some(D_2023_01_01 * 1_000_000_000), None]);
}

#[test]
fn kernels_are_idempotent() {
    let args = vec![
        utf8_array(&[Some("2023-01-01"), None, Some("2023-06-01")]),
        utf8_scalar(Some("%Y/%m/%d")),
        utf8_scalar(Some("%Y-%m-%d")),
    ];
    let a = handle_multiple(&args, &FormattedNanosParser, "to_timestamp");
    let b = handle_multiple(&args, &FormattedNanosParser, "to_timestamp");
    assert_eq!(a.unwrap(), b.unwrap());

    let bad = vec![utf8_array(&[Some("bad")]), utf8_scalar(Some("%Y-%m-%d"))];
    let e1 = handle_multiple(&bad, &FormattedNanosParser, "to_timestamp");
    let e2 = handle_multiple(&bad, &FormattedNanosParser, "to_timestamp");
    assert_eq!(e1.unwrap_err(), e2.unwrap_err());
}

#[test]
fn three_encodings_are_interchangeable() {
    let rows = [Some("2023-01-01"), None, Some("2023-06-01")];
    let mut results = Vec::new();
    for enc in [TextEncoding::Utf8, TextEncoding::LargeUtf8, TextEncoding::Utf8View] {
        let args = vec![
            ColumnarOperand::Array {
                encoding: enc,
                rows: rows.iter().map(|v| v.map(|s| s.to_string())).collect(),
            },
            ColumnarOperand::Scalar { encoding: enc, value: Some("%Y-%m-%d".to_string()) },
        ];
        results.push(handle_multiple(&args, &FormattedNanosParser, "to_timestamp").unwrap());
    }
    assert_eq!(results[0], results[1]);
    assert_eq!(results[1], results[2]);
}
