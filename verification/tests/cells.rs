use xlsq::decimal::{i64_to_string, is_integer_numeral, u64_to_string};
use xlsq::{format_cell, Cell, ErrorCode, FloatParts};

fn float_cell(f: f64) -> Cell {
    if f.fract() == 0.0 {
        if f >= -9223372036854775808.0 && f < 9223372036854775808.0 {
            return Cell::Float(FloatParts::whole(f as i64));
        }
        if let Some(parts) = FloatParts::from_numeral(format!("{:.0}", f)) {
            return Cell::Float(parts);
        }
    }
    Cell::Float(FloatParts::fractional(format!("{}", f)))
}

#[test]
fn test_format_cell_string() {
    let cell = Cell::Text("Hello World".to_string());
    assert_eq!(format_cell(&cell), "Hello World");
}

#[test]
fn test_format_cell_int() {
    let cell = Cell::Int(42);
    assert_eq!(format_cell(&cell), "42");
}

#[test]
fn test_format_cell_float_whole_number() {
    let cell = float_cell(42.0);
    assert_eq!(format_cell(&cell), "42");
}

#[test]
fn test_format_cell_float_decimal() {
    let cell = float_cell(42.5);
    assert_eq!(format_cell(&cell), "42.5");
}

#[test]
fn test_format_cell_bool() {
    let cell = Cell::Bool(true);
    assert_eq!(format_cell(&cell), "true");

    let cell = Cell::Bool(false);
    assert_eq!(format_cell(&cell), "false");
}

#[test]
fn test_format_cell_empty() {
    let cell = Cell::Empty;
    assert_eq!(format_cell(&cell), "");
}

#[test]
fn format_cell_negative_and_extreme_integers() {
    assert_eq!(format_cell(&Cell::Int(0)), "0");
    assert_eq!(format_cell(&Cell::Int(-1)), "-1");
    assert_eq!(format_cell(&Cell::Int(-42)), "-42");
    assert_eq!(format_cell(&Cell::Int(1000)), "1000");
    assert_eq!(format_cell(&Cell::Int(i64::MAX)), "9223372036854775807");
    assert_eq!(format_cell(&Cell::Int(i64::MIN)), "-9223372036854775808");
}

#[test]
fn decimal_text_agrees_with_display() {
    let unsigned: [u64; 9] = [0, 1, 9, 10, 11, 99, 100, 1234567890, u64::MAX];
    for n in unsigned {
        assert_eq!(u64_to_string(n), format!("{}", n));
    }
    let signed: [i64; 9] = [0, 1, -1, 10, -10, 85000, -85000, i64::MAX, i64::MIN];
    for i in signed {
        assert_eq!(i64_to_string(i), format!("{}", i));
    }
}

#[test]
fn format_cell_error_codes_by_name() {
    assert_eq!(format_cell(&Cell::Error(ErrorCode::Div0)), "ERROR: Div0");
    assert_eq!(format_cell(&Cell::Error(ErrorCode::NA)), "ERROR: NA");
    assert_eq!(format_cell(&Cell::Error(ErrorCode::Name)), "ERROR: Name");
    assert_eq!(format_cell(&Cell::Error(ErrorCode::Null)), "ERROR: Null");
    assert_eq!(format_cell(&Cell::Error(ErrorCode::Num)), "ERROR: Num");
    assert_eq!(format_cell(&Cell::Error(ErrorCode::Ref)), "ERROR: Ref");
    assert_eq!(format_cell(&Cell::Error(ErrorCode::Value)), "ERROR: Value");
    assert_eq!(
        format_cell(&Cell::Error(ErrorCode::GettingData)),
        "ERROR: GettingData"
    );
}

#[test]
fn format_cell_error_codes_as_the_decoder_prints_them() {
    let pairs = [
        (ErrorCode::Div0, calamine::CellErrorType::Div0),
        (ErrorCode::NA, calamine::CellErrorType::NA),
        (ErrorCode::Name, calamine::CellErrorType::Name),
        (ErrorCode::Null, calamine::CellErrorType::Null),
        (ErrorCode::Num, calamine::CellErrorType::Num),
        (ErrorCode::Ref, calamine::CellErrorType::Ref),
        (ErrorCode::Value, calamine::CellErrorType::Value),
        (ErrorCode::GettingData, calamine::CellErrorType::GettingData),
    ];
    for (code, outside) in pairs {
        assert_eq!(
            format_cell(&Cell::Error(code)),
            format!("ERROR: {:?}", outside)
        );
    }
}

#[test]
fn format_cell_dates_and_durations_pass_through() {
    assert_eq!(format_cell(&Cell::DateTime("45123.5".to_string())), "45123.5");
    assert_eq!(
        format_cell(&Cell::DateTimeIso("2024-03-01T12:30:00".to_string())),
        "2024-03-01T12:30:00"
    );
    assert_eq!(
        format_cell(&Cell::DurationIso("PT1H30M".to_string())),
        "PT1H30M"
    );
}

#[test]
fn format_cell_integral_float_has_no_decimal_point() {
    let values = [
        0.0,
        -0.0,
        1.0,
        -1.0,
        42.0,
        85000.0,
        1e15,
        -1e15,
        4611686018427387904.0,
        -9223372036854775808.0,
        9223372036854775808.0,
        1e19,
        -1e19,
        18446744073709551616.0,
        1e300,
        -1e300,
        f64::MAX,
        f64::MIN,
    ];
    for f in values {
        let text = format_cell(&float_cell(f));
        assert!(!text.contains('.'), "{} gave {}", f, text);
        let digits = text.strip_prefix('-').unwrap_or(&text);
        assert!(!digits.is_empty() && digits.chars().all(|c| c.is_ascii_digit()));
        let back: f64 = text.parse().unwrap();
        assert_eq!(back, f);
    }
}

#[test]
fn format_cell_integral_float_is_the_numeral_of_its_value() {
    assert_eq!(format_cell(&float_cell(0.0)), "0");
    assert_eq!(format_cell(&float_cell(-0.0)), "0");
    assert_eq!(format_cell(&float_cell(-3.0)), "-3");
    assert_eq!(
        format_cell(&float_cell(4611686018427387904.0)),
        "4611686018427387904"
    );
    assert_eq!(
        format_cell(&float_cell(-9223372036854775808.0)),
        "-9223372036854775808"
    );
    assert_eq!(
        format_cell(&float_cell(9223372036854775808.0)),
        "9223372036854775808"
    );
    assert_eq!(format_cell(&float_cell(1e19)), "10000000000000000000");
    assert_eq!(format_cell(&float_cell(-1e19)), "-10000000000000000000");
    assert_eq!(
        format_cell(&float_cell(18446744073709551616.0)),
        "18446744073709551616"
    );
    assert_eq!(
        format_cell(&float_cell(-36893488147419103232.0)),
        "-36893488147419103232"
    );
    let huge = format_cell(&float_cell(1e300));
    assert_eq!(huge.len(), 301);
    assert!(huge.starts_with("1000000000000000052504760255204420248704468581108159"));
}

#[test]
fn format_cell_float_without_finite_value_keeps_its_text() {
    assert_eq!(format_cell(&float_cell(f64::INFINITY)), "inf");
    assert_eq!(format_cell(&float_cell(f64::NEG_INFINITY)), "-inf");
    assert_eq!(format_cell(&float_cell(f64::NAN)), "NaN");
}

#[test]
fn float_parts_take_the_numeral_of_an_integer_only() {
    for numeral in [
        "0",
        "7",
        "-7",
        "10",
        "-10",
        "10000000000000000000",
        "-10000000000000000000",
        "340282366920938463463374607431768211456",
    ] {
        let parts = FloatParts::from_numeral(numeral.to_string());
        assert!(parts.is_some(), "{}", numeral);
        assert_eq!(format_cell(&Cell::Float(parts.unwrap())), numeral);
    }
    for text in [
        "", "-", "+7", "07", "00", "-0", "-07", "7.0", "7.5", "1e19", " 7", "7 ", "--7", "inf",
        "NaN", "7a", "١",
    ] {
        assert!(FloatParts::from_numeral(text.to_string()).is_none(), "{:?}", text);
    }
}

#[test]
fn format_cell_fractional_float_reads_back() {
    let values = [42.5, 0.1, -0.25, 3.141592653589793, 1e-7, 2.5e-300, 1.0 / 3.0];
    for f in values {
        let text = format_cell(&float_cell(f));
        let back: f64 = text.parse().unwrap();
        assert_eq!(back, f);
    }
}

#[test]
fn format_cell_float_from_each_of_its_parts() {
    assert_eq!(format_cell(&Cell::Float(FloatParts::whole(-7))), "-7");
    assert_eq!(
        format_cell(&Cell::Float(FloatParts::whole(i64::MAX))),
        "9223372036854775807"
    );
    assert_eq!(
        format_cell(&Cell::Float(FloatParts::whole(i64::MIN))),
        "-9223372036854775808"
    );
    assert_eq!(
        format_cell(&Cell::Float(FloatParts::fractional("7.25".to_string()))),
        "7.25"
    );
}

#[test]
fn format_cell_is_deterministic() {
    let cells = [
        Cell::Empty,
        Cell::Text("a".to_string()),
        float_cell(2.5),
        Cell::Int(3),
        Cell::Bool(true),
        Cell::Error(ErrorCode::Ref),
    ];
    for cell in &cells {
        assert_eq!(format_cell(cell), format_cell(cell));
    }
}

#[test]
fn integer_numerals_are_what_display_writes() {
    let signed: [i64; 9] = [0, 1, -1, 10, -10, 85000, -85000, i64::MAX, i64::MIN];
    for i in signed {
        assert!(is_integer_numeral(&format!("{}", i)));
    }
    for text in ["", "-", "+1", "01", "-0", "-01", "1.0", "1 ", "0x1", "１"] {
        assert!(!is_integer_numeral(text), "{:?}", text);
    }
}
