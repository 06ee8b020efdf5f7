use xlsq::decimal::{parse_numeral, u64_to_string, Numeral};
use xlsq::resolve::{not_found_message, out_of_range_message};
use xlsq::{get_sheet_name, Cell, Grid, Sheet, SheetError, Workbook};

fn book_of(names: &[&str]) -> Workbook {
    let mut sheets = Vec::new();
    for name in names {
        sheets.push(Sheet {
            name: name.to_string(),
            grid: Grid::new(vec![vec![Cell::Text("x".to_string())]]),
        });
    }
    Workbook { sheets }
}

fn one_sheet_book() -> Workbook {
    book_of(&["Sheet1"])
}

#[test]
fn test_get_sheet_name_by_index() {
    let workbook = one_sheet_book();

    // Test valid index
    let result = get_sheet_name(&workbook, "0");
    assert!(result.is_ok());

    // Test invalid index
    let result = get_sheet_name(&workbook, "99");
    assert!(result.is_err());
    assert!(result.unwrap_err().message().contains("out of range"));
}

#[test]
fn test_get_sheet_name_by_name() {
    let workbook = one_sheet_book();

    let result = get_sheet_name(&workbook, "Sheet1");
    assert!(result.is_ok());

    let result = get_sheet_name(&workbook, "NonExistentSheet");
    assert!(result.is_err());
    assert!(result.unwrap_err().message().contains("not found"));
}

#[test]
fn every_valid_index_resolves_to_its_name() {
    let names = ["Employees", "Products", "Notes", "2024", "Totals"];
    let workbook = book_of(&names);
    for (i, name) in names.iter().enumerate() {
        assert_eq!(
            get_sheet_name(&workbook, &i.to_string()),
            Ok(name.to_string())
        );
        assert_eq!(
            get_sheet_name(&workbook, &u64_to_string(i as u64)),
            Ok(name.to_string())
        );
    }
}

#[test]
fn every_name_that_is_no_numeral_resolves_to_itself() {
    let names = ["Employees", "Products", "Q1 2024", "-1", "1.5", " 0", "0x1"];
    let workbook = book_of(&names);
    for name in names {
        assert_eq!(get_sheet_name(&workbook, name), Ok(name.to_string()));
    }
}

#[test]
fn names_are_compared_exactly() {
    let workbook = book_of(&["Employees", "Products"]);
    for identifier in ["employees", "Employees ", " Employees", "Employee", ""] {
        match get_sheet_name(&workbook, identifier) {
            Err(SheetError::NotFound {
                identifier: given,
                available,
            }) => {
                assert_eq!(given, identifier);
                assert_eq!(available, vec!["Employees", "Products"]);
            }
            other => panic!("{:?} gave {:?}", identifier, other),
        }
    }
}

#[test]
fn a_numeral_is_never_taken_as_a_name() {
    let workbook = book_of(&["1", "0", "7"]);
    assert_eq!(get_sheet_name(&workbook, "0"), Ok("1".to_string()));
    assert_eq!(get_sheet_name(&workbook, "1"), Ok("0".to_string()));
    assert_eq!(
        get_sheet_name(&workbook, "7"),
        Err(SheetError::IndexOutOfRange {
            index: "7".to_string(),
            count: 3
        })
    );
}

#[test]
fn an_index_at_or_beyond_the_count_is_out_of_range() {
    let workbook = book_of(&["Employees", "Products"]);
    for (identifier, index) in [
        ("2", "2"),
        ("3", "3"),
        ("99", "99"),
        ("+5", "5"),
        ("007", "7"),
        ("18446744073709551615", "18446744073709551615"),
        ("18446744073709551616", "18446744073709551616"),
        (
            "000340282366920938463463374607431768211456",
            "340282366920938463463374607431768211456",
        ),
    ] {
        assert_eq!(
            get_sheet_name(&workbook, identifier),
            Err(SheetError::IndexOutOfRange {
                index: index.to_string(),
                count: 2
            }),
            "{}",
            identifier
        );
    }
}

#[test]
fn a_sign_and_leading_zeros_do_not_change_the_index() {
    let workbook = book_of(&["Employees", "Products"]);
    for identifier in ["1", "+1", "01", "+0001"] {
        assert_eq!(
            get_sheet_name(&workbook, identifier),
            Ok("Products".to_string())
        );
    }
}

#[test]
fn a_workbook_without_sheets_resolves_nothing() {
    let workbook = book_of(&[]);
    let by_index = get_sheet_name(&workbook, "0").unwrap_err();
    assert_eq!(
        by_index,
        SheetError::IndexOutOfRange {
            index: "0".to_string(),
            count: 0
        }
    );
    assert_eq!(
        by_index.message(),
        "Sheet index 0 out of range. No sheets available"
    );
    let by_name = get_sheet_name(&workbook, "Sheet1").unwrap_err();
    assert_eq!(
        by_name.message(),
        "Sheet 'Sheet1' not found. Available sheets: []"
    );
}

#[test]
fn error_messages_name_the_range_and_list_the_sheets() {
    let workbook = book_of(&["Employees", "Products"]);
    assert_eq!(
        get_sheet_name(&workbook, "99").unwrap_err().message(),
        "Sheet index 99 out of range. Available sheets: 0-1"
    );
    assert_eq!(
        get_sheet_name(&workbook, "InvalidSheet").unwrap_err().message(),
        "Sheet 'InvalidSheet' not found. Available sheets: [\"Employees\", \"Products\"]"
    );
}

#[test]
fn the_list_of_sheets_in_a_message_escapes_as_debug_does() {
    let workbook = book_of(&["a\"b", "tab\there", "back\\slash"]);
    let names = vec![
        "a\"b".to_string(),
        "tab\there".to_string(),
        "back\\slash".to_string(),
    ];
    assert_eq!(
        get_sheet_name(&workbook, "none").unwrap_err().message(),
        format!("Sheet 'none' not found. Available sheets: {:?}", names)
    );
}

#[test]
fn messages_from_their_parts() {
    assert_eq!(
        out_of_range_message("12", 3),
        "Sheet index 12 out of range. Available sheets: 0-2"
    );
    assert_eq!(
        out_of_range_message("12", 1),
        "Sheet index 12 out of range. Available sheets: 0-0"
    );
    assert_eq!(
        out_of_range_message("0", 0),
        "Sheet index 0 out of range. No sheets available"
    );
    assert_eq!(
        not_found_message("Data", "[\"A\"]"),
        "Sheet 'Data' not found. Available sheets: [\"A\"]"
    );
}

#[test]
fn numerals_are_read_as_the_standard_parser_reads_them() {
    let texts = [
        "", "+", "-", "0", "00", "+0", "-0", "1", "+1", "++1", "1+", "12", "012", "1 ", " 1",
        "1_000", "1.0", "0x10", "abc", "12a", "a12", "٣", "１", "９９", "4294967295", "4294967296",
        "18446744073709551615", "+18446744073709551615", "0018446744073709551615",
    ];
    for text in texts {
        let expected: Option<usize> = text.parse::<usize>().ok();
        let read = parse_numeral(text);
        assert_eq!(read.as_ref().and_then(|n| n.value), expected, "{:?}", text);
        if let Some(v) = expected {
            assert_eq!(read.unwrap().digits, v.to_string());
        }
    }
}

#[test]
fn numerals_beyond_the_machine_word_keep_their_digits() {
    assert_eq!(
        parse_numeral("18446744073709551616"),
        Some(Numeral {
            digits: "18446744073709551616".to_string(),
            value: if usize::BITS > 64 {
                Some(18446744073709551616u128 as usize)
            } else {
                None
            },
        })
    );
    assert_eq!(
        parse_numeral("+000123456789012345678901234567890"),
        Some(Numeral {
            digits: "123456789012345678901234567890".to_string(),
            value: None,
        })
    );
    assert_eq!(parse_numeral("123456789012345678901234567890x"), None);
    assert_eq!(
        parse_numeral("0000"),
        Some(Numeral {
            digits: "0".to_string(),
            value: Some(0),
        })
    );
}
