use enum_binding::definition::{ForeignEnumInfo, ForeignEnumItem, SourceLocation};
use enum_binding::error::{BoundaryFault, DiagnosticError, DiagnosticKind};
use enum_binding::text::{
    ends_with_char, push_decimal, push_signed_decimal, push_string_literal, same_text,
};

fn decimal_of(n: u32) -> String {
    let mut out = String::new();
    push_decimal(&mut out, n);
    out
}

fn signed_decimal_of(x: i32) -> String {
    let mut out = String::new();
    push_signed_decimal(&mut out, x);
    out
}

fn literal_of(s: &str) -> String {
    let mut out = String::new();
    push_string_literal(&mut out, s);
    out
}

#[test]
fn decimal_numerals() {
    for n in [0u32, 1, 9, 10, 11, 99, 100, 101, 1000, 65535, 2147483647, 2147483648, u32::MAX] {
        assert_eq!(decimal_of(n), n.to_string());
    }
    let mut out = "x = ".to_string();
    push_decimal(&mut out, 42);
    assert_eq!(out, "x = 42");
}

#[test]
fn signed_decimal_numerals() {
    for x in [0i32, 1, -1, 9, -9, 10, -10, 12345, -12345, i32::MAX, i32::MIN] {
        assert_eq!(signed_decimal_of(x), x.to_string());
    }
}

#[test]
fn last_character() {
    assert!(ends_with_char("line\n", '\n'));
    assert!(!ends_with_char("line", '\n'));
    assert!(!ends_with_char("", '\n'));
    assert!(!ends_with_char("\nline", '\n'));
    assert!(ends_with_char("dir/", '/'));
    assert!(ends_with_char("é", 'é'));
}

#[test]
fn equal_texts() {
    assert!(same_text("", ""));
    assert!(same_text("Color", "Color"));
    assert!(!same_text("Color", "color"));
    assert!(!same_text("Color", "Colo"));
}

#[test]
fn string_literals() {
    assert_eq!(literal_of(""), "\"\"");
    assert_eq!(literal_of("com/example/Color"), "\"com/example/Color\"");
    assert_eq!(literal_of("a\"b"), "\"a\\\"b\"");
    assert_eq!(literal_of("a\\b"), "\"a\\\\b\"");
    assert_eq!(literal_of("\n\r\t\0"), "\"\\n\\r\\t\\0\"");
    assert_eq!(literal_of("é'"), "\"é'\"");
    let mut out = "f(".to_string();
    push_string_literal(&mut out, "x");
    assert_eq!(out, "f(\"x\"");
}

#[test]
fn string_literals_denote_their_text() {
    for s in ["", "plain", "a\"b\\c", "tab\there", "line\nfeed\r", "nul\0001", "crème brûlée"] {
        let literal = syn::parse_str::<syn::LitStr>(&literal_of(s)).unwrap();
        assert_eq!(literal.value(), s);
    }
}

#[test]
fn diagnostics_carry_their_place_and_words() {
    let location = SourceLocation { src_id: 4, line: 2, column: 8 };
    let e = DiagnosticError::write_failed(location, "out/A.java", "no space");
    assert_eq!(e.kind, DiagnosticKind::WriteFailed);
    assert_eq!(e.location, location);
    assert_eq!(e.message, "write to out/A.java failed: no space");
    let e = DiagnosticError::foreign_type_conflict(location, "A");
    assert_eq!(e.kind, DiagnosticKind::ForeignTypeConflict);
    assert_eq!(e.message, "foreign type A is already defined");
}

#[test]
fn boundary_faults_name_value_and_enumeration() {
    let fault = BoundaryFault::invalid_foreign_value("Color", 3);
    assert_eq!(fault.message, "Invalid value for enum Color: 3");
    let fault = BoundaryFault::unexpected_native_value("Color", -3);
    assert_eq!(fault.message, "-3 not expected for Color");
    assert_eq!(fault.value, -3);
    assert_eq!(fault.enum_name, "Color");
}

#[test]
fn duplicate_is_equal() {
    let fenum = ForeignEnumInfo {
        location: SourceLocation { src_id: 1, line: 2, column: 3 },
        name: "Color".to_string(),
        items: vec![
            ForeignEnumItem {
                name: "Red".to_string(),
                rust_name: "Color::Red".to_string(),
                doc_comments: "    // red".to_string(),
            },
            ForeignEnumItem {
                name: "Green".to_string(),
                rust_name: "Color::Green".to_string(),
                doc_comments: String::new(),
            },
        ],
        doc_comments: "// colours".to_string(),
    };
    assert_eq!(fenum.duplicate(), fenum);
    assert_eq!(fenum.items[0].duplicate(), fenum.items[0]);
}
