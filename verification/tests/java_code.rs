use enum_binding::definition::{ForeignEnumInfo, ForeignEnumItem, SourceLocation};
use enum_binding::error::{BoundaryFaultKind, DiagnosticError, DiagnosticKind};
use enum_binding::java_code::{
    foreign_from_int, generate_java_code_for_enum, java_code_for_table, JavaArtifact,
};
use enum_binding::ordinal::{build_ordinal_table, cardinality_fits, ITEM_LIMIT};

fn item(name: &str, doc: &str) -> ForeignEnumItem {
    ForeignEnumItem {
        name: name.to_string(),
        rust_name: format!("Color::{}", name),
        doc_comments: doc.to_string(),
    }
}

fn enumeration(name: &str, items: Vec<ForeignEnumItem>, doc: &str) -> ForeignEnumInfo {
    ForeignEnumInfo {
        location: SourceLocation { src_id: 1, line: 10, column: 4 },
        name: name.to_string(),
        items,
        doc_comments: doc.to_string(),
    }
}

fn color() -> ForeignEnumInfo {
    enumeration("Color", vec![item("Red", ""), item("Green", ""), item("Blue", "")], "")
}

const COLOR_JAVA: &str = r#"// Automatically generated by rust_swig
package com.example;


public enum Color {
    Red(0),
    Green(1),
    Blue(2);

    private final int value;
    Color(int value) {
        this.value = value;
    }
    public final int getValue() { return value; }
    /*package*/ static Color fromInt(int x) {
        switch (x) {
            case 0: return Red;
            case 1: return Green;
            case 2: return Blue;
            default: throw new Error("Invalid value for enum Color: " + x);
        }
    }
}
"#;

const EMPTY_JAVA: &str = r#"// Automatically generated by rust_swig
package p;

// Nothing to choose from.
public enum Nothing {
    ;

    private final int value;
    Nothing(int value) {
        this.value = value;
    }
    public final int getValue() { return value; }
    /*package*/ static Nothing fromInt(int x) {
        switch (x) {
            default: throw new Error("Invalid value for enum Nothing: " + x);
        }
    }
}
"#;

#[test]
fn color_source_is_exact() {
    let artifact = generate_java_code_for_enum("out/java", "com.example", &color()).unwrap();
    assert_eq!(artifact.code, COLOR_JAVA);
    assert_eq!(artifact.path, "out/java/Color.java");
}

#[test]
fn color_declares_its_constants_in_order() {
    let artifact = generate_java_code_for_enum("out", "com.example", &color()).unwrap();
    assert!(artifact.code.contains("    Red(0),\n    Green(1),\n    Blue(2);\n"));
    assert_eq!(artifact.code.matches("(0)").count(), 1);
    assert_eq!(artifact.code.matches(";\n\n    private final int value;").count(), 1);
}

#[test]
fn color_from_int_returns_the_constant() {
    let fenum = color();
    let table = build_ordinal_table(&fenum).unwrap();
    assert_eq!(foreign_from_int(&fenum, &table, 0).unwrap(), "Red");
    assert_eq!(foreign_from_int(&fenum, &table, 1).unwrap(), "Green");
    assert_eq!(foreign_from_int(&fenum, &table, 2).unwrap(), "Blue");
}

#[test]
fn color_from_int_faults_outside_the_ordinals() {
    let fenum = color();
    let table = build_ordinal_table(&fenum).unwrap();
    let fault = foreign_from_int(&fenum, &table, 3).unwrap_err();
    assert_eq!(fault.kind, BoundaryFaultKind::InvalidForeignValue);
    assert_eq!(fault.enum_name, "Color");
    assert_eq!(fault.value, 3);
    assert_eq!(fault.message, "Invalid value for enum Color: 3");
    let fault = foreign_from_int(&fenum, &table, -1).unwrap_err();
    assert_eq!(fault.message, "Invalid value for enum Color: -1");
    let fault = foreign_from_int(&fenum, &table, i32::MIN).unwrap_err();
    assert_eq!(fault.message, "Invalid value for enum Color: -2147483648");
    let fault = foreign_from_int(&fenum, &table, i32::MAX).unwrap_err();
    assert_eq!(fault.message, "Invalid value for enum Color: 2147483647");
}

#[test]
fn empty_enumeration_has_no_constants() {
    let fenum = enumeration("Nothing", vec![], "// Nothing to choose from.");
    let artifact = generate_java_code_for_enum("", "p", &fenum).unwrap();
    assert_eq!(artifact.code, EMPTY_JAVA);
    assert_eq!(artifact.path, "Nothing.java");
    assert!(!artifact.code.contains("case "));
    assert!(!artifact.code.contains("(0)"));
}

#[test]
fn empty_enumeration_from_int_always_faults() {
    let fenum = enumeration("Nothing", vec![], "");
    let table = build_ordinal_table(&fenum).unwrap();
    assert_eq!(table.len(), 0);
    for x in [i32::MIN, -1, 0, 1, 2, i32::MAX] {
        let fault = foreign_from_int(&fenum, &table, x).unwrap_err();
        assert_eq!(fault.value, x);
        assert_eq!(fault.enum_name, "Nothing");
    }
}

#[test]
fn twelve_items_get_ordinals_zero_to_eleven() {
    let names: Vec<String> = (0..12).map(|i| format!("Item{}", (b'A' + i as u8) as char)).collect();
    let items = names.iter().map(|n| item(n, "")).collect();
    let fenum = enumeration("Dozen", items, "");
    let table = build_ordinal_table(&fenum).unwrap();
    assert_eq!(table.len(), 12);
    let code = java_code_for_table("p", &fenum, &table);
    for (i, name) in names.iter().enumerate() {
        let row = table.row(i);
        assert_eq!(row.ordinal, i as i32);
        assert_eq!(&row.foreign_identifier, name);
        assert_eq!(row.native_identifier, format!("Color::{}", name));
        let mark = if i == 11 { ';' } else { ',' };
        assert!(code.contains(&format!("    {}({}){}\n", name, i, mark)));
        assert!(code.contains(&format!("\n            case {}: return {};", i, name)));
        assert_eq!(&foreign_from_int(&fenum, &table, i as i32).unwrap(), name);
    }
    assert!(code.contains("    ItemJ(9),\n    ItemK(10),\n    ItemL(11);\n"));
    assert!(foreign_from_int(&fenum, &table, 12).is_err());
}

#[test]
fn single_item_is_followed_by_the_terminator() {
    let fenum = enumeration("One", vec![item("Only", "")], "");
    let artifact = generate_java_code_for_enum("d", "p", &fenum).unwrap();
    assert!(artifact.code.contains("public enum One {\n    Only(0);\n\n"));
}

#[test]
fn item_documentation_stands_before_its_constant() {
    let fenum = enumeration(
        "Color",
        vec![item("Red", "    // warm"), item("Green", "    // cool\n"), item("Blue", "")],
        "// A colour.",
    );
    let artifact = generate_java_code_for_enum("out", "com.example", &fenum).unwrap();
    assert!(artifact.code.contains("// A colour.\npublic enum Color {\n"));
    assert!(artifact.code.contains("        // warm\n    Red(0),\n"));
    assert!(artifact.code.contains("        // cool\n    Green(1),\n"));
    assert!(artifact.code.contains(",\n    Blue(2);\n"));
}

#[test]
fn path_joins_directory_and_file_name() {
    let fenum = color();
    assert_eq!(generate_java_code_for_enum("out", "p", &fenum).unwrap().path, "out/Color.java");
    assert_eq!(generate_java_code_for_enum("out/", "p", &fenum).unwrap().path, "out/Color.java");
    assert_eq!(generate_java_code_for_enum("/", "p", &fenum).unwrap().path, "/Color.java");
    assert_eq!(generate_java_code_for_enum("", "p", &fenum).unwrap().path, "Color.java");
    assert_eq!(generate_java_code_for_enum("a/b", "p", &fenum).unwrap().path, "a/b/Color.java");
}

#[test]
fn regeneration_needs_no_write() {
    let first = generate_java_code_for_enum("out", "com.example", &color()).unwrap();
    assert!(first.needs_write(None));
    let on_disk = first.code.clone();
    let second = generate_java_code_for_enum("out", "com.example", &color()).unwrap();
    assert_eq!(first, second);
    assert!(!second.needs_write(Some(&on_disk)));
}

#[test]
fn regeneration_of_empty_enumeration_needs_no_write() {
    let fenum = enumeration("Nothing", vec![], "");
    let first = generate_java_code_for_enum("out", "p", &fenum).unwrap();
    let second = generate_java_code_for_enum("out", "p", &fenum).unwrap();
    assert!(!second.needs_write(Some(&first.code)));
}

#[test]
fn changed_definition_needs_a_write() {
    let first = generate_java_code_for_enum("out", "com.example", &color()).unwrap();
    let mut changed = color();
    changed.items.push(item("Black", ""));
    let second = generate_java_code_for_enum("out", "com.example", &changed).unwrap();
    assert!(second.needs_write(Some(&first.code)));
    assert!(second.needs_write(Some("")));
    let artifact = JavaArtifact { path: "x".to_string(), code: String::new() };
    assert!(!artifact.needs_write(Some("")));
    assert!(artifact.needs_write(None));
}

#[test]
fn cardinality_limit_is_two_to_the_thirty_first() {
    assert_eq!(ITEM_LIMIT, 2147483648);
    assert!(cardinality_fits(0));
    assert!(cardinality_fits(3));
    assert!(cardinality_fits(2147483647));
    assert!(!cardinality_fits(2147483648));
    assert!(!cardinality_fits(usize::MAX));
}

#[test]
fn too_many_items_diagnostic() {
    let location = SourceLocation { src_id: 7, line: 3, column: 1 };
    let e = DiagnosticError::too_many_items(location);
    assert_eq!(e.kind, DiagnosticKind::TooManyItems);
    assert_eq!(e.location, location);
    assert_eq!(e.message, "Too many items in enum");
}
