use enum_binding::definition::{ForeignEnumInfo, SourceLocation};
use enum_binding::error::DiagnosticKind;
use enum_binding::search::contains_text;
use enum_binding::typemap::{ConversionEdge, ForeignType, RustType, TypeMap};

fn foreign(name: &str, line: usize) -> ForeignType {
    ForeignType {
        name: name.to_string(),
        location: SourceLocation { src_id: 0, line, column: 0 },
        into_from_rust: None,
        from_into_rust: None,
    }
}

fn edge(from: usize, to: usize, code: &str) -> ConversionEdge {
    ConversionEdge { from, to, conv_code: code.to_string() }
}

#[test]
fn new_graph_is_empty() {
    let map = TypeMap::new();
    assert!(map.rust_types.is_empty());
    assert!(map.foreign_types.is_empty());
    assert!(map.conv_rules.is_empty());
    assert!(map.exported_enums.is_empty());
    assert_eq!(map.find_rust_type("jint"), None);
    assert!(!map.has_foreign_type("Color"));
}

#[test]
fn native_type_is_made_once() {
    let mut map = TypeMap::new();
    assert_eq!(map.find_or_alloc_rust_type("jint"), 0);
    assert_eq!(map.find_or_alloc_rust_type("jobject"), 1);
    assert_eq!(map.find_or_alloc_rust_type("jint"), 0);
    assert_eq!(map.rust_types.len(), 2);
    assert_eq!(map.find_rust_type("jobject"), Some(1));
    assert_eq!(map.find_rust_type("jlong"), None);
    assert_eq!(map.find_rust_type("jin"), None);
}

#[test]
fn capability_is_added_once() {
    let mut map = TypeMap::new();
    assert_eq!(map.find_or_alloc_rust_type("Color"), 0);
    assert_eq!(map.find_or_alloc_rust_type_that_implements("Color", "Ordinal"), 0);
    assert_eq!(map.find_or_alloc_rust_type_that_implements("Color", "Ordinal"), 0);
    assert_eq!(map.find_or_alloc_rust_type_that_implements("Color", "Other"), 0);
    assert_eq!(map.find_or_alloc_rust_type_that_implements("Shape", "Ordinal"), 1);
    assert_eq!(
        map.rust_types,
        vec![
            RustType {
                name: "Color".to_string(),
                implements: vec!["Ordinal".to_string(), "Other".to_string()],
            },
            RustType { name: "Shape".to_string(), implements: vec!["Ordinal".to_string()] },
        ]
    );
}

#[test]
fn foreign_type_name_is_taken_once() {
    let mut map = TypeMap::new();
    assert_eq!(map.alloc_foreign_type(foreign("Color", 1)).unwrap(), 0);
    assert_eq!(map.alloc_foreign_type(foreign("Shape", 2)).unwrap(), 1);
    assert!(map.has_foreign_type("Shape"));
    let e = map.alloc_foreign_type(foreign("Color", 3)).unwrap_err();
    assert_eq!(e.kind, DiagnosticKind::ForeignTypeConflict);
    assert_eq!(e.location.line, 3);
    assert_eq!(e.message, "foreign type Color is already defined");
    assert_eq!(map.foreign_types, vec![foreign("Color", 1), foreign("Shape", 2)]);
}

#[test]
fn rule_between_two_types_is_replaced() {
    let mut map = TypeMap::new();
    map.add_conversion_rule(edge(0, 1, "first"));
    map.add_conversion_rule(edge(1, 0, "back"));
    map.add_conversion_rule(edge(0, 2, "other"));
    map.add_conversion_rule(edge(0, 1, "second"));
    assert_eq!(
        map.conv_rules,
        vec![edge(0, 1, "second"), edge(1, 0, "back"), edge(0, 2, "other")]
    );
    assert_eq!(map.find_conversion_rule(0, 2), Some(2));
    assert_eq!(map.find_conversion_rule(2, 0), None);
}

#[test]
fn exported_enums_are_listed_in_order() {
    let mut map = TypeMap::new();
    for name in ["B", "A", "B"] {
        map.register_exported_enum(&ForeignEnumInfo {
            location: SourceLocation { src_id: 0, line: 0, column: 0 },
            name: name.to_string(),
            items: vec![],
            doc_comments: "// doc".to_string(),
        });
    }
    let names: Vec<&str> = map.exported_enums.iter().map(|e| e.name.as_str()).collect();
    assert_eq!(names, vec!["B", "A", "B"]);
    assert_eq!(map.exported_enums[1].doc_comments, "// doc");
}

#[test]
fn text_is_found_among_texts() {
    let texts = vec!["a".to_string(), "bc".to_string()];
    assert!(contains_text(&texts, "bc"));
    assert!(!contains_text(&texts, "b"));
    assert!(!contains_text(&vec![], ""));
}
