use enum_binding::context::{JavaConfig, JavaContext};
use enum_binding::definition::{ForeignEnumInfo, ForeignEnumItem, SourceLocation};
use enum_binding::error::BoundaryFaultKind;
use enum_binding::ordinal::build_ordinal_table;
use enum_binding::rust_code::{
    as_jint, from_jint, generate_rust_code_for_enum, rust_code_for_table, C_LIKE_ENUM_TRAIT,
};

fn glue_item(name: &str) -> ForeignEnumItem {
    ForeignEnumItem {
        name: name.to_string(),
        rust_name: format!("Color::{}", name),
        doc_comments: String::new(),
    }
}

fn glue_enum(name: &str, items: &[&str]) -> ForeignEnumInfo {
    ForeignEnumInfo {
        location: SourceLocation { src_id: 0, line: 1, column: 1 },
        name: name.to_string(),
        items: items.iter().map(|n| glue_item(n)).collect(),
        doc_comments: String::new(),
    }
}

const COLOR_GLUE: &str = r#"impl SwigForeignCLikeEnum for Color {
    fn as_jint(&self) -> jint {
        match *self {
            Color::Red => 0i32,
            Color::Green => 1i32,
            Color::Blue => 2i32
        }
    }
    fn from_jint(x: jint) -> Self {
        match x {
            0i32 => Color::Red,
            1i32 => Color::Green,
            2i32 => Color::Blue,
            _ => panic!(concat!("{} not expected for ", stringify!(Color)), x),
        }
    }
}
"#;

const EMPTY_GLUE: &str = r#"impl SwigForeignCLikeEnum for Nothing {
    fn as_jint(&self) -> jint {
        match *self {
        }
    }
    fn from_jint(x: jint) -> Self {
        match x {
            _ => panic!(concat!("{} not expected for ", stringify!(Nothing)), x),
        }
    }
}
"#;

#[test]
fn color_glue_is_exact() {
    let fenum = glue_enum("Color", &["Red", "Green", "Blue"]);
    let table = build_ordinal_table(&fenum).unwrap();
    assert_eq!(rust_code_for_table(&fenum, &table), COLOR_GLUE);
    assert_eq!(C_LIKE_ENUM_TRAIT, "SwigForeignCLikeEnum");
}

#[test]
fn empty_glue_is_exact() {
    let fenum = glue_enum("Nothing", &[]);
    let table = build_ordinal_table(&fenum).unwrap();
    assert_eq!(rust_code_for_table(&fenum, &table), EMPTY_GLUE);
}

#[test]
fn glue_is_native_syntax() {
    for items in [&[][..], &["Only"][..], &["Red", "Green", "Blue"][..]] {
        let fenum = glue_enum("Color", items);
        let table = build_ordinal_table(&fenum).unwrap();
        let code = rust_code_for_table(&fenum, &table);
        let parsed = syn::parse_str::<syn::ItemImpl>(&code).unwrap();
        assert_eq!(parsed.items.len(), 2);
    }
}

#[test]
fn glue_becomes_the_next_fragment() {
    let fenum = glue_enum("Color", &["Red", "Green", "Blue"]);
    let table = build_ordinal_table(&fenum).unwrap();
    let mut ctx = JavaContext::new(
        JavaConfig { output_dir: "out".to_string(), package_name: "com.example".to_string() },
    );
    ctx.push_rust_code("// first".to_string());
    generate_rust_code_for_enum(&mut ctx, &fenum, &table);
    assert_eq!(ctx.rust_code, vec!["// first".to_string(), COLOR_GLUE.to_string()]);
    assert!(ctx.conv_map.rust_types.is_empty());
    assert_eq!(ctx.cfg.package_name, "com.example");
}

#[test]
fn color_encode_and_decode() {
    let fenum = glue_enum("Color", &["Red", "Green", "Blue"]);
    let table = build_ordinal_table(&fenum).unwrap();
    assert_eq!(as_jint(&table, "Color::Red"), Some(0));
    assert_eq!(as_jint(&table, "Color::Blue"), Some(2));
    assert_eq!(as_jint(&table, "Color::Pink"), None);
    assert_eq!(from_jint(&fenum, &table, 2).unwrap(), "Color::Blue");
    let fault = from_jint(&fenum, &table, 3).unwrap_err();
    assert_eq!(fault.kind, BoundaryFaultKind::UnexpectedNativeValue);
    assert_eq!(fault.enum_name, "Color");
    assert_eq!(fault.value, 3);
    assert_eq!(fault.message, "3 not expected for Color");
    assert_eq!(from_jint(&fenum, &table, -5).unwrap_err().message, "-5 not expected for Color");
}

#[test]
fn decode_undoes_encode_on_every_variant() {
    let names = ["A", "B", "C", "D", "E", "F", "G", "H", "I", "J", "K"];
    let fenum = glue_enum("Letter", &names);
    let table = build_ordinal_table(&fenum).unwrap();
    for (i, item) in fenum.items.iter().enumerate() {
        let ordinal = as_jint(&table, &item.rust_name).unwrap();
        assert_eq!(ordinal, i as i32);
        assert_eq!(from_jint(&fenum, &table, ordinal).unwrap(), item.rust_name);
        assert_eq!(from_jint(&fenum, &table, i as i32).unwrap(), item.rust_name);
    }
    assert!(from_jint(&fenum, &table, names.len() as i32).is_err());
    assert!(from_jint(&fenum, &table, -1).is_err());
}

#[test]
fn repeated_variant_encodes_to_its_first_ordinal() {
    let fenum = glue_enum("Twice", &["Same", "Other", "Same"]);
    let table = build_ordinal_table(&fenum).unwrap();
    assert_eq!(as_jint(&table, "Color::Same"), Some(0));
    assert_eq!(from_jint(&fenum, &table, 0).unwrap(), "Color::Same");
    assert_eq!(from_jint(&fenum, &table, 2).unwrap(), "Color::Same");
}
