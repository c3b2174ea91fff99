use enum_binding::context::{JavaConfig, JavaContext};
use enum_binding::definition::{ForeignEnumInfo, ForeignEnumItem, SourceLocation};
use enum_binding::error::DiagnosticKind;
use enum_binding::generator::{generate_enum, INT_TYPE};
use enum_binding::java_code::generate_java_code_for_enum;
use enum_binding::typemap::{
    ConversionEdge, ForeignConversionRule, ForeignType, RustType, FROM_VAR_TEMPLATE,
    TO_VAR_TEMPLATE,
};

fn shade(name: &str, items: &[&str]) -> ForeignEnumInfo {
    ForeignEnumInfo {
        location: SourceLocation { src_id: 2, line: 30, column: 5 },
        name: name.to_string(),
        items: items
            .iter()
            .map(|n| ForeignEnumItem {
                name: n.to_string(),
                rust_name: format!("{}::{}", name, n),
                doc_comments: String::new(),
            })
            .collect(),
        doc_comments: String::new(),
    }
}

fn fresh_context() -> JavaContext {
    JavaContext::new(
        JavaConfig { output_dir: "out/java".to_string(), package_name: "com.example".to_string() },
    )
}

fn capable(name: &str) -> RustType {
    RustType { name: name.to_string(), implements: vec!["SwigForeignCLikeEnum".to_string()] }
}

fn plain(name: &str) -> RustType {
    RustType { name: name.to_string(), implements: vec![] }
}

#[test]
fn color_is_registered() {
    let fenum = shade("Color", &["Red", "Green", "Blue"]);
    let mut ctx = fresh_context();
    assert_eq!(generate_enum(&mut ctx, &fenum, Ok(())), Ok(()));

    assert_eq!(ctx.conv_map.rust_types, vec![capable("Color"), plain("jint"), plain("jobject")]);
    assert_eq!(
        ctx.conv_map.foreign_types,
        vec![ForeignType {
            name: "Color".to_string(),
            location: fenum.location,
            into_from_rust: Some(ForeignConversionRule {
                rust_ty: 0,
                intermediate_ty: Some(1),
                conv_code: "        Color {to_var} = Color.fromInt({from_var});".to_string(),
            }),
            from_into_rust: Some(ForeignConversionRule {
                rust_ty: 0,
                intermediate_ty: Some(1),
                conv_code: "        int {to_var} = {from_var}.getValue();".to_string(),
            }),
        }]
    );
    assert_eq!(
        ctx.conv_map.conv_rules,
        vec![ConversionEdge {
            from: 0,
            to: 2,
            conv_code: "let mut {to_var}: jobject = <jobject>::swig_from({from_var}, env);"
                .to_string(),
        }]
    );
    assert_eq!(ctx.conv_map.exported_enums, vec![shade("Color", &["Red", "Green", "Blue"])]);
    assert_eq!(ctx.rust_code.len(), 2);
    assert!(ctx.rust_code[0].starts_with("impl SwigForeignCLikeEnum for Color {"));
    assert!(ctx.rust_code[0].contains("Color::Blue => 2i32"));
    assert!(ctx.rust_code[1].starts_with("#[allow(dead_code)]\nimpl SwigFrom<Color> for jobject {"));
    assert!(ctx.rust_code[1].contains("swig_c_str!(\"com/example/Color\")"));
    assert_eq!(INT_TYPE, "jint");
    assert_eq!(TO_VAR_TEMPLATE, "{to_var}");
    assert_eq!(FROM_VAR_TEMPLATE, "{from_var}");
}

#[test]
fn empty_enumeration_is_registered() {
    let fenum = shade("Nothing", &[]);
    let mut ctx = fresh_context();
    assert!(generate_java_code_for_enum("out/java", "com.example", &fenum).is_ok());
    assert_eq!(generate_enum(&mut ctx, &fenum, Ok(())), Ok(()));
    assert_eq!(ctx.conv_map.rust_types, vec![capable("Nothing"), plain("jint"), plain("jobject")]);
    assert_eq!(ctx.conv_map.foreign_types.len(), 1);
    assert_eq!(ctx.conv_map.foreign_types[0].name, "Nothing");
    assert_eq!(ctx.conv_map.exported_enums.len(), 1);
    assert!(ctx.conv_map.exported_enums[0].items.is_empty());
    assert_eq!(ctx.conv_map.conv_rules.len(), 1);
    assert_eq!(ctx.rust_code.len(), 2);
    for fragment in &ctx.rust_code {
        assert!(syn::parse_str::<syn::ItemImpl>(fragment).is_ok());
    }
}

#[test]
fn failed_write_changes_nothing() {
    let fenum = shade("Color", &["Red", "Green", "Blue"]);
    let mut ctx = fresh_context();
    ctx.push_rust_code("// earlier".to_string());
    ctx.conv_map.find_or_alloc_rust_type("jint");
    let e = generate_enum(&mut ctx, &fenum, Err("disk full".to_string())).unwrap_err();
    assert_eq!(e.kind, DiagnosticKind::WriteFailed);
    assert_eq!(e.location, fenum.location);
    assert_eq!(e.message, "write to out/java/Color.java failed: disk full");
    assert_eq!(ctx.conv_map.rust_types, vec![plain("jint")]);
    assert!(ctx.conv_map.foreign_types.is_empty());
    assert!(ctx.conv_map.conv_rules.is_empty());
    assert!(ctx.conv_map.exported_enums.is_empty());
    assert_eq!(ctx.rust_code, vec!["// earlier".to_string()]);
}

#[test]
fn second_registration_is_a_conflict() {
    let fenum = shade("Color", &["Red", "Green", "Blue"]);
    let mut ctx = fresh_context();
    assert_eq!(generate_enum(&mut ctx, &fenum, Ok(())), Ok(()));
    let again = ForeignEnumInfo {
        location: SourceLocation { src_id: 9, line: 1, column: 1 },
        ..shade("Color", &["Cyan"])
    };
    let e = generate_enum(&mut ctx, &again, Ok(())).unwrap_err();
    assert_eq!(e.kind, DiagnosticKind::ForeignTypeConflict);
    assert_eq!(e.location, again.location);
    assert_eq!(e.message, "foreign type Color is already defined");
    // What went before the refusal stays: the glue of the second definition.
    assert_eq!(ctx.rust_code.len(), 3);
    assert!(ctx.rust_code[2].contains("Color::Cyan => 0i32"));
    assert_eq!(ctx.conv_map.rust_types.len(), 3);
    assert_eq!(ctx.conv_map.foreign_types.len(), 1);
    assert_eq!(ctx.conv_map.exported_enums.len(), 1);
    assert_eq!(ctx.conv_map.conv_rules.len(), 1);
}

#[test]
fn failed_write_is_reported_before_a_conflict() {
    let fenum = shade("Color", &["Red"]);
    let mut ctx = fresh_context();
    assert_eq!(generate_enum(&mut ctx, &fenum, Ok(())), Ok(()));
    let e = generate_enum(&mut ctx, &fenum, Err("read-only".to_string())).unwrap_err();
    assert_eq!(e.kind, DiagnosticKind::WriteFailed);
    assert_eq!(ctx.rust_code.len(), 2);
}

#[test]
fn two_enumerations_share_the_integer_and_object_types() {
    let mut ctx = fresh_context();
    assert_eq!(generate_enum(&mut ctx, &shade("Color", &["Red", "Green"]), Ok(())), Ok(()));
    assert_eq!(generate_enum(&mut ctx, &shade("Shape", &["Round"]), Ok(())), Ok(()));
    assert_eq!(
        ctx.conv_map.rust_types,
        vec![capable("Color"), plain("jint"), plain("jobject"), capable("Shape")]
    );
    assert_eq!(ctx.conv_map.foreign_types.len(), 2);
    let shape = &ctx.conv_map.foreign_types[1];
    assert_eq!(shape.into_from_rust.as_ref().unwrap().rust_ty, 3);
    assert_eq!(shape.into_from_rust.as_ref().unwrap().intermediate_ty, Some(1));
    assert_eq!(shape.from_into_rust.as_ref().unwrap().intermediate_ty, Some(1));
    assert_eq!(ctx.conv_map.conv_rules.len(), 2);
    assert_eq!((ctx.conv_map.conv_rules[1].from, ctx.conv_map.conv_rules[1].to), (3, 2));
    assert_eq!(ctx.rust_code.len(), 4);
    assert_eq!(ctx.conv_map.exported_enums.len(), 2);
    assert_eq!(ctx.conv_map.exported_enums[1].name, "Shape");
}

#[test]
fn known_native_type_is_tagged_in_place() {
    let mut ctx = fresh_context();
    ctx.conv_map.find_or_alloc_rust_type("jobject");
    ctx.conv_map.find_or_alloc_rust_type("Color");
    assert_eq!(generate_enum(&mut ctx, &shade("Color", &["Red"]), Ok(())), Ok(()));
    assert_eq!(ctx.conv_map.rust_types, vec![plain("jobject"), capable("Color"), plain("jint")]);
    assert_eq!(
        (ctx.conv_map.conv_rules[0].from, ctx.conv_map.conv_rules[0].to),
        (1, 0)
    );
    assert_eq!(ctx.conv_map.foreign_types[0].into_from_rust.as_ref().unwrap().rust_ty, 1);
}
