//! The callback conversion emitter. A value that goes to the foreign side as
//! the argument of a callback has to arrive as the constant object itself;
//! the emitted code finds that object by the name of its static field.

use vstd::prelude::*;
use crate::context::{JavaContext, JavaContextView};
use crate::definition::ForeignEnumInfo;
use crate::java_code::java_constants;
use crate::ordinal::{OrdinalRow, OrdinalRowView, OrdinalTable};
use crate::rust_code::arm_separator;
use crate::search::{first_position, first_position_from, lemma_first_position_of_distinct};
use crate::text::{lemma_concat_assoc, push_string_literal, same_text, string_literal};
use crate::typemap::{
    rust_type_index, well_formed, with_conversion_rule, with_rust_type, ConversionEdge,
    ConversionEdgeView, RustTypeIdx, FROM_VAR_TEMPLATE, TO_VAR_TEMPLATE,
};

verus! {

/// The native type of an opaque handle to a foreign object.
pub const OBJECT_TYPE: &'static str = "jobject";

/// The name of the class `class_name` of the package `package_name`, with
/// dots between its parts.
pub open spec fn java_class_full_name(package_name: Seq<char>, class_name: Seq<char>) -> Seq<char> {
    package_name.push('.') + class_name
}

/// The name by which the foreign runtime looks a class up: the full name
/// with a slash in the place of every dot.
pub open spec fn java_class_name_to_jni(full_name: Seq<char>) -> Seq<char> {
    Seq::new(full_name.len(), |i: int| if full_name[i] == '.' { '/' } else { full_name[i] })
}

/// The internal name of the foreign enumeration `enum_name` of the package
/// `package_name`.
pub open spec fn enum_class_name(package_name: Seq<char>, enum_name: Seq<char>) -> Seq<char> {
    java_class_name_to_jni(java_class_full_name(package_name, enum_name))
}

/// Computes [`enum_class_name`].
pub fn internal_class_name(package_name: &str, enum_name: &str) -> (name: String)
    ensures
        name@ == enum_class_name(package_name@, enum_name@),
{
    let mut full = package_name.to_owned();
    full.push('.');
    full.append(enum_name);
    let mut name = String::new();
    for c in it: full.as_str().chars()
        invariant
            it.seq() == full@,
            name@ == java_class_name_to_jni(full@.take(it.index() as int)),
    {
        if c == '.' {
            name.push('/');
        } else {
            name.push(c);
        }
        assert(name@ =~= java_class_name_to_jni(full@.take(it.index() + 1)));
    }
    assert(full@.take(full@.len() as int) =~= full@);
    name
}

/// One arm of the match that picks the static field: a variant and the name
/// of the field that holds its constant.
pub struct FieldArm {
    pub variant: Seq<char>,
    pub field: Seq<char>,
    /// Whether this is the last arm, after which no comma stands.
    pub last: bool,
}

/// The arms for `rows`: one per row, in the rows' order.
pub open spec fn field_arms(rows: Seq<OrdinalRowView>) -> Seq<FieldArm> {
    Seq::new(
        rows.len(),
        |i: int|
            FieldArm {
                variant: rows[i].native_identifier,
                field: rows[i].foreign_identifier,
                last: i == rows.len() - 1,
            },
    )
}

/// The line of one arm.
pub open spec fn field_arm_line(arm: FieldArm) -> Seq<char> {
    "            "@ + arm.variant + " => swig_c_str!(stringify!("@ + arm.field + "))"@
        + arm_separator(arm.last) + "\n"@
}

/// The lines of the first `n` arms.
pub open spec fn field_arm_lines(arms: Seq<FieldArm>, n: int) -> Seq<char>
    decreases n,
{
    if n <= 0 {
        Seq::empty()
    } else {
        field_arm_lines(arms, n - 1) + field_arm_line(arms[n - 1])
    }
}

/// The text up to the first arm: the class is looked up by its internal
/// name, and the conversion stops where the runtime does not know it.
pub open spec fn callback_header(enum_name: Seq<char>, class_name: Seq<char>) -> Seq<char> {
    "#[allow(dead_code)]\nimpl SwigFrom<"@ + enum_name
        + "> for jobject {\n    fn swig_from(x: "@ + enum_name
        + ", env: *mut JNIEnv) -> jobject {\n        let cls: jclass = unsafe { (**env).FindClass.unwrap()(env, swig_c_str!("@
        + string_literal(class_name)
        + ")) };\n        assert!(!cls.is_null(), concat!(\"FindClass \", "@ + string_literal(
        class_name,
    ) + ", \" failed\"));\n        let static_field_id = match x {\n"@
}

/// The text after the arms: the static field is looked up by the name that
/// the match picked and by the type of the enumeration, its value is
/// fetched, and the conversion stops where either is missing.
pub open spec fn callback_footer(class_name: Seq<char>) -> Seq<char> {
    "        };\n        let item_id: jfieldID = unsafe {\n            (**env).GetStaticFieldID.unwrap()(env, cls, static_field_id, swig_c_str!(concat!(\"L\", "@
        + string_literal(class_name)
        + ", \";\")))\n        };\n        assert!(!item_id.is_null(), concat!(\"Can not find item in \", "@
        + string_literal(class_name)
        + "));\n        let ret: jobject = unsafe { (**env).GetStaticObjectField.unwrap()(env, cls, item_id) };\n        assert!(!ret.is_null(), concat!(\"Can get value of item in \", "@
        + string_literal(class_name) + "));\n        ret\n    }\n}\n"@
}

/// The whole native code that turns a value of the enumeration `enum_name`
/// into a handle to its foreign constant; `class_name` is the internal name
/// of the foreign enumeration.
pub open spec fn callback_source(
    enum_name: Seq<char>,
    class_name: Seq<char>,
    rows: Seq<OrdinalRowView>,
) -> Seq<char> {
    callback_header(enum_name, class_name) + field_arm_lines(field_arms(rows), rows.len() as int)
        + callback_footer(class_name)
}

fn field_arm_text(row: &OrdinalRow, last: bool) -> (line: String)
    ensures
        line@ == field_arm_line(
            FieldArm { variant: row@.native_identifier, field: row@.foreign_identifier, last },
        ),
{
    let mut line = "            ".to_owned();
    line.append(row.native_identifier.as_str());
    line.append(" => swig_c_str!(stringify!(");
    line.append(row.foreign_identifier.as_str());
    line.append("))");
    if last {
        line.append("");
    } else {
        line.append(",");
    }
    line.append("\n");
    line
}

fn callback_header_text(enum_name: &str, class_name: &str) -> (text: String)
    ensures
        text@ == callback_header(enum_name@, class_name@),
{
    let mut text = "#[allow(dead_code)]\nimpl SwigFrom<".to_owned();
    text.append(enum_name);
    text.append("> for jobject {\n    fn swig_from(x: ");
    text.append(enum_name);
    text.append(
        ", env: *mut JNIEnv) -> jobject {\n        let cls: jclass = unsafe { (**env).FindClass.unwrap()(env, swig_c_str!(",
    );
    push_string_literal(&mut text, class_name);
    text.append(")) };\n        assert!(!cls.is_null(), concat!(\"FindClass \", ");
    push_string_literal(&mut text, class_name);
    text.append(", \" failed\"));\n        let static_field_id = match x {\n");
    text
}

fn callback_footer_text(class_name: &str) -> (text: String)
    ensures
        text@ == callback_footer(class_name@),
{
    let mut text =
        "        };\n        let item_id: jfieldID = unsafe {\n            (**env).GetStaticFieldID.unwrap()(env, cls, static_field_id, swig_c_str!(concat!(\"L\", ".to_owned();
    push_string_literal(&mut text, class_name);
    text.append(
        ", \";\")))\n        };\n        assert!(!item_id.is_null(), concat!(\"Can not find item in \", ",
    );
    push_string_literal(&mut text, class_name);
    text.append(
        "));\n        let ret: jobject = unsafe { (**env).GetStaticObjectField.unwrap()(env, cls, item_id) };\n        assert!(!ret.is_null(), concat!(\"Can get value of item in \", ",
    );
    push_string_literal(&mut text, class_name);
    text.append("));\n        ret\n    }\n}\n");
    text
}

/// Renders the callback conversion for `table`. The enumeration's name comes
/// from `fenum`, `class_name` is the internal name of its foreign
/// counterpart, and every variant and field name comes from `table`.
pub fn callback_code_for_table(
    fenum: &ForeignEnumInfo,
    class_name: &str,
    table: &OrdinalTable,
) -> (code: String)
    ensures
        code@ == callback_source(fenum@.name, class_name@, table@),
{
    let n = table.len();
    let ghost arms = field_arms(table@);
    let ghost header = callback_header(fenum@.name, class_name@);

    let mut code = callback_header_text(fenum.name.as_str(), class_name);
    assert(code@ =~= header + field_arm_lines(arms, 0));
    let mut i: usize = 0;
    while i < n
        invariant
            i <= n == table@.len(),
            arms == field_arms(table@),
            code@ == header + field_arm_lines(arms, i as int),
        decreases n - i,
    {
        let line = field_arm_text(table.row(i), i == n - 1);
        code.append(line.as_str());
        proof {
            lemma_concat_assoc(header, field_arm_lines(arms, i as int), line@);
        }
        i += 1;
    }
    let footer = callback_footer_text(class_name);
    code.append(footer.as_str());
    code
}

/// The code of the rule that routes a callback argument through the emitted
/// conversion.
pub open spec fn callback_rule_code() -> Seq<char> {
    "let mut "@ + TO_VAR_TEMPLATE@ + ": jobject = <jobject>::swig_from("@ + FROM_VAR_TEMPLATE@
        + ", env);"@
}

/// The state after the callback conversion of an enumeration has been
/// emitted and registered: the conversion is the next fragment of native
/// source, the graph has a node for the opaque object type, and the rule
/// from the enumeration's node `enum_rty` to that node is the callback rule.
pub open spec fn with_callback_conversion(
    ctx: JavaContextView,
    enum_name: Seq<char>,
    rows: Seq<OrdinalRowView>,
    enum_rty: RustTypeIdx,
) -> JavaContextView {
    JavaContextView {
        cfg: ctx.cfg,
        conv_map: with_conversion_rule(
            with_rust_type(ctx.conv_map, OBJECT_TYPE@),
            ConversionEdgeView {
                from: enum_rty,
                to: rust_type_index(ctx.conv_map, OBJECT_TYPE@) as usize,
                conv_code: callback_rule_code(),
            },
        ),
        rust_code: ctx.rust_code.push(
            callback_source(enum_name, enum_class_name(ctx.cfg.package_name, enum_name), rows),
        ),
    }
}

/// Emits the conversion from a value of the enumeration to a handle to its
/// foreign constant, and registers the rule that leads from the node
/// `fenum_rty` to the opaque object type through it.
pub fn add_conversation_from_enum_to_jobject_for_callbacks(
    ctx: &mut JavaContext,
    fenum: &ForeignEnumInfo,
    table: &OrdinalTable,
    fenum_rty: RustTypeIdx,
)
    ensures
        final(ctx)@ == with_callback_conversion(old(ctx)@, fenum@.name, table@, fenum_rty),
        well_formed(old(ctx)@.conv_map) && fenum_rty < old(ctx)@.conv_map.rust_types.len()
            ==> well_formed(final(ctx)@.conv_map),
{
    let class_name = internal_class_name(ctx.cfg.package_name.as_str(), fenum.name.as_str());
    let code = callback_code_for_table(fenum, class_name.as_str(), table);
    ctx.push_rust_code(code);
    let jobject_ty = ctx.conv_map.find_or_alloc_rust_type(OBJECT_TYPE);
    let mut conv_code = "let mut ".to_owned();
    conv_code.append(TO_VAR_TEMPLATE);
    conv_code.append(": jobject = <jobject>::swig_from(");
    conv_code.append(FROM_VAR_TEMPLATE);
    conv_code.append(", env);");
    ctx.conv_map.add_conversion_rule(ConversionEdge { from: fenum_rty, to: jobject_ty, conv_code });
}

/// The variants that the arms match, in the arms' order.
pub open spec fn field_patterns(arms: Seq<FieldArm>) -> Seq<Seq<char>> {
    Seq::new(arms.len(), |i: int| arms[i].variant)
}

/// The name of the static field that the emitted match picks for `variant`:
/// that of the first arm that matches it. `None` where no arm does, which the
/// native compiler rules out for a value of the enumeration.
pub open spec fn callback_field_name(arms: Seq<FieldArm>, variant: Seq<char>) -> Option<
    Seq<char>,
> {
    match first_position(field_patterns(arms), variant) {
        Some(i) => Some(arms[i].field),
        None => None,
    }
}

/// The callback conversion looks for the names that the foreign enumeration
/// declares. The arm for row `i` names the field exactly as the foreign
/// source names the constant of row `i`; and where no two rows share a
/// native identifier, that is the name the emitted match picks for the
/// variant of row `i`.
pub proof fn lemma_callback_names_are_constant_names(rows: Seq<OrdinalRowView>, i: int)
    requires
        0 <= i < rows.len(),
    ensures
        field_arms(rows)[i].variant == rows[i].native_identifier,
        field_arms(rows)[i].field == java_constants(rows)[i].name,
        field_patterns(field_arms(rows)).no_duplicates() ==> callback_field_name(
            field_arms(rows),
            rows[i].native_identifier,
        ) == Some(java_constants(rows)[i].name),
{
    let patterns = field_patterns(field_arms(rows));
    assert(patterns[i] == rows[i].native_identifier);
    if patterns.no_duplicates() {
        lemma_first_position_of_distinct(patterns, i);
    }
}

/// Runs the emitted match on the variant `variant`: the name of the static
/// field that the conversion then looks up.
pub fn static_field_name(table: &OrdinalTable, variant: &str) -> (field: Option<String>)
    ensures
        match callback_field_name(field_arms(table@), variant@) {
            Some(name) => field matches Some(found) && found@ == name,
            None => field is None,
        },
{
    let n = table.len();
    let ghost patterns = field_patterns(field_arms(table@));
    let mut i: usize = 0;
    while i < n
        invariant
            i <= n == table@.len(),
            patterns == field_patterns(field_arms(table@)),
            first_position(patterns, variant@) == first_position_from(patterns, variant@, i as int),
        decreases n - i,
    {
        let row = table.row(i);
        if same_text(row.native_identifier.as_str(), variant) {
            return Some(row.foreign_identifier.clone());
        }
        i += 1;
    }
    None
}

} // verus!
