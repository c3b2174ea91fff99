//! The native glue emitter: the implementation of the trait through which
//! the native side turns a variant into its ordinal and back.

use vstd::prelude::*;
use crate::context::{JavaContext, JavaContextView};
use crate::definition::ForeignEnumInfo;
use crate::error::{unexpected_native_value, BoundaryFault};
use crate::ordinal::{ordinals_in_order, OrdinalRow, OrdinalRowView, OrdinalTable};
use crate::search::{
    first_position, first_position_from, lemma_first_position_from, lemma_first_position_is,
};
use crate::text::{decimal, lemma_concat_assoc, push_decimal, same_text};

verus! {

/// The trait that marks a native type as convertible to and from ordinals.
/// The emitted glue implements it, and the graph tags the type's node with
/// its name.
pub const C_LIKE_ENUM_TRAIT: &'static str = "SwigForeignCLikeEnum";

/// One arm of the emitted `as_jint`: a variant and the ordinal it yields.
pub struct EncodeArm {
    pub variant: Seq<char>,
    pub ordinal: int,
    /// Whether this is the last arm, after which no comma stands.
    pub last: bool,
}

/// One arm of the emitted `from_jint`: an ordinal and the variant it yields.
pub struct DecodeArm {
    pub ordinal: int,
    pub variant: Seq<char>,
}

/// The arms of `as_jint` for `rows`: one per row, in the rows' order.
pub open spec fn encode_arms(rows: Seq<OrdinalRowView>) -> Seq<EncodeArm> {
    Seq::new(
        rows.len(),
        |i: int|
            EncodeArm {
                variant: rows[i].native_identifier,
                ordinal: rows[i].ordinal,
                last: i == rows.len() - 1,
            },
    )
}

/// The arms of `from_jint` for `rows`: one per row, in the rows' order. The
/// fallback arm follows them.
pub open spec fn decode_arms(rows: Seq<OrdinalRowView>) -> Seq<DecodeArm> {
    Seq::new(
        rows.len(),
        |i: int| DecodeArm { ordinal: rows[i].ordinal, variant: rows[i].native_identifier },
    )
}

/// What stands between two arms, and does not stand after the last.
pub open spec fn arm_separator(last: bool) -> Seq<char> {
    if last {
        ""@
    } else {
        ","@
    }
}

/// The line of one arm of `as_jint`.
pub open spec fn encode_arm_line(arm: EncodeArm) -> Seq<char> {
    "            "@ + arm.variant + " => "@ + decimal(arm.ordinal as nat) + "i32"@ + arm_separator(
        arm.last,
    ) + "\n"@
}

/// The lines of the first `n` arms of `as_jint`.
pub open spec fn encode_arm_lines(arms: Seq<EncodeArm>, n: int) -> Seq<char>
    decreases n,
{
    if n <= 0 {
        Seq::empty()
    } else {
        encode_arm_lines(arms, n - 1) + encode_arm_line(arms[n - 1])
    }
}

/// The line of one arm of `from_jint`.
pub open spec fn decode_arm_line(arm: DecodeArm) -> Seq<char> {
    "            "@ + decimal(arm.ordinal as nat) + "i32 => "@ + arm.variant + ",\n"@
}

/// The lines of the first `n` arms of `from_jint`.
pub open spec fn decode_arm_lines(arms: Seq<DecodeArm>, n: int) -> Seq<char>
    decreases n,
{
    if n <= 0 {
        Seq::empty()
    } else {
        decode_arm_lines(arms, n - 1) + decode_arm_line(arms[n - 1])
    }
}

/// The text up to the first arm of `as_jint`.
pub open spec fn glue_header(enum_name: Seq<char>) -> Seq<char> {
    "impl "@ + C_LIKE_ENUM_TRAIT@ + " for "@ + enum_name
        + " {\n    fn as_jint(&self) -> jint {\n        match *self {\n"@
}

/// The text between the arms of `as_jint` and those of `from_jint`.
pub open spec fn glue_middle() -> Seq<char> {
    "        }\n    }\n    fn from_jint(x: jint) -> Self {\n        match x {\n"@
}

/// The text after the arms of `from_jint`: the fallback arm, which panics
/// with the number it got and the enumeration's name, and the closing
/// brackets.
pub open spec fn glue_footer(enum_name: Seq<char>) -> Seq<char> {
    "            _ => panic!(concat!(\"{} not expected for \", stringify!("@ + enum_name
        + ")), x),\n        }\n    }\n}\n"@
}

/// The whole native glue for the enumeration `enum_name` with the table
/// `rows`.
pub open spec fn native_glue_source(enum_name: Seq<char>, rows: Seq<OrdinalRowView>) -> Seq<char> {
    glue_header(enum_name) + encode_arm_lines(encode_arms(rows), rows.len() as int) + glue_middle()
        + decode_arm_lines(decode_arms(rows), rows.len() as int) + glue_footer(enum_name)
}

fn encode_arm_text(row: &OrdinalRow, last: bool) -> (line: String)
    requires
        0 <= row.ordinal,
    ensures
        line@ == encode_arm_line(
            EncodeArm { variant: row@.native_identifier, ordinal: row@.ordinal, last },
        ),
{
    let mut line = "            ".to_owned();
    line.append(row.native_identifier.as_str());
    line.append(" => ");
    push_decimal(&mut line, row.ordinal as u32);
    line.append("i32");
    if last {
        line.append("");
    } else {
        line.append(",");
    }
    line.append("\n");
    line
}

fn decode_arm_text(row: &OrdinalRow) -> (line: String)
    requires
        0 <= row.ordinal,
    ensures
        line@ == decode_arm_line(
            DecodeArm { ordinal: row@.ordinal, variant: row@.native_identifier },
        ),
{
    let mut line = "            ".to_owned();
    push_decimal(&mut line, row.ordinal as u32);
    line.append("i32 => ");
    line.append(row.native_identifier.as_str());
    line.append(",\n");
    line
}

fn glue_header_text(enum_name: &str) -> (text: String)
    ensures
        text@ == glue_header(enum_name@),
{
    let mut text = "impl ".to_owned();
    text.append(C_LIKE_ENUM_TRAIT);
    text.append(" for ");
    text.append(enum_name);
    text.append(" {\n    fn as_jint(&self) -> jint {\n        match *self {\n");
    text
}

fn glue_footer_text(enum_name: &str) -> (text: String)
    ensures
        text@ == glue_footer(enum_name@),
{
    let mut text = "            _ => panic!(concat!(\"{} not expected for \", stringify!(".to_owned();
    text.append(enum_name);
    text.append(")), x),\n        }\n    }\n}\n");
    text
}

/// Renders the native glue for `table`; the enumeration's name comes from
/// `fenum`, every variant and every ordinal from `table`.
pub fn rust_code_for_table(fenum: &ForeignEnumInfo, table: &OrdinalTable) -> (code: String)
    ensures
        code@ == native_glue_source(fenum@.name, table@),
{
    let enum_name = fenum.name.as_str();
    let n = table.len();
    let ghost encode = encode_arms(table@);
    let ghost decode = decode_arms(table@);
    let ghost header = glue_header(fenum@.name);

    let mut code = glue_header_text(enum_name);
    assert(code@ =~= header + encode_arm_lines(encode, 0));
    let mut i: usize = 0;
    while i < n
        invariant
            i <= n == table@.len(),
            encode == encode_arms(table@),
            code@ == header + encode_arm_lines(encode, i as int),
        decreases n - i,
    {
        let line = encode_arm_text(table.row(i), i == n - 1);
        code.append(line.as_str());
        proof {
            lemma_concat_assoc(header, encode_arm_lines(encode, i as int), line@);
        }
        i += 1;
    }

    code.append("        }\n    }\n    fn from_jint(x: jint) -> Self {\n        match x {\n");
    let ghost upper = code@;
    assert(code@ =~= upper + decode_arm_lines(decode, 0));
    let mut i: usize = 0;
    while i < n
        invariant
            i <= n == table@.len(),
            decode == decode_arms(table@),
            code@ == upper + decode_arm_lines(decode, i as int),
        decreases n - i,
    {
        let line = decode_arm_text(table.row(i));
        code.append(line.as_str());
        proof {
            lemma_concat_assoc(upper, decode_arm_lines(decode, i as int), line@);
        }
        i += 1;
    }

    let footer = glue_footer_text(enum_name);
    code.append(footer.as_str());
    code
}

/// Emits the native glue for `table` as the next fragment of native source.
/// Nothing else of `ctx` changes.
pub fn generate_rust_code_for_enum(
    ctx: &mut JavaContext,
    fenum: &ForeignEnumInfo,
    table: &OrdinalTable,
)
    ensures
        final(ctx)@ == (JavaContextView {
            rust_code: old(ctx)@.rust_code.push(native_glue_source(fenum@.name, table@)),
            ..old(ctx)@
        }),
{
    let code = rust_code_for_table(fenum, table);
    ctx.push_rust_code(code);
}

/// The variants that the arms of `as_jint` match, in the arms' order.
pub open spec fn encode_patterns(arms: Seq<EncodeArm>) -> Seq<Seq<char>> {
    Seq::new(arms.len(), |i: int| arms[i].variant)
}

/// The ordinals that the arms of `from_jint` match, in the arms' order.
pub open spec fn decode_patterns(arms: Seq<DecodeArm>) -> Seq<int> {
    Seq::new(arms.len(), |i: int| arms[i].ordinal)
}

/// What the emitted `as_jint` yields for `variant`: the ordinal of the first
/// arm that matches it. `None` where no arm does, which the native compiler
/// rules out for a value of the enumeration.
pub open spec fn native_as_jint(arms: Seq<EncodeArm>, variant: Seq<char>) -> Option<int> {
    match first_position(encode_patterns(arms), variant) {
        Some(i) => Some(arms[i].ordinal),
        None => None,
    }
}

/// What the emitted `from_jint` yields for `x`: the variant of the first arm
/// that matches it. `None` stands for the fallback arm, which panics.
pub open spec fn native_from_jint(arms: Seq<DecodeArm>, x: int) -> Option<Seq<char>> {
    match first_position(decode_patterns(arms), x) {
        Some(i) => Some(arms[i].variant),
        None => None,
    }
}

/// On a table whose ordinals are in order, `from_jint` yields the variant of
/// row `x` for every `x` that is an ordinal and panics for every other
/// integer.
pub proof fn lemma_from_jint_on_table(rows: Seq<OrdinalRowView>, x: int)
    requires
        ordinals_in_order(rows),
    ensures
        native_from_jint(decode_arms(rows), x) == if 0 <= x < rows.len() {
            Some(rows[x].native_identifier)
        } else {
            None::<Seq<char>>
        },
{
    let labels = decode_patterns(decode_arms(rows));
    assert forall|i: int| 0 <= i < labels.len() implies labels[i] == i by {
        assert(rows[i].ordinal == i);
    }
    if 0 <= x < rows.len() {
        lemma_first_position_is(labels, x, x);
    } else {
        lemma_first_position_from(labels, x, 0);
    }
}

/// The native conversions undo each other. For every row `i` of a table
/// whose ordinals are in order: `as_jint` yields an ordinal of the table for
/// the row's variant, and `from_jint` yields that variant for it; and
/// `from_jint` yields the row's variant for `i`, so that every variant is
/// reached from an ordinal of the table.
pub proof fn lemma_native_conversions_invert(rows: Seq<OrdinalRowView>, i: int)
    requires
        ordinals_in_order(rows),
        0 <= i < rows.len(),
    ensures
        native_as_jint(encode_arms(rows), rows[i].native_identifier) matches Some(ordinal) && 0
            <= ordinal < rows.len() && native_from_jint(decode_arms(rows), ordinal) == Some(
            rows[i].native_identifier,
        ),
        native_from_jint(decode_arms(rows), i) == Some(rows[i].native_identifier),
{
    let patterns = encode_patterns(encode_arms(rows));
    assert(patterns[i] == rows[i].native_identifier);
    lemma_first_position_from(patterns, rows[i].native_identifier, 0);
    let k = first_position(patterns, rows[i].native_identifier).unwrap();
    assert(rows[k].ordinal == k);
    lemma_from_jint_on_table(rows, k);
    lemma_from_jint_on_table(rows, i);
}

/// Runs the emitted `as_jint` on the variant `variant`.
pub fn as_jint(table: &OrdinalTable, variant: &str) -> (ordinal: Option<i32>)
    ensures
        match native_as_jint(encode_arms(table@), variant@) {
            Some(value) => ordinal == Some(value as i32) && 0 <= value < table@.len(),
            None => ordinal is None,
        },
{
    let n = table.len();
    let ghost patterns = encode_patterns(encode_arms(table@));
    let mut i: usize = 0;
    while i < n
        invariant
            i <= n == table@.len(),
            patterns == encode_patterns(encode_arms(table@)),
            first_position(patterns, variant@) == first_position_from(patterns, variant@, i as int),
        decreases n - i,
    {
        let row = table.row(i);
        if same_text(row.native_identifier.as_str(), variant) {
            return Some(row.ordinal);
        }
        i += 1;
    }
    None
}

/// Runs the emitted `from_jint` on `x`: the variant that it yields, or the
/// fault that its fallback arm raises.
pub fn from_jint(fenum: &ForeignEnumInfo, table: &OrdinalTable, x: i32) -> (decoded: Result<
    String,
    BoundaryFault,
>)
    ensures
        match native_from_jint(decode_arms(table@), x as int) {
            Some(variant) => decoded matches Ok(name) && name@ == variant,
            None => decoded matches Err(fault) && fault@ == unexpected_native_value(
                fenum@.name,
                x as int,
            ),
        },
{
    let n = table.len();
    proof {
        lemma_from_jint_on_table(table@, x as int);
    }
    if 0 <= x && (x as usize) < n {
        Ok(table.row(x as usize).native_identifier.clone())
    } else {
        Err(BoundaryFault::unexpected_native_value(fenum.name.as_str(), x))
    }
}

} // verus!
