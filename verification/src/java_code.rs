//! The foreign-language emitter: the source text of the Java enumeration
//! that mirrors a native one.

use vstd::prelude::*;
use crate::definition::{ForeignEnumInfo, ForeignEnumInfoView};
use crate::error::{invalid_foreign_value, too_many_items, BoundaryFault, DiagnosticError};
use crate::ordinal::{
    build_ordinal_table, ordinal_rows, ordinals_in_order, OrdinalRow, OrdinalRowView, OrdinalTable,
    ITEM_LIMIT,
};
use crate::search::{first_position, lemma_first_position_from, lemma_first_position_is};
use crate::text::{
    decimal, ends_with, ends_with_char, lemma_concat_assoc, push_decimal, same_text,
};

verus! {

/// A constant as the foreign enumeration declares it.
pub struct JavaConstant {
    /// Comment text that stands before the constant; empty for none.
    pub documentation: Seq<char>,
    pub name: Seq<char>,
    /// The argument handed to the constant's constructor.
    pub ordinal: int,
    /// Whether the terminator follows the constant, not the continuation
    /// mark.
    pub last: bool,
}

/// One labelled branch of the foreign `fromInt` dispatch.
pub struct JavaCase {
    pub label: int,
    /// The name of the constant that the branch returns.
    pub constant: Seq<char>,
}

/// The constants that the foreign enumeration declares for `rows`: one per
/// row, in the rows' order.
pub open spec fn java_constants(rows: Seq<OrdinalRowView>) -> Seq<JavaConstant> {
    Seq::new(
        rows.len(),
        |i: int|
            JavaConstant {
                documentation: rows[i].documentation,
                name: rows[i].foreign_identifier,
                ordinal: rows[i].ordinal,
                last: i == rows.len() - 1,
            },
    )
}

/// The branches of the foreign `fromInt` dispatch for `rows`: one per row, in
/// the rows' order.
pub open spec fn java_cases(rows: Seq<OrdinalRowView>) -> Seq<JavaCase> {
    Seq::new(
        rows.len(),
        |i: int| JavaCase { label: rows[i].ordinal, constant: rows[i].foreign_identifier },
    )
}

/// What precedes a constant's name on its line: nothing where it has no
/// documentation; else the documentation, closed by a line feed where it does
/// not end in one, and the indentation of the name.
pub open spec fn doc_prefix(documentation: Seq<char>) -> Seq<char> {
    if documentation.len() == 0 {
        Seq::empty()
    } else if ends_with(documentation, '\n') {
        documentation + "    "@
    } else {
        documentation.push('\n') + "    "@
    }
}

/// The mark after a constant: the terminator after the last one, the
/// continuation mark after every other.
pub open spec fn separator(last: bool) -> Seq<char> {
    if last {
        ";"@
    } else {
        ","@
    }
}

/// The line that declares one constant.
pub open spec fn java_constant_line(c: JavaConstant) -> Seq<char> {
    "    "@ + doc_prefix(c.documentation) + c.name + "("@ + decimal(c.ordinal as nat) + ")"@
        + separator(c.last) + "\n"@
}

/// The lines of the first `n` constants.
pub open spec fn java_constant_lines(constants: Seq<JavaConstant>, n: int) -> Seq<char>
    decreases n,
{
    if n <= 0 {
        Seq::empty()
    } else {
        java_constant_lines(constants, n - 1) + java_constant_line(constants[n - 1])
    }
}

/// The declarations of the constants: their lines, in their order. Where
/// there is no constant the bare terminator stands in their place, because
/// the foreign grammar wants one before the members that follow.
pub open spec fn java_constant_section(constants: Seq<JavaConstant>) -> Seq<char> {
    if constants.len() == 0 {
        "    ;\n"@
    } else {
        java_constant_lines(constants, constants.len() as int)
    }
}

/// The text of one branch of the dispatch.
pub open spec fn java_case_line(c: JavaCase) -> Seq<char> {
    "\n            case "@ + decimal(c.label as nat) + ": return "@ + c.constant + ";"@
}

/// The text of the first `n` branches.
pub open spec fn java_case_lines(cases: Seq<JavaCase>, n: int) -> Seq<char>
    decreases n,
{
    if n <= 0 {
        Seq::empty()
    } else {
        java_case_lines(cases, n - 1) + java_case_line(cases[n - 1])
    }
}

/// The text up to the first constant: the banner, the package, the
/// enumeration's documentation and the opening of its declaration.
pub open spec fn java_header(
    package_name: Seq<char>,
    enum_doc: Seq<char>,
    enum_name: Seq<char>,
) -> Seq<char> {
    "// Automatically generated by rust_swig\npackage "@ + package_name + ";\n\n"@ + enum_doc
        + "\npublic enum "@ + enum_name + " {\n"@
}

/// The text between the constants and the branches: the field that holds
/// the ordinal, the constructor, the accessor and the opening of `fromInt`.
pub open spec fn java_members(enum_name: Seq<char>) -> Seq<char> {
    "\n    private final int value;\n    "@ + enum_name
        + "(int value) {\n        this.value = value;\n    }\n    public final int getValue() { return value; }\n    /*package*/ static "@
        + enum_name + " fromInt(int x) {\n        switch (x) {"@
}

/// The text after the branches: the default branch, which throws, and the
/// closing brackets.
pub open spec fn java_footer(enum_name: Seq<char>) -> Seq<char> {
    "\n            default: throw new Error(\"Invalid value for enum "@ + enum_name
        + ": \" + x);\n        }\n    }\n}\n"@
}

/// The whole source text of the foreign enumeration.
pub open spec fn java_enum_source(
    package_name: Seq<char>,
    enum_name: Seq<char>,
    enum_doc: Seq<char>,
    rows: Seq<OrdinalRowView>,
) -> Seq<char> {
    java_header(package_name, enum_doc, enum_name) + java_constant_section(java_constants(rows))
        + java_members(enum_name) + java_case_lines(java_cases(rows), rows.len() as int)
        + java_footer(enum_name)
}

fn push_doc_prefix(out: &mut String, documentation: &str)
    ensures
        final(out)@ == old(out)@ + doc_prefix(documentation@),
{
    if !documentation.is_empty() {
        out.append(documentation);
        if !ends_with_char(documentation, '\n') {
            out.push('\n');
        }
        out.append("    ");
    }
    assert(out@ =~= old(out)@ + doc_prefix(documentation@));
}

fn java_constant_text(row: &OrdinalRow, last: bool) -> (line: String)
    requires
        0 <= row.ordinal,
    ensures
        line@ == java_constant_line(
            JavaConstant {
                documentation: row@.documentation,
                name: row@.foreign_identifier,
                ordinal: row@.ordinal,
                last,
            },
        ),
{
    let mut line = "    ".to_owned();
    push_doc_prefix(&mut line, row.documentation.as_str());
    line.append(row.foreign_identifier.as_str());
    line.append("(");
    push_decimal(&mut line, row.ordinal as u32);
    line.append(")");
    if last {
        line.append(";");
    } else {
        line.append(",");
    }
    line.append("\n");
    line
}

fn java_case_text(row: &OrdinalRow) -> (line: String)
    requires
        0 <= row.ordinal,
    ensures
        line@ == java_case_line(
            JavaCase { label: row@.ordinal, constant: row@.foreign_identifier },
        ),
{
    let mut line = "\n            case ".to_owned();
    push_decimal(&mut line, row.ordinal as u32);
    line.append(": return ");
    line.append(row.foreign_identifier.as_str());
    line.append(";");
    line
}

fn java_header_text(package_name: &str, enum_doc: &str, enum_name: &str) -> (text: String)
    ensures
        text@ == java_header(package_name@, enum_doc@, enum_name@),
{
    let mut text = "// Automatically generated by rust_swig\npackage ".to_owned();
    text.append(package_name);
    text.append(";\n\n");
    text.append(enum_doc);
    text.append("\npublic enum ");
    text.append(enum_name);
    text.append(" {\n");
    text
}

fn java_members_text(enum_name: &str) -> (text: String)
    ensures
        text@ == java_members(enum_name@),
{
    let mut text = "\n    private final int value;\n    ".to_owned();
    text.append(enum_name);
    text.append(
        "(int value) {\n        this.value = value;\n    }\n    public final int getValue() { return value; }\n    /*package*/ static ",
    );
    text.append(enum_name);
    text.append(" fromInt(int x) {\n        switch (x) {");
    text
}

fn java_footer_text(enum_name: &str) -> (text: String)
    ensures
        text@ == java_footer(enum_name@),
{
    let mut text = "\n            default: throw new Error(\"Invalid value for enum ".to_owned();
    text.append(enum_name);
    text.append(": \" + x);\n        }\n    }\n}\n");
    text
}

/// Renders the foreign enumeration for `table`. The name and the
/// documentation of the enumeration come from `fenum`; every identifier and
/// every ordinal comes from `table`.
pub fn java_code_for_table(
    package_name: &str,
    fenum: &ForeignEnumInfo,
    table: &OrdinalTable,
) -> (code: String)
    ensures
        code@ == java_enum_source(package_name@, fenum@.name, fenum@.doc_comments, table@),
{
    let enum_name = fenum.name.as_str();
    let n = table.len();
    let ghost constants = java_constants(table@);
    let ghost cases = java_cases(table@);
    let ghost header = java_header(package_name@, fenum@.doc_comments, fenum@.name);

    let mut code = java_header_text(package_name, fenum.doc_comments.as_str(), enum_name);
    if n == 0 {
        code.append("    ;\n");
    } else {
        assert(code@ =~= header + java_constant_lines(constants, 0));
        let mut i: usize = 0;
        while i < n
            invariant
                i <= n == table@.len(),
                constants == java_constants(table@),
                code@ == header + java_constant_lines(constants, i as int),
            decreases n - i,
        {
            let line = java_constant_text(table.row(i), i == n - 1);
            code.append(line.as_str());
            proof {
                lemma_concat_assoc(header, java_constant_lines(constants, i as int), line@);
            }
            i += 1;
        }
    }
    assert(code@ == header + java_constant_section(constants));

    let members = java_members_text(enum_name);
    code.append(members.as_str());
    let ghost upper = code@;
    assert(code@ =~= upper + java_case_lines(cases, 0));
    let mut i: usize = 0;
    while i < n
        invariant
            i <= n == table@.len(),
            cases == java_cases(table@),
            code@ == upper + java_case_lines(cases, i as int),
        decreases n - i,
    {
        let line = java_case_text(table.row(i));
        code.append(line.as_str());
        proof {
            lemma_concat_assoc(upper, java_case_lines(cases, i as int), line@);
        }
        i += 1;
    }

    let footer = java_footer_text(enum_name);
    code.append(footer.as_str());
    proof {
        lemma_concat_assoc(
            header + java_constant_section(constants),
            java_members(fenum@.name),
            java_case_lines(cases, n as int),
        );
    }
    code
}

/// The name of the file that holds the foreign enumeration `enum_name`.
pub open spec fn java_file_name(enum_name: Seq<char>) -> Seq<char> {
    enum_name + ".java"@
}

/// `file` inside the directory `dir`: the two joined by one `/`, which is
/// left out where `dir` is empty or ends in one already.
pub open spec fn join_path(dir: Seq<char>, file: Seq<char>) -> Seq<char> {
    if dir.len() == 0 || ends_with(dir, '/') {
        dir + file
    } else {
        dir.push('/') + file
    }
}

/// The path of the file that holds the foreign enumeration `enum_name`, in
/// the directory `output_dir`.
pub fn java_file_path(output_dir: &str, enum_name: &str) -> (path: String)
    ensures
        path@ == join_path(output_dir@, java_file_name(enum_name@)),
{
    let mut path = output_dir.to_owned();
    if !output_dir.is_empty() && !ends_with_char(output_dir, '/') {
        path.push('/');
    }
    path.append(enum_name);
    path.append(".java");
    assert(path@ =~= join_path(output_dir@, java_file_name(enum_name@)));
    path
}

/// A foreign source file that is ready to be written.
#[derive(Debug, PartialEq, Eq)]
pub struct JavaArtifact {
    /// Where the file belongs.
    pub path: String,
    /// What the file is to hold.
    pub code: String,
}

/// The mathematical view of [`JavaArtifact`], which the contracts speak of.
pub struct JavaArtifactView {
    pub path: Seq<char>,
    pub code: Seq<char>,
}

impl View for JavaArtifact {
    type V = JavaArtifactView;

    open spec fn view(&self) -> JavaArtifactView {
        JavaArtifactView { path: self.path@, code: self.code@ }
    }
}

/// Whether a file that now holds `on_disk` (`None`: there is no such file)
/// has to be written to hold `code`. A file that holds `code` already is left
/// alone, so that its timestamp stays.
pub open spec fn write_needed(on_disk: Option<Seq<char>>, code: Seq<char>) -> bool {
    on_disk != Some(code)
}

impl JavaArtifact {
    /// Decides [`write_needed`] for this artifact.
    pub fn needs_write(&self, on_disk: Option<&str>) -> (needed: bool)
        ensures
            needed == write_needed(
                match on_disk {
                    Some(text) => Some(text@),
                    None => None,
                },
                self@.code,
            ),
    {
        match on_disk {
            Some(text) => !same_text(text, self.code.as_str()),
            None => true,
        }
    }
}

/// The artifact for `fenum`: its source text, and its place in `output_dir`.
pub open spec fn java_artifact(
    output_dir: Seq<char>,
    package_name: Seq<char>,
    fenum: ForeignEnumInfoView,
) -> JavaArtifactView {
    JavaArtifactView {
        path: join_path(output_dir, java_file_name(fenum.name)),
        code: java_enum_source(
            package_name,
            fenum.name,
            fenum.doc_comments,
            ordinal_rows(fenum.items),
        ),
    }
}

/// Produces the foreign source file for `fenum`, to be written into
/// `output_dir`. An enumeration with too many items gets a diagnostic and no
/// artifact, so nothing of it can reach the disk.
pub fn generate_java_code_for_enum(
    output_dir: &str,
    package_name: &str,
    fenum: &ForeignEnumInfo,
) -> (generated: Result<JavaArtifact, DiagnosticError>)
    ensures
        generated is Ok <==> fenum@.items.len() < ITEM_LIMIT,
        generated matches Ok(artifact) ==> artifact@ == java_artifact(
            output_dir@,
            package_name@,
            fenum@,
        ),
        generated matches Err(e) ==> e@ == too_many_items(fenum@.location),
{
    let table = match build_ordinal_table(fenum) {
        Ok(table) => table,
        Err(e) => {
            return Err(e);
        },
    };
    let code = java_code_for_table(package_name, fenum, &table);
    let path = java_file_path(output_dir, fenum.name.as_str());
    Ok(JavaArtifact { path, code })
}

/// The labels of `cases`, in their order.
pub open spec fn java_case_labels(cases: Seq<JavaCase>) -> Seq<int> {
    Seq::new(cases.len(), |i: int| cases[i].label)
}

/// What the emitted `fromInt` does with `x`: it returns the constant of the
/// first branch that is labelled `x`. `None` stands for the default branch,
/// which throws.
pub open spec fn java_from_int(cases: Seq<JavaCase>, x: int) -> Option<Seq<char>> {
    match first_position(java_case_labels(cases), x) {
        Some(i) => Some(cases[i].constant),
        None => None,
    }
}

/// On a table whose ordinals are in order, `fromInt` returns the constant of
/// row `x` for every `x` that is an ordinal, and throws for every other
/// integer.
pub proof fn lemma_from_int_on_table(rows: Seq<OrdinalRowView>, x: int)
    requires
        ordinals_in_order(rows),
    ensures
        java_from_int(java_cases(rows), x) == if 0 <= x < rows.len() {
            Some(rows[x].foreign_identifier)
        } else {
            None::<Seq<char>>
        },
{
    let labels = java_case_labels(java_cases(rows));
    assert forall|i: int| 0 <= i < labels.len() implies labels[i] == i by {
        assert(rows[i].ordinal == i);
    }
    if 0 <= x < rows.len() {
        lemma_first_position_is(labels, x, x);
    } else {
        lemma_first_position_from(labels, x, 0);
    }
}

/// The foreign enumeration mirrors its definition. For an enumeration of
/// `N` items, fewer than [`ITEM_LIMIT`]: the source text is made of the
/// header, the declarations of exactly `N` constants in the order of the
/// items, the members, the `N` branches of `fromInt` in the same order, and
/// the footer; the constant at position `i` has the name of item `i` and the
/// ordinal `i`; the terminator follows the last constant and the
/// continuation mark every other; `fromInt` maps the ordinal of each constant
/// back to that constant, and throws for every integer outside `0..N`.
pub proof fn lemma_foreign_enum_mirrors_definition(
    output_dir: Seq<char>,
    package_name: Seq<char>,
    fenum: ForeignEnumInfoView,
)
    requires
        fenum.items.len() < ITEM_LIMIT,
    ensures
        java_artifact(output_dir, package_name, fenum).code == java_header(
            package_name,
            fenum.doc_comments,
            fenum.name,
        ) + java_constant_section(java_constants(ordinal_rows(fenum.items))) + java_members(
            fenum.name,
        ) + java_case_lines(
            java_cases(ordinal_rows(fenum.items)),
            fenum.items.len() as int,
        ) + java_footer(fenum.name),
        java_constants(ordinal_rows(fenum.items)).len() == fenum.items.len(),
        java_cases(ordinal_rows(fenum.items)).len() == fenum.items.len(),
        forall|i: int|
            0 <= i < fenum.items.len() ==> {
                let c = #[trigger] java_constants(ordinal_rows(fenum.items))[i];
                &&& c.name == fenum.items[i].name
                &&& c.ordinal == i
                &&& c.last == (i == fenum.items.len() - 1)
                &&& java_from_int(java_cases(ordinal_rows(fenum.items)), c.ordinal) == Some(
                    c.name,
                )
            },
        forall|x: int|
            !(0 <= x < fenum.items.len()) ==> #[trigger] java_from_int(
                java_cases(ordinal_rows(fenum.items)),
                x,
            ) is None,
{
    let rows = ordinal_rows(fenum.items);
    assert forall|i: int| 0 <= i < fenum.items.len() implies {
        let c = #[trigger] java_constants(rows)[i];
        java_from_int(java_cases(rows), c.ordinal) == Some(c.name)
    } by {
        lemma_from_int_on_table(rows, i);
    }
    assert forall|x: int| !(0 <= x < fenum.items.len()) implies #[trigger] java_from_int(
        java_cases(rows),
        x,
    ) is None by {
        lemma_from_int_on_table(rows, x);
    }
}

/// Generating again from the same definition and configuration gives the
/// text that the first run wrote, so the file is not written a second time.
pub proof fn lemma_regeneration_is_unchanged(
    output_dir: Seq<char>,
    package_name: Seq<char>,
    fenum: ForeignEnumInfoView,
)
    ensures
        !write_needed(
            Some(java_artifact(output_dir, package_name, fenum).code),
            java_artifact(output_dir, package_name, fenum).code,
        ),
{
}

/// Runs the emitted `fromInt` on `x`: the name of the constant that it
/// returns, or the fault that its default branch raises.
pub fn foreign_from_int(fenum: &ForeignEnumInfo, table: &OrdinalTable, x: i32) -> (decoded: Result<
    String,
    BoundaryFault,
>)
    ensures
        match java_from_int(java_cases(table@), x as int) {
            Some(constant) => decoded matches Ok(name) && name@ == constant,
            None => decoded matches Err(fault) && fault@ == invalid_foreign_value(
                fenum@.name,
                x as int,
            ),
        },
{
    let n = table.len();
    proof {
        lemma_from_int_on_table(table@, x as int);
    }
    if 0 <= x && (x as usize) < n {
        Ok(table.row(x as usize).foreign_identifier.clone())
    } else {
        Err(BoundaryFault::invalid_foreign_value(fenum.name.as_str(), x))
    }
}

} // verus!
