//! The registration orchestrator: it validates an enumeration, has its
//! native code emitted, and enters it into the conversion graph.

use vstd::prelude::*;
use crate::callbacks::{
    add_conversation_from_enum_to_jobject_for_callbacks, callback_rule_code, callback_source,
    enum_class_name, with_callback_conversion, OBJECT_TYPE,
};
use crate::context::{JavaContext, JavaContextView};
use crate::definition::{ForeignEnumInfo, ForeignEnumInfoView};
use crate::error::{foreign_type_conflict, too_many_items, write_failed, DiagnosticError};
use crate::java_code::{java_file_name, java_file_path, join_path};
use crate::ordinal::{build_ordinal_table, ordinal_rows, ITEM_LIMIT};
use crate::rust_code::{generate_rust_code_for_enum, native_glue_source, C_LIKE_ENUM_TRAIT};
use crate::search::first_position;
use crate::typemap::{
    foreign_type_names, has_foreign_type, lemma_with_capable_rust_type,
    lemma_with_conversion_rule, lemma_with_rust_type, rule_ends, rust_type_index, well_formed,
    with_capable_rust_type, with_conversion_rule, with_exported_enum, with_foreign_type,
    with_rust_type,
    ConversionEdgeView, ForeignConversionRule, ForeignConversionRuleView, ForeignType,
    ForeignTypeView, RustTypeIdx, FROM_VAR_TEMPLATE, TO_VAR_TEMPLATE,
};

verus! {

/// The native type through which the ordinals cross the boundary: a 32-bit
/// signed integer.
pub const INT_TYPE: &'static str = "jint";

/// The foreign code that turns the integer that came across the boundary
/// into the constant: a call of the enumeration's `fromInt`.
pub open spec fn into_foreign_code(enum_name: Seq<char>) -> Seq<char> {
    "        "@ + enum_name + " "@ + TO_VAR_TEMPLATE@ + " = "@ + enum_name + ".fromInt("@
        + FROM_VAR_TEMPLATE@ + ");"@
}

/// The foreign code that turns a constant into the integer that crosses the
/// boundary: a call of its `getValue`.
pub open spec fn from_foreign_code() -> Seq<char> {
    "        int "@ + TO_VAR_TEMPLATE@ + " = "@ + FROM_VAR_TEMPLATE@ + ".getValue();"@
}

/// The foreign type of the enumeration `fenum`, whose native type is the
/// node `enum_rty`; both of its rules pass through the node `int_rty`.
pub open spec fn enum_foreign_type(
    fenum: ForeignEnumInfoView,
    enum_rty: RustTypeIdx,
    int_rty: RustTypeIdx,
) -> ForeignTypeView {
    ForeignTypeView {
        name: fenum.name,
        location: fenum.location,
        into_from_rust: Some(
            ForeignConversionRuleView {
                rust_ty: enum_rty,
                intermediate_ty: Some(int_rty),
                conv_code: into_foreign_code(fenum.name),
            },
        ),
        from_into_rust: Some(
            ForeignConversionRuleView {
                rust_ty: enum_rty,
                intermediate_ty: Some(int_rty),
                conv_code: from_foreign_code(),
            },
        ),
    }
}

/// The node of the enumeration's native type.
pub open spec fn enum_rust_type(ctx: JavaContextView, fenum: ForeignEnumInfoView) -> RustTypeIdx {
    rust_type_index(ctx.conv_map, fenum.name) as usize
}

/// The node of the intermediate integer type.
pub open spec fn int_rust_type(ctx: JavaContextView, fenum: ForeignEnumInfoView) -> RustTypeIdx {
    rust_type_index(
        with_capable_rust_type(ctx.conv_map, fenum.name, C_LIKE_ENUM_TRAIT@),
        INT_TYPE@,
    ) as usize
}

/// The state once the native side of `fenum` is in place: the node of its
/// native type is there and tagged with [`C_LIKE_ENUM_TRAIT`], the native
/// glue is the next fragment of native source, and the graph has a node for
/// the intermediate integer type.
pub open spec fn with_native_side(
    ctx: JavaContextView,
    fenum: ForeignEnumInfoView,
) -> JavaContextView {
    JavaContextView {
        cfg: ctx.cfg,
        conv_map: with_rust_type(
            with_capable_rust_type(ctx.conv_map, fenum.name, C_LIKE_ENUM_TRAIT@),
            INT_TYPE@,
        ),
        rust_code: ctx.rust_code.push(native_glue_source(fenum.name, ordinal_rows(fenum.items))),
    }
}

/// The state once `fenum` is registered on top of [`with_native_side`]: its
/// foreign type is in the graph, with its two rules through the integer
/// type, and the enumeration is on the list of those processed.
pub open spec fn with_foreign_side(
    ctx: JavaContextView,
    fenum: ForeignEnumInfoView,
) -> JavaContextView {
    let native = with_native_side(ctx, fenum);
    JavaContextView {
        cfg: native.cfg,
        conv_map: with_exported_enum(
            with_foreign_type(
                native.conv_map,
                enum_foreign_type(fenum, enum_rust_type(ctx, fenum), int_rust_type(ctx, fenum)),
            ),
            fenum,
        ),
        rust_code: native.rust_code,
    }
}

/// The state after the whole generation for `fenum`: [`with_foreign_side`],
/// then the callback conversion on top of it.
pub open spec fn with_enum(ctx: JavaContextView, fenum: ForeignEnumInfoView) -> JavaContextView {
    with_callback_conversion(
        with_foreign_side(ctx, fenum),
        fenum.name,
        ordinal_rows(fenum.items),
        enum_rust_type(ctx, fenum),
    )
}

/// The node of the opaque object type.
pub open spec fn object_rust_type(ctx: JavaContextView, fenum: ForeignEnumInfoView) -> RustTypeIdx {
    rust_type_index(with_foreign_side(ctx, fenum).conv_map, OBJECT_TYPE@) as usize
}

/// What a generation that succeeds leaves behind. The configuration is as
/// it was, and so is every node that the graph had, but for the capability
/// that the enumeration's node may have gained. The graph has a node of the
/// enumeration's name that is tagged with [`C_LIKE_ENUM_TRAIT`], a node for
/// the integer type and a node for the opaque object type. The foreign type
/// of the enumeration is the last of the foreign types, with both rules
/// between it and the enumeration's node through the integer node, so that
/// its name is taken from now on. The enumeration is the last on the list of
/// those processed. The rule from the enumeration's node to the object node
/// is the callback rule. And the native glue and the callback conversion are
/// the last two fragments of native source, in this order.
pub proof fn lemma_generated_enum(ctx: JavaContextView, fenum: ForeignEnumInfoView)
    requires
        ctx.conv_map.rust_types.len() + 3 <= usize::MAX,
    ensures
        ({
            let after = with_enum(ctx, fenum);
            let nodes = after.conv_map.rust_types;
            let enum_rty = enum_rust_type(ctx, fenum);
            let int_rty = int_rust_type(ctx, fenum);
            let object_rty = object_rust_type(ctx, fenum);
            &&& after.cfg == ctx.cfg
            &&& ctx.conv_map.rust_types.len() <= nodes.len() <= ctx.conv_map.rust_types.len() + 3
            &&& forall|i: int|
                0 <= i < ctx.conv_map.rust_types.len() ==> (#[trigger] nodes[i]).name
                    == ctx.conv_map.rust_types[i].name
            &&& forall|i: int|
                0 <= i < ctx.conv_map.rust_types.len() && i != enum_rty ==> #[trigger] nodes[i]
                    == ctx.conv_map.rust_types[i]
            &&& enum_rty < nodes.len()
            &&& nodes[enum_rty as int].name == fenum.name
            &&& nodes[enum_rty as int].implements.contains(C_LIKE_ENUM_TRAIT@)
            &&& int_rty < nodes.len()
            &&& nodes[int_rty as int].name == INT_TYPE@
            &&& object_rty < nodes.len()
            &&& nodes[object_rty as int].name == OBJECT_TYPE@
            &&& after.conv_map.foreign_types == ctx.conv_map.foreign_types.push(
                enum_foreign_type(fenum, enum_rty, int_rty),
            )
            &&& has_foreign_type(after.conv_map, fenum.name)
            &&& after.conv_map.exported_enums == ctx.conv_map.exported_enums.push(fenum)
            &&& first_position(rule_ends(after.conv_map), (enum_rty, object_rty)) matches Some(i)
                && 0 <= i < after.conv_map.conv_rules.len() && after.conv_map.conv_rules[i]
                == (ConversionEdgeView {
                from: enum_rty,
                to: object_rty,
                conv_code: callback_rule_code(),
            })
            &&& after.rust_code == ctx.rust_code.push(
                native_glue_source(fenum.name, ordinal_rows(fenum.items)),
            ).push(
                callback_source(
                    fenum.name,
                    enum_class_name(ctx.cfg.package_name, fenum.name),
                    ordinal_rows(fenum.items),
                ),
            )
        }),
{
    let m0 = ctx.conv_map;
    let m1 = with_capable_rust_type(m0, fenum.name, C_LIKE_ENUM_TRAIT@);
    let m2 = with_rust_type(m1, INT_TYPE@);
    let foreign = enum_foreign_type(fenum, enum_rust_type(ctx, fenum), int_rust_type(ctx, fenum));
    let m4 = with_exported_enum(with_foreign_type(m2, foreign), fenum);
    let m5 = with_rust_type(m4, OBJECT_TYPE@);
    let edge = ConversionEdgeView {
        from: enum_rust_type(ctx, fenum),
        to: object_rust_type(ctx, fenum),
        conv_code: callback_rule_code(),
    };
    let after = with_enum(ctx, fenum);
    lemma_with_capable_rust_type(m0, fenum.name, C_LIKE_ENUM_TRAIT@);
    lemma_with_rust_type(m1, INT_TYPE@);
    lemma_with_rust_type(m4, OBJECT_TYPE@);
    lemma_with_conversion_rule(m5, edge);
    assert(m4 == with_foreign_side(ctx, fenum).conv_map);
    assert(after.conv_map == with_conversion_rule(m5, edge));
    assert(foreign_type_names(after.conv_map).last() == fenum.name);
}

/// The path of the foreign source file of `fenum` under the configuration of
/// `ctx`.
pub open spec fn artifact_path(ctx: JavaContextView, fenum: ForeignEnumInfoView) -> Seq<char> {
    join_path(ctx.cfg.output_dir, java_file_name(fenum.name))
}

fn into_foreign_code_text(enum_name: &str) -> (code: String)
    ensures
        code@ == into_foreign_code(enum_name@),
{
    let mut code = "        ".to_owned();
    code.append(enum_name);
    code.append(" ");
    code.append(TO_VAR_TEMPLATE);
    code.append(" = ");
    code.append(enum_name);
    code.append(".fromInt(");
    code.append(FROM_VAR_TEMPLATE);
    code.append(");");
    code
}

fn from_foreign_code_text() -> (code: String)
    ensures
        code@ == from_foreign_code(),
{
    let mut code = "        int ".to_owned();
    code.append(TO_VAR_TEMPLATE);
    code.append(" = ");
    code.append(FROM_VAR_TEMPLATE);
    code.append(".getValue();");
    code
}

/// Generates the native side of the bindings of `fenum` and enters the
/// enumeration into the graph. `written` says how the writing of its foreign
/// source file went, which comes first: `Err` carries the writer's words.
///
/// In this order: an enumeration with too many items is refused, and a
/// failed write is reported with the file's path; in both cases `ctx` stays
/// as it was. Then the node of the native type is found or made and tagged,
/// the native glue is emitted, and the node of the integer type is found or
/// made. A foreign type of the enumeration's name that is registered already
/// is refused at that point, and what was done before stays done. Else the
/// foreign type is registered with its two rules, the enumeration is put on
/// the list of those processed, and the callback conversion is emitted and
/// registered.
pub fn generate_enum(
    ctx: &mut JavaContext,
    fenum: &ForeignEnumInfo,
    written: Result<(), String>,
) -> (done: Result<(), DiagnosticError>)
    ensures
        fenum@.items.len() >= ITEM_LIMIT ==> (done matches Err(e) && e@ == too_many_items(
            fenum@.location,
        )) && final(ctx)@ == old(ctx)@,
        fenum@.items.len() < ITEM_LIMIT ==> (written matches Err(reason) ==> (done matches Err(e)
            && e@ == write_failed(
            fenum@.location,
            artifact_path(old(ctx)@, fenum@),
            reason@,
        )) && final(ctx)@ == old(ctx)@),
        fenum@.items.len() < ITEM_LIMIT && written is Ok && has_foreign_type(
            old(ctx)@.conv_map,
            fenum@.name,
        ) ==> (done matches Err(e) && e@ == foreign_type_conflict(fenum@.location, fenum@.name))
            && final(ctx)@ == with_native_side(old(ctx)@, fenum@),
        fenum@.items.len() < ITEM_LIMIT && written is Ok && !has_foreign_type(
            old(ctx)@.conv_map,
            fenum@.name,
        ) ==> done is Ok && final(ctx)@ == with_enum(old(ctx)@, fenum@),
        well_formed(old(ctx)@.conv_map) ==> well_formed(final(ctx)@.conv_map),
{
    let table = match build_ordinal_table(fenum) {
        Ok(table) => table,
        Err(e) => {
            return Err(e);
        },
    };
    match written {
        Ok(()) => {},
        Err(reason) => {
            let path = java_file_path(ctx.cfg.output_dir.as_str(), fenum.name.as_str());
            return Err(
                DiagnosticError::write_failed(fenum.location, path.as_str(), reason.as_str()),
            );
        },
    }
    let enum_name = fenum.name.as_str();
    let enum_rty = ctx.conv_map.find_or_alloc_rust_type_that_implements(
        enum_name,
        C_LIKE_ENUM_TRAIT,
    );
    generate_rust_code_for_enum(ctx, fenum, &table);
    let int_rty = ctx.conv_map.find_or_alloc_rust_type(INT_TYPE);
    assert(ctx@ == with_native_side(old(ctx)@, fenum@));

    let enum_ftype = ForeignType {
        name: fenum.name.clone(),
        location: fenum.location,
        into_from_rust: Some(
            ForeignConversionRule {
                rust_ty: enum_rty,
                intermediate_ty: Some(int_rty),
                conv_code: into_foreign_code_text(enum_name),
            },
        ),
        from_into_rust: Some(
            ForeignConversionRule {
                rust_ty: enum_rty,
                intermediate_ty: Some(int_rty),
                conv_code: from_foreign_code_text(),
            },
        ),
    };
    assert(enum_ftype@ == enum_foreign_type(
        fenum@,
        enum_rust_type(old(ctx)@, fenum@),
        int_rust_type(old(ctx)@, fenum@),
    ));
    assert(has_foreign_type(ctx@.conv_map, fenum@.name) == has_foreign_type(
        old(ctx)@.conv_map,
        fenum@.name,
    )) by {
        assert(foreign_type_names(ctx@.conv_map) =~= foreign_type_names(old(ctx)@.conv_map));
    }
    match ctx.conv_map.alloc_foreign_type(enum_ftype) {
        Ok(_) => {},
        Err(e) => {
            return Err(e);
        },
    }
    ctx.conv_map.register_exported_enum(fenum);
    assert(ctx@ == with_foreign_side(old(ctx)@, fenum@));
    add_conversation_from_enum_to_jobject_for_callbacks(ctx, fenum, &table, enum_rty);
    Ok(())
}

} // verus!
