//! The ordinal table: the one place where an enumeration's items get their
//! numbers. Every emitter reads the identifiers and ordinals from it.

use vstd::prelude::*;
use crate::definition::{ForeignEnumInfo, ForeignEnumItemView};
use crate::error::{too_many_items, DiagnosticError};

verus! {

/// One more than the largest number of items an enumeration may have: the
/// ordinals must fit the non-negative half of a 32-bit signed integer.
pub const ITEM_LIMIT: u64 = 0x8000_0000;

/// One row of the ordinal table.
#[derive(Debug, PartialEq, Eq)]
pub struct OrdinalRow {
    /// The identifier of the constant on the foreign side.
    pub foreign_identifier: String,
    /// The path of the variant on the native side.
    pub native_identifier: String,
    /// The number that stands for the item on both sides.
    pub ordinal: i32,
    /// The item's documentation as foreign comment text.
    pub documentation: String,
}

/// The mathematical view of [`OrdinalRow`], which the contracts speak of.
pub struct OrdinalRowView {
    pub foreign_identifier: Seq<char>,
    pub native_identifier: Seq<char>,
    pub ordinal: int,
    pub documentation: Seq<char>,
}

impl View for OrdinalRow {
    type V = OrdinalRowView;

    open spec fn view(&self) -> OrdinalRowView {
        OrdinalRowView {
            foreign_identifier: self.foreign_identifier@,
            native_identifier: self.native_identifier@,
            ordinal: self.ordinal as int,
            documentation: self.documentation@,
        }
    }
}

/// The row that the item at position `position` gets.
pub open spec fn ordinal_row(item: ForeignEnumItemView, position: int) -> OrdinalRowView {
    OrdinalRowView {
        foreign_identifier: item.name,
        native_identifier: item.rust_name,
        ordinal: position,
        documentation: item.doc_comments,
    }
}

/// The rows for a list of items: one row per item, in the items' order, each
/// numbered with its position.
pub open spec fn ordinal_rows(items: Seq<ForeignEnumItemView>) -> Seq<OrdinalRowView> {
    Seq::new(items.len(), |i: int| ordinal_row(items[i], i))
}

/// The ordinals of `rows` are `0, 1, 2, ...` in the rows' order, and there
/// are fewer than [`ITEM_LIMIT`] rows.
pub open spec fn ordinals_in_order(rows: Seq<OrdinalRowView>) -> bool {
    &&& rows.len() < ITEM_LIMIT
    &&& forall|i: int| 0 <= i < rows.len() ==> (#[trigger] rows[i]).ordinal == i
}

/// Whether `count` items can be numbered.
pub fn cardinality_fits(count: usize) -> (fits: bool)
    ensures
        fits == (count < ITEM_LIMIT),
{
    (count as u64) < ITEM_LIMIT
}

/// The ordinal table of one enumeration.
#[derive(Debug, PartialEq, Eq)]
pub struct OrdinalTable {
    rows: Vec<OrdinalRow>,
}

impl View for OrdinalTable {
    type V = Seq<OrdinalRowView>;

    closed spec fn view(&self) -> Seq<OrdinalRowView> {
        Seq::new(self.rows@.len(), |i: int| self.rows@[i]@)
    }
}

impl OrdinalTable {
    #[verifier::type_invariant]
    spec fn numbered(&self) -> bool {
        ordinals_in_order(self@)
    }

    /// How many rows the table has.
    pub fn len(&self) -> (n: usize)
        ensures
            n == self@.len(),
            ordinals_in_order(self@),
    {
        proof {
            use_type_invariant(self);
        }
        self.rows.len()
    }

    /// The row at `position`.
    pub fn row(&self, position: usize) -> (row: &OrdinalRow)
        requires
            position < self@.len(),
        ensures
            row@ == self@[position as int],
            row.ordinal == position,
    {
        proof {
            use_type_invariant(self);
        }
        &self.rows[position]
    }
}

/// Derives the ordinal table of `fenum`, or reports that it has too many
/// items to number.
pub fn build_ordinal_table(fenum: &ForeignEnumInfo) -> (built: Result<OrdinalTable, DiagnosticError>)
    ensures
        built is Ok <==> fenum@.items.len() < ITEM_LIMIT,
        built matches Ok(table) ==> table@ == ordinal_rows(fenum@.items) && ordinals_in_order(
            table@,
        ),
        built matches Err(e) ==> e@ == too_many_items(fenum@.location),
{
    if !cardinality_fits(fenum.items.len()) {
        return Err(DiagnosticError::too_many_items(fenum.location));
    }
    let mut rows: Vec<OrdinalRow> = Vec::new();
    let mut i: usize = 0;
    while i < fenum.items.len()
        invariant
            i <= fenum.items.len() < ITEM_LIMIT,
            rows@.len() == i,
            forall|k: int| 0 <= k < i ==> (#[trigger] rows@[k])@ == ordinal_row(fenum@.items[k], k),
        decreases fenum.items.len() - i,
    {
        let item = &fenum.items[i];
        rows.push(
            OrdinalRow {
                foreign_identifier: item.name.clone(),
                native_identifier: item.rust_name.clone(),
                ordinal: i as i32,
                documentation: item.doc_comments.clone(),
            },
        );
        i += 1;
    }
    let table = OrdinalTable { rows };
    assert(table@ =~= ordinal_rows(fenum@.items));
    Ok(table)
}

} // verus!
