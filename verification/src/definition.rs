//! The description of a native enumeration that is to be made visible on the
//! foreign side.

use vstd::prelude::*;

verus! {

/// Where in the build's sources a definition stands; diagnostics point there.
#[derive(Clone, Copy, Debug, PartialEq, Eq, Structural)]
pub struct SourceLocation {
    /// Which source file of the build.
    pub src_id: usize,
    pub line: usize,
    pub column: usize,
}

/// One item of an enumeration.
#[derive(Debug, PartialEq, Eq)]
pub struct ForeignEnumItem {
    /// The identifier of the constant on the foreign side.
    pub name: String,
    /// The path of the variant on the native side.
    pub rust_name: String,
    /// The item's documentation as foreign comment text; empty where the item
    /// has none.
    pub doc_comments: String,
}

/// The mathematical view of [`ForeignEnumItem`], which the contracts speak of.
pub struct ForeignEnumItemView {
    pub name: Seq<char>,
    pub rust_name: Seq<char>,
    pub doc_comments: Seq<char>,
}

impl View for ForeignEnumItem {
    type V = ForeignEnumItemView;

    open spec fn view(&self) -> ForeignEnumItemView {
        ForeignEnumItemView {
            name: self.name@,
            rust_name: self.rust_name@,
            doc_comments: self.doc_comments@,
        }
    }
}

impl ForeignEnumItem {
    /// A copy with the same view.
    pub fn duplicate(&self) -> (copy: ForeignEnumItem)
        ensures
            copy@ == self@,
    {
        ForeignEnumItem {
            name: self.name.clone(),
            rust_name: self.rust_name.clone(),
            doc_comments: self.doc_comments.clone(),
        }
    }
}

/// An enumeration: its name, which serves on both sides, and its items. The
/// order of the items fixes their ordinals.
#[derive(Debug, PartialEq, Eq)]
pub struct ForeignEnumInfo {
    pub location: SourceLocation,
    pub name: String,
    pub items: Vec<ForeignEnumItem>,
    /// The enumeration's documentation as foreign comment text.
    pub doc_comments: String,
}

/// The mathematical view of [`ForeignEnumInfo`], which the contracts speak of.
pub struct ForeignEnumInfoView {
    pub location: SourceLocation,
    pub name: Seq<char>,
    pub items: Seq<ForeignEnumItemView>,
    pub doc_comments: Seq<char>,
}

impl View for ForeignEnumInfo {
    type V = ForeignEnumInfoView;

    open spec fn view(&self) -> ForeignEnumInfoView {
        ForeignEnumInfoView {
            location: self.location,
            name: self.name@,
            items: Seq::new(self.items@.len(), |i: int| self.items@[i]@),
            doc_comments: self.doc_comments@,
        }
    }
}

impl ForeignEnumInfo {
    /// A copy with the same view.
    pub fn duplicate(&self) -> (copy: ForeignEnumInfo)
        ensures
            copy@ == self@,
    {
        let mut items: Vec<ForeignEnumItem> = Vec::new();
        let mut i: usize = 0;
        while i < self.items.len()
            invariant
                i <= self.items.len(),
                items@.len() == i,
                forall|k: int| 0 <= k < i ==> items@[k]@ == self.items@[k]@,
            decreases self.items.len() - i,
        {
            items.push(self.items[i].duplicate());
            i += 1;
        }
        let copy = ForeignEnumInfo {
            location: self.location,
            name: self.name.clone(),
            items,
            doc_comments: self.doc_comments.clone(),
        };
        assert(copy@.items =~= self@.items);
        copy
    }
}

} // verus!
