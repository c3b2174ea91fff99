//! What one build carries from one generation step to the next.

use vstd::prelude::*;
use crate::text::texts;
use crate::typemap::{TypeMap, TypeMapView};

verus! {

/// Where the foreign sources go and which package they belong to.
#[derive(Debug, PartialEq, Eq)]
pub struct JavaConfig {
    /// The directory that receives the foreign source files.
    pub output_dir: String,
    /// The package of the foreign sources, with dots between its parts.
    pub package_name: String,
}

/// The mathematical view of [`JavaConfig`], which the contracts speak of.
pub struct JavaConfigView {
    pub output_dir: Seq<char>,
    pub package_name: Seq<char>,
}

impl View for JavaConfig {
    type V = JavaConfigView;

    open spec fn view(&self) -> JavaConfigView {
        JavaConfigView { output_dir: self.output_dir@, package_name: self.package_name@ }
    }
}

/// The state of one build: its configuration, its conversion graph, and the
/// fragments of native source that the steps so far have emitted, in their
/// order.
#[derive(Debug, PartialEq, Eq)]
pub struct JavaContext {
    pub cfg: JavaConfig,
    pub conv_map: TypeMap,
    pub rust_code: Vec<String>,
}

/// The mathematical view of [`JavaContext`], which the contracts speak of.
pub struct JavaContextView {
    pub cfg: JavaConfigView,
    pub conv_map: TypeMapView,
    pub rust_code: Seq<Seq<char>>,
}

impl View for JavaContext {
    type V = JavaContextView;

    open spec fn view(&self) -> JavaContextView {
        JavaContextView {
            cfg: self.cfg@,
            conv_map: self.conv_map@,
            rust_code: texts(self.rust_code@),
        }
    }
}

impl JavaContext {
    /// The state at the start of a build: an empty graph and no fragments.
    pub fn new(cfg: JavaConfig) -> (ctx: JavaContext)
        ensures
            ctx@.cfg == cfg@,
            ctx@.conv_map.rust_types.len() == 0,
            ctx@.conv_map.foreign_types.len() == 0,
            ctx@.conv_map.conv_rules.len() == 0,
            ctx@.conv_map.exported_enums.len() == 0,
            ctx@.rust_code.len() == 0,
            crate::typemap::well_formed(ctx@.conv_map),
    {
        JavaContext { cfg, conv_map: TypeMap::new(), rust_code: Vec::new() }
    }

    /// Adds `fragment` after the fragments emitted so far.
    pub fn push_rust_code(&mut self, fragment: String)
        ensures
            final(self)@ == (JavaContextView {
                rust_code: old(self)@.rust_code.push(fragment@),
                ..old(self)@
            }),
    {
        self.rust_code.push(fragment);
        assert(texts(self.rust_code@) =~= texts(old(self).rust_code@).push(fragment@));
    }
}

} // verus!
