//! The conversion graph: the native and foreign types that the build knows
//! and the rules that convert between them, as far as the enumeration
//! bindings read and change it.

use vstd::prelude::*;
use crate::definition::{ForeignEnumInfo, ForeignEnumInfoView, SourceLocation};
use crate::error::{foreign_type_conflict, DiagnosticError};
use crate::search::{contains_text, first_position, first_position_from, lemma_first_position_from};
use crate::text::{same_text, texts};

verus! {

/// The position of a native type among the graph's nodes.
pub type RustTypeIdx = usize;

/// A node of the graph: a native type, with the capabilities that it is
/// known to have.
#[derive(Debug, PartialEq, Eq)]
pub struct RustType {
    pub name: String,
    /// The names of the traits that the type implements.
    pub implements: Vec<String>,
}

/// The mathematical view of [`RustType`], which the contracts speak of.
pub struct RustTypeView {
    pub name: Seq<char>,
    pub implements: Seq<Seq<char>>,
}

impl View for RustType {
    type V = RustTypeView;

    open spec fn view(&self) -> RustTypeView {
        RustTypeView { name: self.name@, implements: texts(self.implements@) }
    }
}

/// How values pass between a foreign type and a native one.
#[derive(Debug, PartialEq, Eq)]
pub struct ForeignConversionRule {
    /// The native type at the other end.
    pub rust_ty: RustTypeIdx,
    /// The native type that the values pass through on their way, if any.
    pub intermediate_ty: Option<RustTypeIdx>,
    /// Foreign code that converts between the foreign type and what crosses
    /// the boundary; it names its input and its output by
    /// [`FROM_VAR_TEMPLATE`] and [`TO_VAR_TEMPLATE`].
    pub conv_code: String,
}

/// The mathematical view of [`ForeignConversionRule`], which the contracts speak of.
pub struct ForeignConversionRuleView {
    pub rust_ty: RustTypeIdx,
    pub intermediate_ty: Option<RustTypeIdx>,
    pub conv_code: Seq<char>,
}

impl View for ForeignConversionRule {
    type V = ForeignConversionRuleView;

    open spec fn view(&self) -> ForeignConversionRuleView {
        ForeignConversionRuleView {
            rust_ty: self.rust_ty,
            intermediate_ty: self.intermediate_ty,
            conv_code: self.conv_code@,
        }
    }
}

/// The view of a rule that may be absent.
pub open spec fn rule_view(rule: Option<ForeignConversionRule>) -> Option<
    ForeignConversionRuleView,
> {
    match rule {
        Some(r) => Some(r@),
        None => None,
    }
}

/// A type of the foreign side.
#[derive(Debug, PartialEq, Eq)]
pub struct ForeignType {
    pub name: String,
    /// Where the type was defined.
    pub location: SourceLocation,
    /// How a native value becomes a value of this type.
    pub into_from_rust: Option<ForeignConversionRule>,
    /// How a value of this type becomes a native value.
    pub from_into_rust: Option<ForeignConversionRule>,
}

/// The mathematical view of [`ForeignType`], which the contracts speak of.
pub struct ForeignTypeView {
    pub name: Seq<char>,
    pub location: SourceLocation,
    pub into_from_rust: Option<ForeignConversionRuleView>,
    pub from_into_rust: Option<ForeignConversionRuleView>,
}

impl View for ForeignType {
    type V = ForeignTypeView;

    open spec fn view(&self) -> ForeignTypeView {
        ForeignTypeView {
            name: self.name@,
            location: self.location,
            into_from_rust: rule_view(self.into_from_rust),
            from_into_rust: rule_view(self.from_into_rust),
        }
    }
}

/// A rule that converts values of one native type into values of another.
#[derive(Debug, PartialEq, Eq)]
pub struct ConversionEdge {
    pub from: RustTypeIdx,
    pub to: RustTypeIdx,
    /// Native code that converts; it names its input and its output by
    /// [`FROM_VAR_TEMPLATE`] and [`TO_VAR_TEMPLATE`].
    pub conv_code: String,
}

/// The mathematical view of [`ConversionEdge`], which the contracts speak of.
pub struct ConversionEdgeView {
    pub from: RustTypeIdx,
    pub to: RustTypeIdx,
    pub conv_code: Seq<char>,
}

impl View for ConversionEdge {
    type V = ConversionEdgeView;

    open spec fn view(&self) -> ConversionEdgeView {
        ConversionEdgeView { from: self.from, to: self.to, conv_code: self.conv_code@ }
    }
}

/// What stands for the converted value in a rule's code.
pub const TO_VAR_TEMPLATE: &'static str = "{to_var}";

/// What stands for the value to convert in a rule's code.
pub const FROM_VAR_TEMPLATE: &'static str = "{from_var}";

/// The conversion graph of one build, with the list of the enumerations
/// that the build has processed.
#[derive(Debug, PartialEq, Eq)]
pub struct TypeMap {
    pub rust_types: Vec<RustType>,
    pub foreign_types: Vec<ForeignType>,
    pub conv_rules: Vec<ConversionEdge>,
    pub exported_enums: Vec<ForeignEnumInfo>,
}

/// The mathematical view of [`TypeMap`], which the contracts speak of.
pub struct TypeMapView {
    pub rust_types: Seq<RustTypeView>,
    pub foreign_types: Seq<ForeignTypeView>,
    pub conv_rules: Seq<ConversionEdgeView>,
    pub exported_enums: Seq<ForeignEnumInfoView>,
}

impl View for TypeMap {
    type V = TypeMapView;

    open spec fn view(&self) -> TypeMapView {
        TypeMapView {
            rust_types: Seq::new(self.rust_types@.len(), |i: int| self.rust_types@[i]@),
            foreign_types: Seq::new(self.foreign_types@.len(), |i: int| self.foreign_types@[i]@),
            conv_rules: Seq::new(self.conv_rules@.len(), |i: int| self.conv_rules@[i]@),
            exported_enums: Seq::new(
                self.exported_enums@.len(),
                |i: int| self.exported_enums@[i]@,
            ),
        }
    }
}

/// The names of the native types, in the order of the nodes.
pub open spec fn rust_type_names(map: TypeMapView) -> Seq<Seq<char>> {
    Seq::new(map.rust_types.len(), |i: int| map.rust_types[i].name)
}

/// The names of the foreign types, in the order of their registration.
pub open spec fn foreign_type_names(map: TypeMapView) -> Seq<Seq<char>> {
    Seq::new(map.foreign_types.len(), |i: int| map.foreign_types[i].name)
}

/// The ends of the rules between native types, in the order of the rules.
pub open spec fn rule_ends(map: TypeMapView) -> Seq<(RustTypeIdx, RustTypeIdx)> {
    Seq::new(map.conv_rules.len(), |i: int| (map.conv_rules[i].from, map.conv_rules[i].to))
}

/// Whether a rule of a foreign type refers to nodes of `map` only.
pub open spec fn rule_in_range(map: TypeMapView, rule: Option<ForeignConversionRuleView>) -> bool {
    match rule {
        Some(r) => {
            &&& r.rust_ty < map.rust_types.len()
            &&& match r.intermediate_ty {
                Some(t) => t < map.rust_types.len(),
                None => true,
            }
        },
        None => true,
    }
}

/// The graph is well formed: no two native types share a name, no two
/// foreign types share a name, every rule refers to nodes that exist, and
/// between two native types there is at most one rule in each direction.
pub open spec fn well_formed(map: TypeMapView) -> bool {
    &&& rust_type_names(map).no_duplicates()
    &&& foreign_type_names(map).no_duplicates()
    &&& rule_ends(map).no_duplicates()
    &&& forall|i: int|
        0 <= i < map.foreign_types.len() ==> rule_in_range(
            map,
            (#[trigger] map.foreign_types[i]).into_from_rust,
        ) && rule_in_range(map, map.foreign_types[i].from_into_rust)
    &&& forall|i: int|
        0 <= i < map.conv_rules.len() ==> (#[trigger] map.conv_rules[i]).from
            < map.rust_types.len() && map.conv_rules[i].to < map.rust_types.len()
}

/// The node of the native type `name`, if the graph has one.
pub open spec fn find_rust_type(map: TypeMapView, name: Seq<char>) -> Option<int> {
    first_position(rust_type_names(map), name)
}

/// The node that stands for the native type `name` once it has been looked
/// for or added: its own where it has one, else the next free position.
pub open spec fn rust_type_index(map: TypeMapView, name: Seq<char>) -> int {
    match find_rust_type(map, name) {
        Some(i) => i,
        None => map.rust_types.len() as int,
    }
}

/// The graph with a node for the native type `name`: unchanged where it has
/// one, else with a new node without capabilities at the end.
pub open spec fn with_rust_type(map: TypeMapView, name: Seq<char>) -> TypeMapView {
    match find_rust_type(map, name) {
        Some(_) => map,
        None => TypeMapView {
            rust_types: map.rust_types.push(RustTypeView { name, implements: Seq::empty() }),
            ..map
        },
    }
}

/// The node `node` with the capability `capability`: unchanged where it has
/// it, else with the capability added at the end.
pub open spec fn tagged(node: RustTypeView, capability: Seq<char>) -> RustTypeView {
    if node.implements.contains(capability) {
        node
    } else {
        RustTypeView { implements: node.implements.push(capability), ..node }
    }
}

/// The graph with a node for the native type `name` that has the capability
/// `capability`: the type's own node, tagged, where it has one, else a new
/// node with just that capability at the end.
pub open spec fn with_capable_rust_type(
    map: TypeMapView,
    name: Seq<char>,
    capability: Seq<char>,
) -> TypeMapView {
    match find_rust_type(map, name) {
        Some(i) => TypeMapView {
            rust_types: map.rust_types.update(i, tagged(map.rust_types[i], capability)),
            ..map
        },
        None => TypeMapView {
            rust_types: map.rust_types.push(RustTypeView { name, implements: seq![capability] }),
            ..map
        },
    }
}

/// Whether the graph has a foreign type `name`.
pub open spec fn has_foreign_type(map: TypeMapView, name: Seq<char>) -> bool {
    foreign_type_names(map).contains(name)
}

/// The graph with `ftype` registered after the foreign types it has.
pub open spec fn with_foreign_type(map: TypeMapView, ftype: ForeignTypeView) -> TypeMapView {
    TypeMapView { foreign_types: map.foreign_types.push(ftype), ..map }
}

/// The graph with `fenum` after the enumerations it lists.
pub open spec fn with_exported_enum(map: TypeMapView, fenum: ForeignEnumInfoView) -> TypeMapView {
    TypeMapView { exported_enums: map.exported_enums.push(fenum), ..map }
}

/// The graph with `edge` as the rule between its two ends: in the place of
/// the rule that the graph has between them, or after all rules where it has
/// none.
pub open spec fn with_conversion_rule(map: TypeMapView, edge: ConversionEdgeView) -> TypeMapView {
    match first_position(rule_ends(map), (edge.from, edge.to)) {
        Some(i) => TypeMapView { conv_rules: map.conv_rules.update(i, edge), ..map },
        None => TypeMapView { conv_rules: map.conv_rules.push(edge), ..map },
    }
}

impl TypeMap {
    /// A graph without nodes and rules.
    pub fn new() -> (map: TypeMap)
        ensures
            map@.rust_types.len() == 0,
            map@.foreign_types.len() == 0,
            map@.conv_rules.len() == 0,
            map@.exported_enums.len() == 0,
            well_formed(map@),
    {
        TypeMap {
            rust_types: Vec::new(),
            foreign_types: Vec::new(),
            conv_rules: Vec::new(),
            exported_enums: Vec::new(),
        }
    }

    /// Looks for the node of the native type `name`.
    pub fn find_rust_type(&self, name: &str) -> (found: Option<RustTypeIdx>)
        ensures
            match found {
                Some(i) => i < self@.rust_types.len() && find_rust_type(self@, name@) == Some(
                    i as int,
                ),
                None => find_rust_type(self@, name@) is None,
            },
    {
        let ghost names = rust_type_names(self@);
        let mut i: usize = 0;
        while i < self.rust_types.len()
            invariant
                i <= self.rust_types.len(),
                names == rust_type_names(self@),
                first_position(names, name@) == first_position_from(names, name@, i as int),
            decreases self.rust_types.len() - i,
        {
            if same_text(self.rust_types[i].name.as_str(), name) {
                return Some(i);
            }
            i += 1;
        }
        None
    }

    /// The node of the native type `name`; a new one is made where the graph
    /// has none.
    pub fn find_or_alloc_rust_type(&mut self, name: &str) -> (idx: RustTypeIdx)
        ensures
            final(self)@ == with_rust_type(old(self)@, name@),
            idx == rust_type_index(old(self)@, name@),
            idx < final(self)@.rust_types.len(),
            old(self)@.rust_types.len() <= final(self)@.rust_types.len(),
            well_formed(old(self)@) ==> well_formed(final(self)@),
    {
        match self.find_rust_type(name) {
            Some(i) => i,
            None => {
                let idx = self.rust_types.len();
                let fresh = RustType { name: name.to_owned(), implements: Vec::new() };
                let ghost node = RustTypeView { name: name@, implements: Seq::empty() };
                assert(fresh@.implements =~= node.implements);
                self.rust_types.push(fresh);
                proof {
                    assert(self@.rust_types =~= old(self)@.rust_types.push(node));
                    assert(self@.foreign_types =~= old(self)@.foreign_types);
                    assert(self@.conv_rules =~= old(self)@.conv_rules);
                    assert(self@.exported_enums =~= old(self)@.exported_enums);
                    lemma_new_node_keeps_graph(old(self)@, node);
                }
                idx
            },
        }
    }

    /// The node of the native type `name`, tagged with `capability`; a new
    /// node is made where the graph has none.
    pub fn find_or_alloc_rust_type_that_implements(&mut self, name: &str, capability: &str) -> (idx:
        RustTypeIdx)
        ensures
            final(self)@ == with_capable_rust_type(old(self)@, name@, capability@),
            idx == rust_type_index(old(self)@, name@),
            idx < final(self)@.rust_types.len(),
            old(self)@.rust_types.len() <= final(self)@.rust_types.len(),
            well_formed(old(self)@) ==> well_formed(final(self)@),
    {
        match self.find_rust_type(name) {
            Some(i) => {
                let ghost before = self.rust_types@[i as int]@;
                if !contains_text(&self.rust_types[i].implements, capability) {
                    self.rust_types[i].implements.push(capability.to_owned());
                    assert(self.rust_types@[i as int]@.implements =~= before.implements.push(
                        capability@,
                    ));
                }
                proof {
                    let node = tagged(before, capability@);
                    assert(self@.rust_types =~= old(self)@.rust_types.update(i as int, node));
                    assert(self@.foreign_types =~= old(self)@.foreign_types);
                    assert(self@.conv_rules =~= old(self)@.conv_rules);
                    assert(self@.exported_enums =~= old(self)@.exported_enums);
                    lemma_tagged_node_keeps_graph(old(self)@, i as int, capability@);
                }
                i
            },
            None => {
                let idx = self.rust_types.len();
                let mut implements: Vec<String> = Vec::new();
                implements.push(capability.to_owned());
                let fresh = RustType { name: name.to_owned(), implements };
                let ghost node = RustTypeView { name: name@, implements: seq![capability@] };
                assert(fresh@.implements =~= node.implements);
                self.rust_types.push(fresh);
                proof {
                    assert(self@.rust_types =~= old(self)@.rust_types.push(node));
                    assert(self@.foreign_types =~= old(self)@.foreign_types);
                    assert(self@.conv_rules =~= old(self)@.conv_rules);
                    assert(self@.exported_enums =~= old(self)@.exported_enums);
                    lemma_new_node_keeps_graph(old(self)@, node);
                }
                idx
            },
        }
    }

    /// Whether a foreign type `name` is registered.
    pub fn has_foreign_type(&self, name: &str) -> (found: bool)
        ensures
            found == has_foreign_type(self@, name@),
    {
        let mut i: usize = 0;
        while i < self.foreign_types.len()
            invariant
                i <= self.foreign_types.len(),
                forall|j: int| 0 <= j < i ==> foreign_type_names(self@)[j] != name@,
            decreases self.foreign_types.len() - i,
        {
            if same_text(self.foreign_types[i].name.as_str(), name) {
                assert(foreign_type_names(self@)[i as int] == name@);
                return true;
            }
            i += 1;
        }
        false
    }

    /// Registers the foreign type `ftype`. A name can be registered once: a
    /// second type of the same name is refused with a diagnostic at its own
    /// place of definition, and the graph stays as it is.
    pub fn alloc_foreign_type(&mut self, ftype: ForeignType) -> (registered: Result<
        usize,
        DiagnosticError,
    >)
        ensures
            registered is Err <==> has_foreign_type(old(self)@, ftype@.name),
            registered matches Err(e) ==> e@ == foreign_type_conflict(
                ftype@.location,
                ftype@.name,
            ) && final(self)@ == old(self)@,
            registered matches Ok(position) ==> position == old(self)@.foreign_types.len()
                && final(self)@ == with_foreign_type(old(self)@, ftype@),
            well_formed(old(self)@) && rule_in_range(old(self)@, ftype@.into_from_rust)
                && rule_in_range(old(self)@, ftype@.from_into_rust) ==> well_formed(
                final(self)@,
            ),
    {
        if self.has_foreign_type(ftype.name.as_str()) {
            return Err(DiagnosticError::foreign_type_conflict(ftype.location, ftype.name.as_str()));
        }
        let position = self.foreign_types.len();
        let ghost added = ftype@;
        self.foreign_types.push(ftype);
        proof {
            assert(self@.rust_types =~= old(self)@.rust_types);
            assert(self@.foreign_types =~= old(self)@.foreign_types.push(added));
            assert(self@.conv_rules =~= old(self)@.conv_rules);
            assert(self@.exported_enums =~= old(self)@.exported_enums);
            lemma_new_foreign_type_keeps_graph(old(self)@, added);
        }
        Ok(position)
    }

    /// Puts `fenum` on the list of the enumerations that the build has
    /// processed.
    pub fn register_exported_enum(&mut self, fenum: &ForeignEnumInfo)
        ensures
            final(self)@ == with_exported_enum(old(self)@, fenum@),
            well_formed(old(self)@) ==> well_formed(final(self)@),
    {
        self.exported_enums.push(fenum.duplicate());
        proof {
            assert(self@.rust_types =~= old(self)@.rust_types);
            assert(self@.foreign_types =~= old(self)@.foreign_types);
            assert(self@.conv_rules =~= old(self)@.conv_rules);
            assert(self@.exported_enums =~= old(self)@.exported_enums.push(fenum@));
            let after = with_exported_enum(old(self)@, fenum@);
            assert(rust_type_names(after) =~= rust_type_names(old(self)@));
            assert(foreign_type_names(after) =~= foreign_type_names(old(self)@));
            assert(rule_ends(after) =~= rule_ends(old(self)@));
        }
    }

    /// Looks for the rule from `from` to `to`.
    pub fn find_conversion_rule(&self, from: RustTypeIdx, to: RustTypeIdx) -> (found: Option<usize>)
        ensures
            match found {
                Some(i) => i < self@.conv_rules.len() && first_position(
                    rule_ends(self@),
                    (from, to),
                ) == Some(i as int),
                None => first_position(rule_ends(self@), (from, to)) is None,
            },
    {
        let ghost ends = rule_ends(self@);
        let mut i: usize = 0;
        while i < self.conv_rules.len()
            invariant
                i <= self.conv_rules.len(),
                ends == rule_ends(self@),
                first_position(ends, (from, to)) == first_position_from(ends, (from, to), i as int),
            decreases self.conv_rules.len() - i,
        {
            if self.conv_rules[i].from == from && self.conv_rules[i].to == to {
                return Some(i);
            }
            i += 1;
        }
        None
    }

    /// Makes `edge` the rule between its two ends: it takes the place of the
    /// rule that the graph has between them, or is added as a new one.
    pub fn add_conversion_rule(&mut self, edge: ConversionEdge)
        ensures
            final(self)@ == with_conversion_rule(old(self)@, edge@),
            well_formed(old(self)@) && edge.from < old(self)@.rust_types.len() && edge.to < old(
                self,
            )@.rust_types.len() ==> well_formed(final(self)@),
    {
        let ghost added = edge@;
        match self.find_conversion_rule(edge.from, edge.to) {
            Some(i) => {
                self.conv_rules.set(i, edge);
                proof {
                    assert(self@.conv_rules =~= old(self)@.conv_rules.update(i as int, added));
                }
            },
            None => {
                self.conv_rules.push(edge);
                proof {
                    assert(self@.conv_rules =~= old(self)@.conv_rules.push(added));
                }
            },
        }
        proof {
            assert(self@.rust_types =~= old(self)@.rust_types);
            assert(self@.foreign_types =~= old(self)@.foreign_types);
            assert(self@.exported_enums =~= old(self)@.exported_enums);
            lemma_rule_keeps_graph(old(self)@, added);
        }
    }
}

/// Tagging a node keeps a well-formed graph well formed.
proof fn lemma_tagged_node_keeps_graph(map: TypeMapView, i: int, capability: Seq<char>)
    requires
        0 <= i < map.rust_types.len(),
    ensures
        well_formed(map) ==> well_formed(
            TypeMapView {
                rust_types: map.rust_types.update(i, tagged(map.rust_types[i], capability)),
                ..map
            },
        ),
{
    let after = TypeMapView {
        rust_types: map.rust_types.update(i, tagged(map.rust_types[i], capability)),
        ..map
    };
    if well_formed(map) {
        assert(rust_type_names(after) =~= rust_type_names(map));
        assert(foreign_type_names(after) =~= foreign_type_names(map));
        assert(rule_ends(after) =~= rule_ends(map));
        assert forall|k: int| 0 <= k < after.foreign_types.len() implies rule_in_range(
            after,
            (#[trigger] after.foreign_types[k]).into_from_rust,
        ) && rule_in_range(after, after.foreign_types[k].from_into_rust) by {
            assert(rule_in_range(map, map.foreign_types[k].into_from_rust));
            assert(rule_in_range(map, map.foreign_types[k].from_into_rust));
        }
    }
}

/// Registering a foreign type whose name is new and whose rules refer to
/// nodes of the graph keeps a well-formed graph well formed.
proof fn lemma_new_foreign_type_keeps_graph(map: TypeMapView, ftype: ForeignTypeView)
    requires
        !has_foreign_type(map, ftype.name),
    ensures
        well_formed(map) && rule_in_range(map, ftype.into_from_rust) && rule_in_range(
            map,
            ftype.from_into_rust,
        ) ==> well_formed(with_foreign_type(map, ftype)),
{
    let after = with_foreign_type(map, ftype);
    if well_formed(map) && rule_in_range(map, ftype.into_from_rust) && rule_in_range(
        map,
        ftype.from_into_rust,
    ) {
        assert(rust_type_names(after) =~= rust_type_names(map));
        assert(foreign_type_names(after) =~= foreign_type_names(map).push(ftype.name));
        assert(rule_ends(after) =~= rule_ends(map));
        assert forall|k: int| 0 <= k < after.foreign_types.len() implies rule_in_range(
            after,
            (#[trigger] after.foreign_types[k]).into_from_rust,
        ) && rule_in_range(after, after.foreign_types[k].from_into_rust) by {
            if k < map.foreign_types.len() {
                assert(rule_in_range(map, map.foreign_types[k].into_from_rust));
                assert(rule_in_range(map, map.foreign_types[k].from_into_rust));
            }
        }
    }
}

/// Setting the rule between two nodes of the graph keeps a well-formed graph
/// well formed.
proof fn lemma_rule_keeps_graph(map: TypeMapView, edge: ConversionEdgeView)
    ensures
        well_formed(map) && edge.from < map.rust_types.len() && edge.to < map.rust_types.len()
            ==> well_formed(with_conversion_rule(map, edge)),
{
    let after = with_conversion_rule(map, edge);
    if well_formed(map) && edge.from < map.rust_types.len() && edge.to < map.rust_types.len() {
        lemma_first_position_from(rule_ends(map), (edge.from, edge.to), 0);
        assert(rust_type_names(after) =~= rust_type_names(map));
        assert(foreign_type_names(after) =~= foreign_type_names(map));
        match first_position(rule_ends(map), (edge.from, edge.to)) {
            Some(i) => {
                assert(rule_ends(after) =~= rule_ends(map));
            },
            None => {
                assert(rule_ends(after) =~= rule_ends(map).push((edge.from, edge.to)));
            },
        }
        assert forall|k: int| 0 <= k < after.foreign_types.len() implies rule_in_range(
            after,
            (#[trigger] after.foreign_types[k]).into_from_rust,
        ) && rule_in_range(after, after.foreign_types[k].from_into_rust) by {
            assert(rule_in_range(map, map.foreign_types[k].into_from_rust));
            assert(rule_in_range(map, map.foreign_types[k].from_into_rust));
        }
    }
}

/// Looking for a native type or adding it never moves a node: the nodes
/// that the graph had stay where they were and as they were, and the node at
/// [`rust_type_index`] bears the name that was looked for.
pub proof fn lemma_with_rust_type(map: TypeMapView, name: Seq<char>)
    ensures
        map.rust_types.len() <= with_rust_type(map, name).rust_types.len()
            <= map.rust_types.len() + 1,
        forall|i: int|
            0 <= i < map.rust_types.len() ==> #[trigger] with_rust_type(map, name).rust_types[i]
                == map.rust_types[i],
        0 <= rust_type_index(map, name) < with_rust_type(map, name).rust_types.len(),
        with_rust_type(map, name).rust_types[rust_type_index(map, name)].name == name,
        with_rust_type(map, name).foreign_types == map.foreign_types,
        with_rust_type(map, name).conv_rules == map.conv_rules,
        with_rust_type(map, name).exported_enums == map.exported_enums,
{
    lemma_first_position_from(rust_type_names(map), name, 0);
}

/// Tagging a native type never moves a node: every node keeps its place and
/// its name, every node but the tagged one stays as it was, and the node at
/// [`rust_type_index`] bears the name that was looked for and has the
/// capability.
pub proof fn lemma_with_capable_rust_type(
    map: TypeMapView,
    name: Seq<char>,
    capability: Seq<char>,
)
    ensures
        map.rust_types.len() <= with_capable_rust_type(map, name, capability).rust_types.len()
            <= map.rust_types.len() + 1,
        forall|i: int|
            0 <= i < map.rust_types.len() ==> (#[trigger] with_capable_rust_type(
                map,
                name,
                capability,
            ).rust_types[i]).name == map.rust_types[i].name,
        forall|i: int|
            0 <= i < map.rust_types.len() && i != rust_type_index(map, name)
                ==> #[trigger] with_capable_rust_type(map, name, capability).rust_types[i]
                == map.rust_types[i],
        0 <= rust_type_index(map, name) < with_capable_rust_type(
            map,
            name,
            capability,
        ).rust_types.len(),
        with_capable_rust_type(map, name, capability).rust_types[rust_type_index(
            map,
            name,
        )].name == name,
        with_capable_rust_type(map, name, capability).rust_types[rust_type_index(
            map,
            name,
        )].implements.contains(capability),
        with_capable_rust_type(map, name, capability).foreign_types == map.foreign_types,
        with_capable_rust_type(map, name, capability).conv_rules == map.conv_rules,
        with_capable_rust_type(map, name, capability).exported_enums == map.exported_enums,
{
    lemma_first_position_from(rust_type_names(map), name, 0);
    match find_rust_type(map, name) {
        Some(i) => {
            let node = tagged(map.rust_types[i], capability);
            if !map.rust_types[i].implements.contains(capability) {
                assert(node.implements.last() == capability);
            }
        },
        None => {
            assert(seq![capability][0] == capability);
        },
    }
}

/// After a rule has been set, the graph has it: at the position where
/// [`first_position`] finds its ends stands the rule itself. Every other
/// rule is as it was, and nothing else of the graph has changed.
pub proof fn lemma_with_conversion_rule(map: TypeMapView, edge: ConversionEdgeView)
    ensures
        first_position(rule_ends(with_conversion_rule(map, edge)), (edge.from, edge.to))
            matches Some(i) && 0 <= i < with_conversion_rule(map, edge).conv_rules.len()
            && with_conversion_rule(map, edge).conv_rules[i] == edge,
        map.conv_rules.len() <= with_conversion_rule(map, edge).conv_rules.len(),
        forall|i: int|
            0 <= i < map.conv_rules.len() && (map.conv_rules[i].from, map.conv_rules[i].to) != (
                edge.from,
                edge.to,
            ) ==> #[trigger] with_conversion_rule(map, edge).conv_rules[i] == map.conv_rules[i],
        with_conversion_rule(map, edge).rust_types == map.rust_types,
        with_conversion_rule(map, edge).foreign_types == map.foreign_types,
        with_conversion_rule(map, edge).exported_enums == map.exported_enums,
{
    let ends = (edge.from, edge.to);
    let after = with_conversion_rule(map, edge);
    lemma_first_position_from(rule_ends(map), ends, 0);
    match first_position(rule_ends(map), ends) {
        Some(i) => {
            assert(rule_ends(after) =~= rule_ends(map));
        },
        None => {
            let n = map.conv_rules.len() as int;
            assert(rule_ends(after) =~= rule_ends(map).push(ends));
            crate::search::lemma_first_position_is(rule_ends(after), ends, n);
        },
    }
}

/// Adding a node whose name is new keeps a well-formed graph well formed.
proof fn lemma_new_node_keeps_graph(map: TypeMapView, node: RustTypeView)
    requires
        find_rust_type(map, node.name) is None,
    ensures
        well_formed(map) ==> well_formed(
            TypeMapView { rust_types: map.rust_types.push(node), ..map },
        ),
{
    let after = TypeMapView { rust_types: map.rust_types.push(node), ..map };
    if well_formed(map) {
        lemma_first_position_from(rust_type_names(map), node.name, 0);
        assert(rust_type_names(after) =~= rust_type_names(map).push(node.name));
        assert(foreign_type_names(after) =~= foreign_type_names(map));
        assert(rule_ends(after) =~= rule_ends(map));
        assert forall|i: int| 0 <= i < after.foreign_types.len() implies rule_in_range(
            after,
            (#[trigger] after.foreign_types[i]).into_from_rust,
        ) && rule_in_range(after, after.foreign_types[i].from_into_rust) by {
            assert(rule_in_range(map, map.foreign_types[i].into_from_rust));
            assert(rule_in_range(map, map.foreign_types[i].from_into_rust));
        }
    }
}

} // verus!
