//! The semantic model of a project: files, symbols, types, diagnostics, and
//! the tables that tie syntax locations to them.
//!
//! Every type that owns a buffer has a view over `Seq` and `Map`; the types
//! made of integers and booleans alone are their own view.

use std::collections::HashMap;
use vstd::prelude::*;

verus! {

/// A half-open range `[start, end)` of byte offsets in one source file. The
/// file is named by its ordinal in `ProjectResponse::source_files`.
#[derive(Debug, Clone, Copy, PartialEq, Eq, Structural)]
pub struct NodeReference {
    pub sourcefile_id: u32,
    pub start: u32,
    pub end: u32,
}

impl View for NodeReference {
    type V = NodeReference;

    open spec fn view(&self) -> NodeReference {
        *self
    }
}

/// The start and end offsets of a diagnostic.
#[derive(Debug, Clone, Copy, PartialEq, Eq, Structural)]
pub struct Location {
    pub start: u32,
    pub end: u32,
}

impl View for Location {
    type V = Location;

    open spec fn view(&self) -> Location {
        *self
    }
}

/// The module indicators of one source file.
#[derive(Debug, Clone, Copy, PartialEq, Eq, Structural)]
pub struct SourceFileExtra {
    pub has_common_js_module_indicator: bool,
    pub has_external_module_indicator: bool,
}

impl View for SourceFileExtra {
    type V = SourceFileExtra;

    open spec fn view(&self) -> SourceFileExtra {
        *self
    }
}

/// A type: its id, which repeats its key in the type table, and its flags.
#[derive(Debug, Clone, Copy, PartialEq, Eq, Structural)]
pub struct TypeData {
    pub id: u32,
    pub flags: u32,
}

impl View for TypeData {
    type V = TypeData;

    open spec fn view(&self) -> TypeData {
        *self
    }
}

/// The ids of the well-known types.
#[derive(Debug, Clone, Copy, PartialEq, Eq, Structural)]
pub struct PrimTypes {
    pub string: u32,
    pub number: u32,
    pub any: u32,
    pub error: u32,
    pub unknown: u32,
    pub never: u32,
    pub undefined: u32,
    pub null: u32,
    pub void: u32,
    pub bool: u32,
}

impl View for PrimTypes {
    type V = PrimTypes;

    open spec fn view(&self) -> PrimTypes {
        *self
    }
}

impl PrimTypes {
    /// No well-known type has the id zero.
    pub open spec fn all_set(self) -> bool {
        &&& self.string != 0
        &&& self.number != 0
        &&& self.any != 0
        &&& self.error != 0
        &&& self.unknown != 0
        &&& self.never != 0
        &&& self.undefined != 0
        &&& self.null != 0
        &&& self.void != 0
        &&& self.bool != 0
    }
}

/// One signature of a function type: the id of its result type.
#[derive(Debug, Clone, Copy, PartialEq, Eq, Structural)]
pub struct Signature {
    pub result: u32,
}

impl View for Signature {
    type V = Signature;

    open spec fn view(&self) -> Signature {
        *self
    }
}

/// The signatures of a function type.
#[derive(Debug, Clone, PartialEq, Eq)]
pub struct FunctionData {
    pub signatures: Vec<Signature>,
}

pub ghost struct FunctionDataView {
    pub signatures: Seq<Signature>,
}

impl View for FunctionData {
    type V = FunctionDataView;

    open spec fn view(&self) -> FunctionDataView {
        FunctionDataView { signatures: views(self.signatures@) }
    }
}

/// A symbol: its name as raw bytes, which need not be valid text, its kind
/// flags, flags that the type checker keeps for itself and that are not
/// read here, and where it is declared, if anywhere.
#[derive(Debug, Clone, PartialEq, Eq)]
pub struct SymbolData {
    pub name: Vec<u8>,
    pub flags: u32,
    pub check_flags: u32,
    pub decl: Option<NodeReference>,
}

pub ghost struct SymbolDataView {
    pub name: Seq<u8>,
    pub flags: u32,
    pub check_flags: u32,
    pub decl: Option<NodeReference>,
}

impl View for SymbolData {
    type V = SymbolDataView;

    open spec fn view(&self) -> SymbolDataView {
        SymbolDataView {
            name: self.name@,
            flags: self.flags,
            check_flags: self.check_flags,
            decl: self.decl,
        }
    }
}

/// A message of the analysis about one source file.
#[derive(Debug, Clone, PartialEq, Eq)]
pub struct Diagnostic {
    pub message: String,
    pub category: u32,
    pub file: u32,
    pub loc: Location,
}

pub ghost struct DiagnosticView {
    pub message: Seq<char>,
    pub category: u32,
    pub file: u32,
    pub loc: Location,
}

impl View for Diagnostic {
    type V = DiagnosticView;

    open spec fn view(&self) -> DiagnosticView {
        DiagnosticView {
            message: self.message@,
            category: self.category,
            file: self.file,
            loc: self.loc,
        }
    }
}

/// What is known of a type beside its flags, by type id.
#[derive(Debug, Clone, PartialEq, Eq)]
pub struct TypeExtra {
    pub name: HashMap<u32, Vec<u8>>,
    pub func: HashMap<u32, FunctionData>,
}

pub ghost struct TypeExtraView {
    pub name: Map<u32, Seq<u8>>,
    pub func: Map<u32, FunctionDataView>,
}

impl View for TypeExtra {
    type V = TypeExtraView;

    open spec fn view(&self) -> TypeExtraView {
        TypeExtraView {
            name: value_views(self.name@),
            func: value_views(self.func@),
        }
    }
}

/// The views of a list of pairs, one for one.
pub open spec fn pair_views<K: View, V: View>(pairs: Seq<(K, V)>) -> Seq<(K::V, V::V)> {
    Seq::new(pairs.len(), |i: int| (pairs[i].0@, pairs[i].1@))
}

/// The views of the values of an index, key for key.
pub open spec fn value_views<V: View>(index: Map<u32, V>) -> Map<u32, V::V> {
    Map::new(|k: u32| index.contains_key(k), |k: u32| index[k]@)
}

/// The views of a list, one for one.
pub open spec fn views<T: View>(items: Seq<T>) -> Seq<T::V> {
    Seq::new(items.len(), |i: int| items[i]@)
}

/// The cross-reference tables. Each is a list of pairs in the order of the
/// payload; no entry is dropped or moved.
#[derive(Debug, Clone, PartialEq, Eq)]
pub struct Semantic {
    pub symtab: Vec<(u32, SymbolData)>,
    pub typetab: Vec<(u32, TypeData)>,
    pub sym2type: Vec<(u32, u32)>,
    pub node2sym: Vec<(NodeReference, u32)>,
    pub node2type: Vec<(NodeReference, u32)>,
    pub type_extra: TypeExtra,
    pub primtypes: PrimTypes,
    /// Pairs of an alias symbol and the symbol it stands for.
    pub alias_symbols: Vec<(u32, u32)>,
    /// Pairs of a shorthand identifier's location and its value symbol.
    pub shorthand_symbols: Vec<(NodeReference, u32)>,
}

pub ghost struct SemanticView {
    pub symtab: Seq<(u32, SymbolDataView)>,
    pub typetab: Seq<(u32, TypeData)>,
    pub sym2type: Seq<(u32, u32)>,
    pub node2sym: Seq<(NodeReference, u32)>,
    pub node2type: Seq<(NodeReference, u32)>,
    pub type_extra: TypeExtraView,
    pub primtypes: PrimTypes,
    pub alias_symbols: Seq<(u32, u32)>,
    pub shorthand_symbols: Seq<(NodeReference, u32)>,
}

impl View for Semantic {
    type V = SemanticView;

    open spec fn view(&self) -> SemanticView {
        SemanticView {
            symtab: pair_views(self.symtab@),
            typetab: pair_views(self.typetab@),
            sym2type: pair_views(self.sym2type@),
            node2sym: pair_views(self.node2sym@),
            node2type: pair_views(self.node2type@),
            type_extra: self.type_extra@,
            primtypes: self.primtypes,
            alias_symbols: pair_views(self.alias_symbols@),
            shorthand_symbols: pair_views(self.shorthand_symbols@),
        }
    }
}

/// The decoded payload of one analysis run.
#[derive(Debug, Clone, PartialEq, Eq)]
#[non_exhaustive]
pub struct ProjectResponse {
    pub root_files: Vec<String>,
    pub source_files: Vec<Vec<u8>>,
    pub module_list: Vec<String>,
    pub semantic: Semantic,
    pub diagnostics: Vec<Diagnostic>,
    pub source_file_extra: Vec<SourceFileExtra>,
}

pub ghost struct ProjectResponseView {
    pub root_files: Seq<Seq<char>>,
    pub source_files: Seq<Seq<u8>>,
    pub module_list: Seq<Seq<char>>,
    pub semantic: SemanticView,
    pub diagnostics: Seq<DiagnosticView>,
    pub source_file_extra: Seq<SourceFileExtra>,
}

impl View for ProjectResponse {
    type V = ProjectResponseView;

    open spec fn view(&self) -> ProjectResponseView {
        ProjectResponseView {
            root_files: views(self.root_files@),
            source_files: views(self.source_files@),
            module_list: views(self.module_list@),
            semantic: self.semantic@,
            diagnostics: views(self.diagnostics@),
            source_file_extra: views(self.source_file_extra@),
        }
    }
}

/// Whether the first components of `pairs` are pairwise distinct.
pub open spec fn distinct_keys<K, V>(pairs: Seq<(K, V)>) -> bool {
    forall|i: int, j: int| 0 <= i < j < pairs.len() ==> pairs[i].0 != pairs[j].0
}

impl ProjectResponseView {
    /// What a sound payload gives: one entry of extras for each source file,
    /// symbol ids and type ids that each occur once in their table, no symbol
    /// with two types, and well-known types that are all set.
    pub open spec fn well_formed(self) -> bool {
        &&& self.source_files.len() == self.source_file_extra.len()
        &&& distinct_keys(self.semantic.symtab)
        &&& distinct_keys(self.semantic.typetab)
        &&& distinct_keys(self.semantic.sym2type)
        &&& self.semantic.primtypes.all_set()
    }
}

impl SemanticView {
    /// Whether the entry at `i` of the shorthand table is for `location`.
    pub open spec fn shorthand_at(self, location: NodeReference, i: int) -> bool {
        &&& 0 <= i < self.shorthand_symbols.len()
        &&& self.shorthand_symbols[i].0.sourcefile_id == location.sourcefile_id
        &&& self.shorthand_symbols[i].0.start == location.start
        &&& self.shorthand_symbols[i].0.end == location.end
    }

    /// The value symbol of the first entry of the shorthand table that is for
    /// `location`, if there is one.
    pub open spec fn shorthand_value(self, location: NodeReference) -> Option<u32> {
        if exists|i: int| self.shorthand_at(location, i) {
            let first = choose|i: int|
                self.shorthand_at(location, i) && forall|j: int|
                    0 <= j < i ==> !self.shorthand_at(location, j);
            Some(self.shorthand_symbols[first].1)
        } else {
            None
        }
    }
}

/// An entry of the shorthand table is found by its location, unless an
/// earlier entry for the same location names another symbol.
pub proof fn lemma_shorthand_found(semantic: SemanticView, i: int)
    requires
        0 <= i < semantic.shorthand_symbols.len(),
        forall|j: int|
            0 <= j < i && semantic.shorthand_at(semantic.shorthand_symbols[i].0, j)
                ==> semantic.shorthand_symbols[j].1 == semantic.shorthand_symbols[i].1,
    ensures
        semantic.shorthand_value(semantic.shorthand_symbols[i].0) == Some(
            semantic.shorthand_symbols[i].1,
        ),
{
    let location = semantic.shorthand_symbols[i].0;
    assert(semantic.shorthand_at(location, i));
    let least = lemma_first_shorthand(semantic, location, i);
    let first = choose|k: int|
        semantic.shorthand_at(location, k) && forall|j: int|
            0 <= j < k ==> !semantic.shorthand_at(location, j);
    assert(first == least) by {
        if first < least {
            assert(!semantic.shorthand_at(location, first));
        }
        if least < first {
            assert(!semantic.shorthand_at(location, least));
        }
    }
}

/// The first entry for `location`, given that the entry at `i` is for it.
proof fn lemma_first_shorthand(semantic: SemanticView, location: NodeReference, i: int) -> (k: int)
    requires
        semantic.shorthand_at(location, i),
    ensures
        0 <= k <= i,
        semantic.shorthand_at(location, k),
        forall|j: int| 0 <= j < k ==> !semantic.shorthand_at(location, j),
    decreases i,
{
    if exists|j: int| 0 <= j < i && semantic.shorthand_at(location, j) {
        let j = choose|j: int| 0 <= j < i && semantic.shorthand_at(location, j);
        lemma_first_shorthand(semantic, location, j)
    } else {
        i
    }
}

/// A location that no entry of the shorthand table is for is not found; in
/// an empty table no location is found.
pub proof fn lemma_shorthand_not_found(semantic: SemanticView, location: NodeReference)
    requires
        forall|i: int| 0 <= i < semantic.shorthand_symbols.len() ==> (
        #[trigger] semantic.shorthand_symbols[i]).0 != location,
    ensures
        semantic.shorthand_value(location) is None,
{
    assert forall|i: int| !semantic.shorthand_at(location, i) by {
        if semantic.shorthand_at(location, i) {
            assert(semantic.shorthand_symbols[i].0 == location);
        }
    }
}

impl Semantic {
    /// Looks `location` up in the shorthand table: an identifier in a
    /// shorthand property assignment names a property and refers to a value,
    /// and the table gives the symbol of the value. The lookup compares file
    /// and offsets and nothing else; it does not look at the symbol's flags.
    pub fn get_shorthand_assignment_value_symbol(&self, location: &NodeReference) -> (r: Option<
        u32,
    >)
        ensures
            r == self@.shorthand_value(*location),
            r is Some <==> exists|i: int| self@.shorthand_at(*location, i),
    {
        let mut i: usize = 0;
        while i < self.shorthand_symbols.len()
            invariant
                i <= self.shorthand_symbols.len(),
                forall|j: int| 0 <= j < i ==> !self@.shorthand_at(*location, j),
            decreases self.shorthand_symbols.len() - i,
        {
            let entry = &self.shorthand_symbols[i];
            if entry.0.sourcefile_id == location.sourcefile_id && entry.0.start == location.start
                && entry.0.end == location.end {
                proof {
                    let view = self@;
                    let at = i as int;
                    assert(view.shorthand_at(*location, at));
                    let first = choose|k: int|
                        view.shorthand_at(*location, k) && forall|j: int|
                            0 <= j < k ==> !view.shorthand_at(*location, j);
                    assert(first == at) by {
                        if first < at {
                            assert(!view.shorthand_at(*location, first));
                        }
                        if at < first {
                            assert(!view.shorthand_at(*location, at));
                        }
                    }
                }
                return Some(entry.1);
            }
            i += 1;
        }
        None
    }
}

} // verus!
