//! How each type of the model is read from a record of the payload.
//!
//! The fields of a record are decoded in the order in which the type
//! declares them, and the first one that fails gives the record's error.

use crate::cbor::{Doc, Item};
use crate::decode::{
    as_record, entries_decoded, field, lemma_list_keeps_order, lemma_table_keeps_order,
    list_decoded, optional_as, optional_table, read_field, read_index, read_list, read_optional,
    read_optional_table, read_table, record, required, required_as, required_index,
    required_list, required_table, table_decoded, text_keys, FromItem, ShapeError,
};
use crate::proto::{
    distinct_keys, lemma_shorthand_not_found, Diagnostic,
    DiagnosticView, FunctionData, FunctionDataView, Location, NodeReference, PrimTypes,
    ProjectResponse, ProjectResponseView, Semantic, SemanticView, Signature, SourceFileExtra,
    SymbolData, SymbolDataView, TypeData, TypeExtra, TypeExtraView,
};
use vstd::prelude::*;

verus! {

impl FromItem for NodeReference {
    open spec fn decoded(doc: Doc) -> Result<NodeReference, ShapeError> {
        match record(doc) {
            Err(e) => Err(e),
            Ok(fields) => {
                let sourcefile_id = required_as::<u32>(fields, "sourcefile_id");
                let start = required_as::<u32>(fields, "start");
                let end = required_as::<u32>(fields, "end");
                if sourcefile_id is Err {
                    Err(sourcefile_id->Err_0)
                } else if start is Err {
                    Err(start->Err_0)
                } else if end is Err {
                    Err(end->Err_0)
                } else {
                    Ok(
                        NodeReference {
                            sourcefile_id: sourcefile_id->Ok_0,
                            start: start->Ok_0,
                            end: end->Ok_0,
                        },
                    )
                }
            },
        }
    }

    fn from_item(item: &Item) -> (r: Result<NodeReference, ShapeError>) {
        let fields = as_record(item)?;
        let sourcefile_id = read_field::<u32>(fields, "sourcefile_id")?;
        let start = read_field::<u32>(fields, "start")?;
        let end = read_field::<u32>(fields, "end")?;
        Ok(NodeReference { sourcefile_id, start, end })
    }
}

impl FromItem for Location {
    open spec fn decoded(doc: Doc) -> Result<Location, ShapeError> {
        match record(doc) {
            Err(e) => Err(e),
            Ok(fields) => {
                let start = required_as::<u32>(fields, "start");
                let end = required_as::<u32>(fields, "end");
                if start is Err {
                    Err(start->Err_0)
                } else if end is Err {
                    Err(end->Err_0)
                } else {
                    Ok(
                        Location {
                            start: start->Ok_0,
                            end: end->Ok_0,
                        },
                    )
                }
            },
        }
    }

    fn from_item(item: &Item) -> (r: Result<Location, ShapeError>) {
        let fields = as_record(item)?;
        let start = read_field::<u32>(fields, "start")?;
        let end = read_field::<u32>(fields, "end")?;
        Ok(Location { start, end })
    }
}

impl FromItem for SourceFileExtra {
    open spec fn decoded(doc: Doc) -> Result<SourceFileExtra, ShapeError> {
        match record(doc) {
            Err(e) => Err(e),
            Ok(fields) => {
                let has_common_js_module_indicator = required_as::<bool>(
                    fields,
                    "has_common_js_module_indicator",
                );
                let has_external_module_indicator = required_as::<bool>(
                    fields,
                    "has_external_module_indicator",
                );
                if has_common_js_module_indicator is Err {
                    Err(has_common_js_module_indicator->Err_0)
                } else if has_external_module_indicator is Err {
                    Err(has_external_module_indicator->Err_0)
                } else {
                    Ok(
                        SourceFileExtra {
                            has_common_js_module_indicator: has_common_js_module_indicator->Ok_0,
                            has_external_module_indicator: has_external_module_indicator->Ok_0,
                        },
                    )
                }
            },
        }
    }

    fn from_item(item: &Item) -> (r: Result<SourceFileExtra, ShapeError>) {
        let fields = as_record(item)?;
        let has_common_js_module_indicator = read_field::<bool>(
            fields,
            "has_common_js_module_indicator",
        )?;
        let has_external_module_indicator = read_field::<bool>(
            fields,
            "has_external_module_indicator",
        )?;
        Ok(SourceFileExtra { has_common_js_module_indicator, has_external_module_indicator })
    }
}

impl FromItem for TypeData {
    open spec fn decoded(doc: Doc) -> Result<TypeData, ShapeError> {
        match record(doc) {
            Err(e) => Err(e),
            Ok(fields) => {
                let id = required_as::<u32>(fields, "id");
                let flags = required_as::<u32>(fields, "flags");
                if id is Err {
                    Err(id->Err_0)
                } else if flags is Err {
                    Err(flags->Err_0)
                } else {
                    Ok(
                        TypeData {
                            id: id->Ok_0,
                            flags: flags->Ok_0,
                        },
                    )
                }
            },
        }
    }

    fn from_item(item: &Item) -> (r: Result<TypeData, ShapeError>) {
        let fields = as_record(item)?;
        let id = read_field::<u32>(fields, "id")?;
        let flags = read_field::<u32>(fields, "flags")?;
        Ok(TypeData { id, flags })
    }
}

impl FromItem for PrimTypes {
    open spec fn decoded(doc: Doc) -> Result<PrimTypes, ShapeError> {
        match record(doc) {
            Err(e) => Err(e),
            Ok(fields) => {
                let string = required_as::<u32>(fields, "string");
                let number = required_as::<u32>(fields, "number");
                let any = required_as::<u32>(fields, "any");
                let error = required_as::<u32>(fields, "error");
                let unknown = required_as::<u32>(fields, "unknown");
                let never = required_as::<u32>(fields, "never");
                let undefined = required_as::<u32>(fields, "undefined");
                let null = required_as::<u32>(fields, "null");
                let void = required_as::<u32>(fields, "void");
                let bool = required_as::<u32>(fields, "bool");
                if string is Err {
                    Err(string->Err_0)
                } else if number is Err {
                    Err(number->Err_0)
                } else if any is Err {
                    Err(any->Err_0)
                } else if error is Err {
                    Err(error->Err_0)
                } else if unknown is Err {
                    Err(unknown->Err_0)
                } else if never is Err {
                    Err(never->Err_0)
                } else if undefined is Err {
                    Err(undefined->Err_0)
                } else if null is Err {
                    Err(null->Err_0)
                } else if void is Err {
                    Err(void->Err_0)
                } else if bool is Err {
                    Err(bool->Err_0)
                } else {
                    Ok(
                        PrimTypes {
                            string: string->Ok_0,
                            number: number->Ok_0,
                            any: any->Ok_0,
                            error: error->Ok_0,
                            unknown: unknown->Ok_0,
                            never: never->Ok_0,
                            undefined: undefined->Ok_0,
                            null: null->Ok_0,
                            void: void->Ok_0,
                            bool: bool->Ok_0,
                        },
                    )
                }
            },
        }
    }

    fn from_item(item: &Item) -> (r: Result<PrimTypes, ShapeError>) {
        let fields = as_record(item)?;
        let string = read_field::<u32>(fields, "string")?;
        let number = read_field::<u32>(fields, "number")?;
        let any = read_field::<u32>(fields, "any")?;
        let error = read_field::<u32>(fields, "error")?;
        let unknown = read_field::<u32>(fields, "unknown")?;
        let never = read_field::<u32>(fields, "never")?;
        let undefined = read_field::<u32>(fields, "undefined")?;
        let null = read_field::<u32>(fields, "null")?;
        let void = read_field::<u32>(fields, "void")?;
        let bool = read_field::<u32>(fields, "bool")?;
        Ok(PrimTypes { string, number, any, error, unknown, never, undefined, null, void, bool })
    }
}

impl FromItem for Signature {
    open spec fn decoded(doc: Doc) -> Result<Signature, ShapeError> {
        match record(doc) {
            Err(e) => Err(e),
            Ok(fields) => {
                let result = required_as::<u32>(fields, "result");
                if result is Err {
                    Err(result->Err_0)
                } else {
                    Ok(
                        Signature {
                            result: result->Ok_0,
                        },
                    )
                }
            },
        }
    }

    fn from_item(item: &Item) -> (r: Result<Signature, ShapeError>) {
        let fields = as_record(item)?;
        let result = read_field::<u32>(fields, "result")?;
        Ok(Signature { result })
    }
}

impl FromItem for FunctionData {
    open spec fn decoded(doc: Doc) -> Result<FunctionDataView, ShapeError> {
        match record(doc) {
            Err(e) => Err(e),
            Ok(fields) => {
                let signatures = required_list::<Signature>(fields, "signatures");
                if signatures is Err {
                    Err(signatures->Err_0)
                } else {
                    Ok(
                        FunctionDataView {
                            signatures: signatures->Ok_0,
                        },
                    )
                }
            },
        }
    }

    fn from_item(item: &Item) -> (r: Result<FunctionData, ShapeError>) {
        let fields = as_record(item)?;
        let signatures = read_list::<Signature>(fields, "signatures")?;
        Ok(FunctionData { signatures })
    }
}

impl FromItem for SymbolData {
    open spec fn decoded(doc: Doc) -> Result<SymbolDataView, ShapeError> {
        match record(doc) {
            Err(e) => Err(e),
            Ok(fields) => {
                let name = required_as::<Vec<u8>>(fields, "name");
                let flags = required_as::<u32>(fields, "flags");
                let check_flags = required_as::<u32>(fields, "check_flags");
                let decl = optional_as::<NodeReference>(fields, "decl");
                if name is Err {
                    Err(name->Err_0)
                } else if flags is Err {
                    Err(flags->Err_0)
                } else if check_flags is Err {
                    Err(check_flags->Err_0)
                } else if decl is Err {
                    Err(decl->Err_0)
                } else {
                    Ok(
                        SymbolDataView {
                            name: name->Ok_0,
                            flags: flags->Ok_0,
                            check_flags: check_flags->Ok_0,
                            decl: decl->Ok_0,
                        },
                    )
                }
            },
        }
    }

    fn from_item(item: &Item) -> (r: Result<SymbolData, ShapeError>) {
        let fields = as_record(item)?;
        let name = read_field::<Vec<u8>>(fields, "name")?;
        let flags = read_field::<u32>(fields, "flags")?;
        let check_flags = read_field::<u32>(fields, "check_flags")?;
        let decl = read_optional::<NodeReference>(fields, "decl")?;
        Ok(SymbolData { name, flags, check_flags, decl })
    }
}

impl FromItem for Diagnostic {
    open spec fn decoded(doc: Doc) -> Result<DiagnosticView, ShapeError> {
        match record(doc) {
            Err(e) => Err(e),
            Ok(fields) => {
                let message = required_as::<String>(fields, "message");
                let category = required_as::<u32>(fields, "category");
                let file = required_as::<u32>(fields, "file");
                let loc = required_as::<Location>(fields, "loc");
                if message is Err {
                    Err(message->Err_0)
                } else if category is Err {
                    Err(category->Err_0)
                } else if file is Err {
                    Err(file->Err_0)
                } else if loc is Err {
                    Err(loc->Err_0)
                } else {
                    Ok(
                        DiagnosticView {
                            message: message->Ok_0,
                            category: category->Ok_0,
                            file: file->Ok_0,
                            loc: loc->Ok_0,
                        },
                    )
                }
            },
        }
    }

    fn from_item(item: &Item) -> (r: Result<Diagnostic, ShapeError>) {
        let fields = as_record(item)?;
        let message = read_field::<String>(fields, "message")?;
        let category = read_field::<u32>(fields, "category")?;
        let file = read_field::<u32>(fields, "file")?;
        let loc = read_field::<Location>(fields, "loc")?;
        Ok(Diagnostic { message, category, file, loc })
    }
}

impl FromItem for TypeExtra {
    open spec fn decoded(doc: Doc) -> Result<TypeExtraView, ShapeError> {
        match record(doc) {
            Err(e) => Err(e),
            Ok(fields) => {
                let name = required_index::<Vec<u8>>(fields, "name");
                let func = required_index::<FunctionData>(fields, "func");
                if name is Err {
                    Err(name->Err_0)
                } else if func is Err {
                    Err(func->Err_0)
                } else {
                    Ok(
                        TypeExtraView {
                            name: name->Ok_0,
                            func: func->Ok_0,
                        },
                    )
                }
            },
        }
    }

    fn from_item(item: &Item) -> (r: Result<TypeExtra, ShapeError>) {
        let fields = as_record(item)?;
        let name = read_index::<Vec<u8>>(fields, "name")?;
        let func = read_index::<FunctionData>(fields, "func")?;
        Ok(TypeExtra { name, func })
    }
}

impl FromItem for Semantic {
    open spec fn decoded(doc: Doc) -> Result<SemanticView, ShapeError> {
        match record(doc) {
            Err(e) => Err(e),
            Ok(fields) => {
                let symtab = required_table::<u32, SymbolData>(fields, "symtab");
                let typetab = required_table::<u32, TypeData>(fields, "typetab");
                let sym2type = required_table::<u32, u32>(fields, "sym2type");
                let node2sym = required_table::<NodeReference, u32>(fields, "node2sym");
                let node2type = required_table::<NodeReference, u32>(fields, "node2type");
                let type_extra = required_as::<TypeExtra>(fields, "type_extra");
                let primtypes = required_as::<PrimTypes>(fields, "primtypes");
                let alias_symbols = optional_table::<u32, u32>(fields, "alias_symbols");
                let shorthand_symbols = optional_table::<NodeReference, u32>(
                    fields,
                    "shorthand_symbols",
                );
                if symtab is Err {
                    Err(symtab->Err_0)
                } else if typetab is Err {
                    Err(typetab->Err_0)
                } else if sym2type is Err {
                    Err(sym2type->Err_0)
                } else if node2sym is Err {
                    Err(node2sym->Err_0)
                } else if node2type is Err {
                    Err(node2type->Err_0)
                } else if type_extra is Err {
                    Err(type_extra->Err_0)
                } else if primtypes is Err {
                    Err(primtypes->Err_0)
                } else if alias_symbols is Err {
                    Err(alias_symbols->Err_0)
                } else if shorthand_symbols is Err {
                    Err(shorthand_symbols->Err_0)
                } else {
                    Ok(
                        SemanticView {
                            symtab: symtab->Ok_0,
                            typetab: typetab->Ok_0,
                            sym2type: sym2type->Ok_0,
                            node2sym: node2sym->Ok_0,
                            node2type: node2type->Ok_0,
                            type_extra: type_extra->Ok_0,
                            primtypes: primtypes->Ok_0,
                            alias_symbols: alias_symbols->Ok_0,
                            shorthand_symbols: shorthand_symbols->Ok_0,
                        },
                    )
                }
            },
        }
    }

    fn from_item(item: &Item) -> (r: Result<Semantic, ShapeError>) {
        let fields = as_record(item)?;
        let symtab = read_table::<u32, SymbolData>(fields, "symtab")?;
        let typetab = read_table::<u32, TypeData>(fields, "typetab")?;
        let sym2type = read_table::<u32, u32>(fields, "sym2type")?;
        let node2sym = read_table::<NodeReference, u32>(fields, "node2sym")?;
        let node2type = read_table::<NodeReference, u32>(fields, "node2type")?;
        let type_extra = read_field::<TypeExtra>(fields, "type_extra")?;
        let primtypes = read_field::<PrimTypes>(fields, "primtypes")?;
        let alias_symbols = read_optional_table::<u32, u32>(fields, "alias_symbols")?;
        let shorthand_symbols = read_optional_table::<NodeReference, u32>(
            fields,
            "shorthand_symbols",
        )?;
        Ok(
            Semantic {
                symtab,
                typetab,
                sym2type,
                node2sym,
                node2type,
                type_extra,
                primtypes,
                alias_symbols,
                shorthand_symbols,
            },
        )
    }
}

impl FromItem for ProjectResponse {
    open spec fn decoded(doc: Doc) -> Result<ProjectResponseView, ShapeError> {
        match record(doc) {
            Err(e) => Err(e),
            Ok(fields) => {
                let root_files = required_list::<String>(fields, "root_files");
                let source_files = required_list::<Vec<u8>>(fields, "source_files");
                let module_list = required_list::<String>(fields, "module_list");
                let semantic = required_as::<Semantic>(fields, "semantic");
                let diagnostics = required_list::<Diagnostic>(fields, "diagnostics");
                let source_file_extra = required_list::<SourceFileExtra>(
                    fields,
                    "source_file_extra",
                );
                if root_files is Err {
                    Err(root_files->Err_0)
                } else if source_files is Err {
                    Err(source_files->Err_0)
                } else if module_list is Err {
                    Err(module_list->Err_0)
                } else if semantic is Err {
                    Err(semantic->Err_0)
                } else if diagnostics is Err {
                    Err(diagnostics->Err_0)
                } else if source_file_extra is Err {
                    Err(source_file_extra->Err_0)
                } else {
                    Ok(
                        ProjectResponseView {
                            root_files: root_files->Ok_0,
                            source_files: source_files->Ok_0,
                            module_list: module_list->Ok_0,
                            semantic: semantic->Ok_0,
                            diagnostics: diagnostics->Ok_0,
                            source_file_extra: source_file_extra->Ok_0,
                        },
                    )
                }
            },
        }
    }

    fn from_item(item: &Item) -> (r: Result<ProjectResponse, ShapeError>) {
        let fields = as_record(item)?;
        let root_files = read_list::<String>(fields, "root_files")?;
        let source_files = read_list::<Vec<u8>>(fields, "source_files")?;
        let module_list = read_list::<String>(fields, "module_list")?;
        let semantic = read_field::<Semantic>(fields, "semantic")?;
        let diagnostics = read_list::<Diagnostic>(fields, "diagnostics")?;
        let source_file_extra = read_list::<SourceFileExtra>(fields, "source_file_extra")?;
        Ok(
            ProjectResponse {
                root_files,
                source_files,
                module_list,
                semantic,
                diagnostics,
                source_file_extra,
            },
        )
    }
}

/// Whether the keys of a table's entries are pairwise distinct documents.
pub open spec fn keys_differ(table: Doc) -> bool {
    match table {
        Doc::Dict(entries) => distinct_keys(entries),
        _ => true,
    }
}

/// The number of elements of an array.
pub open spec fn length(list: Doc) -> nat {
    match list {
        Doc::Array(items) => items.len(),
        _ => 0,
    }
}

/// A payload as the process writes it for a project that it has analysed:
/// it decodes, it has one entry of extras for each source file, no key
/// occurs twice in its tables of symbols, of types and of symbols' types,
/// and its well-known types are all set.
pub open spec fn sound_payload(doc: Doc) -> bool {
    &&& ProjectResponse::decoded(doc) is Ok
    &&& {
        let top = record(doc)->Ok_0;
        let semantic = record(required(top, "semantic")->Ok_0)->Ok_0;
        &&& length(required(top, "source_files")->Ok_0) == length(
            required(top, "source_file_extra")->Ok_0,
        )
        &&& keys_differ(required(semantic, "symtab")->Ok_0)
        &&& keys_differ(required(semantic, "typetab")->Ok_0)
        &&& keys_differ(required(semantic, "sym2type")->Ok_0)
        &&& PrimTypes::decoded(required(semantic, "primtypes")->Ok_0)->Ok_0.all_set()
    }
}

/// Distinct keys stay distinct: a table with ids for keys, none of which
/// occurs twice in the map, decodes to a list in which no id occurs twice.
pub proof fn lemma_table_keeps_keys_apart<V: FromItem>(table: Doc)
    requires
        table_decoded::<u32, V>(table) is Ok,
        keys_differ(table),
    ensures
        distinct_keys(table_decoded::<u32, V>(table)->Ok_0),
{
    match table {
        Doc::Dict(entries) => {
            lemma_table_keeps_order::<u32, V>(entries);
            let pairs = entries_decoded::<u32, V>(entries)->Ok_0;
            assert forall|i: int, j: int| 0 <= i < j < pairs.len() implies pairs[i].0
                != pairs[j].0 by {
                assert(u32::decoded(entries[i].0) == Ok::<u32, ShapeError>(pairs[i].0));
                assert(u32::decoded(entries[j].0) == Ok::<u32, ShapeError>(pairs[j].0));
                assert(entries[i].0 != entries[j].0);
            }
        },
        _ => {},
    }
}

/// The project of a sound payload is well formed: its source files and
/// their extras are of one length, its symbol ids and its type ids each
/// occur once in their table, no symbol has two types, and no well-known
/// type is zero.
pub proof fn lemma_sound_payload_is_well_formed(doc: Doc)
    requires
        sound_payload(doc),
    ensures
        ProjectResponse::decoded(doc)->Ok_0.well_formed(),
{
    let top = record(doc)->Ok_0;
    let inner = required(top, "semantic")->Ok_0;
    let semantic = record(inner)->Ok_0;
    assert(Semantic::decoded(inner) is Ok);
    lemma_table_keeps_keys_apart::<SymbolData>(required(semantic, "symtab")->Ok_0);
    lemma_table_keeps_keys_apart::<TypeData>(required(semantic, "typetab")->Ok_0);
    lemma_table_keeps_keys_apart::<u32>(required(semantic, "sym2type")->Ok_0);
    let files = required(top, "source_files")->Ok_0;
    let extras = required(top, "source_file_extra")->Ok_0;
    assert(list_decoded::<Vec<u8>>(files) is Ok);
    assert(list_decoded::<SourceFileExtra>(extras) is Ok);
    lemma_list_keeps_order::<Vec<u8>>(files->Array_0);
    lemma_list_keeps_order::<SourceFileExtra>(extras->Array_0);
}

/// Whether a field holds no table: it is left out, or it is the empty map.
pub open spec fn no_table(found: Result<Option<Doc>, ShapeError>) -> bool {
    found == Ok::<Option<Doc>, ShapeError>(None) || found == Ok::<Option<Doc>, ShapeError>(
        Some(Doc::Dict(Seq::empty())),
    )
}

/// Leaving a table out and writing it as the empty map are one thing. Two
/// records of cross-references that agree in every other field, and in which
/// each of the two tables that may be left out is either the same or no
/// table in both, decode alike.
pub proof fn lemma_omitted_equals_empty(a: Seq<(Doc, Doc)>, b: Seq<(Doc, Doc)>)
    requires
        text_keys(a) == text_keys(b),
        field(a, "symtab") == field(b, "symtab"),
        field(a, "typetab") == field(b, "typetab"),
        field(a, "sym2type") == field(b, "sym2type"),
        field(a, "node2sym") == field(b, "node2sym"),
        field(a, "node2type") == field(b, "node2type"),
        field(a, "type_extra") == field(b, "type_extra"),
        field(a, "primtypes") == field(b, "primtypes"),
        field(a, "alias_symbols") == field(b, "alias_symbols") || (no_table(
            field(a, "alias_symbols"),
        ) && no_table(field(b, "alias_symbols"))),
        field(a, "shorthand_symbols") == field(b, "shorthand_symbols") || (no_table(
            field(a, "shorthand_symbols"),
        ) && no_table(field(b, "shorthand_symbols"))),
    ensures
        Semantic::decoded(Doc::Dict(a)) == Semantic::decoded(Doc::Dict(b)),
{
}

/// A record of cross-references decodes with both tables that may be left
/// out left out, or empty, where every other field decodes; the two tables
/// of the result are then empty, and no location has a shorthand value.
pub proof fn lemma_omitted_tables_decode_empty(fields: Seq<(Doc, Doc)>, location: NodeReference)
    requires
        text_keys(fields),
        required_table::<u32, SymbolData>(fields, "symtab") is Ok,
        required_table::<u32, TypeData>(fields, "typetab") is Ok,
        required_table::<u32, u32>(fields, "sym2type") is Ok,
        required_table::<NodeReference, u32>(fields, "node2sym") is Ok,
        required_table::<NodeReference, u32>(fields, "node2type") is Ok,
        required_as::<TypeExtra>(fields, "type_extra") is Ok,
        required_as::<PrimTypes>(fields, "primtypes") is Ok,
        no_table(field(fields, "alias_symbols")),
        no_table(field(fields, "shorthand_symbols")),
    ensures
        Semantic::decoded(Doc::Dict(fields)) is Ok,
        Semantic::decoded(Doc::Dict(fields))->Ok_0.alias_symbols == Seq::<(u32, u32)>::empty(),
        Semantic::decoded(Doc::Dict(fields))->Ok_0.shorthand_symbols == Seq::<
            (NodeReference, u32),
        >::empty(),
        Semantic::decoded(Doc::Dict(fields))->Ok_0.shorthand_value(location) is None,
{
    let semantic = Semantic::decoded(Doc::Dict(fields))->Ok_0;
    assert(semantic.shorthand_symbols.len() == 0);
    lemma_shorthand_not_found(semantic, location);
}

} // verus!
