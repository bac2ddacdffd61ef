use std::collections::HashMap;
use std::path::PathBuf;
use tsgo_client::cbor::{parse, Fault, Item};
use tsgo_client::client::{
    decode_answer, decode_payload, Client, DecodeFailure, Launch, Options, ProtocolError,
    UninitializedClient,
};
use tsgo_client::decode::{FromItem, Kind, ShapeError};
use tsgo_client::proto::{
    Diagnostic, FunctionData, Location, NodeReference, PrimTypes, ProjectResponse, Semantic,
    Signature, SourceFileExtra, SymbolData, TypeData, TypeExtra,
};
use tsgo_client::symbolflags::SymbolFlags;
use tsgo_client::Api;

type Wire = cbor4ii::core::Value;

fn encode(value: &Wire) -> Vec<u8> {
    let mut writer = cbor4ii::core::utils::BufWriter::new(Vec::new());
    cbor4ii::core::enc::Encode::encode(value, &mut writer).unwrap();
    writer.into_inner()
}

fn text(s: &str) -> Wire {
    Wire::Text(s.to_string())
}

fn num(i: u32) -> Wire {
    Wire::Integer(i as i128)
}

fn record(fields: Vec<(&str, Wire)>) -> Wire {
    Wire::Map(fields.into_iter().map(|(k, v)| (text(k), v)).collect())
}

fn without(value: &Wire, name: &str) -> Wire {
    match value {
        Wire::Map(entries) => {
            Wire::Map(entries.iter().filter(|e| e.0 != text(name)).cloned().collect())
        }
        other => other.clone(),
    }
}

fn with(value: &Wire, name: &str, field: Wire) -> Wire {
    match without(value, name) {
        Wire::Map(mut entries) => {
            entries.push((text(name), field));
            Wire::Map(entries)
        }
        other => other,
    }
}

fn node(file: u32, start: u32, end: u32) -> Wire {
    record(vec![("sourcefile_id", num(file)), ("start", num(start)), ("end", num(end))])
}

fn symbol(name: &[u8], flags: u32, decl: Option<Wire>) -> Wire {
    let mut fields =
        vec![("name", Wire::Bytes(name.to_vec())), ("flags", num(flags)), ("check_flags", num(0))];
    if let Some(decl) = decl {
        fields.push(("decl", decl));
    }
    record(fields)
}

fn primtypes() -> Wire {
    record(vec![
        ("string", num(1)),
        ("number", num(2)),
        ("any", num(3)),
        ("error", num(4)),
        ("unknown", num(5)),
        ("never", num(6)),
        ("undefined", num(7)),
        ("null", num(8)),
        ("void", num(9)),
        ("bool", num(10)),
    ])
}

fn semantic() -> Wire {
    record(vec![
        (
            "symtab",
            Wire::Map(vec![
                (num(12), symbol(b"name", SymbolFlags::BLOCK_SCOPED_VARIABLE, Some(node(0, 6, 10)))),
                (num(11), symbol(b"user", SymbolFlags::PROPERTY, None)),
                (num(13), symbol(&[0xff, 0xfe], SymbolFlags::INTERFACE, Some(Wire::Null))),
            ]),
        ),
        (
            "typetab",
            Wire::Map(vec![
                (num(2), record(vec![("id", num(2)), ("flags", num(8))])),
                (num(1), record(vec![("id", num(1)), ("flags", num(4))])),
            ]),
        ),
        ("sym2type", Wire::Map(vec![(num(12), num(1)), (num(11), num(2))])),
        ("node2sym", Wire::Map(vec![(node(0, 30, 34), num(11)), (node(0, 6, 10), num(12))])),
        ("node2type", Wire::Map(vec![(node(0, 6, 10), num(1))])),
        (
            "type_extra",
            record(vec![
                ("name", Wire::Map(vec![(num(1), Wire::Bytes(b"string".to_vec()))])),
                (
                    "func",
                    Wire::Map(vec![(
                        num(2),
                        record(vec![(
                            "signatures",
                            Wire::Array(vec![
                                record(vec![("result", num(1))]),
                                record(vec![("result", num(2))]),
                            ]),
                        )]),
                    )]),
                ),
            ]),
        ),
        ("primtypes", primtypes()),
        ("alias_symbols", Wire::Map(vec![(num(40), num(12))])),
        ("shorthand_symbols", Wire::Map(vec![(node(0, 30, 34), num(12))])),
    ])
}

fn project() -> Wire {
    record(vec![
        ("root_files", Wire::Array(vec![text("/p/src/index.ts")])),
        (
            "source_files",
            Wire::Array(vec![Wire::Bytes(b"const name = 1;".to_vec()), Wire::Bytes(vec![])]),
        ),
        ("module_list", Wire::Array(vec![text("/p/src/index.ts"), text("/p/src/utils.ts")])),
        ("semantic", semantic()),
        (
            "diagnostics",
            Wire::Array(vec![record(vec![
                ("message", text("unused")),
                ("category", num(1)),
                ("file", num(0)),
                ("loc", record(vec![("start", num(6)), ("end", num(10))])),
            ])]),
        ),
        (
            "source_file_extra",
            Wire::Array(vec![
                record(vec![
                    ("has_common_js_module_indicator", Wire::Bool(false)),
                    ("has_external_module_indicator", Wire::Bool(true)),
                ]),
                record(vec![
                    ("has_common_js_module_indicator", Wire::Bool(true)),
                    ("has_external_module_indicator", Wire::Bool(false)),
                ]),
            ]),
        ),
    ])
}

fn expected_semantic() -> Semantic {
    let mut name = HashMap::new();
    name.insert(1u32, b"string".to_vec());
    let mut func = HashMap::new();
    func.insert(
        2u32,
        FunctionData { signatures: vec![Signature { result: 1 }, Signature { result: 2 }] },
    );
    Semantic {
        symtab: vec![
            (
                12,
                SymbolData {
                    name: b"name".to_vec(),
                    flags: 2,
                    check_flags: 0,
                    decl: Some(NodeReference { sourcefile_id: 0, start: 6, end: 10 }),
                },
            ),
            (11, SymbolData { name: b"user".to_vec(), flags: 4, check_flags: 0, decl: None }),
            (13, SymbolData { name: vec![0xff, 0xfe], flags: 64, check_flags: 0, decl: None }),
        ],
        typetab: vec![(2, TypeData { id: 2, flags: 8 }), (1, TypeData { id: 1, flags: 4 })],
        sym2type: vec![(12, 1), (11, 2)],
        node2sym: vec![
            (NodeReference { sourcefile_id: 0, start: 30, end: 34 }, 11),
            (NodeReference { sourcefile_id: 0, start: 6, end: 10 }, 12),
        ],
        node2type: vec![(NodeReference { sourcefile_id: 0, start: 6, end: 10 }, 1)],
        type_extra: TypeExtra { name, func },
        primtypes: PrimTypes {
            string: 1,
            number: 2,
            any: 3,
            error: 4,
            unknown: 5,
            never: 6,
            undefined: 7,
            null: 8,
            void: 9,
            bool: 10,
        },
        alias_symbols: vec![(40, 12)],
        shorthand_symbols: vec![(NodeReference { sourcefile_id: 0, start: 30, end: 34 }, 12)],
    }
}

fn decode(value: &Wire) -> Result<ProjectResponse, ProtocolError> {
    decode_answer(&encode(value))
}

fn shape_error(r: Result<ProjectResponse, ProtocolError>) -> ShapeError {
    match r {
        Err(ProtocolError::DecodeError(DecodeFailure::Shape(e))) => e,
        other => panic!("not a shape error: {:?}", other),
    }
}

fn decode_semantic(value: &Wire) -> Result<Semantic, ShapeError> {
    Semantic::from_item(&parse(&encode(value)).unwrap())
}

#[test]
fn project_decodes_field_by_field() {
    let p = decode(&project()).unwrap();
    assert_eq!(p.root_files, vec!["/p/src/index.ts".to_string()]);
    assert_eq!(p.source_files, vec![b"const name = 1;".to_vec(), vec![]]);
    assert_eq!(p.module_list, vec!["/p/src/index.ts".to_string(), "/p/src/utils.ts".to_string()]);
    assert_eq!(p.semantic, expected_semantic());
    assert_eq!(
        p.diagnostics,
        vec![Diagnostic {
            message: "unused".to_string(),
            category: 1,
            file: 0,
            loc: Location { start: 6, end: 10 },
        }]
    );
    assert_eq!(
        p.source_file_extra,
        vec![
            SourceFileExtra {
                has_common_js_module_indicator: false,
                has_external_module_indicator: true,
            },
            SourceFileExtra {
                has_common_js_module_indicator: true,
                has_external_module_indicator: false,
            },
        ]
    );
}

#[test]
fn sound_project_is_well_formed() {
    let p = decode(&project()).unwrap();
    assert_eq!(p.source_files.len(), p.source_file_extra.len());
    let mut ids: Vec<u32> = p.semantic.symtab.iter().map(|e| e.0).collect();
    ids.sort();
    ids.dedup();
    assert_eq!(ids.len(), p.semantic.symtab.len());
    let mut ids: Vec<u32> = p.semantic.typetab.iter().map(|e| e.0).collect();
    ids.sort();
    ids.dedup();
    assert_eq!(ids.len(), p.semantic.typetab.len());
    assert_ne!(p.semantic.primtypes.string, 0);
    assert_ne!(p.semantic.primtypes.number, 0);
    assert_ne!(p.semantic.primtypes.any, 0);
}

#[test]
fn project_decodes_whatever_the_order_of_its_fields() {
    let reversed = match project() {
        Wire::Map(mut entries) => {
            entries.reverse();
            Wire::Map(entries)
        }
        other => other,
    };
    assert_eq!(decode(&reversed).unwrap(), decode(&project()).unwrap());
}

#[test]
fn project_passes_over_fields_it_does_not_know() {
    let more = with(&project(), "version", num(3));
    assert_eq!(decode(&more).unwrap(), decode(&project()).unwrap());
}

#[test]
fn bytes_after_the_payload_are_not_read() {
    let mut bytes = encode(&project());
    bytes.extend_from_slice(&[0xff, 0x00, 0x01]);
    assert_eq!(decode_answer(&bytes).unwrap(), decode(&project()).unwrap());
}

#[test]
fn tables_left_out_decode_to_empty_lists() {
    let bare = without(&without(&semantic(), "alias_symbols"), "shorthand_symbols");
    let s = decode_semantic(&bare).unwrap();
    assert_eq!(s.alias_symbols, vec![]);
    assert_eq!(s.shorthand_symbols, vec![]);
    let mut expected = expected_semantic();
    expected.alias_symbols = vec![];
    expected.shorthand_symbols = vec![];
    assert_eq!(s, expected);
    let p = decode(&with(&project(), "semantic", bare)).unwrap();
    assert_eq!(p.semantic, expected);
}

#[test]
fn empty_tables_decode_as_tables_left_out_do() {
    let bare = without(&without(&semantic(), "alias_symbols"), "shorthand_symbols");
    let empty = with(
        &with(&semantic(), "alias_symbols", Wire::Map(vec![])),
        "shorthand_symbols",
        Wire::Map(vec![]),
    );
    assert_eq!(decode_semantic(&empty).unwrap(), decode_semantic(&bare).unwrap());
    let marked = with(
        &with(&semantic(), "alias_symbols", Wire::Null),
        "shorthand_symbols",
        Wire::Null,
    );
    assert_eq!(decode_semantic(&marked).unwrap(), decode_semantic(&bare).unwrap());
    let one = without(&semantic(), "alias_symbols");
    let s = decode_semantic(&one).unwrap();
    assert_eq!(s.alias_symbols, vec![]);
    assert_eq!(s.shorthand_symbols, expected_semantic().shorthand_symbols);
}

#[test]
fn optional_table_of_another_kind_is_refused() {
    let bad = with(&semantic(), "alias_symbols", Wire::Array(vec![]));
    assert_eq!(decode_semantic(&bad), Err(ShapeError::Mismatch(Kind::Table)));
    let bad = with(&semantic(), "shorthand_symbols", num(0));
    assert_eq!(decode_semantic(&bad), Err(ShapeError::Mismatch(Kind::Table)));
}

#[test]
fn required_table_may_be_the_empty_marker_and_may_not_be_left_out() {
    let marked = with(&semantic(), "node2type", Wire::Null);
    assert_eq!(decode_semantic(&marked).unwrap().node2type, vec![]);
    let empty = with(&semantic(), "node2type", Wire::Map(vec![]));
    assert_eq!(decode_semantic(&empty).unwrap().node2type, vec![]);
    let bare = without(&semantic(), "node2type");
    assert_eq!(decode_semantic(&bare), Err(ShapeError::MissingField("node2type")));
    let bad = with(&semantic(), "node2type", Wire::Array(vec![]));
    assert_eq!(decode_semantic(&bad), Err(ShapeError::Mismatch(Kind::Table)));
}

#[test]
fn each_required_field_is_missed() {
    for name in
        ["root_files", "source_files", "module_list", "semantic", "diagnostics", "source_file_extra"]
    {
        let e = shape_error(decode(&without(&project(), name)));
        assert!(matches!(e, ShapeError::MissingField(n) if n == name));
    }
    for name in
        ["symtab", "typetab", "sym2type", "node2sym", "node2type", "type_extra", "primtypes"]
    {
        let e = decode_semantic(&without(&semantic(), name)).unwrap_err();
        assert!(matches!(e, ShapeError::MissingField(n) if n == name));
    }
    for name in
        ["string", "number", "any", "error", "unknown", "never", "undefined", "null", "void", "bool"]
    {
        let bad = with(&semantic(), "primtypes", without(&primtypes(), name));
        let e = decode_semantic(&bad).unwrap_err();
        assert!(matches!(e, ShapeError::MissingField(n) if n == name));
    }
}

#[test]
fn symbol_declaration_may_be_left_out_or_null() {
    let s = decode_semantic(&semantic()).unwrap();
    assert_eq!(s.symtab[0].1.decl, Some(NodeReference { sourcefile_id: 0, start: 6, end: 10 }));
    assert_eq!(s.symtab[1].1.decl, None);
    assert_eq!(s.symtab[2].1.decl, None);
    let bad = with(
        &semantic(),
        "symtab",
        Wire::Map(vec![(num(1), symbol(b"x", 0, Some(num(3))))]),
    );
    assert_eq!(decode_semantic(&bad), Err(ShapeError::Mismatch(Kind::Record)));
}

#[test]
fn symbol_name_need_not_be_text() {
    let s = decode_semantic(&semantic()).unwrap();
    assert_eq!(s.symtab[2].1.name, vec![0xff, 0xfe]);
    assert!(String::from_utf8(s.symtab[2].1.name.clone()).is_err());
    let bad = with(
        &semantic(),
        "symtab",
        Wire::Map(vec![(
            num(1),
            record(vec![("name", text("x")), ("flags", num(0)), ("check_flags", num(0))]),
        )]),
    );
    assert_eq!(decode_semantic(&bad), Err(ShapeError::Mismatch(Kind::Bytes)));
}

#[test]
fn shorthand_value_is_found_by_its_location() {
    let s = decode_semantic(&semantic()).unwrap();
    let at = NodeReference { sourcefile_id: 0, start: 30, end: 34 };
    assert_eq!(s.get_shorthand_assignment_value_symbol(&at), Some(12));
    let value = s.symtab.iter().find(|e| e.0 == 12).unwrap();
    let flags = SymbolFlags::from_bits_truncate(value.1.flags);
    assert!(flags.intersects(
        SymbolFlags::from_bits_retain(SymbolFlags::VALUE)
            | SymbolFlags::from_bits_retain(SymbolFlags::ALIAS)
    ));
    assert_eq!(String::from_utf8_lossy(&value.1.name), "name");
}

#[test]
fn shorthand_value_is_not_found_elsewhere() {
    let s = decode_semantic(&semantic()).unwrap();
    for other in [
        NodeReference { sourcefile_id: 1, start: 30, end: 34 },
        NodeReference { sourcefile_id: 0, start: 31, end: 34 },
        NodeReference { sourcefile_id: 0, start: 30, end: 35 },
        NodeReference { sourcefile_id: 0, start: 6, end: 10 },
        NodeReference { sourcefile_id: 0, start: 0, end: 0 },
    ] {
        assert_eq!(s.get_shorthand_assignment_value_symbol(&other), None);
    }
}

#[test]
fn shorthand_value_is_not_found_in_a_table_left_out() {
    let s = decode_semantic(&without(&semantic(), "shorthand_symbols")).unwrap();
    let at = NodeReference { sourcefile_id: 0, start: 30, end: 34 };
    assert_eq!(s.get_shorthand_assignment_value_symbol(&at), None);
    let s = decode_semantic(&with(&semantic(), "shorthand_symbols", Wire::Map(vec![]))).unwrap();
    assert_eq!(s.get_shorthand_assignment_value_symbol(&at), None);
}

#[test]
fn shorthand_value_is_that_of_the_first_entry_for_a_location() {
    let table = Wire::Map(vec![
        (node(0, 1, 2), num(5)),
        (node(0, 30, 34), num(6)),
        (node(0, 30, 34), num(7)),
        (node(2, 30, 34), num(8)),
    ]);
    let s = decode_semantic(&with(&semantic(), "shorthand_symbols", table)).unwrap();
    assert_eq!(s.shorthand_symbols.len(), 4);
    let at = |file, start, end| NodeReference { sourcefile_id: file, start, end };
    assert_eq!(s.get_shorthand_assignment_value_symbol(&at(0, 30, 34)), Some(6));
    assert_eq!(s.get_shorthand_assignment_value_symbol(&at(2, 30, 34)), Some(8));
    assert_eq!(s.get_shorthand_assignment_value_symbol(&at(0, 1, 2)), Some(5));
    assert_eq!(s.get_shorthand_assignment_value_symbol(&at(0, 2, 1)), None);
}

#[test]
fn message_of_failure_is_an_error_of_its_own() {
    let r = decode(&text("cannot read tsconfig.json"));
    assert!(matches!(r, Err(ProtocolError::Error(m)) if m == "cannot read tsconfig.json"));
    let r = decode_payload(&Item::Text(String::new()));
    assert!(matches!(r, Err(ProtocolError::Error(m)) if m.is_empty()));
}

#[test]
fn invalid_project_is_an_error_of_its_own() {
    let report = Wire::Array(vec![
        record(vec![
            ("message", text("no inputs were found")),
            ("category", num(1)),
            ("file", num(0)),
            ("loc", record(vec![("start", num(0)), ("end", num(0))])),
        ]),
        record(vec![
            ("message", text("unknown option")),
            ("category", num(1)),
            ("file", num(3)),
            ("loc", record(vec![("start", num(4)), ("end", num(9))])),
        ]),
    ]);
    match decode(&report) {
        Err(ProtocolError::InvalidTsProject(diagnostics)) => assert_eq!(
            diagnostics,
            vec![
                Diagnostic {
                    message: "no inputs were found".to_string(),
                    category: 1,
                    file: 0,
                    loc: Location { start: 0, end: 0 },
                },
                Diagnostic {
                    message: "unknown option".to_string(),
                    category: 1,
                    file: 3,
                    loc: Location { start: 4, end: 9 },
                },
            ]
        ),
        other => panic!("not an invalid project: {:?}", other),
    }
    assert!(matches!(
        decode(&Wire::Array(vec![])),
        Err(ProtocolError::InvalidTsProject(d)) if d.is_empty()
    ));
}

#[test]
fn report_that_is_no_list_of_diagnostics_is_a_decode_error() {
    let e = shape_error(decode(&Wire::Array(vec![num(1)])));
    assert_eq!(e, ShapeError::Mismatch(Kind::Record));
    let e = shape_error(decode(&Wire::Array(vec![record(vec![("message", text("m"))])])));
    assert_eq!(e, ShapeError::MissingField("category"));
}

#[test]
fn bytes_that_are_no_item_are_a_decode_error() {
    for bytes in [&[][..], &[0xa1][..], &[0x62, b'a'][..], &[0xff][..]] {
        assert!(matches!(
            decode_answer(bytes),
            Err(ProtocolError::DecodeError(DecodeFailure::Core(_)))
        ));
    }
    let mut cut = encode(&project());
    cut.truncate(cut.len() - 1);
    assert!(matches!(
        decode_answer(&cut),
        Err(ProtocolError::DecodeError(DecodeFailure::Core(cause))) if cause.kind == Fault::Eof
    ));
    assert!(matches!(
        decode_answer(&[0xa1, 0xff]),
        Err(ProtocolError::DecodeError(DecodeFailure::Core(cause)))
            if cause.kind == Fault::Unsupported && cause.detail.starts_with("Unsupported")
    ));
}

#[test]
fn item_of_another_shape_is_a_decode_error() {
    assert_eq!(shape_error(decode(&num(1))), ShapeError::Mismatch(Kind::Record));
    assert_eq!(shape_error(decode(&Wire::Null)), ShapeError::Mismatch(Kind::Record));
    assert_eq!(shape_error(decode(&Wire::Bytes(vec![1]))), ShapeError::Mismatch(Kind::Record));
    assert_eq!(shape_error(decode(&Wire::Map(vec![(num(1), num(1))]))), ShapeError::KeyNotText);
    let twice = match project() {
        Wire::Map(mut entries) => {
            entries.push((text("semantic"), semantic()));
            Wire::Map(entries)
        }
        other => other,
    };
    assert_eq!(shape_error(decode(&twice)), ShapeError::DuplicateField("semantic"));
    let bad = with(&project(), "root_files", Wire::Array(vec![Wire::Bytes(vec![b'a'])]));
    assert_eq!(shape_error(decode(&bad)), ShapeError::Mismatch(Kind::Text));
    let bad = with(&project(), "source_files", Wire::Array(vec![text("a")]));
    assert_eq!(shape_error(decode(&bad)), ShapeError::Mismatch(Kind::Bytes));
    let bad = with(&project(), "diagnostics", Wire::Null);
    assert_eq!(shape_error(decode(&bad)), ShapeError::Mismatch(Kind::Array));
}

#[test]
fn session_loads_the_project_it_read() {
    let launch = Client::builder(PathBuf::from("tsgo"), Options::default()).build();
    let api = Api::with_uninitialized_client(UninitializedClient::new(launch)).unwrap();
    let buffer = encode(&project());
    let p = api.load_project(Ok(&buffer)).unwrap();
    assert!(!p.source_files.is_empty());
    assert!(!p.module_list.is_empty());
    assert!(!p.semantic.symtab.is_empty());
    assert!(!p.semantic.typetab.is_empty());
    assert_eq!(p, decode(&project()).unwrap());
}

#[test]
fn session_reports_a_reading_that_failed() {
    let launch: Launch = Client::builder(PathBuf::from("tsgo"), Options::default()).build();
    let mut client = UninitializedClient::new(launch).init().unwrap();
    let r = client.load_project(Err("broken pipe".to_string()));
    assert!(matches!(r, Err(ProtocolError::Error(m)) if m == "broken pipe"));
    let buffer = encode(&project());
    assert!(client.load_project(Ok(&buffer)).is_ok());
    assert!(matches!(
        client.load_project(Ok(&Vec::new())),
        Err(ProtocolError::DecodeError(DecodeFailure::Core(_)))
    ));
}

#[test]
fn shorthand_bindings_of_a_project_resolve_to_values() {
    let names = ["name", "age", "username", "userAge", "isActive", "id", "email"];
    let mut symtab = Vec::new();
    let mut node2sym = Vec::new();
    let mut shorthand = Vec::new();
    for (i, name) in names.iter().enumerate() {
        let i = i as u32;
        let property = 100 + i;
        let value = 200 + i;
        let kind = if i == 5 { SymbolFlags::ALIAS } else { SymbolFlags::BLOCK_SCOPED_VARIABLE };
        symtab.push((num(property), symbol(name.as_bytes(), SymbolFlags::PROPERTY, None)));
        symtab.push((num(value), symbol(name.as_bytes(), kind, Some(node(2, i, i + 1)))));
        node2sym.push((node(2, 50 + 10 * i, 55 + 10 * i), num(property)));
        node2sym.push((node(2, i, i + 1), num(value)));
        shorthand.push((node(2, 50 + 10 * i, 55 + 10 * i), num(value)));
    }
    let wire = with(
        &with(
            &with(&semantic(), "symtab", Wire::Map(symtab)),
            "node2sym",
            Wire::Map(node2sym),
        ),
        "shorthand_symbols",
        Wire::Map(shorthand),
    );
    let semantic = decode_semantic(&wire).unwrap();
    let wanted = SymbolFlags::from_bits_retain(SymbolFlags::VALUE)
        | SymbolFlags::from_bits_retain(SymbolFlags::ALIAS);
    let mut found: Vec<(u32, u32, String)> = Vec::new();
    for (node_ref, source) in &semantic.node2sym {
        if let Some(target) = semantic.get_shorthand_assignment_value_symbol(node_ref) {
            let data = &semantic.symtab.iter().find(|e| e.0 == target).unwrap().1;
            assert!(SymbolFlags::from_bits_truncate(data.flags).intersects(wanted));
            found.push((*source, target, String::from_utf8_lossy(&data.name).to_string()));
        }
    }
    found.sort_by(|a, b| a.2.cmp(&b.2));
    assert_eq!(
        found,
        vec![
            (101, 201, "age".to_string()),
            (106, 206, "email".to_string()),
            (105, 205, "id".to_string()),
            (104, 204, "isActive".to_string()),
            (100, 200, "name".to_string()),
            (103, 203, "userAge".to_string()),
            (102, 202, "username".to_string()),
        ]
    );
}
