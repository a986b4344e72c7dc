use wasm2ts::{convert_to_ast, ConvertError, Parameter, Statement, TypeName};

const HEADER: [u8; 8] = [0x00, 0x61, 0x73, 0x6d, 0x01, 0x00, 0x00, 0x00];

fn module(sections: &[&[u8]]) -> Vec<u8> {
    let mut bytes = HEADER.to_vec();
    for section in sections {
        bytes.extend_from_slice(section);
    }
    bytes
}

fn section(id: u8, payload: &[u8]) -> Vec<u8> {
    assert!(payload.len() < 128);
    let mut bytes = vec![id, payload.len() as u8];
    bytes.extend_from_slice(payload);
    bytes
}

/// A type section; each signature is its parameters and its results.
fn type_section(signatures: &[(&[u8], &[u8])]) -> Vec<u8> {
    let mut payload = vec![signatures.len() as u8];
    for (params, results) in signatures {
        payload.push(0x60);
        payload.push(params.len() as u8);
        payload.extend_from_slice(params);
        payload.push(results.len() as u8);
        payload.extend_from_slice(results);
    }
    section(1, &payload)
}

/// A function section; each entry is the index of a signature.
fn function_section(signatures: &[u8]) -> Vec<u8> {
    let mut payload = vec![signatures.len() as u8];
    payload.extend_from_slice(signatures);
    section(3, &payload)
}

/// An export section; each entry is a name, a kind and an index.
fn export_section(exports: &[(&str, u8, u8)]) -> Vec<u8> {
    let mut payload = vec![exports.len() as u8];
    for (name, kind, index) in exports {
        payload.push(name.len() as u8);
        payload.extend_from_slice(name.as_bytes());
        payload.push(*kind);
        payload.push(*index);
    }
    section(7, &payload)
}

/// A code section of `count` bodies, each of them `unreachable`.
fn code_section(count: u8) -> Vec<u8> {
    let mut payload = vec![count];
    for _ in 0..count {
        payload.extend_from_slice(&[0x03, 0x00, 0x00, 0x0b]);
    }
    section(10, &payload)
}

const I32: u8 = 0x7f;
const I64: u8 = 0x7e;
const F32: u8 = 0x7d;
const F64: u8 = 0x7c;
const FUNCTION: u8 = 0;
const TABLE: u8 = 1;
const MEMORY_KIND: u8 = 2;
const GLOBAL: u8 = 3;

fn number(name: &str) -> Parameter {
    Parameter { name: name.to_string(), annotation: TypeName::Number }
}

fn function(name: &str, params: &[&str]) -> Statement {
    Statement::Function {
        name: name.to_string(),
        params: params.iter().map(|p| number(p)).collect(),
        result: TypeName::Number,
    }
}

fn handle(name: &str, member: &str) -> Statement {
    Statement::Variable {
        name: name.to_string(),
        annotation: TypeName::Qualified {
            namespace: "WebAssembly".to_string(),
            member: member.to_string(),
        },
    }
}

// (i32, i32) -> i32
const TYPE_ADD: [u8; 9] = [0x01, 0x07, 0x01, 0x60, 0x02, 0x7f, 0x7f, 0x01, 0x7f];
// one function of type 0
const FUNCTION_ADD: [u8; 4] = [0x03, 0x02, 0x01, 0x00];
// "add" -> function 0
const EXPORT_ADD: [u8; 9] = [0x07, 0x07, 0x01, 0x03, 0x61, 0x64, 0x64, 0x00, 0x00];
// local.get 0, local.get 1, i32.add
const CODE_ADD: [u8; 11] = [0x0a, 0x09, 0x01, 0x07, 0x00, 0x20, 0x00, 0x20, 0x01, 0x6a, 0x0b];
// one memory of at least one page
const MEMORY: [u8; 5] = [0x05, 0x03, 0x01, 0x00, 0x01];
// "mem" -> memory 0
const EXPORT_MEM: [u8; 9] = [0x07, 0x07, 0x01, 0x03, 0x6d, 0x65, 0x6d, 0x02, 0x00];

#[test]
fn basic_wasm() {
    let types = type_section(&[(&[I32, I32], &[I32]), (&[F64], &[])]);
    let functions = function_section(&[0, 1]);
    // one table of funcref, at least one element
    let table: [u8; 6] = [0x04, 0x04, 0x01, 0x70, 0x00, 0x01];
    // one constant i32 global
    let global: [u8; 8] = [0x06, 0x06, 0x01, 0x7f, 0x00, 0x41, 0x00, 0x0b];
    let exports = export_section(&[
        ("add", FUNCTION, 0),
        ("memory", MEMORY_KIND, 0),
        ("log", FUNCTION, 1),
        ("table", TABLE, 0),
        ("zero", GLOBAL, 0),
    ]);
    let code = code_section(2);
    let wasm = module(&[&types, &functions, &table, &MEMORY, &global, &exports, &code]);
    assert_eq!(
        convert_to_ast(&wasm).unwrap(),
        vec![
            function("add", &["arg0", "arg1"]),
            handle("memory", "Memory"),
            function("log", &["arg0"]),
            handle("table", "Table"),
            handle("zero", "Global"),
        ]
    );
}

#[test]
fn exported_add_is_a_function_of_two_numbers() {
    let wasm = module(&[&TYPE_ADD, &FUNCTION_ADD, &EXPORT_ADD, &CODE_ADD]);
    assert_eq!(
        convert_to_ast(&wasm),
        Ok(vec![Statement::Function {
            name: "add".to_string(),
            params: vec![
                Parameter { name: "arg0".to_string(), annotation: TypeName::Number },
                Parameter { name: "arg1".to_string(), annotation: TypeName::Number },
            ],
            result: TypeName::Number,
        }])
    );
}

#[test]
fn exported_memory_is_a_webassembly_memory() {
    let wasm = module(&[&MEMORY, &EXPORT_MEM]);
    assert_eq!(
        convert_to_ast(&wasm),
        Ok(vec![Statement::Variable {
            name: "mem".to_string(),
            annotation: TypeName::Qualified {
                namespace: "WebAssembly".to_string(),
                member: "Memory".to_string(),
            },
        }])
    );
}

#[test]
fn header_alone_declares_nothing() {
    assert_eq!(convert_to_ast(&HEADER), Ok(vec![]));
}

#[test]
fn module_without_exports_declares_nothing() {
    let wasm = module(&[&TYPE_ADD, &FUNCTION_ADD, &MEMORY, &CODE_ADD]);
    assert_eq!(convert_to_ast(&wasm), Ok(vec![]));
}

#[test]
fn empty_export_section_declares_nothing() {
    let wasm = module(&[&[0x07, 0x01, 0x00]]);
    assert_eq!(convert_to_ast(&wasm), Ok(vec![]));
}

#[test]
fn same_bytes_same_tree() {
    let wasm = module(&[&TYPE_ADD, &FUNCTION_ADD, &MEMORY, &EXPORT_ADD, &CODE_ADD]);
    let first = convert_to_ast(&wasm);
    let second = convert_to_ast(&wasm);
    assert!(first.is_ok());
    assert_eq!(first, second);
    let broken = [0u8; 3];
    assert_eq!(convert_to_ast(&broken), convert_to_ast(&broken));
}

#[test]
fn statements_follow_the_export_section() {
    // mem first, then add
    let exports: [u8; 15] =
        [0x07, 0x0d, 0x02, 0x03, 0x6d, 0x65, 0x6d, 0x02, 0x00, 0x03, 0x61, 0x64, 0x64, 0x00, 0x00];
    let wasm = module(&[&TYPE_ADD, &FUNCTION_ADD, &MEMORY, &exports, &CODE_ADD]);
    assert_eq!(
        convert_to_ast(&wasm),
        Ok(vec![handle("mem", "Memory"), function("add", &["arg0", "arg1"])])
    );
    // add first, then mem
    let exports: [u8; 15] =
        [0x07, 0x0d, 0x02, 0x03, 0x61, 0x64, 0x64, 0x00, 0x00, 0x03, 0x6d, 0x65, 0x6d, 0x02, 0x00];
    let wasm = module(&[&TYPE_ADD, &FUNCTION_ADD, &MEMORY, &exports, &CODE_ADD]);
    assert_eq!(
        convert_to_ast(&wasm),
        Ok(vec![function("add", &["arg0", "arg1"]), handle("mem", "Memory")])
    );
}

#[test]
fn the_same_function_may_be_exported_twice() {
    let exports: [u8; 13] = [0x07, 0x0b, 0x02, 0x01, 0x61, 0x00, 0x00, 0x03, 0x61, 0x64, 0x64, 0x00, 0x00];
    let wasm = module(&[&TYPE_ADD, &FUNCTION_ADD, &exports, &CODE_ADD]);
    assert_eq!(
        convert_to_ast(&wasm),
        Ok(vec![function("a", &["arg0", "arg1"]), function("add", &["arg0", "arg1"])])
    );
}

#[test]
fn arity_comes_from_the_signature_that_the_function_names() {
    let types = type_section(&[(&[], &[]), (&[I64, F32, F64], &[F64])]);
    let functions = function_section(&[1, 0]);
    let exports = export_section(&[("f", FUNCTION, 0), ("g", FUNCTION, 1)]);
    let wasm = module(&[&types, &functions, &exports, &code_section(2)]);
    assert_eq!(
        convert_to_ast(&wasm),
        Ok(vec![function("f", &["arg0", "arg1", "arg2"]), function("g", &[])])
    );
}

#[test]
fn twelve_parameters_are_named_by_position() {
    let types = type_section(&[(&[I32; 12], &[])]);
    let exports = export_section(&[("wide", FUNCTION, 0)]);
    let wasm = module(&[&types, &function_section(&[0]), &exports, &code_section(1)]);
    assert_eq!(
        convert_to_ast(&wasm),
        Ok(vec![function(
            "wide",
            &[
                "arg0", "arg1", "arg2", "arg3", "arg4", "arg5", "arg6", "arg7", "arg8", "arg9", "arg10",
                "arg11"
            ]
        )])
    );
}

#[test]
fn every_handle_kind_has_its_member() {
    let table: [u8; 6] = [0x04, 0x04, 0x01, 0x70, 0x00, 0x01];
    let global: [u8; 8] = [0x06, 0x06, 0x01, 0x7f, 0x00, 0x41, 0x00, 0x0b];
    // "t" -> table 0, "m" -> memory 0, "g" -> global 0
    let exports: [u8; 15] =
        [0x07, 0x0d, 0x03, 0x01, 0x74, 0x01, 0x00, 0x01, 0x6d, 0x02, 0x00, 0x01, 0x67, 0x03, 0x00];
    let wasm = module(&[&table, &MEMORY, &global, &exports]);
    assert_eq!(
        convert_to_ast(&wasm),
        Ok(vec![handle("t", "Table"), handle("m", "Memory"), handle("g", "Global")])
    );
}

#[test]
fn a_handle_index_is_not_looked_up() {
    // "mem" -> memory 7, with no memory section at all
    let exports: [u8; 9] = [0x07, 0x07, 0x01, 0x03, 0x6d, 0x65, 0x6d, 0x02, 0x07];
    let wasm = module(&[&exports]);
    assert_eq!(convert_to_ast(&wasm), Ok(vec![handle("mem", "Memory")]));
}

#[test]
fn names_are_kept_as_they_are() {
    // "a-b c" and the empty name
    let exports: [u8; 14] =
        [0x07, 0x0c, 0x02, 0x05, 0x61, 0x2d, 0x62, 0x20, 0x63, 0x02, 0x00, 0x00, 0x02, 0x00];
    let wasm = module(&[&MEMORY, &exports]);
    assert_eq!(
        convert_to_ast(&wasm),
        Ok(vec![handle("a-b c", "Memory"), handle("", "Memory")])
    );
}

#[test]
fn wrong_magic_is_malformed() {
    let mut wasm = module(&[&TYPE_ADD, &FUNCTION_ADD, &EXPORT_ADD, &CODE_ADD]);
    wasm[0] = 0x01;
    assert_eq!(convert_to_ast(&wasm), Err(ConvertError::Malformed));
}

#[test]
fn wrong_version_is_malformed() {
    let mut wasm = module(&[&TYPE_ADD, &FUNCTION_ADD, &EXPORT_ADD, &CODE_ADD]);
    wasm[4] = 0x02;
    assert_eq!(convert_to_ast(&wasm), Err(ConvertError::Malformed));
}

#[test]
fn no_bytes_are_malformed() {
    assert_eq!(convert_to_ast(&[]), Err(ConvertError::Malformed));
}

#[test]
fn section_longer_than_the_buffer_is_malformed() {
    // an export section that claims 100 bytes
    let wasm = module(&[&[0x07, 0x64, 0x01, 0x03, 0x61, 0x64, 0x64, 0x00, 0x00]]);
    assert_eq!(convert_to_ast(&wasm), Err(ConvertError::Malformed));
}

#[test]
fn unknown_export_kind_is_malformed() {
    let wasm = module(&[&[0x07, 0x07, 0x01, 0x03, 0x61, 0x64, 0x64, 0x04, 0x00]]);
    assert_eq!(convert_to_ast(&wasm), Err(ConvertError::Malformed));
}

#[test]
fn exported_function_without_function_section_dangles() {
    let wasm = module(&[&TYPE_ADD, &EXPORT_ADD]);
    assert_eq!(convert_to_ast(&wasm), Err(ConvertError::DanglingReference));
}

#[test]
fn exported_function_out_of_range_dangles() {
    // "add" -> function 1, of one
    let exports: [u8; 9] = [0x07, 0x07, 0x01, 0x03, 0x61, 0x64, 0x64, 0x00, 0x01];
    let wasm = module(&[&TYPE_ADD, &FUNCTION_ADD, &exports, &CODE_ADD]);
    assert_eq!(convert_to_ast(&wasm), Err(ConvertError::DanglingReference));
}

#[test]
fn function_without_type_section_dangles() {
    let wasm = module(&[&FUNCTION_ADD, &EXPORT_ADD, &CODE_ADD]);
    assert_eq!(convert_to_ast(&wasm), Err(ConvertError::DanglingReference));
}

#[test]
fn function_with_signature_out_of_range_dangles_even_if_not_exported() {
    // one function of type 1, of one
    let functions: [u8; 4] = [0x03, 0x02, 0x01, 0x01];
    let wasm = module(&[&TYPE_ADD, &functions, &MEMORY, &EXPORT_MEM, &CODE_ADD]);
    assert_eq!(convert_to_ast(&wasm), Err(ConvertError::DanglingReference));
    let wasm = module(&[&TYPE_ADD, &functions, &CODE_ADD]);
    assert_eq!(convert_to_ast(&wasm), Err(ConvertError::DanglingReference));
}

#[test]
fn one_dangling_export_leaves_no_statement() {
    // "mem" -> memory 0, then "add" -> function 9
    let exports: [u8; 15] =
        [0x07, 0x0d, 0x02, 0x03, 0x6d, 0x65, 0x6d, 0x02, 0x00, 0x03, 0x61, 0x64, 0x64, 0x00, 0x09];
    let wasm = module(&[&TYPE_ADD, &FUNCTION_ADD, &MEMORY, &exports, &CODE_ADD]);
    assert_eq!(convert_to_ast(&wasm), Err(ConvertError::DanglingReference));
}

#[test]
fn cut_inside_a_section_is_malformed() {
    let sections: [&[u8]; 5] = [&TYPE_ADD, &FUNCTION_ADD, &MEMORY, &EXPORT_ADD, &CODE_ADD];
    let wasm = module(&sections);
    let mut starts = vec![HEADER.len()];
    for section in sections {
        let last = *starts.last().unwrap();
        starts.push(last + section.len());
    }
    assert_eq!(*starts.last().unwrap(), wasm.len());
    assert!(convert_to_ast(&wasm).is_ok());
    for cut in 0..wasm.len() {
        if starts.contains(&cut) {
            continue;
        }
        assert_eq!(convert_to_ast(&wasm[..cut]), Err(ConvertError::Malformed), "cut at {}", cut);
    }
}

#[test]
fn cut_between_sections_is_judged_as_the_module_that_is_left() {
    let sections: [&[u8]; 5] = [&TYPE_ADD, &FUNCTION_ADD, &MEMORY, &EXPORT_ADD, &CODE_ADD];
    let wasm = module(&sections);
    // the header alone, and the header with the types: nothing is exported
    assert_eq!(convert_to_ast(&wasm[..8]), Ok(vec![]));
    assert_eq!(convert_to_ast(&wasm[..17]), Ok(vec![]));
    // from the function section on, its code is missing
    assert_eq!(convert_to_ast(&wasm[..21]), Err(ConvertError::Malformed));
    assert_eq!(convert_to_ast(&wasm[..26]), Err(ConvertError::Malformed));
    assert_eq!(convert_to_ast(&wasm[..35]), Err(ConvertError::Malformed));
}
