use vstd::prelude::*;
use parity_wasm::elements::{Internal, Module, Type, ValueType};
use crate::error::ConvertError;
use crate::module::{
    export_views, signature_views, DecodedModule, Export, ExportKind, ExportView, FunctionSignature,
    Sections, SignatureView, ValueKind,
};

verus! {

/// A module as `parity_wasm` holds it after parsing: a list of sections.
#[verifier::external_type_specification]
#[verifier::external_body]
pub struct ExWasmModule(parity_wasm::elements::Module);

/// The reason `parity_wasm` gives for rejecting a buffer.
#[verifier::external_type_specification]
#[verifier::external_body]
pub struct ExWasmError(parity_wasm::elements::Error);

/// What `parity_wasm::deserialize_buffer` makes of a buffer: the three
/// sections read here, or nothing where it rejects the buffer.
pub uninterp spec fn parsed_sections(bytes: Seq<u8>) -> Option<Sections>;

/// The entries of a parsed module's type section; none where it has no such
/// section.
pub uninterp spec fn wasm_types(module: Module) -> Seq<SignatureView>;

/// The entries of a parsed module's function section; none where it has no
/// such section.
pub uninterp spec fn wasm_functions(module: Module) -> Seq<u32>;

/// The entries of a parsed module's export section; none where it has no such
/// section.
pub uninterp spec fn wasm_exports(module: Module) -> Seq<ExportView>;

/// The three sections of a parsed module together.
pub open spec fn wasm_sections(module: Module) -> Sections {
    Sections {
        types: wasm_types(module),
        functions: wasm_functions(module),
        exports: wasm_exports(module),
    }
}

/// Calls `parity_wasm::deserialize_buffer` for a `Module`. The outcome depends
/// on the bytes alone: the same bytes are always rejected, or always give a
/// module with the same three sections.
#[verifier::external_body]
fn deserialize(bytes: &[u8]) -> (r: Result<Module, parity_wasm::elements::Error>)
    ensures
        match r {
            Ok(module) => parsed_sections(bytes@) == Some(wasm_sections(module)),
            Err(_) => parsed_sections(bytes@) is None,
        },
{
    parity_wasm::deserialize_buffer(bytes)
}

/// Copies out what `Module::type_section` holds, entry by entry: the
/// parameters of `FunctionType::params` and the first of
/// `FunctionType::results`, of which the parser admits at most one.
#[verifier::external_body]
fn read_types(module: &Module) -> (r: Vec<FunctionSignature>)
    ensures
        signature_views(r@) == wasm_types(*module),
{
    let kind = |v: &ValueType| match v {
        ValueType::I32 => ValueKind::I32,
        ValueType::I64 => ValueKind::I64,
        ValueType::F32 => ValueKind::F32,
        ValueType::F64 => ValueKind::F64,
    };
    let types = module.type_section().map(|s| s.types()).unwrap_or_default();
    types.iter().map(|Type::Function(f)| FunctionSignature {
        params: f.params().iter().map(kind).collect(),
        result: f.results().first().map(kind),
    }).collect()
}

/// Copies out what `Module::function_section` holds: `Func::type_ref` of each
/// entry.
#[verifier::external_body]
fn read_functions(module: &Module) -> (r: Vec<u32>)
    ensures
        r@ == wasm_functions(*module),
{
    let entries = module.function_section().map(|s| s.entries()).unwrap_or_default();
    entries.iter().map(|f| f.type_ref()).collect()
}

/// Copies out what `Module::export_section` holds: of each entry
/// `ExportEntry::field` as the name and `ExportEntry::internal` as kind and
/// index.
#[verifier::external_body]
fn read_exports(module: &Module) -> (r: Vec<Export>)
    ensures
        export_views(r@) == wasm_exports(*module),
{
    let entries = module.export_section().map(|s| s.entries()).unwrap_or_default();
    entries.iter().map(|e| {
        let (kind, index) = match *e.internal() {
            Internal::Function(i) => (ExportKind::Function, i),
            Internal::Table(i) => (ExportKind::Table, i),
            Internal::Memory(i) => (ExportKind::Memory, i),
            Internal::Global(i) => (ExportKind::Global, i),
        };
        Export { name: e.field().to_string(), kind, index }
    }).collect()
}

/// What decoding makes of the parser's outcome: nothing parsed is a
/// malformed module, sections with an index out of bounds are a dangling
/// reference, and anything else is kept as it is.
pub open spec fn checked(parsed: Option<Sections>) -> Result<Sections, ConvertError> {
    match parsed {
        None => Err(ConvertError::Malformed),
        Some(sections) => if sections.consistent() {
            Ok(sections)
        } else {
            Err(ConvertError::DanglingReference)
        },
    }
}

/// What `decode` returns on `bytes`.
pub open spec fn decoded(bytes: Seq<u8>) -> Result<Sections, ConvertError> {
    checked(parsed_sections(bytes))
}

/// A decoding outcome as contracts see it.
pub open spec fn outcome_view(r: Result<DecodedModule, ConvertError>) -> Result<Sections, ConvertError> {
    match r {
        Ok(module) => Ok(module@),
        Err(e) => Err(e),
    }
}

/// Parses `bytes` and resolves every index of the module.
pub fn decode(bytes: &[u8]) -> (r: Result<DecodedModule, ConvertError>)
    ensures
        outcome_view(r) == decoded(bytes@),
{
    match deserialize(bytes) {
        Err(_) => Err(ConvertError::Malformed),
        Ok(module) => {
            let types = read_types(&module);
            let functions = read_functions(&module);
            let exports = read_exports(&module);
            DecodedModule::new(types, functions, exports)
        },
    }
}

} // verus!
