use vstd::prelude::*;
use crate::convert::{converted, tree_view};
use crate::declaration::{declaration_of, declarations_of, HandleKind};
use crate::decoder::{decoded, parsed_sections};
use crate::error::ConvertError;
use crate::module::{ExportKind, Sections};
use crate::syntax::{handle_type, statement_of, statements_of, Statement, StatementView, TypeNameView};

verus! {

/// Two conversions of the same bytes end alike: both fail for the same
/// reason, or both give the same statements.
pub proof fn conversion_is_deterministic(
    bytes: Seq<u8>,
    first: Result<Vec<Statement>, ConvertError>,
    second: Result<Vec<Statement>, ConvertError>,
)
    requires
        tree_view(first) == converted(bytes),
        tree_view(second) == converted(bytes),
    ensures
        tree_view(first) == tree_view(second),
{
}

/// A conversion that succeeds gives one statement for each export, and the
/// statement at each position declares the export at that position, under the
/// export's own name.
pub proof fn order_is_preserved(bytes: Seq<u8>, sections: Sections, n: int)
    requires
        decoded(bytes) == Ok::<Sections, ConvertError>(sections),
        0 <= n < sections.exports.len(),
    ensures
        converted(bytes) is Ok,
        converted(bytes)->Ok_0.len() == sections.exports.len(),
        converted(bytes)->Ok_0[n] == statement_of(declaration_of(sections, sections.exports[n])),
        match converted(bytes)->Ok_0[n] {
            StatementView::Function { name, .. } => name == sections.exports[n].name,
            StatementView::Variable { name, .. } => name == sections.exports[n].name,
        },
{
    let declarations = declarations_of(sections);
    assert(statements_of(declarations)[n] == statement_of(declarations[n]));
}

/// An exported function is declared with as many parameters as its signature
/// has: the signature that the function section names for the function that
/// the export names. Each parameter is a number, and so is the result.
pub proof fn arity_is_kept(bytes: Seq<u8>, sections: Sections, n: int)
    requires
        decoded(bytes) == Ok::<Sections, ConvertError>(sections),
        0 <= n < sections.exports.len(),
        sections.exports[n].kind == ExportKind::Function,
    ensures
        sections.exports[n].index < sections.functions.len(),
        sections.functions[sections.exports[n].index as int] < sections.types.len(),
        converted(bytes) is Ok,
        converted(bytes)->Ok_0[n] matches StatementView::Function { params, result, .. } && {
            &&& params.len() == sections.types[sections.functions[sections.exports[n].index as int] as int].params.len()
            &&& result == TypeNameView::Number
            &&& forall|i: int| 0 <= i < params.len() ==> (#[trigger] params[i]).annotation == TypeNameView::Number
        },
{
    order_is_preserved(bytes, sections, n);
    assert(sections.consistent());
    let export = sections.exports[n];
    assert(export.index < sections.functions.len());
    let function = sections.functions[export.index as int];
    assert(function < sections.types.len());
}

/// The handle that an export of a kind other than function stands for.
pub open spec fn handle_kind_of(kind: ExportKind) -> HandleKind
    recommends
        kind != ExportKind::Function,
{
    match kind {
        ExportKind::Table => HandleKind::Table,
        ExportKind::Global => HandleKind::Global,
        _ => HandleKind::Memory,
    }
}

/// An exported memory, table or global is declared as a variable, never as a
/// function, and the variable's type is the member of `WebAssembly` that
/// bears the name of the export's kind.
pub proof fn kind_is_mapped(bytes: Seq<u8>, sections: Sections, n: int)
    requires
        decoded(bytes) == Ok::<Sections, ConvertError>(sections),
        0 <= n < sections.exports.len(),
        sections.exports[n].kind != ExportKind::Function,
    ensures
        converted(bytes) is Ok,
        converted(bytes)->Ok_0[n] == (StatementView::Variable {
            name: sections.exports[n].name,
            annotation: handle_type(handle_kind_of(sections.exports[n].kind)),
        }),
        sections.exports[n].kind == ExportKind::Memory ==> handle_type(
            handle_kind_of(sections.exports[n].kind),
        ) == (TypeNameView::Qualified { namespace: "WebAssembly"@, member: "Memory"@ }),
        sections.exports[n].kind == ExportKind::Table ==> handle_type(
            handle_kind_of(sections.exports[n].kind),
        ) == (TypeNameView::Qualified { namespace: "WebAssembly"@, member: "Table"@ }),
        sections.exports[n].kind == ExportKind::Global ==> handle_type(
            handle_kind_of(sections.exports[n].kind),
        ) == (TypeNameView::Qualified { namespace: "WebAssembly"@, member: "Global"@ }),
{
    order_is_preserved(bytes, sections, n);
}

/// A module that parses, exports nothing and names no signature that it lacks
/// is declared by no statement at all.
pub proof fn nothing_exported_nothing_declared(bytes: Seq<u8>, sections: Sections)
    requires
        parsed_sections(bytes) == Some(sections),
        sections.exports.len() == 0,
        sections.functions_resolve(),
    ensures
        converted(bytes) == Ok::<Seq<StatementView>, ConvertError>(Seq::empty()),
{
    assert(sections.consistent());
    assert(statements_of(declarations_of(sections)) =~= Seq::<StatementView>::empty());
}

/// Bytes that the parser rejects are malformed; bytes that it accepts fail
/// only where an index points outside its section, and then as a dangling
/// reference.
pub proof fn failures_are_told_apart(bytes: Seq<u8>)
    ensures
        parsed_sections(bytes) is None <==> converted(bytes) == Err::<Seq<StatementView>, ConvertError>(
            ConvertError::Malformed,
        ),
        (parsed_sections(bytes) matches Some(sections) && !sections.consistent()) <==> converted(bytes)
            == Err::<Seq<StatementView>, ConvertError>(ConvertError::DanglingReference),
        converted(bytes) != Err::<Seq<StatementView>, ConvertError>(ConvertError::UnsupportedExportKind),
{
}

} // verus!
