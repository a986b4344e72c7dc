use vstd::prelude::*;
use crate::declaration::{declarations_of, resolve};
use crate::decoder::{decode, decoded};
use crate::error::ConvertError;
use crate::syntax::{statement_views, statements, statements_of, Statement, StatementView};

verus! {

/// The syntax tree that declares the exports of the module in `bytes`, or
/// the reason why there is none.
pub open spec fn converted(bytes: Seq<u8>) -> Result<Seq<StatementView>, ConvertError> {
    match decoded(bytes) {
        Ok(sections) => Ok(statements_of(declarations_of(sections))),
        Err(e) => Err(e),
    }
}

/// A conversion's outcome as contracts see it.
pub open spec fn tree_view(r: Result<Vec<Statement>, ConvertError>) -> Result<
    Seq<StatementView>,
    ConvertError,
> {
    match r {
        Ok(tree) => Ok(statement_views(tree@)),
        Err(e) => Err(e),
    }
}

/// Decodes the module in `wasm` and declares each of its exports, in the
/// order of the export section. A module that cannot be decoded gives no
/// statement at all.
pub fn convert_to_ast(wasm: &[u8]) -> (r: Result<Vec<Statement>, ConvertError>)
    ensures
        tree_view(r) == converted(wasm@),
{
    match decode(wasm) {
        Ok(module) => {
            let declarations = resolve(&module);
            Ok(statements(&declarations))
        },
        Err(e) => Err(e),
    }
}

} // verus!
