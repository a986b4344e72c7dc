//! Turns a WebAssembly binary module into the TypeScript declarations of what
//! the module exports.

pub mod convert;
pub mod declaration;
pub mod decoder;
pub mod error;
pub mod laws;
pub mod module;
pub mod naming;
pub mod syntax;

pub use convert::convert_to_ast;
pub use declaration::{resolve, Declaration, HandleKind};
pub use decoder::decode;
pub use error::ConvertError;
pub use module::{DecodedModule, Export, ExportKind, FunctionSignature, ValueKind};
pub use naming::argument_name;
pub use syntax::{
    handle_member, numeric_params, statement_for, statements, Parameter, Statement, TypeName,
};
