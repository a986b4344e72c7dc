use vstd::prelude::*;

verus! {

/// Why a conversion was abandoned. A failed conversion yields no text at all.
#[derive(Clone, Copy, Debug, PartialEq, Eq, Structural)]
pub enum ConvertError {
    /// The bytes are not a well-formed binary module.
    Malformed,
    /// A function names a signature, or an export names a function, that the
    /// module does not define.
    DanglingReference,
    /// An export of a kind other than function, memory, table or global.
    /// The binary format knows no such kind today, so no conversion reports it.
    UnsupportedExportKind,
}

impl ConvertError {
    /// A one-line description for people.
    pub fn message(&self) -> (text: &'static str)
        ensures
            text@ == match *self {
                ConvertError::Malformed => "malformed module"@,
                ConvertError::DanglingReference => "dangling reference"@,
                ConvertError::UnsupportedExportKind => "unsupported export kind"@,
            },
    {
        match self {
            ConvertError::Malformed => "malformed module",
            ConvertError::DanglingReference => "dangling reference",
            ConvertError::UnsupportedExportKind => "unsupported export kind",
        }
    }
}

} // verus!
