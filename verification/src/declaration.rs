use vstd::prelude::*;
use crate::module::{DecodedModule, ExportKind, ExportView, Sections};

verus! {

/// The runtime objects, other than functions, that a module can export.
#[derive(Clone, Copy, Debug, PartialEq, Eq, Structural)]
pub enum HandleKind {
    Memory,
    Table,
    Global,
}

/// What one export looks like from outside the module.
#[derive(Clone, Debug, PartialEq, Eq)]
pub enum Declaration {
    /// A function that takes `param_count` numbers and returns a number.
    Function { name: String, param_count: usize },
    /// A handle to a runtime object.
    Handle { name: String, kind: HandleKind },
}

/// A declaration as contracts see it.
pub enum DeclarationView {
    Function { name: Seq<char>, param_count: nat },
    Handle { name: Seq<char>, kind: HandleKind },
}

impl View for Declaration {
    type V = DeclarationView;

    open spec fn view(&self) -> DeclarationView {
        match *self {
            Declaration::Function { name, param_count } => DeclarationView::Function {
                name: name@,
                param_count: param_count as nat,
            },
            Declaration::Handle { name, kind } => DeclarationView::Handle { name: name@, kind },
        }
    }
}

/// What a list of declarations holds.
pub open spec fn declaration_views(items: Seq<Declaration>) -> Seq<DeclarationView> {
    Seq::new(items.len(), |i: int| items[i]@)
}

/// The declaration of one export of a module with the given sections. The
/// name is the export's own, unchanged.
pub open spec fn declaration_of(sections: Sections, export: ExportView) -> DeclarationView {
    match export.kind {
        ExportKind::Function => DeclarationView::Function {
            name: export.name,
            param_count: sections.arity(export),
        },
        ExportKind::Memory => DeclarationView::Handle { name: export.name, kind: HandleKind::Memory },
        ExportKind::Table => DeclarationView::Handle { name: export.name, kind: HandleKind::Table },
        ExportKind::Global => DeclarationView::Handle { name: export.name, kind: HandleKind::Global },
    }
}

/// One declaration for each export, in the order of the export section.
pub open spec fn declarations_of(sections: Sections) -> Seq<DeclarationView> {
    Seq::new(sections.exports.len(), |i: int| declaration_of(sections, sections.exports[i]))
}

/// Declares the export at `position` of the export section.
fn declare(module: &DecodedModule, position: usize) -> (declaration: Declaration)
    requires
        position < module@.exports.len(),
    ensures
        declaration@ == declaration_of(module@, module@.exports[position as int]),
{
    let export = &module.exports()[position];
    assert(export@ == module@.exports[position as int]);
    let name = export.name.clone();
    match export.kind {
        ExportKind::Function => Declaration::Function { name, param_count: module.arity(position) },
        ExportKind::Memory => Declaration::Handle { name, kind: HandleKind::Memory },
        ExportKind::Table => Declaration::Handle { name, kind: HandleKind::Table },
        ExportKind::Global => Declaration::Handle { name, kind: HandleKind::Global },
    }
}

/// Declares every export of `module`, in the order of the export section.
pub fn resolve(module: &DecodedModule) -> (declarations: Vec<Declaration>)
    ensures
        declaration_views(declarations@) == declarations_of(module@),
{
    let count = module.exports().len();
    let mut declarations: Vec<Declaration> = Vec::new();
    let mut i: usize = 0;
    while i < count
        invariant
            i <= count,
            count == module@.exports.len(),
            declarations.len() == i,
            forall|k: int| 0 <= k < i ==> (#[trigger] declarations@[k])@ == declaration_of(
                module@,
                module@.exports[k],
            ),
        decreases count - i,
    {
        let declaration = declare(module, i);
        declarations.push(declaration);
        i += 1;
    }
    assert(declaration_views(declarations@) =~= declarations_of(module@));
    declarations
}

} // verus!
