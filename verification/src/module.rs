use vstd::prelude::*;
use crate::error::ConvertError;

verus! {

/// The category of a parameter or of a result.
#[derive(Clone, Copy, Debug, PartialEq, Eq, Structural)]
pub enum ValueKind {
    I32,
    I64,
    F32,
    F64,
}

/// One entry of the type section.
#[derive(Clone, Debug, PartialEq, Eq)]
pub struct FunctionSignature {
    pub params: Vec<ValueKind>,
    pub result: Option<ValueKind>,
}

/// A signature as contracts see it.
pub struct SignatureView {
    pub params: Seq<ValueKind>,
    pub result: Option<ValueKind>,
}

impl View for FunctionSignature {
    type V = SignatureView;

    open spec fn view(&self) -> SignatureView {
        SignatureView { params: self.params@, result: self.result }
    }
}

/// What an export gives access to.
#[derive(Clone, Copy, Debug, PartialEq, Eq, Structural)]
pub enum ExportKind {
    Function,
    Memory,
    Table,
    Global,
}

impl ExportKind {
    /// Whether this is the kind of a function export.
    pub fn is_function(&self) -> (b: bool)
        ensures
            b == (*self == ExportKind::Function),
    {
        match self {
            ExportKind::Function => true,
            _ => false,
        }
    }
}

/// One entry of the export section.
#[derive(Clone, Debug, PartialEq, Eq)]
pub struct Export {
    pub name: String,
    pub kind: ExportKind,
    pub index: u32,
}

/// An export as contracts see it.
pub struct ExportView {
    pub name: Seq<char>,
    pub kind: ExportKind,
    pub index: u32,
}

impl View for Export {
    type V = ExportView;

    open spec fn view(&self) -> ExportView {
        ExportView { name: self.name@, kind: self.kind, index: self.index }
    }
}

/// The three sections that a conversion reads, in the order of the binary.
pub struct Sections {
    pub types: Seq<SignatureView>,
    pub functions: Seq<u32>,
    pub exports: Seq<ExportView>,
}

/// What a list of signatures holds.
pub open spec fn signature_views(items: Seq<FunctionSignature>) -> Seq<SignatureView> {
    Seq::new(items.len(), |i: int| items[i]@)
}

/// What a list of exports holds.
pub open spec fn export_views(items: Seq<Export>) -> Seq<ExportView> {
    Seq::new(items.len(), |i: int| items[i]@)
}

/// The sections that three lists of entries make up.
pub open spec fn sections_of(
    types: Seq<FunctionSignature>,
    functions: Seq<u32>,
    exports: Seq<Export>,
) -> Sections {
    Sections { types: signature_views(types), functions, exports: export_views(exports) }
}

impl Sections {
    /// Every function names a signature that exists.
    pub open spec fn functions_resolve(self) -> bool {
        forall|i: int| 0 <= i < self.functions.len() ==> (#[trigger] self.functions[i]) < self.types.len()
    }

    /// Every exported function exists.
    pub open spec fn exports_resolve(self) -> bool {
        forall|i: int|
            0 <= i < self.exports.len() && (#[trigger] self.exports[i]).kind == ExportKind::Function
                ==> self.exports[i].index < self.functions.len()
    }

    /// No index points outside the section it refers to.
    pub open spec fn consistent(self) -> bool {
        self.functions_resolve() && self.exports_resolve()
    }

    /// The number of parameters of the function that `export` names.
    pub open spec fn arity(self, export: ExportView) -> nat
        recommends
            export.kind == ExportKind::Function,
            export.index < self.functions.len(),
            self.functions[export.index as int] < self.types.len(),
    {
        self.types[self.functions[export.index as int] as int].params.len()
    }
}

/// A module whose indices have all been resolved. The fields are private, so
/// a value of this type never holds a dangling index.
#[derive(Debug, PartialEq, Eq)]
pub struct DecodedModule {
    types: Vec<FunctionSignature>,
    functions: Vec<u32>,
    exports: Vec<Export>,
}

impl View for DecodedModule {
    type V = Sections;

    closed spec fn view(&self) -> Sections {
        sections_of(self.types@, self.functions@, self.exports@)
    }
}

impl DecodedModule {
    #[verifier::type_invariant]
    spec fn resolved(self) -> bool {
        self@.consistent()
    }

    /// Checks every index. Where all of them resolve, the module holds the
    /// three lists as they were given; where one does not, there is no module.
    pub fn new(types: Vec<FunctionSignature>, functions: Vec<u32>, exports: Vec<Export>) -> (r: Result<
        DecodedModule,
        ConvertError,
    >)
        ensures
            match r {
                Ok(module) => {
                    &&& module@ == sections_of(types@, functions@, exports@)
                    &&& module@.consistent()
                },
                Err(e) => {
                    &&& e == ConvertError::DanglingReference
                    &&& !sections_of(types@, functions@, exports@).consistent()
                },
            },
    {
        let ghost sections = sections_of(types@, functions@, exports@);
        let mut i: usize = 0;
        while i < functions.len()
            invariant
                i <= functions.len(),
                sections == sections_of(types@, functions@, exports@),
                forall|k: int| 0 <= k < i ==> (#[trigger] sections.functions[k]) < sections.types.len(),
            decreases functions.len() - i,
        {
            if functions[i] as usize >= types.len() {
                assert(!(sections.functions[i as int] < sections.types.len()));
                return Err(ConvertError::DanglingReference);
            }
            i += 1;
        }
        let mut j: usize = 0;
        while j < exports.len()
            invariant
                j <= exports.len(),
                sections == sections_of(types@, functions@, exports@),
                forall|k: int|
                    0 <= k < j && (#[trigger] sections.exports[k]).kind == ExportKind::Function
                        ==> sections.exports[k].index < sections.functions.len(),
            decreases exports.len() - j,
        {
            if exports[j].kind.is_function() && exports[j].index as usize >= functions.len() {
                assert(sections.exports[j as int].kind == ExportKind::Function);
                assert(!(sections.exports[j as int].index < sections.functions.len()));
                return Err(ConvertError::DanglingReference);
            }
            j += 1;
        }
        Ok(DecodedModule { types, functions, exports })
    }

    /// The signatures, in the order of the type section.
    pub fn types(&self) -> (r: &Vec<FunctionSignature>)
        ensures
            signature_views(r@) == self@.types,
            self@.consistent(),
    {
        proof {
            use_type_invariant(self);
        }
        &self.types
    }

    /// For each defined function, the index of its signature.
    pub fn functions(&self) -> (r: &Vec<u32>)
        ensures
            r@ == self@.functions,
            self@.consistent(),
    {
        proof {
            use_type_invariant(self);
        }
        &self.functions
    }

    /// The exports, in the order of the export section.
    pub fn exports(&self) -> (r: &Vec<Export>)
        ensures
            export_views(r@) == self@.exports,
            self@.consistent(),
    {
        proof {
            use_type_invariant(self);
        }
        &self.exports
    }

    /// The number of parameters of the function that the export at
    /// `position` names.
    pub(crate) fn arity(&self, position: usize) -> (n: usize)
        requires
            position < self@.exports.len(),
            self@.exports[position as int].kind == ExportKind::Function,
        ensures
            n == self@.arity(self@.exports[position as int]),
    {
        proof {
            use_type_invariant(self);
        }
        let export = &self.exports[position];
        assert(self@.exports[position as int] == export@);
        let function = self.functions[export.index as usize];
        assert(self@.functions[export.index as int] == function);
        let signature = &self.types[function as usize];
        assert(self@.types[function as int] == signature@);
        signature.params.len()
    }
}

} // verus!
