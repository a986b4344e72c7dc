use vstd::prelude::*;
use vstd::string::StringExecFns;
use crate::declaration::{declaration_views, Declaration, DeclarationView, HandleKind};
use crate::naming::{argument_name, parameter_name};

verus! {

/// A type as a declaration writes it.
#[derive(Clone, Debug, PartialEq, Eq)]
pub enum TypeName {
    /// The keyword `number`.
    Number,
    /// A member of a namespace, written `namespace.member`.
    Qualified { namespace: String, member: String },
}

/// A type name as contracts see it.
pub enum TypeNameView {
    Number,
    Qualified { namespace: Seq<char>, member: Seq<char> },
}

impl View for TypeName {
    type V = TypeNameView;

    open spec fn view(&self) -> TypeNameView {
        match *self {
            TypeName::Number => TypeNameView::Number,
            TypeName::Qualified { namespace, member } => TypeNameView::Qualified {
                namespace: namespace@,
                member: member@,
            },
        }
    }
}

/// A parameter of a function signature: `name: annotation`.
#[derive(Clone, Debug, PartialEq, Eq)]
pub struct Parameter {
    pub name: String,
    pub annotation: TypeName,
}

/// A parameter as contracts see it.
pub struct ParameterView {
    pub name: Seq<char>,
    pub annotation: TypeNameView,
}

impl View for Parameter {
    type V = ParameterView;

    open spec fn view(&self) -> ParameterView {
        ParameterView { name: self.name@, annotation: self.annotation@ }
    }
}

/// What a list of parameters holds.
pub open spec fn parameter_views(items: Seq<Parameter>) -> Seq<ParameterView> {
    Seq::new(items.len(), |i: int| items[i]@)
}

/// One exported statement of the output.
#[derive(Clone, Debug, PartialEq, Eq)]
pub enum Statement {
    /// `export function name(params): result;`, a signature without a body.
    Function { name: String, params: Vec<Parameter>, result: TypeName },
    /// `export var name: annotation;`, a variable without an initial value.
    Variable { name: String, annotation: TypeName },
}

/// A statement as contracts see it.
pub enum StatementView {
    Function { name: Seq<char>, params: Seq<ParameterView>, result: TypeNameView },
    Variable { name: Seq<char>, annotation: TypeNameView },
}

impl View for Statement {
    type V = StatementView;

    open spec fn view(&self) -> StatementView {
        match *self {
            Statement::Function { name, params, result } => StatementView::Function {
                name: name@,
                params: parameter_views(params@),
                result: result@,
            },
            Statement::Variable { name, annotation } => StatementView::Variable {
                name: name@,
                annotation: annotation@,
            },
        }
    }
}

/// What a list of statements holds.
pub open spec fn statement_views(items: Seq<Statement>) -> Seq<StatementView> {
    Seq::new(items.len(), |i: int| items[i]@)
}

/// The member of the `WebAssembly` namespace that types a handle.
pub open spec fn member_name(kind: HandleKind) -> Seq<char> {
    match kind {
        HandleKind::Memory => "Memory"@,
        HandleKind::Table => "Table"@,
        HandleKind::Global => "Global"@,
    }
}

/// The type of a handle: `WebAssembly.Memory`, `WebAssembly.Table` or
/// `WebAssembly.Global`.
pub open spec fn handle_type(kind: HandleKind) -> TypeNameView {
    TypeNameView::Qualified { namespace: "WebAssembly"@, member: member_name(kind) }
}

/// `count` parameters named by position, each of them a number.
pub open spec fn numeric_parameters(count: nat) -> Seq<ParameterView> {
    Seq::new(
        count,
        |i: int| ParameterView { name: parameter_name(i as nat), annotation: TypeNameView::Number },
    )
}

/// The statement that declares `declaration`. A function takes and gives
/// numbers only, whatever the width of its values in the module.
pub open spec fn statement_of(declaration: DeclarationView) -> StatementView {
    match declaration {
        DeclarationView::Function { name, param_count } => StatementView::Function {
            name,
            params: numeric_parameters(param_count),
            result: TypeNameView::Number,
        },
        DeclarationView::Handle { name, kind } => StatementView::Variable {
            name,
            annotation: handle_type(kind),
        },
    }
}

/// One statement for each declaration, in order.
pub open spec fn statements_of(declarations: Seq<DeclarationView>) -> Seq<StatementView> {
    Seq::new(declarations.len(), |i: int| statement_of(declarations[i]))
}

/// The member of the `WebAssembly` namespace that types a handle of `kind`.
pub fn handle_member(kind: HandleKind) -> (member: &'static str)
    ensures
        member@ == member_name(kind),
{
    match kind {
        HandleKind::Memory => "Memory",
        HandleKind::Table => "Table",
        HandleKind::Global => "Global",
    }
}

/// The parameters of a function that takes `count` numbers.
pub fn numeric_params(count: usize) -> (params: Vec<Parameter>)
    ensures
        parameter_views(params@) == numeric_parameters(count as nat),
{
    let mut params: Vec<Parameter> = Vec::new();
    let mut i: usize = 0;
    while i < count
        invariant
            i <= count,
            params.len() == i,
            forall|k: int| 0 <= k < i ==> (#[trigger] params@[k])@ == numeric_parameters(count as nat)[k],
        decreases count - i,
    {
        params.push(Parameter { name: argument_name(i), annotation: TypeName::Number });
        i += 1;
    }
    assert(parameter_views(params@) =~= numeric_parameters(count as nat));
    params
}

/// The statement that declares `declaration`.
pub fn statement_for(declaration: &Declaration) -> (statement: Statement)
    ensures
        statement@ == statement_of(declaration@),
{
    match declaration {
        Declaration::Function { name, param_count } => Statement::Function {
            name: name.clone(),
            params: numeric_params(*param_count),
            result: TypeName::Number,
        },
        Declaration::Handle { name, kind } => Statement::Variable {
            name: name.clone(),
            annotation: TypeName::Qualified {
                namespace: String::from_str("WebAssembly"),
                member: String::from_str(handle_member(*kind)),
            },
        },
    }
}

/// One statement for each declaration, in order.
pub fn statements(declarations: &Vec<Declaration>) -> (tree: Vec<Statement>)
    ensures
        statement_views(tree@) == statements_of(declaration_views(declarations@)),
{
    let mut tree: Vec<Statement> = Vec::new();
    let mut i: usize = 0;
    while i < declarations.len()
        invariant
            i <= declarations.len(),
            tree.len() == i,
            forall|k: int| 0 <= k < i ==> (#[trigger] tree@[k])@ == statement_of(declarations@[k]@),
        decreases declarations.len() - i,
    {
        tree.push(statement_for(&declarations[i]));
        i += 1;
    }
    assert(statement_views(tree@) =~= statements_of(declaration_views(declarations@)));
    tree
}

} // verus!
