//! The part of a parsed module that the search for references reads.
//!
//! A module is a list of [`Node`]s: the declarations, declarators and calls that matter here, in
//! the order in which a depth-first walk of the syntax tree enters them. Each node carries the
//! nodes below it, in the same order.
use vstd::prelude::*;

verus! {

/// A region of the source text.
#[derive(Clone, Copy, Debug, PartialEq, Eq, Hash, Structural)]
pub struct Span {
    pub lo: u32,
    pub hi: u32,
    pub ctxt: u32,
}

/// A literal. A number is held by the bits of its double-precision value.
#[derive(Debug, PartialEq, Eq, Hash)]
pub enum Lit {
    Str(String),
    Bool(bool),
    Null,
    Num(u64),
    BigInt(String),
    Regex(String, String),
    JSXText(String),
}

/// The mathematical value of a [`Lit`].
pub enum LitView {
    Str(Seq<char>),
    Bool(bool),
    Null,
    Num(u64),
    BigInt(Seq<char>),
    Regex(Seq<char>, Seq<char>),
    JSXText(Seq<char>),
}

impl DeepView for Lit {
    type V = LitView;

    open spec fn deep_view(&self) -> LitView {
        match self {
            Lit::Str(text) => LitView::Str(text@),
            Lit::Bool(value) => LitView::Bool(*value),
            Lit::Null => LitView::Null,
            Lit::Num(bits) => LitView::Num(*bits),
            Lit::BigInt(digits) => LitView::BigInt(digits@),
            Lit::Regex(exp, flags) => LitView::Regex(exp@, flags@),
            Lit::JSXText(text) => LitView::JSXText(text@),
        }
    }
}

impl Clone for Lit {
    fn clone(&self) -> (res: Self)
        ensures
            res == *self,
    {
        match self {
            Lit::Str(text) => Lit::Str(text.clone()),
            Lit::Bool(value) => Lit::Bool(*value),
            Lit::Null => Lit::Null,
            Lit::Num(bits) => Lit::Num(*bits),
            Lit::BigInt(digits) => Lit::BigInt(digits.clone()),
            Lit::Regex(exp, flags) => Lit::Regex(exp.clone(), flags.clone()),
            Lit::JSXText(text) => Lit::JSXText(text.clone()),
        }
    }
}

/// An expression, as far as it is read. `Other` stands for every other kind.
#[derive(Debug, PartialEq, Eq, Hash)]
pub enum Expr {
    Lit(Lit),
    Ident(String),
    Member(Box<Expr>, MemberProp),
    Call(Box<CallExpr>),
    Array(Vec<Option<ExprOrSpread>>),
    Other,
}

/// The property of a member expression.
#[derive(Debug, PartialEq, Eq, Hash)]
pub enum MemberProp {
    Ident(String),
    PrivateName,
    Computed(Box<Expr>),
}

/// An argument of a call or an element of an array: `expr`, or `...expr` where `spread` is set.
#[derive(Debug, PartialEq, Eq, Hash)]
pub struct ExprOrSpread {
    pub spread: bool,
    pub expr: Expr,
}

/// What is called. `Other` stands for `super` and `import`.
#[derive(Debug, PartialEq, Eq, Hash)]
pub enum Callee {
    Expr(Box<Expr>),
    Other,
}

/// `callee(..args)`
#[derive(Debug, PartialEq, Eq, Hash)]
pub struct CallExpr {
    pub span: Span,
    pub callee: Callee,
    pub args: Vec<ExprOrSpread>,
}

/// `export * from "src"`
#[derive(Debug, PartialEq, Eq, Hash)]
pub struct ExportAll {
    pub src: String,
}

/// `export { .. }`, with a `src` where it ends in `from "src"`.
#[derive(Debug, PartialEq, Eq, Hash)]
pub struct NamedExport {
    pub src: Option<String>,
}

/// The name under which a module exports something.
#[derive(Debug, PartialEq, Eq, Hash)]
pub enum ModuleExportName {
    Ident(String),
    Str(String),
}

/// One binding of an import declaration. `Named` is `{ imported as local }`, `Default` is
/// `local`, and `Namespace` is `* as local`.
#[derive(Debug, PartialEq, Eq, Hash)]
pub enum ImportSpecifier {
    Named { local: String, imported: Option<ModuleExportName>, is_type_only: bool },
    Default { local: String },
    Namespace { local: String },
}

/// `import .. from "src"`
#[derive(Debug, PartialEq, Eq, Hash)]
pub struct ImportDecl {
    pub src: String,
    pub type_only: bool,
    pub specifiers: Vec<ImportSpecifier>,
}

/// The left-hand side of a declarator.
#[derive(Debug, PartialEq, Eq, Hash)]
pub enum Pat {
    Ident(String),
    Other,
}

/// `name = init` in a variable declaration.
#[derive(Debug, PartialEq, Eq, Hash)]
pub struct VarDeclarator {
    pub name: Pat,
    pub init: Option<Expr>,
}

/// The nodes that are read.
#[derive(Debug, PartialEq, Eq, Hash)]
pub enum NodeKind {
    ExportAll(ExportAll),
    NamedExport(NamedExport),
    Import(ImportDecl),
    VarDeclarator(VarDeclarator),
    Call(CallExpr),
}

/// A node of the syntax tree, and the nodes that a walk enters below it.
#[derive(Debug, PartialEq, Eq, Hash)]
pub struct Node {
    pub kind: NodeKind,
    pub children: Vec<Node>,
}

} // verus!
