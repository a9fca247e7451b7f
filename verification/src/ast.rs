//! The syntax tree that the pass walks, and its mathematical view.
//!
//! Each tree type has a `...Model` counterpart in which strings are
//! `Seq<char>` and child lists are `Seq`s; contracts are stated over those.

use vstd::prelude::*;

verus! {

/// A range of source text, by the byte positions of its ends.
#[derive(Clone, Copy, Debug, PartialEq, Eq, Structural)]
pub struct Span {
    pub lo: u32,
    pub hi: u32,
}

/// A binding's identity: its name and the number of its lexical scope.
#[derive(Clone, Debug, PartialEq, Eq)]
pub struct Id {
    pub sym: String,
    pub ctxt: u32,
}

impl View for Id {
    type V = (Seq<char>, u32);

    open spec fn view(&self) -> (Seq<char>, u32) {
        (self.sym@, self.ctxt)
    }
}

/// The view of a list of binding identities.
pub open spec fn ids_view(ids: Seq<Id>) -> Seq<(Seq<char>, u32)> {
    Seq::new(ids.len(), |i: int| ids[i]@)
}

/// One occurrence of an identifier in the source.
#[derive(Clone, Debug, PartialEq, Eq)]
pub struct Ident {
    pub sym: String,
    pub ctxt: u32,
    pub span: Span,
}

pub struct IdentModel {
    pub sym: Seq<char>,
    pub ctxt: u32,
    pub span: Span,
}

impl IdentModel {
    /// The binding that this occurrence names.
    pub open spec fn id(self) -> (Seq<char>, u32) {
        (self.sym, self.ctxt)
    }
}

impl View for Ident {
    type V = IdentModel;

    open spec fn view(&self) -> IdentModel {
        IdentModel { sym: self.sym@, ctxt: self.ctxt, span: self.span }
    }
}

/// The span of a node that the pass made itself.
pub open spec fn dummy_span() -> Span {
    Span { lo: 0, hi: 0 }
}

/// The binary operators that the pass reads or writes.
#[derive(Clone, Copy, Debug, PartialEq, Eq, Structural)]
pub enum BinaryOp {
    /// `+`
    Add,
    /// `!=`
    NotEq,
    /// `&&`
    LogicalAnd,
}

/// The key of a `key: value` property.
#[derive(Clone, Debug, PartialEq, Eq)]
pub enum PropKey {
    Ident(String),
    Str(String),
}

pub enum PropKeyModel {
    Ident(Seq<char>),
    Str(Seq<char>),
}

impl View for PropKey {
    type V = PropKeyModel;

    open spec fn view(&self) -> PropKeyModel {
        match self {
            PropKey::Ident(s) => PropKeyModel::Ident(s@),
            PropKey::Str(s) => PropKeyModel::Str(s@),
        }
    }
}

/// One member of an object literal.
#[derive(Debug, PartialEq, Eq)]
pub enum Prop {
    KeyValue { key: PropKey, value: Expr },
    Spread(Expr),
    /// A member of any other kind: a handle by which its owner knows it, and
    /// the expressions directly below it, in source order.
    Other { handle: u32, children: Vec<Expr> },
}

/// What a call applies: the `import` operator or an expression.
#[derive(Debug, PartialEq, Eq)]
pub enum Callee {
    Import,
    Expr(Box<Expr>),
}

/// A call: what is applied, and the arguments in order.
#[derive(Debug, PartialEq, Eq)]
pub struct CallExpr {
    pub callee: Callee,
    pub args: Vec<Expr>,
}

/// An expression. An arrow function with `block` set has a block body that
/// holds `body` as its one expression statement; otherwise `body` is the
/// arrow's expression body.
#[derive(Debug, PartialEq, Eq)]
pub enum Expr {
    Ident(Ident),
    Str(String),
    Bool(bool),
    Null,
    Tpl { quasis: Vec<String>, exprs: Vec<Expr> },
    Object(Vec<Prop>),
    Array(Vec<Expr>),
    Arrow { is_async: bool, block: bool, body: Box<Expr> },
    Call(CallExpr),
    Member { obj: Box<Expr>, prop: String },
    TypeOf(Box<Expr>),
    Bin { op: BinaryOp, left: Box<Expr>, right: Box<Expr> },
    /// An expression of any other kind: a handle by which its owner knows
    /// it, and the expressions directly below it, in source order.
    Other { handle: u32, children: Vec<Expr> },
}

pub enum PropModel {
    KeyValue { key: PropKeyModel, value: ExprModel },
    Spread(ExprModel),
    Other { handle: u32, children: Seq<ExprModel> },
}

pub enum CalleeModel {
    Import,
    Expr(Box<ExprModel>),
}

pub struct CallExprModel {
    pub callee: CalleeModel,
    pub args: Seq<ExprModel>,
}

pub enum ExprModel {
    Ident(IdentModel),
    Str(Seq<char>),
    Bool(bool),
    Null,
    Tpl { quasis: Seq<Seq<char>>, exprs: Seq<ExprModel> },
    Object(Seq<PropModel>),
    Array(Seq<ExprModel>),
    Arrow { is_async: bool, block: bool, body: Box<ExprModel> },
    Call(CallExprModel),
    Member { obj: Box<ExprModel>, prop: Seq<char> },
    TypeOf(Box<ExprModel>),
    Bin { op: BinaryOp, left: Box<ExprModel>, right: Box<ExprModel> },
    Other { handle: u32, children: Seq<ExprModel> },
}

/// A specifier of an import declaration, with the identifier it binds.
#[derive(Clone, Debug, PartialEq, Eq)]
pub enum ImportSpecifier {
    Default(Ident),
    Named(Ident),
    Namespace(Ident),
}

/// An import declaration: the module it names and what it binds.
#[derive(Clone, Debug, PartialEq, Eq)]
pub struct ImportDecl {
    pub src: String,
    pub specifiers: Vec<ImportSpecifier>,
}

/// The view of a list of strings.
pub open spec fn strings_view(ss: Seq<String>) -> Seq<Seq<char>> {
    Seq::new(ss.len(), |i: int| ss[i]@)
}

pub open spec fn expr_view(e: Expr) -> ExprModel
    decreases e,
{
    match e {
        Expr::Ident(id) => ExprModel::Ident(id@),
        Expr::Str(s) => ExprModel::Str(s@),
        Expr::Bool(b) => ExprModel::Bool(b),
        Expr::Null => ExprModel::Null,
        Expr::Tpl { quasis, exprs } => ExprModel::Tpl {
            quasis: strings_view(quasis@),
            exprs: exprs_view(exprs@),
        },
        Expr::Object(props) => ExprModel::Object(props_view(props@)),
        Expr::Array(elems) => ExprModel::Array(exprs_view(elems@)),
        Expr::Arrow { is_async, block, body } => ExprModel::Arrow {
            is_async,
            block,
            body: Box::new(expr_view(*body)),
        },
        Expr::Call(call) => ExprModel::Call(call_view(call)),
        Expr::Member { obj, prop } => ExprModel::Member { obj: Box::new(expr_view(*obj)), prop: prop@ },
        Expr::TypeOf(arg) => ExprModel::TypeOf(Box::new(expr_view(*arg))),
        Expr::Bin { op, left, right } => ExprModel::Bin {
            op,
            left: Box::new(expr_view(*left)),
            right: Box::new(expr_view(*right)),
        },
        Expr::Other { handle, children } => ExprModel::Other {
            handle,
            children: exprs_view(children@),
        },
    }
}

pub open spec fn call_view(c: CallExpr) -> CallExprModel
    decreases c,
{
    CallExprModel { callee: callee_view(c.callee), args: exprs_view(c.args@) }
}

pub open spec fn callee_view(c: Callee) -> CalleeModel
    decreases c,
{
    match c {
        Callee::Import => CalleeModel::Import,
        Callee::Expr(e) => CalleeModel::Expr(Box::new(expr_view(*e))),
    }
}

pub open spec fn prop_view(p: Prop) -> PropModel
    decreases p,
{
    match p {
        Prop::KeyValue { key, value } => PropModel::KeyValue { key: key@, value: expr_view(value) },
        Prop::Spread(e) => PropModel::Spread(expr_view(e)),
        Prop::Other { handle, children } => PropModel::Other {
            handle,
            children: exprs_view(children@),
        },
    }
}

pub open spec fn exprs_view(es: Seq<Expr>) -> Seq<ExprModel>
    decreases es,
{
    Seq::new(es.len(), |i: int| if 0 <= i < es.len() { expr_view(es[i]) } else { ExprModel::Null })
}

pub open spec fn props_view(ps: Seq<Prop>) -> Seq<PropModel>
    decreases ps,
{
    Seq::new(ps.len(), |i: int| if 0 <= i < ps.len() { prop_view(ps[i]) } else { PropModel::Spread(ExprModel::Null) })
}

impl View for Expr {
    type V = ExprModel;

    open spec fn view(&self) -> ExprModel {
        expr_view(*self)
    }
}

impl View for Prop {
    type V = PropModel;

    open spec fn view(&self) -> PropModel {
        prop_view(*self)
    }
}

impl View for CallExpr {
    type V = CallExprModel;

    open spec fn view(&self) -> CallExprModel {
        call_view(*self)
    }
}

impl View for Callee {
    type V = CalleeModel;

    open spec fn view(&self) -> CalleeModel {
        callee_view(*self)
    }
}

/// A top-level item of a file: an import declaration, or a statement, held
/// as an expression.
#[derive(Debug, PartialEq, Eq)]
pub enum ModuleItem {
    Import(ImportDecl),
    Stmt(Expr),
}

pub enum ModuleItemModel {
    Import { src: Seq<char>, specifiers: Seq<ImportSpecifier> },
    Stmt(ExprModel),
}

impl View for ModuleItem {
    type V = ModuleItemModel;

    open spec fn view(&self) -> ModuleItemModel {
        match self {
            ModuleItem::Import(decl) => ModuleItemModel::Import {
                src: decl.src@,
                specifiers: decl.specifiers@,
            },
            ModuleItem::Stmt(e) => ModuleItemModel::Stmt(e@),
        }
    }
}

/// The view of a file's items.
pub open spec fn items_view(items: Seq<ModuleItem>) -> Seq<ModuleItemModel> {
    Seq::new(items.len(), |i: int| items[i]@)
}

} // verus!
