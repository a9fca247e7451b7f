//! Builders for the tree fragments that the pass writes. Each fragment is
//! made afresh for the call that receives it.

use vstd::prelude::*;
use vstd::string::StringExecFns;
use crate::ast::{
    BinaryOp, CallExpr, CallExprModel, Callee, CalleeModel, Expr, ExprModel, Ident, IdentModel,
    Prop, PropKey, PropKeyModel, PropModel, Span, call_view, dummy_span, exprs_view, props_view,
};

verus! {

/// An identifier that the pass made: no scope, no place in the source.
pub open spec fn made_ident(name: Seq<char>) -> IdentModel {
    IdentModel { sym: name, ctxt: 0, span: dummy_span() }
}

/// `typeof window != "undefined" && e`
pub open spec fn client_only_cond(e: ExprModel) -> ExprModel {
    ExprModel::Bin {
        op: BinaryOp::LogicalAnd,
        left: Box::new(
            ExprModel::Bin {
                op: BinaryOp::NotEq,
                left: Box::new(
                    ExprModel::TypeOf(Box::new(ExprModel::Ident(made_ident("window"@)))),
                ),
                right: Box::new(ExprModel::Str("undefined"@)),
            },
        ),
        right: Box::new(e),
    }
}

/// The loader of a call that is not rendered on the server: an async arrow
/// whose block holds the loader as a statement, behind the client-only test.
/// The loader stays in the tree and is never run.
pub open spec fn skipped_loader(loader: ExprModel) -> ExprModel {
    client_only_cond(ExprModel::Arrow { is_async: true, block: true, body: Box::new(loader) })
}

/// `{ modules: [ "<label> -> " + "<specifier>" ] }`
pub open spec fn modules_object(label: Seq<char>, specifier: Seq<char>) -> ExprModel {
    ExprModel::Object(
        seq![
            PropModel::KeyValue {
                key: PropKeyModel::Ident("modules"@),
                value: ExprModel::Array(
                    seq![
                        ExprModel::Bin {
                            op: BinaryOp::Add,
                            left: Box::new(ExprModel::Str(label + " -> "@)),
                            right: Box::new(ExprModel::Str(specifier)),
                        },
                    ],
                ),
            },
        ],
    )
}

/// `require.resolveWeak("<specifier>")`
pub open spec fn resolve_weak_call(specifier: Seq<char>) -> ExprModel {
    ExprModel::Call(
        CallExprModel {
            callee: CalleeModel::Expr(
                Box::new(
                    ExprModel::Member {
                        obj: Box::new(ExprModel::Ident(made_ident("require"@))),
                        prop: "resolveWeak"@,
                    },
                ),
            ),
            args: seq![ExprModel::Str(specifier)],
        },
    )
}

/// `{ webpack: () => [ require.resolveWeak("<specifier>") ] }`
pub open spec fn webpack_object(specifier: Seq<char>) -> ExprModel {
    ExprModel::Object(
        seq![
            PropModel::KeyValue {
                key: PropKeyModel::Ident("webpack"@),
                value: ExprModel::Arrow {
                    is_async: false,
                    block: false,
                    body: Box::new(ExprModel::Array(seq![resolve_weak_call(specifier)])),
                },
            },
        ],
    )
}

/// The property `loadableGenerated`: the module list when building for
/// development or for the server, else the weak resolution.
pub open spec fn generated_prop(
    dev_or_server: bool,
    label: Seq<char>,
    specifier: Seq<char>,
) -> PropModel {
    PropModel::KeyValue {
        key: PropKeyModel::Ident("loadableGenerated"@),
        value: if dev_or_server {
            modules_object(label, specifier)
        } else {
            webpack_object(specifier)
        },
    }
}

/// A list that holds one expression.
fn one_expr(e: Expr) -> (v: Vec<Expr>)
    ensures
        v@ == seq![e],
        exprs_view(v@) == seq![e@],
{
    let mut v: Vec<Expr> = Vec::new();
    v.push(e);
    assert(v@ =~= seq![e]);
    assert(exprs_view(v@) =~= seq![e@]);
    v
}

/// A list that holds one property.
fn one_prop(p: Prop) -> (v: Vec<Prop>)
    ensures
        v@ == seq![p],
        props_view(v@) == seq![p@],
{
    let mut v: Vec<Prop> = Vec::new();
    v.push(p);
    assert(v@ =~= seq![p]);
    assert(props_view(v@) =~= seq![p@]);
    v
}

/// An identifier expression made by the pass.
pub fn ident_expr(name: &str) -> (e: Expr)
    ensures
        e@ == ExprModel::Ident(made_ident(name@)),
{
    Expr::Ident(Ident { sym: name.to_owned(), ctxt: 0, span: Span { lo: 0, hi: 0 } })
}

/// A property `name: value` with an identifier key.
pub fn key_value(name: &str, value: Expr) -> (p: Prop)
    ensures
        p@ == (PropModel::KeyValue { key: PropKeyModel::Ident(name@), value: value@ }),
{
    Prop::KeyValue { key: PropKey::Ident(name.to_owned()), value }
}

/// Gates `wrapped_expr` behind a test for the browser's global object, so
/// that it stays in the module graph and is not evaluated on the server.
pub fn wrap_expr_with_client_only_cond(wrapped_expr: Expr) -> (r: Expr)
    ensures
        r@ == client_only_cond(wrapped_expr@),
{
    let typeof_expr = Expr::TypeOf(Box::new(ident_expr("window")));
    let undefined_literal = Expr::Str("undefined".to_owned());
    let inequality_expr = Expr::Bin {
        op: BinaryOp::NotEq,
        left: Box::new(typeof_expr),
        right: Box::new(undefined_literal),
    };
    assert(inequality_expr@ == ExprModel::Bin {
        op: BinaryOp::NotEq,
        left: Box::new(typeof_expr@),
        right: Box::new(undefined_literal@),
    });
    Expr::Bin { op: BinaryOp::LogicalAnd, left: Box::new(inequality_expr), right: Box::new(wrapped_expr) }
}

/// Builds the loader that replaces the first argument of a call that is not
/// rendered on the server, in server-components mode.
pub fn build_skipped_loader(loader: Expr) -> (r: Expr)
    ensures
        r@ == skipped_loader(loader@),
{
    let arrow = Expr::Arrow { is_async: true, block: true, body: Box::new(loader) };
    wrap_expr_with_client_only_cond(arrow)
}

/// Builds the value of `loadableGenerated` for development and server builds.
pub fn build_modules_object(label: String, specifier: String) -> (r: Expr)
    ensures
        r@ == modules_object(label@, specifier@),
{
    let text = label.concat(" -> ");
    let left = Expr::Str(text);
    let right = Expr::Str(specifier);
    assert(left@ == ExprModel::Str(label@ + " -> "@));
    assert(right@ == ExprModel::Str(specifier@));
    let sum = Expr::Bin { op: BinaryOp::Add, left: Box::new(left), right: Box::new(right) };
    assert(sum@ == ExprModel::Bin {
        op: BinaryOp::Add,
        left: Box::new(ExprModel::Str(label@ + " -> "@)),
        right: Box::new(ExprModel::Str(specifier@)),
    });
    let list = Expr::Array(one_expr(sum));
    assert(list@ == ExprModel::Array(seq![sum@]));
    let prop = key_value("modules", list);
    Expr::Object(one_prop(prop))
}

/// Builds the value of `loadableGenerated` for production client builds.
pub fn build_webpack_object(specifier: String) -> (r: Expr)
    ensures
        r@ == webpack_object(specifier@),
{
    let member = Expr::Member {
        obj: Box::new(ident_expr("require")),
        prop: "resolveWeak".to_owned(),
    };
    let call = CallExpr { callee: Callee::Expr(Box::new(member)), args: one_expr(Expr::Str(specifier)) };
    assert(call_view(call) == CallExprModel {
        callee: CalleeModel::Expr(Box::new(member@)),
        args: seq![ExprModel::Str(specifier@)],
    });
    let resolve = Expr::Call(call);
    assert(resolve@ == resolve_weak_call(specifier@));
    let list = Expr::Array(one_expr(resolve));
    assert(list@ == ExprModel::Array(seq![resolve@]));
    let arrow = Expr::Arrow { is_async: false, block: false, body: Box::new(list) };
    assert(arrow@ == ExprModel::Arrow { is_async: false, block: false, body: Box::new(list@) });
    let prop = key_value("webpack", arrow);
    Expr::Object(one_prop(prop))
}

/// Builds the property `loadableGenerated`.
pub fn build_generated_prop(dev_or_server: bool, label: String, specifier: String) -> (p: Prop)
    ensures
        p@ == generated_prop(dev_or_server, label@, specifier@),
{
    let value = if dev_or_server {
        build_modules_object(label, specifier)
    } else {
        build_webpack_object(specifier)
    };
    key_value("loadableGenerated", value)
}

} // verus!
