//! The rewrite itself: which identifiers name the helper, which calls are
//! calls of it, what is wrong with a call, and what a sound call becomes.

use vstd::prelude::*;
use crate::ast::{
    CallExprModel, CalleeModel, ExprModel, ImportSpecifier, ModuleItemModel, PropKeyModel,
    PropModel, Span,
};
use crate::capture::first_specifier;
use crate::fragments::{generated_prop, skipped_loader};

verus! {

/// What can be wrong with a call of the helper.
#[derive(Clone, Copy, Debug, PartialEq, Eq, Structural)]
pub enum DiagnosticKind {
    MissingArgument,
    TooManyArguments,
    InvalidOptionsType,
}

/// A fault found in one call of the helper, at the place of its callee.
#[derive(Clone, Copy, Debug, PartialEq, Eq, Structural)]
pub struct Diagnostic {
    pub kind: DiagnosticKind,
    pub span: Span,
}

/// The text reported for each kind of fault.
pub open spec fn message_text(kind: DiagnosticKind) -> Seq<char> {
    match kind {
        DiagnosticKind::MissingArgument => "next/dynamic requires at least one argument"@,
        DiagnosticKind::TooManyArguments => "next/dynamic only accepts 2 arguments"@,
        DiagnosticKind::InvalidOptionsType =>
            "next/dynamic options must be an object literal.\nRead more: https://nextjs.org/docs/messages/invalid-dynamic-options-type"@,
    }
}

impl Diagnostic {
    /// The text to report.
    pub fn message(&self) -> (s: String)
        ensures
            s@ == message_text(self.kind),
    {
        match self.kind {
            DiagnosticKind::MissingArgument => "next/dynamic requires at least one argument".to_owned(),
            DiagnosticKind::TooManyArguments => "next/dynamic only accepts 2 arguments".to_owned(),
            DiagnosticKind::InvalidOptionsType =>
                "next/dynamic options must be an object literal.\nRead more: https://nextjs.org/docs/messages/invalid-dynamic-options-type".to_owned(),
        }
    }
}

/// What the rewrite of a tree depends on besides the tree.
pub struct Env {
    /// The identifiers bound to the helper.
    pub bindings: Seq<(Seq<char>, u32)>,
    pub is_development: bool,
    pub is_server: bool,
    pub is_server_components: bool,
    /// The display text of the compiled file.
    pub label: Seq<char>,
}

/// The name of the module whose default export is the helper.
pub open spec fn helper_module() -> Seq<char> {
    "next/dynamic"@
}

/// The identifiers that the specifiers bind to a default export, in order.
pub open spec fn default_ids(specifiers: Seq<ImportSpecifier>) -> Seq<(Seq<char>, u32)>
    decreases specifiers.len(),
{
    if specifiers.len() == 0 {
        Seq::empty()
    } else {
        let init = default_ids(specifiers.drop_last());
        match specifiers.last() {
            ImportSpecifier::Default(local) => init.push(local@.id()),
            _ => init,
        }
    }
}

/// The helper bindings after an import declaration has been seen.
pub open spec fn track_import(
    bindings: Seq<(Seq<char>, u32)>,
    src: Seq<char>,
    specifiers: Seq<ImportSpecifier>,
) -> Seq<(Seq<char>, u32)> {
    if src == helper_module() {
        bindings + default_ids(specifiers)
    } else {
        bindings
    }
}

/// Where the callee is an identifier bound to the helper, its place.
pub open spec fn helper_callee(bindings: Seq<(Seq<char>, u32)>, callee: CalleeModel) -> Option<Span> {
    match callee {
        CalleeModel::Expr(c) => match *c {
            ExprModel::Ident(ident) => if bindings.contains(ident.id()) {
                Some(ident.span)
            } else {
                None
            },
            _ => None,
        },
        CalleeModel::Import => None,
    }
}

/// What is wrong with the arguments of a helper call, if anything.
pub open spec fn argument_fault(args: Seq<ExprModel>) -> Option<DiagnosticKind> {
    if args.len() == 0 {
        Some(DiagnosticKind::MissingArgument)
    } else if args.len() > 2 {
        Some(DiagnosticKind::TooManyArguments)
    } else if args.len() == 2 && !(args[1] is Object) {
        Some(DiagnosticKind::InvalidOptionsType)
    } else {
        None
    }
}

/// Whether the property is `ssr: false`, with an identifier key and the
/// literal `false`.
pub open spec fn is_ssr_false(p: PropModel) -> bool {
    match p {
        PropModel::KeyValue { key: PropKeyModel::Ident(k), value: ExprModel::Bool(b) } => k == "ssr"@
            && !b,
        _ => false,
    }
}

/// Whether any of the properties is `ssr: false`.
pub open spec fn has_ssr_false(ps: Seq<PropModel>) -> bool {
    exists|i: int| 0 <= i < ps.len() && is_ssr_false(#[trigger] ps[i])
}

/// The properties of the options that the caller wrote, if any.
pub open spec fn user_props(args: Seq<ExprModel>) -> Seq<PropModel> {
    if args.len() == 2 {
        match args[1] {
            ExprModel::Object(ps) => ps,
            _ => Seq::empty(),
        }
    } else {
        Seq::empty()
    }
}

/// The arguments of a sound helper call after the rewrite: the loader, or
/// what stands for it where the call is not rendered on the server, and the
/// options, with `loadableGenerated` before what the caller wrote.
pub open spec fn synthesized_args(env: Env, args: Seq<ExprModel>, specifier: Seq<char>) -> Seq<
    ExprModel,
> {
    let options = user_props(args);
    let first = if has_ssr_false(options) && env.is_server {
        if env.is_server_components {
            skipped_loader(args[0])
        } else {
            ExprModel::Null
        }
    } else {
        args[0]
    };
    let generated = generated_prop(env.is_development || env.is_server, env.label, specifier);
    seq![first, ExprModel::Object(seq![generated] + options)]
}

/// What becomes of a call whose callee and arguments have been rewritten,
/// and the faults reported for it.
pub open spec fn patch_call(env: Env, call: CallExprModel) -> (CallExprModel, Seq<Diagnostic>) {
    match helper_callee(env.bindings, call.callee) {
        None => (call, Seq::empty()),
        Some(span) => match argument_fault(call.args) {
            Some(kind) => (call, seq![Diagnostic { kind, span }]),
            None => match first_specifier(call.args[0]) {
                None => (call, Seq::empty()),
                Some(specifier) => (
                    CallExprModel {
                        callee: call.callee,
                        args: synthesized_args(env, call.args, specifier),
                    },
                    Seq::empty(),
                ),
            },
        },
    }
}

/// The rewrite of an expression and the faults reported on the way, in the
/// order of the walk: children first, front to back, then the node.
pub open spec fn rewrite_expr(env: Env, e: ExprModel) -> (ExprModel, Seq<Diagnostic>)
    decreases e,
{
    match e {
        ExprModel::Call(call) => {
            let r = rewrite_call(env, call);
            (ExprModel::Call(r.0), r.1)
        },
        ExprModel::Tpl { quasis, exprs } => {
            let r = rewrite_exprs(env, exprs);
            (ExprModel::Tpl { quasis, exprs: r.0 }, r.1)
        },
        ExprModel::Object(props) => {
            let r = rewrite_props(env, props);
            (ExprModel::Object(r.0), r.1)
        },
        ExprModel::Array(elems) => {
            let r = rewrite_exprs(env, elems);
            (ExprModel::Array(r.0), r.1)
        },
        ExprModel::Arrow { is_async, block, body } => {
            let r = rewrite_expr(env, *body);
            (ExprModel::Arrow { is_async, block, body: Box::new(r.0) }, r.1)
        },
        ExprModel::Member { obj, prop } => {
            let r = rewrite_expr(env, *obj);
            (ExprModel::Member { obj: Box::new(r.0), prop }, r.1)
        },
        ExprModel::TypeOf(arg) => {
            let r = rewrite_expr(env, *arg);
            (ExprModel::TypeOf(Box::new(r.0)), r.1)
        },
        ExprModel::Bin { op, left, right } => {
            let l = rewrite_expr(env, *left);
            let r = rewrite_expr(env, *right);
            (ExprModel::Bin { op, left: Box::new(l.0), right: Box::new(r.0) }, l.1 + r.1)
        },
        ExprModel::Other { handle, children } => {
            let r = rewrite_exprs(env, children);
            (ExprModel::Other { handle, children: r.0 }, r.1)
        },
        _ => (e, Seq::empty()),
    }
}

/// The rewrite of a call: its callee, its arguments, then the call itself.
pub open spec fn rewrite_call(env: Env, call: CallExprModel) -> (CallExprModel, Seq<Diagnostic>)
    decreases call,
{
    let c = rewrite_callee(env, call.callee);
    let a = rewrite_exprs(env, call.args);
    let p = patch_call(env, CallExprModel { callee: c.0, args: a.0 });
    (p.0, c.1 + a.1 + p.1)
}

pub open spec fn rewrite_callee(env: Env, c: CalleeModel) -> (CalleeModel, Seq<Diagnostic>)
    decreases c,
{
    match c {
        CalleeModel::Import => (c, Seq::empty()),
        CalleeModel::Expr(e) => {
            let r = rewrite_expr(env, *e);
            (CalleeModel::Expr(Box::new(r.0)), r.1)
        },
    }
}

pub open spec fn rewrite_exprs(env: Env, es: Seq<ExprModel>) -> (Seq<ExprModel>, Seq<Diagnostic>)
    decreases es,
{
    if es.len() == 0 {
        (Seq::empty(), Seq::empty())
    } else {
        let init = rewrite_exprs(env, es.drop_last());
        let last = rewrite_expr(env, es.last());
        (init.0.push(last.0), init.1 + last.1)
    }
}

pub open spec fn rewrite_prop(env: Env, p: PropModel) -> (PropModel, Seq<Diagnostic>)
    decreases p,
{
    match p {
        PropModel::KeyValue { key, value } => {
            let r = rewrite_expr(env, value);
            (PropModel::KeyValue { key, value: r.0 }, r.1)
        },
        PropModel::Spread(e) => {
            let r = rewrite_expr(env, e);
            (PropModel::Spread(r.0), r.1)
        },
        PropModel::Other { handle, children } => {
            let r = rewrite_exprs(env, children);
            (PropModel::Other { handle, children: r.0 }, r.1)
        },
    }
}

pub open spec fn rewrite_props(env: Env, ps: Seq<PropModel>) -> (Seq<PropModel>, Seq<Diagnostic>)
    decreases ps,
{
    if ps.len() == 0 {
        (Seq::empty(), Seq::empty())
    } else {
        let init = rewrite_props(env, ps.drop_last());
        let last = rewrite_prop(env, ps.last());
        (init.0.push(last.0), init.1 + last.1)
    }
}

/// What a walk over a file's items leaves: the items, the faults reported,
/// and the helper's bindings.
pub struct FileOutcome {
    pub items: Seq<ModuleItemModel>,
    pub diagnostics: Seq<Diagnostic>,
    pub bindings: Seq<(Seq<char>, u32)>,
}

/// The walk over a file's items, front to back. An import declaration
/// extends the bindings for the items after it; a statement is rewritten
/// under the bindings known when the walk reaches it.
pub open spec fn rewrite_items(env: Env, items: Seq<ModuleItemModel>) -> FileOutcome
    decreases items.len(),
{
    if items.len() == 0 {
        FileOutcome { items: Seq::empty(), diagnostics: Seq::empty(), bindings: env.bindings }
    } else {
        let init = rewrite_items(env, items.drop_last());
        match items.last() {
            ModuleItemModel::Import { src, specifiers } => FileOutcome {
                items: init.items.push(items.last()),
                diagnostics: init.diagnostics,
                bindings: track_import(init.bindings, src, specifiers),
            },
            ModuleItemModel::Stmt(e) => {
                let r = rewrite_expr(Env { bindings: init.bindings, ..env }, e);
                FileOutcome {
                    items: init.items.push(ModuleItemModel::Stmt(r.0)),
                    diagnostics: init.diagnostics + r.1,
                    bindings: init.bindings,
                }
            },
        }
    }
}

} // verus!
