//! The traversal: a patcher that holds the build's settings, the helper's
//! bindings and the faults reported so far, and rewrites a tree in one walk.

use vstd::prelude::*;
use crate::ast::{
    CallExpr, CallExprModel, Callee, CalleeModel, Expr, ExprModel, Id, Ident, ImportDecl,
    ImportSpecifier, ModuleItem, ModuleItemModel, Prop, PropKey, PropModel, Span, expr_view,
    exprs_view, ids_view, items_view, prop_view, props_view, strings_view,
};
use crate::capture::Capture;
use crate::fragments::{build_generated_prop, build_skipped_loader};
use crate::pass::{
    Diagnostic, DiagnosticKind, Env, argument_fault, default_ids, has_ssr_false, helper_callee,
    is_ssr_false, patch_call, rewrite_call, rewrite_callee, rewrite_expr, rewrite_exprs,
    rewrite_items, rewrite_prop, rewrite_props, synthesized_args, track_import, user_props,
};
use crate::paths::{FileName, opt_view, rel_filename, rel_filename_spec};

verus! {

/// The state of one file's walk. A patcher belongs to one file and is not
/// shared.
pub struct NextDynamicPatcher {
    pub is_development: bool,
    pub is_server: bool,
    pub is_server_components: bool,
    pub pages_dir: Option<String>,
    pub filename: FileName,
    /// The identifiers bound to the helper by the imports seen so far.
    pub dynamic_bindings: Vec<Id>,
    /// The faults reported so far, oldest first.
    pub diagnostics: Vec<Diagnostic>,
}

/// A patcher for one file, with no bindings and no faults yet.
pub fn next_dynamic(
    is_development: bool,
    is_server: bool,
    is_server_components: bool,
    filename: FileName,
    pages_dir: Option<String>,
) -> (p: NextDynamicPatcher)
    ensures
        p.is_development == is_development,
        p.is_server == is_server,
        p.is_server_components == is_server_components,
        p.filename == filename,
        p.pages_dir == pages_dir,
        p.dynamic_bindings@.len() == 0,
        p.diagnostics@.len() == 0,
        p.env().bindings == Seq::<(Seq<char>, u32)>::empty(),
{
    let p = NextDynamicPatcher {
        is_development,
        is_server,
        is_server_components,
        pages_dir,
        filename,
        dynamic_bindings: Vec::new(),
        diagnostics: Vec::new(),
    };
    assert(p.env().bindings =~= Seq::<(Seq<char>, u32)>::empty());
    p
}

/// A copy of an identifier.
fn clone_ident(ident: &Ident) -> (r: Ident)
    ensures
        r == *ident,
{
    Ident { sym: ident.sym.clone(), ctxt: ident.ctxt, span: ident.span }
}

/// A copy of a list of strings.
fn clone_strings(ss: &Vec<String>) -> (r: Vec<String>)
    ensures
        r@ == ss@,
{
    let mut out: Vec<String> = Vec::new();
    let n: usize = ss.len();
    let mut i: usize = 0;
    while i < n
        invariant
            i <= n,
            n == ss.len(),
            out@ == ss@.take(i as int),
        decreases n - i,
    {
        out.push(ss[i].clone());
        assert(out@ =~= ss@.take(i + 1));
        i = i + 1;
    }
    assert(ss@.take(n as int) =~= ss@);
    out
}

/// A copy of a property key.
fn clone_key(key: &PropKey) -> (r: PropKey)
    ensures
        r == *key,
{
    match key {
        PropKey::Ident(s) => PropKey::Ident(s.clone()),
        PropKey::Str(s) => PropKey::Str(s.clone()),
    }
}

/// Whether `s` is the text `text`.
fn string_is(s: &String, text: &str) -> (b: bool)
    ensures
        b == (s@ == text@),
{
    let other = text.to_owned();
    *s == other
}

/// What is wrong with the arguments of a helper call, if anything.
pub fn check_arguments(args: &Vec<Expr>) -> (r: Option<DiagnosticKind>)
    ensures
        r == argument_fault(exprs_view(args@)),
{
    if args.len() == 0 {
        Some(DiagnosticKind::MissingArgument)
    } else if args.len() > 2 {
        Some(DiagnosticKind::TooManyArguments)
    } else if args.len() == 2 {
        assert(exprs_view(args@)[1] == expr_view(args[1]));
        match &args[1] {
            Expr::Object(_) => None,
            _ => Some(DiagnosticKind::InvalidOptionsType),
        }
    } else {
        None
    }
}

/// Whether the property is `ssr: false`.
pub fn prop_is_ssr_false(p: &Prop) -> (b: bool)
    ensures
        b == is_ssr_false(p@),
{
    match p {
        Prop::KeyValue { key, value } => {
            assert(p@ == PropModel::KeyValue { key: key@, value: value@ });
            match key {
                PropKey::Ident(k) => match value {
                    Expr::Bool(v) => !*v && string_is(k, "ssr"),
                    _ => false,
                },
                PropKey::Str(_) => false,
            }
        },
        Prop::Spread(e) => {
            assert(p@ == PropModel::Spread(e@));
            false
        },
        Prop::Other { handle, children } => {
            assert(p@ == PropModel::Other { handle: *handle, children: exprs_view(children@) });
            false
        },
    }
}

/// Whether any of the properties is `ssr: false`.
pub fn ssr_disabled(props: &Vec<Prop>) -> (b: bool)
    ensures
        b == has_ssr_false(props_view(props@)),
{
    let ghost all = props_view(props@);
    let n: usize = props.len();
    let mut found = false;
    let mut i: usize = 0;
    while i < n
        invariant
            i <= n,
            n == props.len(),
            all == props_view(props@),
            found == (exists|j: int| 0 <= j < i && is_ssr_false(#[trigger] all[j])),
        decreases n - i,
    {
        assert(all[i as int] == prop_view(props[i as int]));
        if prop_is_ssr_false(&props[i]) {
            found = true;
        }
        i = i + 1;
    }
    found
}

impl NextDynamicPatcher {
    /// What the rewrite depends on, as the patcher now stands.
    pub open spec fn env(&self) -> Env {
        Env {
            bindings: ids_view(self.dynamic_bindings@),
            is_development: self.is_development,
            is_server: self.is_server,
            is_server_components: self.is_server_components,
            label: rel_filename_spec(opt_view(self.pages_dir), self.filename@),
        }
    }

    /// The build's settings, without the bindings.
    pub open spec fn same_settings(&self, other: &NextDynamicPatcher) -> bool {
        &&& self.is_development == other.is_development
        &&& self.is_server == other.is_server
        &&& self.is_server_components == other.is_server_components
        &&& self.pages_dir == other.pages_dir
        &&& self.filename == other.filename
    }

    /// Sees an import declaration: where it imports from the helper's
    /// module, each identifier bound to the default export is recorded as a
    /// binding of the helper. The declaration comes back as it was.
    pub fn fold_import_decl(&mut self, decl: ImportDecl) -> (r: ImportDecl)
        ensures
            r == decl,
            final(self).same_settings(old(self)),
            final(self).diagnostics == old(self).diagnostics,
            final(self).env().bindings == track_import(
                old(self).env().bindings,
                decl.src@,
                decl.specifiers@,
            ),
    {
        let ghost before = ids_view(self.dynamic_bindings@);
        if string_is(&decl.src, "next/dynamic") {
            let n: usize = decl.specifiers.len();
            let mut i: usize = 0;
            assert(decl.specifiers@.take(0).len() == 0);
            assert(before + default_ids(decl.specifiers@.take(0)) =~= before);
            while i < n
                invariant
                    i <= n,
                    n == decl.specifiers.len(),
                    self.same_settings(old(self)),
                    self.diagnostics == old(self).diagnostics,
                    ids_view(self.dynamic_bindings@) == before + default_ids(
                        decl.specifiers@.take(i as int),
                    ),
                decreases n - i,
            {
                let ghost seen = ids_view(self.dynamic_bindings@);
                assert(decl.specifiers@.take(i + 1).drop_last() =~= decl.specifiers@.take(i as int));
                assert(decl.specifiers@.take(i + 1).last() == decl.specifiers@[i as int]);
                match &decl.specifiers[i] {
                    ImportSpecifier::Default(local) => {
                        let id = Id { sym: local.sym.clone(), ctxt: local.ctxt };
                        self.dynamic_bindings.push(id);
                        assert(ids_view(self.dynamic_bindings@) =~= seen.push(local@.id()));
                        assert(before + default_ids(decl.specifiers@.take(i as int)).push(
                            local@.id(),
                        ) =~= seen.push(local@.id()));
                    },
                    _ => {},
                }
                i = i + 1;
            }
            assert(decl.specifiers@.take(n as int) =~= decl.specifiers@);
        }
        decl
    }

    /// Whether the identifier is bound to the helper.
    pub fn is_binding(&self, ident: &Ident) -> (b: bool)
        ensures
            b == self.env().bindings.contains(ident@.id()),
    {
        let ghost all = ids_view(self.dynamic_bindings@);
        let n: usize = self.dynamic_bindings.len();
        let mut i: usize = 0;
        while i < n
            invariant
                i <= n,
                n == self.dynamic_bindings.len(),
                all == ids_view(self.dynamic_bindings@),
                forall|j: int| 0 <= j < i ==> all[j] != ident@.id(),
            decreases n - i,
        {
            assert(all[i as int] == self.dynamic_bindings[i as int]@);
            if self.dynamic_bindings[i].ctxt == ident.ctxt && self.dynamic_bindings[i].sym
                == ident.sym {
                return true;
            }
            i = i + 1;
        }
        false
    }

    /// Where the callee is an identifier bound to the helper, its place.
    pub fn helper_span(&self, callee: &Callee) -> (r: Option<Span>)
        ensures
            r == helper_callee(self.env().bindings, callee@),
    {
        match callee {
            Callee::Import => None,
            Callee::Expr(c) => {
                assert(callee@ == CalleeModel::Expr(Box::new(c@)));
                match &**c {
                    Expr::Ident(ident) => if self.is_binding(ident) {
                        Some(ident.span)
                    } else {
                        None
                    },
                    _ => None,
                }
            },
        }
    }

    /// Reports a fault.
    fn report(&mut self, kind: DiagnosticKind, span: Span)
        ensures
            final(self).same_settings(old(self)),
            final(self).dynamic_bindings == old(self).dynamic_bindings,
            final(self).diagnostics@ == old(self).diagnostics@ + seq![Diagnostic { kind, span }],
    {
        self.diagnostics.push(Diagnostic { kind, span });
        assert(self.diagnostics@ =~= old(self).diagnostics@ + seq![Diagnostic { kind, span }]);
    }

    /// Builds the arguments of a sound helper call from its arguments as
    /// written and the specifier captured in the first of them.
    fn synthesize_args(&self, args: Vec<Expr>, specifier: String) -> (r: Vec<Expr>)
        requires
            argument_fault(exprs_view(args@)) is None,
        ensures
            exprs_view(r@) == synthesized_args(self.env(), exprs_view(args@), specifier@),
    {
        let ghost models = exprs_view(args@);
        let mut args = args;
        let n: usize = args.len();
        assert(n == 2 ==> models[1] == expr_view(args[1]));
        assert(models[0] == expr_view(args[0]));
        let mut props: Vec<Prop> = Vec::new();
        if n == 2 {
            match args.pop() {
                Some(Expr::Object(options)) => {
                    props = options;
                },
                _ => {},
            }
        }
        assert(props_view(props@) =~= user_props(models));
        let loader = match args.pop() {
            Some(e) => e,
            None => Expr::Null,
        };
        assert(loader@ == models[0]);
        let first = if self.is_server && ssr_disabled(&props) {
            if self.is_server_components {
                build_skipped_loader(loader)
            } else {
                Expr::Null
            }
        } else {
            loader
        };
        let label = rel_filename(&self.pages_dir, &self.filename);
        let generated = build_generated_prop(self.is_development || self.is_server, label, specifier);
        let ghost written = props@;
        props.insert(0, generated);
        assert(props_view(props@) =~= seq![generated@] + props_view(written));
        let second = Expr::Object(props);
        let mut out: Vec<Expr> = Vec::new();
        out.push(first);
        out.push(second);
        assert(exprs_view(out@) =~= seq![first@, second@]);
        out
    }

    /// Rewrites a call whose callee and arguments have been visited: a call
    /// of the helper is checked, its first argument is searched for a
    /// dynamic import, and where one is found the call gets its generated
    /// options. Any other call, a faulty one and one without a specifier
    /// come back as they were.
    pub fn patch_call_expr(&mut self, call: CallExpr) -> (r: CallExpr)
        ensures
            r@ == patch_call(old(self).env(), call@).0,
            final(self).diagnostics@ == old(self).diagnostics@ + patch_call(
                old(self).env(),
                call@,
            ).1,
            final(self).same_settings(old(self)),
            final(self).dynamic_bindings == old(self).dynamic_bindings,
    {
        assert(call@ == CallExprModel { callee: call.callee@, args: exprs_view(call.args@) });
        assert(self.diagnostics@ + Seq::<Diagnostic>::empty() =~= self.diagnostics@);
        let span = match self.helper_span(&call.callee) {
            Some(span) => span,
            None => {
                return call;
            },
        };
        match check_arguments(&call.args) {
            Some(kind) => {
                self.report(kind, span);
                return call;
            },
            None => {},
        }
        assert(exprs_view(call.args@)[0] == expr_view(call.args[0]));
        let mut capture = Capture::new();
        capture.visit_expr(&call.args[0]);
        let specifier = match capture.specifier {
            Some(s) => s,
            None => {
                return call;
            },
        };
        let CallExpr { callee, args } = call;
        let new_args = self.synthesize_args(args, specifier);
        let r = CallExpr { callee, args: new_args };
        assert(r@ == CallExprModel { callee: callee@, args: exprs_view(new_args@) });
        r
    }

    /// Visits a call: its callee and its arguments first, then the call
    /// itself.
    pub fn fold_call_expr(&mut self, expr: &CallExpr) -> (r: CallExpr)
        ensures
            r@ == rewrite_call(old(self).env(), expr@).0,
            final(self).diagnostics@ == old(self).diagnostics@ + rewrite_call(
                old(self).env(),
                expr@,
            ).1,
            final(self).same_settings(old(self)),
            final(self).dynamic_bindings == old(self).dynamic_bindings,
        decreases expr,
    {
        let ghost env = self.env();
        let ghost d0 = self.diagnostics@;
        assert(expr@ == CallExprModel { callee: expr.callee@, args: exprs_view(expr.args@) });
        let callee = self.fold_callee(&expr.callee);
        let args = self.fold_exprs(&expr.args);
        let visited = CallExpr { callee, args };
        assert(visited@ == CallExprModel { callee: callee@, args: exprs_view(args@) });
        let r = self.patch_call_expr(visited);
        proof {
            let c = rewrite_callee(env, expr.callee@);
            let a = rewrite_exprs(env, exprs_view(expr.args@));
            let p = patch_call(env, visited@);
            assert(self.diagnostics@ =~= d0 + (c.1 + a.1 + p.1));
        }
        r
    }

    /// Visits what a call applies.
    pub fn fold_callee(&mut self, callee: &Callee) -> (r: Callee)
        ensures
            r@ == rewrite_callee(old(self).env(), callee@).0,
            final(self).diagnostics@ == old(self).diagnostics@ + rewrite_callee(
                old(self).env(),
                callee@,
            ).1,
            final(self).same_settings(old(self)),
            final(self).dynamic_bindings == old(self).dynamic_bindings,
        decreases callee,
    {
        match callee {
            Callee::Import => {
                assert(self.diagnostics@ + Seq::<Diagnostic>::empty() =~= self.diagnostics@);
                Callee::Import
            },
            Callee::Expr(e) => {
                assert(callee@ == CalleeModel::Expr(Box::new(e@)));
                let inner = self.fold_expr(e);
                let r = Callee::Expr(Box::new(inner));
                assert(r@ == CalleeModel::Expr(Box::new(inner@)));
                r
            },
        }
    }

    /// Visits an expression: every call of the helper in it is checked and
    /// rewritten, inner calls before the calls that hold them.
    pub fn fold_expr(&mut self, e: &Expr) -> (r: Expr)
        ensures
            r@ == rewrite_expr(old(self).env(), e@).0,
            final(self).diagnostics@ == old(self).diagnostics@ + rewrite_expr(
                old(self).env(),
                e@,
            ).1,
            final(self).same_settings(old(self)),
            final(self).dynamic_bindings == old(self).dynamic_bindings,
        decreases e,
    {
        let ghost env = self.env();
        let ghost d0 = self.diagnostics@;
        assert(d0 + Seq::<Diagnostic>::empty() =~= d0);
        match e {
            Expr::Ident(ident) => Expr::Ident(clone_ident(ident)),
            Expr::Str(s) => Expr::Str(s.clone()),
            Expr::Bool(b) => Expr::Bool(*b),
            Expr::Null => Expr::Null,
            Expr::Call(call) => {
                assert(e@ == ExprModel::Call(call@));
                let folded = self.fold_call_expr(call);
                let r = Expr::Call(folded);
                assert(r@ == ExprModel::Call(folded@));
                r
            },
            Expr::Tpl { quasis, exprs } => {
                assert(e@ == ExprModel::Tpl {
                    quasis: strings_view(quasis@),
                    exprs: exprs_view(exprs@),
                });
                let folded = self.fold_exprs(exprs);
                let copied = clone_strings(quasis);
                let r = Expr::Tpl { quasis: copied, exprs: folded };
                assert(r@ == ExprModel::Tpl {
                    quasis: strings_view(copied@),
                    exprs: exprs_view(folded@),
                });
                r
            },
            Expr::Object(props) => {
                assert(e@ == ExprModel::Object(props_view(props@)));
                let folded = self.fold_props(props);
                let r = Expr::Object(folded);
                assert(r@ == ExprModel::Object(props_view(folded@)));
                r
            },
            Expr::Array(elems) => {
                assert(e@ == ExprModel::Array(exprs_view(elems@)));
                let folded = self.fold_exprs(elems);
                let r = Expr::Array(folded);
                assert(r@ == ExprModel::Array(exprs_view(folded@)));
                r
            },
            Expr::Arrow { is_async, block, body } => {
                assert(e@ == ExprModel::Arrow {
                    is_async: *is_async,
                    block: *block,
                    body: Box::new(body@),
                });
                let inner = self.fold_expr(body);
                let r = Expr::Arrow { is_async: *is_async, block: *block, body: Box::new(inner) };
                assert(r@ == ExprModel::Arrow {
                    is_async: *is_async,
                    block: *block,
                    body: Box::new(inner@),
                });
                r
            },
            Expr::Member { obj, prop } => {
                assert(e@ == ExprModel::Member { obj: Box::new(obj@), prop: prop@ });
                let inner = self.fold_expr(obj);
                let r = Expr::Member { obj: Box::new(inner), prop: prop.clone() };
                assert(r@ == ExprModel::Member { obj: Box::new(inner@), prop: prop@ });
                r
            },
            Expr::TypeOf(arg) => {
                assert(e@ == ExprModel::TypeOf(Box::new(arg@)));
                let inner = self.fold_expr(arg);
                let r = Expr::TypeOf(Box::new(inner));
                assert(r@ == ExprModel::TypeOf(Box::new(inner@)));
                r
            },
            Expr::Bin { op, left, right } => {
                assert(e@ == ExprModel::Bin {
                    op: *op,
                    left: Box::new(left@),
                    right: Box::new(right@),
                });
                let l = self.fold_expr(left);
                let r = self.fold_expr(right);
                let both = Expr::Bin { op: *op, left: Box::new(l), right: Box::new(r) };
                assert(both@ == ExprModel::Bin {
                    op: *op,
                    left: Box::new(l@),
                    right: Box::new(r@),
                });
                proof {
                    let dl = rewrite_expr(env, left@).1;
                    let dr = rewrite_expr(env, right@).1;
                    assert(self.diagnostics@ =~= d0 + (dl + dr));
                }
                both
            },
            Expr::Other { handle, children } => {
                assert(e@ == ExprModel::Other { handle: *handle, children: exprs_view(children@) });
                let folded = self.fold_exprs(children);
                let r = Expr::Other { handle: *handle, children: folded };
                assert(r@ == ExprModel::Other { handle: *handle, children: exprs_view(folded@) });
                r
            },
        }
    }

    /// Visits a list of expressions, front to back.
    pub fn fold_exprs(&mut self, es: &Vec<Expr>) -> (r: Vec<Expr>)
        ensures
            exprs_view(r@) == rewrite_exprs(old(self).env(), exprs_view(es@)).0,
            final(self).diagnostics@ == old(self).diagnostics@ + rewrite_exprs(
                old(self).env(),
                exprs_view(es@),
            ).1,
            final(self).same_settings(old(self)),
            final(self).dynamic_bindings == old(self).dynamic_bindings,
        decreases es,
    {
        let ghost env = self.env();
        let ghost d0 = self.diagnostics@;
        let ghost all = exprs_view(es@);
        let mut out: Vec<Expr> = Vec::new();
        let n: usize = es.len();
        let mut i: usize = 0;
        proof {
            assert(all.take(0).len() == 0);
            assert(exprs_view(out@) =~= Seq::<ExprModel>::empty());
            assert(d0 + Seq::<Diagnostic>::empty() =~= d0);
        }
        while i < n
            invariant
                i <= n,
                n == es.len(),
                all == exprs_view(es@),
                self.env() == env,
                self.same_settings(old(self)),
                self.dynamic_bindings == old(self).dynamic_bindings,
                exprs_view(out@) == rewrite_exprs(env, all.take(i as int)).0,
                self.diagnostics@ == d0 + rewrite_exprs(env, all.take(i as int)).1,
            decreases n - i,
        {
            let ghost done = out@;
            let ghost seen = rewrite_exprs(env, all.take(i as int)).1;
            proof {
                assert(all.take(i + 1).drop_last() =~= all.take(i as int));
                assert(all.take(i + 1).last() == expr_view(es[i as int]));
            }
            let x = self.fold_expr(&es[i]);
            out.push(x);
            proof {
                assert(exprs_view(out@) =~= exprs_view(done).push(x@));
                assert(self.diagnostics@ =~= d0 + (seen + rewrite_expr(env, es[i as int]@).1));
            }
            i = i + 1;
        }
        proof {
            assert(all.take(n as int) =~= all);
        }
        out
    }

    /// Visits one member of an object literal.
    pub fn fold_prop(&mut self, p: &Prop) -> (r: Prop)
        ensures
            r@ == rewrite_prop(old(self).env(), p@).0,
            final(self).diagnostics@ == old(self).diagnostics@ + rewrite_prop(
                old(self).env(),
                p@,
            ).1,
            final(self).same_settings(old(self)),
            final(self).dynamic_bindings == old(self).dynamic_bindings,
        decreases p,
    {
        match p {
            Prop::KeyValue { key, value } => {
                assert(p@ == PropModel::KeyValue { key: key@, value: value@ });
                let folded = self.fold_expr(value);
                let r = Prop::KeyValue { key: clone_key(key), value: folded };
                assert(r@ == PropModel::KeyValue { key: key@, value: folded@ });
                r
            },
            Prop::Spread(e) => {
                assert(p@ == PropModel::Spread(e@));
                let folded = self.fold_expr(e);
                let r = Prop::Spread(folded);
                assert(r@ == PropModel::Spread(folded@));
                r
            },
            Prop::Other { handle, children } => {
                assert(p@ == PropModel::Other { handle: *handle, children: exprs_view(children@) });
                let folded = self.fold_exprs(children);
                let r = Prop::Other { handle: *handle, children: folded };
                assert(r@ == PropModel::Other { handle: *handle, children: exprs_view(folded@) });
                r
            },
        }
    }

    /// Visits the members of an object literal, front to back.
    pub fn fold_props(&mut self, ps: &Vec<Prop>) -> (r: Vec<Prop>)
        ensures
            props_view(r@) == rewrite_props(old(self).env(), props_view(ps@)).0,
            final(self).diagnostics@ == old(self).diagnostics@ + rewrite_props(
                old(self).env(),
                props_view(ps@),
            ).1,
            final(self).same_settings(old(self)),
            final(self).dynamic_bindings == old(self).dynamic_bindings,
        decreases ps,
    {
        let ghost env = self.env();
        let ghost d0 = self.diagnostics@;
        let ghost all = props_view(ps@);
        let mut out: Vec<Prop> = Vec::new();
        let n: usize = ps.len();
        let mut i: usize = 0;
        proof {
            assert(all.take(0).len() == 0);
            assert(props_view(out@) =~= Seq::<PropModel>::empty());
            assert(d0 + Seq::<Diagnostic>::empty() =~= d0);
        }
        while i < n
            invariant
                i <= n,
                n == ps.len(),
                all == props_view(ps@),
                self.env() == env,
                self.same_settings(old(self)),
                self.dynamic_bindings == old(self).dynamic_bindings,
                props_view(out@) == rewrite_props(env, all.take(i as int)).0,
                self.diagnostics@ == d0 + rewrite_props(env, all.take(i as int)).1,
            decreases n - i,
        {
            let ghost done = out@;
            let ghost seen = rewrite_props(env, all.take(i as int)).1;
            proof {
                assert(all.take(i + 1).drop_last() =~= all.take(i as int));
                assert(all.take(i + 1).last() == prop_view(ps[i as int]));
            }
            let x = self.fold_prop(&ps[i]);
            out.push(x);
            proof {
                assert(props_view(out@) =~= props_view(done).push(x@));
                assert(self.diagnostics@ =~= d0 + (seen + rewrite_prop(env, ps[i as int]@).1));
            }
            i = i + 1;
        }
        proof {
            assert(all.take(n as int) =~= all);
        }
        out
    }

    /// Walks a file's items, front to back: import declarations are seen,
    /// statements are rewritten.
    pub fn fold_module(&mut self, items: &Vec<ModuleItem>) -> (r: Vec<ModuleItem>)
        ensures
            items_view(r@) == rewrite_items(old(self).env(), items_view(items@)).items,
            final(self).diagnostics@ == old(self).diagnostics@ + rewrite_items(
                old(self).env(),
                items_view(items@),
            ).diagnostics,
            final(self).env().bindings == rewrite_items(
                old(self).env(),
                items_view(items@),
            ).bindings,
            final(self).same_settings(old(self)),
    {
        let ghost env = self.env();
        let ghost d0 = self.diagnostics@;
        let ghost all = items_view(items@);
        let mut out: Vec<ModuleItem> = Vec::new();
        let n: usize = items.len();
        let mut i: usize = 0;
        proof {
            assert(all.take(0).len() == 0);
            assert(items_view(out@) =~= Seq::<ModuleItemModel>::empty());
            assert(d0 + Seq::<Diagnostic>::empty() =~= d0);
        }
        while i < n
            invariant
                i <= n,
                n == items.len(),
                all == items_view(items@),
                self.same_settings(old(self)),
                env == old(self).env(),
                items_view(out@) == rewrite_items(env, all.take(i as int)).items,
                self.diagnostics@ == d0 + rewrite_items(env, all.take(i as int)).diagnostics,
                self.env().bindings == rewrite_items(env, all.take(i as int)).bindings,
            decreases n - i,
        {
            let ghost done = out@;
            let ghost seen = rewrite_items(env, all.take(i as int));
            proof {
                assert(all.take(i + 1).drop_last() =~= all.take(i as int));
                assert(all.take(i + 1).last() == items[i as int]@);
                assert(self.env() == Env { bindings: seen.bindings, ..env });
            }
            let item = match &items[i] {
                ModuleItem::Import(decl) => {
                    let copy = clone_import_decl(decl);
                    ModuleItem::Import(self.fold_import_decl(copy))
                },
                ModuleItem::Stmt(e) => {
                    let folded = self.fold_expr(e);
                    proof {
                        let r = rewrite_expr(self.env(), e@);
                        assert(self.diagnostics@ =~= d0 + (seen.diagnostics + r.1));
                    }
                    ModuleItem::Stmt(folded)
                },
            };
            out.push(item);
            proof {
                assert(items_view(out@) =~= items_view(done).push(item@));
            }
            i = i + 1;
        }
        proof {
            assert(all.take(n as int) =~= all);
        }
        out
    }
}

/// A copy of an import declaration.
fn clone_import_decl(decl: &ImportDecl) -> (r: ImportDecl)
    ensures
        r.src == decl.src,
        r.specifiers@ == decl.specifiers@,
{
    let mut specifiers: Vec<ImportSpecifier> = Vec::new();
    let n: usize = decl.specifiers.len();
    let mut i: usize = 0;
    while i < n
        invariant
            i <= n,
            n == decl.specifiers.len(),
            specifiers@ == decl.specifiers@.take(i as int),
        decreases n - i,
    {
        let copy = match &decl.specifiers[i] {
            ImportSpecifier::Default(local) => ImportSpecifier::Default(clone_ident(local)),
            ImportSpecifier::Named(local) => ImportSpecifier::Named(clone_ident(local)),
            ImportSpecifier::Namespace(local) => ImportSpecifier::Namespace(clone_ident(local)),
        };
        specifiers.push(copy);
        assert(specifiers@ =~= decl.specifiers@.take(i + 1));
        i = i + 1;
    }
    assert(decl.specifiers@.take(n as int) =~= decl.specifiers@);
    ImportDecl { src: decl.src.clone(), specifiers }
}

} // verus!
