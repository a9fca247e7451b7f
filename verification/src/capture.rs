//! Finding the specifier of a dynamic import inside a helper call's first
//! argument.
//!
//! A [`Capture`] is the context of the walk's capturing state: it exists only
//! while one helper call's first argument is being visited, and it keeps the
//! first specifier that the walk meets.

use vstd::prelude::*;
use crate::ast::{
    CallExprModel, Callee, CalleeModel, Expr, ExprModel, Prop, PropModel, expr_view, exprs_view,
    prop_view, props_view, strings_view,
};
use crate::paths::opt_view;

verus! {

/// `a` where it holds a value, else `b`.
pub open spec fn or_else(a: Option<Seq<char>>, b: Option<Seq<char>>) -> Option<Seq<char>> {
    if a is Some {
        a
    } else {
        b
    }
}

/// The specifier that a dynamic import with these arguments names: the value
/// of a string literal, or the one chunk of a template without
/// interpolations. Only the first argument counts.
pub open spec fn import_specifier(args: Seq<ExprModel>) -> Option<Seq<char>> {
    if args.len() == 0 {
        None
    } else {
        match args[0] {
            ExprModel::Str(s) => Some(s),
            ExprModel::Tpl { quasis, exprs } => if exprs.len() == 0 && quasis.len() == 1 {
                Some(quasis[0])
            } else {
                None
            },
            _ => None,
        }
    }
}

/// The specifier of the first dynamic import in `e` that names one, in the
/// order of a depth-first walk that looks at a call before its callee and
/// arguments.
pub open spec fn first_specifier(e: ExprModel) -> Option<Seq<char>>
    decreases e,
{
    match e {
        ExprModel::Call(call) => match call.callee {
            CalleeModel::Import => or_else(import_specifier(call.args), first_specifier_in(call.args)),
            CalleeModel::Expr(c) => or_else(first_specifier(*c), first_specifier_in(call.args)),
        },
        ExprModel::Tpl { quasis, exprs } => first_specifier_in(exprs),
        ExprModel::Object(props) => first_specifier_in_props(props),
        ExprModel::Array(elems) => first_specifier_in(elems),
        ExprModel::Arrow { is_async, block, body } => first_specifier(*body),
        ExprModel::Member { obj, prop } => first_specifier(*obj),
        ExprModel::TypeOf(arg) => first_specifier(*arg),
        ExprModel::Bin { op, left, right } => or_else(
            first_specifier(*left),
            first_specifier(*right),
        ),
        ExprModel::Other { handle, children } => first_specifier_in(children),
        _ => None,
    }
}

/// [`first_specifier`] over a list, front to back.
pub open spec fn first_specifier_in(es: Seq<ExprModel>) -> Option<Seq<char>>
    decreases es,
{
    if es.len() == 0 {
        None
    } else {
        or_else(first_specifier_in(es.drop_last()), first_specifier(es.last()))
    }
}

/// [`first_specifier`] of the expression that a property holds.
pub open spec fn prop_specifier(p: PropModel) -> Option<Seq<char>>
    decreases p,
{
    match p {
        PropModel::KeyValue { key, value } => first_specifier(value),
        PropModel::Spread(e) => first_specifier(e),
        PropModel::Other { handle, children } => first_specifier_in(children),
    }
}

/// [`first_specifier`] over the properties of an object literal, front to back.
pub open spec fn first_specifier_in_props(ps: Seq<PropModel>) -> Option<Seq<char>>
    decreases ps,
{
    if ps.len() == 0 {
        None
    } else {
        or_else(first_specifier_in_props(ps.drop_last()), prop_specifier(ps.last()))
    }
}

/// The capturing state of the walk, with the specifier captured so far.
///
/// Where the first argument holds several dynamic imports, the first one met
/// is kept and the others are ignored. Callers should not lean on that order:
/// it is what the walk does, not a promise about which import matters.
pub struct Capture {
    pub specifier: Option<String>,
}

impl View for Capture {
    type V = Option<Seq<char>>;

    open spec fn view(&self) -> Option<Seq<char>> {
        opt_view(self.specifier)
    }
}

impl Capture {
    /// Enters the capturing state with nothing captured.
    pub fn new() -> (c: Capture)
        ensures
            c@ is None,
    {
        Capture { specifier: None }
    }

    /// Looks at the arguments of a dynamic import. A specifier captured
    /// earlier is kept.
    pub fn note_import(&mut self, args: &Vec<Expr>)
        ensures
            final(self)@ == or_else(old(self)@, import_specifier(exprs_view(args@))),
    {
        if self.specifier.is_some() || args.len() == 0 {
            return ;
        }
        assert(exprs_view(args@)[0] == expr_view(args[0]));
        match &args[0] {
            Expr::Str(s) => {
                self.specifier = Some(s.clone());
            },
            Expr::Tpl { quasis, exprs } => {
                assert(exprs_view(exprs@).len() == exprs.len());
                assert(quasis.len() == 1 ==> strings_view(quasis@)[0] == quasis[0]@);
                if exprs.len() == 0 && quasis.len() == 1 {
                    self.specifier = Some(quasis[0].clone());
                }
            },
            _ => {},
        }
    }

    /// Visits one expression in the capturing state.
    pub fn visit_expr(&mut self, e: &Expr)
        ensures
            final(self)@ == or_else(old(self)@, first_specifier(e@)),
        decreases e, 0int,
    {
        match e {
            Expr::Call(call) => {
                let callee = &call.callee;
                let args = &call.args;
                assert(call@ == CallExprModel { callee: callee@, args: exprs_view(args@) });
                assert(e@ == ExprModel::Call(call@));
                match callee {
                    Callee::Import => {
                        assert(callee@ == CalleeModel::Import);
                        self.note_import(args);
                    },
                    Callee::Expr(c) => {
                        assert(callee@ == CalleeModel::Expr(Box::new(c@)));
                        self.visit_expr(c);
                    },
                }
                self.visit_exprs(args);
            },
            Expr::Tpl { quasis, exprs } => {
                assert(e@ == ExprModel::Tpl { quasis: strings_view(quasis@), exprs: exprs_view(exprs@) });
                self.visit_exprs(exprs);
            },
            Expr::Object(props) => {
                assert(e@ == ExprModel::Object(props_view(props@)));
                self.visit_props(props);
            },
            Expr::Array(elems) => {
                assert(e@ == ExprModel::Array(exprs_view(elems@)));
                self.visit_exprs(elems);
            },
            Expr::Arrow { is_async, block, body } => {
                assert(first_specifier(e@) == first_specifier(body@));
                self.visit_expr(body);
            },
            Expr::Member { obj, prop } => {
                assert(first_specifier(e@) == first_specifier(obj@));
                self.visit_expr(obj);
            },
            Expr::TypeOf(arg) => {
                assert(first_specifier(e@) == first_specifier(arg@));
                self.visit_expr(arg);
            },
            Expr::Bin { op, left, right } => {
                assert(first_specifier(e@) == or_else(first_specifier(left@), first_specifier(right@)));
                self.visit_expr(left);
                self.visit_expr(right);
            },
            Expr::Other { handle, children } => {
                assert(e@ == ExprModel::Other { handle: *handle, children: exprs_view(children@) });
                self.visit_exprs(children);
            },
            _ => {
                assert(first_specifier(e@) is None);
            },
        }
    }

    /// Visits a list of expressions in the capturing state, front to back.
    pub fn visit_exprs(&mut self, es: &Vec<Expr>)
        ensures
            final(self)@ == or_else(old(self)@, first_specifier_in(exprs_view(es@))),
        decreases es, 0int,
    {
        let ghost start = self@;
        let ghost all = exprs_view(es@);
        let n: usize = es.len();
        let mut i: usize = 0;
        while i < n
            invariant
                i <= n,
                n == es.len(),
                all == exprs_view(es@),
                self@ == or_else(start, first_specifier_in(all.take(i as int))),
            decreases n - i,
        {
            proof {
                assert(all.take(i + 1).drop_last() =~= all.take(i as int));
                assert(all.take(i + 1).last() == expr_view(es[i as int]));
            }
            self.visit_expr(&es[i]);
            i = i + 1;
        }
        proof {
            assert(all.take(n as int) =~= all);
        }
    }

    /// Visits the properties of an object literal in the capturing state.
    pub fn visit_props(&mut self, ps: &Vec<Prop>)
        ensures
            final(self)@ == or_else(old(self)@, first_specifier_in_props(props_view(ps@))),
        decreases ps, 0int,
    {
        let ghost start = self@;
        let ghost all = props_view(ps@);
        let n: usize = ps.len();
        let mut i: usize = 0;
        while i < n
            invariant
                i <= n,
                n == ps.len(),
                all == props_view(ps@),
                self@ == or_else(start, first_specifier_in_props(all.take(i as int))),
            decreases n - i,
        {
            proof {
                assert(all.take(i + 1).drop_last() =~= all.take(i as int));
                assert(all.take(i + 1).last() == prop_view(ps[i as int]));
            }
            match &ps[i] {
                Prop::KeyValue { key, value } => {
                    assert(prop_specifier(prop_view(ps[i as int])) == first_specifier(value@));
                    self.visit_expr(value);
                },
                Prop::Spread(e) => {
                    assert(prop_specifier(prop_view(ps[i as int])) == first_specifier(e@));
                    self.visit_expr(e);
                },
                Prop::Other { handle, children } => {
                    assert(prop_view(ps[i as int]) == PropModel::Other {
                        handle: *handle,
                        children: exprs_view(children@),
                    });
                    self.visit_exprs(children);
                },
            }
            i = i + 1;
        }
        proof {
            assert(all.take(n as int) =~= all);
        }
    }
}

} // verus!
