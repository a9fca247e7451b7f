//! Laws of the rewrite, proved over the models that the contracts use.

use vstd::prelude::*;
use crate::ast::{
    BinaryOp, CallExprModel, CalleeModel, ExprModel, ImportSpecifier, ModuleItemModel,
    PropKeyModel, PropModel,
};
use crate::capture::{
    first_specifier, first_specifier_in, first_specifier_in_props, import_specifier,
    prop_specifier,
};
use crate::fragments::{
    client_only_cond, generated_prop, made_ident, modules_object, resolve_weak_call,
    webpack_object,
};
use crate::pass::{
    Diagnostic, Env, FileOutcome, argument_fault, has_ssr_false, helper_callee, helper_module,
    patch_call, rewrite_call, rewrite_expr, rewrite_exprs, rewrite_items, rewrite_prop,
    rewrite_props, track_import, user_props,
};

verus! {

/// An import from any module but the helper's binds nothing to the helper.
pub proof fn law_other_import_binds_nothing(
    bindings: Seq<(Seq<char>, u32)>,
    src: Seq<char>,
    specifiers: Seq<ImportSpecifier>,
)
    requires
        src != helper_module(),
    ensures
        track_import(bindings, src, specifiers) == bindings,
{
}

/// While nothing is bound to the helper, the rewrite of an expression is the
/// expression itself, and nothing is reported.
pub proof fn law_no_binding_expr_unchanged(env: Env, e: ExprModel)
    requires
        env.bindings.len() == 0,
    ensures
        rewrite_expr(env, e) == (e, Seq::<Diagnostic>::empty()),
    decreases e,
{
    let none = Seq::<Diagnostic>::empty();
    assert(none + none =~= none);
    match e {
        ExprModel::Call(call) => {
            law_no_binding_call_unchanged(env, call);
        },
        ExprModel::Tpl { quasis, exprs } => {
            law_no_binding_exprs_unchanged(env, exprs);
        },
        ExprModel::Object(props) => {
            law_no_binding_props_unchanged(env, props);
        },
        ExprModel::Array(elems) => {
            law_no_binding_exprs_unchanged(env, elems);
        },
        ExprModel::Arrow { is_async, block, body } => {
            law_no_binding_expr_unchanged(env, *body);
        },
        ExprModel::Member { obj, prop } => {
            law_no_binding_expr_unchanged(env, *obj);
        },
        ExprModel::TypeOf(arg) => {
            law_no_binding_expr_unchanged(env, *arg);
        },
        ExprModel::Bin { op, left, right } => {
            law_no_binding_expr_unchanged(env, *left);
            law_no_binding_expr_unchanged(env, *right);
        },
        ExprModel::Other { handle, children } => {
            law_no_binding_exprs_unchanged(env, children);
        },
        _ => {},
    }
}

/// While nothing is bound to the helper, the rewrite of a call is the call
/// itself, and nothing is reported.
pub proof fn law_no_binding_call_unchanged(env: Env, call: CallExprModel)
    requires
        env.bindings.len() == 0,
    ensures
        rewrite_call(env, call) == (call, Seq::<Diagnostic>::empty()),
    decreases call,
{
    let none = Seq::<Diagnostic>::empty();
    assert(none + none + none =~= none);
    match call.callee {
        CalleeModel::Import => {},
        CalleeModel::Expr(c) => {
            law_no_binding_expr_unchanged(env, *c);
        },
    }
    law_no_binding_exprs_unchanged(env, call.args);
    assert(helper_callee(env.bindings, call.callee) is None);
}

/// While nothing is bound to the helper, the rewrite of a list of
/// expressions is the list itself, and nothing is reported.
pub proof fn law_no_binding_exprs_unchanged(env: Env, es: Seq<ExprModel>)
    requires
        env.bindings.len() == 0,
    ensures
        rewrite_exprs(env, es) == (es, Seq::<Diagnostic>::empty()),
    decreases es,
{
    let none = Seq::<Diagnostic>::empty();
    assert(none + none =~= none);
    if es.len() == 0 {
        assert(es =~= Seq::<ExprModel>::empty());
    } else {
        law_no_binding_exprs_unchanged(env, es.drop_last());
        law_no_binding_expr_unchanged(env, es.last());
        assert(es.drop_last().push(es.last()) =~= es);
    }
}

/// While nothing is bound to the helper, the rewrite of the members of an
/// object literal is the list itself, and nothing is reported.
pub proof fn law_no_binding_props_unchanged(env: Env, ps: Seq<PropModel>)
    requires
        env.bindings.len() == 0,
    ensures
        rewrite_props(env, ps) == (ps, Seq::<Diagnostic>::empty()),
    decreases ps,
{
    let none = Seq::<Diagnostic>::empty();
    assert(none + none =~= none);
    if ps.len() == 0 {
        assert(ps =~= Seq::<PropModel>::empty());
    } else {
        law_no_binding_props_unchanged(env, ps.drop_last());
        match ps.last() {
            PropModel::KeyValue { key, value } => {
                law_no_binding_expr_unchanged(env, value);
            },
            PropModel::Spread(e) => {
                law_no_binding_expr_unchanged(env, e);
            },
            PropModel::Other { handle, children } => {
                law_no_binding_exprs_unchanged(env, children);
            },
        }
        assert(rewrite_prop(env, ps.last()) == (ps.last(), none));
        assert(ps.drop_last().push(ps.last()) =~= ps);
    }
}

/// Whether the item imports from the helper's module.
pub open spec fn imports_helper(item: ModuleItemModel) -> bool {
    match item {
        ModuleItemModel::Import { src, specifiers } => src == helper_module(),
        ModuleItemModel::Stmt(e) => false,
    }
}

/// A walk that starts without bindings over a file that nowhere imports
/// from the helper's module changes no item, reports nothing and binds
/// nothing.
pub proof fn law_file_without_helper_import_unchanged(env: Env, items: Seq<ModuleItemModel>)
    requires
        env.bindings.len() == 0,
        forall|i: int| 0 <= i < items.len() ==> !imports_helper(#[trigger] items[i]),
    ensures
        rewrite_items(env, items) == (FileOutcome {
            items,
            diagnostics: Seq::<Diagnostic>::empty(),
            bindings: env.bindings,
        }),
    decreases items.len(),
{
    let none = Seq::<Diagnostic>::empty();
    assert(none + none =~= none);
    if items.len() == 0 {
        assert(items =~= Seq::<ModuleItemModel>::empty());
    } else {
        let init = items.drop_last();
        assert forall|i: int| 0 <= i < init.len() implies !imports_helper(#[trigger] init[i]) by {
            assert(init[i] == items[i]);
        }
        law_file_without_helper_import_unchanged(env, init);
        assert(!imports_helper(items[items.len() - 1]));
        match items.last() {
            ModuleItemModel::Import { src, specifiers } => {},
            ModuleItemModel::Stmt(e) => {
                assert((Env { bindings: env.bindings, ..env }) == env);
                law_no_binding_expr_unchanged(env, e);
            },
        }
        assert(init.push(items.last()) =~= items);
    }
}

/// A helper call with faulty arguments stays as it is, and exactly one fault
/// is reported for it, at its callee.
pub proof fn law_faulty_call_unchanged(env: Env, call: CallExprModel)
    requires
        helper_callee(env.bindings, call.callee) is Some,
        argument_fault(call.args) is Some,
    ensures
        patch_call(env, call).0 == call,
        patch_call(env, call).1 == seq![
            Diagnostic {
                kind: argument_fault(call.args)->0,
                span: helper_callee(env.bindings, call.callee)->0,
            },
        ],
{
}

/// A sound helper call in whose first argument a specifier is found keeps
/// its callee and gets exactly two arguments. The second is an object whose
/// first member is `loadableGenerated`, made from that specifier, followed
/// by the members that the caller wrote, in their order. Nothing is reported.
pub proof fn law_sound_call_gets_generated_options(env: Env, call: CallExprModel)
    requires
        helper_callee(env.bindings, call.callee) is Some,
        argument_fault(call.args) is None,
        first_specifier(call.args[0]) is Some,
    ensures
        patch_call(env, call).1 == Seq::<Diagnostic>::empty(),
        patch_call(env, call).0.callee == call.callee,
        patch_call(env, call).0.args.len() == 2,
        patch_call(env, call).0.args[1] == ExprModel::Object(
            seq![
                generated_prop(
                    env.is_development || env.is_server,
                    env.label,
                    first_specifier(call.args[0])->0,
                ),
            ] + user_props(call.args),
        ),
{
}

/// The first argument of a rewritten call: the loader as written, unless the
/// caller wrote `ssr: false` and the build is for the server. Then it is
/// `null`, or with server components the loader kept behind the client-only
/// test, inside an async arrow that never runs it.
pub proof fn law_loader_of_rewritten_call(env: Env, call: CallExprModel)
    requires
        helper_callee(env.bindings, call.callee) is Some,
        argument_fault(call.args) is None,
        first_specifier(call.args[0]) is Some,
    ensures
        patch_call(env, call).0.args[0] == (if !(has_ssr_false(user_props(call.args))
            && env.is_server) {
            call.args[0]
        } else if env.is_server_components {
            client_only_cond(
                ExprModel::Arrow { is_async: true, block: true, body: Box::new(call.args[0]) },
            )
        } else {
            ExprModel::Null
        }),
{
}

/// A call in whose first argument no specifier is found stays as it is,
/// whatever the build's settings.
pub proof fn law_no_specifier_call_unchanged(env: Env, call: CallExprModel)
    requires
        call.args.len() > 0,
        first_specifier(call.args[0]) is None,
    ensures
        patch_call(env, call).0 == call,
{
}

/// A dynamic import of a template with an interpolation names no specifier.
pub proof fn law_interpolated_template_names_nothing(
    quasis: Seq<Seq<char>>,
    exprs: Seq<ExprModel>,
    rest: Seq<ExprModel>,
)
    requires
        exprs.len() > 0,
    ensures
        import_specifier(seq![ExprModel::Tpl { quasis, exprs }] + rest) is None,
{
}

/// Once the rewrite has replaced a call's loader by `null` (the caller wrote
/// `ssr: false`, the build is for the server, without server components),
/// the call is sound, holds no dynamic import in its first argument, and a
/// second rewrite leaves it as it is and reports nothing.
pub proof fn law_dropped_loader_not_rewritten_again(env: Env, call: CallExprModel)
    requires
        helper_callee(env.bindings, call.callee) is Some,
        argument_fault(call.args) is None,
        first_specifier(call.args[0]) is Some,
        has_ssr_false(user_props(call.args)),
        env.is_server,
        !env.is_server_components,
    ensures
        patch_call(env, patch_call(env, call).0) == (
            patch_call(env, call).0,
            Seq::<Diagnostic>::empty(),
        ),
{
    let once = patch_call(env, call).0;
    assert(once.args[0] == ExprModel::Null);
    assert(once.args[1] is Object);
    assert(first_specifier(once.args[0]) is None);
}

/// A list of one expression holds the specifier that the expression holds.
pub proof fn law_specifier_in_single(e: ExprModel)
    ensures
        first_specifier_in(seq![e]) == first_specifier(e),
{
    let es = seq![e];
    assert(es.drop_last().len() == 0);
    assert(first_specifier_in(es.drop_last()) is None);
    assert(es.last() == e);
}

/// The generated `loadableGenerated` member holds no dynamic import: a walk
/// in the capturing state finds no specifier in it.
pub proof fn law_generated_member_holds_no_import(
    dev_or_server: bool,
    label: Seq<char>,
    specifier: Seq<char>,
)
    ensures
        prop_specifier(generated_prop(dev_or_server, label, specifier)) is None,
{
    if dev_or_server {
        let sum = ExprModel::Bin {
            op: BinaryOp::Add,
            left: Box::new(ExprModel::Str(label + " -> "@)),
            right: Box::new(ExprModel::Str(specifier)),
        };
        assert(first_specifier(ExprModel::Str(label + " -> "@)) is None);
        assert(first_specifier(ExprModel::Str(specifier)) is None);
        assert(first_specifier(sum) is None);
        law_specifier_in_single(sum);
        let list = ExprModel::Array(seq![sum]);
        assert(first_specifier(list) is None);
        let member = PropModel::KeyValue { key: PropKeyModel::Ident("modules"@), value: list };
        let members = seq![member];
        assert(members.drop_last().len() == 0);
        assert(first_specifier_in_props(members.drop_last()) is None);
        assert(members.last() == member);
        assert(prop_specifier(member) is None);
        assert(first_specifier_in_props(members) is None);
        assert(modules_object(label, specifier) == ExprModel::Object(members));
        assert(first_specifier(modules_object(label, specifier)) is None);
    } else {
        let text = ExprModel::Str(specifier);
        law_specifier_in_single(text);
        let target = ExprModel::Member {
            obj: Box::new(ExprModel::Ident(made_ident("require"@))),
            prop: "resolveWeak"@,
        };
        assert(first_specifier(text) is None);
        assert(first_specifier(ExprModel::Ident(made_ident("require"@))) is None);
        assert(first_specifier(target) is None);
        let resolve = resolve_weak_call(specifier);
        assert(first_specifier(resolve) is None);
        law_specifier_in_single(resolve);
        let list = ExprModel::Array(seq![resolve]);
        assert(first_specifier(list) is None);
        let arrow = ExprModel::Arrow { is_async: false, block: false, body: Box::new(list) };
        assert(first_specifier(arrow) is None);
        let member = PropModel::KeyValue { key: PropKeyModel::Ident("webpack"@), value: arrow };
        let members = seq![member];
        assert(members.drop_last().len() == 0);
        assert(first_specifier_in_props(members.drop_last()) is None);
        assert(members.last() == member);
        assert(prop_specifier(member) is None);
        assert(first_specifier_in_props(members) is None);
        assert(webpack_object(specifier) == ExprModel::Object(members));
        assert(first_specifier(webpack_object(specifier)) is None);
    }
}

} // verus!
