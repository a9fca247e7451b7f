use next_dynamic::ast::{
    BinaryOp, CallExpr, Callee, Expr, Ident, ImportDecl, ImportSpecifier, ModuleItem, Prop,
    PropKey, Span,
};
use next_dynamic::capture::Capture;
use next_dynamic::fragments::{
    build_generated_prop, build_modules_object, build_skipped_loader, build_webpack_object,
    wrap_expr_with_client_only_cond,
};
use next_dynamic::pass::DiagnosticKind;
use next_dynamic::patcher::next_dynamic;
use next_dynamic::paths::FileName;

fn t(text: &str) -> String {
    text.to_string()
}

fn name(sym: &str, ctxt: u32, lo: u32) -> Ident {
    Ident { sym: t(sym), ctxt, span: Span { lo, hi: lo + 1 } }
}

fn dynamic_import(specifier: &str) -> Expr {
    Expr::Call(CallExpr { callee: Callee::Import, args: vec![Expr::Str(t(specifier))] })
}

fn arrow(body: Expr) -> Expr {
    Expr::Arrow { is_async: false, block: false, body: Box::new(body) }
}

fn helper_call(lo: u32, args: Vec<Expr>) -> Expr {
    Expr::Call(CallExpr { callee: Callee::Expr(Box::new(Expr::Ident(name("dynamic", 3, lo)))), args })
}

fn import_item(src: &str) -> ModuleItem {
    ModuleItem::Import(ImportDecl {
        src: t(src),
        specifiers: vec![ImportSpecifier::Default(name("dynamic", 3, 7))],
    })
}

fn window_test(right: Expr) -> Expr {
    Expr::Bin {
        op: BinaryOp::LogicalAnd,
        left: Box::new(Expr::Bin {
            op: BinaryOp::NotEq,
            left: Box::new(Expr::TypeOf(Box::new(Expr::Ident(Ident {
                sym: t("window"),
                ctxt: 0,
                span: Span { lo: 0, hi: 0 },
            })))),
            right: Box::new(Expr::Str(t("undefined"))),
        }),
        right: Box::new(right),
    }
}

fn weak(specifier: &str) -> Expr {
    Expr::Object(vec![Prop::KeyValue {
        key: PropKey::Ident(t("webpack")),
        value: arrow(Expr::Array(vec![Expr::Call(CallExpr {
            callee: Callee::Expr(Box::new(Expr::Member {
                obj: Box::new(Expr::Ident(Ident {
                    sym: t("require"),
                    ctxt: 0,
                    span: Span { lo: 0, hi: 0 },
                })),
                prop: t("resolveWeak"),
            })),
            args: vec![Expr::Str(t(specifier))],
        })])),
    }])
}

fn listed(label: &str, specifier: &str) -> Expr {
    Expr::Object(vec![Prop::KeyValue {
        key: PropKey::Ident(t("modules")),
        value: Expr::Array(vec![Expr::Bin {
            op: BinaryOp::Add,
            left: Box::new(Expr::Str(t(label))),
            right: Box::new(Expr::Str(t(specifier))),
        }]),
    }])
}

fn generated(value: Expr) -> Expr {
    Expr::Object(vec![Prop::KeyValue { key: PropKey::Ident(t("loadableGenerated")), value }])
}

#[test]
fn file_without_helper_import_comes_back_unchanged() {
    let file = || {
        vec![
            import_item("react"),
            ModuleItem::Stmt(helper_call(20, vec![arrow(dynamic_import("./x"))])),
            ModuleItem::Stmt(helper_call(40, vec![])),
            ModuleItem::Stmt(Expr::Other { handle: 9, children: vec![helper_call(60, vec![])] }),
        ]
    };
    for (dev, server, components) in [(true, false, false), (false, true, true), (false, false, false)] {
        let mut p = next_dynamic(dev, server, components, FileName::Real(t("/p/a.js")), Some(t("/p")));
        let out = p.fold_module(&file());
        assert_eq!(out, file());
        assert!(p.diagnostics.is_empty());
        assert!(p.dynamic_bindings.is_empty());
    }
}

#[test]
fn calls_before_the_import_are_not_rewritten() {
    let mut p = next_dynamic(false, false, false, FileName::Other(t("<anon>")), None);
    let out = p.fold_module(&vec![
        ModuleItem::Stmt(helper_call(1, vec![arrow(dynamic_import("./early"))])),
        import_item("next/dynamic"),
        ModuleItem::Stmt(helper_call(50, vec![arrow(dynamic_import("./late"))])),
    ]);
    assert_eq!(
        out,
        vec![
            ModuleItem::Stmt(helper_call(1, vec![arrow(dynamic_import("./early"))])),
            import_item("next/dynamic"),
            ModuleItem::Stmt(helper_call(
                50,
                vec![arrow(dynamic_import("./late")), generated(weak("./late"))],
            )),
        ]
    );
    assert_eq!(p.dynamic_bindings.len(), 1);
}

#[test]
fn file_walk_reports_each_faulty_call() {
    let mut p = next_dynamic(true, true, false, FileName::Other(t("<anon>")), None);
    let out = p.fold_module(&vec![
        import_item("next/dynamic"),
        ModuleItem::Stmt(helper_call(30, vec![])),
        ModuleItem::Stmt(helper_call(60, vec![arrow(dynamic_import("./ok"))])),
        ModuleItem::Stmt(helper_call(90, vec![Expr::Null, Expr::Str(t("options"))])),
    ]);
    assert_eq!(out[1], ModuleItem::Stmt(helper_call(30, vec![])));
    assert_eq!(
        out[2],
        ModuleItem::Stmt(helper_call(
            60,
            vec![arrow(dynamic_import("./ok")), generated(listed("<anon> -> ", "./ok"))],
        ))
    );
    let kinds: Vec<(DiagnosticKind, u32, u32)> =
        p.diagnostics.iter().map(|d| (d.kind, d.span.lo, d.span.hi)).collect();
    assert_eq!(
        kinds,
        vec![
            (DiagnosticKind::MissingArgument, 30, 31),
            (DiagnosticKind::InvalidOptionsType, 90, 91),
        ]
    );
}

#[test]
fn helper_calls_below_nodes_of_other_kinds_are_rewritten() {
    let mut p = next_dynamic(false, false, false, FileName::Other(t("<anon>")), None);
    p.fold_module(&vec![import_item("next/dynamic")]);
    let tree = Expr::Other {
        handle: 4,
        children: vec![
            Expr::Member {
                obj: Box::new(helper_call(10, vec![arrow(dynamic_import("./m"))])),
                prop: t("then"),
            },
            Expr::Tpl {
                quasis: vec![t("a"), t("b")],
                exprs: vec![Expr::TypeOf(Box::new(helper_call(20, vec![dynamic_import("./t")])))],
            },
            Expr::Object(vec![
                Prop::Spread(helper_call(30, vec![dynamic_import("./s")])),
                Prop::Other { handle: 5, children: vec![helper_call(40, vec![dynamic_import("./o")])] },
            ]),
        ],
    };
    let out = p.fold_expr(&tree);
    let done = |lo: u32, first: Expr, specifier: &str| helper_call(lo, vec![first, generated(weak(specifier))]);
    assert_eq!(
        out,
        Expr::Other {
            handle: 4,
            children: vec![
                Expr::Member {
                    obj: Box::new(done(10, arrow(dynamic_import("./m")), "./m")),
                    prop: t("then"),
                },
                Expr::Tpl {
                    quasis: vec![t("a"), t("b")],
                    exprs: vec![Expr::TypeOf(Box::new(done(20, dynamic_import("./t"), "./t")))],
                },
                Expr::Object(vec![
                    Prop::Spread(done(30, dynamic_import("./s"), "./s")),
                    Prop::Other { handle: 5, children: vec![done(40, dynamic_import("./o"), "./o")] },
                ]),
            ],
        }
    );
}

#[test]
fn capture_starts_empty_and_keeps_the_first_specifier() {
    let mut capture = Capture::new();
    assert_eq!(capture.specifier, None);
    capture.visit_expr(&Expr::Ident(name("x", 0, 0)));
    assert_eq!(capture.specifier, None);
    capture.visit_expr(&arrow(dynamic_import("./one")));
    assert_eq!(capture.specifier, Some(t("./one")));
    capture.visit_expr(&arrow(dynamic_import("./two")));
    assert_eq!(capture.specifier, Some(t("./one")));
    capture.note_import(&vec![Expr::Str(t("./three"))]);
    assert_eq!(capture.specifier, Some(t("./one")));
}

#[test]
fn capture_reads_only_the_first_argument_of_an_import() {
    let mut capture = Capture::new();
    capture.note_import(&vec![]);
    assert_eq!(capture.specifier, None);
    capture.note_import(&vec![Expr::Null, Expr::Str(t("./second"))]);
    assert_eq!(capture.specifier, None);
    capture.note_import(&vec![Expr::Tpl { quasis: vec![t("a"), t("b")], exprs: vec![] }]);
    assert_eq!(capture.specifier, None);
    capture.note_import(&vec![Expr::Tpl { quasis: vec![t("./raw\\n")], exprs: vec![] }]);
    assert_eq!(capture.specifier, Some(t("./raw\\n")));
}

#[test]
fn capture_looks_at_a_call_before_what_is_below_it() {
    let mut capture = Capture::new();
    let nested = Expr::Call(CallExpr {
        callee: Callee::Import,
        args: vec![Expr::Str(t("./outer")), dynamic_import("./inner")],
    });
    capture.visit_expr(&nested);
    assert_eq!(capture.specifier, Some(t("./outer")));

    let mut capture = Capture::new();
    let callee_first = Expr::Call(CallExpr {
        callee: Callee::Expr(Box::new(Expr::Member {
            obj: Box::new(dynamic_import("./callee")),
            prop: t("then"),
        })),
        args: vec![dynamic_import("./argument")],
    });
    capture.visit_expr(&callee_first);
    assert_eq!(capture.specifier, Some(t("./callee")));
}

#[test]
fn capture_walks_every_kind_of_node() {
    let wrap: Vec<fn(Expr) -> Expr> = vec![
        |e| Expr::Array(vec![Expr::Null, e]),
        |e| Expr::Object(vec![Prop::KeyValue { key: PropKey::Str(t("k")), value: e }]),
        |e| Expr::Object(vec![Prop::Spread(e)]),
        |e| Expr::Object(vec![Prop::Other { handle: 1, children: vec![e] }]),
        |e| Expr::Tpl { quasis: vec![t(""), t("")], exprs: vec![e] },
        |e| Expr::Arrow { is_async: true, block: true, body: Box::new(e) },
        |e| Expr::Member { obj: Box::new(e), prop: t("p") },
        |e| Expr::TypeOf(Box::new(e)),
        |e| Expr::Bin { op: BinaryOp::Add, left: Box::new(Expr::Null), right: Box::new(e) },
        |e| Expr::Other { handle: 2, children: vec![e] },
    ];
    for w in wrap {
        let mut capture = Capture::new();
        capture.visit_expr(&w(dynamic_import("./deep")));
        assert_eq!(capture.specifier, Some(t("./deep")));
    }
}

#[test]
fn guard_tests_the_browser_global() {
    assert_eq!(wrap_expr_with_client_only_cond(Expr::Bool(true)), window_test(Expr::Bool(true)));
}

#[test]
fn skipped_loader_is_an_async_block_behind_the_guard() {
    assert_eq!(
        build_skipped_loader(arrow(dynamic_import("./x"))),
        window_test(Expr::Arrow {
            is_async: true,
            block: true,
            body: Box::new(arrow(dynamic_import("./x"))),
        })
    );
}

#[test]
fn generated_values_have_the_documented_shapes() {
    assert_eq!(build_modules_object(t("pages/a.js"), t("../b")), listed("pages/a.js -> ", "../b"));
    assert_eq!(build_webpack_object(t("../b")), weak("../b"));
    assert_eq!(
        Expr::Object(vec![build_generated_prop(true, t("f"), t("s"))]),
        generated(listed("f -> ", "s"))
    );
    assert_eq!(
        Expr::Object(vec![build_generated_prop(false, t("f"), t("s"))]),
        generated(weak("s"))
    );
}

#[test]
fn guard_compares_with_the_loose_inequality() {
    let x = || Expr::Ident(Ident { sym: t("x"), ctxt: 0, span: Span { lo: 0, hi: 0 } });
    match wrap_expr_with_client_only_cond(x()) {
        Expr::Bin { op: BinaryOp::LogicalAnd, left, right } => {
            assert_eq!(*right, x());
            match *left {
                Expr::Bin { op, left, right } => {
                    assert_eq!(op, BinaryOp::NotEq);
                    assert_eq!(*right, Expr::Str(t("undefined")));
                    assert_eq!(
                        *left,
                        Expr::TypeOf(Box::new(Expr::Ident(Ident {
                            sym: t("window"),
                            ctxt: 0,
                            span: Span { lo: 0, hi: 0 },
                        })))
                    );
                }
                other => panic!("no comparison: {:?}", other),
            }
        }
        other => panic!("no guard: {:?}", other),
    }
}
