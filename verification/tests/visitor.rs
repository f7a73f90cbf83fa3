use swc_plugin_i18n_zh::ast::{CallExpr, Callee, Node, Program};
use swc_plugin_i18n_zh::{Config, TransformVisitor};

fn visitor() -> TransformVisitor {
    TransformVisitor::new(Config {
        messages_dir: String::from("./messages"),
        default_locale: String::from("en"),
    })
}

fn ident(name: &str) -> Node {
    Node::Ident(String::from(name))
}

fn lit(value: &str) -> Node {
    Node::Str(String::from(value))
}

fn call_expr(callee: Node, args: Vec<Node>) -> CallExpr {
    CallExpr { callee: Callee::Expr(Box::new(callee)), args }
}

fn call(name: &str, args: Vec<Node>) -> Node {
    Node::Call(call_expr(ident(name), args))
}

fn count_nodes(node: &Node) -> usize {
    match node {
        Node::Ident(_) | Node::Str(_) => 1,
        Node::Call(call) => {
            let callee = match &call.callee {
                Callee::Super | Callee::Import => 1,
                Callee::Expr(expr) => count_nodes(expr),
            };
            1 + callee + call.args.iter().map(count_nodes).sum::<usize>()
        }
        Node::Other(children) => 1 + children.iter().map(count_nodes).sum::<usize>(),
    }
}

#[test]
fn attachment_management_is_replaced() {
    let mut tree = call("t", vec![lit("附件管理")]);
    visitor().visit_mut_node(&mut tree);
    assert_eq!(tree, call("t", vec![lit("attachmentManagement")]));
}

#[test]
fn attachment_management_keeps_other_arguments() {
    let mut tree = call(
        "t",
        vec![
            lit("附件管理"),
            ident("options"),
            lit("附件管理"),
            Node::Other(vec![lit("简历内容")]),
        ],
    );
    visitor().visit_mut_node(&mut tree);
    assert_eq!(
        tree,
        call(
            "t",
            vec![
                lit("attachmentManagement"),
                ident("options"),
                lit("附件管理"),
                Node::Other(vec![lit("简历内容")]),
            ],
        )
    );
}

#[test]
fn resume_content_is_replaced() {
    let mut tree = call("t", vec![lit("简历内容")]);
    visitor().visit_mut_node(&mut tree);
    assert_eq!(tree, call("t", vec![lit("resumeContent")]));
}

#[test]
fn unmapped_literal_is_unchanged() {
    let mut tree = call("t", vec![lit("未知文本"), lit("附件管理")]);
    visitor().visit_mut_node(&mut tree);
    assert_eq!(tree, call("t", vec![lit("未知文本"), lit("附件管理")]));

    let mut empty = call("t", vec![lit("")]);
    visitor().visit_mut_node(&mut empty);
    assert_eq!(empty, call("t", vec![lit("")]));
}

#[test]
fn other_identifier_is_unchanged() {
    for name in ["T", "tt", "translate", "", "t "] {
        let mut tree = call(name, vec![lit("附件管理"), lit("简历内容")]);
        visitor().visit_mut_node(&mut tree);
        assert_eq!(tree, call(name, vec![lit("附件管理"), lit("简历内容")]));
    }
}

#[test]
fn callee_that_is_no_identifier_is_unchanged() {
    // `i18n.t("附件管理")`: the callee is a member expression.
    let member = || Node::Other(vec![ident("i18n"), ident("t")]);
    let mut tree = Node::Call(call_expr(member(), vec![lit("附件管理")]));
    visitor().visit_mut_node(&mut tree);
    assert_eq!(tree, Node::Call(call_expr(member(), vec![lit("附件管理")])));

    // `"t"("附件管理")`: the callee is a string literal.
    let mut tree = Node::Call(call_expr(lit("t"), vec![lit("附件管理")]));
    visitor().visit_mut_node(&mut tree);
    assert_eq!(tree, Node::Call(call_expr(lit("t"), vec![lit("附件管理")])));
}

#[test]
fn super_and_import_calls_are_unchanged() {
    let super_call = || Node::Call(CallExpr { callee: Callee::Super, args: vec![lit("附件管理")] });
    let mut tree = super_call();
    visitor().visit_mut_node(&mut tree);
    assert_eq!(tree, super_call());

    let import_call =
        || Node::Call(CallExpr { callee: Callee::Import, args: vec![lit("简历内容")] });
    let mut tree = import_call();
    visitor().visit_mut_node(&mut tree);
    assert_eq!(tree, import_call());
}

#[test]
fn call_without_arguments_is_unchanged() {
    let mut tree = call("t", vec![]);
    visitor().visit_mut_node(&mut tree);
    assert_eq!(tree, call("t", vec![]));
}

#[test]
fn first_argument_that_is_no_string_is_unchanged() {
    let mut tree = call("t", vec![ident("附件管理"), lit("附件管理")]);
    visitor().visit_mut_node(&mut tree);
    assert_eq!(tree, call("t", vec![ident("附件管理"), lit("附件管理")]));

    let mut tree = call("t", vec![Node::Other(vec![lit("附件管理")])]);
    visitor().visit_mut_node(&mut tree);
    assert_eq!(tree, call("t", vec![Node::Other(vec![lit("附件管理")])]));
}

#[test]
fn only_the_first_argument_is_replaced() {
    let mut tree = call("t", vec![lit("附件管理"), lit("简历内容")]);
    visitor().visit_mut_node(&mut tree);
    assert_eq!(tree, call("t", vec![lit("attachmentManagement"), lit("简历内容")]));
}

#[test]
fn non_call_nodes_are_unchanged() {
    let build = || {
        Node::Other(vec![
            ident("t"),
            lit("附件管理"),
            Node::Other(vec![lit("简历内容"), Node::Other(vec![]), ident("x")]),
        ])
    };
    let mut tree = build();
    visitor().visit_mut_node(&mut tree);
    assert_eq!(tree, build());

    let mut leaf = lit("附件管理");
    visitor().visit_mut_node(&mut leaf);
    assert_eq!(leaf, lit("附件管理"));

    let mut name = ident("t");
    visitor().visit_mut_node(&mut name);
    assert_eq!(name, ident("t"));
}

#[test]
fn calls_below_other_nodes_are_reached() {
    let mut tree = Node::Other(vec![
        Node::Other(vec![ident("label"), call("t", vec![lit("附件管理")])]),
        Node::Other(vec![Node::Other(vec![call("t", vec![lit("简历内容")])])]),
    ]);
    visitor().visit_mut_node(&mut tree);
    assert_eq!(
        tree,
        Node::Other(vec![
            Node::Other(vec![ident("label"), call("t", vec![lit("attachmentManagement")])]),
            Node::Other(vec![Node::Other(vec![call("t", vec![lit("resumeContent")])])]),
        ])
    );
}

#[test]
fn calls_in_arguments_are_reached() {
    // `t(t("附件管理"))`: the outer first argument is a call, so only the
    // inner one is replaced.
    let mut nested = call("t", vec![call("t", vec![lit("附件管理")])]);
    visitor().visit_mut_node(&mut nested);
    assert_eq!(nested, call("t", vec![call("t", vec![lit("attachmentManagement")])]));

    // `f(t("简历内容"))` and `t("附件管理", t("简历内容"))`.
    let mut other = call("f", vec![call("t", vec![lit("简历内容")])]);
    visitor().visit_mut_node(&mut other);
    assert_eq!(other, call("f", vec![call("t", vec![lit("resumeContent")])]));

    let mut both = call("t", vec![lit("附件管理"), call("t", vec![lit("简历内容")])]);
    visitor().visit_mut_node(&mut both);
    assert_eq!(
        both,
        call("t", vec![lit("attachmentManagement"), call("t", vec![lit("resumeContent")])])
    );
}

#[test]
fn calls_in_the_callee_are_reached() {
    // `t("附件管理")("简历内容")`
    let mut tree =
        Node::Call(call_expr(call("t", vec![lit("附件管理")]), vec![lit("简历内容")]));
    visitor().visit_mut_node(&mut tree);
    assert_eq!(
        tree,
        Node::Call(call_expr(
            call("t", vec![lit("attachmentManagement")]),
            vec![lit("简历内容")],
        ))
    );
}

#[test]
fn visit_mut_call_expr_replaces_and_walks() {
    let mut node =
        call_expr(ident("t"), vec![lit("简历内容"), call("t", vec![lit("附件管理")])]);
    visitor().visit_mut_call_expr(&mut node);
    assert_eq!(
        node,
        call_expr(
            ident("t"),
            vec![lit("resumeContent"), call("t", vec![lit("attachmentManagement")])],
        )
    );
}

#[test]
fn translate_first_arg_does_not_walk() {
    let mut node =
        call_expr(ident("t"), vec![lit("简历内容"), call("t", vec![lit("附件管理")])]);
    visitor().translate_first_arg(&mut node);
    assert_eq!(
        node,
        call_expr(ident("t"), vec![lit("resumeContent"), call("t", vec![lit("附件管理")])])
    );

    let mut outer = call_expr(ident("f"), vec![call("t", vec![lit("附件管理")])]);
    visitor().translate_first_arg(&mut outer);
    assert_eq!(outer, call_expr(ident("f"), vec![call("t", vec![lit("附件管理")])]));
}

#[test]
fn replacement_key_tells_when_a_call_qualifies() {
    let v = visitor();
    let key = |node: CallExpr| v.replacement_key(&node);
    assert_eq!(
        key(call_expr(ident("t"), vec![lit("附件管理")])),
        Some(String::from("attachmentManagement"))
    );
    assert_eq!(
        key(call_expr(ident("t"), vec![lit("简历内容"), ident("x")])),
        Some(String::from("resumeContent"))
    );
    assert_eq!(key(call_expr(ident("t"), vec![lit("其他")])), None);
    assert_eq!(key(call_expr(ident("t"), vec![])), None);
    assert_eq!(key(call_expr(ident("t"), vec![ident("x"), lit("附件管理")])), None);
    assert_eq!(key(call_expr(ident("u"), vec![lit("附件管理")])), None);
    assert_eq!(key(call_expr(lit("t"), vec![lit("附件管理")])), None);
    assert_eq!(key(CallExpr { callee: Callee::Super, args: vec![lit("附件管理")] }), None);
    assert_eq!(key(CallExpr { callee: Callee::Import, args: vec![lit("附件管理")] }), None);
}

#[test]
fn visit_mut_callee_walks_an_expression() {
    let mut callee = Callee::Expr(Box::new(call("t", vec![lit("附件管理")])));
    visitor().visit_mut_callee(&mut callee);
    assert_eq!(callee, Callee::Expr(Box::new(call("t", vec![lit("attachmentManagement")]))));

    let mut callee = Callee::Super;
    visitor().visit_mut_callee(&mut callee);
    assert_eq!(callee, Callee::Super);

    let mut callee = Callee::Import;
    visitor().visit_mut_callee(&mut callee);
    assert_eq!(callee, Callee::Import);
}

#[test]
fn visit_mut_nodes_walks_each_tree_in_place() {
    let mut nodes = vec![
        call("t", vec![lit("附件管理")]),
        lit("附件管理"),
        call("g", vec![]),
        call("t", vec![lit("简历内容")]),
    ];
    visitor().visit_mut_nodes(&mut nodes);
    assert_eq!(
        nodes,
        vec![
            call("t", vec![lit("attachmentManagement")]),
            lit("附件管理"),
            call("g", vec![]),
            call("t", vec![lit("resumeContent")]),
        ]
    );

    let mut none: Vec<Node> = Vec::new();
    visitor().visit_mut_nodes(&mut none);
    assert_eq!(none, Vec::new());
}

#[test]
fn visit_mut_program_walks_the_body() {
    let mut program = Program {
        body: vec![
            Node::Other(vec![call("t", vec![lit("附件管理")])]),
            Node::Other(vec![call("log", vec![call("t", vec![lit("简历内容")])])]),
        ],
    };
    visitor().visit_mut_program(&mut program);
    assert_eq!(
        program,
        Program {
            body: vec![
                Node::Other(vec![call("t", vec![lit("attachmentManagement")])]),
                Node::Other(vec![call("log", vec![call("t", vec![lit("resumeContent")])])]),
            ],
        }
    );
}

#[test]
fn walk_keeps_the_node_count_and_the_arity() {
    let build = || {
        Node::Other(vec![
            call("t", vec![lit("附件管理"), ident("a"), call("t", vec![lit("简历内容")])]),
            Node::Call(call_expr(call("t", vec![lit("附件管理")]), vec![])),
            Node::Call(CallExpr { callee: Callee::Super, args: vec![lit("x")] }),
        ])
    };
    let before = build();
    let mut after = build();
    visitor().visit_mut_node(&mut after);
    assert_ne!(before, after);
    assert_eq!(count_nodes(&before), 15);
    assert_eq!(count_nodes(&after), 15);
    match (&before, &after) {
        (Node::Other(old), Node::Other(new)) => {
            assert_eq!(old.len(), new.len());
            match (&old[0], &new[0]) {
                (Node::Call(o), Node::Call(n)) => assert_eq!(o.args.len(), n.args.len()),
                _ => panic!("a call stays a call"),
            }
        }
        _ => panic!("the root keeps its kind"),
    }
}

#[test]
fn walking_twice_changes_nothing_more() {
    let mut once = call("t", vec![lit("附件管理"), call("t", vec![lit("简历内容")])]);
    visitor().visit_mut_node(&mut once);
    let mut twice = call("t", vec![lit("附件管理"), call("t", vec![lit("简历内容")])]);
    visitor().visit_mut_node(&mut twice);
    visitor().visit_mut_node(&mut twice);
    assert_eq!(once, twice);
}

#[test]
fn one_visitor_serves_many_walks() {
    let mut v = visitor();
    let mut first = call("t", vec![lit("附件管理")]);
    let mut second = call("t", vec![lit("简历内容")]);
    v.visit_mut_node(&mut first);
    v.visit_mut_node(&mut second);
    assert_eq!(first, call("t", vec![lit("attachmentManagement")]));
    assert_eq!(second, call("t", vec![lit("resumeContent")]));
    assert_eq!(v, visitor());
}

#[test]
fn deep_tree_is_walked_to_the_bottom() {
    let mut tree = call("t", vec![lit("附件管理")]);
    for _ in 0..200 {
        tree = Node::Other(vec![tree]);
    }
    visitor().visit_mut_node(&mut tree);
    let mut cursor = &tree;
    let mut depth = 0;
    while let Node::Other(children) = cursor {
        assert_eq!(children.len(), 1);
        cursor = &children[0];
        depth += 1;
    }
    assert_eq!(depth, 200);
    assert_eq!(*cursor, call("t", vec![lit("attachmentManagement")]));
}
