// A traversal as a list of nodes.

use intl_extract::ast::{
    Arg, CallExpr, Callee, Expr, Ident, ImportDecl, ImportSpecifier, Init, Module, ModuleItem,
    Pat, StrLit, VarDeclarator,
};
use intl_extract::callsite::DynamicSite;
use intl_extract::output::OutputMessage;
use intl_extract::visitor::{CallOutcome, TransformVisitor};
use intl_extract::walk::Node;

fn ident(name: &str, ctxt: u32) -> Ident {
    Ident { sym: name.to_string(), ctxt }
}

fn call(callee: Ident, args: Vec<Expr>) -> CallExpr {
    CallExpr {
        callee: Callee::Ident(callee),
        args: args.into_iter().map(|expr| Arg { spread: false, expr }).collect(),
        line: None,
        column: None,
    }
}

fn lit(value: &str) -> Expr {
    Expr::Str(StrLit { value: value.to_string(), raw: Some(format!("\"{}\"", value)) })
}

// import {<hook>} from 'next-intl'; const t = <hook>("ns"); t("Hey!"); t(x); u("Hey!");
fn nodes(hook: &str) -> Vec<Node> {
    vec![
        Node::Module(Module {
            body: vec![
                ModuleItem::Import(ImportDecl {
                    src: "next-intl".to_string(),
                    specifiers: vec![ImportSpecifier::Named { local: ident(hook, 1), imported: None }],
                }),
                ModuleItem::Other(0),
            ],
        }),
        Node::Declarator(VarDeclarator {
            name: Pat::Ident(ident("t", 2)),
            init: Some(Init::Call(call(ident(hook, 1), vec![lit("ns")]))),
        }),
        Node::Call(call(ident("t", 2), vec![lit("Hey!")])),
        Node::Call(call(ident("t", 2), vec![Expr::Other(1)])),
        Node::Call(call(ident("u", 2), vec![lit("Hey!")])),
    ]
}

#[test]
fn nodes_are_visited_in_turn() {
    let mut visitor = TransformVisitor::new(false, "f.tsx".to_string());
    let mut walked = nodes("useExtracted");
    let outcomes = visitor.visit_mut_nodes(&mut walked);
    assert_eq!(
        outcomes,
        vec![
            CallOutcome::Untouched,
            CallOutcome::Untouched,
            CallOutcome::Extracted,
            CallOutcome::Dynamic(DynamicSite::Argument),
            CallOutcome::Untouched,
        ]
    );
    let before = nodes("useExtracted");
    assert_ne!(walked[0], before[0]);
    assert_ne!(walked[1], before[1]);
    assert_eq!(
        walked[2],
        Node::Call(call(
            ident("t", 2),
            vec![Expr::Str(StrLit { value: "+YJVTi".to_string(), raw: None })]
        ))
    );
    assert_eq!(walked[3], before[3]);
    assert_eq!(walked[4], before[4]);
    let results = visitor.get_results();
    assert_eq!(results.len(), 1);
    assert!(matches!(&results[0], OutputMessage::Extracted(e) if e.id == "ns.+YJVTi"));
}

#[test]
fn one_node_at_a_time_is_the_same_traversal() {
    let mut all = TransformVisitor::new(true, "f.tsx".to_string());
    let mut walked = nodes("useExtracted");
    let outcomes = all.visit_mut_nodes(&mut walked);

    let mut single = TransformVisitor::new(true, "f.tsx".to_string());
    let mut stepped = nodes("useExtracted");
    let mut seen = Vec::new();
    for node in stepped.iter_mut() {
        seen.push(single.visit_mut_node(node));
    }
    assert_eq!(seen, outcomes);
    assert_eq!(stepped, walked);
    assert_eq!(single.get_output(), all.get_output());
}

#[test]
fn traversal_without_the_hook_keeps_every_node() {
    let mut visitor = TransformVisitor::new(true, "f.tsx".to_string());
    let mut walked = nodes("useTranslations");
    let outcomes = visitor.visit_mut_nodes(&mut walked);
    assert_eq!(walked, nodes("useTranslations"));
    assert_eq!(
        outcomes,
        vec![
            CallOutcome::Untouched,
            CallOutcome::Untouched,
            CallOutcome::Referenced,
            CallOutcome::Untouched,
            CallOutcome::Untouched,
        ]
    );
    let results = visitor.get_results();
    assert_eq!(results.len(), 1);
    assert!(matches!(&results[0], OutputMessage::Translations { id, .. } if id == "ns.Hey!"));
}

#[test]
fn second_traversal_keeps_every_node() {
    let mut first = TransformVisitor::new(true, "f.tsx".to_string());
    let mut walked = nodes("useExtracted");
    first.visit_mut_nodes(&mut walked);
    let once = walked.clone();
    let mut second = TransformVisitor::new(true, "f.tsx".to_string());
    second.visit_mut_nodes(&mut walked);
    assert_eq!(walked, once);
    assert!(second.get_results().is_empty());
}

#[test]
fn empty_traversal() {
    let mut visitor = TransformVisitor::new(true, "f.tsx".to_string());
    let mut none: Vec<Node> = vec![];
    assert!(visitor.visit_mut_nodes(&mut none).is_empty());
    let output = visitor.get_output();
    assert!(output.messages.is_empty() && output.dependencies.is_empty());
    assert!(!output.has_use_client && !output.has_use_server);
}
