// Whole traversals of small modules, step by step as a host walks them.

use intl_extract::ast::{
    Arg, ArrowBody, CallExpr, Callee, Expr, Ident, ImportDecl, ImportSpecifier, Init, Module,
    ModuleExportName, ModuleItem, Pat, Prop, StrLit, Tpl, Value, VarDeclarator,
};
use intl_extract::callsite::DynamicSite;
use intl_extract::key::generate_key;
use intl_extract::output::{OutputMessage, Reference, StrictExtractedMessage};
use intl_extract::visitor::{CallOutcome, TransformVisitor};

fn ident(name: &str, ctxt: u32) -> Ident {
    Ident { sym: name.to_string(), ctxt }
}

fn lit(value: &str) -> Expr {
    Expr::Str(StrLit { value: value.to_string(), raw: Some(format!("\"{}\"", value)) })
}

fn plain(value: &str) -> Expr {
    Expr::Str(StrLit { value: value.to_string(), raw: None })
}

fn arg(expr: Expr) -> Arg {
    Arg { spread: false, expr }
}

fn call(callee: Callee, args: Vec<Expr>) -> CallExpr {
    CallExpr { callee, args: args.into_iter().map(arg).collect(), line: None, column: None }
}

fn t(ctxt: u32, args: Vec<Expr>) -> CallExpr {
    call(Callee::Ident(ident("t", ctxt)), args)
}

fn import_of(src: &str, local: &str, imported: Option<&str>) -> Module {
    Module {
        body: vec![ModuleItem::Import(ImportDecl {
            src: src.to_string(),
            specifiers: vec![ImportSpecifier::Named {
                local: ident(local, 1),
                imported: imported.map(|n| ModuleExportName::Ident(n.to_string())),
            }],
        })],
    }
}

fn declare(name: Ident, hook: &str, args: Vec<Expr>) -> VarDeclarator {
    VarDeclarator {
        name: Pat::Ident(name),
        init: Some(Init::Call(call(Callee::Ident(ident(hook, 1)), args))),
    }
}

fn extracted(id: &str, message: &str, description: Option<&str>, path: &str) -> OutputMessage {
    OutputMessage::Extracted(StrictExtractedMessage {
        id: id.to_string(),
        message: message.to_string(),
        description: description.map(|d| d.to_string()),
        references: vec![Reference { path: path.to_string(), line: None, column: None }],
    })
}

// A visitor that has seen `import {useExtracted} from 'next-intl'` and
// `const t = useExtracted(<hook_args>)`, with `t` in context 2.
fn visitor_with_t(is_development: bool, hook_args: Vec<Expr>) -> TransformVisitor {
    let mut visitor = TransformVisitor::new(is_development, "file.tsx".to_string());
    visitor.visit_mut_module(&mut import_of("next-intl", "useExtracted", None));
    visitor.visit_mut_var_declarator(&mut declare(ident("t", 2), "useExtracted", hook_args));
    visitor
}

#[test]
fn basic_extraction_and_rewrite() {
    let mut visitor = TransformVisitor::new(false, "file.tsx".to_string());
    let mut module = import_of("next-intl", "useExtracted", None);
    visitor.visit_mut_module(&mut module);
    assert_eq!(module, import_of("next-intl", "useTranslations$1", Some("useTranslations")));

    let mut declarator = declare(ident("t", 2), "useExtracted", vec![]);
    visitor.visit_mut_var_declarator(&mut declarator);
    assert_eq!(declarator, declare(ident("t", 2), "useTranslations$1", vec![]));

    let mut c = t(2, vec![lit("Hey from server!")]);
    assert_eq!(visitor.visit_mut_call_expr(&mut c), CallOutcome::Extracted);
    assert_eq!(c, t(2, vec![plain("mwFebS")]));

    assert_eq!(
        visitor.get_results(),
        &vec![extracted("mwFebS", "Hey from server!", None, "file.tsx")]
    );
}

#[test]
fn two_messages_in_source_order() {
    let mut visitor = visitor_with_t(false, vec![]);
    let mut first = t(2, vec![lit("Successfully sent!")]);
    let mut second = t(2, vec![lit("Send")]);
    visitor.visit_mut_call_expr(&mut first);
    visitor.visit_mut_call_expr(&mut second);
    assert_eq!(first, t(2, vec![plain("+1F2If")]));
    assert_eq!(second, t(2, vec![plain("9WRlF4")]));
    assert_eq!(
        visitor.get_results(),
        &vec![
            extracted("+1F2If", "Successfully sent!", None, "file.tsx"),
            extracted("9WRlF4", "Send", None, "file.tsx"),
        ]
    );
}

#[test]
fn aliased_import() {
    let mut visitor = TransformVisitor::new(false, "file.tsx".to_string());
    let mut module = import_of("next-intl", "useInlined", Some("useExtracted"));
    visitor.visit_mut_module(&mut module);
    assert_eq!(module, import_of("next-intl", "useTranslations$1", Some("useTranslations")));

    let mut declarator = declare(ident("t", 2), "useInlined", vec![]);
    visitor.visit_mut_var_declarator(&mut declarator);
    assert_eq!(declarator, declare(ident("t", 2), "useTranslations$1", vec![]));

    let mut c = t(2, vec![lit("Hey!")]);
    visitor.visit_mut_call_expr(&mut c);
    assert_eq!(c, t(2, vec![plain("+YJVTi")]));
}

#[test]
fn shadowing_binding_of_another_context_is_kept() {
    let mut visitor = visitor_with_t(false, vec![]);
    let mut inside = t(2, vec![lit("Hey!")]);
    visitor.visit_mut_call_expr(&mut inside);

    // const t = (m) => m; t("Should not be transformed");
    let mut other = VarDeclarator { name: Pat::Ident(ident("t", 3)), init: Some(Init::Other(5)) };
    visitor.visit_mut_var_declarator(&mut other);
    let mut outside = t(3, vec![lit("Should not be transformed")]);
    assert_eq!(visitor.visit_mut_call_expr(&mut outside), CallOutcome::Untouched);

    assert_eq!(inside, t(2, vec![plain("+YJVTi")]));
    assert_eq!(outside, t(3, vec![lit("Should not be transformed")]));
    assert_eq!(visitor.get_results().len(), 1);
}

#[test]
fn options_object_with_fallback_in_development() {
    let mut visitor = visitor_with_t(true, vec![]);
    let options = Expr::Object(vec![
        Prop::Named { key: "id".to_string(), value: Value::Str(StrLit { value: "greet".to_string(), raw: None }) },
        Prop::Named { key: "message".to_string(), value: Value::Str(StrLit { value: "Hello".to_string(), raw: None }) },
        Prop::Named {
            key: "description".to_string(),
            value: Value::Str(StrLit { value: "A greeting".to_string(), raw: None }),
        },
    ]);
    let mut c = t(2, vec![options]);
    assert_eq!(visitor.visit_mut_call_expr(&mut c), CallOutcome::Extracted);
    assert_eq!(c, t(2, vec![plain("greet"), Expr::Undefined, Expr::Undefined, plain("Hello")]));
    assert_eq!(
        visitor.get_results(),
        &vec![extracted("greet", "Hello", Some("A greeting"), "file.tsx")]
    );
}

#[test]
fn namespace_from_string_argument() {
    let mut visitor = visitor_with_t(false, vec![lit("common")]);
    let mut c = t(2, vec![lit("ok")]);
    visitor.visit_mut_call_expr(&mut c);
    let key = generate_key("ok");
    assert_eq!(c, t(2, vec![plain(&key)]));
    assert_eq!(
        visitor.get_results(),
        &vec![extracted(&format!("common.{}", key), "ok", None, "file.tsx")]
    );
}

#[test]
fn namespace_from_options_of_the_hook() {
    let options = |value: Value| {
        Expr::Object(vec![
            Prop::Other,
            Prop::Named { key: "locale".to_string(), value: Value::Other(4) },
            Prop::Named { key: "namespace".to_string(), value },
            Prop::Named {
                key: "namespace".to_string(),
                value: Value::Str(StrLit { value: "later".to_string(), raw: None }),
            },
        ])
    };
    let mut visitor =
        visitor_with_t(false, vec![options(Value::Tpl(Tpl { quasis: vec![Some("ui".to_string())], exprs: 0 }))]);
    let mut c = t(2, vec![lit("ok")]);
    visitor.visit_mut_call_expr(&mut c);
    assert_eq!(
        visitor.get_results(),
        &vec![extracted(&format!("ui.{}", generate_key("ok")), "ok", None, "file.tsx")]
    );

    // A first `namespace` that is not static gives no namespace.
    let mut visitor = visitor_with_t(false, vec![options(Value::Other(8))]);
    let mut c = t(2, vec![lit("ok")]);
    visitor.visit_mut_call_expr(&mut c);
    assert_eq!(
        visitor.get_results(),
        &vec![extracted(&generate_key("ok"), "ok", None, "file.tsx")]
    );
}

#[test]
fn dynamic_message_is_reported_and_kept() {
    let mut visitor = visitor_with_t(true, vec![]);
    let mut c = t(2, vec![Expr::Other(11)]);
    assert_eq!(visitor.visit_mut_call_expr(&mut c), CallOutcome::Dynamic(DynamicSite::Argument));
    assert_eq!(c, t(2, vec![Expr::Other(11)]));
    assert!(visitor.get_results().is_empty());
}

#[test]
fn module_metadata() {
    let mut visitor = TransformVisitor::new(false, "file.tsx".to_string());
    let mut module = Module {
        body: vec![
            ModuleItem::StrStmt("use client".to_string()),
            ModuleItem::Import(ImportDecl {
                src: "next/dynamic".to_string(),
                specifiers: vec![ImportSpecifier::Default { local: ident("dynamic", 1) }],
            }),
            ModuleItem::Import(ImportDecl {
                src: "next-intl".to_string(),
                specifiers: vec![ImportSpecifier::Named {
                    local: ident("useExtracted", 1),
                    imported: None,
                }],
            }),
            ModuleItem::Other(1),
        ],
    };
    visitor.visit_mut_module(&mut module);
    let inner = Value::Str(StrLit { value: "./L".to_string(), raw: None });
    let mut loader = call(
        Callee::Ident(ident("dynamic", 1)),
        vec![Expr::Arrow(ArrowBody::Import(vec![inner.clone()]))],
    );
    let before = loader.clone();
    assert_eq!(visitor.visit_mut_call_expr(&mut loader), CallOutcome::Untouched);
    assert_eq!(loader, before);

    let output = visitor.get_output();
    assert!(output.has_use_client);
    assert!(!output.has_use_server);
    assert_eq!(output.dependencies, vec!["next/dynamic", "next-intl", "./L"]);
    assert!(output.messages.is_empty());
}

#[test]
fn module_without_the_hook_is_kept_and_reports_no_message() {
    let mut visitor = TransformVisitor::new(true, "file.tsx".to_string());
    let mut module = Module {
        body: vec![
            ModuleItem::Import(ImportDecl {
                src: "react".to_string(),
                specifiers: vec![ImportSpecifier::Named { local: ident("useExtracted", 1), imported: None }],
            }),
            ModuleItem::Import(ImportDecl {
                src: "next-intl".to_string(),
                specifiers: vec![
                    ImportSpecifier::Named { local: ident("useLocale", 1), imported: None },
                    ImportSpecifier::Namespace { local: ident("useExtracted", 1) },
                ],
            }),
            ModuleItem::Other(1),
        ],
    };
    let before = module.clone();
    visitor.visit_mut_module(&mut module);
    assert_eq!(module, before);

    let mut declarator = declare(ident("t", 2), "useExtracted", vec![]);
    let before = declarator.clone();
    visitor.visit_mut_var_declarator(&mut declarator);
    assert_eq!(declarator, before);

    let mut c = t(2, vec![lit("Hello")]);
    assert_eq!(visitor.visit_mut_call_expr(&mut c), CallOutcome::Untouched);
    assert_eq!(c, t(2, vec![lit("Hello")]));
    assert!(visitor.get_results().is_empty());
}

#[test]
fn second_traversal_of_a_rewritten_module_changes_nothing() {
    let mut first = TransformVisitor::new(false, "file.tsx".to_string());
    let mut module = import_of("next-intl", "useExtracted", None);
    let mut declarator = declare(ident("t", 2), "useExtracted", vec![lit("ns")]);
    let mut c = t(2, vec![lit("Hey!")]);
    first.visit_mut_module(&mut module);
    first.visit_mut_var_declarator(&mut declarator);
    first.visit_mut_call_expr(&mut c);
    assert_eq!(first.get_results().len(), 1);

    let (module1, declarator1, c1) = (module.clone(), declarator.clone(), c.clone());
    let mut second = TransformVisitor::new(false, "file.tsx".to_string());
    second.visit_mut_module(&mut module);
    second.visit_mut_var_declarator(&mut declarator);
    assert_eq!(second.visit_mut_call_expr(&mut c), CallOutcome::Untouched);
    assert_eq!(module, module1);
    assert_eq!(declarator, declarator1);
    assert_eq!(c, c1);
    assert!(second.get_results().is_empty());
}

#[test]
fn traversal_is_deterministic() {
    let run = || {
        let mut visitor = visitor_with_t(true, vec![lit("ns")]);
        let mut c = t(2, vec![lit("Hello"), Expr::Other(1)]);
        visitor.visit_mut_call_expr(&mut c);
        (c, visitor.get_output())
    };
    assert_eq!(run(), run());
}

#[test]
fn server_hook_is_awaited() {
    let mut visitor = TransformVisitor::new(false, "page.tsx".to_string());
    let mut module = import_of("next-intl/server", "getExtracted", None);
    visitor.visit_mut_module(&mut module);
    assert_eq!(module, import_of("next-intl/server", "getTranslations$1", Some("getTranslations")));

    let mut declarator = VarDeclarator {
        name: Pat::Ident(ident("t", 2)),
        init: Some(Init::AwaitCall(call(Callee::Ident(ident("getExtracted", 1)), vec![]))),
    };
    visitor.visit_mut_var_declarator(&mut declarator);
    assert_eq!(
        declarator.init,
        Some(Init::AwaitCall(call(Callee::Ident(ident("getTranslations$1", 1)), vec![])))
    );
    let mut c = t(2, vec![lit("Hi")]);
    assert_eq!(visitor.visit_mut_call_expr(&mut c), CallOutcome::Extracted);
    assert_eq!(c, t(2, vec![plain(&generate_key("Hi"))]));
}

#[test]
fn hooks_are_only_taken_from_their_own_module() {
    // `getExtracted` from 'next-intl' and `useExtracted` from the server
    // module are not the hooks.
    let mut visitor = TransformVisitor::new(false, "page.tsx".to_string());
    let mut a = import_of("next-intl", "getExtracted", None);
    let mut b = import_of("next-intl/server", "useExtracted", None);
    visitor.visit_mut_module(&mut a);
    visitor.visit_mut_module(&mut b);
    assert_eq!(a, import_of("next-intl", "getExtracted", None));
    assert_eq!(b, import_of("next-intl/server", "useExtracted", None));
    let mut declarator = declare(ident("t", 2), "getExtracted", vec![]);
    visitor.visit_mut_var_declarator(&mut declarator);
    assert_eq!(declarator, declare(ident("t", 2), "getExtracted", vec![]));
}
