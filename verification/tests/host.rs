// Whole modules, parsed by the compiler and walked as the compiler walks
// them: each node is described to the library and written back.

use intl_extract::ast;
use intl_extract::message::ExtractedMessage;
use intl_extract::output::{ModuleOutput, OutputMessage, Reference, StrictExtractedMessage};
use intl_extract::traversal::{TraversalMode, UseExtractedVisitor};
use intl_extract::visitor::{CallOutcome, TransformVisitor};
use serde_json::Value;
use swc_core::atoms::{Atom, Wtf8Atom};
use swc_core::common::{BytePos, FileName, Globals, Mark, SourceMap, Spanned, DUMMY_SP, GLOBALS};
use swc_core::ecma::ast::{
    ArrowExpr, ArrowFunctionBody, BlockStmt, CallExpr, Callee, Decl, EsVersion, Expr,
    ExprOrSpread, ExprStmt, Function, Ident, ImportDecl, ImportSpecifier, KeyValueProp, Lit,
    MemberExpr, MemberProp, Module, ModuleDecl, ModuleExportName, ModuleItem, Pat, Program, Prop,
    PropName, PropOrSpread, Stmt, Str, Tpl, VarDecl, VarDeclarator,
};
use swc_core::ecma::parser::{lexer::Lexer, EsSyntax, Parser, StringInput, Syntax, TsSyntax};
use swc_core::ecma::transforms::base::resolver;
use swc_core::ecma::visit::{VisitMut, VisitMutWith};

#[derive(Default)]
struct Nodes {
    exprs: Vec<Option<Box<Expr>>>,
}

impl Nodes {
    fn keep(&mut self, expr: &Expr) -> ast::NodeId {
        self.exprs.push(Some(Box::new(expr.clone())));
        (self.exprs.len() - 1) as ast::NodeId
    }

    fn opaque(&mut self) -> ast::NodeId {
        self.exprs.push(None);
        (self.exprs.len() - 1) as ast::NodeId
    }

    fn get(&self, id: ast::NodeId) -> Option<Box<Expr>> {
        self.exprs.get(id as usize).and_then(|e| e.clone())
    }
}

fn text(atom: &Wtf8Atom) -> String {
    atom.to_string_lossy().into_owned()
}

fn ident(i: &Ident) -> ast::Ident {
    ast::Ident { sym: i.sym.to_string(), ctxt: i.ctxt.as_u32() }
}

fn str_lit(s: &Str) -> ast::StrLit {
    ast::StrLit { value: text(&s.value), raw: s.raw.as_ref().map(|r| r.to_string()) }
}

fn tpl(t: &Tpl) -> ast::Tpl {
    ast::Tpl {
        quasis: t.quasis.iter().map(|q| q.cooked.as_ref().map(text)).collect(),
        exprs: t.exprs.len(),
    }
}

fn is_static(t: &Tpl) -> bool {
    t.exprs.is_empty() && t.quasis.iter().all(|q| q.cooked.is_some())
}

fn value(e: &Expr, nodes: &mut Nodes) -> ast::Value {
    match e {
        Expr::Lit(Lit::Str(s)) => ast::Value::Str(str_lit(s)),
        Expr::Tpl(t) if is_static(t) => ast::Value::Tpl(tpl(t)),
        other => ast::Value::Other(nodes.keep(other)),
    }
}

fn prop(p: &PropOrSpread, nodes: &mut Nodes) -> ast::Prop {
    match p {
        PropOrSpread::Prop(p) => match &**p {
            Prop::KeyValue(KeyValueProp { key: PropName::Ident(key), value: v }) => {
                ast::Prop::Named { key: key.sym.to_string(), value: value(v, nodes) }
            }
            _ => ast::Prop::Other,
        },
        _ => ast::Prop::Other,
    }
}

fn arrow_body(a: &ArrowExpr, nodes: &mut Nodes) -> ast::ArrowBody {
    match &*a.body {
        ArrowFunctionBody::Expr(body) => match &**body {
            Expr::Call(CallExpr { callee: Callee::Import(_), args, .. }) => {
                ast::ArrowBody::Import(args.iter().map(|a| value(&a.expr, nodes)).collect())
            }
            other => ast::ArrowBody::Other(nodes.keep(other)),
        },
        _ => ast::ArrowBody::Other(nodes.opaque()),
    }
}

fn expr(e: &Expr, nodes: &mut Nodes) -> ast::Expr {
    match e {
        Expr::Lit(Lit::Str(s)) => ast::Expr::Str(str_lit(s)),
        Expr::Tpl(t) => ast::Expr::Tpl(tpl(t)),
        Expr::Object(o) => ast::Expr::Object(o.props.iter().map(|p| prop(p, nodes)).collect()),
        Expr::Arrow(a) => ast::Expr::Arrow(arrow_body(a, nodes)),
        other => ast::Expr::Other(nodes.keep(other)),
    }
}

fn callee(c: &Callee, nodes: &mut Nodes) -> ast::Callee {
    match c {
        Callee::Import(_) => ast::Callee::Import,
        Callee::Expr(e) => match &**e {
            Expr::Ident(i) => ast::Callee::Ident(ident(i)),
            Expr::Member(MemberExpr { obj, prop: MemberProp::Ident(p), .. }) => match &**obj {
                Expr::Ident(o) => ast::Callee::Member { obj: ident(o), prop: p.sym.to_string() },
                _ => ast::Callee::Other(nodes.keep(e)),
            },
            other => ast::Callee::Other(nodes.keep(other)),
        },
        _ => ast::Callee::Other(nodes.opaque()),
    }
}

fn call(c: &CallExpr, nodes: &mut Nodes) -> ast::CallExpr {
    ast::CallExpr {
        callee: callee(&c.callee, nodes),
        args: c
            .args
            .iter()
            .map(|a| ast::Arg { spread: a.spread.is_some(), expr: expr(&a.expr, nodes) })
            .collect(),
        line: None,
        column: None,
    }
}

fn declarator(d: &VarDeclarator, nodes: &mut Nodes) -> ast::VarDeclarator {
    let name = match &d.name {
        Pat::Ident(b) => ast::Pat::Ident(ident(&b.id)),
        _ => ast::Pat::Other(nodes.opaque()),
    };
    let init = d.init.as_ref().map(|init| match &**init {
        Expr::Call(c) => ast::Init::Call(call(c, nodes)),
        Expr::Await(a) => match &*a.arg {
            Expr::Call(c) => ast::Init::AwaitCall(call(c, nodes)),
            other => ast::Init::Other(nodes.keep(other)),
        },
        other => ast::Init::Other(nodes.keep(other)),
    });
    ast::VarDeclarator { name, init }
}

fn import_specifier(s: &ImportSpecifier) -> ast::ImportSpecifier {
    match s {
        ImportSpecifier::Named(n) => ast::ImportSpecifier::Named {
            local: ident(&n.local),
            imported: n.imported.as_ref().map(|i| match i {
                ModuleExportName::Ident(i) => ast::ModuleExportName::Ident(i.sym.to_string()),
                ModuleExportName::Str(s) => ast::ModuleExportName::Str(text(&s.value)),
            }),
        },
        ImportSpecifier::Default(d) => ast::ImportSpecifier::Default { local: ident(&d.local) },
        ImportSpecifier::Namespace(n) => ast::ImportSpecifier::Namespace { local: ident(&n.local) },
    }
}

fn import_decl(d: &ImportDecl) -> ast::ImportDecl {
    ast::ImportDecl {
        src: text(&d.src.value),
        specifiers: d.specifiers.iter().map(import_specifier).collect(),
    }
}

fn module(m: &Module, nodes: &mut Nodes) -> ast::Module {
    let body = m
        .body
        .iter()
        .map(|item| match item {
            ModuleItem::ModuleDecl(ModuleDecl::Import(d)) => ast::ModuleItem::Import(import_decl(d)),
            ModuleItem::ModuleDecl(ModuleDecl::ExportAll(e)) => {
                ast::ModuleItem::ExportFrom(text(&e.src.value))
            }
            ModuleItem::ModuleDecl(ModuleDecl::ExportNamed(e)) => match &e.src {
                Some(src) => ast::ModuleItem::ExportFrom(text(&src.value)),
                None => ast::ModuleItem::Other(nodes.opaque()),
            },
            ModuleItem::Stmt(Stmt::Expr(ExprStmt { expr, .. })) => match &**expr {
                Expr::Lit(Lit::Str(s)) => ast::ModuleItem::StrStmt(text(&s.value)),
                _ => ast::ModuleItem::Other(nodes.opaque()),
            },
            _ => ast::ModuleItem::Other(nodes.opaque()),
        })
        .collect();
    ast::Module { body }
}

fn write_import(d: &mut ImportDecl, before: &ast::ImportDecl, after: &ast::ImportDecl) {
    for (i, spec) in d.specifiers.iter_mut().enumerate() {
        if before.specifiers[i] == after.specifiers[i] {
            continue;
        }
        if let (ImportSpecifier::Named(named), ast::ImportSpecifier::Named { local, imported }) =
            (spec, &after.specifiers[i])
        {
            named.imported = imported.as_ref().map(|name| match name {
                ast::ModuleExportName::Ident(n) => {
                    ModuleExportName::Ident(Ident::new_no_ctxt(Atom::from(n.as_str()), DUMMY_SP))
                }
                ast::ModuleExportName::Str(n) => ModuleExportName::Str(Str {
                    span: DUMMY_SP,
                    value: n.as_str().into(),
                    raw: None,
                }),
            });
            named.local = Ident::new(Atom::from(local.sym.as_str()), DUMMY_SP, named.local.ctxt);
        }
    }
}

fn write_callee(c: &mut CallExpr, before: &ast::CallExpr, after: &ast::CallExpr) {
    if before.callee == after.callee {
        return;
    }
    if let (Callee::Expr(e), ast::Callee::Ident(name)) = (&c.callee, &after.callee) {
        if let Expr::Ident(old) = &**e {
            c.callee = Callee::Expr(
                Ident::new(Atom::from(name.sym.as_str()), DUMMY_SP, old.ctxt).into(),
            );
        }
    }
}

fn write_declarator(d: &mut VarDeclarator, before: &ast::VarDeclarator, after: &ast::VarDeclarator) {
    let Some(init) = &mut d.init else { return };
    match (&mut **init, &before.init, &after.init) {
        (Expr::Call(c), Some(ast::Init::Call(b)), Some(ast::Init::Call(a))) => write_callee(c, b, a),
        (Expr::Await(w), Some(ast::Init::AwaitCall(b)), Some(ast::Init::AwaitCall(a))) => {
            if let Expr::Call(c) = &mut *w.arg {
                write_callee(c, b, a)
            }
        }
        _ => {}
    }
}

fn template_origin(first: Option<&ExprOrSpread>, wanted: &ast::Tpl) -> Option<Box<Expr>> {
    let Expr::Object(o) = &*first?.expr else { return None };
    o.props.iter().find_map(|p| match p {
        PropOrSpread::Prop(p) => match &**p {
            Prop::KeyValue(KeyValueProp { value: v, .. }) => match &**v {
                Expr::Tpl(t) if &tpl(t) == wanted => Some(v.clone()),
                _ => None,
            },
            _ => None,
        },
        _ => None,
    })
}

fn write_args(c: &mut CallExpr, before: &[ast::Arg], after: Vec<ast::Arg>, nodes: &Nodes) {
    let mut old: Vec<Option<ExprOrSpread>> = c.args.drain(..).map(Some).collect();
    let first = old.first().cloned().flatten();
    for (i, arg) in after.into_iter().enumerate() {
        if i < before.len() && before[i] == arg {
            if let Some(kept) = old[i].take() {
                c.args.push(kept);
                continue;
            }
        }
        let previous = old.get(i).and_then(|o| o.as_ref());
        let span = previous.map(|o| o.expr.span()).unwrap_or(DUMMY_SP);
        let spread = if arg.spread { previous.and_then(|o| o.spread).or(Some(DUMMY_SP)) } else { None };
        let expr: Box<Expr> = match arg.expr {
            ast::Expr::Str(s) => Box::new(Expr::Lit(Lit::Str(Str {
                span,
                value: s.value.into(),
                raw: s.raw.map(Atom::from),
            }))),
            ast::Expr::Undefined => Expr::undefined(DUMMY_SP),
            ast::Expr::Other(id) => nodes.get(id).unwrap_or_else(|| Expr::undefined(DUMMY_SP)),
            ast::Expr::Tpl(t) => {
                template_origin(first.as_ref(), &t).unwrap_or_else(|| Expr::undefined(DUMMY_SP))
            }
            ast::Expr::Object(_) | ast::Expr::Arrow(_) => match previous {
                Some(o) => o.expr.clone(),
                None => Expr::undefined(DUMMY_SP),
            },
        };
        c.args.push(ExprOrSpread { spread, expr });
    }
}

// The traversal with identifiers resolved by the compiler.
struct Host {
    inner: TransformVisitor,
    diagnostics: usize,
}

impl Host {
    fn new(is_development: bool, file_path: String) -> Self {
        Host { inner: TransformVisitor::new(is_development, file_path), diagnostics: 0 }
    }
}

impl VisitMut for Host {
    fn visit_mut_call_expr(&mut self, c: &mut CallExpr) {
        let mut nodes = Nodes::default();
        let before = call(c, &mut nodes);
        let mut after = before.clone();
        match self.inner.visit_mut_call_expr(&mut after) {
            CallOutcome::Extracted => write_args(c, &before.args, after.args, &nodes),
            CallOutcome::Dynamic(_) => self.diagnostics += 1,
            CallOutcome::Referenced | CallOutcome::Untouched => {}
        }
        c.visit_mut_children_with(self);
    }

    fn visit_mut_module(&mut self, m: &mut Module) {
        let mut nodes = Nodes::default();
        let before = module(m, &mut nodes);
        let mut after = before.clone();
        self.inner.visit_mut_module(&mut after);
        for (i, item) in m.body.iter_mut().enumerate() {
            if let (
                ModuleItem::ModuleDecl(ModuleDecl::Import(import)),
                ast::ModuleItem::Import(b),
                ast::ModuleItem::Import(a),
            ) = (item, &before.body[i], &after.body[i])
            {
                write_import(import, b, a);
            }
        }
        m.visit_mut_children_with(self);
    }

    fn visit_mut_var_declarator(&mut self, node: &mut VarDeclarator) {
        let mut nodes = Nodes::default();
        let before = declarator(node, &mut nodes);
        let mut after = before.clone();
        self.inner.visit_mut_var_declarator(&mut after);
        write_declarator(node, &before, &after);
        node.visit_mut_children_with(self);
    }
}

// The traversal with scopes in place of resolved identifiers.
struct Scoped {
    inner: UseExtractedVisitor,
}

impl Scoped {
    fn scoped(&mut self, walk: impl FnOnce(&mut Self)) {
        self.inner.enter_scope();
        walk(self);
        self.inner.leave_scope().expect("a scope is left that was not entered");
    }
}

impl VisitMut for Scoped {
    fn visit_mut_import_decl(&mut self, import: &mut ImportDecl) {
        let before = import_decl(import);
        let mut after = before.clone();
        self.inner.visit_mut_import_decl(&mut after);
        write_import(import, &before, &after);
        import.visit_mut_children_with(self);
    }

    fn visit_mut_var_decl(&mut self, var_decl: &mut VarDecl) {
        let mut nodes = Nodes::default();
        let before: Vec<ast::VarDeclarator> =
            var_decl.decls.iter().map(|d| declarator(d, &mut nodes)).collect();
        let mut after = before.clone();
        self.inner.visit_mut_var_decl(&mut after);
        for (i, decl) in var_decl.decls.iter_mut().enumerate() {
            write_declarator(decl, &before[i], &after[i]);
        }
        var_decl.visit_mut_children_with(self);
    }

    fn visit_mut_call_expr(&mut self, c: &mut CallExpr) {
        let mut nodes = Nodes::default();
        let before = call(c, &mut nodes);
        let mut after = before.clone();
        self.inner.visit_mut_call_expr(&mut after);
        if after != before {
            write_args(c, &before.args, after.args, &nodes);
        }
        c.visit_mut_children_with(self);
    }

    fn visit_mut_block_stmt(&mut self, n: &mut BlockStmt) {
        self.scoped(|v| n.visit_mut_children_with(v));
    }

    fn visit_mut_function(&mut self, n: &mut Function) {
        self.scoped(|v| n.visit_mut_children_with(v));
    }

    fn visit_mut_arrow_expr(&mut self, n: &mut ArrowExpr) {
        self.scoped(|v| n.visit_mut_children_with(v));
    }
}

fn references_json(references: &[Reference]) -> Value {
    Value::Array(
        references
            .iter()
            .map(|r| {
                let mut o = serde_json::Map::new();
                o.insert("path".to_string(), Value::String(r.path.clone()));
                if let Some(line) = r.line {
                    o.insert("line".to_string(), Value::from(line));
                }
                if let Some(column) = r.column {
                    o.insert("column".to_string(), Value::from(column));
                }
                Value::Object(o)
            })
            .collect(),
    )
}

fn output_json(output: &ModuleOutput) -> String {
    let messages = output
        .messages
        .iter()
        .map(|m| {
            let mut o = serde_json::Map::new();
            match m {
                OutputMessage::Extracted(e) => {
                    o.insert("type".to_string(), Value::String("Extracted".to_string()));
                    o.insert("id".to_string(), Value::String(e.id.clone()));
                    o.insert("message".to_string(), Value::String(e.message.clone()));
                    o.insert(
                        "description".to_string(),
                        match &e.description {
                            Some(d) => Value::String(d.clone()),
                            None => Value::Null,
                        },
                    );
                    o.insert("references".to_string(), references_json(&e.references));
                }
                OutputMessage::Translations { id, references } => {
                    o.insert("type".to_string(), Value::String("Translations".to_string()));
                    o.insert("id".to_string(), Value::String(id.clone()));
                    o.insert("references".to_string(), references_json(references));
                }
            }
            Value::Object(o)
        })
        .collect();
    let mut o = serde_json::Map::new();
    o.insert("messages".to_string(), Value::Array(messages));
    o.insert(
        "dependencies".to_string(),
        Value::Array(output.dependencies.iter().map(|d| Value::String(d.clone())).collect()),
    );
    o.insert("hasUseClient".to_string(), Value::Bool(output.has_use_client));
    o.insert("hasUseServer".to_string(), Value::Bool(output.has_use_server));
    serde_json::to_string(&Value::Object(o)).unwrap()
}

fn parse(cm: &SourceMap, code: &str, jsx: bool) -> Program {
    let fm = cm.new_source_file(FileName::Anon.into(), code.to_string());
    let lexer = Lexer::new(
        Syntax::Es(EsSyntax { jsx, ..Default::default() }),
        EsVersion::EsNext,
        StringInput::from(&*fm),
        None,
    );
    let mut parser = Parser::new_from(lexer);
    parser.parse_program().unwrap()
}

fn transform(code: &str, is_development: bool, file_name: &str) -> (Program, Host) {
    let cm = SourceMap::default();
    let mut program = parse(&cm, code, true);

    let unresolved_mark = Mark::new();
    let top_level_mark = Mark::new();
    program.visit_mut_with(&mut resolver(unresolved_mark, top_level_mark, false));

    let mut visitor = Host::new(is_development, file_name.to_string());
    program.visit_mut_with(&mut visitor);
    (program, visitor)
}

fn parse_and_run(code: &str, file_name: &str) -> Value {
    let (_, visitor) = transform(code, true, file_name);
    let json = output_json(&visitor.inner.get_output());
    serde_json::from_str(&json).expect("output must be valid JSON")
}

fn run_test<F, R>(f: F) -> R
where
    F: FnOnce() -> R,
{
    let globals = Globals::new();
    GLOBALS.set(&globals, f)
}

#[test]
fn output_contains_extracted_messages() {
    run_test(|| {
        let output = parse_and_run(
            r#"
import { useExtracted } from "next-intl";

function Component() {
  const t = useExtracted();
  t("Hello!");
}
"#,
            "Component.tsx",
        );

        let messages = output["messages"].as_array().unwrap();
        assert_eq!(messages.len(), 1);
        assert_eq!(messages[0]["type"], "Extracted");
        assert_eq!(messages[0]["message"], "Hello!");
        assert!(!messages[0]["id"].as_str().unwrap().is_empty());
        assert!(messages[0]["references"].as_array().unwrap().len() > 0);
    });
}

#[test]
fn output_contains_translations_from_use_translations() {
    run_test(|| {
        let output = parse_and_run(
            r#"
import { useExtracted, useTranslations } from "next-intl";

function Component() {
  const t = useExtracted();
  const t2 = useTranslations("common");
  t("Hello!");
  t2("greeting");
}
"#,
            "Component.tsx",
        );

        let messages = output["messages"].as_array().unwrap();
        assert!(messages.len() >= 2);

        let extracted: Vec<_> = messages.iter().filter(|m| m["type"] == "Extracted").collect();
        assert_eq!(extracted.len(), 1);
        assert_eq!(extracted[0]["message"], "Hello!");

        let translations: Vec<_> =
            messages.iter().filter(|m| m["type"] == "Translations").collect();
        assert_eq!(translations.len(), 1);
        assert_eq!(translations[0]["id"], "common.greeting");
        assert!(translations[0]["references"].as_array().unwrap().len() > 0);
    });
}

#[test]
fn output_contains_dependencies() {
    run_test(|| {
        let output = parse_and_run(
            r#"
import { useExtracted } from "next-intl";
import { foo } from "./utils";

function Component() {
  const t = useExtracted();
  t("Hi");
}
"#,
            "Component.tsx",
        );

        let deps = output["dependencies"].as_array().unwrap();
        assert!(deps.iter().any(|v| v == "next-intl"));
        assert!(deps.iter().any(|v| v == "./utils"));
    });
}

#[test]
fn output_contains_dynamic_import_dependencies() {
    run_test(|| {
        let output = parse_and_run(
            r#"
"use client";

import dynamic from "next/dynamic";
import { lazy } from "react";

const DynamicContent = dynamic(() => import("./DynamicContent"));
const LazyContent = lazy(() => import("./LazyContent"));

function Component() {
  return null;
}
"#,
            "Component.tsx",
        );

        let deps = output["dependencies"].as_array().unwrap();
        assert!(
            deps.iter().any(|v| v == "./DynamicContent"),
            "expected ./DynamicContent in {:?}",
            deps
        );
        assert!(
            deps.iter().any(|v| v == "./LazyContent"),
            "expected ./LazyContent in {:?}",
            deps
        );
    });
}

#[test]
fn output_has_use_client_when_directive_present() {
    run_test(|| {
        let output = parse_and_run(
            r#"
"use client";

import { useExtracted } from "next-intl";

function Component() {
  const t = useExtracted();
  t("Hi");
}
"#,
            "Component.tsx",
        );

        assert_eq!(output["hasUseClient"], true);
        assert_eq!(output["hasUseServer"], false);
    });
}

#[test]
fn output_has_use_server_when_directive_present() {
    run_test(|| {
        let output = parse_and_run(
            r#"
"use server";

import { getExtracted } from "next-intl/server";

async function ServerComponent() {
  const t = await getExtracted();
  t("Hi");
}
"#,
            "ServerComponent.tsx",
        );

        assert_eq!(output["hasUseClient"], false);
        assert_eq!(output["hasUseServer"], true);
    });
}

#[test]
fn output_has_both_directives_when_both_present() {
    run_test(|| {
        let output = parse_and_run(
            r#"
"use client";
"use server";

import { useExtracted } from "next-intl";

function Component() {
  const t = useExtracted();
  t("Hi");
}
"#,
            "Component.tsx",
        );

        assert_eq!(output["hasUseClient"], true);
        assert_eq!(output["hasUseServer"], true);
    });
}

#[test]
fn output_structure_matches_plugin_emit_format() {
    run_test(|| {
        let output = parse_and_run(
            r#"
import { useTranslations } from "next-intl";

function Component() {
  const t = useTranslations("ui");
  return t("button");
}
"#,
            "Component.tsx",
        );

        assert!(output.get("messages").is_some());
        assert!(output.get("dependencies").is_some());
        assert!(output.get("hasUseClient").is_some());
        assert!(output.get("hasUseServer").is_some());

        let messages = output["messages"].as_array().unwrap();
        assert_eq!(messages.len(), 1);
        assert_eq!(messages[0]["type"], "Translations");
        assert_eq!(messages[0]["id"], "ui.button");
        assert!(messages[0]["references"].as_array().unwrap().len() > 0);
    });
}

fn extracted(m: &OutputMessage) -> &StrictExtractedMessage {
    match m {
        OutputMessage::Extracted(e) => e,
        OutputMessage::Translations { .. } => panic!("expected an extracted message"),
    }
}

#[test]
fn merges_duplicate_messages_preserving_description() {
    let globals = Globals::new();
    GLOBALS.set(&globals, || {
        let code = r#"
            import {useExtracted} from 'next-intl';
            
            function Component() {
                const t = useExtracted();
                t('message');
                t({message: 'message', description: 'A description'});
            }
        "#;

        let cm = SourceMap::default();
        let mut program = parse(&cm, code, false);

        if !program.is_module() {
            panic!("Parsed as script, expected module");
        }

        let unresolved_mark = Mark::new();
        let top_level_mark = Mark::new();

        program.visit_mut_with(&mut resolver(unresolved_mark, top_level_mark, false));

        let mut visitor = Host::new(true, "test.tsx".to_string());

        program.visit_mut_with(&mut visitor);

        let results = visitor.inner.get_results();

        // There should be 1 message
        assert_eq!(results.len(), 1);

        let message = extracted(&results[0]);
        // Check references
        assert_eq!(message.references.len(), 2);

        // Check description
        if let Some(desc) = &message.description {
            assert_eq!(desc.to_string(), "A description");
        } else {
            panic!("Description is missing");
        }
    });
}

fn render(messages: &[ExtractedMessage]) -> String {
    let opt = |s: &Option<String>| serde_json::to_string(s).unwrap();
    let num = |n: &Option<u32>| serde_json::to_string(n).unwrap();
    let items: Vec<String> = messages
        .iter()
        .map(|m| {
            format!(
                "  {{\n    \"id\": {},\n    \"message\": {},\n    \"description\": {},\n    \"file_path\": {},\n    \"line\": {},\n    \"column\": {}\n  }}",
                serde_json::to_string(&m.id).unwrap(),
                serde_json::to_string(&m.message).unwrap(),
                opt(&m.description),
                opt(&m.file_path),
                num(&m.line),
                num(&m.column),
            )
        })
        .collect();
    format!("[\n{}\n]", items.join(",\n"))
}

#[test]
fn extract_messages() {
    let source_code = r#"
import {useState} from 'react';
import {useExtracted} from 'next-intl';

function Component() {
    const [notification, setNotification] = useState();
    const t = useExtracted();

    function onClick() {
        setNotification(t("Successfully sent!"));
    }

    return (
        <div>
            <button onClick={onClick}>
                {t("Send")}
            </button>
            {notification}
        </div>
    );
}
    "#;

    let syntax = Syntax::Typescript(TsSyntax {
        tsx: true,
        decorators: true,
        dts: false,
        no_early_errors: false,
        disallow_ambiguous_jsx_like: true,
        ..Default::default()
    });

    let input = StringInput::new(source_code, BytePos(0), BytePos(source_code.len() as u32));
    let lexer = Lexer::new(syntax, EsVersion::latest(), input, None);
    let mut parser = Parser::new_from(lexer);

    let mut module = parser.parse_module().expect("Failed to parse module");

    let mut visitor = Scoped { inner: UseExtractedVisitor::new(TraversalMode::Analyze) };
    visitor.inner.file_path = Some("test.tsx".to_string());
    module.visit_mut_with(&mut visitor);

    // Check that messages were extracted
    let actual = render(&visitor.inner.found_messages);

    let expected = r#"[
  {
    "id": "+1F2If",
    "message": "Successfully sent!",
    "description": null,
    "file_path": "test.tsx",
    "line": null,
    "column": null
  },
  {
    "id": "9WRlF4",
    "message": "Send",
    "description": null,
    "file_path": "test.tsx",
    "line": null,
    "column": null
  }
]"#;

    assert_eq!(actual, expected);
}

// The declarations and statements of the first function of a program.
fn first_function_body(program: &Program) -> Vec<Stmt> {
    let Program::Module(m) = program else { panic!("expected a module") };
    m.body
        .iter()
        .find_map(|item| match item {
            ModuleItem::Stmt(Stmt::Decl(Decl::Fn(f))) => {
                f.function.body.as_ref().map(|b| b.stmts.clone())
            }
            _ => None,
        })
        .expect("expected a function")
}

fn call_of(stmt: &Stmt) -> &CallExpr {
    match stmt {
        Stmt::Expr(ExprStmt { expr, .. }) => match &**expr {
            Expr::Call(c) => c,
            _ => panic!("expected a call"),
        },
        _ => panic!("expected an expression statement"),
    }
}

fn string_arg(c: &CallExpr, at: usize) -> (String, bool) {
    match &*c.args[at].expr {
        Expr::Lit(Lit::Str(s)) => (text(&s.value), s.raw.is_some()),
        other => panic!("expected a string literal, found {:?}", other),
    }
}

fn is_undefined(c: &CallExpr, at: usize) -> bool {
    *c.args[at].expr == *Expr::undefined(DUMMY_SP)
}

fn hook_callee(stmt: &Stmt) -> String {
    let Stmt::Decl(Decl::Var(v)) = stmt else { panic!("expected a declaration") };
    let init = v.decls[0].init.as_ref().expect("expected an initialiser");
    let c = match &**init {
        Expr::Call(c) => c,
        Expr::Await(a) => match &*a.arg {
            Expr::Call(c) => c,
            _ => panic!("expected a call"),
        },
        _ => panic!("expected a call"),
    };
    match &c.callee {
        Callee::Expr(e) => match &**e {
            Expr::Ident(i) => i.sym.to_string(),
            _ => panic!("expected an identifier"),
        },
        _ => panic!("expected an identifier"),
    }
}

fn first_import(program: &Program) -> Vec<(Option<String>, String)> {
    let Program::Module(m) = program else { panic!("expected a module") };
    m.body
        .iter()
        .find_map(|item| match item {
            ModuleItem::ModuleDecl(ModuleDecl::Import(d)) => Some(
                d.specifiers
                    .iter()
                    .map(|s| match s {
                        ImportSpecifier::Named(n) => (
                            n.imported.as_ref().map(|i| match i {
                                ModuleExportName::Ident(i) => i.sym.to_string(),
                                ModuleExportName::Str(s) => text(&s.value),
                            }),
                            n.local.sym.to_string(),
                        ),
                        ImportSpecifier::Default(d) => (None, d.local.sym.to_string()),
                        ImportSpecifier::Namespace(n) => (None, n.local.sym.to_string()),
                    })
                    .collect(),
            ),
            _ => None,
        })
        .expect("expected an import")
}

#[test]
fn module_is_rewritten_in_place() {
    run_test(|| {
        let (program, visitor) = transform(
            "import {useExtracted} from 'next-intl'; function C(){ const t = useExtracted(); t(\"Hey from server!\"); }",
            false,
            "file.tsx",
        );
        assert_eq!(
            first_import(&program),
            vec![(Some("useTranslations".to_string()), "useTranslations$1".to_string())]
        );
        let body = first_function_body(&program);
        assert_eq!(hook_callee(&body[0]), "useTranslations$1");
        let c = call_of(&body[1]);
        assert_eq!(c.args.len(), 1);
        assert_eq!(string_arg(c, 0), ("mwFebS".to_string(), false));
        assert_eq!(visitor.diagnostics, 0);
        let results = visitor.inner.get_results();
        assert_eq!(results.len(), 1);
        assert_eq!(extracted(&results[0]).id, "mwFebS");
        assert_eq!(extracted(&results[0]).message, "Hey from server!");
        assert_eq!(extracted(&results[0]).references[0].path, "file.tsx");
    });
}

#[test]
fn messages_inside_markup_are_found_in_source_order() {
    run_test(|| {
        let (_, visitor) = transform(
            "import {useExtracted} from 'next-intl'; function C(){ const t = useExtracted(); return <div><button onClick={()=>t(\"Successfully sent!\")}>{t(\"Send\")}</button></div>; }",
            false,
            "file.tsx",
        );
        let ids: Vec<&str> =
            visitor.inner.get_results().iter().map(|m| extracted(m).id.as_str()).collect();
        assert_eq!(ids, vec!["+1F2If", "9WRlF4"]);
    });
}

#[test]
fn aliased_import_is_followed_through_the_module() {
    run_test(|| {
        let (program, _) = transform(
            "import {useExtracted as useInlined} from 'next-intl'; function C(){ const t = useInlined(); t(\"Hey!\"); }",
            false,
            "file.tsx",
        );
        assert_eq!(
            first_import(&program),
            vec![(Some("useTranslations".to_string()), "useTranslations$1".to_string())]
        );
        let body = first_function_body(&program);
        assert_eq!(hook_callee(&body[0]), "useTranslations$1");
        assert_eq!(string_arg(call_of(&body[1]), 0), ("+YJVTi".to_string(), false));
    });
}

#[test]
fn same_name_in_another_scope_is_not_the_translator() {
    run_test(|| {
        let (program, visitor) = transform(
            "import {useExtracted} from 'next-intl'; function C(){ const t = useExtracted(); t(\"Hey!\"); } const t = (m)=>m; t(\"Should not be transformed\");",
            false,
            "file.tsx",
        );
        let body = first_function_body(&program);
        assert_eq!(string_arg(call_of(&body[1]), 0), ("+YJVTi".to_string(), false));
        let Program::Module(m) = &program else { panic!("expected a module") };
        let ModuleItem::Stmt(last) = m.body.last().unwrap() else { panic!("expected a statement") };
        assert_eq!(string_arg(call_of(last), 0), ("Should not be transformed".to_string(), true));
        assert_eq!(visitor.inner.get_results().len(), 1);
    });
}

#[test]
fn options_object_becomes_arguments_with_fallback() {
    run_test(|| {
        let (program, visitor) = transform(
            "import {useExtracted} from 'next-intl'; function C(){ const t = useExtracted(); t({ id: \"greet\", message: \"Hello\", description: \"A greeting\" }); }",
            true,
            "file.tsx",
        );
        let body = first_function_body(&program);
        let c = call_of(&body[1]);
        assert_eq!(c.args.len(), 4);
        assert_eq!(string_arg(c, 0), ("greet".to_string(), false));
        assert!(is_undefined(c, 1));
        assert!(is_undefined(c, 2));
        assert_eq!(string_arg(c, 3), ("Hello".to_string(), false));
        let m = extracted(&visitor.inner.get_results()[0]).clone();
        assert_eq!((m.id.as_str(), m.message.as_str()), ("greet", "Hello"));
        assert_eq!(m.description.as_deref(), Some("A greeting"));
    });
}

#[test]
fn values_and_formats_keep_their_nodes() {
    run_test(|| {
        let (program, _) = transform(
            "import {useExtracted} from 'next-intl'; function C(){ const t = useExtracted(); t({ message: `Hello {name}`, values: {name: user.name}, formats: `f` }); }",
            false,
            "file.tsx",
        );
        let body = first_function_body(&program);
        let c = call_of(&body[1]);
        assert_eq!(c.args.len(), 3);
        assert_eq!(string_arg(c, 0).0, intl_extract::key::generate_key("Hello {name}"));
        assert!(matches!(&*c.args[1].expr, Expr::Object(o) if o.props.len() == 1));
        assert!(matches!(&*c.args[2].expr, Expr::Tpl(t) if t.quasis.len() == 1));
    });
}

#[test]
fn namespace_goes_into_the_identifier_only() {
    run_test(|| {
        let (program, visitor) = transform(
            "import {useExtracted} from 'next-intl'; function C(){ const t = useExtracted(\"common\"); t(\"ok\"); }",
            false,
            "file.tsx",
        );
        let key = intl_extract::key::generate_key("ok");
        let body = first_function_body(&program);
        assert_eq!(string_arg(call_of(&body[1]), 0), (key.clone(), false));
        assert_eq!(extracted(&visitor.inner.get_results()[0]).id, format!("common.{}", key));
    });
}

#[test]
fn dynamic_message_gives_one_diagnostic() {
    run_test(|| {
        let code = "import {useExtracted} from 'next-intl'; function C(){ const t = useExtracted(); const x = \"hi\"; t(x); }";
        let (program, visitor) = transform(code, true, "file.tsx");
        assert_eq!(visitor.diagnostics, 1);
        let body = first_function_body(&program);
        let c = call_of(&body[2]);
        assert_eq!(c.args.len(), 1);
        assert!(matches!(&*c.args[0].expr, Expr::Ident(i) if i.sym == "x"));
        assert!(visitor.inner.get_results().is_empty());
    });
}

#[test]
fn module_facts_are_collected() {
    run_test(|| {
        let output = parse_and_run(
            "\"use client\"; import dynamic from \"next/dynamic\"; import {useExtracted} from \"next-intl\"; const L = dynamic(()=>import(\"./L\"));",
            "file.tsx",
        );
        assert_eq!(output["hasUseClient"], true);
        assert_eq!(output["hasUseServer"], false);
        let deps = output["dependencies"].as_array().unwrap();
        for d in ["next/dynamic", "next-intl", "./L"] {
            assert!(deps.iter().any(|v| v == d), "expected {} in {:?}", d, deps);
        }
    });
}

#[test]
fn module_without_the_hook_comes_back_unchanged() {
    run_test(|| {
        let code = "import {useState} from 'react'; function C(){ const t = useState(); t(\"Hello\"); t({message: \"m\"}); }";
        let cm = SourceMap::default();
        let mut expected = parse(&cm, code, true);
        let unresolved_mark = Mark::new();
        let top_level_mark = Mark::new();
        expected.visit_mut_with(&mut resolver(unresolved_mark, top_level_mark, false));
        let mut actual = expected.clone();
        let mut visitor = Host::new(true, "file.tsx".to_string());
        actual.visit_mut_with(&mut visitor);
        assert_eq!(actual, expected);
        assert!(visitor.inner.get_results().is_empty());
    });
}

#[test]
fn second_pass_over_a_rewritten_module_changes_nothing() {
    run_test(|| {
        let (once, _) = transform(
            "import {useExtracted} from 'next-intl'; function C(){ const t = useExtracted(\"ns\"); t(\"Hey!\"); t.rich(\"Bold\", {b: (c) => c}); }",
            true,
            "file.tsx",
        );
        let mut twice = once.clone();
        let mut visitor = Host::new(true, "file.tsx".to_string());
        twice.visit_mut_with(&mut visitor);
        assert_eq!(twice, once);
        assert!(visitor.inner.get_results().is_empty());
    });
}

#[test]
fn templates_with_interpolation_keep_their_own_nodes() {
    run_test(|| {
        let (program, _) = transform(
            "import {useExtracted} from 'next-intl'; function C(){ const t = useExtracted(); t({ message: 'Hello', values: `a${x}`, formats: `a${y}` }); }",
            false,
            "file.tsx",
        );
        let body = first_function_body(&program);
        let c = call_of(&body[1]);
        assert_eq!(c.args.len(), 3);
        let interpolated = |e: &Expr| match e {
            Expr::Tpl(t) => match &*t.exprs[0] {
                Expr::Ident(i) => i.sym.to_string(),
                other => panic!("expected an identifier, found {:?}", other),
            },
            other => panic!("expected a template, found {:?}", other),
        };
        assert_eq!(interpolated(&c.args[1].expr), "x");
        assert_eq!(interpolated(&c.args[2].expr), "y");
    });
}

#[test]
fn import_under_a_quoted_name_that_is_not_the_hook_is_kept() {
    run_test(|| {
        let code = "import {\"x\" as useExtracted} from 'next-intl'; function C(){ const t = useExtracted(); t('Hi'); }";
        let cm = SourceMap::default();
        let mut expected = parse(&cm, code, true);
        let unresolved_mark = Mark::new();
        let top_level_mark = Mark::new();
        expected.visit_mut_with(&mut resolver(unresolved_mark, top_level_mark, false));
        let mut actual = expected.clone();
        let mut visitor = Host::new(true, "file.tsx".to_string());
        actual.visit_mut_with(&mut visitor);
        assert_eq!(actual, expected);
        assert!(visitor.inner.get_results().is_empty());
        assert_eq!(visitor.diagnostics, 0);
    });
}

#[test]
fn module_that_calls_the_hook_without_importing_it_is_kept() {
    let source_code = "const t = useExtracted(); t(\"Hey!\"); function C(){ const t = useExtracted(); t(\"Hey!\"); }";
    for mode in [TraversalMode::Analyze, TraversalMode::Transform, TraversalMode::Both] {
        let syntax = Syntax::Typescript(TsSyntax { tsx: true, ..Default::default() });
        let input = StringInput::new(source_code, BytePos(0), BytePos(source_code.len() as u32));
        let lexer = Lexer::new(syntax, EsVersion::latest(), input, None);
        let mut parser = Parser::new_from(lexer);
        let expected = parser.parse_module().expect("Failed to parse module");
        let mut module = expected.clone();
        let mut visitor = Scoped { inner: UseExtractedVisitor::new(mode) };
        module.visit_mut_with(&mut visitor);
        assert_eq!(module, expected);
        assert!(visitor.inner.found_messages.is_empty());
    }
}
