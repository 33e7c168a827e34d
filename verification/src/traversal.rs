//! Extraction for hosts that do not resolve identifiers: translators are
//! told apart by name alone, in a chain of lexical scopes that the host
//! opens and closes as it walks blocks and function bodies.

use crate::ast::{
    args_model, opt_text, plain_str, specifiers_model, ArgModel, CallExpr, CallModel, Callee,
    CalleeModel, Expr, ExprModel, ImportDecl, ImportDeclModel, ImportSpecifier,
    ImportSpecifierModel, Init, InitModel, ModuleExportName, Pat, PatModel,
    StrLit, VarDeclarator, VarDeclaratorModel,
};
use crate::ast::copy_opt_text;
use crate::imports::imported_name;
use crate::key::{generate_key, key_of};
use crate::literal::same_text;
use crate::message::{found_model, ExtractedMessage, MessageModel};
use crate::scope::{define_in, lookup_in, ScopeError, ScopeModel, ScopeStack};
use crate::visitor::literal_key;
use vstd::prelude::*;

verus! {

/// What a traversal does with the messages it finds.
#[derive(Debug, Clone, Copy, PartialEq, Eq, Structural)]
pub enum TraversalMode {
    /// Collect the messages; leave the module as it is.
    Analyze,
    /// Rewrite the module; collect nothing.
    Transform,
    /// Collect and rewrite.
    Both,
}

/// The kind under which a translator is bound in the scopes.
pub const TRANSLATOR_KIND: &'static str = "translator";

/// The name whose import marks inline messages.
pub const EXTRACTED_HOOK: &'static str = "useExtracted";

/// The name of the hook that takes its place.
pub const TARGET_HOOK: &'static str = "useTranslations";

/// The module that exports both.
pub const HOOK_SOURCE: &'static str = "next-intl";

/// The state of a scope-based traversal of one module.
pub struct UseExtractedVisitor {
    pub mode: TraversalMode,
    /// The local name under which the module imports the hook, once an
    /// import of it was seen.
    pub hook_local_name: Option<String>,
    pub scopes: ScopeStack,
    /// The messages found so far, in source order.
    pub found_messages: Vec<ExtractedMessage>,
    /// The path of the module, as the messages report it.
    pub file_path: Option<String>,
}

/// What a [`UseExtractedVisitor`] holds, as mathematical values.
pub struct UseExtractedModel {
    pub mode: TraversalMode,
    pub hook_local_name: Option<Seq<char>>,
    pub scopes: Seq<ScopeModel>,
    pub found_messages: Seq<MessageModel>,
    pub file_path: Option<Seq<char>>,
}

impl View for UseExtractedVisitor {
    type V = UseExtractedModel;

    open spec fn view(&self) -> UseExtractedModel {
        UseExtractedModel {
            mode: self.mode,
            hook_local_name: opt_text(self.hook_local_name),
            scopes: self.scopes@,
            found_messages: found_model(self.found_messages@),
            file_path: opt_text(self.file_path),
        }
    }
}

/// Whether the mode rewrites.
pub open spec fn transforms(mode: TraversalMode) -> bool {
    mode == TraversalMode::Transform || mode == TraversalMode::Both
}

/// Whether the mode collects.
pub open spec fn collects(mode: TraversalMode) -> bool {
    mode == TraversalMode::Analyze || mode == TraversalMode::Both
}

/// The local name of a specifier that imports the hook to extract from:
/// a named specifier whose imported name, or whose local name where no
/// imported name is written, is that of the hook.
pub open spec fn sentinel_local(s: ImportSpecifierModel) -> Option<Seq<char>> {
    match s {
        ImportSpecifierModel::Named { local, imported } => if imported_name(s) == Some(
            EXTRACTED_HOOK@,
        ) {
            Some(local.0)
        } else {
            None
        },
        _ => None,
    }
}

/// The local name of the hook after the specifiers of an import from its
/// module were seen: that of the last specifier that imports it, else
/// what it was.
pub open spec fn hook_name_with(name: Option<Seq<char>>, specs: Seq<ImportSpecifierModel>) -> Option<
    Seq<char>,
>
    decreases specs.len(),
{
    if specs.len() == 0 {
        name
    } else {
        match sentinel_local(specs.last()) {
            Some(l) => Some(l),
            None => hook_name_with(name, specs.drop_last()),
        }
    }
}

/// A specifier of an import from the module of the hook, rewritten: one
/// that imports the hook to extract from imports the hook that takes its
/// place, under that hook's own name.
pub open spec fn plain_specifier_after(s: ImportSpecifierModel) -> ImportSpecifierModel {
    match s {
        ImportSpecifierModel::Named { local, imported } => if sentinel_local(s) is Some {
            ImportSpecifierModel::Named { local: (TARGET_HOOK@, local.1), imported: None }
        } else {
            s
        },
        _ => s,
    }
}

/// An import declaration after the visitor was at it.
pub open spec fn plain_import_after(mode: TraversalMode, d: ImportDeclModel) -> ImportDeclModel {
    if d.src == HOOK_SOURCE@ && transforms(mode) {
        ImportDeclModel {
            src: d.src,
            specifiers: d.specifiers.map_values(|s: ImportSpecifierModel| plain_specifier_after(s)),
        }
    } else {
        d
    }
}

/// The local name of the hook after the visitor was at an import
/// declaration.
pub open spec fn hook_name_after(name: Option<Seq<char>>, d: ImportDeclModel) -> Option<Seq<char>> {
    if d.src == HOOK_SOURCE@ {
        hook_name_with(name, d.specifiers)
    } else {
        name
    }
}

/// The name that a declarator binds to a translator: it declares one
/// identifier and its initialiser calls the hook by the local name under
/// which an import of it was seen. Where no import of the hook was seen,
/// no declarator binds a translator.
pub open spec fn translator_declared(name: Option<Seq<char>>, d: VarDeclaratorModel) -> Option<
    Seq<char>,
> {
    match (name, d.name, d.init) {
        (Some(hook), PatModel::Ident(n), Some(InitModel::Call(c))) => match c.callee {
            CalleeModel::Ident(f) => if f.0 == hook {
                Some(n.0)
            } else {
                None
            },
            _ => None,
        },
        _ => None,
    }
}

/// A declarator, rewritten: where it binds a translator, the call of the
/// hook calls the hook that takes its place.
pub open spec fn plain_declarator_after(
    name: Option<Seq<char>>,
    d: VarDeclaratorModel,
) -> VarDeclaratorModel {
    match (translator_declared(name, d), d.init) {
        (Some(_), Some(InitModel::Call(c))) => match c.callee {
            CalleeModel::Ident(f) => VarDeclaratorModel {
                name: d.name,
                init: Some(
                    InitModel::Call(CallModel { callee: CalleeModel::Ident((TARGET_HOOK@, f.1)), ..c }),
                ),
            },
            _ => d,
        },
        _ => d,
    }
}

/// The models of a list of declarators.
pub open spec fn declarators_model(decls: Seq<VarDeclarator>) -> Seq<VarDeclaratorModel> {
    decls.map_values(|d: VarDeclarator| d@)
}

/// The scopes after the declarators of a declaration were seen: each name
/// that is bound to a translator is defined as one in the innermost
/// scope.
pub open spec fn scopes_with_declarators(
    scopes: Seq<ScopeModel>,
    name: Option<Seq<char>>,
    decls: Seq<VarDeclaratorModel>,
) -> Seq<ScopeModel>
    decreases decls.len(),
{
    if decls.len() == 0 {
        scopes
    } else {
        let before = scopes_with_declarators(scopes, name, decls.drop_last());
        match translator_declared(name, decls.last()) {
            Some(n) => define_in(before, n, TRANSLATOR_KIND@),
            None => before,
        }
    }
}

/// The message of a call, where the call is one through a translator with
/// a string literal in first place.
pub open spec fn plain_message(scopes: Seq<ScopeModel>, call: CallModel) -> Option<Seq<char>> {
    match call.callee {
        CalleeModel::Ident(f) => if lookup_in(scopes, f.0) == Some(TRANSLATOR_KIND@) {
            literal_key(call.args)
        } else {
            None
        },
        _ => None,
    }
}

/// A call after the visitor was at it: where it has a message and the
/// mode rewrites, the key of the message takes the place of the message,
/// as a plain string literal.
pub open spec fn plain_call_after(v: UseExtractedModel, call: CallModel) -> CallModel {
    match plain_message(v.scopes, call) {
        Some(m) => if transforms(v.mode) {
            CallModel {
                args: call.args.update(
                    0,
                    ArgModel { spread: call.args[0].spread, expr: ExprModel::Str(plain_str(key_of(m))) },
                ),
                ..call
            }
        } else {
            call
        },
        None => call,
    }
}

/// The messages after the visitor was at a call: where the call has a
/// message and the mode collects, the message is added under its key,
/// with the path of the module and no position.
pub open spec fn found_after(v: UseExtractedModel, call: CallModel) -> Seq<MessageModel> {
    match plain_message(v.scopes, call) {
        Some(m) => if collects(v.mode) {
            v.found_messages.push(
                MessageModel {
                    id: key_of(m),
                    message: m,
                    description: None,
                    file_path: v.file_path,
                    line: None,
                    column: None,
                },
            )
        } else {
            v.found_messages
        },
        None => v.found_messages,
    }
}

/// Reads the local name of a specifier that imports the hook to extract
/// from.
pub fn read_sentinel_local(s: &ImportSpecifier) -> (r: Option<String>)
    ensures
        opt_text(r) == sentinel_local(s@),
{
    match s {
        ImportSpecifier::Named { local, imported } => {
            let name: &String = match imported {
                Some(ModuleExportName::Ident(n)) => n,
                Some(ModuleExportName::Str(n)) => n,
                None => &local.sym,
            };
            if same_text(name.as_str(), EXTRACTED_HOOK) {
                Some(local.sym.clone())
            } else {
                None
            }
        },
        _ => None,
    }
}

impl UseExtractedVisitor {
    /// A visitor with one scope open, no import seen and nothing found.
    pub fn new(mode: TraversalMode) -> (v: Self)
        ensures
            v@ == (UseExtractedModel {
                mode,
                hook_local_name: None,
                scopes: seq![Map::<Seq<char>, Seq<char>>::empty()],
                found_messages: Seq::empty(),
                file_path: None,
            }),
    {
        let v = UseExtractedVisitor {
            mode,
            hook_local_name: None,
            scopes: ScopeStack::new(),
            found_messages: Vec::new(),
            file_path: None,
        };
        assert(v@.found_messages =~= Seq::empty());
        v
    }

    /// Whether the visitor rewrites.
    pub fn should_transform(&self) -> (r: bool)
        ensures
            r == transforms(self@.mode),
    {
        match self.mode {
            TraversalMode::Transform => true,
            TraversalMode::Both => true,
            TraversalMode::Analyze => false,
        }
    }

    /// Whether the visitor collects.
    pub fn should_collect(&self) -> (r: bool)
        ensures
            r == collects(self@.mode),
    {
        match self.mode {
            TraversalMode::Analyze => true,
            TraversalMode::Both => true,
            TraversalMode::Transform => false,
        }
    }

    /// Visits an import declaration. In an import from the module of the
    /// hook, the local name of the hook is noted, and rewritten where the
    /// mode rewrites.
    pub fn visit_mut_import_decl(&mut self, import: &mut ImportDecl)
        ensures
            final(import)@ == plain_import_after(old(self)@.mode, old(import)@),
            final(self)@ == (UseExtractedModel {
                hook_local_name: hook_name_after(old(self)@.hook_local_name, old(import)@),
                ..old(self)@
            }),
    {
        if !same_text(import.src.as_str(), HOOK_SOURCE) {
            return ;
        }
        let transform = self.should_transform();
        let ghost before = specifiers_model(import.specifiers@);
        let ghost name0 = opt_text(self.hook_local_name);
        let ghost v0 = self@;
        let mut i: usize = 0;
        while i < import.specifiers.len()
            invariant
                i <= import.specifiers@.len(),
                import.specifiers@.len() == before.len(),
                import.src == old(import).src,
                transform == transforms(v0.mode),
                forall|j: int|
                    0 <= j < i ==> (#[trigger] import.specifiers@[j])@ == (if transform {
                        plain_specifier_after(before[j])
                    } else {
                        before[j]
                    }),
                forall|j: int|
                    i <= j < before.len() ==> (#[trigger] import.specifiers@[j])@ == before[j],
                self@ == (UseExtractedModel {
                    hook_local_name: hook_name_with(name0, before.take(i as int)),
                    ..v0
                }),
            decreases before.len() - i,
        {
            assert(before.take(i + 1).drop_last() =~= before.take(i as int));
            assert(before.take(i + 1).last() == before[i as int]);
            match read_sentinel_local(&import.specifiers[i]) {
                Some(local_name) => {
                    self.hook_local_name = Some(local_name);
                    if transform {
                        match &mut import.specifiers[i] {
                            ImportSpecifier::Named { local, imported } => {
                                local.sym = String::from_str(TARGET_HOOK);
                                *imported = None;
                            },
                            _ => {},
                        }
                    }
                },
                None => {},
            }
            i = i + 1;
        }
        assert(before.take(i as int) =~= before);
        if transform {
            assert(specifiers_model(import.specifiers@) =~= before.map_values(
                |s: ImportSpecifierModel| plain_specifier_after(s),
            ));
        } else {
            assert(specifiers_model(import.specifiers@) =~= before);
        }
    }

    /// Visits the declarators of one declaration. A name whose initialiser
    /// calls the hook, by the local name under which an import of it was
    /// seen, becomes a translator in the innermost scope, and the call is
    /// rewritten where the mode rewrites. Before an import of the hook was
    /// seen, no declarator is touched.
    pub fn visit_mut_var_decl(&mut self, decls: &mut Vec<VarDeclarator>)
        ensures
            declarators_model(final(decls)@) == declarators_model(old(decls)@).map_values(
                |d: VarDeclaratorModel|
                    if transforms(old(self)@.mode) {
                        plain_declarator_after(old(self)@.hook_local_name, d)
                    } else {
                        d
                    },
            ),
            final(self)@ == (UseExtractedModel {
                scopes: scopes_with_declarators(
                    old(self)@.scopes,
                    old(self)@.hook_local_name,
                    declarators_model(old(decls)@),
                ),
                ..old(self)@
            }),
    {
        let transform = self.should_transform();
        let ghost before = declarators_model(decls@);
        let ghost v0 = self@;
        let mut i: usize = 0;
        while i < decls.len()
            invariant
                i <= decls@.len(),
                decls@.len() == before.len(),
                transform == transforms(v0.mode),
                forall|j: int|
                    0 <= j < i ==> (#[trigger] decls@[j])@ == (if transform {
                        plain_declarator_after(v0.hook_local_name, before[j])
                    } else {
                        before[j]
                    }),
                forall|j: int| i <= j < before.len() ==> (#[trigger] decls@[j])@ == before[j],
                self@ == (UseExtractedModel {
                    scopes: scopes_with_declarators(
                        v0.scopes,
                        v0.hook_local_name,
                        before.take(i as int),
                    ),
                    ..v0
                }),
            decreases before.len() - i,
        {
            assert(before.take(i + 1).drop_last() =~= before.take(i as int));
            assert(before.take(i + 1).last() == before[i as int]);
            let decl = &mut decls[i];
            match (&decl.name, &mut decl.init) {
                (Pat::Ident(n), Some(Init::Call(c))) => {
                    match &mut c.callee {
                        Callee::Ident(f) => {
                            let matches_hook = match &self.hook_local_name {
                                Some(hook) => same_text(f.sym.as_str(), hook.as_str()),
                                None => false,
                            };
                            if matches_hook {
                                self.scopes.define(n.sym.as_str(), TRANSLATOR_KIND);
                                if transform {
                                    f.sym = String::from_str(TARGET_HOOK);
                                }
                            }
                        },
                        _ => {},
                    }
                },
                _ => {},
            }
            i = i + 1;
        }
        assert(before.take(i as int) =~= before);
        assert(declarators_model(decls@) =~= before.map_values(
            |d: VarDeclaratorModel|
                if transforms(v0.mode) {
                    plain_declarator_after(v0.hook_local_name, d)
                } else {
                    d
                },
        ));
    }

    /// The message of a call through a translator.
    pub fn read_plain_message(&self, call: &CallExpr) -> (r: Option<String>)
        ensures
            opt_text(r) == plain_message(self@.scopes, call@),
    {
        match &call.callee {
            Callee::Ident(f) => {
                let is_translator = match self.scopes.lookup(f.sym.as_str()) {
                    Some(kind) => same_text(kind, TRANSLATOR_KIND),
                    None => false,
                };
                if is_translator {
                    crate::visitor::read_literal_key(&call.args)
                } else {
                    None
                }
            },
            _ => None,
        }
    }

    /// Visits a call. The message of a call through a translator is
    /// collected under its key where the mode collects, and replaced by
    /// its key where the mode rewrites.
    pub fn visit_mut_call_expr(&mut self, call: &mut CallExpr)
        ensures
            final(call)@ == plain_call_after(old(self)@, old(call)@),
            final(self)@ == (UseExtractedModel {
                found_messages: found_after(old(self)@, old(call)@),
                ..old(self)@
            }),
    {
        match self.read_plain_message(call) {
            Some(message) => {
                let ghost found = found_model(self.found_messages@);
                if self.should_collect() {
                    let id = generate_key(message.as_str());
                    self.found_messages.push(
                        ExtractedMessage {
                            id,
                            message: message.clone(),
                            description: None,
                            file_path: copy_opt_text(&self.file_path),
                            line: None,
                            column: None,
                        },
                    );
                    assert(found_model(self.found_messages@) =~= found_after(old(self)@, old(call)@));
                }
                if self.should_transform() {
                    let key = generate_key(message.as_str());
                    let ghost args = args_model(call.args@);
                    assert(args[0] == call.args@[0]@);
                    let spread = call.args[0].spread;
                    call.args.set(0, crate::ast::Arg { spread, expr: Expr::Str(StrLit::plain(key)) });
                    assert(args_model(call.args@) =~= args.update(
                        0,
                        ArgModel { spread: args[0].spread, expr: ExprModel::Str(plain_str(key_of(message@))) },
                    ));
                }
            },
            None => {},
        }
    }

    /// Opens a scope: the host enters a block, a function body or the body
    /// of an arrow function.
    pub fn enter_scope(&mut self)
        ensures
            final(self)@ == (UseExtractedModel {
                scopes: old(self)@.scopes.push(Map::<Seq<char>, Seq<char>>::empty()),
                ..old(self)@
            }),
    {
        self.scopes.push_scope();
    }

    /// Closes the innermost scope: the host leaves what it entered.
    /// Refused with `OutOfScope`, and nothing changed, where no scope is
    /// open.
    pub fn leave_scope(&mut self) -> (r: Result<(), ScopeError>)
        ensures
            r is Ok <==> old(self)@.scopes.len() > 0,
            r is Ok ==> final(self)@ == (UseExtractedModel {
                scopes: old(self)@.scopes.drop_last(),
                ..old(self)@
            }),
            r is Err ==> r == Err::<(), ScopeError>(ScopeError::OutOfScope) && final(self)@ == old(
                self,
            )@,
    {
        self.scopes.pop_scope()
    }
}

} // verus!
