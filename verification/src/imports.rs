//! The pass over the top level of a module: imports of the hooks are
//! rewritten and their local names bound, the modules named by imports and
//! exports are collected, and the leading directives are noted.

use crate::ast::{
    items_model, specifiers_model, Ident, Id, ImportDecl, ImportDeclModel, ImportSpecifier,
    ImportSpecifierModel, Module, ModuleExportName, ModuleExportNameModel, ModuleItem,
    ModuleItemModel,
};
use crate::bindings::{hook_entries, hooks_insert, BindingMap, HookBinding};
use crate::hook::{hook_of_source, HookKind, MessageKind};
use crate::literal::same_text;
use crate::visitor::{texts, TransformModel, TransformVisitor};
use vstd::prelude::*;

verus! {

/// The name that a named specifier imports: the imported name where one
/// is written, as an identifier or as a string, else the local name. Other
/// specifiers import no name.
pub open spec fn imported_name(s: ImportSpecifierModel) -> Option<Seq<char>> {
    match s {
        ImportSpecifierModel::Named { local, imported } => Some(
            match imported {
                Some(ModuleExportNameModel::Ident(n)) => n,
                Some(ModuleExportNameModel::Str(n)) => n,
                None => local.0,
            },
        ),
        _ => None,
    }
}

/// Whether `s` imports the name to extract from of `kind`.
pub open spec fn imports_extracted(s: ImportSpecifierModel, kind: HookKind) -> bool {
    imported_name(s) == Some(kind.spec_extracted_name())
}

/// Whether `s` imports the hook of `kind` itself, under a local name that
/// an author wrote.
pub open spec fn imports_target(s: ImportSpecifierModel, kind: HookKind) -> bool {
    match s {
        ImportSpecifierModel::Named { local, imported } => imported_name(s) == Some(
            kind.spec_target_name(),
        ) && local.0 != kind.spec_local_name(),
        _ => false,
    }
}

/// The local identifier of a named specifier.
pub open spec fn local_of(s: ImportSpecifierModel) -> Id {
    match s {
        ImportSpecifierModel::Named { local, imported } => local,
        ImportSpecifierModel::Default { local } => local,
        ImportSpecifierModel::Namespace { local } => local,
    }
}

/// A specifier of an import from the module of `kind`, rewritten: one that
/// imports the name to extract from imports the hook itself instead, under
/// the reserved local name and in the context of the old local name; any
/// other stays as it is.
pub open spec fn specifier_after(s: ImportSpecifierModel, kind: HookKind) -> ImportSpecifierModel {
    if imports_extracted(s, kind) {
        ImportSpecifierModel::Named {
            local: (kind.spec_local_name(), local_of(s).1),
            imported: Some(ModuleExportNameModel::Ident(kind.spec_target_name())),
        }
    } else {
        s
    }
}

/// The hook bindings with that of the specifier `s` of an import from the
/// module of `kind`: its local name, as the author wrote it, is bound where
/// it imports the name to extract from or the hook itself.
pub open spec fn hooks_with_specifier(
    hooks: Map<Id, HookBinding>,
    s: ImportSpecifierModel,
    kind: HookKind,
) -> Map<Id, HookBinding> {
    if imports_extracted(s, kind) {
        hooks.insert(local_of(s), HookBinding { kind, yields: MessageKind::Extracted })
    } else if imports_target(s, kind) {
        hooks.insert(local_of(s), HookBinding { kind, yields: MessageKind::Translations })
    } else {
        hooks
    }
}

/// The hook bindings with those of the specifiers of an import from the
/// module of `kind`, the later replacing the earlier.
pub open spec fn hooks_with_specifiers(
    hooks: Map<Id, HookBinding>,
    specs: Seq<ImportSpecifierModel>,
    kind: HookKind,
) -> Map<Id, HookBinding>
    decreases specs.len(),
{
    if specs.len() == 0 {
        hooks
    } else {
        hooks_with_specifier(
            hooks_with_specifiers(hooks, specs.drop_last(), kind),
            specs.last(),
            kind,
        )
    }
}

/// An import declaration, rewritten: the specifiers of an import from one
/// of the two modules of the hooks are rewritten; any other import stays
/// as it is.
pub open spec fn import_after(d: ImportDeclModel) -> ImportDeclModel {
    match hook_of_source(d.src) {
        Some(kind) => ImportDeclModel {
            src: d.src,
            specifiers: d.specifiers.map_values(|s: ImportSpecifierModel| specifier_after(s, kind)),
        },
        None => d,
    }
}

/// The hook bindings with those of an import declaration.
pub open spec fn hooks_with_import(hooks: Map<Id, HookBinding>, d: ImportDeclModel) -> Map<
    Id,
    HookBinding,
> {
    match hook_of_source(d.src) {
        Some(kind) => hooks_with_specifiers(hooks, d.specifiers, kind),
        None => hooks,
    }
}

/// Finds the hook whose module is `src`.
pub fn hook_for_source(src: &String) -> (r: Option<HookKind>)
    ensures
        r == hook_of_source(src@),
{
    if same_text(src.as_str(), "next-intl") {
        Some(HookKind::UseTranslation)
    } else if same_text(src.as_str(), "next-intl/server") {
        Some(HookKind::GetTranslation)
    } else {
        None
    }
}

/// What a specifier imports, as far as the hooks are concerned.
#[derive(Debug, Clone, Copy, PartialEq, Eq, Structural)]
pub enum Imported {
    /// The name to extract from.
    Extracted,
    /// The hook itself, under a local name that an author wrote.
    Target,
    /// Anything else.
    Unrelated,
}

/// What the specifier `s` of an import from the module of `kind` imports.
pub open spec fn imported_of(s: ImportSpecifierModel, kind: HookKind) -> Imported {
    if imports_extracted(s, kind) {
        Imported::Extracted
    } else if imports_target(s, kind) {
        Imported::Target
    } else {
        Imported::Unrelated
    }
}

/// Tells what a specifier of an import from the module of `kind` imports.
pub fn classify_specifier(s: &ImportSpecifier, kind: HookKind) -> (r: Imported)
    ensures
        r == imported_of(s@, kind),
{
    match s {
        ImportSpecifier::Named { local, imported } => {
            let name: &String = match imported {
                Some(ModuleExportName::Ident(n)) => n,
                Some(ModuleExportName::Str(n)) => n,
                None => &local.sym,
            };
            if same_text(name.as_str(), kind.extracted_name()) {
                Imported::Extracted
            } else if same_text(name.as_str(), kind.target_name()) && !same_text(
                local.sym.as_str(),
                kind.local_name(),
            ) {
                Imported::Target
            } else {
                Imported::Unrelated
            }
        },
        _ => Imported::Unrelated,
    }
}

/// Rewrites the specifiers of an import from the module of `kind` and
/// binds their local names.
pub fn rewrite_specifiers(hooks: &mut BindingMap, specs: &mut Vec<ImportSpecifier>, kind: HookKind)
    ensures
        specifiers_model(final(specs)@) == specifiers_model(old(specs)@).map_values(
            |s: ImportSpecifierModel| specifier_after(s, kind),
        ),
        hook_entries(*final(hooks)) == hooks_with_specifiers(
            hook_entries(*old(hooks)),
            specifiers_model(old(specs)@),
            kind,
        ),
{
    let ghost before = specifiers_model(specs@);
    let ghost h0 = hook_entries(*hooks);
    let mut i: usize = 0;
    while i < specs.len()
        invariant
            i <= specs@.len(),
            specs@.len() == before.len(),
            forall|j: int| 0 <= j < i ==> (#[trigger] specs@[j])@ == specifier_after(before[j], kind),
            forall|j: int| i <= j < specs@.len() ==> (#[trigger] specs@[j])@ == before[j],
            hook_entries(*hooks) == hooks_with_specifiers(h0, before.take(i as int), kind),
        decreases specs@.len() - i,
    {
        assert(before.take(i + 1).drop_last() =~= before.take(i as int));
        assert(before.take(i + 1).last() == before[i as int]);
        let what = classify_specifier(&specs[i], kind);
        match what {
            Imported::Unrelated => {},
            Imported::Target => {
                match &specs[i] {
                    ImportSpecifier::Named { local, imported } => {
                        hooks_insert(
                            hooks,
                            local.sym.clone(),
                            local.ctxt,
                            HookBinding { kind, yields: MessageKind::Translations },
                        );
                    },
                    _ => {},
                }
            },
            Imported::Extracted => {
                match &mut specs[i] {
                    ImportSpecifier::Named { local, imported } => {
                        hooks_insert(
                            hooks,
                            local.sym.clone(),
                            local.ctxt,
                            HookBinding { kind, yields: MessageKind::Extracted },
                        );
                        *imported = Some(
                            ModuleExportName::Ident(String::from_str(kind.target_name())),
                        );
                        local.sym = String::from_str(kind.local_name());
                    },
                    _ => {},
                }
            },
        }
        i = i + 1;
    }
    assert(before.take(i as int) =~= before);
    assert(specifiers_model(specs@) =~= before.map_values(
        |s: ImportSpecifierModel| specifier_after(s, kind),
    ));
}

/// An item of a module body, rewritten: an import declaration is
/// rewritten, any other item stays as it is.
pub open spec fn item_after(item: ModuleItemModel) -> ModuleItemModel {
    match item {
        ModuleItemModel::Import(d) => ModuleItemModel::Import(import_after(d)),
        _ => item,
    }
}

/// The hook bindings with those of one item of a module body.
pub open spec fn hooks_with_item(hooks: Map<Id, HookBinding>, item: ModuleItemModel) -> Map<
    Id,
    HookBinding,
> {
    match item {
        ModuleItemModel::Import(d) => hooks_with_import(hooks, d),
        _ => hooks,
    }
}

/// The hook bindings with those of the items of a module body, the later
/// replacing the earlier.
pub open spec fn hooks_with_items(hooks: Map<Id, HookBinding>, items: Seq<ModuleItemModel>) -> Map<
    Id,
    HookBinding,
>
    decreases items.len(),
{
    if items.len() == 0 {
        hooks
    } else {
        hooks_with_item(hooks_with_items(hooks, items.drop_last()), items.last())
    }
}

/// The module that an import or export declaration names.
pub open spec fn item_dependency(item: ModuleItemModel) -> Option<Seq<char>> {
    match item {
        ModuleItemModel::Import(d) => Some(d.src),
        ModuleItemModel::ExportFrom(src) => Some(src),
        _ => None,
    }
}

/// The dependencies with the modules that the items of a module body
/// name, in their order and with repetitions.
pub open spec fn dependencies_with_items(deps: Seq<Seq<char>>, items: Seq<ModuleItemModel>) -> Seq<
    Seq<char>,
>
    decreases items.len(),
{
    if items.len() == 0 {
        deps
    } else {
        let before = dependencies_with_items(deps, items.drop_last());
        match item_dependency(items.last()) {
            Some(d) => before.push(d),
            None => before,
        }
    }
}

/// Whether the item at `i` and every item before it is a statement that
/// consists of a string literal.
pub open spec fn in_prologue(items: Seq<ModuleItemModel>, i: int) -> bool {
    forall|j: int| 0 <= j <= i ==> #[trigger] items[j] is StrStmt
}

/// Whether the string literal `text` is one of the statements that lead
/// the module body.
pub open spec fn has_directive(items: Seq<ModuleItemModel>, text: Seq<char>) -> bool {
    exists|i: int|
        0 <= i < items.len() && in_prologue(items, i) && #[trigger] items[i]
            == ModuleItemModel::StrStmt(text)
}

/// Tells whether the string literal `text` is one of the statements that
/// lead the module body.
pub fn find_directive(items: &Vec<ModuleItem>, text: &str) -> (r: bool)
    ensures
        r == has_directive(items_model(items@), text@),
{
    let ghost all = items_model(items@);
    let mut i: usize = 0;
    while i < items.len()
        invariant
            i <= items@.len(),
            all == items_model(items@),
            forall|j: int| 0 <= j < i ==> #[trigger] all[j] is StrStmt,
            forall|j: int| 0 <= j < i ==> #[trigger] all[j] != ModuleItemModel::StrStmt(text@),
        decreases items@.len() - i,
    {
        assert(all[i as int] == items@[i as int]@);
        match &items[i] {
            ModuleItem::StrStmt(s) => {
                if same_text(s.as_str(), text) {
                    assert(in_prologue(all, i as int));
                    return true;
                }
            },
            _ => {
                assert forall|k: int|
                    0 <= k < all.len() && in_prologue(all, k) implies #[trigger] all[k]
                    != ModuleItemModel::StrStmt(text@) by {
                    if k >= i {
                        assert(all[i as int] is StrStmt);
                    }
                }
                return false;
            },
        }
        i = i + 1;
    }
    false
}

impl TransformVisitor {
    /// Visits an import declaration: rewrites it, and binds the local
    /// names under which it imports a hook.
    pub fn visit_mut_import_decl(&mut self, import: &mut ImportDecl)
        ensures
            final(import)@ == import_after(old(import)@),
            final(self)@ == (TransformModel {
                hooks: hooks_with_import(old(self)@.hooks, old(import)@),
                ..old(self)@
            }),
    {
        match hook_for_source(&import.src) {
            Some(kind) => {
                rewrite_specifiers(&mut self.hook_local_names, &mut import.specifiers, kind);
            },
            None => {},
        }
    }

    /// Visits the top level of a module, before anything inside it:
    /// rewrites the imports of the hooks and binds their local names,
    /// collects the modules that imports and exports name, and notes the
    /// directives `"use client"` and `"use server"` among the leading
    /// statements.
    pub fn visit_mut_module(&mut self, module: &mut Module)
        ensures
            final(module)@ == old(module)@.map_values(|i: ModuleItemModel| item_after(i)),
            final(self)@ == (TransformModel {
                hooks: hooks_with_items(old(self)@.hooks, old(module)@),
                dependencies: dependencies_with_items(old(self)@.dependencies, old(module)@),
                has_use_client: old(self)@.has_use_client || has_directive(
                    old(module)@,
                    "use client"@,
                ),
                has_use_server: old(self)@.has_use_server || has_directive(
                    old(module)@,
                    "use server"@,
                ),
                ..old(self)@
            }),
    {
        let ghost before = module@;
        let ghost v0 = self@;
        if find_directive(&module.body, "use client") {
            self.has_use_client = true;
        }
        if find_directive(&module.body, "use server") {
            self.has_use_server = true;
        }
        let mut i: usize = 0;
        while i < module.body.len()
            invariant
                i <= module.body@.len(),
                module.body@.len() == before.len(),
                forall|j: int| 0 <= j < i ==> (#[trigger] module.body@[j])@ == item_after(before[j]),
                forall|j: int| i <= j < before.len() ==> (#[trigger] module.body@[j])@ == before[j],
                self@ == (TransformModel {
                    hooks: hooks_with_items(v0.hooks, before.take(i as int)),
                    dependencies: dependencies_with_items(v0.dependencies, before.take(i as int)),
                    has_use_client: v0.has_use_client || has_directive(before, "use client"@),
                    has_use_server: v0.has_use_server || has_directive(before, "use server"@),
                    ..v0
                }),
            decreases before.len() - i,
        {
            assert(before.take(i + 1).drop_last() =~= before.take(i as int));
            assert(before.take(i + 1).last() == before[i as int]);
            let ghost deps = self@.dependencies;
            match &mut module.body[i] {
                ModuleItem::Import(d) => {
                    self.dependencies.push(d.src.clone());
                    assert(texts(self.dependencies@) =~= deps.push(d.src@));
                    self.visit_mut_import_decl(d);
                },
                ModuleItem::ExportFrom(src) => {
                    self.dependencies.push(src.clone());
                    assert(texts(self.dependencies@) =~= deps.push(src@));
                },
                _ => {},
            }
            i = i + 1;
        }
        assert(before.take(i as int) =~= before);
        assert(module@ =~= before.map_values(|i: ModuleItemModel| item_after(i)));
    }
}

} // verus!
