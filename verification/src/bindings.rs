//! The two tables of a traversal: which local names are hooks, and which
//! are translators. Both are keyed by name and context tag, so bindings of
//! one name in different scopes stay apart.

use crate::ast::{copy_opt_text, opt_text, Id};
use crate::hook::{HookKind, MessageKind};
use rustc_hash::FxBuildHasher;
use std::collections::HashMap;
use vstd::prelude::*;

verus! {

#[verifier::external_type_specification]
#[verifier::external_body]
pub struct ExFxBuildHasher(FxBuildHasher);

/// What is known of a local name that is bound to a hook.
#[derive(Debug, Clone, Copy, PartialEq, Eq, Structural)]
pub struct HookBinding {
    pub kind: HookKind,
    /// What calls through a translator made by this hook contribute.
    pub yields: MessageKind,
}

/// What is known of a local name that is bound to a translator.
#[derive(Debug, Clone, PartialEq, Eq)]
pub struct TranslatorInfo {
    /// The namespace that the translator was made with, if any.
    pub namespace: Option<String>,
    /// What calls through this translator contribute.
    pub yields: MessageKind,
}

/// What a [`TranslatorInfo`] holds, as mathematical values.
pub struct TranslatorModel {
    pub namespace: Option<Seq<char>>,
    pub yields: MessageKind,
}

impl View for TranslatorInfo {
    type V = TranslatorModel;

    open spec fn view(&self) -> TranslatorModel {
        TranslatorModel { namespace: opt_text(self.namespace), yields: self.yields }
    }
}

/// What a table binds a name to. The table of hooks holds hooks only, the
/// table of translators holds translators only; one type of entry lets both
/// be tables of one kind.
#[derive(Debug, Clone, PartialEq, Eq)]
pub enum Bound {
    Hook(HookBinding),
    Translator(TranslatorInfo),
}

/// What a [`Bound`] holds, as mathematical values.
pub enum BoundModel {
    Hook(HookBinding),
    Translator(TranslatorModel),
}

impl View for Bound {
    type V = BoundModel;

    open spec fn view(&self) -> BoundModel {
        match self {
            Bound::Hook(b) => BoundModel::Hook(*b),
            Bound::Translator(t) => BoundModel::Translator(t@),
        }
    }
}

/// A table of bindings.
pub type BindingMap = HashMap<(String, u32), Bound, FxBuildHasher>;

/// The entries of a table of bindings.
pub uninterp spec fn bound_entries(m: BindingMap) -> Map<Id, BoundModel>;

/// The table without entries.
pub open spec fn no_bindings() -> Map<Id, BoundModel> {
    Map::empty()
}

/// Makes an empty `rustc_hash::FxHashMap` with `default`. Trusted: it has
/// no entries.
#[verifier::external_body]
fn bindings_new() -> (m: BindingMap)
    ensures
        bound_entries(m) == no_bindings(),
{
    HashMap::default()
}

/// Calls `insert` on a `rustc_hash::FxHashMap`. Trusted: the key is bound
/// to the value afterwards, in place of what it was bound to before, and
/// every other entry stays.
#[verifier::external_body]
fn bindings_insert(m: &mut BindingMap, name: String, ctxt: u32, bound: Bound)
    ensures
        bound_entries(*final(m)) == bound_entries(*old(m)).insert((name@, ctxt), bound@),
{
    m.insert((name, ctxt), bound);
}

/// Calls `get` on a `rustc_hash::FxHashMap`. Trusted: the result is the
/// value that the key is bound to, and none where it is bound to nothing.
#[verifier::external_body]
fn bindings_get<'a>(m: &'a BindingMap, name: &String, ctxt: u32) -> (r: Option<&'a Bound>)
    ensures
        match r {
            Some(bound) => bound_entries(*m).contains_key((name@, ctxt)) && bound@ == bound_entries(
                *m,
            )[(name@, ctxt)],
            None => !bound_entries(*m).contains_key((name@, ctxt)),
        },
{
    m.get(&(name.clone(), ctxt))
}

/// The hooks that a table binds.
pub open spec fn hook_entries(m: BindingMap) -> Map<Id, HookBinding> {
    Map::new(
        |id: Id| bound_entries(m).contains_key(id) && bound_entries(m)[id] is Hook,
        |id: Id| bound_entries(m)[id]->Hook_0,
    )
}

/// The translators that a table binds.
pub open spec fn translator_entries(m: BindingMap) -> Map<Id, TranslatorModel> {
    Map::new(
        |id: Id| bound_entries(m).contains_key(id) && bound_entries(m)[id] is Translator,
        |id: Id| bound_entries(m)[id]->Translator_0,
    )
}

/// The table of hook bindings without entries.
pub open spec fn no_hooks() -> Map<Id, HookBinding> {
    Map::empty()
}

/// The table of translator bindings without entries.
pub open spec fn no_translators() -> Map<Id, TranslatorModel> {
    Map::empty()
}

/// An empty table.
pub fn new_bindings() -> (m: BindingMap)
    ensures
        hook_entries(m) == no_hooks(),
        translator_entries(m) == no_translators(),
{
    let m = bindings_new();
    assert(hook_entries(m) =~= no_hooks());
    assert(translator_entries(m) =~= no_translators());
    m
}

/// Binds a name to a hook, in place of what it was bound to before.
pub fn hooks_insert(m: &mut BindingMap, name: String, ctxt: u32, binding: HookBinding)
    ensures
        hook_entries(*final(m)) == hook_entries(*old(m)).insert((name@, ctxt), binding),
{
    bindings_insert(m, name, ctxt, Bound::Hook(binding));
    assert(hook_entries(*m) =~= hook_entries(*old(m)).insert((name@, ctxt), binding));
}

/// The hook that a name is bound to.
pub fn hooks_get(m: &BindingMap, name: &String, ctxt: u32) -> (r: Option<HookBinding>)
    ensures
        r == (if hook_entries(*m).contains_key((name@, ctxt)) {
            Some(hook_entries(*m)[(name@, ctxt)])
        } else {
            None
        }),
{
    match bindings_get(m, name, ctxt) {
        Some(Bound::Hook(b)) => Some(*b),
        _ => None,
    }
}

/// Binds a name to a translator, in place of what it was bound to before.
pub fn translators_insert(m: &mut BindingMap, name: String, ctxt: u32, info: TranslatorInfo)
    ensures
        translator_entries(*final(m)) == translator_entries(*old(m)).insert((name@, ctxt), info@),
{
    bindings_insert(m, name, ctxt, Bound::Translator(info));
    assert(translator_entries(*m) =~= translator_entries(*old(m)).insert((name@, ctxt), info@));
}

/// The translator that a name is bound to.
pub fn translators_get(m: &BindingMap, name: &String, ctxt: u32) -> (r: Option<TranslatorInfo>)
    ensures
        match r {
            Some(info) => translator_entries(*m).contains_key((name@, ctxt)) && info@
                == translator_entries(*m)[(name@, ctxt)],
            None => !translator_entries(*m).contains_key((name@, ctxt)),
        },
{
    match bindings_get(m, name, ctxt) {
        Some(Bound::Translator(t)) => Some(
            TranslatorInfo { namespace: copy_opt_text(&t.namespace), yields: t.yields },
        ),
        _ => None,
    }
}

} // verus!
