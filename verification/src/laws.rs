//! What holds of the traversal as a whole, proved from the definitions of
//! its steps.

use crate::ast::{
    plain_arg, plain_str, value_as_expr, ArgModel, CallModel, CalleeModel, ExprModel, Id,
    ImportDeclModel, ImportSpecifierModel, ModuleExportNameModel, ModuleItemModel, ValueModel,
    VarDeclaratorModel,
};
use crate::bindings::{HookBinding, TranslatorModel};
use crate::callsite::{
    call_key_of, full_key_of, padded_keeps, reading_of, rewritten_args, with_expr_at,
    with_fallback,
};
use crate::hook::{hook_names_differ, hook_of_source, HookKind, MessageKind};
use crate::imports::{
    hooks_with_import, hooks_with_items, hooks_with_specifier, hooks_with_specifiers,
    import_after, imports_extracted, imports_target, item_after, specifier_after,
};
use crate::output::{
    find_extracted, find_extracted_is_first, has_text, is_extracted_as, merged, with_extracted,
    ExtractedModel, OutputMessageModel,
};
use crate::scope::{define_in, lookup_in, ScopeModel};
use crate::tracker::{declarator_after, translators_with_declarator};
use crate::traversal::{
    collects, found_after, hook_name_after, hook_name_with, plain_call_after,
    plain_declarator_after, plain_import_after, plain_message, plain_specifier_after,
    scopes_with_declarators, sentinel_local, transforms, TraversalMode, UseExtractedModel,
    EXTRACTED_HOOK, HOOK_SOURCE, TARGET_HOOK, TRANSLATOR_KIND,
};
use crate::visitor::{
    call_after, is_has_call, outcome_of, reference_of, results_after, translator_of, CallOutcome,
    TransformModel,
};
use vstd::prelude::*;

verus! {

/// Whether no hook and no translator of `v` extracts: the module imports
/// no name to extract from.
pub open spec fn extracts_nothing(v: TransformModel) -> bool {
    &&& forall|id: Id| #[trigger]
        v.hooks.contains_key(id) ==> v.hooks[id].yields == MessageKind::Translations
    &&& forall|id: Id| #[trigger]
        v.translators.contains_key(id) ==> v.translators[id].yields == MessageKind::Translations
}

/// Whether no specifier of an import declaration imports a name to
/// extract from.
pub open spec fn imports_no_sentinel(d: ImportDeclModel) -> bool {
    match hook_of_source(d.src) {
        Some(kind) => forall|i: int|
            0 <= i < d.specifiers.len() ==> !imports_extracted(#[trigger] d.specifiers[i], kind),
        None => true,
    }
}

/// The number of extracted messages among `ms`.
pub open spec fn extracted_count(ms: Seq<OutputMessageModel>) -> nat
    decreases ms.len(),
{
    if ms.len() == 0 {
        0
    } else {
        extracted_count(ms.drop_last()) + if ms.last() is Extracted {
            1nat
        } else {
            0nat
        }
    }
}

/// An import declaration without a name to extract from stays as it is,
/// and binds no hook that extracts.
pub proof fn import_without_sentinel_is_kept(v: TransformModel, d: ImportDeclModel)
    requires
        extracts_nothing(v),
        imports_no_sentinel(d),
    ensures
        import_after(d) == d,
        extracts_nothing(TransformModel { hooks: hooks_with_import(v.hooks, d), ..v }),
{
    match hook_of_source(d.src) {
        Some(kind) => {
            assert(d.specifiers.map_values(|s: ImportSpecifierModel| specifier_after(s, kind))
                =~= d.specifiers);
            bindings_without_sentinel(v.hooks, d.specifiers, kind);
        },
        None => {},
    }
}

/// Specifiers without a name to extract from bind no hook that extracts.
pub proof fn bindings_without_sentinel(
    hooks: Map<Id, HookBinding>,
    specs: Seq<ImportSpecifierModel>,
    kind: HookKind,
)
    requires
        forall|id: Id| #[trigger] hooks.contains_key(id) ==> hooks[id].yields == MessageKind::Translations,
        forall|i: int| 0 <= i < specs.len() ==> !imports_extracted(#[trigger] specs[i], kind),
    ensures
        forall|id: Id| #[trigger]
            hooks_with_specifiers(hooks, specs, kind).contains_key(id) ==> hooks_with_specifiers(
                hooks,
                specs,
                kind,
            )[id].yields == MessageKind::Translations,
    decreases specs.len(),
{
    if specs.len() > 0 {
        let front = specs.drop_last();
        assert forall|i: int| 0 <= i < front.len() implies !imports_extracted(
            #[trigger] front[i],
            kind,
        ) by {
            assert(front[i] == specs[i]);
        }
        bindings_without_sentinel(hooks, front, kind);
        assert(!imports_extracted(specs[specs.len() - 1], kind));
    }
}

/// Where nothing extracts, a declarator stays as it is and makes no
/// translator that extracts.
pub proof fn declarator_without_sentinel_is_kept(v: TransformModel, d: VarDeclaratorModel)
    requires
        extracts_nothing(v),
    ensures
        declarator_after(v.hooks, d) == d,
        extracts_nothing(
            TransformModel {
                translators: translators_with_declarator(v.hooks, v.translators, d),
                ..v
            },
        ),
{
}

/// Where nothing extracts, a call stays as it is, no diagnostic is due,
/// and no extracted message is recorded.
pub proof fn call_without_sentinel_is_kept(v: TransformModel, call: CallModel)
    requires
        extracts_nothing(v),
    ensures
        call_after(v, call) == call,
        outcome_of(v, call) == CallOutcome::Untouched || outcome_of(v, call)
            == CallOutcome::Referenced,
        extracted_count(results_after(v, call)) == extracted_count(v.results),
{
    let after = results_after(v, call);
    if after != v.results {
        assert(after.drop_last() =~= v.results);
    }
}

/// A call whose callee is bound to no translator stays as it is and
/// records nothing, whatever other names are bound.
pub proof fn call_outside_translators_is_kept(v: TransformModel, call: CallModel)
    requires
        translator_of(v.translators, call.callee) is None,
    ensures
        call_after(v, call) == call,
        results_after(v, call) == v.results,
        outcome_of(v, call) == CallOutcome::Untouched,
{
}

/// Binding a translator under one name and context changes nothing for a
/// callee of another name or another context: a binding of the same name
/// in another scope is not taken for the translator.
pub proof fn binding_is_contained(
    translators: Map<Id, TranslatorModel>,
    bound: Id,
    t: TranslatorModel,
    callee: CalleeModel,
)
    requires
        match callee {
            CalleeModel::Ident(id) => id != bound,
            CalleeModel::Member { obj, prop } => obj != bound,
            _ => true,
        },
    ensures
        translator_of(translators.insert(bound, t), callee) == translator_of(translators, callee),
{
}

/// A name defined in an inner scope is gone when that scope is left: what
/// every name resolves to is what it resolved to before the scope was
/// entered.
pub proof fn inner_scope_is_contained(
    scopes: Seq<ScopeModel>,
    name: Seq<char>,
    kind: Seq<char>,
    other: Seq<char>,
)
    ensures
        lookup_in(
            define_in(scopes.push(Map::<Seq<char>, Seq<char>>::empty()), name, kind).drop_last(),
            other,
        ) == lookup_in(scopes, other),
        lookup_in(define_in(scopes.push(Map::<Seq<char>, Seq<char>>::empty()), name, kind), name)
            == Some(kind),
{
    let inner = scopes.push(Map::<Seq<char>, Seq<char>>::empty());
    let defined = define_in(inner, name, kind);
    assert(inner.drop_last() =~= scopes);
    assert(defined.drop_last() =~= scopes);
    assert(defined.last() == inner.last().insert(name, kind));
}

/// Rewriting an import declaration a second time changes nothing more,
/// and the rewritten declaration imports no name to extract from: a second
/// traversal of a rewritten module extracts nothing.
pub proof fn import_rewrite_is_idempotent(d: ImportDeclModel)
    ensures
        import_after(import_after(d)) == import_after(d),
        imports_no_sentinel(import_after(d)),
{
    match hook_of_source(d.src) {
        Some(kind) => {
            let once = d.specifiers.map_values(|s: ImportSpecifierModel| specifier_after(s, kind));
            assert forall|i: int| 0 <= i < once.len() implies !imports_extracted(
                #[trigger] once[i],
                kind,
            ) by {
                rewritten_specifier_is_settled(d.specifiers[i], kind);
            }
            assert(once.map_values(|s: ImportSpecifierModel| specifier_after(s, kind)) =~= once);
        },
        None => {},
    }
}

/// A rewritten specifier imports no name to extract from, and binds no
/// hook.
pub proof fn rewritten_specifier_is_settled(s: ImportSpecifierModel, kind: HookKind)
    ensures
        !imports_extracted(specifier_after(s, kind), kind),
        specifier_after(specifier_after(s, kind), kind) == specifier_after(s, kind),
        imports_extracted(s, kind) ==> !imports_target(specifier_after(s, kind), kind),
{
    hook_names_differ(kind, kind);
}

/// The items of a module body without a name to extract from stay as
/// they are, and bind no hook that extracts.
pub proof fn module_without_sentinel_is_kept(v: TransformModel, items: Seq<ModuleItemModel>)
    requires
        extracts_nothing(v),
        forall|i: int|
            0 <= i < items.len() ==> match #[trigger] items[i] {
                ModuleItemModel::Import(d) => imports_no_sentinel(d),
                _ => true,
            },
    ensures
        items.map_values(|i: ModuleItemModel| item_after(i)) == items,
        extracts_nothing(TransformModel { hooks: hooks_with_items(v.hooks, items), ..v }),
    decreases items.len(),
{
    assert(items.map_values(|i: ModuleItemModel| item_after(i)) =~= items) by {
        assert forall|i: int| 0 <= i < items.len() implies item_after(#[trigger] items[i])
            == items[i] by {
            match items[i] {
                ModuleItemModel::Import(d) => {
                    import_without_sentinel_is_kept(v, d);
                },
                _ => {},
            }
        }
    }
    if items.len() > 0 {
        let front = items.drop_last();
        assert forall|i: int| 0 <= i < front.len() implies match #[trigger] front[i] {
            ModuleItemModel::Import(d) => imports_no_sentinel(d),
            _ => true,
        } by {
            assert(front[i] == items[i]);
        }
        module_without_sentinel_is_kept(v, front);
        let w = TransformModel { hooks: hooks_with_items(v.hooks, front), ..v };
        match items.last() {
            ModuleItemModel::Import(d) => {
                assert(items[items.len() - 1] == items.last());
                import_without_sentinel_is_kept(w, d);
            },
            _ => {},
        }
    }
}

/// Whether no two extracted messages of `ms` have the same identifier.
pub open spec fn ids_are_distinct(ms: Seq<OutputMessageModel>) -> bool {
    forall|i: int, j: int|
        0 <= i < j < ms.len() && #[trigger] ms[i] is Extracted && #[trigger] ms[j] is Extracted
            ==> ms[i]->Extracted_0.id != ms[j]->Extracted_0.id
}

/// The identifier of an entry.
pub open spec fn id_of(m: OutputMessageModel) -> Seq<char> {
    match m {
        OutputMessageModel::Extracted(e) => e.id,
        OutputMessageModel::Translations { id, references } => id,
    }
}

/// The first extracted message of `ms` with identifier `id` is the one
/// found.
pub proof fn first_match_is_found(ms: Seq<OutputMessageModel>, id: Seq<char>, i: int)
    requires
        0 <= i < ms.len(),
        is_extracted_as(ms[i], id),
        forall|j: int| 0 <= j < i ==> !is_extracted_as(#[trigger] ms[j], id),
    ensures
        find_extracted(ms, id) == Some(i),
{
    find_extracted_is_first(ms, id);
}

/// Recording an extracted message keeps the entries in their order: each
/// entry that was there stays in its place, with its identifier, and at
/// most one entry is added, at the end. A message recorded is found under
/// its identifier afterwards, with its references behind those that were
/// there, and no identifier comes to stand twice.
pub proof fn recording_merges_by_id(ms: Seq<OutputMessageModel>, m: ExtractedModel)
    ensures
        ms.len() <= with_extracted(ms, m).len() <= ms.len() + 1,
        find_extracted(with_extracted(ms, m), m.id) == Some(
            match find_extracted(ms, m.id) {
                Some(i) => i,
                None => ms.len() as int,
            },
        ),
        with_extracted(ms, m)[find_extracted(with_extracted(ms, m), m.id)->0]->Extracted_0.references
            == match find_extracted(ms, m.id) {
            Some(i) => ms[i]->Extracted_0.references + m.references,
            None => m.references,
        },
        forall|i: int|
            0 <= i < ms.len() ==> id_of(#[trigger] with_extracted(ms, m)[i]) == id_of(ms[i]) && (
            with_extracted(ms, m)[i] is Extracted <==> ms[i] is Extracted),
        forall|i: int|
            0 <= i < ms.len() && !is_extracted_as(ms[i], m.id) ==> #[trigger] with_extracted(
                ms,
                m,
            )[i] == ms[i],
        find_extracted(with_extracted(ms, m), m.id) is Some,
        ids_are_distinct(ms) ==> ids_are_distinct(with_extracted(ms, m)),
{
    let after = with_extracted(ms, m);
    find_extracted_is_first(ms, m.id);
    match find_extracted(ms, m.id) {
        Some(i) => {
            assert(is_extracted_as(after[i], m.id));
            assert forall|j: int| 0 <= j < i implies !is_extracted_as(#[trigger] after[j], m.id) by {
                assert(after[j] == ms[j]);
            }
            first_match_is_found(after, m.id, i);
        },
        None => {
            assert(is_extracted_as(after[ms.len() as int], m.id));
            assert forall|j: int| 0 <= j < ms.len() implies !is_extracted_as(
                #[trigger] after[j],
                m.id,
            ) by {
                assert(after[j] == ms[j]);
            }
            first_match_is_found(after, m.id, ms.len() as int);
        },
    }
    if ids_are_distinct(ms) {
        assert forall|i: int, j: int|
            0 <= i < j < after.len() && #[trigger] after[i] is Extracted
                && #[trigger] after[j] is Extracted implies after[i]->Extracted_0.id
            != after[j]->Extracted_0.id by {
            if j < ms.len() {
                assert(ms[i] is Extracted && ms[j] is Extracted);
            } else {
                assert(!is_extracted_as(ms[i], m.id));
            }
        }
    }
}

/// Merging keeps the references of both occurrences, the earlier first,
/// and a description that the earlier occurrence gives.
pub proof fn merging_keeps_references(first: ExtractedModel, second: ExtractedModel)
    ensures
        merged(first, second).references == first.references + second.references,
        merged(first, second).references.len() == first.references.len()
            + second.references.len(),
        has_text(first.description) ==> merged(first, second).description == first.description,
        !has_text(first.description) && has_text(second.description) ==> merged(
            first,
            second,
        ).description == second.description,
{
}

/// The rewrite of the arguments drops none: every argument behind the
/// third stays as it is, every argument keeps whether it is spread, and
/// the key stands in first place as a plain string literal.
pub proof fn rewrite_keeps_arity(
    args: Seq<ArgModel>,
    key: Seq<char>,
    values: Option<ValueModel>,
    formats: Option<ValueModel>,
)
    ensures
        rewritten_args(args, key, values, formats).len() >= args.len(),
        rewritten_args(args, key, values, formats).len() >= 1,
        rewritten_args(args, key, values, formats)[0].expr == ExprModel::Str(plain_str(key)),
        forall|i: int|
            3 <= i < args.len() ==> #[trigger] rewritten_args(args, key, values, formats)[i]
                == args[i],
        forall|i: int|
            0 <= i < args.len() ==> (#[trigger] rewritten_args(
                args,
                key,
                values,
                formats,
            )[i]).spread == args[i].spread,
        values is None && formats is None ==> rewritten_args(args, key, values, formats).len()
            == if args.len() == 0 {
            1
        } else {
            args.len()
        },
{
    let e0 = ExprModel::Str(plain_str(key));
    let a0 = with_expr_at(args, 0, e0);
    put_keeps_rest(args, 0, e0);
    let a1 = match values {
        Some(v) => with_expr_at(a0, 1, value_as_expr(v)),
        None => a0,
    };
    match values {
        Some(v) => {
            put_keeps_rest(a0, 1, value_as_expr(v));
        },
        None => {},
    }
    match formats {
        Some(f) => {
            put_keeps_rest(a1, 2, value_as_expr(f));
        },
        None => {},
    }
}

/// Putting an expression in place `at` keeps every other argument, fills
/// what is missing before it with `undefined`, and keeps whether the
/// argument in that place is spread.
pub proof fn put_keeps_rest(args: Seq<ArgModel>, at: nat, e: ExprModel)
    ensures
        with_expr_at(args, at, e).len() == if args.len() > at {
            args.len()
        } else {
            at + 1
        },
        with_expr_at(args, at, e)[at as int].expr == e,
        forall|i: int|
            0 <= i < args.len() && i != at ==> #[trigger] with_expr_at(args, at, e)[i] == args[i],
        forall|i: int|
            0 <= i < args.len() ==> (#[trigger] with_expr_at(args, at, e)[i]).spread
                == args[i].spread,
        forall|i: int|
            args.len() <= i < at ==> #[trigger] with_expr_at(args, at, e)[i] == plain_arg(
                ExprModel::Undefined,
            ),
{
    padded_keeps(args, at);
}

/// The fallback stands last, behind at least three arguments, and every
/// argument that was there stays as it is.
pub proof fn fallback_is_last(args: Seq<ArgModel>, message: Seq<char>)
    ensures
        with_fallback(args, message).len() == if args.len() >= 3 {
            args.len() + 1
        } else {
            4
        },
        with_fallback(args, message).last() == plain_arg(ExprModel::Str(plain_str(message))),
        forall|i: int| 0 <= i < args.len() ==> #[trigger] with_fallback(args, message)[i] == args[i],
        forall|i: int|
            args.len() <= i < with_fallback(args, message).len() - 1 ==> #[trigger] with_fallback(
                args,
                message,
            )[i] == plain_arg(ExprModel::Undefined),
{
    padded_keeps(args, 3);
}

/// What holds of a call from which a message was extracted: its callee
/// stays, the key of the call stands in first place as a plain string
/// literal, without the namespace, and the message is found under the key
/// behind the namespace of its translator. In development the message
/// text stands last, except in a call of `has`.
pub proof fn extracted_call_is_keyed(v: TransformModel, call: CallModel)
    requires
        outcome_of(v, call) == CallOutcome::Extracted,
    ensures
        translator_of(v.translators, call.callee) is Some,
        reading_of(call.args) is Text,
        ({
            let t = translator_of(v.translators, call.callee)->0;
            let message = reading_of(call.args)->message;
            let key = call_key_of(reading_of(call.args)->id, message);
            let after = call_after(v, call);
            &&& after.callee == call.callee
            &&& after.args.len() >= 1
            &&& after.args[0].expr == ExprModel::Str(plain_str(key))
            &&& find_extracted(results_after(v, call), full_key_of(t.namespace, key)) is Some
            &&& results_after(v, call)[find_extracted(
                results_after(v, call),
                full_key_of(t.namespace, key),
            )->0]->Extracted_0.references.last() == reference_of(v.file_path, call)
            &&& t.namespace is Some ==> full_key_of(t.namespace, key) == t.namespace->0 + "."@ + key
            &&& t.namespace is None ==> full_key_of(t.namespace, key) == key
            &&& (v.is_development && !is_has_call(call.callee)) ==> after.args.last() == plain_arg(
                ExprModel::Str(plain_str(message)),
            )
            &&& !(v.is_development && !is_has_call(call.callee)) ==> after.args == rewritten_args(
                call.args,
                key,
                reading_of(call.args)->values,
                reading_of(call.args)->formats,
            )
        }),
{
    let t = translator_of(v.translators, call.callee)->0;
    let r = reading_of(call.args);
    let message = r->message;
    let key = call_key_of(r->id, message);
    let rewritten = rewritten_args(call.args, key, r->values, r->formats);
    rewrite_keeps_arity(call.args, key, r->values, r->formats);
    fallback_is_last(rewritten, message);
    recording_merges_by_id(
        v.results,
        ExtractedModel {
            id: full_key_of(t.namespace, key),
            message,
            description: r->description,
            references: seq![reference_of(v.file_path, call)],
        },
    );
}

/// A message that cannot be read statically leaves everything as it was:
/// the call, and the messages.
pub proof fn dynamic_call_is_kept(v: TransformModel, call: CallModel)
    requires
        outcome_of(v, call) is Dynamic,
    ensures
        call_after(v, call) == call,
        results_after(v, call) == v.results,
{
}

/// Only a call from which a message was extracted changes.
pub proof fn only_extracted_calls_change(v: TransformModel, call: CallModel)
    ensures
        outcome_of(v, call) != CallOutcome::Extracted ==> call_after(v, call) == call,
        outcome_of(v, call) != CallOutcome::Extracted && outcome_of(v, call)
            != CallOutcome::Referenced ==> results_after(v, call) == v.results,
{
}

/// A specifier that imports the hook itself stays as it is, beside one
/// that is rewritten to import it too.
pub proof fn import_of_the_hook_is_kept(s: ImportSpecifierModel, kind: HookKind)
    requires
        imports_target(s, kind),
    ensures
        specifier_after(s, kind) == s,
{
    hook_names_differ(kind, kind);
}

/// A traversal that only collects leaves the module as it is, and one
/// that only rewrites collects nothing.
pub proof fn modes_are_kept_apart(v: UseExtractedModel, d: ImportDeclModel, call: CallModel)
    ensures
        !transforms(v.mode) ==> plain_import_after(v.mode, d) == d && plain_call_after(v, call)
            == call,
        !collects(v.mode) ==> found_after(v, call) == v.found_messages,
        transforms(v.mode) || collects(v.mode),
{
}

/// In the traversal by scopes, a call by a name that resolves to no
/// translator stays as it is and nothing is collected from it.
pub proof fn plain_call_outside_translators_is_kept(v: UseExtractedModel, call: CallModel)
    requires
        plain_message(v.scopes, call) is None,
    ensures
        plain_call_after(v, call) == call,
        found_after(v, call) == v.found_messages,
{
}

/// Whether no scope binds a name to a translator.
pub open spec fn binds_no_translator(scopes: Seq<ScopeModel>) -> bool {
    forall|i: int, n: Seq<char>|
        0 <= i < scopes.len() && #[trigger] scopes[i].contains_key(n) ==> scopes[i][n]
            != TRANSLATOR_KIND@
}

/// Whether no specifier of an import declaration imports the hook to
/// extract from, as the traversal by scopes reads it.
pub open spec fn names_no_sentinel(d: ImportDeclModel) -> bool {
    d.src == HOOK_SOURCE@ ==> forall|i: int|
        0 <= i < d.specifiers.len() ==> sentinel_local(#[trigger] d.specifiers[i]) is None
}

/// Where no scope binds a translator, no name resolves to one.
pub proof fn no_translator_is_found(scopes: Seq<ScopeModel>, name: Seq<char>)
    requires
        binds_no_translator(scopes),
    ensures
        lookup_in(scopes, name) != Some(TRANSLATOR_KIND@),
    decreases scopes.len(),
{
    if scopes.len() > 0 {
        let outer = scopes.drop_last();
        assert forall|i: int, n: Seq<char>|
            0 <= i < outer.len() && #[trigger] outer[i].contains_key(n) implies outer[i][n]
            != TRANSLATOR_KIND@ by {
            assert(outer[i] == scopes[i]);
        }
        no_translator_is_found(outer, name);
        if scopes.last().contains_key(name) {
            assert(scopes[scopes.len() - 1].contains_key(name));
        }
    }
}

/// Without an import of the hook, no run of specifiers gives the hook a
/// local name.
pub proof fn no_import_names_no_hook(specs: Seq<ImportSpecifierModel>)
    requires
        forall|i: int| 0 <= i < specs.len() ==> sentinel_local(#[trigger] specs[i]) is None,
    ensures
        hook_name_with(None, specs) is None,
    decreases specs.len(),
{
    if specs.len() > 0 {
        let front = specs.drop_last();
        assert forall|i: int| 0 <= i < front.len() implies sentinel_local(#[trigger] front[i])
            is None by {
            assert(front[i] == specs[i]);
        }
        no_import_names_no_hook(front);
        assert(sentinel_local(specs[specs.len() - 1]) is None);
    }
}

/// Without an import of the hook, no run of declarators changes the
/// scopes.
pub proof fn no_hook_defines_nothing(scopes: Seq<ScopeModel>, decls: Seq<VarDeclaratorModel>)
    ensures
        scopes_with_declarators(scopes, None, decls) == scopes,
    decreases decls.len(),
{
    if decls.len() > 0 {
        no_hook_defines_nothing(scopes, decls.drop_last());
    }
}

/// In the traversal by scopes, a module that does not import the hook
/// stays as it is and gives no message, in every mode and whatever it
/// declares and calls, a function named like the hook included: its
/// imports stay and name no hook, its declarators stay and bind no
/// translator, its calls stay and nothing is collected from them, and
/// entering and leaving scopes binds no translator either.
pub proof fn scope_traversal_without_import_is_kept(
    v: UseExtractedModel,
    d: ImportDeclModel,
    decls: Seq<VarDeclaratorModel>,
    call: CallModel,
)
    requires
        v.hook_local_name is None,
        binds_no_translator(v.scopes),
        names_no_sentinel(d),
    ensures
        plain_import_after(v.mode, d) == d,
        hook_name_after(v.hook_local_name, d) is None,
        forall|i: int|
            0 <= i < decls.len() ==> plain_declarator_after(v.hook_local_name, #[trigger] decls[i])
                == decls[i],
        scopes_with_declarators(v.scopes, v.hook_local_name, decls) == v.scopes,
        plain_call_after(v, call) == call,
        found_after(v, call) == v.found_messages,
        binds_no_translator(v.scopes.push(Map::<Seq<char>, Seq<char>>::empty())),
        v.scopes.len() > 0 ==> binds_no_translator(v.scopes.drop_last()),
{
    if d.src == HOOK_SOURCE@ {
        no_import_names_no_hook(d.specifiers);
        assert(d.specifiers.map_values(|s: ImportSpecifierModel| plain_specifier_after(s))
            =~= d.specifiers);
    }
    no_hook_defines_nothing(v.scopes, decls);
    match call.callee {
        CalleeModel::Ident(f) => {
            no_translator_is_found(v.scopes, f.0);
        },
        _ => {},
    }
    let inner = v.scopes.push(Map::<Seq<char>, Seq<char>>::empty());
    assert forall|i: int, n: Seq<char>|
        0 <= i < inner.len() && #[trigger] inner[i].contains_key(n) implies inner[i][n]
        != TRANSLATOR_KIND@ by {
        if i < v.scopes.len() {
            assert(inner[i] == v.scopes[i]);
        }
    }
    if v.scopes.len() > 0 {
        let outer = v.scopes.drop_last();
        assert forall|i: int, n: Seq<char>|
            0 <= i < outer.len() && #[trigger] outer[i].contains_key(n) implies outer[i][n]
            != TRANSLATOR_KIND@ by {
            assert(outer[i] == v.scopes[i]);
        }
    }
}

/// In the traversal by scopes, a rewritten import declaration imports the
/// hook to extract from no more, and rewriting it again changes nothing:
/// a second traversal of a rewritten module sees no import of the hook.
pub proof fn plain_import_rewrite_is_idempotent(mode: TraversalMode, d: ImportDeclModel)
    requires
        transforms(mode),
    ensures
        names_no_sentinel(plain_import_after(mode, d)),
        plain_import_after(mode, plain_import_after(mode, d)) == plain_import_after(mode, d),
{
    reveal_strlit("useExtracted");
    reveal_strlit("useTranslations");
    assert(EXTRACTED_HOOK@.len() != TARGET_HOOK@.len());
    if d.src == HOOK_SOURCE@ {
        let once = d.specifiers.map_values(|s: ImportSpecifierModel| plain_specifier_after(s));
        assert forall|i: int| 0 <= i < once.len() implies sentinel_local(#[trigger] once[i])
            is None by {
            let _ = d.specifiers[i];
        }
        assert(once.map_values(|s: ImportSpecifierModel| plain_specifier_after(s)) =~= once);
    }
}

/// A specifier that names its import by a string imports that name, not
/// the local one: where the string is not the name to extract from, the
/// specifier stays as it is and binds nothing that extracts, whatever its
/// local name.
pub proof fn string_named_import_goes_by_its_string(
    hooks: Map<Id, HookBinding>,
    local: Id,
    name: Seq<char>,
    kind: HookKind,
)
    requires
        name != kind.spec_extracted_name(),
    ensures
        ({
            let s = ImportSpecifierModel::Named {
                local,
                imported: Some(ModuleExportNameModel::Str(name)),
            };
            &&& !imports_extracted(s, kind)
            &&& specifier_after(s, kind) == s
            &&& name != EXTRACTED_HOOK@ ==> sentinel_local(s) is None
            &&& name != kind.spec_target_name() ==> hooks_with_specifier(hooks, s, kind) == hooks
        }),
{
}

} // verus!
