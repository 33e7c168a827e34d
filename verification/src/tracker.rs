//! Declarators whose initialiser calls a hook: the declared name becomes a
//! translator, with the namespace that the call gives.

use crate::ast::{
    args_model, opt_text, props_model, Arg, ArgModel, CallExpr, CallModel, Callee, CalleeModel,
    Expr, ExprModel, Id, Ident, Init, InitModel, Pat, PatModel, Prop, PropModel, Value,
    ValueModel, VarDeclarator, VarDeclaratorModel,
};
use crate::bindings::{
    hooks_get, translators_insert, HookBinding, TranslatorInfo, TranslatorModel,
};
use crate::hook::MessageKind;
use crate::literal::{extract_static_string, same_text, static_value};
use crate::visitor::{TransformModel, TransformVisitor};
use vstd::prelude::*;

verus! {

/// Whether `p` is the property `namespace`.
pub open spec fn is_namespace_prop(p: PropModel) -> bool {
    match p {
        PropModel::Named { key, value } => key == "namespace"@,
        PropModel::Other => false,
    }
}

/// The value of the first property `namespace` of an object literal.
pub open spec fn namespace_prop(props: Seq<PropModel>) -> Option<ValueModel>
    decreases props.len(),
{
    if props.len() == 0 {
        None
    } else {
        match namespace_prop(props.drop_last()) {
            Some(v) => Some(v),
            None => match props.last() {
                PropModel::Named { key, value } => if key == "namespace"@ {
                    Some(value)
                } else {
                    None
                },
                PropModel::Other => None,
            },
        }
    }
}

/// The namespace that the arguments of a hook call give: the value of a
/// string literal in first place, or the static text of the first
/// property `namespace` of an object literal in first place.
pub open spec fn namespace_of(args: Seq<ArgModel>) -> Option<Seq<char>> {
    if args.len() == 0 {
        None
    } else {
        match args[0].expr {
            ExprModel::Str(s) => Some(s.value),
            ExprModel::Object(props) => match namespace_prop(props) {
                Some(v) => static_value(v),
                None => None,
            },
            _ => None,
        }
    }
}

/// What `namespace_prop` finds is the value of a property `namespace`, and
/// no such property stands before it.
pub proof fn namespace_prop_is_first(props: Seq<PropModel>)
    ensures
        match namespace_prop(props) {
            Some(v) => exists|i: int|
                0 <= i < props.len() && #[trigger] props[i] == (PropModel::Named {
                    key: "namespace"@,
                    value: v,
                }) && forall|j: int| 0 <= j < i ==> !is_namespace_prop(#[trigger] props[j]),
            None => forall|j: int| 0 <= j < props.len() ==> !is_namespace_prop(#[trigger] props[j]),
        },
    decreases props.len(),
{
    if props.len() > 0 {
        let front = props.drop_last();
        namespace_prop_is_first(front);
        assert forall|j: int| 0 <= j < front.len() implies front[j] == props[j] by {}
        match namespace_prop(front) {
            Some(v) => {
                let i = choose|i: int|
                    0 <= i < front.len() && #[trigger] front[i] == (PropModel::Named {
                        key: "namespace"@,
                        value: v,
                    }) && forall|j: int| 0 <= j < i ==> !is_namespace_prop(#[trigger] front[j]);
                assert(props[i] == front[i]);
                assert forall|j: int| 0 <= j < i implies !is_namespace_prop(
                    #[trigger] props[j],
                ) by {
                    assert(props[j] == front[j]);
                }
            },
            None => {
                assert forall|j: int| 0 <= j < front.len() implies !is_namespace_prop(
                    #[trigger] props[j],
                ) by {
                    assert(props[j] == front[j]);
                }
                if is_namespace_prop(props.last()) {
                    let i = props.len() - 1;
                    assert(props[i] == props.last());
                }
            },
        }
    }
}

/// Finds the value of the first property `namespace` of an object
/// literal.
pub fn find_namespace_prop(props: &Vec<Prop>) -> (r: Option<&Value>)
    ensures
        match r {
            Some(v) => namespace_prop(props_model(props@)) == Some(v@),
            None => namespace_prop(props_model(props@)) is None,
        },
{
    let ghost all = props_model(props@);
    let mut i: usize = 0;
    while i < props.len()
        invariant
            i <= props@.len(),
            all == props_model(props@),
            namespace_prop(all.take(i as int)) is None,
        decreases props@.len() - i,
    {
        assert(all.take(i + 1).drop_last() =~= all.take(i as int));
        assert(all.take(i + 1).last() == props@[i as int]@);
        match &props[i] {
            Prop::Named { key, value } => {
                if same_text(key.as_str(), "namespace") {
                    proof {
                        assert(all[i as int] == props@[i as int]@);
                        namespace_found_stays(all, i as int);
                    }
                    return Some(value);
                }
            },
            Prop::Other => {},
        }
        i = i + 1;
    }
    assert(all.take(i as int) =~= all);
    None
}

/// Reads the namespace that the arguments of a hook call give.
pub fn read_namespace(args: &Vec<Arg>) -> (r: Option<String>)
    ensures
        opt_text(r) == namespace_of(args_model(args@)),
{
    if args.len() == 0 {
        return None;
    }
    assert(args_model(args@)[0] == args@[0]@);
    match &args[0].expr {
        Expr::Str(s) => Some(s.value.clone()),
        Expr::Object(props) => match find_namespace_prop(props) {
            Some(value) => extract_static_string(value),
            None => None,
        },
        _ => None,
    }
}

/// A property `namespace` without another before it is the one found.
pub proof fn namespace_found_stays(props: Seq<PropModel>, i: int)
    requires
        0 <= i < props.len(),
        namespace_prop(props.take(i)) is None,
        is_namespace_prop(props[i]),
    ensures
        namespace_prop(props) == Some(props[i]->value),
{
    let upto = props.take(i + 1);
    assert(upto.drop_last() =~= props.take(i));
    assert(upto.last() == props[i]);
    assert(namespace_prop(upto) == Some(props[i]->value));
    namespace_prefix_stays(props, i + 1);
}

/// What is found among the first `n` properties is found among all.
pub proof fn namespace_prefix_stays(props: Seq<PropModel>, n: int)
    requires
        0 <= n <= props.len(),
        namespace_prop(props.take(n)) is Some,
    ensures
        namespace_prop(props) == namespace_prop(props.take(n)),
    decreases props.len() - n,
{
    if n == props.len() {
        assert(props.take(n) =~= props);
    } else {
        assert(props.take(n + 1).drop_last() =~= props.take(n));
        namespace_prefix_stays(props, n + 1);
    }
}

/// The call that an initialiser makes or awaits.
pub open spec fn call_of_init(init: Option<InitModel>) -> Option<CallModel> {
    match init {
        Some(InitModel::Call(c)) => Some(c),
        Some(InitModel::AwaitCall(c)) => Some(c),
        _ => None,
    }
}

/// The hook that a call calls: the binding of the identifier called.
pub open spec fn hook_of_call(hooks: Map<Id, HookBinding>, call: CallModel) -> Option<HookBinding> {
    match call.callee {
        CalleeModel::Ident(id) => if hooks.contains_key(id) {
            Some(hooks[id])
        } else {
            None
        },
        _ => None,
    }
}

/// The hook that a declarator makes a translator with: that of the call
/// which its initialiser makes or awaits, where it declares one
/// identifier.
pub open spec fn hook_of_declarator(hooks: Map<Id, HookBinding>, d: VarDeclaratorModel) -> Option<
    HookBinding,
> {
    match (d.name, call_of_init(d.init)) {
        (PatModel::Ident(name), Some(call)) => hook_of_call(hooks, call),
        _ => None,
    }
}

/// A call of the hook `b`, rewritten: where the hook extracts, the
/// reserved local name of its kind is called, in the context of the old
/// callee; else the call stays as it is.
pub open spec fn hook_call_after(b: HookBinding, call: CallModel) -> CallModel {
    match (b.yields, call.callee) {
        (MessageKind::Extracted, CalleeModel::Ident(id)) => CallModel {
            callee: CalleeModel::Ident((b.kind.spec_local_name(), id.1)),
            ..call
        },
        _ => call,
    }
}

/// A declarator, rewritten: where it makes a translator, the call of the
/// hook is rewritten; else it stays as it is.
pub open spec fn declarator_after(
    hooks: Map<Id, HookBinding>,
    d: VarDeclaratorModel,
) -> VarDeclaratorModel {
    match hook_of_declarator(hooks, d) {
        Some(b) => VarDeclaratorModel {
            name: d.name,
            init: match d.init {
                Some(InitModel::Call(c)) => Some(InitModel::Call(hook_call_after(b, c))),
                Some(InitModel::AwaitCall(c)) => Some(InitModel::AwaitCall(hook_call_after(b, c))),
                other => other,
            },
        },
        None => d,
    }
}

/// The translator bindings with that of a declarator: where it makes a
/// translator, the declared name is bound, with the namespace that the
/// call of the hook gives.
pub open spec fn translators_with_declarator(
    hooks: Map<Id, HookBinding>,
    translators: Map<Id, TranslatorModel>,
    d: VarDeclaratorModel,
) -> Map<Id, TranslatorModel> {
    match (hook_of_declarator(hooks, d), d.name, call_of_init(d.init)) {
        (Some(b), PatModel::Ident(name), Some(call)) => translators.insert(
            name,
            TranslatorModel { namespace: namespace_of(call.args), yields: b.yields },
        ),
        _ => translators,
    }
}

impl TransformVisitor {
    /// The hook that a call calls.
    pub fn resolve_hook(&self, call: &CallExpr) -> (r: Option<HookBinding>)
        ensures
            r == hook_of_call(self@.hooks, call@),
    {
        match &call.callee {
            Callee::Ident(id) => hooks_get(&self.hook_local_names, &id.sym, id.ctxt),
            _ => None,
        }
    }

    /// Binds the declared name to a translator where `call`, the call that
    /// the initialiser makes or awaits, calls a hook, and rewrites the
    /// callee.
    pub fn track_hook_call(&mut self, name: &Ident, call: &mut CallExpr)
        ensures
            match hook_of_call(old(self)@.hooks, old(call)@) {
                Some(b) => final(call)@ == hook_call_after(b, old(call)@) && final(self)@ == (
                TransformModel {
                    translators: old(self)@.translators.insert(
                        name@,
                        TranslatorModel {
                            namespace: namespace_of(old(call)@.args),
                            yields: b.yields,
                        },
                    ),
                    ..old(self)@
                }),
                None => final(call)@ == old(call)@ && final(self)@ == old(self)@,
            },
    {
        match self.resolve_hook(call) {
            Some(b) => {
                let namespace = read_namespace(&call.args);
                match b.yields {
                    MessageKind::Extracted => {
                        match &mut call.callee {
                            Callee::Ident(id) => {
                                id.sym = String::from_str(b.kind.local_name());
                            },
                            _ => {},
                        }
                    },
                    MessageKind::Translations => {},
                }
                translators_insert(
                    &mut self.translator_map,
                    name.sym.clone(),
                    name.ctxt,
                    TranslatorInfo { namespace, yields: b.yields },
                );
            },
            None => {},
        }
    }

    /// Visits a declarator. Where it declares one identifier and its
    /// initialiser calls a hook, or awaits such a call, the identifier
    /// becomes a translator and the call is rewritten.
    pub fn visit_mut_var_declarator(&mut self, node: &mut VarDeclarator)
        ensures
            final(node)@ == declarator_after(old(self)@.hooks, old(node)@),
            final(self)@ == (TransformModel {
                translators: translators_with_declarator(
                    old(self)@.hooks,
                    old(self)@.translators,
                    old(node)@,
                ),
                ..old(self)@
            }),
    {
        match &node.name {
            Pat::Ident(name) => {
                match &mut node.init {
                    Some(Init::Call(call)) => {
                        self.track_hook_call(name, call);
                    },
                    Some(Init::AwaitCall(call)) => {
                        self.track_hook_call(name, call);
                    },
                    _ => {},
                }
            },
            _ => {},
        }
    }
}

} // verus!
