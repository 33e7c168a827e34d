//! The traversal state of one module, and what it does at each call.
//!
//! A host walks its syntax tree and hands the visitor the module's top
//! level first, then each declarator and each call in source order. The
//! visitor rewrites the descriptions it is given and collects the report.

use crate::ast::{
    args_model, opt_text, Arg, ArgModel, ArrowBody, ArrowBodyModel, CallExpr, CallModel, Callee,
    CalleeModel, Expr, ExprModel, Id, Value, ValueModel,
};
use crate::bindings::{
    hook_entries, new_bindings, no_hooks, no_translators, translator_entries, translators_get,
    translators_insert, BindingMap, HookBinding, TranslatorInfo, TranslatorModel,
};
use crate::callsite::{
    append_fallback, call_key, call_key_of, full_key, full_key_of, read_message, reading_of,
    rewrite_args, rewritten_args, with_fallback, DynamicSite, Reading, ReadingModel,
};
use crate::hook::MessageKind;
use crate::literal::same_text;
use crate::output::{
    messages_model, record_extracted, record_translation, with_extracted, ExtractedModel,
    ModuleOutput, ModuleOutputModel, OutputMessage, OutputMessageModel, Reference, ReferenceModel,
    StrictExtractedMessage,
};
use vstd::prelude::*;

verus! {

/// The label under which the host emits the report beside the rewritten
/// module.
pub const RESULTS_LABEL: &'static str = "results";

/// The texts of a list of strings.
pub open spec fn texts(v: Seq<String>) -> Seq<Seq<char>> {
    v.map_values(|s: String| s@)
}

/// The state of the traversal of one module.
pub struct TransformVisitor {
    /// Whether rewritten calls get the message text as a fallback.
    pub is_development: bool,
    /// The path of the module, as references report it.
    pub file_path: String,
    /// The local names that are bound to a hook.
    pub hook_local_names: BindingMap,
    /// The local names that are bound to a translator.
    pub translator_map: BindingMap,
    /// The messages found so far, in source order.
    pub results: Vec<OutputMessage>,
    /// The modules that the module imports, in the order found.
    pub dependencies: Vec<String>,
    pub has_use_client: bool,
    pub has_use_server: bool,
}

/// What a [`TransformVisitor`] holds, as mathematical values.
pub struct TransformModel {
    pub is_development: bool,
    pub file_path: Seq<char>,
    pub hooks: Map<Id, HookBinding>,
    pub translators: Map<Id, TranslatorModel>,
    pub results: Seq<OutputMessageModel>,
    pub dependencies: Seq<Seq<char>>,
    pub has_use_client: bool,
    pub has_use_server: bool,
}

impl View for TransformVisitor {
    type V = TransformModel;

    open spec fn view(&self) -> TransformModel {
        TransformModel {
            is_development: self.is_development,
            file_path: self.file_path@,
            hooks: hook_entries(self.hook_local_names),
            translators: translator_entries(self.translator_map),
            results: messages_model(self.results@),
            dependencies: texts(self.dependencies@),
            has_use_client: self.has_use_client,
            has_use_server: self.has_use_server,
        }
    }
}

/// What the visitor did at a call.
#[derive(Debug, Clone, Copy, PartialEq, Eq, Structural)]
pub enum CallOutcome {
    /// Not a translator call, or one without anything to read: nothing
    /// recorded, the call as it was.
    Untouched,
    /// A message was extracted and the call rewritten.
    Extracted,
    /// A use of a catalog key was recorded; the call as it was.
    Referenced,
    /// The message cannot be read statically: the host is to report the
    /// expression at the site; nothing recorded, the call as it was.
    Dynamic(DynamicSite),
}

/// Whether `prop` is one of the members of a translator that take a
/// message.
pub open spec fn is_translator_member(prop: Seq<char>) -> bool {
    prop == "rich"@ || prop == "markup"@ || prop == "has"@
}

/// The translator that a callee stands for: the binding of the identifier
/// called, or of the identifier whose member `rich`, `markup` or `has` is
/// called.
pub open spec fn translator_of(
    translators: Map<Id, TranslatorModel>,
    callee: CalleeModel,
) -> Option<TranslatorModel> {
    match callee {
        CalleeModel::Ident(id) => if translators.contains_key(id) {
            Some(translators[id])
        } else {
            None
        },
        CalleeModel::Member { obj, prop } => if is_translator_member(prop)
            && translators.contains_key(obj) {
            Some(translators[obj])
        } else {
            None
        },
        _ => None,
    }
}

/// Whether the member `has` of something is called.
pub open spec fn is_has_call(callee: CalleeModel) -> bool {
    match callee {
        CalleeModel::Member { obj, prop } => prop == "has"@,
        _ => false,
    }
}

/// The reference to a call in the module at `path`.
pub open spec fn reference_of(path: Seq<char>, call: CallModel) -> ReferenceModel {
    ReferenceModel { path, line: call.line, column: call.column }
}

/// The text of a string literal in first place of `args`.
pub open spec fn literal_key(args: Seq<ArgModel>) -> Option<Seq<char>> {
    if args.len() == 0 {
        None
    } else {
        match args[0].expr {
            ExprModel::Str(s) => Some(s.value),
            _ => None,
        }
    }
}

/// The module that a call imports at run time: the string argument of
/// `import(..)`, or of the `import(..)` that is the body of the arrow
/// function which is the one argument of `dynamic(..)` or `lazy(..)`.
pub open spec fn import_dependency(call: CallModel) -> Option<Seq<char>> {
    match call.callee {
        CalleeModel::Import => literal_key(call.args),
        CalleeModel::Ident(id) => if (id.0 == "dynamic"@ || id.0 == "lazy"@) && call.args.len()
            == 1 && !call.args[0].spread {
            match call.args[0].expr {
                ExprModel::Arrow(ArrowBodyModel::Import(inner)) => if inner.len() > 0 {
                    match inner[0] {
                        ValueModel::Str(s) => Some(s.value),
                        _ => None,
                    }
                } else {
                    None
                },
                _ => None,
            }
        } else {
            None
        },
        _ => None,
    }
}

/// What the visitor does at `call`.
pub open spec fn outcome_of(v: TransformModel, call: CallModel) -> CallOutcome {
    match translator_of(v.translators, call.callee) {
        Some(t) => match t.yields {
            MessageKind::Extracted => match reading_of(call.args) {
                ReadingModel::Nothing => CallOutcome::Untouched,
                ReadingModel::Dynamic(site) => CallOutcome::Dynamic(site),
                ReadingModel::Text { .. } => CallOutcome::Extracted,
            },
            MessageKind::Translations => if literal_key(call.args) is Some {
                CallOutcome::Referenced
            } else {
                CallOutcome::Untouched
            },
        },
        None => CallOutcome::Untouched,
    }
}

/// The call after the visitor was at it. Only a call from which a message
/// was extracted changes, and only in its arguments: the key takes the
/// place of the message, and in development every call but one of `has`
/// gets the message text as a fallback.
pub open spec fn call_after(v: TransformModel, call: CallModel) -> CallModel {
    match translator_of(v.translators, call.callee) {
        Some(t) => match (t.yields, reading_of(call.args)) {
            (
                MessageKind::Extracted,
                ReadingModel::Text { message, id, description, values, formats },
            ) => {
                let args = rewritten_args(call.args, call_key_of(id, message), values, formats);
                CallModel {
                    args: if v.is_development && !is_has_call(call.callee) {
                        with_fallback(args, message)
                    } else {
                        args
                    },
                    ..call
                }
            },
            _ => call,
        },
        None => call,
    }
}

/// The messages after the visitor was at `call`.
pub open spec fn results_after(v: TransformModel, call: CallModel) -> Seq<OutputMessageModel> {
    match translator_of(v.translators, call.callee) {
        Some(t) => match t.yields {
            MessageKind::Extracted => match reading_of(call.args) {
                ReadingModel::Text { message, id, description, values, formats } => with_extracted(
                    v.results,
                    ExtractedModel {
                        id: full_key_of(t.namespace, call_key_of(id, message)),
                        message,
                        description,
                        references: seq![reference_of(v.file_path, call)],
                    },
                ),
                _ => v.results,
            },
            MessageKind::Translations => match literal_key(call.args) {
                Some(key) => v.results.push(
                    OutputMessageModel::Translations {
                        id: full_key_of(t.namespace, key),
                        references: seq![reference_of(v.file_path, call)],
                    },
                ),
                None => v.results,
            },
        },
        None => v.results,
    }
}

/// The dependencies after the visitor was at `call`.
pub open spec fn dependencies_after(deps: Seq<Seq<char>>, call: CallModel) -> Seq<Seq<char>> {
    match import_dependency(call) {
        Some(d) => deps.push(d),
        None => deps,
    }
}

/// The state after the visitor was at `call`.
pub open spec fn visitor_after_call(v: TransformModel, call: CallModel) -> TransformModel {
    TransformModel {
        results: results_after(v, call),
        dependencies: dependencies_after(v.dependencies, call),
        ..v
    }
}

/// Reads the text of a string literal in first place of `args`.
pub fn read_literal_key(args: &Vec<Arg>) -> (r: Option<String>)
    ensures
        opt_text(r) == literal_key(args_model(args@)),
{
    if args.len() == 0 {
        return None;
    }
    assert(args_model(args@)[0] == args@[0]@);
    match &args[0].expr {
        Expr::Str(s) => Some(s.value.clone()),
        _ => None,
    }
}

/// Finds the module that a call imports at run time.
pub fn find_import_dependency(call: &CallExpr) -> (r: Option<String>)
    ensures
        opt_text(r) == import_dependency(call@),
{
    match &call.callee {
        Callee::Import => read_literal_key(&call.args),
        Callee::Ident(id) => {
            if (same_text(id.sym.as_str(), "dynamic") || same_text(id.sym.as_str(), "lazy"))
                && call.args.len() == 1 {
                assert(args_model(call.args@)[0] == call.args@[0]@);
                if call.args[0].spread {
                    return None;
                }
                match &call.args[0].expr {
                    Expr::Arrow(ArrowBody::Import(inner)) => {
                        if inner.len() > 0 {
                            assert(crate::ast::values_model(inner@)[0] == inner@[0]@);
                            match &inner[0] {
                                Value::Str(s) => Some(s.value.clone()),
                                _ => None,
                            }
                        } else {
                            None
                        }
                    },
                    _ => None,
                }
            } else {
                None
            }
        },
        _ => None,
    }
}

impl TransformVisitor {
    /// A visitor for the module at `file_path`, with nothing bound and
    /// nothing found.
    pub fn new(is_development: bool, file_path: String) -> (v: Self)
        ensures
            v@ == (TransformModel {
                is_development,
                file_path: file_path@,
                hooks: no_hooks(),
                translators: no_translators(),
                results: Seq::empty(),
                dependencies: Seq::empty(),
                has_use_client: false,
                has_use_server: false,
            }),
    {
        let v = TransformVisitor {
            is_development,
            file_path,
            hook_local_names: new_bindings(),
            translator_map: new_bindings(),
            results: Vec::new(),
            dependencies: Vec::new(),
            has_use_client: false,
            has_use_server: false,
        };
        assert(v@.results =~= Seq::empty());
        assert(v@.dependencies =~= Seq::empty());
        v
    }

    /// The messages found so far.
    pub fn get_results(&self) -> (r: &Vec<OutputMessage>)
        ensures
            messages_model(r@) == self@.results,
    {
        &self.results
    }

    /// Ends the traversal and hands out the report.
    pub fn get_output(self) -> (r: ModuleOutput)
        ensures
            r@ == (ModuleOutputModel {
                messages: self@.results,
                dependencies: self@.dependencies,
                has_use_client: self@.has_use_client,
                has_use_server: self@.has_use_server,
            }),
    {
        ModuleOutput {
            messages: self.results,
            dependencies: self.dependencies,
            has_use_client: self.has_use_client,
            has_use_server: self.has_use_server,
        }
    }

    /// Binds `name` to a translator with `namespace` that extracts its
    /// messages.
    pub fn define_translator(&mut self, name: String, ctxt: u32, namespace: Option<String>)
        ensures
            final(self)@ == (TransformModel {
                translators: old(self)@.translators.insert(
                    (name@, ctxt),
                    TranslatorModel {
                        namespace: opt_text(namespace),
                        yields: MessageKind::Extracted,
                    },
                ),
                ..old(self)@
            }),
    {
        translators_insert(
            &mut self.translator_map,
            name,
            ctxt,
            TranslatorInfo { namespace, yields: MessageKind::Extracted },
        );
    }

    /// The translator that a callee stands for.
    pub fn resolve_translator(&self, callee: &Callee) -> (r: Option<TranslatorInfo>)
        ensures
            match r {
                Some(t) => translator_of(self@.translators, callee@) == Some(t@),
                None => translator_of(self@.translators, callee@) is None,
            },
    {
        match callee {
            Callee::Ident(id) => translators_get(&self.translator_map, &id.sym, id.ctxt),
            Callee::Member { obj, prop } => {
                if same_text(prop.as_str(), "rich") || same_text(prop.as_str(), "markup")
                    || same_text(prop.as_str(), "has") {
                    translators_get(&self.translator_map, &obj.sym, obj.ctxt)
                } else {
                    None
                }
            },
            _ => None,
        }
    }

    /// The reference to `call` in the module of this visitor.
    pub fn reference_to(&self, call: &CallExpr) -> (r: Reference)
        ensures
            r@ == reference_of(self@.file_path, call@),
    {
        Reference { path: self.file_path.clone(), line: call.line, column: call.column }
    }

    /// Visits a call. A call through a translator that extracts has its
    /// message read, recorded under its identifier and replaced by its key;
    /// a call through any other translator is recorded where it names a
    /// key; a run-time import is recorded as a dependency.
    pub fn visit_mut_call_expr(&mut self, call: &mut CallExpr) -> (outcome: CallOutcome)
        ensures
            outcome == outcome_of(old(self)@, old(call)@),
            final(call)@ == call_after(old(self)@, old(call)@),
            final(self)@ == visitor_after_call(old(self)@, old(call)@),
    {
        let ghost v0 = self@;
        let ghost c0 = call@;
        match find_import_dependency(call) {
            Some(d) => {
                self.dependencies.push(d);
                assert(texts(self.dependencies@) =~= dependencies_after(v0.dependencies, c0));
            },
            None => {},
        }
        let translator = self.resolve_translator(&call.callee);
        let outcome = match translator {
            None => CallOutcome::Untouched,
            Some(t) => match t.yields {
                MessageKind::Translations => match read_literal_key(&call.args) {
                    Some(key) => {
                        let id = full_key(&t.namespace, &key);
                        let reference = self.reference_to(call);
                        record_translation(&mut self.results, id, reference);
                        CallOutcome::Referenced
                    },
                    None => CallOutcome::Untouched,
                },
                MessageKind::Extracted => match read_message(&call.args) {
                    Reading::Nothing => CallOutcome::Untouched,
                    Reading::Dynamic(site) => CallOutcome::Dynamic(site),
                    Reading::Text { message, id, description, values, formats } => {
                        let key = call_key(id, &message);
                        let reference = self.reference_to(call);
                        let mut references: Vec<Reference> = Vec::new();
                        references.push(reference);
                        assert(crate::output::references_model(references@) =~= seq![
                            reference_of(v0.file_path, c0),
                        ]);
                        let extracted = StrictExtractedMessage {
                            id: full_key(&t.namespace, &key),
                            message: message.clone(),
                            description,
                            references,
                        };
                        record_extracted(&mut self.results, extracted);
                        rewrite_args(&mut call.args, key, values, formats);
                        let is_has = match &call.callee {
                            Callee::Member { obj, prop } => same_text(prop.as_str(), "has"),
                            _ => false,
                        };
                        if self.is_development && !is_has {
                            append_fallback(&mut call.args, message);
                        }
                        CallOutcome::Extracted
                    },
                },
            },
        };
        outcome
    }
}

} // verus!
