//! Reading the message of a translator call, and rewriting the call's
//! arguments to the message's key.

use crate::ast::{
    args_model, opt_text, plain_arg, plain_str, props_model, value_as_expr, Arg, ArgModel, Expr,
    ExprModel, Prop, PropModel, StrLit, Value, ValueModel,
};
use crate::key::{generate_key, key_of};
use crate::literal::{extract_static_string, read_static_expr, same_text, static_expr, static_value};
use vstd::string::StringExecFns;
use vstd::prelude::*;

verus! {

/// The text that separates a namespace from a key.
pub const NAMESPACE_SEPARATOR: &'static str = ".";

/// What the host reports at an expression that cannot be read statically.
pub const DYNAMIC_EXPRESSION_WARNING: &'static str =
    "Cannot extract message from dynamic expression, messages need to be statically analyzable. If you need to provide runtime values, pass them as a separate argument.";

/// Which expression of a call could not be read statically.
#[derive(Debug, Clone, Copy, PartialEq, Eq, Structural)]
pub enum DynamicSite {
    /// The first argument itself.
    Argument,
    /// The value of the property at this position of the options object.
    Property(usize),
}

/// The options of a call as read from an object literal.
pub struct Options {
    pub id: Option<String>,
    pub message: Option<String>,
    pub description: Option<String>,
    pub values: Option<Value>,
    pub formats: Option<Value>,
    /// The first of the properties `id`, `message`, `description` whose
    /// value has no static text.
    pub dynamic: Option<usize>,
}

/// What [`Options`] hold, as mathematical values.
pub struct OptionsModel {
    pub id: Option<Seq<char>>,
    pub message: Option<Seq<char>>,
    pub description: Option<Seq<char>>,
    pub values: Option<ValueModel>,
    pub formats: Option<ValueModel>,
    pub dynamic: Option<usize>,
}

/// The model of an optional value.
pub open spec fn opt_value(v: Option<Value>) -> Option<ValueModel> {
    match v {
        Some(x) => Some(x@),
        None => None,
    }
}

impl View for Options {
    type V = OptionsModel;

    open spec fn view(&self) -> OptionsModel {
        OptionsModel {
            id: opt_text(self.id),
            message: opt_text(self.message),
            description: opt_text(self.description),
            values: opt_value(self.values),
            formats: opt_value(self.formats),
            dynamic: self.dynamic,
        }
    }
}

/// The options of an object without properties.
pub open spec fn no_options() -> OptionsModel {
    OptionsModel {
        id: None,
        message: None,
        description: None,
        values: None,
        formats: None,
        dynamic: None,
    }
}

/// `first` where it is given, else `at`.
pub open spec fn first_dynamic(first: Option<usize>, at: usize) -> Option<usize> {
    if first is Some {
        first
    } else {
        Some(at)
    }
}

/// The options `o`, read from the properties before position `at`, after
/// the property `p` at `at` was read too. A later static value replaces an
/// earlier one; `values` and `formats` are kept as nodes.
pub open spec fn with_prop(o: OptionsModel, p: PropModel, at: usize) -> OptionsModel {
    match p {
        PropModel::Named { key, value } => {
            if key == "id"@ {
                match static_value(value) {
                    Some(t) => OptionsModel { id: Some(t), ..o },
                    None => OptionsModel { dynamic: first_dynamic(o.dynamic, at), ..o },
                }
            } else if key == "message"@ {
                match static_value(value) {
                    Some(t) => OptionsModel { message: Some(t), ..o },
                    None => OptionsModel { dynamic: first_dynamic(o.dynamic, at), ..o },
                }
            } else if key == "description"@ {
                match static_value(value) {
                    Some(t) => OptionsModel { description: Some(t), ..o },
                    None => OptionsModel { dynamic: first_dynamic(o.dynamic, at), ..o },
                }
            } else if key == "values"@ {
                OptionsModel { values: Some(value), ..o }
            } else if key == "formats"@ {
                OptionsModel { formats: Some(value), ..o }
            } else {
                o
            }
        },
        PropModel::Other => o,
    }
}

/// The options that the properties of an object literal give.
pub open spec fn options_of(props: Seq<PropModel>) -> OptionsModel
    decreases props.len(),
{
    if props.len() == 0 {
        no_options()
    } else {
        with_prop(options_of(props.drop_last()), props.last(), (props.len() - 1) as usize)
    }
}

/// Reads the options of a call from the properties of an object literal.
pub fn read_options(props: &Vec<Prop>) -> (o: Options)
    ensures
        o@ == options_of(props_model(props@)),
{
    let ghost all = props_model(props@);
    let mut o = Options {
        id: None,
        message: None,
        description: None,
        values: None,
        formats: None,
        dynamic: None,
    };
    let mut i: usize = 0;
    while i < props.len()
        invariant
            i <= props@.len(),
            all == props_model(props@),
            o@ == options_of(all.take(i as int)),
        decreases props@.len() - i,
    {
        assert(all.take(i + 1).drop_last() =~= all.take(i as int));
        assert(all.take(i + 1).last() == props@[i as int]@);
        match &props[i] {
            Prop::Named { key, value } => {
                if same_text(key.as_str(), "id") {
                    match extract_static_string(value) {
                        Some(t) => {
                            o.id = Some(t);
                        },
                        None => {
                            if o.dynamic.is_none() {
                                o.dynamic = Some(i);
                            }
                        },
                    }
                } else if same_text(key.as_str(), "message") {
                    match extract_static_string(value) {
                        Some(t) => {
                            o.message = Some(t);
                        },
                        None => {
                            if o.dynamic.is_none() {
                                o.dynamic = Some(i);
                            }
                        },
                    }
                } else if same_text(key.as_str(), "description") {
                    match extract_static_string(value) {
                        Some(t) => {
                            o.description = Some(t);
                        },
                        None => {
                            if o.dynamic.is_none() {
                                o.dynamic = Some(i);
                            }
                        },
                    }
                } else if same_text(key.as_str(), "values") {
                    o.values = Some(value.duplicate());
                } else if same_text(key.as_str(), "formats") {
                    o.formats = Some(value.duplicate());
                }
            },
            Prop::Other => {},
        }
        i = i + 1;
    }
    assert(all.take(i as int) =~= all);
    o
}

/// What the first argument of a translator call gives.
pub enum Reading {
    /// No argument, or an options object without a message: nothing to
    /// extract and nothing to report.
    Nothing,
    /// An expression that cannot be read statically.
    Dynamic(DynamicSite),
    /// A message with its options.
    Text {
        message: String,
        id: Option<String>,
        description: Option<String>,
        values: Option<Value>,
        formats: Option<Value>,
    },
}

/// What a [`Reading`] holds, as mathematical values.
pub enum ReadingModel {
    Nothing,
    Dynamic(DynamicSite),
    Text {
        message: Seq<char>,
        id: Option<Seq<char>>,
        description: Option<Seq<char>>,
        values: Option<ValueModel>,
        formats: Option<ValueModel>,
    },
}

impl View for Reading {
    type V = ReadingModel;

    open spec fn view(&self) -> ReadingModel {
        match self {
            Reading::Nothing => ReadingModel::Nothing,
            Reading::Dynamic(site) => ReadingModel::Dynamic(*site),
            Reading::Text { message, id, description, values, formats } => ReadingModel::Text {
                message: message@,
                id: opt_text(*id),
                description: opt_text(*description),
                values: opt_value(*values),
                formats: opt_value(*formats),
            },
        }
    }
}

/// What a set of options gives: the site of the first dynamic property
/// where there is one, else the message with its options where a message
/// is given, else nothing.
pub open spec fn reading_of_options(o: OptionsModel) -> ReadingModel {
    if o.dynamic is Some {
        ReadingModel::Dynamic(DynamicSite::Property(o.dynamic->0))
    } else if o.message is Some {
        ReadingModel::Text {
            message: o.message->0,
            id: o.id,
            description: o.description,
            values: o.values,
            formats: o.formats,
        }
    } else {
        ReadingModel::Nothing
    }
}

/// What the arguments of a translator call give. An object literal in
/// first place is read as options; any other first argument is the
/// message itself and must have static text.
pub open spec fn reading_of(args: Seq<ArgModel>) -> ReadingModel {
    if args.len() == 0 {
        ReadingModel::Nothing
    } else {
        match args[0].expr {
            ExprModel::Object(props) => reading_of_options(options_of(props)),
            e => match static_expr(e) {
                Some(t) => ReadingModel::Text {
                    message: t,
                    id: None,
                    description: None,
                    values: None,
                    formats: None,
                },
                None => ReadingModel::Dynamic(DynamicSite::Argument),
            },
        }
    }
}

/// Reads the message of a translator call from its arguments.
pub fn read_message(args: &Vec<Arg>) -> (r: Reading)
    ensures
        r@ == reading_of(args_model(args@)),
{
    if args.len() == 0 {
        return Reading::Nothing;
    }
    assert(args_model(args@)[0] == args@[0]@);
    match &args[0].expr {
        Expr::Object(props) => {
            let o = read_options(props);
            match o.dynamic {
                Some(at) => Reading::Dynamic(DynamicSite::Property(at)),
                None => match o.message {
                    Some(message) => Reading::Text {
                        message,
                        id: o.id,
                        description: o.description,
                        values: o.values,
                        formats: o.formats,
                    },
                    None => Reading::Nothing,
                },
            }
        },
        e => match read_static_expr(e) {
            Some(message) => Reading::Text {
                message,
                id: None,
                description: None,
                values: None,
                formats: None,
            },
            None => Reading::Dynamic(DynamicSite::Argument),
        },
    }
}

/// The key of a call: the identifier that its options give, else the key
/// derived from the message.
pub open spec fn call_key_of(id: Option<Seq<char>>, message: Seq<char>) -> Seq<char> {
    match id {
        Some(k) => k,
        None => key_of(message),
    }
}

/// The identifier under which a message is recorded: the key of the call,
/// behind the translator's namespace and a dot where it has a namespace.
pub open spec fn full_key_of(namespace: Option<Seq<char>>, key: Seq<char>) -> Seq<char> {
    match namespace {
        Some(n) => n + NAMESPACE_SEPARATOR@ + key,
        None => key,
    }
}

/// Computes the key of a call.
pub fn call_key(id: Option<String>, message: &String) -> (key: String)
    ensures
        key@ == call_key_of(opt_text(id), message@),
{
    match id {
        Some(k) => k,
        None => generate_key(message.as_str()),
    }
}

/// Computes the identifier under which a message is recorded.
pub fn full_key(namespace: &Option<String>, key: &String) -> (full: String)
    ensures
        full@ == full_key_of(opt_text(*namespace), key@),
{
    match namespace {
        Some(n) => {
            let mut full = n.clone();
            full.append(NAMESPACE_SEPARATOR);
            full.append(key.as_str());
            full
        },
        None => key.clone(),
    }
}

/// The arguments filled up with `undefined` to at least `n`.
pub open spec fn padded(args: Seq<ArgModel>, n: nat) -> Seq<ArgModel>
    decreases n - args.len(),
{
    if args.len() >= n {
        args
    } else {
        padded(args.push(plain_arg(ExprModel::Undefined)), n)
    }
}

/// The arguments with `e` in place `at`: in place of the expression that
/// stood there, or added behind the arguments, which are filled up with
/// `undefined` where they do not reach that far.
pub open spec fn with_expr_at(args: Seq<ArgModel>, at: nat, e: ExprModel) -> Seq<ArgModel> {
    let p = padded(args, at);
    if p.len() <= at {
        p.push(plain_arg(e))
    } else {
        p.update(at as int, ArgModel { spread: p[at as int].spread, expr: e })
    }
}

/// The arguments of a call after its message was replaced by `key`: the
/// key as a plain string literal in first place, then the `values` node in
/// second and the `formats` node in third place, as far as they are given.
pub open spec fn rewritten_args(
    args: Seq<ArgModel>,
    key: Seq<char>,
    values: Option<ValueModel>,
    formats: Option<ValueModel>,
) -> Seq<ArgModel> {
    let a0 = with_expr_at(args, 0, ExprModel::Str(plain_str(key)));
    let a1 = match values {
        Some(v) => with_expr_at(a0, 1, value_as_expr(v)),
        None => a0,
    };
    match formats {
        Some(f) => with_expr_at(a1, 2, value_as_expr(f)),
        None => a1,
    }
}

/// The arguments with the message text added as a fallback: behind at
/// least three arguments, as a plain string literal.
pub open spec fn with_fallback(args: Seq<ArgModel>, message: Seq<char>) -> Seq<ArgModel> {
    padded(args, 3).push(plain_arg(ExprModel::Str(plain_str(message))))
}

/// Padding keeps the arguments that are there and reaches the length
/// asked for.
pub proof fn padded_keeps(args: Seq<ArgModel>, n: nat)
    ensures
        padded(args, n).len() == if args.len() >= n {
            args.len()
        } else {
            n
        },
        forall|i: int| 0 <= i < args.len() ==> #[trigger] padded(args, n)[i] == args[i],
        forall|i: int|
            args.len() <= i < padded(args, n).len() ==> #[trigger] padded(args, n)[i] == plain_arg(
                ExprModel::Undefined,
            ),
    decreases n - args.len(),
{
    if args.len() < n {
        let next = args.push(plain_arg(ExprModel::Undefined));
        padded_keeps(next, n);
        assert forall|i: int| 0 <= i < args.len() implies #[trigger] padded(args, n)[i]
            == args[i] by {
            assert(next[i] == args[i]);
        }
        assert forall|i: int| args.len() <= i < padded(args, n).len() implies #[trigger] padded(
            args,
            n,
        )[i] == plain_arg(ExprModel::Undefined) by {
            if i == args.len() {
                assert(next[i] == plain_arg(ExprModel::Undefined));
            }
        }
    }
}

/// Fills the arguments up with `undefined` to at least `n`.
pub fn pad_args(args: &mut Vec<Arg>, n: usize)
    ensures
        args_model(final(args)@) == padded(args_model(old(args)@), n as nat),
{
    while args.len() < n
        invariant
            padded(args_model(args@), n as nat) == padded(args_model(old(args)@), n as nat),
        decreases n - args@.len(),
    {
        let ghost before = args_model(args@);
        args.push(Arg { spread: false, expr: Expr::Undefined });
        assert(args_model(args@) =~= before.push(plain_arg(ExprModel::Undefined)));
    }
}

/// Puts `e` in place `at` of the arguments.
pub fn put_expr(args: &mut Vec<Arg>, at: usize, e: Expr)
    ensures
        args_model(final(args)@) == with_expr_at(args_model(old(args)@), at as nat, e@),
{
    pad_args(args, at);
    let ghost p = args_model(args@);
    proof {
        padded_keeps(args_model(old(args)@), at as nat);
    }
    if args.len() <= at {
        args.push(Arg { spread: false, expr: e });
        assert(args_model(args@) =~= p.push(plain_arg(e@)));
    } else {
        let spread = args[at].spread;
        args.set(at, Arg { spread, expr: e });
        assert(args_model(args@) =~= p.update(
            at as int,
            ArgModel { spread: p[at as int].spread, expr: e@ },
        ));
    }
}

/// Replaces the message of a call by `key`, and moves the `values` and
/// `formats` nodes of its options into second and third place.
pub fn rewrite_args(args: &mut Vec<Arg>, key: String, values: Option<Value>, formats: Option<Value>)
    ensures
        args_model(final(args)@) == rewritten_args(
            args_model(old(args)@),
            key@,
            opt_value(values),
            opt_value(formats),
        ),
{
    put_expr(args, 0, Expr::Str(StrLit::plain(key)));
    match values {
        Some(v) => {
            put_expr(args, 1, v.into_expr());
        },
        None => {},
    }
    match formats {
        Some(f) => {
            put_expr(args, 2, f.into_expr());
        },
        None => {},
    }
}

/// Adds the message text as a fallback behind at least three arguments.
pub fn append_fallback(args: &mut Vec<Arg>, message: String)
    ensures
        args_model(final(args)@) == with_fallback(args_model(old(args)@), message@),
{
    pad_args(args, 3);
    let ghost p = args_model(args@);
    args.push(Arg { spread: false, expr: Expr::Str(StrLit::plain(message)) });
    assert(args_model(args@) =~= p.push(plain_arg(ExprModel::Str(plain_str(message@)))));
}

} // verus!
