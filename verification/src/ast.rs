//! Plain descriptions of the syntax nodes that extraction reads and
//! rewrites. A host turns its own nodes into these and back; an expression
//! that extraction never looks into is carried as a [`NodeId`], a handle
//! that only the host can resolve.

use vstd::prelude::*;

verus! {

/// A handle for a syntax node that is carried through unread.
pub type NodeId = u64;

/// An identifier as a name together with the tag of its lexical context.
pub type Id = (Seq<char>, u32);

/// The text of an optional string.
pub open spec fn opt_text(s: Option<String>) -> Option<Seq<char>> {
    match s {
        Some(t) => Some(t@),
        None => None,
    }
}

/// An identifier: its name, and the tag that tells apart bindings of the
/// same name in different scopes.
#[derive(Debug, Clone, PartialEq, Eq)]
pub struct Ident {
    pub sym: String,
    pub ctxt: u32,
}

impl View for Ident {
    type V = Id;

    open spec fn view(&self) -> Id {
        (self.sym@, self.ctxt)
    }
}

/// A string literal: its value, and the source text that backs it, if any.
#[derive(Debug, Clone, PartialEq, Eq)]
pub struct StrLit {
    pub value: String,
    pub raw: Option<String>,
}

/// What a [`StrLit`] holds, as mathematical values.
pub struct StrLitModel {
    pub value: Seq<char>,
    pub raw: Option<Seq<char>>,
}

impl View for StrLit {
    type V = StrLitModel;

    open spec fn view(&self) -> StrLitModel {
        StrLitModel { value: self.value@, raw: opt_text(self.raw) }
    }
}

/// The literal with value `value` and no source text behind it.
pub open spec fn plain_str(value: Seq<char>) -> StrLitModel {
    StrLitModel { value, raw: None }
}

/// A template literal: the cooked text of each quasi (absent where the
/// quasi has an invalid escape), and the number of interpolations.
#[derive(Debug, Clone, PartialEq, Eq)]
pub struct Tpl {
    pub quasis: Vec<Option<String>>,
    pub exprs: usize,
}

/// What a [`Tpl`] holds, as mathematical values.
pub struct TplModel {
    pub quasis: Seq<Option<Seq<char>>>,
    pub exprs: nat,
}

impl View for Tpl {
    type V = TplModel;

    open spec fn view(&self) -> TplModel {
        TplModel { quasis: self.quasis.deep_view(), exprs: self.exprs as nat }
    }
}

/// The value of an object property, or an argument of a nested call.
#[derive(Debug, Clone, PartialEq, Eq)]
pub enum Value {
    Str(StrLit),
    Tpl(Tpl),
    Other(NodeId),
}

/// What a [`Value`] holds, as mathematical values.
pub enum ValueModel {
    Str(StrLitModel),
    Tpl(TplModel),
    Other(NodeId),
}

impl View for Value {
    type V = ValueModel;

    open spec fn view(&self) -> ValueModel {
        match self {
            Value::Str(s) => ValueModel::Str(s@),
            Value::Tpl(t) => ValueModel::Tpl(t@),
            Value::Other(n) => ValueModel::Other(*n),
        }
    }
}

/// A member of an object literal: a key-value property whose key is an
/// identifier, or anything else (spread, shorthand, method, computed or
/// quoted key).
#[derive(Debug, Clone, PartialEq, Eq)]
pub enum Prop {
    Named { key: String, value: Value },
    Other,
}

/// What a [`Prop`] holds, as mathematical values.
pub enum PropModel {
    Named { key: Seq<char>, value: ValueModel },
    Other,
}

impl View for Prop {
    type V = PropModel;

    open spec fn view(&self) -> PropModel {
        match self {
            Prop::Named { key, value } => PropModel::Named { key: key@, value: value@ },
            Prop::Other => PropModel::Other,
        }
    }
}

/// The models of a list of values.
pub open spec fn values_model(values: Seq<Value>) -> Seq<ValueModel> {
    values.map_values(|v: Value| v@)
}

/// The models of a list of properties.
pub open spec fn props_model(props: Seq<Prop>) -> Seq<PropModel> {
    props.map_values(|p: Prop| p@)
}

/// The body of an arrow function: a call of `import` with its arguments,
/// or anything else.
#[derive(Debug, Clone, PartialEq, Eq)]
pub enum ArrowBody {
    Import(Vec<Value>),
    Other(NodeId),
}

/// What an [`ArrowBody`] holds, as mathematical values.
pub enum ArrowBodyModel {
    Import(Seq<ValueModel>),
    Other(NodeId),
}

impl View for ArrowBody {
    type V = ArrowBodyModel;

    open spec fn view(&self) -> ArrowBodyModel {
        match self {
            ArrowBody::Import(args) => ArrowBodyModel::Import(values_model(args@)),
            ArrowBody::Other(n) => ArrowBodyModel::Other(*n),
        }
    }
}

/// An expression in argument position.
#[derive(Debug, Clone, PartialEq, Eq)]
pub enum Expr {
    Str(StrLit),
    Tpl(Tpl),
    Object(Vec<Prop>),
    Arrow(ArrowBody),
    /// An expression that evaluates to `undefined`, as the rewrite writes
    /// it to fill a gap.
    Undefined,
    Other(NodeId),
}

/// What an [`Expr`] holds, as mathematical values.
pub enum ExprModel {
    Str(StrLitModel),
    Tpl(TplModel),
    Object(Seq<PropModel>),
    Arrow(ArrowBodyModel),
    Undefined,
    Other(NodeId),
}

impl View for Expr {
    type V = ExprModel;

    open spec fn view(&self) -> ExprModel {
        match self {
            Expr::Str(s) => ExprModel::Str(s@),
            Expr::Tpl(t) => ExprModel::Tpl(t@),
            Expr::Object(props) => ExprModel::Object(props_model(props@)),
            Expr::Arrow(body) => ExprModel::Arrow(body@),
            Expr::Undefined => ExprModel::Undefined,
            Expr::Other(n) => ExprModel::Other(*n),
        }
    }
}

/// The expression that stands for a property value moved into argument
/// position.
pub open spec fn value_as_expr(v: ValueModel) -> ExprModel {
    match v {
        ValueModel::Str(s) => ExprModel::Str(s),
        ValueModel::Tpl(t) => ExprModel::Tpl(t),
        ValueModel::Other(n) => ExprModel::Other(n),
    }
}

/// One argument of a call.
#[derive(Debug, Clone, PartialEq, Eq)]
pub struct Arg {
    pub spread: bool,
    pub expr: Expr,
}

/// What an [`Arg`] holds, as mathematical values.
pub struct ArgModel {
    pub spread: bool,
    pub expr: ExprModel,
}

impl View for Arg {
    type V = ArgModel;

    open spec fn view(&self) -> ArgModel {
        ArgModel { spread: self.spread, expr: self.expr@ }
    }
}

/// The argument that holds `expr` and is not spread.
pub open spec fn plain_arg(expr: ExprModel) -> ArgModel {
    ArgModel { spread: false, expr }
}

/// The models of a list of arguments.
pub open spec fn args_model(args: Seq<Arg>) -> Seq<ArgModel> {
    args.map_values(|a: Arg| a@)
}

/// What is called: an identifier, a member `obj.prop` of an identifier
/// with a plain property name, `import`, or anything else.
#[derive(Debug, Clone, PartialEq, Eq)]
pub enum Callee {
    Ident(Ident),
    Member { obj: Ident, prop: String },
    Import,
    Other(NodeId),
}

/// What a [`Callee`] holds, as mathematical values.
pub enum CalleeModel {
    Ident(Id),
    Member { obj: Id, prop: Seq<char> },
    Import,
    Other(NodeId),
}

impl View for Callee {
    type V = CalleeModel;

    open spec fn view(&self) -> CalleeModel {
        match self {
            Callee::Ident(i) => CalleeModel::Ident(i@),
            Callee::Member { obj, prop } => CalleeModel::Member { obj: obj@, prop: prop@ },
            Callee::Import => CalleeModel::Import,
            Callee::Other(n) => CalleeModel::Other(*n),
        }
    }
}

/// A call expression, with the line and column where it starts, where
/// the host knows them.
#[derive(Debug, Clone, PartialEq, Eq)]
pub struct CallExpr {
    pub callee: Callee,
    pub args: Vec<Arg>,
    pub line: Option<u32>,
    pub column: Option<u32>,
}

/// What a [`CallExpr`] holds, as mathematical values.
pub struct CallModel {
    pub callee: CalleeModel,
    pub args: Seq<ArgModel>,
    pub line: Option<u32>,
    pub column: Option<u32>,
}

impl View for CallExpr {
    type V = CallModel;

    open spec fn view(&self) -> CallModel {
        CallModel {
            callee: self.callee@,
            args: args_model(self.args@),
            line: self.line,
            column: self.column,
        }
    }
}

/// The pattern that a declarator binds: one identifier, or anything else.
#[derive(Debug, Clone, PartialEq, Eq)]
pub enum Pat {
    Ident(Ident),
    Other(NodeId),
}

/// What a [`Pat`] holds, as mathematical values.
pub enum PatModel {
    Ident(Id),
    Other(NodeId),
}

impl View for Pat {
    type V = PatModel;

    open spec fn view(&self) -> PatModel {
        match self {
            Pat::Ident(i) => PatModel::Ident(i@),
            Pat::Other(n) => PatModel::Other(*n),
        }
    }
}

/// The initialiser of a declarator: a call, an awaited call, or anything
/// else.
#[derive(Debug, Clone, PartialEq, Eq)]
pub enum Init {
    Call(CallExpr),
    AwaitCall(CallExpr),
    Other(NodeId),
}

/// What an [`Init`] holds, as mathematical values.
pub enum InitModel {
    Call(CallModel),
    AwaitCall(CallModel),
    Other(NodeId),
}

impl View for Init {
    type V = InitModel;

    open spec fn view(&self) -> InitModel {
        match self {
            Init::Call(c) => InitModel::Call(c@),
            Init::AwaitCall(c) => InitModel::AwaitCall(c@),
            Init::Other(n) => InitModel::Other(*n),
        }
    }
}

/// One declarator of a `const`, `let` or `var` declaration.
#[derive(Debug, Clone, PartialEq, Eq)]
pub struct VarDeclarator {
    pub name: Pat,
    pub init: Option<Init>,
}

/// What a [`VarDeclarator`] holds, as mathematical values.
pub struct VarDeclaratorModel {
    pub name: PatModel,
    pub init: Option<InitModel>,
}

/// The model of an optional initialiser.
pub open spec fn opt_init(init: Option<Init>) -> Option<InitModel> {
    match init {
        Some(i) => Some(i@),
        None => None,
    }
}

impl View for VarDeclarator {
    type V = VarDeclaratorModel;

    open spec fn view(&self) -> VarDeclaratorModel {
        VarDeclaratorModel { name: self.name@, init: opt_init(self.init) }
    }
}

/// The name under which a module exports a binding: an identifier or a
/// string.
#[derive(Debug, Clone, PartialEq, Eq)]
pub enum ModuleExportName {
    Ident(String),
    Str(String),
}

/// What a [`ModuleExportName`] holds, as mathematical values.
pub enum ModuleExportNameModel {
    Ident(Seq<char>),
    Str(Seq<char>),
}

impl View for ModuleExportName {
    type V = ModuleExportNameModel;

    open spec fn view(&self) -> ModuleExportNameModel {
        match self {
            ModuleExportName::Ident(n) => ModuleExportNameModel::Ident(n@),
            ModuleExportName::Str(n) => ModuleExportNameModel::Str(n@),
        }
    }
}

/// The model of an optional export name.
pub open spec fn opt_export_name(n: Option<ModuleExportName>) -> Option<ModuleExportNameModel> {
    match n {
        Some(x) => Some(x@),
        None => None,
    }
}

/// One specifier of an import declaration.
#[derive(Debug, Clone, PartialEq, Eq)]
pub enum ImportSpecifier {
    /// `{imported as local}`, or `{local}` where `imported` is absent.
    Named { local: Ident, imported: Option<ModuleExportName> },
    /// `local`
    Default { local: Ident },
    /// `* as local`
    Namespace { local: Ident },
}

/// What an [`ImportSpecifier`] holds, as mathematical values.
pub enum ImportSpecifierModel {
    Named { local: Id, imported: Option<ModuleExportNameModel> },
    Default { local: Id },
    Namespace { local: Id },
}

impl View for ImportSpecifier {
    type V = ImportSpecifierModel;

    open spec fn view(&self) -> ImportSpecifierModel {
        match self {
            ImportSpecifier::Named { local, imported } => ImportSpecifierModel::Named {
                local: local@,
                imported: opt_export_name(*imported),
            },
            ImportSpecifier::Default { local } => ImportSpecifierModel::Default { local: local@ },
            ImportSpecifier::Namespace { local } => ImportSpecifierModel::Namespace {
                local: local@,
            },
        }
    }
}

/// The models of a list of import specifiers.
pub open spec fn specifiers_model(specs: Seq<ImportSpecifier>) -> Seq<ImportSpecifierModel> {
    specs.map_values(|s: ImportSpecifier| s@)
}

/// An import declaration.
#[derive(Debug, Clone, PartialEq, Eq)]
pub struct ImportDecl {
    pub src: String,
    pub specifiers: Vec<ImportSpecifier>,
}

/// What an [`ImportDecl`] holds, as mathematical values.
pub struct ImportDeclModel {
    pub src: Seq<char>,
    pub specifiers: Seq<ImportSpecifierModel>,
}

impl View for ImportDecl {
    type V = ImportDeclModel;

    open spec fn view(&self) -> ImportDeclModel {
        ImportDeclModel { src: self.src@, specifiers: specifiers_model(self.specifiers@) }
    }
}

/// One item of a module body.
#[derive(Debug, Clone, PartialEq, Eq)]
pub enum ModuleItem {
    Import(ImportDecl),
    /// An export declaration that names the module it exports from.
    ExportFrom(String),
    /// An expression statement that consists of a string literal.
    StrStmt(String),
    Other(NodeId),
}

/// What a [`ModuleItem`] holds, as mathematical values.
pub enum ModuleItemModel {
    Import(ImportDeclModel),
    ExportFrom(Seq<char>),
    StrStmt(Seq<char>),
    Other(NodeId),
}

impl View for ModuleItem {
    type V = ModuleItemModel;

    open spec fn view(&self) -> ModuleItemModel {
        match self {
            ModuleItem::Import(d) => ModuleItemModel::Import(d@),
            ModuleItem::ExportFrom(s) => ModuleItemModel::ExportFrom(s@),
            ModuleItem::StrStmt(s) => ModuleItemModel::StrStmt(s@),
            ModuleItem::Other(n) => ModuleItemModel::Other(*n),
        }
    }
}

/// The models of a list of module items.
pub open spec fn items_model(items: Seq<ModuleItem>) -> Seq<ModuleItemModel> {
    items.map_values(|i: ModuleItem| i@)
}

/// The top level of a module.
#[derive(Debug, Clone, PartialEq, Eq)]
pub struct Module {
    pub body: Vec<ModuleItem>,
}

impl View for Module {
    type V = Seq<ModuleItemModel>;

    open spec fn view(&self) -> Seq<ModuleItemModel> {
        items_model(self.body@)
    }
}

/// A copy of an optional string.
pub fn copy_opt_text(s: &Option<String>) -> (r: Option<String>)
    ensures
        opt_text(r) == opt_text(*s),
{
    match s {
        Some(t) => Some(t.clone()),
        None => None,
    }
}

impl StrLit {
    /// A literal with value `value` and no source text behind it.
    pub fn plain(value: String) -> (r: StrLit)
        ensures
            r@ == plain_str(value@),
    {
        StrLit { value, raw: None }
    }

    /// A copy of the literal.
    pub fn duplicate(&self) -> (r: StrLit)
        ensures
            r@ == self@,
    {
        StrLit { value: self.value.clone(), raw: copy_opt_text(&self.raw) }
    }
}

impl Tpl {
    /// A copy of the template.
    pub fn duplicate(&self) -> (r: Tpl)
        ensures
            r@ == self@,
    {
        let mut quasis: Vec<Option<String>> = Vec::new();
        let mut i: usize = 0;
        while i < self.quasis.len()
            invariant
                i <= self.quasis@.len(),
                quasis@.len() == i,
                forall|j: int| 0 <= j < i ==> opt_text(#[trigger] quasis@[j]) == opt_text(self.quasis@[j]),
            decreases self.quasis@.len() - i,
        {
            quasis.push(copy_opt_text(&self.quasis[i]));
            i = i + 1;
        }
        let r = Tpl { quasis, exprs: self.exprs };
        assert(r.quasis.deep_view() =~= self.quasis.deep_view()) by {
            assert forall|j: int| 0 <= j < r.quasis@.len() implies r.quasis.deep_view()[j]
                == self.quasis.deep_view()[j] by {
                assert(opt_text(r.quasis@[j]) == opt_text(self.quasis@[j]));
            }
        }
        r
    }
}

impl Value {
    /// A copy of the value.
    pub fn duplicate(&self) -> (r: Value)
        ensures
            r@ == self@,
    {
        match self {
            Value::Str(s) => Value::Str(s.duplicate()),
            Value::Tpl(t) => Value::Tpl(t.duplicate()),
            Value::Other(n) => Value::Other(*n),
        }
    }

    /// The expression that stands for the value in argument position.
    pub fn into_expr(self) -> (r: Expr)
        ensures
            r@ == value_as_expr(self@),
    {
        match self {
            Value::Str(s) => Expr::Str(s),
            Value::Tpl(t) => Expr::Tpl(t),
            Value::Other(n) => Expr::Other(n),
        }
    }
}

} // verus!
