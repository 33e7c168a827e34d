//! Reading the text of expressions whose value is known without running
//! the program: string literals, and template literals without
//! interpolation.

use crate::ast::{copy_opt_text, opt_text, Expr, ExprModel, Tpl, TplModel, Value, ValueModel};
use vstd::prelude::*;

verus! {

/// The text of a template literal that consists of one quasi and no
/// interpolation; none for any other template.
pub open spec fn static_tpl(t: TplModel) -> Option<Seq<char>> {
    if t.quasis.len() == 1 && t.exprs == 0 {
        t.quasis[0]
    } else {
        None
    }
}

/// The static text of a property value, if it has one.
pub open spec fn static_value(v: ValueModel) -> Option<Seq<char>> {
    match v {
        ValueModel::Str(s) => Some(s.value),
        ValueModel::Tpl(t) => static_tpl(t),
        ValueModel::Other(_) => None,
    }
}

/// The static text of an expression, if it has one.
pub open spec fn static_expr(e: ExprModel) -> Option<Seq<char>> {
    match e {
        ExprModel::Str(s) => Some(s.value),
        ExprModel::Tpl(t) => static_tpl(t),
        _ => None,
    }
}

/// Whether `s` and `t` hold the same text.
pub fn same_text(s: &str, t: &str) -> (r: bool)
    ensures
        r == (s@ == t@),
{
    let a = String::from_str(s);
    let b = String::from_str(t);
    a == b
}

/// Reads the static text of a template literal.
pub fn read_tpl(t: &Tpl) -> (r: Option<String>)
    ensures
        opt_text(r) == static_tpl(t@),
{
    if t.quasis.len() != 1 || t.exprs != 0 {
        return None;
    }
    assert(t.quasis.deep_view()[0] == t.quasis@[0].deep_view());
    copy_opt_text(&t.quasis[0])
}

/// Reads the static text of a property value.
pub fn extract_static_string(value: &Value) -> (r: Option<String>)
    ensures
        opt_text(r) == static_value(value@),
{
    match value {
        Value::Str(s) => Some(s.value.clone()),
        Value::Tpl(t) => read_tpl(t),
        Value::Other(_) => None,
    }
}

/// Reads the static text of an expression.
pub fn read_static_expr(expr: &Expr) -> (r: Option<String>)
    ensures
        opt_text(r) == static_expr(expr@),
{
    match expr {
        Expr::Str(s) => Some(s.value.clone()),
        Expr::Tpl(t) => read_tpl(t),
        _ => None,
    }
}

} // verus!
