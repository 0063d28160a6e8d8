//! The key resolver: which name to look up, from an explicit argument or from the
//! name that a declaration gives.

use vstd::prelude::*;
use vstd::string::*;
use crate::error::ErrorKind;
use crate::syntax::{
    parse_expr, parse_str_literal, parsed_expr, str_literal, ExprForm, ExprFormView, StrLiteral,
};

verus! {

/// The key that a literal token denotes, given what it parsed to as a string
/// literal: the decoded string, or a resolution error where it is no string literal.
pub open spec fn literal_key(tokens: Seq<char>) -> Result<Seq<char>, ErrorKind> {
    match str_literal(tokens) {
        Some(lit) => Ok(lit.value),
        None => Err(ErrorKind::Resolution),
    }
}

/// The key that the argument `text` denotes when at most `layers` pairs of redundant
/// parentheses are opened: a plain string literal gives its decoded value, a
/// parenthesized argument gives what its inside gives, and any other text is a
/// resolution error.
pub open spec fn key_within(text: Seq<char>, layers: nat) -> Result<Seq<char>, ErrorKind>
    decreases layers,
{
    match parsed_expr(text) {
        Some(e) => match e.form {
            ExprFormView::Literal { tokens } => literal_key(tokens),
            ExprFormView::Paren { inner } => if layers > 0 {
                key_within(inner, (layers - 1) as nat)
            } else {
                Err(ErrorKind::Resolution)
            },
            _ => Err(ErrorKind::Resolution),
        },
        None => Err(ErrorKind::Resolution),
    }
}

/// The key that the argument `text` denotes, through the pairs of redundant
/// parentheses that enclose it. As many pairs are opened as the text has characters,
/// which is more than any text can hold.
pub open spec fn explicit_key(text: Seq<char>) -> Result<Seq<char>, ErrorKind> {
    key_within(text, text.len())
}

/// The key to look up: the explicit argument resolved where there is one, the
/// default name as it stands where there is none.
pub open spec fn resolve_spec(explicit_arg: Option<Seq<char>>, default_name: Seq<char>) -> Result<
    Seq<char>,
    ErrorKind,
> {
    match explicit_arg {
        Some(text) => explicit_key(text),
        None => Ok(default_name),
    }
}

/// The key that the decorator's argument `attr` asks for: the default name where
/// the argument is empty, the key that the argument denotes otherwise.
pub open spec fn var_name_spec(attr: Seq<char>, default_name: Seq<char>) -> Result<
    Seq<char>,
    ErrorKind,
> {
    if attr.len() == 0 {
        Ok(default_name)
    } else {
        explicit_key(attr)
    }
}

/// A resolved key, or its error, with the key as a sequence of characters.
pub open spec fn key_result(r: Result<String, ErrorKind>) -> Result<Seq<char>, ErrorKind> {
    match r {
        Ok(key) => Ok(key@),
        Err(e) => Err(e),
    }
}

/// The key that a literal token denotes, given what it parsed to as a string literal.
pub fn key_of_literal(literal: Option<StrLiteral>) -> (r: Result<String, ErrorKind>)
    ensures
        key_result(r) == (match literal.deep_view() {
            Some(lit) => Ok(lit.value),
            None => Err(ErrorKind::Resolution),
        }),
{
    match literal {
        Some(lit) => Ok(lit.value),
        None => Err(ErrorKind::Resolution),
    }
}

/// Resolves the key that the argument expression `expr` denotes: a plain string
/// literal, within any number of pairs of redundant parentheses.
pub fn extract_var_name_from_expr(expr: &str) -> (r: Result<String, ErrorKind>)
    ensures
        key_result(r) == explicit_key(expr@),
{
    let mut current = String::from_str(expr);
    let mut layers: usize = expr.unicode_len();
    loop
        invariant
            key_within(current@, layers as nat) == explicit_key(expr@),
        decreases layers,
    {
        match parse_expr(current.as_str()) {
            Some(parsed) => match parsed.form {
                ExprForm::Literal { tokens } => {
                    return key_of_literal(parse_str_literal(tokens.as_str()));
                },
                ExprForm::Paren { inner } => {
                    if layers == 0 {
                        return Err(ErrorKind::Resolution);
                    }
                    layers = layers - 1;
                    current = inner;
                },
                _ => {
                    return Err(ErrorKind::Resolution);
                },
            },
            None => {
                return Err(ErrorKind::Resolution);
            },
        }
    }
}

/// Resolves the key of the decorator: `default` where `attr` is empty, the key that
/// `attr` denotes otherwise.
pub fn extract_var_name(attr: &str, default: String) -> (r: Result<String, ErrorKind>)
    ensures
        key_result(r) == var_name_spec(attr@, default@),
{
    if attr.is_empty() {
        Ok(default)
    } else {
        extract_var_name_from_expr(attr)
    }
}

/// Resolves the key to look up from an optional explicit argument and a default name.
pub fn resolve(explicit_arg: Option<&str>, default_name: String) -> (r: Result<String, ErrorKind>)
    ensures
        key_result(r) == resolve_spec(
            match explicit_arg {
                Some(text) => Some(text@),
                None => None,
            },
            default_name@,
        ),
{
    match explicit_arg {
        Some(text) => extract_var_name_from_expr(text),
        None => Ok(default_name),
    }
}

} // verus!
