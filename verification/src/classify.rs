//! The category classifier: from the text of a reference expression to the literal
//! category that it establishes.

use vstd::prelude::*;
use vstd::string::*;
use crate::category::{Category, ReferenceLiteral};
use crate::error::ErrorKind;
use crate::syntax::{
    int_suffix, literal_kind, parse_expr, parse_int_suffix, parse_literal_kind, parsed_expr,
    ExprForm, ExprFormView, LiteralKind, ParsedExpr, ParsedExprView,
};

verus! {

/// Whether `suffix` marks a number as floating-point.
pub open spec fn is_float_suffix(suffix: Seq<char>) -> bool {
    suffix == "f16"@ || suffix == "f32"@ || suffix == "f64"@ || suffix == "f128"@
}

/// Whether a number written without point or exponent is floating-point all the
/// same, by the suffix it carries; `None` stands for no suffix read.
pub open spec fn has_float_suffix(suffix: Option<Seq<char>>) -> bool {
    suffix matches Some(s) && is_float_suffix(s)
}

/// The category of a literal of the given kind, a number written with digits alone
/// carrying the given suffix; `None` as the kind stands for a literal token that was
/// not recognized at all.
pub open spec fn literal_category(kind: Option<LiteralKind>, suffix: Option<Seq<char>>) -> Result<
    Category,
    ErrorKind,
> {
    match kind {
        Some(LiteralKind::Str) => Ok(Category::String),
        Some(LiteralKind::ByteStr) => Ok(Category::ByteString),
        Some(LiteralKind::Char) => Ok(Category::Char),
        Some(LiteralKind::Byte) => Ok(Category::Byte),
        Some(LiteralKind::Bool) => Ok(Category::Bool),
        Some(LiteralKind::Int) => if has_float_suffix(suffix) {
            Ok(Category::Float)
        } else {
            Ok(Category::Integer)
        },
        Some(LiteralKind::Float) => Ok(Category::Float),
        _ => Err(ErrorKind::UnsupportedLiteralKind),
    }
}

/// The category of the literal token `tokens`.
pub open spec fn token_category(tokens: Seq<char>) -> Result<Category, ErrorKind> {
    literal_category(literal_kind(tokens), int_suffix(tokens))
}

/// Whether `op` is the minus sign and nothing else.
pub open spec fn is_minus(op: Seq<char>) -> bool {
    op.len() == 1 && op[0] == '-'
}

/// Whether an operand, parsed as an expression, is a literal.
pub open spec fn is_literal(operand: Option<ParsedExprView>) -> bool {
    operand matches Some(e) && e.form is Literal
}

/// The category of the operator `op` applied to `operand`: a negated literal, or
/// nothing that is supported.
pub open spec fn unary_category(op: Seq<char>, operand: Option<ParsedExprView>) -> Result<
    Category,
    ErrorKind,
> {
    if is_minus(op) && is_literal(operand) {
        Ok(Category::NegatedNumeric)
    } else {
        Err(ErrorKind::Classification)
    }
}

/// The template of a category that records no number of elements.
pub open spec fn plain_template(category: Result<Category, ErrorKind>) -> Result<
    ReferenceLiteral,
    ErrorKind,
> {
    match category {
        Ok(category) => Ok(ReferenceLiteral::plain(category)),
        Err(kind) => Err(kind),
    }
}

/// The shape template that the reference expression `text` establishes.
///
/// A literal has the category of its kind, a number being floating-point where it is
/// written or suffixed as one; a bracketed sequence is an array, of as
/// many elements as it lists; a literal with named fields is an aggregate; a minus
/// sign before a literal is a negated numeric. Everything else, text that is no
/// expression included, is unsupported.
pub open spec fn classify_spec(text: Seq<char>) -> Result<ReferenceLiteral, ErrorKind> {
    match parsed_expr(text) {
        Some(e) => match e.form {
            ExprFormView::Literal { tokens } => plain_template(token_category(tokens)),
            ExprFormView::Array { elements } => Ok(ReferenceLiteral::array(elements)),
            ExprFormView::Aggregate => Ok(ReferenceLiteral::plain(Category::Aggregate)),
            ExprFormView::Unary { op, operand } => plain_template(
                unary_category(op, parsed_expr(operand)),
            ),
            _ => Err(ErrorKind::Classification),
        },
        None => Err(ErrorKind::Classification),
    }
}

/// Tells whether a suffix marks a number as floating-point.
pub fn float_suffix(suffix: &Option<String>) -> (r: bool)
    ensures
        r == has_float_suffix(suffix.deep_view()),
{
    match suffix {
        Some(s) => {
            *s == String::from_str("f16") || *s == String::from_str("f32") || *s
                == String::from_str("f64") || *s == String::from_str("f128")
        },
        None => false,
    }
}

/// The category of a literal of the given kind and suffix.
pub fn classify_literal(kind: Option<LiteralKind>, suffix: &Option<String>) -> (r: Result<
    Category,
    ErrorKind,
>)
    ensures
        r == literal_category(kind, suffix.deep_view()),
{
    match kind {
        Some(LiteralKind::Str) => Ok(Category::String),
        Some(LiteralKind::ByteStr) => Ok(Category::ByteString),
        Some(LiteralKind::Char) => Ok(Category::Char),
        Some(LiteralKind::Byte) => Ok(Category::Byte),
        Some(LiteralKind::Bool) => Ok(Category::Bool),
        Some(LiteralKind::Int) => if float_suffix(suffix) {
            Ok(Category::Float)
        } else {
            Ok(Category::Integer)
        },
        Some(LiteralKind::Float) => Ok(Category::Float),
        _ => Err(ErrorKind::UnsupportedLiteralKind),
    }
}

/// The category of the literal token `tokens`.
pub fn classify_token(tokens: &str) -> (r: Result<Category, ErrorKind>)
    ensures
        r == token_category(tokens@),
{
    let kind = parse_literal_kind(tokens);
    let suffix = parse_int_suffix(tokens);
    classify_literal(kind, &suffix)
}

/// The category of a unary operator applied to an operand, given what the operand
/// parsed to.
pub fn classify_unary(op: &str, operand: &Option<ParsedExpr>) -> (r: Result<Category, ErrorKind>)
    ensures
        r == unary_category(op@, operand.deep_view()),
{
    let minus = op.unicode_len() == 1 && op.get_char(0) == '-';
    let literal = match operand {
        Some(ParsedExpr { form: ExprForm::Literal { .. }, .. }) => true,
        _ => false,
    };
    if minus && literal {
        Ok(Category::NegatedNumeric)
    } else {
        Err(ErrorKind::Classification)
    }
}

/// The category of a number, and nothing for any other category or for an error.
pub open spec fn numeric(category: Result<Category, ErrorKind>) -> Option<Category> {
    match category {
        Ok(category) => if category.is_numeric() {
            Some(category)
        } else {
            None
        },
        Err(_) => None,
    }
}

/// The category of the number that an expression is, where it is one literal that
/// is an integer or a floating-point number.
pub open spec fn literal_number(expr: Option<ParsedExprView>) -> Option<Category> {
    match expr {
        Some(e) => match e.form {
            ExprFormView::Literal { tokens } => numeric(token_category(tokens)),
            _ => None,
        },
        None => None,
    }
}

/// The category of the number that `text` is: that of a numeric literal that stands
/// alone or under one minus sign, spaces around the sign allowed as the parser
/// allows them. Any other text is no number.
pub open spec fn number_spec(text: Seq<char>) -> Option<Category> {
    match parsed_expr(text) {
        Some(e) => match e.form {
            ExprFormView::Unary { op, operand } => if is_minus(op) {
                literal_number(parsed_expr(operand))
            } else {
                None
            },
            _ => literal_number(Some(e)),
        },
        None => None,
    }
}

/// Whether `text` is a literal of the kind that `category` declares.
///
/// For a quoted category, a boolean, an array and an aggregate, the text has to
/// classify as that very category. An integer has to be an integer literal, signed or
/// not, and a floating-point number likewise. A negated numeric may be any number,
/// signed or not: the replacement supplies its own sign.
pub open spec fn is_of_kind(category: Category, text: Seq<char>) -> bool {
    match category {
        Category::Integer | Category::Float => number_spec(text) == Some(category),
        Category::NegatedNumeric => number_spec(text) is Some,
        _ => classify_spec(text) matches Ok(template) && template.category == category,
    }
}

/// Text of the kind that a category declares classifies as that category, or as the
/// one that differs from it by the sign alone.
pub proof fn kind_is_kept(category: Category, text: Seq<char>)
    ensures
        is_of_kind(category, text) ==> (classify_spec(text) matches Ok(template)
            && category.keeps_kind(template.category)),
{
}

/// Tells the category of the number that an expression is, given what it parsed to.
pub fn number_of_literal(expr: &Option<ParsedExpr>) -> (r: Option<Category>)
    ensures
        r == literal_number(expr.deep_view()),
{
    match expr {
        Some(ParsedExpr { form: ExprForm::Literal { tokens }, .. }) => match classify_token(
            tokens.as_str(),
        ) {
            Ok(Category::Integer) => Some(Category::Integer),
            Ok(Category::Float) => Some(Category::Float),
            _ => None,
        },
        _ => None,
    }
}

/// Tells the category of the number that `text` is.
pub fn number(text: &str) -> (r: Option<Category>)
    ensures
        r == number_spec(text@),
{
    let expr = parse_expr(text);
    match &expr {
        Some(ParsedExpr { form: ExprForm::Unary { op, operand }, .. }) => {
            if op.unicode_len() == 1 && op.get_char(0) == '-' {
                let inner = parse_expr(operand.as_str());
                number_of_literal(&inner)
            } else {
                None
            }
        },
        _ => number_of_literal(&expr),
    }
}

/// Tells whether `text` is a literal of the kind that `category` declares.
pub fn of_kind(category: Category, text: &str) -> (r: bool)
    ensures
        r == is_of_kind(category, text@),
        r ==> (classify_spec(text@) matches Ok(template) && category.keeps_kind(
            template.category,
        )),
{
    match category {
        Category::Integer => match number(text) {
            Some(Category::Integer) => true,
            _ => false,
        },
        Category::Float => match number(text) {
            Some(Category::Float) => true,
            _ => false,
        },
        Category::NegatedNumeric => number(text).is_some(),
        _ => match classify(text) {
            Ok(template) => template.category == category,
            Err(_) => false,
        },
    }
}

/// Makes the template of a category that records no number of elements.
pub fn plain(category: Result<Category, ErrorKind>) -> (r: Result<ReferenceLiteral, ErrorKind>)
    ensures
        r == plain_template(category),
{
    match category {
        Ok(category) => Ok(ReferenceLiteral { category, arity: None }),
        Err(kind) => Err(kind),
    }
}

/// Determines the shape template of the reference expression `reference`.
pub fn classify(reference: &str) -> (r: Result<ReferenceLiteral, ErrorKind>)
    ensures
        r == classify_spec(reference@),
        r matches Ok(template) ==> template.well_formed(),
{
    match parse_expr(reference) {
        Some(expr) => match &expr.form {
            ExprForm::Literal { tokens } => plain(classify_token(tokens.as_str())),
            ExprForm::Array { elements } => Ok(
                ReferenceLiteral { category: Category::Array, arity: Some(*elements) },
            ),
            ExprForm::Aggregate => Ok(ReferenceLiteral { category: Category::Aggregate, arity: None }),
            ExprForm::Unary { op, operand } => {
                let inner = parse_expr(operand.as_str());
                plain(classify_unary(op.as_str(), &inner))
            },
            _ => Err(ErrorKind::Classification),
        },
        None => Err(ErrorKind::Classification),
    }
}

} // verus!
