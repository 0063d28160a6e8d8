//! The boundary to the parser: what the library reads of an expression, a literal or
//! a declaration, as plain values, and the calls that obtain them from token text.
//!
//! Every function here that is marked `external_body` is believed, not proved.

use vstd::prelude::*;
use quote::ToTokens;
use syn::{Expr, Lit};

verus! {

/// The kinds of literal token that the parser tells apart.
#[derive(Clone, Copy, Debug, PartialEq, Eq, Structural)]
pub enum LiteralKind {
    Str,
    ByteStr,
    CStr,
    Byte,
    Char,
    Int,
    Float,
    Bool,
    Verbatim,
    Unknown,
}

/// The outermost form of an expression. Parts are held as token text.
#[derive(Clone, Debug)]
pub enum ExprForm {
    /// A literal; `tokens` is the literal token alone.
    Literal { tokens: String },
    /// A bracketed sequence of `elements` expressions.
    Array { elements: usize },
    /// A literal with named fields.
    Aggregate,
    /// The unary operator `op` applied to `operand`.
    Unary { op: String, operand: String },
    /// `inner` within one pair of parentheses.
    Paren { inner: String },
    /// Any other expression.
    Other,
}

/// `ExprForm` with its texts as sequences of characters.
pub enum ExprFormView {
    Literal { tokens: Seq<char> },
    Array { elements: usize },
    Aggregate,
    Unary { op: Seq<char>, operand: Seq<char> },
    Paren { inner: Seq<char> },
    Other,
}

impl DeepView for ExprForm {
    type V = ExprFormView;

    open spec fn deep_view(&self) -> ExprFormView {
        match *self {
            ExprForm::Literal { tokens } => ExprFormView::Literal { tokens: tokens@ },
            ExprForm::Array { elements } => ExprFormView::Array { elements },
            ExprForm::Aggregate => ExprFormView::Aggregate,
            ExprForm::Unary { op, operand } => ExprFormView::Unary { op: op@, operand: operand@ },
            ExprForm::Paren { inner } => ExprFormView::Paren { inner: inner@ },
            ExprForm::Other => ExprFormView::Other,
        }
    }
}

/// An expression as the parser read it: its tokens printed, and its outermost form.
#[derive(Clone, Debug)]
pub struct ParsedExpr {
    pub tokens: String,
    pub form: ExprForm,
}

/// `ParsedExpr` with its texts as sequences of characters.
pub struct ParsedExprView {
    pub tokens: Seq<char>,
    pub form: ExprFormView,
}

impl DeepView for ParsedExpr {
    type V = ParsedExprView;

    open spec fn deep_view(&self) -> ParsedExprView {
        ParsedExprView { tokens: self.tokens@, form: self.form.deep_view() }
    }
}

/// A string literal as the parser read it: its token printed, and the string that
/// the token denotes once its escapes are decoded.
#[derive(Clone, Debug)]
pub struct StrLiteral {
    pub tokens: String,
    pub value: String,
}

/// `StrLiteral` with its texts as sequences of characters.
pub struct StrLiteralView {
    pub tokens: Seq<char>,
    pub value: Seq<char>,
}

impl DeepView for StrLiteral {
    type V = StrLiteralView;

    open spec fn deep_view(&self) -> StrLiteralView {
        StrLiteralView { tokens: self.tokens@, value: self.value@ }
    }
}

/// A byte string literal as the parser read it: its token printed, and the bytes that
/// the token denotes once its escapes are decoded.
#[derive(Clone, Debug)]
pub struct ByteStrLiteral {
    pub tokens: String,
    pub value: Vec<u8>,
}

/// `ByteStrLiteral` with its token as a sequence of characters and its bytes as a
/// sequence.
pub struct ByteStrLiteralView {
    pub tokens: Seq<char>,
    pub value: Seq<u8>,
}

impl DeepView for ByteStrLiteral {
    type V = ByteStrLiteralView;

    open spec fn deep_view(&self) -> ByteStrLiteralView {
        ByteStrLiteralView { tokens: self.tokens@, value: self.value@ }
    }
}

/// A character literal as the parser read it: its token printed, and the one
/// character that the token denotes.
#[derive(Clone, Debug)]
pub struct CharLiteral {
    pub tokens: String,
    pub value: char,
}

/// `CharLiteral` with its token as a sequence of characters.
pub struct CharLiteralView {
    pub tokens: Seq<char>,
    pub value: char,
}

impl DeepView for CharLiteral {
    type V = CharLiteralView;

    open spec fn deep_view(&self) -> CharLiteralView {
        CharLiteralView { tokens: self.tokens@, value: self.value }
    }
}

/// A byte literal as the parser read it: its token printed, and the one byte that
/// the token denotes.
#[derive(Clone, Debug)]
pub struct ByteLiteral {
    pub tokens: String,
    pub value: u8,
}

/// `ByteLiteral` with its token as a sequence of characters.
pub struct ByteLiteralView {
    pub tokens: Seq<char>,
    pub value: u8,
}

impl DeepView for ByteLiteral {
    type V = ByteLiteralView;

    open spec fn deep_view(&self) -> ByteLiteralView {
        ByteLiteralView { tokens: self.tokens@, value: self.value }
    }
}

/// What the library reads of a constant or static declaration: the identifier it
/// declares, and its initializer printed as tokens.
#[derive(Clone, Debug)]
pub struct ItemParts {
    pub name: String,
    pub initializer: String,
}

/// `ItemParts` with its texts as sequences of characters.
pub struct ItemPartsView {
    pub name: Seq<char>,
    pub initializer: Seq<char>,
}

impl DeepView for ItemParts {
    type V = ItemPartsView;

    open spec fn deep_view(&self) -> ItemPartsView {
        ItemPartsView { name: self.name@, initializer: self.initializer@ }
    }
}

/// What `text` is when it is parsed as one whole expression, or `None` where it is
/// no expression.
pub uninterp spec fn parsed_expr(text: Seq<char>) -> Option<ParsedExprView>;

/// The kind of the literal that `text` is, or `None` where it is no single literal.
pub uninterp spec fn literal_kind(text: Seq<char>) -> Option<LiteralKind>;

/// The suffix of the integer literal that `text` is, empty where it has none, or
/// `None` where `text` is no single integer literal.
pub uninterp spec fn int_suffix(text: Seq<char>) -> Option<Seq<char>>;

/// The string literal that `text` is, or `None` where it is no single string literal.
pub uninterp spec fn str_literal(text: Seq<char>) -> Option<StrLiteralView>;

/// The byte string literal that `text` is, or `None` where it is no single byte
/// string literal.
pub uninterp spec fn byte_str_literal(text: Seq<char>) -> Option<ByteStrLiteralView>;

/// The character literal that `text` is, or `None` where it is no single character
/// literal.
pub uninterp spec fn char_literal(text: Seq<char>) -> Option<CharLiteralView>;

/// The byte literal that `text` is, or `None` where it is no single byte literal.
pub uninterp spec fn byte_literal(text: Seq<char>) -> Option<ByteLiteralView>;

/// The bracketed sequence that `text` is, printed, or `None`.
pub uninterp spec fn array_expr(text: Seq<char>) -> Option<Seq<char>>;

/// The literal with named fields that `text` is, printed, or `None`.
pub uninterp spec fn aggregate_expr(text: Seq<char>) -> Option<Seq<char>>;

/// The parts of the constant declaration that `text` is, or `None`.
pub uninterp spec fn const_item(text: Seq<char>) -> Option<ItemPartsView>;

/// The parts of the static declaration that `text` is, or `None`.
pub uninterp spec fn static_item(text: Seq<char>) -> Option<ItemPartsView>;

/// The constant declaration `item` with the expression `expr` as its initializer,
/// printed; `None` exactly where one of the two does not parse.
pub uninterp spec fn const_item_with(item: Seq<char>, expr: Seq<char>) -> Option<Seq<char>>;

/// The static declaration `item` with the expression `expr` as its initializer,
/// printed; `None` exactly where one of the two does not parse.
pub uninterp spec fn static_item_with(item: Seq<char>, expr: Seq<char>) -> Option<Seq<char>>;

/// The expressions that `text` lists between commas, each printed, or `None` where
/// it is no such list.
pub uninterp spec fn argument_list(text: Seq<char>) -> Option<Seq<Seq<char>>>;

/// Calls `syn::parse_str::<syn::Expr>` and hands out the expression printed as
/// tokens together with its outermost form, the parts of which are printed too.
#[verifier::external_body]
pub(crate) fn parse_expr(text: &str) -> (r: Option<ParsedExpr>)
    ensures
        r.deep_view() == parsed_expr(text@),
{
    let expr = syn::parse_str::<Expr>(text).ok()?;
    let tokens = expr.to_token_stream().to_string();
    let form = match expr {
        Expr::Lit(e) => ExprForm::Literal { tokens: e.lit.to_token_stream().to_string() },
        Expr::Array(e) => ExprForm::Array { elements: e.elems.len() },
        Expr::Struct(_) => ExprForm::Aggregate,
        Expr::Unary(e) => ExprForm::Unary {
            op: e.op.to_token_stream().to_string(),
            operand: e.expr.to_token_stream().to_string(),
        },
        Expr::Paren(e) => ExprForm::Paren { inner: e.expr.to_token_stream().to_string() },
        _ => ExprForm::Other,
    };
    Some(ParsedExpr { tokens, form })
}

/// Calls `syn::parse_str::<syn::Lit>` and tells the variants of the literal apart.
#[verifier::external_body]
pub(crate) fn parse_literal_kind(text: &str) -> (r: Option<LiteralKind>)
    ensures
        r == literal_kind(text@),
{
    let kind = match syn::parse_str::<Lit>(text).ok()? {
        Lit::Str(_) => LiteralKind::Str,
        Lit::ByteStr(_) => LiteralKind::ByteStr,
        Lit::CStr(_) => LiteralKind::CStr,
        Lit::Byte(_) => LiteralKind::Byte,
        Lit::Char(_) => LiteralKind::Char,
        Lit::Int(_) => LiteralKind::Int,
        Lit::Float(_) => LiteralKind::Float,
        Lit::Bool(_) => LiteralKind::Bool,
        Lit::Verbatim(_) => LiteralKind::Verbatim,
        _ => LiteralKind::Unknown,
    };
    Some(kind)
}

/// Calls `syn::parse_str::<syn::LitInt>` and hands out what `syn::LitInt::suffix`
/// gives: the letters and digits that follow the digits of the number.
#[verifier::external_body]
pub(crate) fn parse_int_suffix(text: &str) -> (r: Option<String>)
    ensures
        r.deep_view() == int_suffix(text@),
{
    let lit = syn::parse_str::<syn::LitInt>(text).ok()?;
    Some(lit.suffix().to_string())
}

/// Calls `syn::parse_str::<syn::LitStr>` and hands out the literal printed as a
/// token, and the string it denotes as `syn::LitStr::value` decodes it.
#[verifier::external_body]
pub(crate) fn parse_str_literal(text: &str) -> (r: Option<StrLiteral>)
    ensures
        r.deep_view() == str_literal(text@),
{
    let lit = syn::parse_str::<syn::LitStr>(text).ok()?;
    Some(StrLiteral { tokens: lit.to_token_stream().to_string(), value: lit.value() })
}

/// Calls `syn::parse_str::<syn::LitByteStr>` and hands out the literal printed as a
/// token, and the bytes it denotes as `syn::LitByteStr::value` decodes them.
#[verifier::external_body]
pub(crate) fn parse_byte_str_literal(text: &str) -> (r: Option<ByteStrLiteral>)
    ensures
        r.deep_view() == byte_str_literal(text@),
{
    let lit = syn::parse_str::<syn::LitByteStr>(text).ok()?;
    Some(ByteStrLiteral { tokens: lit.to_token_stream().to_string(), value: lit.value() })
}

/// Calls `syn::parse_str::<syn::LitChar>` and hands out the literal printed as a
/// token, and the character it denotes as `syn::LitChar::value` decodes it.
#[verifier::external_body]
pub(crate) fn parse_char_literal(text: &str) -> (r: Option<CharLiteral>)
    ensures
        r.deep_view() == char_literal(text@),
{
    let lit = syn::parse_str::<syn::LitChar>(text).ok()?;
    Some(CharLiteral { tokens: lit.to_token_stream().to_string(), value: lit.value() })
}

/// Calls `syn::parse_str::<syn::LitByte>` and hands out the literal printed as a
/// token, and the byte it denotes as `syn::LitByte::value` decodes it.
#[verifier::external_body]
pub(crate) fn parse_byte_literal(text: &str) -> (r: Option<ByteLiteral>)
    ensures
        r.deep_view() == byte_literal(text@),
{
    let lit = syn::parse_str::<syn::LitByte>(text).ok()?;
    Some(ByteLiteral { tokens: lit.to_token_stream().to_string(), value: lit.value() })
}

/// Calls `syn::parse_str::<syn::ExprArray>` and prints the expression.
#[verifier::external_body]
pub(crate) fn parse_array_expr(text: &str) -> (r: Option<String>)
    ensures
        r.deep_view() == array_expr(text@),
{
    let expr = syn::parse_str::<syn::ExprArray>(text).ok()?;
    Some(expr.to_token_stream().to_string())
}

/// Calls `syn::parse_str::<syn::ExprStruct>` and prints the expression.
#[verifier::external_body]
pub(crate) fn parse_aggregate_expr(text: &str) -> (r: Option<String>)
    ensures
        r.deep_view() == aggregate_expr(text@),
{
    let expr = syn::parse_str::<syn::ExprStruct>(text).ok()?;
    Some(expr.to_token_stream().to_string())
}

/// Calls `syn::parse_str::<syn::ItemConst>` and hands out the identifier and the
/// initializer, printed.
#[verifier::external_body]
pub(crate) fn parse_const_item(text: &str) -> (r: Option<ItemParts>)
    ensures
        r.deep_view() == const_item(text@),
{
    let item = syn::parse_str::<syn::ItemConst>(text).ok()?;
    Some(ItemParts { name: item.ident.to_string(), initializer: item.expr.to_token_stream().to_string() })
}

/// Calls `syn::parse_str::<syn::ItemStatic>` and hands out the identifier and the
/// initializer, printed.
#[verifier::external_body]
pub(crate) fn parse_static_item(text: &str) -> (r: Option<ItemParts>)
    ensures
        r.deep_view() == static_item(text@),
{
    let item = syn::parse_str::<syn::ItemStatic>(text).ok()?;
    Some(ItemParts { name: item.ident.to_string(), initializer: item.expr.to_token_stream().to_string() })
}

/// Parses `item` with `syn::parse_str::<syn::ItemConst>` and `expr` with
/// `syn::parse_str::<syn::Expr>`, puts the expression in the initializer's place and
/// prints the declaration. There is a result exactly where both parse, as the body
/// shows: nothing else in it can fail.
#[verifier::external_body]
pub(crate) fn replace_const_initializer(item: &str, expr: &str) -> (r: Option<String>)
    ensures
        r.deep_view() == const_item_with(item@, expr@),
        r.is_some() == (const_item(item@).is_some() && parsed_expr(expr@).is_some()),
{
    let mut item = syn::parse_str::<syn::ItemConst>(item).ok()?;
    *item.expr = syn::parse_str::<Expr>(expr).ok()?;
    Some(item.to_token_stream().to_string())
}

/// Parses `item` with `syn::parse_str::<syn::ItemStatic>` and `expr` with
/// `syn::parse_str::<syn::Expr>`, puts the expression in the initializer's place and
/// prints the declaration. There is a result exactly where both parse, as the body
/// shows: nothing else in it can fail.
#[verifier::external_body]
pub(crate) fn replace_static_initializer(item: &str, expr: &str) -> (r: Option<String>)
    ensures
        r.deep_view() == static_item_with(item@, expr@),
        r.is_some() == (static_item(item@).is_some() && parsed_expr(expr@).is_some()),
{
    let mut item = syn::parse_str::<syn::ItemStatic>(item).ok()?;
    *item.expr = syn::parse_str::<Expr>(expr).ok()?;
    Some(item.to_token_stream().to_string())
}

/// Parses `text` with `syn::punctuated::Punctuated::parse_terminated`, as expressions
/// between commas, and prints each.
#[verifier::external_body]
pub(crate) fn parse_arguments(text: &str) -> (r: Option<Vec<String>>)
    ensures
        r.deep_view() == argument_list(text@),
{
    let parser = syn::punctuated::Punctuated::<Expr, syn::token::Comma>::parse_terminated;
    let args = syn::parse::Parser::parse_str(parser, text).ok()?;
    Some(args.iter().map(|e| e.to_token_stream().to_string()).collect())
}

} // verus!
