//! The literal synthesizer: from a category and a raw value to the text of a new
//! literal of that category.

use vstd::prelude::*;
use vstd::string::*;
use crate::category::Category;
use crate::classify::{classify_spec, is_of_kind, of_kind};
use crate::error::{Error, ErrorKind, Site};
use crate::syntax::{
    aggregate_expr, array_expr, byte_literal, byte_str_literal, char_literal, parse_aggregate_expr,
    parse_array_expr, parse_byte_literal, parse_byte_str_literal, parse_char_literal, parse_expr,
    parse_str_literal, parsed_expr, str_literal,
};

verus! {

/// What a literal denotes once its quotes are taken off and its escapes decoded. The
/// categories that are written without quotes denote what their tokens say.
#[derive(Clone, Debug, PartialEq, Eq)]
pub enum Decoded {
    /// The characters of a string.
    Text(String),
    /// The bytes of a byte string.
    Bytes(Vec<u8>),
    /// The one character of a character literal.
    Char(char),
    /// The one byte of a byte literal.
    Byte(u8),
    /// An expression that stands for itself.
    Expression,
}

/// `Decoded` with its contents as sequences.
pub enum DecodedView {
    Text(Seq<char>),
    Bytes(Seq<u8>),
    Char(char),
    Byte(u8),
    Expression,
}

impl DeepView for Decoded {
    type V = DecodedView;

    open spec fn deep_view(&self) -> DecodedView {
        match *self {
            Decoded::Text(text) => DecodedView::Text(text@),
            Decoded::Bytes(bytes) => DecodedView::Bytes(bytes@),
            Decoded::Char(c) => DecodedView::Char(c),
            Decoded::Byte(b) => DecodedView::Byte(b),
            Decoded::Expression => DecodedView::Expression,
        }
    }
}

/// What a grammar read: the tokens, printed, and what they denote.
#[derive(Clone, Debug, PartialEq, Eq)]
pub struct Parsed {
    pub tokens: String,
    pub decoded: Decoded,
}

/// `Parsed` with its texts as sequences.
pub struct ParsedView {
    pub tokens: Seq<char>,
    pub decoded: DecodedView,
}

impl DeepView for Parsed {
    type V = ParsedView;

    open spec fn deep_view(&self) -> ParsedView {
        ParsedView { tokens: self.tokens@, decoded: self.decoded.deep_view() }
    }
}

/// A literal made from a raw value: the category it was made for, its tokens as
/// text, what it denotes, and the site that it stands at.
#[derive(Clone, Debug, PartialEq, Eq)]
pub struct SynthesizedLiteral {
    pub category: Category,
    pub tokens: String,
    pub decoded: Decoded,
    pub site: Site,
}

/// `SynthesizedLiteral` with its texts as sequences.
pub struct SynthesizedLiteralView {
    pub category: Category,
    pub tokens: Seq<char>,
    pub decoded: DecodedView,
    pub site: Site,
}

impl DeepView for SynthesizedLiteral {
    type V = SynthesizedLiteralView;

    open spec fn deep_view(&self) -> SynthesizedLiteralView {
        SynthesizedLiteralView {
            category: self.category,
            tokens: self.tokens@,
            decoded: self.decoded.deep_view(),
            site: self.site,
        }
    }
}

/// An expression that was read, as what a grammar read.
pub open spec fn expression(tokens: Option<Seq<char>>) -> Option<ParsedView> {
    match tokens {
        Some(tokens) => Some(ParsedView { tokens, decoded: DecodedView::Expression }),
        None => None,
    }
}

/// What opens a literal of the category before the raw value: a quote for the
/// quoted categories, nothing for the others.
pub open spec fn opening(category: Category) -> Seq<char> {
    match category {
        Category::String => seq!['"'],
        Category::ByteString => seq!['b', '"'],
        Category::Char => seq!['\''],
        Category::Byte => seq!['b', '\''],
        _ => seq![],
    }
}

/// What closes a literal of the category after the raw value.
pub open spec fn closing(category: Category) -> Seq<char> {
    match category {
        Category::String | Category::ByteString => seq!['"'],
        Category::Char | Category::Byte => seq!['\''],
        _ => seq![],
    }
}

/// The text that is parsed for a raw value: the raw value between the quotes of a
/// quoted category, and as it stands for the others. Nothing is trimmed or escaped.
pub open spec fn literal_source(category: Category, raw: Seq<char>) -> Seq<char> {
    opening(category) + raw + closing(category)
}

/// What `source` gives when it is parsed by the grammar of the category, or `None`
/// where that grammar does not accept it. A quoted category takes one literal token
/// of its kind; an array takes a bracketed sequence; an aggregate takes a literal
/// with named fields; the others take any expression, so that a sign or a suffix in
/// the raw value is read as the parser reads it anywhere.
pub open spec fn grammar_parse(category: Category, source: Seq<char>) -> Option<ParsedView> {
    match category {
        Category::String => match str_literal(source) {
            Some(lit) => Some(
                ParsedView { tokens: lit.tokens, decoded: DecodedView::Text(lit.value) },
            ),
            None => None,
        },
        Category::ByteString => match byte_str_literal(source) {
            Some(lit) => Some(
                ParsedView { tokens: lit.tokens, decoded: DecodedView::Bytes(lit.value) },
            ),
            None => None,
        },
        Category::Char => match char_literal(source) {
            Some(lit) => Some(
                ParsedView { tokens: lit.tokens, decoded: DecodedView::Char(lit.value) },
            ),
            None => None,
        },
        Category::Byte => match byte_literal(source) {
            Some(lit) => Some(
                ParsedView { tokens: lit.tokens, decoded: DecodedView::Byte(lit.value) },
            ),
            None => None,
        },
        Category::Array => expression(array_expr(source)),
        Category::Aggregate => expression(aggregate_expr(source)),
        Category::Bool | Category::Integer | Category::Float | Category::NegatedNumeric => expression(
            match parsed_expr(source) {
                Some(expr) => Some(expr.tokens),
                None => None,
            },
        ),
    }
}

/// What was read, where its tokens are a literal of the kind that the category
/// declares, and nothing where they are not: a raw value that parses, but as
/// something else than the category, is refused like one that does not parse.
pub open spec fn held(category: Category, parsed: Option<ParsedView>) -> Option<ParsedView> {
    match parsed {
        Some(parsed) => if is_of_kind(category, parsed.tokens) {
            Some(parsed)
        } else {
            None
        },
        None => None,
    }
}

/// The literal that what was read makes, or the error that its absence makes.
pub open spec fn literal_of(category: Category, parsed: Option<ParsedView>, site: Site) -> Result<
    SynthesizedLiteralView,
    Error,
> {
    match parsed {
        Some(parsed) => Ok(
            SynthesizedLiteralView {
                category,
                tokens: parsed.tokens,
                decoded: parsed.decoded,
                site,
            },
        ),
        None => Err(Error { kind: ErrorKind::Synthesis(category), site }),
    }
}

/// The literal of `category` that the raw value `raw` gives: its source text parsed
/// by the grammar of the category, and held to the kind that the category declares.
/// It fails exactly where that grammar rejects the source text, or reads something
/// of another kind.
pub open spec fn synthesize_spec(category: Category, raw: Seq<char>, site: Site) -> Result<
    SynthesizedLiteralView,
    Error,
> {
    literal_of(
        category,
        held(category, grammar_parse(category, literal_source(category, raw))),
        site,
    )
}

/// A result of synthesis with its text as a sequence of characters.
pub open spec fn literal_result(r: Result<SynthesizedLiteral, Error>) -> Result<
    SynthesizedLiteralView,
    Error,
> {
    match r {
        Ok(lit) => Ok(lit.deep_view()),
        Err(e) => Err(e),
    }
}

/// Builds the text that is parsed for a raw value of the category.
pub fn quote_raw(category: Category, raw: &str) -> (r: String)
    ensures
        r@ == literal_source(category, raw@),
{
    proof {
        reveal_strlit("\"");
        reveal_strlit("b\"");
        reveal_strlit("'");
        reveal_strlit("b'");
        reveal_strlit("");
    }
    let (open, close) = match category {
        Category::String => ("\"", "\""),
        Category::ByteString => ("b\"", "\""),
        Category::Char => ("'", "'"),
        Category::Byte => ("b'", "'"),
        _ => ("", ""),
    };
    assert(open@ =~= opening(category));
    assert(close@ =~= closing(category));
    let mut text = String::from_str(open);
    text.append(raw);
    text.append(close);
    text
}

/// Makes of an expression that was read what a grammar read.
pub fn as_expression(tokens: Option<String>) -> (r: Option<Parsed>)
    ensures
        r.deep_view() == expression(tokens.deep_view()),
{
    match tokens {
        Some(tokens) => Some(Parsed { tokens, decoded: Decoded::Expression }),
        None => None,
    }
}

/// Parses `source` by the grammar of the category.
pub fn parse_as(category: Category, source: &str) -> (r: Option<Parsed>)
    ensures
        r.deep_view() == grammar_parse(category, source@),
{
    match category {
        Category::String => match parse_str_literal(source) {
            Some(lit) => Some(Parsed { tokens: lit.tokens, decoded: Decoded::Text(lit.value) }),
            None => None,
        },
        Category::ByteString => match parse_byte_str_literal(source) {
            Some(lit) => Some(Parsed { tokens: lit.tokens, decoded: Decoded::Bytes(lit.value) }),
            None => None,
        },
        Category::Char => match parse_char_literal(source) {
            Some(lit) => Some(Parsed { tokens: lit.tokens, decoded: Decoded::Char(lit.value) }),
            None => None,
        },
        Category::Byte => match parse_byte_literal(source) {
            Some(lit) => Some(Parsed { tokens: lit.tokens, decoded: Decoded::Byte(lit.value) }),
            None => None,
        },
        Category::Array => as_expression(parse_array_expr(source)),
        Category::Aggregate => as_expression(parse_aggregate_expr(source)),
        Category::Bool | Category::Integer | Category::Float | Category::NegatedNumeric => as_expression(
            match parse_expr(source) {
                Some(expr) => Some(expr.tokens),
                None => None,
            },
        ),
    }
}

/// Keeps what was read where its tokens are a literal of the kind that the category
/// declares.
pub fn hold(category: Category, parsed: Option<Parsed>) -> (r: Option<Parsed>)
    ensures
        r.deep_view() == held(category, parsed.deep_view()),
        r matches Some(kept) ==> (classify_spec(kept.tokens@) matches Ok(template)
            && category.keeps_kind(template.category)),
{
    match parsed {
        Some(parsed) => if of_kind(category, parsed.tokens.as_str()) {
            Some(parsed)
        } else {
            None
        },
        None => None,
    }
}

/// Makes the literal from what the grammar of the category read, or the synthesis
/// error of that category where it read nothing.
pub fn finish_literal(category: Category, parsed: Option<Parsed>, site: Site) -> (r: Result<
    SynthesizedLiteral,
    Error,
>)
    ensures
        literal_result(r) == literal_of(category, parsed.deep_view(), site),
{
    match parsed {
        Some(parsed) => Ok(
            SynthesizedLiteral { category, tokens: parsed.tokens, decoded: parsed.decoded, site },
        ),
        None => Err(Error { kind: ErrorKind::Synthesis(category), site }),
    }
}

/// Makes a literal of `category` from the raw value `raw`, to stand at `site`.
///
/// The literal made is of the kind that was asked for: classified again by its own
/// tokens, it has the same category, or the one that differs by the sign of a number
/// alone. A raw value that gives anything else is a synthesis error.
pub fn synthesize(category: Category, raw: &str, site: Site) -> (r: Result<
    SynthesizedLiteral,
    Error,
>)
    ensures
        literal_result(r) == synthesize_spec(category, raw@, site),
        r matches Ok(lit) ==> lit.category == category && lit.site == site && denotes(
            category,
            lit.decoded.deep_view(),
        ),
        r matches Ok(lit) ==> (classify_spec(lit.tokens@) matches Ok(template)
            && category.keeps_kind(template.category)),
        r matches Err(e) ==> e == (Error { kind: ErrorKind::Synthesis(category), site }),
{
    let source = quote_raw(category, raw);
    let parsed = hold(category, parse_as(category, source.as_str()));
    finish_literal(category, parsed, site)
}

/// Synthesis succeeds on every raw value that the grammar of the category reads as a
/// literal of the category's kind, and on no other: the literal it gives has that
/// category, and holds the tokens that the grammar read and what they denote.
pub proof fn accepted_raw_value_synthesizes(category: Category, raw: Seq<char>, site: Site)
    ensures
        (grammar_parse(category, literal_source(category, raw)) matches Some(parsed) && is_of_kind(
            category,
            parsed.tokens,
        )) ==> synthesize_spec(category, raw, site) == Ok::<_, Error>(
            SynthesizedLiteralView {
                category,
                tokens: grammar_parse(category, literal_source(category, raw))->Some_0.tokens,
                decoded: grammar_parse(category, literal_source(category, raw))->Some_0.decoded,
                site,
            },
        ),
        !(grammar_parse(category, literal_source(category, raw)) matches Some(parsed)
            && is_of_kind(category, parsed.tokens)) ==> synthesize_spec(category, raw, site)
            == Err::<SynthesizedLiteralView, _>(Error { kind: ErrorKind::Synthesis(category), site }),
{
}

/// Whether what a literal denotes has the form that its category asks for: text for
/// a string, bytes for a byte string, exactly one character for a character literal,
/// exactly one byte for a byte literal, and the expression itself for the rest.
pub open spec fn denotes(category: Category, decoded: DecodedView) -> bool {
    match category {
        Category::String => decoded is Text,
        Category::ByteString => decoded is Bytes,
        Category::Char => decoded is Char,
        Category::Byte => decoded is Byte,
        _ => decoded is Expression,
    }
}

/// The kind of literal that was asked for is the kind that is made: the tokens of a
/// synthesized literal, classified in their own right, have the category of the
/// literal, or the one that differs from it by the sign of a number alone. What the
/// literal denotes has the form of its category, so a raw value that does not decode
/// to exactly one character gives no character literal, and one that does not decode
/// to exactly one byte gives no byte literal.
pub proof fn synthesized_literal_is_of_its_category(category: Category, raw: Seq<char>, site: Site)
    ensures
        synthesize_spec(category, raw, site) matches Ok(lit) ==> (lit.category == category
            && is_of_kind(category, lit.tokens) && denotes(category, lit.decoded) && (classify_spec(
            lit.tokens,
        ) matches Ok(template) && category.keeps_kind(template.category))),
{
}

/// Where two categories give literals of the same tokens, the two are of one kind:
/// they are the same category, or a number and a negated number. So no tokens pass
/// for a boolean and for an integer at once, nor for an integer and for a
/// floating-point number.
pub proof fn one_kind_per_literal(
    first: Category,
    second: Category,
    first_raw: Seq<char>,
    second_raw: Seq<char>,
    site: Site,
)
    ensures
        (synthesize_spec(first, first_raw, site) matches Ok(a) && synthesize_spec(
            second,
            second_raw,
            site,
        ) matches Ok(b) && a.tokens == b.tokens) ==> first.keeps_kind(second),
{
}

/// A quoted category parses the raw value between its quotes, so the raw value
/// itself is written without them: the source text is the raw value with one
/// opening and one closing mark around it, and is the raw value alone for the
/// other categories.
pub proof fn source_wraps_raw_value(category: Category, raw: Seq<char>)
    ensures
        literal_source(category, raw).len() == opening(category).len() + raw.len() + closing(
            category,
        ).len(),
        literal_source(category, raw).subrange(
            opening(category).len() as int,
            (opening(category).len() + raw.len()) as int,
        ) == raw,
        !category.is_quoted() ==> literal_source(category, raw) == raw,
{
    let source = literal_source(category, raw);
    let start = opening(category).len() as int;
    assert(source.subrange(start, start + raw.len()) =~= raw);
    if !category.is_quoted() {
        assert(source =~= raw);
    }
}

} // verus!
