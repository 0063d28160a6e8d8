//! What can go wrong in a materialization attempt, and where it is reported.

use vstd::prelude::*;
use vstd::string::*;
use crate::category::Category;

verus! {

/// Why a materialization attempt failed.
#[derive(Clone, Copy, Debug, PartialEq, Eq, Structural)]
pub enum ErrorKind {
    /// The reference expression has no supported literal shape.
    Classification,
    /// The key argument is not a plain string literal.
    Resolution,
    /// The inline form was not given exactly two arguments.
    ArgumentCount,
    /// The raw text does not parse as a literal of the category.
    Synthesis(Category),
    /// The decorated item is no constant or static declaration.
    NotADeclaration,
    /// The reference is a literal of a kind outside the supported set.
    UnsupportedLiteralKind,
}

/// The part of the input that a diagnostic is attributed to.
#[derive(Clone, Copy, Debug, PartialEq, Eq, Structural)]
pub enum Site {
    /// The decorated declaration.
    Declaration,
    /// The argument of the decorator.
    Attribute,
    /// The argument list of the inline form.
    Arguments,
    /// The key literal of the inline form.
    Key,
}

/// A failed materialization attempt: what went wrong, and where to report it.
#[derive(Clone, Copy, Debug, PartialEq, Eq, Structural)]
pub struct Error {
    pub kind: ErrorKind,
    pub site: Site,
}

/// The text of the diagnostic for each kind of failure.
pub open spec fn message_spec(kind: ErrorKind) -> Seq<char> {
    match kind {
        ErrorKind::Classification => "unsupported reference expression"@,
        ErrorKind::Resolution => "argument is not a string literal"@,
        ErrorKind::ArgumentCount => "Exactly 2 arguments expected"@,
        ErrorKind::NotADeclaration => "Macro is only valid on const or static items"@,
        ErrorKind::UnsupportedLiteralKind => "Unsupported literal type"@,
        ErrorKind::Synthesis(category) => match category {
            Category::String => "Failed to parse environment variable contents as literal string"@,
            Category::ByteString => "Failed to parse environment variable contents as literal byte string"@,
            Category::Char => "Failed to parse environment variable contents as literal character"@,
            Category::Byte => "Failed to parse environment variable contents as literal byte"@,
            Category::Array => "Failed to parse environment variable contents as valid array"@,
            Category::Aggregate => "Failed to parse environment variable contents as valid aggregate"@,
            _ => "Failed to parse environment variable contents as valid expression"@,
        },
    }
}

/// A result that holds text, with the text as a sequence of characters.
pub open spec fn text_result(r: Result<String, Error>) -> Result<Seq<char>, Error> {
    match r {
        Ok(text) => Ok(text@),
        Err(e) => Err(e),
    }
}

impl Error {
    /// The text of the diagnostic.
    pub fn message(&self) -> (r: String)
        ensures
            r@ == message_spec(self.kind),
    {
        let text = match self.kind {
            ErrorKind::Classification => "unsupported reference expression",
            ErrorKind::Resolution => "argument is not a string literal",
            ErrorKind::ArgumentCount => "Exactly 2 arguments expected",
            ErrorKind::NotADeclaration => "Macro is only valid on const or static items",
            ErrorKind::UnsupportedLiteralKind => "Unsupported literal type",
            ErrorKind::Synthesis(category) => match category {
                Category::String => "Failed to parse environment variable contents as literal string",
                Category::ByteString => "Failed to parse environment variable contents as literal byte string",
                Category::Char => "Failed to parse environment variable contents as literal character",
                Category::Byte => "Failed to parse environment variable contents as literal byte",
                Category::Array => "Failed to parse environment variable contents as valid array",
                Category::Aggregate => "Failed to parse environment variable contents as valid aggregate",
                _ => "Failed to parse environment variable contents as valid expression",
            },
        };
        String::from_str(text)
    }
}

} // verus!
