//! The literal categories, and the shape template that a reference expression gives.

use vstd::prelude::*;

verus! {

/// The literal category that a reference expression establishes.
#[derive(Clone, Copy, Debug, PartialEq, Eq, Structural)]
pub enum Category {
    /// A quoted string, `"..."`.
    String,
    /// A quoted byte string, `b"..."`.
    ByteString,
    /// A single quoted character, `'x'`.
    Char,
    /// A single quoted byte, `b'x'`.
    Byte,
    /// `true` or `false`.
    Bool,
    /// A bare integer literal, with or without a suffix.
    Integer,
    /// A bare floating-point literal, with or without a suffix.
    Float,
    /// A bracketed sequence, `[a, b, c]`.
    Array,
    /// A literal with named fields, `Name { field: value }`.
    Aggregate,
    /// A literal under a unary minus.
    NegatedNumeric,
}

/// The shape template that a reference expression gives: its category, and for an
/// array the number of its elements. It is read off the expression once; synthesis
/// looks at the category alone, so a replacement of another length is not refused
/// here.
#[derive(Clone, Copy, Debug, PartialEq, Eq, Structural)]
pub struct ReferenceLiteral {
    pub category: Category,
    pub arity: Option<usize>,
}

impl ReferenceLiteral {
    /// Arrays, and only arrays, record a number of elements.
    pub open spec fn well_formed(self) -> bool {
        self.arity is Some <==> self.category == Category::Array
    }

    /// The template of a category that records no number of elements.
    pub open spec fn plain(category: Category) -> ReferenceLiteral {
        ReferenceLiteral { category, arity: None }
    }

    /// The template of an array of `elements` elements.
    pub open spec fn array(elements: usize) -> ReferenceLiteral {
        ReferenceLiteral { category: Category::Array, arity: Some(elements) }
    }
}

impl Category {
    /// Whether this is the category of a number written without a sign.
    pub open spec fn is_numeric(self) -> bool {
        self == Category::Integer || self == Category::Float
    }

    /// Whether a literal of the category `made` keeps the kind of this category: the
    /// two are the same, or they differ by a sign alone, one being a number and the
    /// other a negated number.
    pub open spec fn keeps_kind(self, made: Category) -> bool {
        made == self || (self.is_numeric() && made == Category::NegatedNumeric) || (self
            == Category::NegatedNumeric && made.is_numeric())
    }

    /// Whether the raw text of this category is wrapped in quotes before it is parsed.
    pub open spec fn is_quoted(self) -> bool {
        self == Category::String || self == Category::ByteString || self == Category::Char
            || self == Category::Byte
    }

    /// Tells the quoted categories from those whose raw text is parsed as it stands.
    pub fn quoted(self) -> (r: bool)
        ensures
            r == self.is_quoted(),
    {
        match self {
            Category::String | Category::ByteString | Category::Char | Category::Byte => true,
            _ => false,
        }
    }
}

} // verus!
