//! Materialization: classification of the reference expression, then synthesis from
//! the raw value.

use vstd::prelude::*;
use crate::classify::{classify, classify_spec, is_of_kind};
use crate::error::{Error, Site};
use crate::synthesize::{
    literal_result, literal_source, synthesize, synthesize_spec, SynthesizedLiteral,
    SynthesizedLiteralView,
};

verus! {

/// The literal that replaces the reference expression `reference` when the raw value
/// `raw` was found: a literal of the reference's category, made from the raw value.
/// A reference without a supported shape fails before the raw value is looked at.
pub open spec fn materialize_spec(reference: Seq<char>, raw: Seq<char>, site: Site) -> Result<
    SynthesizedLiteralView,
    Error,
> {
    match classify_spec(reference) {
        Ok(template) => synthesize_spec(template.category, raw, site),
        Err(kind) => Err(Error { kind, site }),
    }
}

/// Makes from the raw value `value` a literal of the category that `reference`
/// establishes. Errors are attributed to `site`.
///
/// The literal made is of the kind of the reference: classified again by its own
/// tokens, it has the category of the reference, or the one that differs by the sign
/// of a number alone.
pub fn value_to_literal(value: &str, reference: &str, site: Site) -> (r: Result<
    SynthesizedLiteral,
    Error,
>)
    ensures
        literal_result(r) == materialize_spec(reference@, value@, site),
        r matches Ok(lit) ==> (classify_spec(reference@) matches Ok(template)
            && template.category == lit.category),
        r matches Ok(lit) ==> (classify_spec(lit.tokens@) matches Ok(made)
            && lit.category.keeps_kind(made.category)),
{
    match classify(reference) {
        Ok(template) => synthesize(template.category, value, site),
        Err(kind) => Err(Error { kind, site }),
    }
}

/// The kind of literal that was declared is never changed: the literal that replaces
/// a reference, classified again by its own tokens, has the category of the
/// reference, or the one that differs from it by the sign of a number alone.
pub proof fn replacement_keeps_category(reference: Seq<char>, raw: Seq<char>, site: Site)
    ensures
        materialize_spec(reference, raw, site) matches Ok(lit) ==> (classify_spec(
            reference,
        ) matches Ok(template) && template.category == lit.category && lit.site == site
            && is_of_kind(template.category, lit.tokens) && (classify_spec(
            lit.tokens,
        ) matches Ok(made) && template.category.keeps_kind(made.category))),
{
}

/// A literal that was made can stand as the reference in its turn: the same raw
/// value then gives a literal of the same tokens, denoting the same.
pub proof fn replacement_is_a_reference(reference: Seq<char>, raw: Seq<char>, site: Site)
    ensures
        materialize_spec(reference, raw, site) matches Ok(lit) ==> (materialize_spec(
            lit.tokens,
            raw,
            site,
        ) matches Ok(again) && again.tokens == lit.tokens && again.decoded == lit.decoded
            && lit.category.keeps_kind(again.category)),
{
    if let Ok(lit) = materialize_spec(reference, raw, site) {
        let first = lit.category;
        let second = classify_spec(lit.tokens)->Ok_0.category;
        if first != second {
            assert(literal_source(first, raw) =~= raw);
            assert(literal_source(second, raw) =~= raw);
        }
    }
}

/// A reference without a supported shape fails whatever the raw value is, and with
/// the error of its classification.
pub proof fn unsupported_reference_fails(reference: Seq<char>, raw: Seq<char>, site: Site)
    ensures
        classify_spec(reference) matches Err(kind) ==> materialize_spec(reference, raw, site)
            == Err::<SynthesizedLiteralView, _>(Error { kind, site }),
{
}

} // verus!
