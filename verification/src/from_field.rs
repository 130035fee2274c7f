//! Parsing one raw field into a payload.

use vstd::prelude::*;
use crate::layout::Layout;

verus! {

/// A payload type that can be parsed from one raw field.
///
/// The container asks nothing of an implementation: parsing may fail, and it
/// may depend on more than the field. Contracts speak of what an
/// implementation does through [`parse_allows`].
pub trait FromField: Sized {
    /// What a failed parse reports.
    type Error;

    /// Parses `field`, or says why it cannot be parsed.
    fn from_field(field: &syn::Field) -> (outcome: Result<Self, Self::Error>);
}

/// `outcome` is a result that `F::from_field` can give for `field`.
pub open spec fn parse_allows<F: FromField>(
    field: syn::Field,
    outcome: Result<F, F::Error>,
) -> bool {
    call_ensures(F::from_field, (&field,), outcome)
}

/// Parsing into `F` is the function `p`: whatever `F::from_field` gives for
/// a field is `p` of that field.
pub open spec fn parses_as<F: FromField>(p: spec_fn(syn::Field) -> Result<F, F::Error>) -> bool {
    forall|field: syn::Field, outcome: Result<F, F::Error>| #[trigger]
        parse_allows::<F>(field, outcome) ==> outcome == p(field)
}

/// Field `i` of `raw` parsed to item `i` of `done`, for every item of `done`:
/// the first `done.len()` raw fields were parsed, in order, and none failed.
pub open spec fn parsed_in_order<F: FromField>(raw: Seq<syn::Field>, done: Seq<F>) -> bool {
    &&& done.len() <= raw.len()
    &&& forall|i: int|
        0 <= i < done.len() ==> parse_allows::<F>(raw[i], Ok(#[trigger] done[i]))
}

/// The fields of `raw` before number `done.len()` parsed to `done`, and the
/// parse of field number `done.len()` failed with `error`.
pub open spec fn stopped_at<F: FromField>(
    raw: Seq<syn::Field>,
    done: Seq<F>,
    error: F::Error,
) -> bool {
    &&& done.len() < raw.len()
    &&& parsed_in_order::<F>(raw, done)
    &&& parse_allows::<F>(raw[done.len() as int], Err(error))
}

/// Parsing `raw` field by field ended in `error`: some field failed with it,
/// and every field before that one had parsed.
pub open spec fn fails_with<F: FromField>(raw: Seq<syn::Field>, error: F::Error) -> bool {
    exists|done: Seq<F>| stopped_at::<F>(raw, done, error)
}

/// Field `k` of `raw` is the first that fails: it can only fail to parse, and
/// every field before it can only parse.
pub open spec fn fails_first_at<F: FromField>(raw: Seq<syn::Field>, k: int) -> bool {
    &&& 0 <= k < raw.len()
    &&& forall|outcome: Result<F, F::Error>|
        parse_allows::<F>(raw[k], outcome) ==> outcome is Err
    &&& forall|i: int, outcome: Result<F, F::Error>|
        0 <= i < k && parse_allows::<F>(raw[i], outcome) ==> outcome is Ok
}

/// No field of `raw` can fail to parse.
pub open spec fn never_fails<F: FromField>(raw: Seq<syn::Field>) -> bool {
    forall|i: int, outcome: Result<F, F::Error>|
        0 <= i < raw.len() && parse_allows::<F>(raw[i], outcome) ==> outcome is Ok
}

/// Parsing `src` field by field gave `data`: the same layout, around one
/// parsed item for each raw field, in the same order.
pub open spec fn parses_to<F: FromField>(src: Layout<syn::Field>, data: Layout<F>) -> bool {
    &&& data.same_shape(src)
    &&& data.fields().len() == src.fields().len()
    &&& parsed_in_order::<F>(src.fields(), data.fields())
}

/// Parses the fields of `raw` from the first on, and stops at the first one
/// that fails.
pub(crate) fn parse_fields<F: FromField>(raw: &Vec<syn::Field>) -> (out: Result<Vec<F>, F::Error>)
    ensures
        out matches Ok(items) ==> items@.len() == raw@.len() && parsed_in_order::<F>(
            raw@,
            items@,
        ),
        out matches Err(error) ==> fails_with::<F>(raw@, error),
        raw@.len() == 0 ==> out is Ok,
{
    let mut items: Vec<F> = Vec::with_capacity(raw.len());
    for field in it: raw
        invariant
            it.seq().unref() == raw@,
            items@.len() == it.index(),
            parsed_in_order::<F>(raw@, items@),
    {
        match F::from_field(field) {
            Ok(item) => {
                items.push(item);
            },
            Err(error) => {
                assert(stopped_at::<F>(raw@, items@, error));
                return Err(error);
            },
        }
    }
    Ok(items)
}

} // verus!
