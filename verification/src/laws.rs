//! What holds of the operations taken together.

use vstd::prelude::*;
use crate::from_field::{
    fails_first_at, never_fails, parse_allows, parses_as, parses_to, stopped_at, FromField,
};
use crate::layout::{computes, first_error, Layout};
use crate::variant_data::{built_from, outcome_view, VariantData};

verus! {

/// Mapping by a function. Where the executable `f` computes the function
/// `g`, mapping with `f` gives exactly `g` of each field: the same variant,
/// and field `i` of the result is `g` of field `i`.
pub proof fn lemma_map_by_function<T, U, F: FnOnce(T) -> U>(
    c: Layout<T>,
    f: F,
    g: spec_fn(T) -> U,
    out: Layout<U>,
)
    requires
        c.mapped_by(f, out),
        computes(f, g),
    ensures
        out == c.map(g),
        out.same_shape(c),
        out.fields().len() == c.fields().len(),
        forall|i: int| 0 <= i < c.fields().len() ==> out.fields()[i] == g(c.fields()[i]),
{
    assert(out.fields() =~= c.fields().map_values(g));
}

/// Mapping composes, in the model: mapping with `f` and then with `g` is
/// mapping once with `g` after `f`.
pub proof fn lemma_map_map<T, U, V>(c: Layout<T>, f: spec_fn(T) -> U, g: spec_fn(U) -> V)
    ensures
        c.map(f).map(g) == c.map(|x: T| g(f(x))),
{
    assert(c.map(f).fields().map_values(g) =~= c.fields().map_values(|x: T| g(f(x))));
}

/// Mapping composes. Let `f`, `g` and `h` compute the functions `sf`, `sg`
/// and `sg` after `sf`. Then mapping a container with `f` and the result
/// with `g` gives what mapping it once with `h` gives: the same variant
/// around the same fields in the same order.
pub proof fn lemma_map_twice<T, U, V, F: FnOnce(T) -> U, G: FnOnce(U) -> V, H: FnOnce(T) -> V>(
    c: Layout<T>,
    f: F,
    g: G,
    h: H,
    sf: spec_fn(T) -> U,
    sg: spec_fn(U) -> V,
    mid: Layout<U>,
    twice: Layout<V>,
    once: Layout<V>,
)
    requires
        computes(f, sf),
        computes(g, sg),
        computes(h, |x: T| sg(sf(x))),
        c.mapped_by(f, mid),
        mid.mapped_by(g, twice),
        c.mapped_by(h, once),
    ensures
        twice == once,
        twice == c.map(|x: T| sg(sf(x))),
{
    lemma_map_by_function(c, f, sf, mid);
    lemma_map_by_function(mid, g, sg, twice);
    lemma_map_by_function(c, h, |x: T| sg(sf(x)), once);
    lemma_map_map(c, sf, sg);
}

/// Borrowing keeps what is read: the fields of the borrowed layout are
/// references to the fields of the layout itself, one for one and in order,
/// and each refers to the value that the layout holds there.
pub proof fn lemma_as_ref_fields<T>(c: Layout<T>)
    ensures
        c.as_ref().same_shape(c),
        c.as_ref().fields() == c.fields().as_ref(),
        c.as_ref().fields().unref() == c.fields(),
{
}

/// Construction fails fast. Where field `k` of `src` is the first that
/// fails, a construction from `src` fails, and with an error that parsing
/// field `k` gave: no later field has a say in the result.
pub proof fn lemma_first_failure_wins<F: FromField>(
    src: Layout<syn::Field>,
    k: int,
    out: Result<VariantData<F>, F::Error>,
)
    requires
        fails_first_at::<F>(src.fields(), k),
        built_from::<F>(src, out),
    ensures
        out matches Err(error) && parse_allows::<F>(src.fields()[k], Err(error)),
{
    let raw = src.fields();
    match out {
        Ok(data) => {
            assert(parse_allows::<F>(raw[k], Ok(data@.fields()[k])));
        },
        Err(error) => {
            let done = choose|done: Seq<F>| stopped_at::<F>(raw, done, error);
            if done.len() > k {
                assert(parse_allows::<F>(raw[k], Ok(done[k])));
            }
        },
    }
}

/// Construction succeeds where nothing fails. Where no field of `src` can
/// fail to parse, a construction from `src` gives a container.
pub proof fn lemma_all_parse<F: FromField>(
    src: Layout<syn::Field>,
    out: Result<VariantData<F>, F::Error>,
)
    requires
        never_fails::<F>(src.fields()),
        built_from::<F>(src, out),
    ensures
        out matches Ok(data) && parses_to::<F>(src, data@),
{
}

/// Among `outcomes`, number `k` failed and none before it did: then the
/// first error is that of number `k`.
proof fn lemma_first_error_at<U, E>(outcomes: Seq<Result<U, E>>, k: int)
    requires
        0 <= k < outcomes.len(),
        outcomes[k] is Err,
        forall|i: int| 0 <= i < k ==> outcomes[i] is Ok,
    ensures
        first_error(outcomes) == Some(outcomes[k]->Err_0),
    decreases outcomes.len(),
{
    if k > 0 {
        let rest = outcomes.drop_first();
        assert(outcomes[0] is Ok);
        assert(rest[k - 1] == outcomes[k]);
        assert forall|i: int| 0 <= i < k - 1 implies rest[i] is Ok by {
            assert(rest[i] == outcomes[i + 1]);
        }
        lemma_first_error_at(rest, k - 1);
    }
}

/// None of `outcomes` failed: then there is no first error.
proof fn lemma_first_error_none<U, E>(outcomes: Seq<Result<U, E>>)
    requires
        forall|i: int| 0 <= i < outcomes.len() ==> outcomes[i] is Ok,
    ensures
        first_error(outcomes) is None,
    decreases outcomes.len(),
{
    if outcomes.len() > 0 {
        let rest = outcomes.drop_first();
        assert(outcomes[0] is Ok);
        assert forall|i: int| 0 <= i < rest.len() implies rest[i] is Ok by {
            assert(rest[i] == outcomes[i + 1]);
        }
        lemma_first_error_none(rest);
    }
}

/// Construction by a function. Where parsing is the function `p`, a
/// construction from `src` gives exactly `src` mapped with `p`: a container
/// of the parsed fields where every field parses, and else the error of the
/// first field that fails.
pub proof fn lemma_from_by_function<F: FromField>(
    src: Layout<syn::Field>,
    p: spec_fn(syn::Field) -> Result<F, F::Error>,
    out: Result<VariantData<F>, F::Error>,
)
    requires
        parses_as::<F>(p),
        built_from::<F>(src, out),
    ensures
        outcome_view(out) == src.try_map(p),
{
    let raw = src.fields();
    let outcomes = raw.map_values(p);
    match out {
        Ok(data) => {
            assert forall|i: int| 0 <= i < outcomes.len() implies outcomes[i] == Ok::<
                F,
                F::Error,
            >(data@.fields()[i]) by {
                assert(parse_allows::<F>(raw[i], Ok(data@.fields()[i])));
            }
            lemma_first_error_none(outcomes);
            assert(data@.fields() =~= outcomes.map_values(
                |outcome: Result<F, F::Error>| outcome->Ok_0,
            ));
        },
        Err(error) => {
            let done = choose|done: Seq<F>| stopped_at::<F>(raw, done, error);
            let k = done.len() as int;
            assert forall|i: int| 0 <= i < k implies outcomes[i] is Ok by {
                assert(parse_allows::<F>(raw[i], Ok(done[i])));
            }
            lemma_first_error_at(outcomes, k);
        },
    }
}

} // verus!
