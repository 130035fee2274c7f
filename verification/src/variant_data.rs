//! The container and its operations.

use vstd::prelude::*;
use syn::VariantData as Descriptor;
use crate::from_field::{
    fails_first_at, fails_with, never_fails, parse_allows, parse_fields, parses_as, parses_to,
    FromField,
};
use crate::laws::{lemma_first_failure_wins, lemma_from_by_function, lemma_map_by_function};
use crate::layout::{computes, Layout};
use crate::syntax::layout_of;

verus! {

/// The fields of a struct body or of an enum variant, each held as a `T`,
/// together with the layout they were declared in.
///
/// The model of a container is its [`Layout`]: the same variant, around the
/// sequence that the `Vec` holds.
#[derive(Debug, Clone, PartialEq, Eq)]
pub enum VariantData<T> {
    /// Fields told apart by position, as in `struct Pair(u8, u8);`.
    Tuple(Vec<T>),
    /// Fields told apart by name, as in `struct Pair { left: u8, right: u8 }`,
    /// in the order they were declared.
    Struct(Vec<T>),
    /// No fields, as in `struct Marker;`.
    Unit,
}

impl<T> View for VariantData<T> {
    type V = Layout<T>;

    open spec fn view(&self) -> Layout<T> {
        match *self {
            VariantData::Tuple(items) => Layout::Tuple(items@),
            VariantData::Struct(items) => Layout::Struct(items@),
            VariantData::Unit => Layout::Unit,
        }
    }
}

/// `out` is what constructing a container from `src` can give. A container
/// has the layout of `src` and holds, for each raw field and in the same
/// order, what parsing that field gave. An error is what parsing one raw
/// field gave, every field before that one having parsed.
pub open spec fn built_from<F: FromField>(
    src: Layout<syn::Field>,
    out: Result<VariantData<F>, F::Error>,
) -> bool {
    match out {
        Ok(data) => parses_to::<F>(src, data@),
        Err(error) => fails_with::<F>(src.fields(), error),
    }
}

/// The outcome of a construction, with the container taken by its layout.
pub open spec fn outcome_view<T, E>(out: Result<VariantData<T>, E>) -> Result<Layout<T>, E> {
    match out {
        Ok(data) => Ok(data@),
        Err(error) => Err(error),
    }
}

/// A reference to each item of `items`, in the same order.
fn borrow_each<'a, T>(items: &'a Vec<T>) -> (out: Vec<&'a T>)
    ensures
        out@ == items@.as_ref(),
{
    let mut out: Vec<&'a T> = Vec::with_capacity(items.len());
    for item in it: items
        invariant
            it.seq().unref() == items@,
            out@ == items@.as_ref().take(it.index()),
    {
        out.push(item);
    }
    out
}

/// `f` of each item of `items`, applied from the first item on.
fn map_each<T, U, F>(items: Vec<T>, mut f: F) -> (out: Vec<U>) where F: FnMut(T) -> U
    requires
        forall|i: int| 0 <= i < items@.len() ==> call_requires(f, (#[trigger] items@[i],)),
    ensures
        out@.len() == items@.len(),
        forall|i: int| 0 <= i < items@.len() ==> call_ensures(f, (items@[i],), #[trigger] out@[i]),
{
    let ghost given = f;
    let ghost before = items@;
    let mut out: Vec<U> = Vec::with_capacity(items.len());
    for item in it: items.into_iter()
        invariant
            f == given,
            it.seq() == before,
            out@.len() == it.index(),
            forall|i: int| 0 <= i < before.len() ==> call_requires(given, (#[trigger] before[i],)),
            forall|i: int|
                0 <= i < it.index() ==> call_ensures(given, (before[i],), #[trigger] out@[i]),
    {
        out.push(f(item));
    }
    out
}

impl<T> VariantData<T> {
    /// A container of the layout that `src` describes, with no fields in it.
    pub fn empty_from(src: &Descriptor) -> (out: Self)
        ensures
            out@ == layout_of(*src).emptied::<T>(),
    {
        match *src {
            Descriptor::Struct(_) => VariantData::Struct(Vec::new()),
            Descriptor::Tuple(_) => VariantData::Tuple(Vec::new()),
            Descriptor::Unit => VariantData::Unit,
        }
    }

    /// Gets all field declarations, in declaration order. Returns an empty
    /// `Vec` for `VariantData::Unit`.
    pub fn fields<'a>(&'a self) -> (out: Vec<&'a T>)
        ensures
            out@ == self@.fields().as_ref(),
            out@.len() == self@.fields().len(),
            self@ is Unit ==> out@.len() == 0,
    {
        match *self {
            VariantData::Tuple(ref fields) | VariantData::Struct(ref fields) => borrow_each(fields),
            VariantData::Unit => Vec::new(),
        }
    }

    /// Applies `f` to each field, from the first on, and keeps the layout:
    /// the result is the same variant, around the results in the same order.
    /// `Unit` maps to `Unit`, and `f` is not called.
    ///
    /// `f` has to accept every field of the container, and nothing else is
    /// asked of it. Where `f` computes a function `g`, the result is exactly
    /// `g` of each field.
    pub fn map<F, U>(self, f: F) -> (out: VariantData<U>) where F: FnMut(T) -> U
        requires
            forall|i: int|
                0 <= i < self@.fields().len() ==> call_requires(f, (#[trigger] self@.fields()[i],)),
        ensures
            self@.mapped_by(f, out@),
            forall|g: spec_fn(T) -> U| #[trigger] computes(f, g) ==> out@ == self@.map(g),
    {
        let out = match self {
            VariantData::Tuple(fields) => VariantData::Tuple(map_each(fields, f)),
            VariantData::Struct(fields) => VariantData::Struct(map_each(fields, f)),
            VariantData::Unit => VariantData::Unit,
        };
        proof {
            assert forall|g: spec_fn(T) -> U| #[trigger] computes(f, g) implies out@ == self@.map(
                g,
            ) by {
                lemma_map_by_function(self@, f, g, out@);
            }
        }
        out
    }

    /// The same layout around a reference to each field, in the same order.
    /// Nothing is copied or moved.
    pub fn as_ref<'a>(&'a self) -> (out: VariantData<&'a T>)
        ensures
            out@ == self@.as_ref(),
    {
        match *self {
            VariantData::Tuple(ref fields) => VariantData::Tuple(borrow_each(fields)),
            VariantData::Struct(ref fields) => VariantData::Struct(borrow_each(fields)),
            VariantData::Unit => VariantData::Unit,
        }
    }
}

impl<F: FromField> VariantData<F> {
    /// Parses every raw field of `vd`, in declaration order, into a container
    /// of the same layout. The first field that fails to parse ends the
    /// construction: its error is handed back as it is, and no container.
    ///
    /// A descriptor without fields cannot fail, and `Unit` gives `Unit`.
    /// Where no field can fail, the construction succeeds; where some field
    /// is the first that fails, the construction fails with its error. Where
    /// parsing is a function `p` of the field, the outcome is exactly the
    /// descriptor's layout mapped with `p`.
    pub fn from(vd: &Descriptor) -> (out: Result<Self, F::Error>)
        ensures
            built_from::<F>(layout_of(*vd), out),
            layout_of(*vd).fields().len() == 0 ==> out is Ok,
            vd is Unit ==> (out matches Ok(data) && data@ is Unit),
            never_fails::<F>(layout_of(*vd).fields()) ==> out is Ok,
            forall|k: int| #[trigger]
                fails_first_at::<F>(layout_of(*vd).fields(), k) ==> (out matches Err(error)
                    && parse_allows::<F>(layout_of(*vd).fields()[k], Err(error))),
            forall|p: spec_fn(syn::Field) -> Result<F, F::Error>| #[trigger]
                parses_as::<F>(p) ==> outcome_view(out) == layout_of(*vd).try_map(p),
    {
        let out = match *vd {
            Descriptor::Unit => Ok(VariantData::Unit),
            Descriptor::Tuple(ref raw) => match parse_fields::<F>(raw) {
                Ok(items) => Ok(VariantData::Tuple(items)),
                Err(error) => Err(error),
            },
            Descriptor::Struct(ref raw) => match parse_fields::<F>(raw) {
                Ok(items) => Ok(VariantData::Struct(items)),
                Err(error) => Err(error),
            },
        };
        proof {
            let src = layout_of(*vd);
            assert forall|k: int| #[trigger] fails_first_at::<F>(src.fields(), k) implies (
            out matches Err(error) && parse_allows::<F>(src.fields()[k], Err(error))) by {
                lemma_first_failure_wins::<F>(src, k, out);
            }
            assert forall|p: spec_fn(syn::Field) -> Result<F, F::Error>| #[trigger]
                parses_as::<F>(p) implies outcome_view(out) == src.try_map(p) by {
                lemma_from_by_function::<F>(src, p, out);
            }
        }
        out
    }
}

} // verus!
