//! The mathematical model: a layout tag around a sequence of fields.

use vstd::prelude::*;

verus! {

/// What a field container is, as mathematics: one of the three layouts, two
/// of which carry a finite sequence of fields in declaration order.
///
/// `Unit` is a layout of its own. A `Tuple` or a `Struct` whose sequence
/// happens to be empty is a different value, though [`Layout::fields`] reads
/// the same from all three.
pub enum Layout<T> {
    /// Fields told apart by position only.
    Tuple(Seq<T>),
    /// Fields told apart by name, in the order they were declared.
    Struct(Seq<T>),
    /// No fields.
    Unit,
}

impl<T> Layout<T> {
    /// Every field in declaration order; the empty sequence for `Unit`.
    pub open spec fn fields(self) -> Seq<T> {
        match self {
            Layout::Tuple(items) => items,
            Layout::Struct(items) => items,
            Layout::Unit => Seq::empty(),
        }
    }

    /// Both values are the same variant, whatever they carry.
    pub open spec fn same_shape<U>(self, other: Layout<U>) -> bool {
        match self {
            Layout::Tuple(_) => other is Tuple,
            Layout::Struct(_) => other is Struct,
            Layout::Unit => other is Unit,
        }
    }

    /// The same variant around other fields. `Unit` carries nothing, so it
    /// stays `Unit` whatever `fields` holds.
    pub open spec fn with_fields<U>(self, fields: Seq<U>) -> Layout<U> {
        match self {
            Layout::Tuple(_) => Layout::Tuple(fields),
            Layout::Struct(_) => Layout::Struct(fields),
            Layout::Unit => Layout::Unit,
        }
    }

    /// The same variant with nothing in it.
    pub open spec fn emptied<U>(self) -> Layout<U> {
        self.with_fields(Seq::<U>::empty())
    }

    /// The same variant around `f` of each field, in the same order.
    pub open spec fn map<U>(self, f: spec_fn(T) -> U) -> Layout<U> {
        self.with_fields(self.fields().map_values(f))
    }

    /// `out` is what mapping with the executable function `f` can give: the
    /// same variant, as many fields, and field `i` of `out` a result of `f`
    /// on field `i` of `self`.
    pub open spec fn mapped_by<U, F: FnOnce(T) -> U>(self, f: F, out: Layout<U>) -> bool {
        &&& out.same_shape(self)
        &&& out.fields().len() == self.fields().len()
        &&& forall|i: int|
            0 <= i < self.fields().len() ==> call_ensures(
                f,
                (self.fields()[i],),
                #[trigger] out.fields()[i],
            )
    }

    /// Mapping with a function that may fail. Where `f` gives an item for
    /// every field: the same variant around those items, in the same order.
    /// Else: the error that `f` gives for the first field on which it fails.
    pub open spec fn try_map<U, E>(self, f: spec_fn(T) -> Result<U, E>) -> Result<Layout<U>, E> {
        let outcomes = self.fields().map_values(f);
        match first_error(outcomes) {
            Some(error) => Err(error),
            None => Ok(
                self.with_fields(outcomes.map_values(|outcome: Result<U, E>| outcome->Ok_0)),
            ),
        }
    }

    /// The same variant around a reference to each field, in the same order.
    pub open spec fn as_ref(&self) -> Layout<&T> {
        self.with_fields(self.fields().as_ref())
    }
}

/// The error of the first failure among `outcomes`, if any of them failed.
pub open spec fn first_error<U, E>(outcomes: Seq<Result<U, E>>) -> Option<E>
    decreases outcomes.len(),
{
    if outcomes.len() == 0 {
        None
    } else if outcomes.first() is Err {
        Some(outcomes.first()->Err_0)
    } else {
        first_error(outcomes.drop_first())
    }
}

/// The executable function `f` computes `g`: whatever `f` returns for an
/// argument is `g` of that argument.
pub open spec fn computes<T, U, F: FnOnce(T) -> U>(f: F, g: spec_fn(T) -> U) -> bool {
    forall|x: T, y: U| #[trigger] call_ensures(f, (x,), y) ==> y == g(x)
}

} // verus!
