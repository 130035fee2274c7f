//! A shape-preserving container for the fields of a declaration.
//!
//! A struct or an enum variant declares its fields in one of three layouts:
//! positionally (a tuple), by name (a struct body), or not at all (a unit).
//! [`VariantData`] keeps that layout around a payload of any type, so that a
//! list of raw syntax-tree fields can be parsed, borrowed and mapped without
//! losing track of which layout it came from.
//!
//! Every function is specified against [`Layout`], the mathematical model of
//! the container, and proved to meet its contract.

pub mod layout;
pub mod syntax;
pub mod from_field;
pub mod variant_data;
pub mod laws;

pub use crate::from_field::FromField;
pub use crate::layout::Layout;
pub use crate::variant_data::VariantData;
