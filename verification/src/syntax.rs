//! The syntax tree's types, as far as the container reads them.

use vstd::prelude::*;
use syn::VariantData as Descriptor;
use crate::layout::Layout;

verus! {

/// `syn::VariantData`, the shape descriptor of a struct body or of an enum
/// variant, known in this crate as `Descriptor` to keep it apart from the
/// container. The enum is taken as `syn` declares it, variants and all:
/// `Struct` and `Tuple` each hold a `Vec` of fields, `Unit` holds nothing.
/// The verifier reads that declaration from `syn` itself, and nothing more
/// is claimed of the type.
#[verifier::external_type_specification]
pub struct ExDescriptor(Descriptor);

/// `syn::Field`, one raw field of a declaration. The container never looks
/// inside a field, so the type is opaque here: a value of it can be borrowed
/// and handed to a parser, and nothing is known or claimed of what it holds.
#[verifier::external_type_specification]
#[verifier::external_body]
pub struct ExRawField(syn::Field);

/// The layout that a shape descriptor describes: its variant, around its raw
/// fields in declaration order.
pub open spec fn layout_of(src: Descriptor) -> Layout<syn::Field> {
    match src {
        Descriptor::Struct(raw) => Layout::Struct(raw@),
        Descriptor::Tuple(raw) => Layout::Tuple(raw@),
        Descriptor::Unit => Layout::Unit,
    }
}

} // verus!
