//! The traits that tie an encoding's type to its description in the
//! catalogue, and that mark what is legal on each encoding.
use vstd::prelude::*;
use crate::registry::{info_of, EncodingId};
use crate::routing::converts_from;

verus! {

/// Implemented by the raw data representation of a color encoding.
pub trait ColorRepr: Sized + Copy {
    /// The type of a single element of this representation.
    type Element: Copy;
}

/// A bag of named components that holds exactly the elements of `Repr`, in
/// the same order.
pub trait ComponentStructFor<Repr: ColorRepr>: Sized + Copy {
    /// The components that a raw value reads as.
    spec fn components_of(repr: Repr) -> Self;

    /// The raw value that holds these components.
    spec fn repr_of(self) -> Repr;

    /// Reading and writing back lose nothing, in both directions: the two
    /// layouts have the same element count, lane type and order.
    proof fn lemma_same_layout(repr: Repr, components: Self)
        ensures
            Self::repr_of(Self::components_of(repr)) == repr,
            Self::components_of(Self::repr_of(components)) == components,
    ;

    /// Reads a raw value as named components.
    fn cast(repr: &Repr) -> (r: Self)
        ensures
            r == Self::components_of(*repr),
    ;

    /// Writes the components back into a raw value.
    fn store(self, repr: &mut Repr)
        ensures
            *final(repr) == self.repr_of(),
    ;
}

/// A compile-time encoding tag, tied to its entry in the catalogue.
pub trait ColorEncoding: Sized {
    spec fn spec_id() -> EncodingId;

    fn id() -> (r: EncodingId)
        ensures
            r == Self::spec_id(),
    ;
}

/// An encoding whose raw representation has 8-bit lanes.
pub trait ByteEncoding: ColorEncoding {
    /// The raw data representation.
    type Repr: ColorRepr;

    /// The bag of components the raw representation reads as.
    type ComponentStruct: ComponentStructFor<Self::Repr>;
}

/// Marks an encoding in which mathematical operations on the stored values
/// directly are meaningful.
pub trait WorkingEncoding: ColorEncoding {
    proof fn lemma_working()
        ensures
            info_of(Self::spec_id()).working,
    ;
}

/// Marks an encoding designed to be perceptually uniform, so that blends in it
/// look even.
pub trait PerceptualEncoding: WorkingEncoding {
    proof fn lemma_perceptual()
        ensures
            info_of(Self::spec_id()).perceptual,
    ;
}

/// Marks an encoding that can do alpha compositing.
pub trait AlphaOver: ColorEncoding {
    proof fn lemma_alpha_over()
        ensures
            info_of(Self::spec_id()).alpha_over,
    ;
}

/// Implemented by byte encodings that can perform saturate-style clamping.
pub trait Saturate: ByteEncoding {
    fn saturate(repr: Self::Repr) -> Self::Repr;
}

/// Marks `Self` as an encoding that can be produced directly from `Src`.
/// Each implementation proves that the pair is declared in the catalogue, so a
/// conversion that type-checks always has a route.
pub trait ConvertFrom<Src: ColorEncoding>: ColorEncoding {
    proof fn lemma_declared()
        ensures
            converts_from(Self::spec_id(), Src::spec_id()),
    ;
}

impl<E: ColorEncoding> ConvertFrom<E> for E {
    proof fn lemma_declared() {
    }
}

/// Like `Into`, specialized for colors, so that a function can take a color in
/// any encoding that converts to the one it wants.
pub trait ColorInto<DstCol> {
    fn color_into(self) -> DstCol;
}

} // verus!
