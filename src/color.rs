//! The color value: a raw representation tagged with its encoding.
use vstd::prelude::*;
use crate::registry::EncodingId;
use crate::routing::{composite_encoding, lemma_composite_round_trip, plan_conversion, route_between, Route};
use crate::traits::{AlphaOver, ByteEncoding, ColorEncoding, ColorInto, ComponentStructFor, ConvertFrom};

verus! {

/// A color in the encoding `E`: exactly one raw representation, copied by
/// value. Equality and hashing are those of the 8-bit lanes.
#[derive(Clone, Copy, Debug, PartialEq, Eq, Hash)]
pub struct Color<E: ByteEncoding> {
    pub repr: E::Repr,
}

impl<E: ByteEncoding> Color<E> {
    /// Wraps a raw representation.
    pub fn from_repr(repr: E::Repr) -> (c: Self)
        ensures
            c.repr == repr,
    {
        Color { repr }
    }

    /// The encoding this color is in.
    pub fn encoding(&self) -> (r: EncodingId)
        ensures
            r == E::spec_id(),
    {
        E::id()
    }

    /// The components, by name.
    pub fn components(&self) -> (r: E::ComponentStruct)
        ensures
            r == E::ComponentStruct::components_of(self.repr),
    {
        E::ComponentStruct::cast(&self.repr)
    }

    /// Replaces the components; reading them back gives `components`.
    pub fn set_components(&mut self, components: E::ComponentStruct)
        ensures
            final(self).repr == components.repr_of(),
            E::ComponentStruct::components_of(final(self).repr) == components,
    {
        components.store(&mut self.repr);
        proof {
            E::ComponentStruct::lemma_same_layout(self.repr, components);
        }
    }
}

impl<E: ByteEncoding> ColorInto<Color<E>> for Color<E> {
    /// A color already in the wanted encoding is returned as it is.
    fn color_into(self) -> (r: Color<E>)
        ensures
            r == self,
    {
        self
    }
}

/// The route of the conversion from `Src` to `Dst`. A declared conversion
/// always has one, so this never fails.
pub fn route<Src: ColorEncoding, Dst: ConvertFrom<Src>>() -> (r: Route)
    ensures
        route_between(Src::spec_id(), Dst::spec_id()) == Some(r),
{
    proof {
        Dst::lemma_declared();
    }
    plan_conversion(Src::id(), Dst::id()).unwrap()
}

/// The two routes of alpha compositing in `E`: into the linear premultiplied
/// encoding where the "over" operator is computed, and back.
pub fn composite_routes<E: AlphaOver>() -> (r: (Route, Route))
    ensures
        route_between(E::spec_id(), EncodingId::SrgbaPremultiplied) == Some(r.0),
        route_between(EncodingId::SrgbaPremultiplied, E::spec_id()) == Some(r.1),
{
    proof {
        E::lemma_alpha_over();
        lemma_composite_round_trip(E::spec_id());
    }
    let own = E::id();
    let via = composite_encoding(own).unwrap();
    (plan_conversion(own, via).unwrap(), plan_conversion(via, own).unwrap())
}

} // verus!
