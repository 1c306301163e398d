//! Bags of named components that a raw representation reads as.
use vstd::prelude::*;
use crate::reprs::{U8Repr, U8aRepr};
use crate::traits::ComponentStructFor;

verus! {

/// Components named R, G, B.
#[derive(Clone, Copy, Debug, PartialEq, Eq, Hash)]
pub struct Rgb<T> {
    pub r: T,
    pub g: T,
    pub b: T,
}

/// Components named R, G, B, A.
#[derive(Clone, Copy, Debug, PartialEq, Eq, Hash)]
pub struct Rgba<T> {
    pub r: T,
    pub g: T,
    pub b: T,
    pub a: T,
}

/// Components named L, a, b.
#[derive(Clone, Copy, Debug, PartialEq, Eq, Hash)]
pub struct Lab<T> {
    pub l: T,
    pub a: T,
    pub b: T,
}

impl ComponentStructFor<U8Repr> for Rgb<u8> {
    open spec fn components_of(repr: U8Repr) -> Self {
        Rgb { r: repr[0], g: repr[1], b: repr[2] }
    }

    open spec fn repr_of(self) -> U8Repr {
        [self.r, self.g, self.b]
    }

    proof fn lemma_same_layout(repr: U8Repr, components: Self) {
        assert(Self::repr_of(Self::components_of(repr)) =~= repr);
    }

    fn cast(repr: &U8Repr) -> (r: Self) {
        Rgb { r: repr[0], g: repr[1], b: repr[2] }
    }

    fn store(self, repr: &mut U8Repr) {
        *repr = [self.r, self.g, self.b];
    }
}

impl ComponentStructFor<U8aRepr> for Rgba<u8> {
    open spec fn components_of(repr: U8aRepr) -> Self {
        Rgba { r: repr[0], g: repr[1], b: repr[2], a: repr[3] }
    }

    open spec fn repr_of(self) -> U8aRepr {
        [self.r, self.g, self.b, self.a]
    }

    proof fn lemma_same_layout(repr: U8aRepr, components: Self) {
        assert(Self::repr_of(Self::components_of(repr)) =~= repr);
    }

    fn cast(repr: &U8aRepr) -> (r: Self) {
        Rgba { r: repr[0], g: repr[1], b: repr[2], a: repr[3] }
    }

    fn store(self, repr: &mut U8aRepr) {
        *repr = [self.r, self.g, self.b, self.a];
    }
}

impl ComponentStructFor<U8Repr> for Lab<u8> {
    open spec fn components_of(repr: U8Repr) -> Self {
        Lab { l: repr[0], a: repr[1], b: repr[2] }
    }

    open spec fn repr_of(self) -> U8Repr {
        [self.l, self.a, self.b]
    }

    proof fn lemma_same_layout(repr: U8Repr, components: Self) {
        assert(Self::repr_of(Self::components_of(repr)) =~= repr);
    }

    fn cast(repr: &U8Repr) -> (r: Self) {
        Lab { l: repr[0], a: repr[1], b: repr[2] }
    }

    fn store(self, repr: &mut U8Repr) {
        *repr = [self.l, self.a, self.b];
    }
}

} // verus!
