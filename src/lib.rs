//! A statically-typed color value model: a color is a tuple of components
//! tagged with the encoding that says how those components are laid out and
//! how they map to a canonical linear color space.
//!
//! The catalogue of encodings ([`registry`]) and the conversion relation with
//! the route each conversion takes ([`routing`]) are plain data; the encoding
//! types ([`encodings`]) are tied to that data by the traits in [`traits`], so
//! that a conversion that type-checks is one the catalogue declares.
pub mod basic_encodings;
pub mod color;
pub mod component_structs;
pub mod encodings;
pub mod registry;
pub mod reprs;
pub mod routing;
pub mod traits;

pub use color::Color;
pub use traits::{ColorEncoding, ColorInto, PerceptualEncoding, WorkingEncoding};
