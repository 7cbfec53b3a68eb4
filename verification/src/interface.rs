//! Traits for generated tagged-union types.
//!
//! Generated client code implements these for its closed account or
//! instruction union, typically by delegating to a registry built once from
//! the declared names.

use vstd::prelude::*;

verus! {

use crate::codec::DecodeError;
use crate::registry::LookupError;

/// Classifies raw record bytes by their leading 8-byte discriminator and
/// deserializes the matched variant's payload.
pub trait Decode: Sized {
    /// Decodes a raw record into the implementing tagged-union type.
    fn decode(data: &[u8]) -> Result<Self, DecodeError>;
}

/// Name-based lookup over the implementing type's registered variants.
pub trait NameToDiscrim: Sized {
    /// Returns the precomputed discriminator of the registered variant
    /// carrying `name`; no hash is recomputed for arbitrary input.
    fn name_to_discrim(name: &str) -> Result<[u8; 8], LookupError>;
}

/// Tag-based lookup over the implementing type's registered variants.
pub trait DiscrimToName: Sized {
    /// Returns the name of the registered variant whose discriminator is
    /// `discrim`.
    fn discrim_to_name(discrim: [u8; 8]) -> Result<String, LookupError>;
}

} // verus!
