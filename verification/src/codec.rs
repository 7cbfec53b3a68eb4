//! The payload codec interface, the tagged value a successful decode
//! returns, and the decode error taxonomy.
//!
//! Field-level binary layout is delegated to an externally supplied payload
//! codec: a closed payload type implements [`VariantCodec`], stating its own
//! wire format at the specification level and proving that decoding inverts
//! encoding.

use vstd::prelude::*;

verus! {

use vstd::bytes::lemma_auto_spec_u64_to_from_le_bytes;
use vstd::bytes::spec_u64_from_le_bytes;
use vstd::bytes::spec_u64_to_le_bytes;
use vstd::bytes::u64_from_le_bytes;
use vstd::bytes::u64_to_le_bytes;
use vstd::string::StringExecFns;

/// A closed payload type covering the variants of one registry: it decides,
/// per variant index, how payload bytes encode and decode.
///
/// Implementors state their wire format through the three spec functions and
/// prove, in `payload_round_trip`, that decoding a value's own encoding
/// under its own variant yields the value back.
pub trait VariantCodec: Sized {
    /// The index of the registered variant this value belongs to.
    spec fn spec_variant(&self) -> int;

    /// The wire encoding of this value's payload.
    spec fn spec_payload(&self) -> Seq<u8>;

    /// What `bytes` decode to under the layout of variant `variant`, or
    /// `None` when they are structurally invalid for it.
    spec fn spec_decode(variant: int, bytes: Seq<u8>) -> Option<Self>;

    /// The index of the registered variant this value belongs to.
    fn variant_index(&self) -> (r: usize)
        ensures
            r as int == self.spec_variant(),
    ;

    /// Encodes this value's payload into its wire format.
    fn encode_payload(&self) -> (r: Vec<u8>)
        ensures
            r@ == self.spec_payload(),
    ;

    /// Decodes payload bytes under the layout of variant `variant`; on
    /// structural failure the error carries the underlying parse failure
    /// message.
    fn decode_payload(variant: usize, bytes: &[u8]) -> (r: Result<Self, String>)
        ensures
            r matches Ok(p) ==> Self::spec_decode(variant as int, bytes@) == Some(p),
            (r matches Err(_)) <==> Self::spec_decode(variant as int, bytes@) is None,
    ;

    /// Law: decoding a value's own encoding under its own variant yields
    /// the value back.
    proof fn payload_round_trip(p: Self)
        ensures
            Self::spec_decode(p.spec_variant(), p.spec_payload()) == Some(p),
    ;
}

/// A successfully classified and deserialized record: the matched variant's
/// identity and the decoded payload.
#[derive(Clone, Debug)]
pub struct TaggedValue<P> {
    /// Index of the matched variant, in the registry's declaration order.
    pub variant: usize,
    /// Name of the matched variant.
    pub name: String,
    /// The decoded payload.
    pub payload: P,
}

/// Why a raw record failed to decode.
#[derive(Clone, Debug, PartialEq, Eq)]
pub enum DecodeError {
    /// The input holds fewer than the 8 bytes a discriminator needs.
    MalformedRecord,
    /// The leading 8 bytes match no registered variant's discriminator.
    UnknownDiscriminator,
    /// The tag matched, but the payload bytes fail structural
    /// deserialization under the matched variant's codec.
    PayloadDecodeError {
        /// Index of the matched variant.
        variant: usize,
        /// Name of the matched variant.
        name: String,
        /// The underlying parse failure.
        cause: String,
    },
}

/// A minimal payload codec for exercising the dispatcher: every variant's
/// payload is a single `u64` in 8 little-endian bytes.
#[derive(Clone, Copy, Debug, PartialEq, Eq, Structural)]
pub struct WordPayload {
    /// Index of the registered variant this value belongs to.
    pub variant: usize,
    /// The payload value.
    pub value: u64,
}

impl VariantCodec for WordPayload {
    open spec fn spec_variant(&self) -> int {
        self.variant as int
    }

    open spec fn spec_payload(&self) -> Seq<u8> {
        spec_u64_to_le_bytes(self.value)
    }

    open spec fn spec_decode(variant: int, bytes: Seq<u8>) -> Option<Self> {
        if bytes.len() == 8 && 0 <= variant <= usize::MAX as int {
            Some(WordPayload { variant: variant as usize, value: spec_u64_from_le_bytes(bytes) })
        } else {
            None
        }
    }

    fn variant_index(&self) -> (r: usize) {
        self.variant
    }

    fn encode_payload(&self) -> (r: Vec<u8>) {
        u64_to_le_bytes(self.value)
    }

    fn decode_payload(variant: usize, bytes: &[u8]) -> (r: Result<Self, String>) {
        if bytes.len() == 8 {
            let value = u64_from_le_bytes(bytes);
            Ok(WordPayload { variant, value })
        } else {
            Err("payload is not exactly 8 bytes".to_owned())
        }
    }

    proof fn payload_round_trip(p: Self) {
        lemma_auto_spec_u64_to_from_le_bytes();
    }
}

} // verus!
