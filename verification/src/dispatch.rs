//! The decode dispatcher: classifies a raw record by its leading 8-byte tag
//! and deserializes the matched variant's payload, and the encoder that
//! forms such records.

use vstd::prelude::*;

verus! {

use vstd::slice::slice_index_get;
use vstd::slice::slice_subrange;

use crate::codec::DecodeError;
use crate::codec::TaggedValue;
use crate::codec::VariantCodec;
use crate::registry::discrim_eq;
use crate::registry::TaggedUnion;

impl TaggedUnion {
    /// Classifies `raw` by its leading 8-byte tag and deserializes the
    /// remainder under the matched variant's codec.
    ///
    /// Fails with `MalformedRecord` when `raw` is shorter than 8 bytes,
    /// with `UnknownDiscriminator` when the tag matches no registered
    /// variant, and with `PayloadDecodeError` naming the matched variant
    /// when its codec rejects the payload bytes. A given `raw` always
    /// produces the same result.
    pub fn decode<P: VariantCodec>(&self, raw: &[u8]) -> (r: Result<TaggedValue<P>, DecodeError>)
        ensures
            (r matches Ok(_)) <==> (raw@.len() >= 8 && exists|i: int|
                #[trigger] self.first_tag_match(raw@.take(8), i) && P::spec_decode(
                    i,
                    raw@.skip(8),
                ) is Some),
            (r matches Err(DecodeError::MalformedRecord)) <==> raw@.len() < 8,
            r matches Err(DecodeError::UnknownDiscriminator) ==> raw@.len() >= 8 && (forall|i: int|
                !self.tag_matches_at(raw@.take(8), i)),
            r matches Err(DecodeError::PayloadDecodeError { variant, name, .. }) ==> {
                &&& raw@.len() >= 8
                &&& self.first_tag_match(raw@.take(8), variant as int)
                &&& P::spec_decode(variant as int, raw@.skip(8)) is None
                &&& name@ == self@[variant as int].name@
            },
            r matches Ok(tv) ==> {
                &&& raw@.len() >= 8
                &&& self.first_tag_match(raw@.take(8), tv.variant as int)
                &&& P::spec_decode(tv.variant as int, raw@.skip(8)) == Some(tv.payload)
                &&& tv.name@ == self@[tv.variant as int].name@
            },
    {
        if raw.len() < 8 {
            return Err(DecodeError::MalformedRecord);
        }
        let tag: [u8; 8] = [
            *slice_index_get(raw, 0),
            *slice_index_get(raw, 1),
            *slice_index_get(raw, 2),
            *slice_index_get(raw, 3),
            *slice_index_get(raw, 4),
            *slice_index_get(raw, 5),
            *slice_index_get(raw, 6),
            *slice_index_get(raw, 7),
        ];
        assert(tag@ =~= raw@.take(8));
        let n = self.len();
        for i in 0..n
            invariant
                n == self@.len(),
                raw@.len() >= 8,
                tag@ == raw@.take(8),
                forall|j: int| 0 <= j < i ==> !self.tag_matches_at(raw@.take(8), j),
        {
            if discrim_eq(&self.variant_at(i).discriminator, &tag) {
                assert(self.first_tag_match(raw@.take(8), i as int));
                let payload_bytes: &[u8] = slice_subrange(raw, 8, raw.len());
                assert(payload_bytes@ =~= raw@.skip(8));
                let name = self.variant_at(i).name.clone();
                match P::decode_payload(i, payload_bytes) {
                    Ok(payload) => {
                        return Ok(TaggedValue { variant: i, name, payload });
                    },
                    Err(cause) => {
                        return Err(DecodeError::PayloadDecodeError { variant: i, name, cause });
                    },
                }
            }
        }
        Err(DecodeError::UnknownDiscriminator)
    }

    /// Forms the raw record of a payload: the discriminator of its variant
    /// followed by its payload encoding. Returns `None` when the payload's
    /// variant index is not registered.
    pub fn encode<P: VariantCodec>(&self, payload: &P) -> (r: Option<Vec<u8>>)
        ensures
            (r matches Some(_)) <==> 0 <= payload.spec_variant() < self@.len(),
            r matches Some(bytes) ==> bytes@ == self@[payload.spec_variant()].discriminator@
                + payload.spec_payload(),
    {
        let idx = payload.variant_index();
        if idx < self.len() {
            let d: [u8; 8] = self.variant_at(idx).discriminator;
            let mut out: Vec<u8> = Vec::new();
            out.push(d[0]);
            out.push(d[1]);
            out.push(d[2]);
            out.push(d[3]);
            out.push(d[4]);
            out.push(d[5]);
            out.push(d[6]);
            out.push(d[7]);
            assert(out@ =~= d@);
            let mut tail = payload.encode_payload();
            out.append(&mut tail);
            Some(out)
        } else {
            None
        }
    }
}

/// Law: decoding the record formed from a registered payload's
/// discriminator and payload encoding recovers exactly that payload, with
/// its own variant as the first (and only) tag match.
pub proof fn lemma_round_trip<P: VariantCodec>(tu: TaggedUnion, p: P)
    requires
        tu.wf(),
        0 <= p.spec_variant() < tu@.len(),
    ensures
        ({
            let raw = tu@[p.spec_variant()].discriminator@ + p.spec_payload();
            &&& raw.len() >= 8
            &&& tu.first_tag_match(raw.take(8), p.spec_variant())
            &&& P::spec_decode(p.spec_variant(), raw.skip(8)) == Some(p)
        }),
{
    let v = p.spec_variant();
    let raw = tu@[v].discriminator@ + p.spec_payload();
    assert(tu@[v].discriminator@.len() == 8);
    assert(raw.take(8) =~= tu@[v].discriminator@);
    assert(raw.skip(8) =~= p.spec_payload());
    assert(tu.tag_matches_at(raw.take(8), v));
    assert forall|j: int| 0 <= j < v implies !tu.tag_matches_at(raw.take(8), j) by {
        assert(tu@[j].discriminator@ != tu@[v].discriminator@);
    }
    P::payload_round_trip(p);
}

} // verus!
