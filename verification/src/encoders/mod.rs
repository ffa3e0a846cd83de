//! Encoders: their identifiers and the choice among the available ones.
pub mod enums;

pub use enums::{ObsAudioEncoderType, ObsVideoEncoderType};

use vstd::prelude::*;
use vstd::utf8::encode_utf8;

use crate::enums::ObsEncoderType;
use crate::utils::error::ObsError;
use crate::utils::text::spec_texts;

verus! {

/// Encoder capabilities that keep an encoder out of the lists offered to
/// users: deprecated (1) and internal (8) encoders.
pub const ENCODER_HIDE_FLAGS: u32 = 9;

/// An encoder that libobs reports: its identifier, capability flags and type.
#[derive(Debug, Clone)]
pub struct EncoderCandidate {
    pub id: String,
    pub caps: u32,
    pub encoder_type: u32,
}

/// Whether an encoder is offered for the given type: it has none of the hiding
/// capabilities and is of that type.
pub open spec fn spec_is_offered(c: EncoderCandidate, encoder_type: ObsEncoderType) -> bool {
    c.caps & ENCODER_HIDE_FLAGS == 0 && c.encoder_type == encoder_type.spec_raw()
}

/// The identifiers of the offered encoders, in the order libobs reports them.
pub open spec fn spec_offered_ids(cs: Seq<EncoderCandidate>, encoder_type: ObsEncoderType) -> Seq<
    Seq<char>,
>
    decreases cs.len(),
{
    if cs.len() == 0 {
        Seq::<Seq<char>>::empty()
    } else {
        let rest = spec_offered_ids(cs.drop_last(), encoder_type);
        if spec_is_offered(cs.last(), encoder_type) {
            rest.push(cs.last().id@)
        } else {
            rest
        }
    }
}

/// Whether a candidate is offered, read off its fields: neither the
/// deprecated (1) nor the internal (8) capability, and the requested type.
pub open spec fn spec_offered_fields(c: EncoderCandidate, encoder_type: ObsEncoderType) -> bool {
    c.caps & 1u32 == 0 && c.caps & 8u32 == 0 && c.encoder_type == encoder_type.spec_raw()
}

/// An identifier is among the offered ones exactly when some candidate with
/// that identifier has neither the deprecated (1) nor the internal (8)
/// capability and is of the requested type; all other capabilities, such as
/// dynamic bitrate or regions of interest, leave an encoder offered.
pub proof fn lemma_offered_ids_by_fields(
    cs: Seq<EncoderCandidate>,
    encoder_type: ObsEncoderType,
    t: Seq<char>,
)
    ensures
        spec_offered_ids(cs, encoder_type).contains(t) <==> exists|k: int|
            0 <= k < cs.len() && spec_offered_fields(#[trigger] cs[k], encoder_type) && cs[k].id@ == t,
    decreases cs.len(),
{
    if cs.len() > 0 {
        let init = cs.drop_last();
        let c = cs.last();
        lemma_offered_ids_by_fields(init, encoder_type, t);
        lemma_hide_flags_bits(c.caps);
        let rest = spec_offered_ids(init, encoder_type);
        if spec_offered_ids(cs, encoder_type).contains(t) {
            if spec_is_offered(c, encoder_type) && c.id@ == t {
                assert(cs[cs.len() - 1] == c);
            } else {
                let i = choose|i: int| 0 <= i < spec_offered_ids(cs, encoder_type).len()
                    && spec_offered_ids(cs, encoder_type)[i] == t;
                if spec_is_offered(c, encoder_type) {
                    assert(i < rest.len());
                    assert(rest[i] == t);
                } else {
                    assert(rest[i] == t);
                }
                let k = choose|k: int|
                    0 <= k < init.len() && spec_offered_fields(#[trigger] init[k], encoder_type)
                        && init[k].id@ == t;
                assert(cs[k] == init[k]);
            }
        }
        if exists|k: int|
            0 <= k < cs.len() && spec_offered_fields(#[trigger] cs[k], encoder_type) && cs[k].id@ == t {
            let k = choose|k: int|
                0 <= k < cs.len() && spec_offered_fields(#[trigger] cs[k], encoder_type) && cs[k].id@ == t;
            if k == cs.len() - 1 {
                assert(spec_offered_ids(cs, encoder_type) == rest.push(t));
                assert(rest.push(t)[rest.len() as int] == t);
            } else {
                assert(init[k] == cs[k]);
                assert(rest.contains(t));
                let i = choose|i: int| 0 <= i < rest.len() && rest[i] == t;
                if spec_is_offered(c, encoder_type) {
                    assert(rest.push(c.id@)[i] == t);
                }
            }
        }
    }
}

/// Hiding by the flags is hiding by the deprecated and internal bits.
proof fn lemma_hide_flags_bits(caps: u32)
    ensures
        (caps & ENCODER_HIDE_FLAGS == 0) <==> (caps & 1u32 == 0 && caps & 8u32 == 0),
{
    assert((caps & 9u32 == 0) <==> (caps & 1u32 == 0 && caps & 8u32 == 0)) by (bit_vector);
}


/// Byte-wise lexicographic order, the order of `str` and `String`.
pub open spec fn spec_bytes_le(a: Seq<u8>, b: Seq<u8>) -> bool
    decreases a.len(),
{
    if a.len() == 0 {
        true
    } else if b.len() == 0 {
        false
    } else if a[0] != b[0] {
        a[0] < b[0]
    } else {
        spec_bytes_le(a.drop_first(), b.drop_first())
    }
}

/// Whether texts are in ascending order of their UTF-8 bytes.
pub open spec fn spec_sorted_texts(s: Seq<Seq<char>>) -> bool {
    forall|i: int, j: int|
        0 <= i < j < s.len() ==> spec_bytes_le(
            #[trigger] encode_utf8(s[i]),
            #[trigger] encode_utf8(s[j]),
        )
}

/// std's `slice::sort_unstable` on strings.
/// Claimed: the same strings afterwards, in ascending order, which for strings
/// is the lexicographic order of their bytes.
#[verifier::external_body]
fn sort_strings(v: &mut Vec<String>)
    ensures
        spec_texts(final(v)@).to_multiset() == spec_texts(old(v)@).to_multiset(),
        spec_sorted_texts(spec_texts(final(v)@)),
{
    v.sort_unstable();
}

/// The identifiers of the encoders of a type that are offered to users,
/// sorted: those without the hiding capabilities, of that type.
pub fn offered_encoders(candidates: &Vec<EncoderCandidate>, encoder_type: ObsEncoderType) -> (r: Vec<
    String,
>)
    ensures
        spec_texts(r@).to_multiset() == spec_offered_ids(candidates@, encoder_type).to_multiset(),
        spec_sorted_texts(spec_texts(r@)),
        forall|t: Seq<char>|
            #![trigger spec_texts(r@).contains(t)]
            spec_texts(r@).contains(t) <==> exists|k: int|
                0 <= k < candidates@.len() && spec_offered_fields(#[trigger] candidates@[k], encoder_type)
                    && candidates@[k].id@ == t,
{
    let wanted = encoder_type.to_raw();
    let mut ids: Vec<String> = Vec::new();
    let mut i: usize = 0;
    while i < candidates.len()
        invariant
            i <= candidates@.len(),
            wanted == encoder_type.spec_raw(),
            spec_texts(ids@) == spec_offered_ids(candidates@.take(i as int), encoder_type),
        decreases candidates@.len() - i,
    {
        let c = &candidates[i];
        assert(candidates@.take(i as int + 1).drop_last() =~= candidates@.take(i as int));
        assert(candidates@.take(i as int + 1).last() == candidates@[i as int]);
        if c.caps & ENCODER_HIDE_FLAGS == 0 && c.encoder_type == wanted {
            let id = c.id.clone();
            ids.push(id);
            assert(spec_texts(ids@) =~= spec_texts(ids@.drop_last()).push(ids@.last()@));
        }
        i = i + 1;
    }
    assert(candidates@.take(candidates@.len() as int) =~= candidates@);
    sort_strings(&mut ids);
    proof {
        assert forall|t: Seq<char>|
            #![trigger spec_texts(ids@).contains(t)]
            spec_texts(ids@).contains(t) <==> exists|k: int|
                0 <= k < candidates@.len() && spec_offered_fields(#[trigger] candidates@[k], encoder_type)
                    && candidates@[k].id@ == t by {
            lemma_offered_ids_by_fields(candidates@, encoder_type, t);
            vstd::seq_lib::to_multiset_contains(spec_texts(ids@), t);
            vstd::seq_lib::to_multiset_contains(spec_offered_ids(candidates@, encoder_type), t);
            assert(spec_texts(ids@).to_multiset().count(t) == spec_offered_ids(candidates@, encoder_type).to_multiset().count(t));
        }
    }
    ids
}

/// The first of the offered encoders, which the wrapper picks as the best one;
/// `NoAvailableEncoders` when there is none.
pub fn first_encoder(ids: &Vec<String>) -> (r: Result<String, ObsError>)
    ensures
        ids@.len() == 0 ==> r == Err::<String, ObsError>(ObsError::NoAvailableEncoders),
        ids@.len() > 0 ==> (r matches Ok(s) && s@ == ids@[0]@),
{
    if ids.len() == 0 {
        Err(ObsError::NoAvailableEncoders)
    } else {
        Ok(ids[0].clone())
    }
}

/// The hiding capabilities are libobs's `OBS_ENCODER_CAP_DEPRECATED` (1) and
/// `OBS_ENCODER_CAP_INTERNAL` (8), and no other.
pub proof fn lemma_hide_flags_value()
    ensures
        ENCODER_HIDE_FLAGS == 9,
        forall|caps: u32| (caps & ENCODER_HIDE_FLAGS == 0) <==> (caps & 1u32 == 0 && caps & 8u32 == 0),
{
    assert forall|caps: u32| (caps & ENCODER_HIDE_FLAGS == 0) <==> (caps & 1u32 == 0 && caps & 8u32 == 0) by {
        lemma_hide_flags_bits(caps);
    }
}

} // verus!
