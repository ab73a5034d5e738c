//! Content-addressed message ids.
//!
//! A message id is a deterministic hash of the payload bytes alone
//! (64-bit FNV-1a), so two messages with identical bytes always collapse
//! to the same id, whoever sent them.

use vstd::prelude::*;

verus! {

/// FNV-1a 64-bit offset basis.
pub const FNV_OFFSET_BASIS: u64 = 0xcbf29ce484222325;

/// FNV-1a 64-bit prime.
pub const FNV_PRIME: u64 = 0x100000001b3;

/// One FNV-1a round: fold a byte into the running hash.
pub open spec fn fnv_step(h: u64, b: u8) -> u64 {
    vstd::wrapping::u64_specs::wrapping_mul(h ^ (b as u64), FNV_PRIME)
}

/// FNV-1a 64-bit hash of a byte sequence.
pub open spec fn fnv_hash(bytes: Seq<u8>) -> u64
    decreases bytes.len(),
{
    if bytes.len() == 0 {
        FNV_OFFSET_BASIS
    } else {
        fnv_step(fnv_hash(bytes.drop_last()), bytes.last())
    }
}

/// Identifier of a gossip message, derived purely from the payload bytes.
#[derive(Clone, Copy, Debug, PartialEq, Eq, Structural)]
pub struct MessageId {
    pub value: u64,
}

/// The id that any message with the given payload bytes carries.
pub open spec fn message_id_of(payload: Seq<u8>) -> MessageId {
    MessageId { value: fnv_hash(payload) }
}

/// The id of a text message: the hash of the text's UTF-8 bytes.
pub open spec fn text_message_id(text: Seq<char>) -> MessageId {
    message_id_of(vstd::utf8::encode_utf8(text))
}

/// Content addressing: the id is a function of the payload bytes alone,
/// so payloads with identical bytes always carry identical ids.
pub proof fn lemma_message_id_content_addressed(p1: Seq<u8>, p2: Seq<u8>)
    requires
        p1 == p2,
    ensures
        message_id_of(p1) == message_id_of(p2),
{
}

/// FNV-1a 64-bit hash of a byte slice.
pub fn content_hash(bytes: &[u8]) -> (h: u64)
    ensures
        h == fnv_hash(bytes@),
{
    let mut h: u64 = FNV_OFFSET_BASIS;
    let mut i: usize = 0;
    while i < bytes.len()
        invariant
            i <= bytes@.len(),
            h == fnv_hash(bytes@.take(i as int)),
        decreases bytes@.len() - i,
    {
        let b: u8 = bytes[i];
        h = (h ^ (b as u64)).wrapping_mul(FNV_PRIME);
        proof {
            assert(bytes@.take(i + 1).drop_last() =~= bytes@.take(i as int));
            assert(bytes@.take(i + 1).last() == b);
        }
        i = i + 1;
    }
    proof {
        assert(bytes@.take(bytes@.len() as int) =~= bytes@);
    }
    h
}

/// The content-addressed id of a message with the given payload bytes.
pub fn compute_message_id(payload: &[u8]) -> (id: MessageId)
    ensures
        id == message_id_of(payload@),
{
    MessageId { value: content_hash(payload) }
}

/// The content-addressed id of a text message, over its UTF-8 bytes.
pub fn message_id_for_text(text: &str) -> (id: MessageId)
    ensures
        id == text_message_id(text@),
{
    compute_message_id(text.as_bytes())
}

} // verus!
