//! The signature scheme of the ledger.
//!
//! A credential is an Ed25519 public key. A signature is the Ed25519
//! signature of the binding message's bytes, followed by those bytes, so
//! that a signature names the one output it was made for. The curve
//! arithmetic is the work of `ed25519-dalek`; the layout of a signature and
//! the comparison of the message it carries are verified here.

use vstd::prelude::*;
use vstd::bytes::{lemma_auto_spec_u64_to_from_le_bytes, spec_u64_to_le_bytes, u64_to_le_bytes};
use crate::model::{SignatureMessage, SignatureMessageView};

verus! {

/// Length of the Ed25519 signature that a signature begins with.
pub const TAG_LEN: usize = 64;

/// Length of the bytes of a binding message.
pub const MESSAGE_LEN: usize = 40;

/// Length of a signature: the Ed25519 signature and the message's bytes.
pub const SIGNATURE_LEN: usize = 104;

/// Whether `ed25519-dalek` takes `signature` for a strictly valid Ed25519
/// signature of `message` under the public key `key`.
pub uninterp spec fn ed25519_accepts(key: Seq<u8>, message: Seq<u8>, signature: Seq<u8>) -> bool;

/// A message as a signer meets it: a position that fits in 64 bits and a
/// transaction identifier of 32 bytes.
pub open spec fn well_formed(message: SignatureMessageView) -> bool {
    message.prev_out_idx <= u64::MAX && message.prev_out_tx_id.len() == 32
}

/// The bytes that are signed for a message: the position as eight bytes,
/// least significant first, then the transaction identifier.
pub open spec fn message_bytes(message: SignatureMessageView) -> Seq<u8> {
    spec_u64_to_le_bytes(message.prev_out_idx as u64) + message.prev_out_tx_id
}

/// Whether a signature authorizes spending an output locked by
/// `credential`, for the binding message `message`: it is made of an
/// Ed25519 signature and of exactly the message's bytes, and the former is
/// valid for the latter under the credential as public key.
pub open spec fn authorizes(
    credential: Seq<u8>,
    message: SignatureMessageView,
    signature: Seq<u8>,
) -> bool {
    &&& well_formed(message)
    &&& signature.len() == SIGNATURE_LEN
    &&& signature.subrange(TAG_LEN as int, SIGNATURE_LEN as int) == message_bytes(message)
    &&& ed25519_accepts(
        credential,
        message_bytes(message),
        signature.subrange(0, TAG_LEN as int),
    )
}

/// The bytes of a message are forty, and tell the message.
pub proof fn lemma_message_bytes_injective(m1: SignatureMessageView, m2: SignatureMessageView)
    requires
        well_formed(m1),
        well_formed(m2),
        message_bytes(m1) == message_bytes(m2),
    ensures
        message_bytes(m1).len() == MESSAGE_LEN,
        m1 == m2,
{
    lemma_auto_spec_u64_to_from_le_bytes();
    let p1 = spec_u64_to_le_bytes(m1.prev_out_idx as u64);
    let p2 = spec_u64_to_le_bytes(m2.prev_out_idx as u64);
    assert(message_bytes(m1).subrange(0, 8) =~= p1);
    assert(message_bytes(m2).subrange(0, 8) =~= p2);
    assert(message_bytes(m1).subrange(8, 40) =~= m1.prev_out_tx_id);
    assert(message_bytes(m2).subrange(8, 40) =~= m2.prev_out_tx_id);
    assert(p1 == p2);
    assert(m1.prev_out_idx as u64 == m2.prev_out_idx as u64);
}

/// A signature is bound to one message: what authorizes one message under
/// a credential authorizes no other under it.
pub proof fn lemma_authorizes_binds(
    c: Seq<u8>,
    m1: SignatureMessageView,
    m2: SignatureMessageView,
    s: Seq<u8>,
)
    requires
        authorizes(c, m1, s),
        authorizes(c, m2, s),
    ensures
        m1 == m2,
{
    lemma_message_bytes_injective(m1, m2);
}

/// Verifies an Ed25519 signature with `ed25519-dalek`: the key is parsed by
/// `VerifyingKey::try_from`, the signature by `Signature::try_from`, and
/// the check is `VerifyingKey::verify_strict`. The answer is a function of
/// the three byte strings, and it is `false` where either does not parse.
/// Nothing more is claimed of it.
#[verifier::external_body]
fn verify_strict(key: &Vec<u8>, message: &Vec<u8>, signature: &Vec<u8>) -> (accepted: bool)
    ensures
        accepted == ed25519_accepts(key@, message@, signature@),
{
    match (
        ed25519_dalek::VerifyingKey::try_from(key.as_slice()),
        ed25519_dalek::Signature::try_from(signature.as_slice()),
    ) {
        (Ok(key), Ok(signature)) => key.verify_strict(message.as_slice(), &signature).is_ok(),
        _ => false,
    }
}

/// Writes out the bytes that are signed for a message.
pub fn encode_message(message: &SignatureMessage) -> (bytes: Vec<u8>)
    ensures
        bytes@ == message_bytes(message@),
        bytes@.len() == MESSAGE_LEN,
{
    let mut bytes = u64_to_le_bytes(message.prev_out_idx as u64);
    let ghost position = bytes@;
    let mut i: usize = 0;
    while i < 32
        invariant
            i <= 32,
            bytes@ == position + message.prev_out_tx_id@.take(i as int),
            position.len() == 8,
        decreases 32 - i,
    {
        bytes.push(message.prev_out_tx_id[i]);
        assert(message.prev_out_tx_id@.take(i as int).push(message.prev_out_tx_id@[i as int])
            =~= message.prev_out_tx_id@.take(i + 1));
        i += 1;
    }
    assert(message.prev_out_tx_id@.take(32) =~= message.prev_out_tx_id@);
    bytes
}

/// Puts a signature together from the Ed25519 signature of a message's
/// bytes and the message.
pub fn seal(tag: &Vec<u8>, message: &SignatureMessage) -> (signature: Vec<u8>)
    ensures
        signature@ == tag@ + message_bytes(message@),
{
    let encoded = encode_message(message);
    let mut signature: Vec<u8> = Vec::new();
    let mut i: usize = 0;
    while i < tag.len()
        invariant
            i <= tag.len(),
            signature@ == tag@.take(i as int),
        decreases tag.len() - i,
    {
        signature.push(tag[i]);
        assert(tag@.take(i as int).push(tag@[i as int]) =~= tag@.take(i + 1));
        i += 1;
    }
    assert(tag@.take(tag.len() as int) =~= tag@);
    let mut j: usize = 0;
    while j < encoded.len()
        invariant
            j <= encoded.len(),
            signature@ == tag@ + encoded@.take(j as int),
        decreases encoded.len() - j,
    {
        signature.push(encoded[j]);
        assert(encoded@.take(j as int).push(encoded@[j as int]) =~= encoded@.take(j + 1));
        j += 1;
    }
    assert(encoded@.take(encoded.len() as int) =~= encoded@);
    signature
}

/// Checks a signature against a credential and a binding message.
pub fn check_sig(credential: &Vec<u8>, message: &SignatureMessage, signature: &Vec<u8>) -> (accepted:
    bool)
    ensures
        accepted == authorizes(credential@, message@, signature@),
{
    if signature.len() != SIGNATURE_LEN {
        return false;
    }
    let expected = encode_message(message);
    let ghost carried = signature@.subrange(TAG_LEN as int, SIGNATURE_LEN as int);
    let mut i: usize = 0;
    while i < MESSAGE_LEN
        invariant
            i <= MESSAGE_LEN,
            signature@.len() == SIGNATURE_LEN,
            expected@.len() == MESSAGE_LEN,
            expected@ == message_bytes(message@),
            carried == signature@.subrange(TAG_LEN as int, SIGNATURE_LEN as int),
            carried.take(i as int) == expected@.take(i as int),
        decreases MESSAGE_LEN - i,
    {
        if signature[TAG_LEN + i] != expected[i] {
            assert(carried[i as int] != expected@[i as int]);
            return false;
        }
        assert(carried.take(i + 1) =~= carried.take(i as int).push(carried[i as int]));
        assert(expected@.take(i + 1) =~= expected@.take(i as int).push(expected@[i as int]));
        i += 1;
    }
    assert(carried.take(MESSAGE_LEN as int) =~= carried);
    assert(expected@.take(MESSAGE_LEN as int) =~= expected@);
    let mut tag: Vec<u8> = Vec::new();
    let mut j: usize = 0;
    while j < TAG_LEN
        invariant
            j <= TAG_LEN,
            signature@.len() == SIGNATURE_LEN,
            tag@ == signature@.take(j as int),
        decreases TAG_LEN - j,
    {
        tag.push(signature[j]);
        assert(signature@.take(j as int).push(signature@[j as int]) =~= signature@.take(j + 1));
        j += 1;
    }
    assert(signature@.take(TAG_LEN as int) =~= signature@.subrange(0, TAG_LEN as int));
    verify_strict(credential, &expected, &tag)
}

} // verus!
