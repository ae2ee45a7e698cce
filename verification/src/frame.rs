//! The frame of an init request: the public keys and the key-encapsulation
//! ciphertext that the receiver needs before it can open the sealed record,
//! each of a fixed width, and then the record.

use vstd::prelude::*;
use vstd::slice::slice_subrange;
use crate::error::Error;

verus! {

/// The width of a Diffie-Hellman public key.
pub const DH_PUBLIC_KEY_LEN: usize = 32;

/// The width of a key-encapsulation ciphertext.
pub const KEM_CIPHERTEXT_LEN: usize = 1568;

/// The width of all that stands before the sealed record.
pub const FRAME_HEADER_LEN: usize = 1632;

/// The four parts of a frame, one after the other.
pub open spec fn framed(
    pubkey_curve: Seq<u8>,
    pubkey_curve_for_salt: Seq<u8>,
    kyber_ciphertext_for_salt: Seq<u8>,
    record: Seq<u8>,
) -> Seq<u8> {
    pubkey_curve + pubkey_curve_for_salt + kyber_ciphertext_for_salt + record
}

/// The four parts of a frame, cut at the fixed widths: the Diffie-Hellman
/// public key, the Diffie-Hellman public key for the salts, the
/// key-encapsulation ciphertext for the salts, the sealed record. A frame that
/// leaves nothing for the record has no parts.
pub open spec fn frame_parts(frame: Seq<u8>) -> Option<(Seq<u8>, Seq<u8>, Seq<u8>, Seq<u8>)> {
    if frame.len() <= FRAME_HEADER_LEN {
        None
    } else {
        Some(
            (
                frame.subrange(0, DH_PUBLIC_KEY_LEN as int),
                frame.subrange(DH_PUBLIC_KEY_LEN as int, 2 * DH_PUBLIC_KEY_LEN),
                frame.subrange(2 * DH_PUBLIC_KEY_LEN, FRAME_HEADER_LEN as int),
                frame.subrange(FRAME_HEADER_LEN as int, frame.len() as int),
            ),
        )
    }
}

/// Puts the frame of an init request together.
pub fn frame_init_request(
    pubkey_curve: &[u8],
    pubkey_curve_for_salt: &[u8],
    kyber_ciphertext_for_salt: &[u8],
    record: &[u8],
) -> (frame: Vec<u8>)
    ensures
        frame@ == framed(pubkey_curve@, pubkey_curve_for_salt@, kyber_ciphertext_for_salt@, record@),
        frame@.len() == pubkey_curve@.len() + pubkey_curve_for_salt@.len() + kyber_ciphertext_for_salt@.len()
            + record@.len(),
{
    let mut frame: Vec<u8> = Vec::new();
    frame.extend_from_slice(pubkey_curve);
    frame.extend_from_slice(pubkey_curve_for_salt);
    frame.extend_from_slice(kyber_ciphertext_for_salt);
    frame.extend_from_slice(record);
    assert(frame@ =~= framed(pubkey_curve@, pubkey_curve_for_salt@, kyber_ciphertext_for_salt@, record@));
    frame
}

/// Cuts the frame of an init request into its four parts.
pub fn split_init_request(request_body: &[u8]) -> (r: Result<(&[u8], &[u8], &[u8], &[u8]), Error>)
    ensures
        match r {
            Ok(parts) => frame_parts(request_body@) == Some((parts.0@, parts.1@, parts.2@, parts.3@)),
            Err(e) => e == Error::RequestTooShort && frame_parts(request_body@) is None,
        },
{
    if request_body.len() <= FRAME_HEADER_LEN {
        return Err(Error::RequestTooShort);
    }
    Ok(
        (
            slice_subrange(request_body, 0, DH_PUBLIC_KEY_LEN),
            slice_subrange(request_body, DH_PUBLIC_KEY_LEN, 2 * DH_PUBLIC_KEY_LEN),
            slice_subrange(request_body, 2 * DH_PUBLIC_KEY_LEN, FRAME_HEADER_LEN),
            slice_subrange(request_body, FRAME_HEADER_LEN, request_body.len()),
        ),
    )
}

/// A frame put together from parts of the fixed widths and a record that is not
/// empty is cut into those same parts.
pub proof fn lemma_frame_round_trip(
    pubkey_curve: Seq<u8>,
    pubkey_curve_for_salt: Seq<u8>,
    kyber_ciphertext_for_salt: Seq<u8>,
    record: Seq<u8>,
)
    requires
        pubkey_curve.len() == DH_PUBLIC_KEY_LEN,
        pubkey_curve_for_salt.len() == DH_PUBLIC_KEY_LEN,
        kyber_ciphertext_for_salt.len() == KEM_CIPHERTEXT_LEN,
        record.len() > 0,
    ensures
        frame_parts(framed(pubkey_curve, pubkey_curve_for_salt, kyber_ciphertext_for_salt, record)) == Some(
            (pubkey_curve, pubkey_curve_for_salt, kyber_ciphertext_for_salt, record),
        ),
{
    let frame = framed(pubkey_curve, pubkey_curve_for_salt, kyber_ciphertext_for_salt, record);
    assert(frame.subrange(0, 32) =~= pubkey_curve);
    assert(frame.subrange(32, 64) =~= pubkey_curve_for_salt);
    assert(frame.subrange(64, 1632) =~= kyber_ciphertext_for_salt);
    assert(frame.subrange(1632, frame.len() as int) =~= record);
}

} // verus!
