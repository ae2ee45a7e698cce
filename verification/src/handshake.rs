//! The two messages that open a conversation.
//!
//! The side that starts sends an init request, sealed under keys that it agreed
//! on with the published keys of the other side. The other side answers with an
//! init accept. Both carry the sender's public keys as hexadecimal text.

use vstd::prelude::*;
use crate::content::{check_signature, signature_failure, Opened, Warning};
use crate::error::Error;
use crate::hexcode::{hex_bytes, hex_text, is_hex_text};
use crate::message::{Message, MessageView};

verus! {

/// What an init request hands to the side that receives it.
#[derive(Debug, Clone, PartialEq, Eq)]
pub struct InitRequestParts {
    /// The identifier of the conversation.
    pub id: String,
    /// The message detail code under which the request travelled.
    pub mdc: String,
    /// The key-encapsulation public key of the sender.
    pub remote_pubkey_kyber: Vec<u8>,
    /// The Diffie-Hellman public key from which the receiver's sending chain starts.
    pub remote_pubkey_curve_pfs_2: Vec<u8>,
    /// The signature public key of the sender.
    pub remote_pubkey_sig: Vec<u8>,
    /// The chain key for the sender's next record.
    pub new_remote_pfs_key: Vec<u8>,
    /// The name that the sender goes by.
    pub name: String,
    /// What the sender has to say.
    pub comment: String,
    /// The seed of the message detail codes of the conversation.
    pub mdc_seed: String,
}

/// What `InitRequestParts` holds.
pub struct InitRequestPartsView {
    pub id: Seq<char>,
    pub mdc: Seq<char>,
    pub remote_pubkey_kyber: Seq<u8>,
    pub remote_pubkey_curve_pfs_2: Seq<u8>,
    pub remote_pubkey_sig: Seq<u8>,
    pub new_remote_pfs_key: Seq<u8>,
    pub name: Seq<char>,
    pub comment: Seq<char>,
    pub mdc_seed: Seq<char>,
}

impl View for InitRequestParts {
    type V = InitRequestPartsView;

    open spec fn view(&self) -> InitRequestPartsView {
        InitRequestPartsView {
            id: self.id@,
            mdc: self.mdc@,
            remote_pubkey_kyber: self.remote_pubkey_kyber@,
            remote_pubkey_curve_pfs_2: self.remote_pubkey_curve_pfs_2@,
            remote_pubkey_sig: self.remote_pubkey_sig@,
            new_remote_pfs_key: self.new_remote_pfs_key@,
            name: self.name@,
            comment: self.comment@,
            mdc_seed: self.mdc_seed@,
        }
    }
}

/// The init request of a sender with these public keys.
pub open spec fn init_request(
    own_pubkey_kyber: Seq<u8>,
    own_pubkey_curve_pfs_2: Seq<u8>,
    own_pubkey_sig: Seq<u8>,
    id: Seq<char>,
    mdc_seed: Seq<u8>,
    name: Seq<char>,
    comment: Seq<char>,
    mdc: Seq<char>,
) -> MessageView {
    MessageView::InitRequest {
        id,
        mdc,
        kyber: hex_text(own_pubkey_kyber),
        curve_for_pfs: hex_text(own_pubkey_curve_pfs_2),
        sign: hex_text(own_pubkey_sig),
        name,
        comment,
        mdc_seed: hex_text(mdc_seed),
    }
}

/// The init accept of a sender with these public keys.
pub open spec fn init_accept(own_pubkey_kyber: Seq<u8>, own_pubkey_sig: Seq<u8>, mdc: Seq<char>) -> MessageView {
    MessageView::InitAccept { kyber: hex_text(own_pubkey_kyber), sign: hex_text(own_pubkey_sig), mdc }
}

/// What a record that should hold an init request gives. It is refused if its
/// plaintext could not be read, if it holds another message, or if one of its
/// keys, taken in the order key encapsulation, Diffie-Hellman, signature, is
/// not hexadecimal.
pub open spec fn init_request_parts(opened: Opened) -> Result<InitRequestPartsView, Error> {
    match opened.body {
        None => Err(Error::InvalidJson),
        Some(m) => match m@ {
            MessageView::InitRequest { id, mdc, kyber, curve_for_pfs, sign, name, comment, mdc_seed } => {
                if !is_hex_text(kyber) {
                    Err(Error::InvalidKyberKey)
                } else if !is_hex_text(curve_for_pfs) {
                    Err(Error::InvalidCurveKey)
                } else if !is_hex_text(sign) {
                    Err(Error::InvalidSignatureKey)
                } else {
                    Ok(
                        InitRequestPartsView {
                            id,
                            mdc,
                            remote_pubkey_kyber: hex_bytes(kyber),
                            remote_pubkey_curve_pfs_2: hex_bytes(curve_for_pfs),
                            remote_pubkey_sig: hex_bytes(sign),
                            new_remote_pfs_key: opened.next_key@,
                            name,
                            comment,
                            mdc_seed,
                        },
                    )
                }
            },
            _ => Err(Error::NotInitRequest),
        },
    }
}

/// What a record that should hold an init accept gives: the key-encapsulation
/// public key and the signature public key of the sender, the chain key for its
/// next record, and the message detail code. It is refused if a signature that
/// is required is missing or wrong, if its plaintext could not be read, if it
/// holds another message, or if one of its keys, taken in the order key
/// encapsulation, signature, is not hexadecimal.
pub open spec fn init_response_parts(opened: Opened, signature_required: bool) -> Result<
    (Seq<u8>, Seq<u8>, Seq<u8>, Seq<char>),
    Error,
> {
    match signature_failure(opened.warning, signature_required) {
        Some(e) => Err(e),
        None => match opened.body {
            None => Err(Error::InvalidJson),
            Some(m) => match m@ {
                MessageView::InitAccept { kyber, sign, mdc } => if !is_hex_text(kyber) {
                    Err(Error::InvalidKyberKey)
                } else if !is_hex_text(sign) {
                    Err(Error::InvalidSignatureKey)
                } else {
                    Ok((hex_bytes(kyber), hex_bytes(sign), opened.next_key@, mdc))
                },
                _ => Err(Error::NotInitAccept),
            },
        },
    }
}

/// Prepares an init request: gives the seed of the message detail codes as the
/// text that travels, and the plaintext of the request. The caller seals the
/// plaintext and hands the record to `frame_init_request`, which puts the keys
/// that the receiver needs in front of it. `mdc_seed` is the fresh secret that
/// the seed is made of. The name must not be empty.
pub fn gen_init_request(
    own_pubkey_kyber: &[u8],
    own_pubkey_curve_pfs_2: &[u8],
    own_pubkey_sig: &[u8],
    id: &str,
    mdc_seed: &[u8],
    name: &str,
    comment: &str,
    mdc: &str,
) -> (r: Result<(String, String), Error>)
    ensures
        r is Err <==> name@.len() == 0,
        r matches Err(e) ==> e == Error::EmptyName,
        r matches Ok((seed, plaintext)) ==> seed@ == hex_text(mdc_seed@) && plaintext@ == init_request(
            own_pubkey_kyber@,
            own_pubkey_curve_pfs_2@,
            own_pubkey_sig@,
            id@,
            mdc_seed@,
            name@,
            comment@,
            mdc@,
        ).json_text(),
{
    if name.is_empty() {
        return Err(Error::EmptyName);
    }
    let seed = crate::hexcode::encode(mdc_seed);
    let message = Message::InitRequest {
        id: id.to_owned(),
        mdc: mdc.to_owned(),
        kyber: crate::hexcode::encode(own_pubkey_kyber),
        curve_for_pfs: crate::hexcode::encode(own_pubkey_curve_pfs_2),
        sign: crate::hexcode::encode(own_pubkey_sig),
        name: name.to_owned(),
        comment: comment.to_owned(),
        mdc_seed: seed.clone(),
    };
    Ok((seed, message.to_json()))
}

/// Reads the init request out of the record that the ratchet opened. The
/// record is the last part of the frame that `split_init_request` cuts, which
/// also refuses a frame that is too short to hold one. The request is not
/// checked against a signature: the key that would check it arrives in it.
pub fn parse_init_request(opened: Opened) -> (r: Result<InitRequestParts, Error>)
    ensures
        match r {
            Ok(parts) => init_request_parts(opened) == Ok::<InitRequestPartsView, Error>(parts@),
            Err(e) => init_request_parts(opened) == Err::<InitRequestPartsView, Error>(e),
        },
{
    let message = match opened.body {
        None => { return Err(Error::InvalidJson); },
        Some(message) => message,
    };
    match message {
        Message::InitRequest { id, mdc, kyber, curve_for_pfs, sign, name, comment, mdc_seed } => {
            let remote_pubkey_kyber = match crate::hexcode::decode(kyber.as_str()) {
                None => { return Err(Error::InvalidKyberKey); },
                Some(key) => key,
            };
            let remote_pubkey_curve_pfs_2 = match crate::hexcode::decode(curve_for_pfs.as_str()) {
                None => { return Err(Error::InvalidCurveKey); },
                Some(key) => key,
            };
            let remote_pubkey_sig = match crate::hexcode::decode(sign.as_str()) {
                None => { return Err(Error::InvalidSignatureKey); },
                Some(key) => key,
            };
            Ok(
                InitRequestParts {
                    id,
                    mdc,
                    remote_pubkey_kyber,
                    remote_pubkey_curve_pfs_2,
                    remote_pubkey_sig,
                    new_remote_pfs_key: opened.next_key,
                    name,
                    comment,
                    mdc_seed,
                },
            )
        },
        _ => Err(Error::NotInitRequest),
    }
}

/// Prepares the answer that accepts an init request: gives its plaintext, which
/// the caller seals. `mdc` is the message detail code that the conversation
/// predicts for the answer.
pub fn accept_init_request(own_pubkey_kyber: &[u8], own_pubkey_sig: &[u8], mdc: &str) -> (plaintext: String)
    ensures
        plaintext@ == init_accept(own_pubkey_kyber@, own_pubkey_sig@, mdc@).json_text(),
{
    let message = Message::InitAccept {
        kyber: crate::hexcode::encode(own_pubkey_kyber),
        sign: crate::hexcode::encode(own_pubkey_sig),
        mdc: mdc.to_owned(),
    };
    message.to_json()
}

/// Reads the answer to an init request out of the record that the ratchet
/// opened. Gives the key-encapsulation public key and the signature public key
/// of the other side, the chain key for its next record, and the message detail
/// code of the answer.
pub fn parse_init_response(opened: Opened, signature_required: bool) -> (r: Result<
    (Vec<u8>, Vec<u8>, Vec<u8>, String),
    Error,
>)
    ensures
        match r {
            Ok((remote_pubkey_kyber, remote_pubkey_sig, new_pfs_key, mdc)) => init_response_parts(
                opened,
                signature_required,
            ) == Ok::<(Seq<u8>, Seq<u8>, Seq<u8>, Seq<char>), Error>(
                (remote_pubkey_kyber@, remote_pubkey_sig@, new_pfs_key@, mdc@),
            ),
            Err(e) => init_response_parts(opened, signature_required) == Err::<
                (Seq<u8>, Seq<u8>, Seq<u8>, Seq<char>),
                Error,
            >(e),
        },
        signature_required && opened.warning != Warning::NoWarning ==> r is Err,
{
    match check_signature(opened.warning, signature_required) {
        Err(e) => { return Err(e); },
        Ok(_) => {},
    }
    let message = match opened.body {
        None => { return Err(Error::InvalidJson); },
        Some(message) => message,
    };
    match message {
        Message::InitAccept { kyber, sign, mdc } => {
            let remote_pubkey_kyber = match crate::hexcode::decode(kyber.as_str()) {
                None => { return Err(Error::InvalidKyberKey); },
                Some(key) => key,
            };
            let remote_pubkey_sig = match crate::hexcode::decode(sign.as_str()) {
                None => { return Err(Error::InvalidSignatureKey); },
                Some(key) => key,
            };
            Ok((remote_pubkey_kyber, remote_pubkey_sig, opened.next_key, mdc))
        },
        _ => Err(Error::NotInitAccept),
    }
}

/// Both handshake messages carry the message detail code that they were built
/// under.
pub proof fn lemma_handshake_carries_message_detail_code(
    own_pubkey_kyber: Seq<u8>,
    own_pubkey_curve_pfs_2: Seq<u8>,
    own_pubkey_sig: Seq<u8>,
    id: Seq<char>,
    mdc_seed: Seq<u8>,
    name: Seq<char>,
    comment: Seq<char>,
    mdc: Seq<char>,
)
    ensures
        init_request(
            own_pubkey_kyber,
            own_pubkey_curve_pfs_2,
            own_pubkey_sig,
            id,
            mdc_seed,
            name,
            comment,
            mdc,
        ).mdc() == mdc,
        init_accept(own_pubkey_kyber, own_pubkey_sig, mdc).mdc() == mdc,
{
}

/// An init request that arrives as it was built hands over what went into it:
/// the identifier, the message detail code, the three public keys, the name,
/// the comment and the seed.
pub proof fn lemma_init_request_arrives(
    opened: Opened,
    own_pubkey_kyber: Seq<u8>,
    own_pubkey_curve_pfs_2: Seq<u8>,
    own_pubkey_sig: Seq<u8>,
    id: Seq<char>,
    mdc_seed: Seq<u8>,
    name: Seq<char>,
    comment: Seq<char>,
    mdc: Seq<char>,
)
    requires
        opened.body matches Some(m) && m@ == init_request(
            own_pubkey_kyber,
            own_pubkey_curve_pfs_2,
            own_pubkey_sig,
            id,
            mdc_seed,
            name,
            comment,
            mdc,
        ),
    ensures
        init_request_parts(opened) == Ok::<InitRequestPartsView, Error>(
            InitRequestPartsView {
                id,
                mdc,
                remote_pubkey_kyber: own_pubkey_kyber,
                remote_pubkey_curve_pfs_2: own_pubkey_curve_pfs_2,
                remote_pubkey_sig: own_pubkey_sig,
                new_remote_pfs_key: opened.next_key@,
                name,
                comment,
                mdc_seed: hex_text(mdc_seed),
            },
        ),
{
    crate::hexcode::lemma_hex_round_trip(own_pubkey_kyber);
    crate::hexcode::lemma_hex_round_trip(own_pubkey_curve_pfs_2);
    crate::hexcode::lemma_hex_round_trip(own_pubkey_sig);
}

/// An init accept that arrives as it was built, with no failure of a required
/// signature, hands over the two public keys and the message detail code that
/// went into it.
pub proof fn lemma_init_accept_arrives(
    opened: Opened,
    signature_required: bool,
    own_pubkey_kyber: Seq<u8>,
    own_pubkey_sig: Seq<u8>,
    mdc: Seq<char>,
)
    requires
        opened.body matches Some(m) && m@ == init_accept(own_pubkey_kyber, own_pubkey_sig, mdc),
        signature_failure(opened.warning, signature_required) is None,
    ensures
        init_response_parts(opened, signature_required) == Ok::<(Seq<u8>, Seq<u8>, Seq<u8>, Seq<char>), Error>(
            (own_pubkey_kyber, own_pubkey_sig, opened.next_key@, mdc),
        ),
{
    crate::hexcode::lemma_hex_round_trip(own_pubkey_kyber);
    crate::hexcode::lemma_hex_round_trip(own_pubkey_sig);
}

} // verus!
