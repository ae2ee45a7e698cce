//! What can go wrong, and how it is reported.

use vstd::prelude::*;
use vstd::string::StringExecFns;
use crate::decimal::{decimal_text, write_decimal};

verus! {

/// The failures of this crate, one for each condition that is refused.
#[derive(Debug, Clone, Copy, PartialEq, Eq, Structural)]
pub enum Error {
    /// An init request was asked for under an empty name.
    EmptyName,
    /// A text message without text.
    NoText,
    /// An internal message without an event code.
    NoEventCode,
    /// An internal message whose event code is no unsigned byte.
    InvalidEventCode,
    /// An internal message without event data.
    MissingEventData,
    /// A voice message without data.
    NoVoiceData,
    /// A picture without data.
    NoPictureData,
    /// Linked media without the byte that tells the media type.
    NoMediaType,
    /// Linked media whose media type is not one byte long; holds the length given.
    MediaTypeLength(usize),
    /// Linked media without a link.
    NoLink,
    /// Linked media without a media key on the second line.
    NoMediaKey,
    /// A content type that this crate does not know.
    UnknownContentType,
    /// An init request too short to hold its three leading fields and a record.
    RequestTooShort,
    /// A record whose plaintext could not be read.
    InvalidJson,
    /// A record that should hold an init request and holds something else.
    NotInitRequest,
    /// A record that should hold an init accept and holds something else.
    NotInitAccept,
    /// A key-encapsulation public key that is not hexadecimal.
    InvalidKyberKey,
    /// A Diffie-Hellman public key that is not hexadecimal.
    InvalidCurveKey,
    /// A signature public key that is not hexadecimal.
    InvalidSignatureKey,
    /// Event data that is not unpadded base64.
    InvalidEventData,
    /// Voice data that is not unpadded base64.
    InvalidVoiceData,
    /// Picture data that is not unpadded base64.
    InvalidPictureData,
    /// A handshake message where an ordinary message was expected.
    UnexpectedMessage,
    /// A handle that is not UTF-8.
    HandleNotUtf8,
    /// A handle without exactly seven fields, or with a key that is not hexadecimal.
    HandleFormat,
    /// A record that could not be opened.
    DecryptionFailed,
    /// A signature was required and the sender gave none.
    SignatureAbsent,
    /// A signature was required and the one given does not verify.
    SignatureBad,
}

/// The classes of failure.
#[derive(Debug, Clone, Copy, PartialEq, Eq, Structural)]
pub enum ErrorKind {
    /// The caller gave something that cannot be sent.
    BadInput,
    /// Something received has the wrong shape.
    Decode,
    /// A record did not authenticate.
    Decrypt,
    /// A required signature is missing.
    SignatureAbsent,
    /// A required signature is wrong.
    SignatureBad,
}

impl Error {
    /// The class of this failure.
    pub open spec fn spec_kind(self) -> ErrorKind {
        match self {
            Error::EmptyName
            | Error::NoText
            | Error::NoEventCode
            | Error::InvalidEventCode
            | Error::MissingEventData
            | Error::NoVoiceData
            | Error::NoPictureData
            | Error::NoMediaType
            | Error::MediaTypeLength(_)
            | Error::NoLink
            | Error::NoMediaKey
            | Error::UnknownContentType => ErrorKind::BadInput,
            Error::RequestTooShort
            | Error::InvalidJson
            | Error::NotInitRequest
            | Error::NotInitAccept
            | Error::InvalidKyberKey
            | Error::InvalidCurveKey
            | Error::InvalidSignatureKey
            | Error::InvalidEventData
            | Error::InvalidVoiceData
            | Error::InvalidPictureData
            | Error::UnexpectedMessage
            | Error::HandleNotUtf8
            | Error::HandleFormat => ErrorKind::Decode,
            Error::DecryptionFailed => ErrorKind::Decrypt,
            Error::SignatureAbsent => ErrorKind::SignatureAbsent,
            Error::SignatureBad => ErrorKind::SignatureBad,
        }
    }

    /// The class of this failure.
    #[verifier::when_used_as_spec(spec_kind)]
    pub fn kind(self) -> (kind: ErrorKind)
        ensures
            kind == self.spec_kind(),
    {
        match self {
            Error::EmptyName
            | Error::NoText
            | Error::NoEventCode
            | Error::InvalidEventCode
            | Error::MissingEventData
            | Error::NoVoiceData
            | Error::NoPictureData
            | Error::NoMediaType
            | Error::MediaTypeLength(_)
            | Error::NoLink
            | Error::NoMediaKey
            | Error::UnknownContentType => ErrorKind::BadInput,
            Error::RequestTooShort
            | Error::InvalidJson
            | Error::NotInitRequest
            | Error::NotInitAccept
            | Error::InvalidKyberKey
            | Error::InvalidCurveKey
            | Error::InvalidSignatureKey
            | Error::InvalidEventData
            | Error::InvalidVoiceData
            | Error::InvalidPictureData
            | Error::UnexpectedMessage
            | Error::HandleNotUtf8
            | Error::HandleFormat => ErrorKind::Decode,
            Error::DecryptionFailed => ErrorKind::Decrypt,
            Error::SignatureAbsent => ErrorKind::SignatureAbsent,
            Error::SignatureBad => ErrorKind::SignatureBad,
        }
    }

    /// What the message says after its prefix.
    pub open spec fn reason(self) -> Seq<char> {
        match self {
            Error::EmptyName => "name must not be empty"@,
            Error::NoText => "no text was provided"@,
            Error::NoEventCode => "no event code was provided"@,
            Error::InvalidEventCode => "invalid event code"@,
            Error::MissingEventData => "missing event data"@,
            Error::NoVoiceData => "no voice data was provided"@,
            Error::NoPictureData => "no picture data was provided"@,
            Error::NoMediaType => "no media type was provided"@,
            Error::MediaTypeLength(n) => "expected 1 byte to identify media type, got "@
                + decimal_text(n as nat) + " bytes"@,
            Error::NoLink => "no link was provided"@,
            Error::NoMediaKey => "no media key was provided"@,
            Error::UnknownContentType => "requested content type not implemented"@,
            Error::RequestTooShort => "request was too short!"@,
            Error::InvalidJson => "json parsing failed"@,
            Error::NotInitRequest => "content did not match init request type"@,
            Error::NotInitAccept => "content did not match init accept type"@,
            Error::InvalidKyberKey => "remote kyber pubkey invalid"@,
            Error::InvalidCurveKey => "remote curve pubkey invalid"@,
            Error::InvalidSignatureKey => "remote signature pubkey invalid"@,
            Error::InvalidEventData => "event data invalid"@,
            Error::InvalidVoiceData => "voice message data invalid"@,
            Error::InvalidPictureData => "picture data invalid"@,
            Error::UnexpectedMessage => "message type not known or unexpected init message"@,
            Error::HandleNotUtf8 => "handle content is not valid UTF-8!"@,
            Error::HandleFormat => "handle format invalid!"@,
            Error::DecryptionFailed => "decryption failed"@,
            Error::SignatureAbsent =>
                "CRITICAL: signature verification was requested, but the remote side did not provide a signature"@,
            Error::SignatureBad =>
                "CRITICAL: signature verification was requested, but the signature of the remote side is invalid"@,
        }
    }

    /// The message for a person: the crate's prefix, then the reason.
    pub fn message(self) -> (text: String)
        ensures
            text@ == "@dawn-stdlib: "@ + self.reason(),
    {
        let mut text = String::from_str("@dawn-stdlib: ");
        match self {
            Error::EmptyName => text.append("name must not be empty"),
            Error::NoText => text.append("no text was provided"),
            Error::NoEventCode => text.append("no event code was provided"),
            Error::InvalidEventCode => text.append("invalid event code"),
            Error::MissingEventData => text.append("missing event data"),
            Error::NoVoiceData => text.append("no voice data was provided"),
            Error::NoPictureData => text.append("no picture data was provided"),
            Error::NoMediaType => text.append("no media type was provided"),
            Error::MediaTypeLength(n) => {
                text.append("expected 1 byte to identify media type, got ");
                write_decimal(n, &mut text);
                text.append(" bytes");
                assert(text@ =~= "@dawn-stdlib: "@ + self.reason());
            },
            Error::NoLink => text.append("no link was provided"),
            Error::NoMediaKey => text.append("no media key was provided"),
            Error::UnknownContentType => text.append("requested content type not implemented"),
            Error::RequestTooShort => text.append("request was too short!"),
            Error::InvalidJson => text.append("json parsing failed"),
            Error::NotInitRequest => text.append("content did not match init request type"),
            Error::NotInitAccept => text.append("content did not match init accept type"),
            Error::InvalidKyberKey => text.append("remote kyber pubkey invalid"),
            Error::InvalidCurveKey => text.append("remote curve pubkey invalid"),
            Error::InvalidSignatureKey => text.append("remote signature pubkey invalid"),
            Error::InvalidEventData => text.append("event data invalid"),
            Error::InvalidVoiceData => text.append("voice message data invalid"),
            Error::InvalidPictureData => text.append("picture data invalid"),
            Error::UnexpectedMessage => text.append(
                "message type not known or unexpected init message",
            ),
            Error::HandleNotUtf8 => text.append("handle content is not valid UTF-8!"),
            Error::HandleFormat => text.append("handle format invalid!"),
            Error::DecryptionFailed => text.append("decryption failed"),
            Error::SignatureAbsent => text.append(
                "CRITICAL: signature verification was requested, but the remote side did not provide a signature",
            ),
            Error::SignatureBad => text.append(
                "CRITICAL: signature verification was requested, but the signature of the remote side is invalid",
            ),
        }
        text
    }
}

} // verus!
