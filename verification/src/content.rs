//! Content on its way into a message and out of one.
//!
//! A caller hands over content as a content type, an optional text and optional
//! bytes. What each content type needs of the two, and what it gives back on
//! the other side, is decided here.

use vstd::prelude::*;
use vstd::slice::slice_index_get;
use vstd::string::StringExecFns;
use crate::base64code::{base64_bytes, base64_text, is_base64_text, lemma_base64_text_injective};
use crate::content_type::{INTERNAL, LINKED_MEDIA, PICTURE, TEXT, VOICE};
use crate::decimal::{decimal_text, parse_u8, parsed_u8, write_decimal};
use crate::error::Error;
use crate::lines::{join_lines, joined, lines, split_lines, texts};
use crate::message::{Message, MessageView};
use crate::text::push_char;

verus! {

/// What the ratchet says of the signature of a record that it opened.
#[derive(Debug, Clone, Copy, PartialEq, Eq, Structural)]
pub enum Warning {
    /// Nothing to report.
    NoWarning,
    /// The record carries no signature.
    SignatureAbsent,
    /// The record carries a signature that does not verify.
    SignatureBad,
}

/// A record that the ratchet opened.
#[derive(Debug, Clone, PartialEq, Eq)]
pub struct Opened {
    /// The message read from the plaintext, if the plaintext could be read.
    pub body: Option<Message>,
    /// The chain key for the next record of this direction.
    pub next_key: Vec<u8>,
    /// What the ratchet says of the signature.
    pub warning: Warning,
}

/// Content as the caller sees it: the content type, a text, bytes.
pub type ContentView = (u8, Option<Seq<char>>, Option<Seq<u8>>);

/// The text behind an optional string slice.
pub open spec fn text_view(text: Option<&str>) -> Option<Seq<char>> {
    match text {
        Some(t) => Some(t@),
        None => None,
    }
}

/// The bytes behind an optional slice.
pub open spec fn data_view(data: Option<&[u8]>) -> Option<Seq<u8>> {
    match data {
        Some(d) => Some(d@),
        None => None,
    }
}

/// What content handed back to the caller holds.
pub open spec fn content_view(content: (u8, Option<String>, Option<Vec<u8>>)) -> ContentView {
    (
        content.0,
        match content.1 {
            Some(t) => Some(t@),
            None => None,
        },
        match content.2 {
            Some(d) => Some(d@),
            None => None,
        },
    )
}

/// The message for some content, or why there is none.
///
/// - A text needs its text.
/// - An event needs its code as the text, an unsigned byte in decimal, and its
///   data as the bytes.
/// - A voice recording needs its bytes.
/// - A picture needs its bytes; the text is its description and may be missing.
/// - Linked media needs one byte, the media type, and a text whose first line is
///   the link and whose second line is the media key; the lines after those are
///   the description.
pub open spec fn composed(
    content_type: u8,
    text: Option<Seq<char>>,
    data: Option<Seq<u8>>,
    mdc: Seq<char>,
) -> Result<MessageView, Error> {
    if content_type == TEXT {
        match text {
            None => Err(Error::NoText),
            Some(t) => Ok(MessageView::Text { text: t, mdc }),
        }
    } else if content_type == INTERNAL {
        match (text, data) {
            (None, _) => Err(Error::NoEventCode),
            (Some(t), _) if parsed_u8(t) is None => Err(Error::InvalidEventCode),
            (Some(_), None) => Err(Error::MissingEventData),
            (Some(t), Some(d)) => Ok(
                MessageView::Internal { event: parsed_u8(t).unwrap(), event_data: base64_text(d), mdc },
            ),
        }
    } else if content_type == VOICE {
        match data {
            None => Err(Error::NoVoiceData),
            Some(d) => Ok(MessageView::Voice { voice: base64_text(d), mdc }),
        }
    } else if content_type == PICTURE {
        match data {
            None => Err(Error::NoPictureData),
            Some(d) => Ok(
                MessageView::Picture {
                    picture: base64_text(d),
                    description: match text {
                        Some(t) => t,
                        None => Seq::empty(),
                    },
                    mdc,
                },
            ),
        }
    } else if content_type == LINKED_MEDIA {
        match (data, text) {
            (None, _) => Err(Error::NoMediaType),
            (Some(d), _) if d.len() != 1 => Err(Error::MediaTypeLength(d.len() as usize)),
            (Some(_), None) => Err(Error::NoLink),
            (Some(d), Some(t)) => {
                let l = lines(t);
                if l.len() == 0 {
                    Err(Error::NoLink)
                } else if l.len() == 1 {
                    Err(Error::NoMediaKey)
                } else {
                    Ok(
                        MessageView::LinkedMedia {
                            media_type: d[0],
                            media_link: l[0],
                            media_key: l[1],
                            description: joined(l.skip(2)),
                            mdc,
                        },
                    )
                }
            },
        }
    } else {
        Err(Error::UnknownContentType)
    }
}

/// The content that a message gives to the caller, with the message detail code
/// of the message, or why it gives none.
///
/// An event gives its code as a numeral and its data as bytes. Linked media
/// gives link, media key and description as one text, a line feed between them,
/// and the media type as a single byte. A payload that is not unpadded base64
/// is refused, and a handshake message is no content.
pub open spec fn content_of(message: MessageView) -> Result<(ContentView, Seq<char>), Error> {
    match message {
        MessageView::Text { text, mdc } => Ok(((TEXT, Some(text), None), mdc)),
        MessageView::Internal { event, event_data, mdc } => if is_base64_text(event_data) {
            Ok(((INTERNAL, Some(decimal_text(event as nat)), Some(base64_bytes(event_data))), mdc))
        } else {
            Err(Error::InvalidEventData)
        },
        MessageView::Voice { voice, mdc } => if is_base64_text(voice) {
            Ok(((VOICE, None, Some(base64_bytes(voice))), mdc))
        } else {
            Err(Error::InvalidVoiceData)
        },
        MessageView::Picture { picture, description, mdc } => if is_base64_text(picture) {
            Ok(((PICTURE, Some(description), Some(base64_bytes(picture))), mdc))
        } else {
            Err(Error::InvalidPictureData)
        },
        MessageView::LinkedMedia { media_type, media_link, media_key, description, mdc } => Ok(
            (
                (
                    LINKED_MEDIA,
                    Some(media_link + seq!['\n'] + media_key + seq!['\n'] + description),
                    Some(seq![media_type]),
                ),
                mdc,
            ),
        ),
        MessageView::InitRequest { .. } | MessageView::InitAccept { .. } => Err(Error::UnexpectedMessage),
    }
}

/// The content that arrives when content of this kind was sent: what
/// `content_of` gives for the message that `composed` builds.
///
/// A text, a voice recording and a picture arrive as they were sent, a picture
/// without description with an empty one. An event arrives with its data as
/// sent and its code as the numeral of the code, without sign or leading
/// zeros. Linked media arrives with its link, its media key and its description
/// joined by line feeds.
pub open spec fn delivered(content_type: u8, text: Option<Seq<char>>, data: Option<Seq<u8>>) -> ContentView {
    if content_type == TEXT {
        (TEXT, text, None)
    } else if content_type == INTERNAL {
        (INTERNAL, Some(decimal_text(parsed_u8(text.unwrap()).unwrap() as nat)), data)
    } else if content_type == VOICE {
        (VOICE, None, data)
    } else if content_type == PICTURE {
        (
            PICTURE,
            Some(
                match text {
                    Some(t) => t,
                    None => Seq::empty(),
                },
            ),
            data,
        )
    } else {
        let l = lines(text.unwrap());
        (LINKED_MEDIA, Some(l[0] + seq!['\n'] + l[1] + seq!['\n'] + joined(l.skip(2))), data)
    }
}

/// Content that can be sent arrives: the message built for it gives the
/// content back, in the form that `delivered` describes, under the same
/// message detail code.
pub proof fn lemma_content_round_trip(
    content_type: u8,
    text: Option<Seq<char>>,
    data: Option<Seq<u8>>,
    mdc: Seq<char>,
)
    requires
        composed(content_type, text, data, mdc) is Ok,
    ensures
        content_of(composed(content_type, text, data, mdc).unwrap()) == Ok::<
            (ContentView, Seq<char>),
            Error,
        >((delivered(content_type, text, data), mdc)),
{
    if content_type == INTERNAL || content_type == VOICE || content_type == PICTURE {
        crate::base64code::lemma_base64_round_trip(data.unwrap());
    } else if content_type == LINKED_MEDIA {
        assert(seq![data.unwrap()[0]] =~= data.unwrap());
    }
}

/// The message detail code travels inside the message: a message built for
/// content carries the code that it was built under, and a message that gives
/// content gives the code that it carries.
pub proof fn lemma_message_detail_code_travels(
    content_type: u8,
    text: Option<Seq<char>>,
    data: Option<Seq<u8>>,
    mdc: Seq<char>,
    message: MessageView,
)
    ensures
        composed(content_type, text, data, mdc) matches Ok(m) ==> m.mdc() == mdc,
        content_of(message) matches Ok((_, code)) ==> code == message.mdc(),
{
}

/// An event whose code is written as a plain numeral arrives as it was sent.
pub proof fn lemma_event_arrives(event: u8, data: Seq<u8>, mdc: Seq<char>)
    ensures
        composed(INTERNAL, Some(decimal_text(event as nat)), Some(data), mdc) is Ok,
        delivered(INTERNAL, Some(decimal_text(event as nat)), Some(data)) == (
            INTERNAL,
            Some(decimal_text(event as nat)),
            Some(data),
        ),
{
    crate::decimal::lemma_decimal_round_trip(event as nat);
}

/// Linked media whose text has a description, no carriage return and no line
/// feed at its end arrives with that very text.
pub proof fn lemma_linked_media_text_arrives(text: Seq<char>, data: Option<Seq<u8>>)
    requires
        lines(text).len() >= 3,
        crate::lines::has_no_carriage_return(text),
        text.last() != '\n',
    ensures
        delivered(LINKED_MEDIA, Some(text), data).1 == Some(text),
{
    let l = lines(text);
    crate::lines::lemma_joined_lines(text);
    let tail = l.skip(1);
    assert(l =~= seq![l[0]] + tail);
    crate::lines::lemma_joined_from_first(l[0], tail);
    assert(tail =~= seq![l[1]] + l.skip(2));
    crate::lines::lemma_joined_from_first(l[1], l.skip(2));
    assert(l[0] + seq!['\n'] + (l[1] + seq!['\n'] + joined(l.skip(2))) =~= l[0] + seq!['\n'] + l[1] + seq![
        '\n',
    ] + joined(l.skip(2)));
}

/// The failure that a warning of the ratchet amounts to. Where the caller
/// requires a signature, a record without one, or with a wrong one, is refused;
/// where it requires none, no warning matters.
pub open spec fn signature_failure(warning: Warning, signature_required: bool) -> Option<Error> {
    if !signature_required {
        None
    } else {
        match warning {
            Warning::NoWarning => None,
            Warning::SignatureAbsent => Some(Error::SignatureAbsent),
            Warning::SignatureBad => Some(Error::SignatureBad),
        }
    }
}

/// What an incoming record gives to the caller: its content, the chain key for
/// the next record and the message detail code. A record that did not open, a
/// signature that is required and missing or wrong, a plaintext that could not
/// be read, and a message without content are refused, in this order.
pub open spec fn received(opened: Option<Opened>, signature_required: bool) -> Result<
    (ContentView, Seq<u8>, Seq<char>),
    Error,
> {
    match opened {
        None => Err(Error::DecryptionFailed),
        Some(o) => match signature_failure(o.warning, signature_required) {
            Some(e) => Err(e),
            None => match o.body {
                None => Err(Error::InvalidJson),
                Some(m) => match content_of(m@) {
                    Ok((content, mdc)) => Ok((content, o.next_key@, mdc)),
                    Err(e) => Err(e),
                },
            },
        },
    }
}

/// Holds a warning of the ratchet against what the caller requires.
pub fn check_signature(warning: Warning, signature_required: bool) -> (r: Result<(), Error>)
    ensures
        match r {
            Ok(_) => signature_failure(warning, signature_required) is None,
            Err(e) => signature_failure(warning, signature_required) == Some(e),
        },
{
    if !signature_required {
        return Ok(());
    }
    match warning {
        Warning::NoWarning => Ok(()),
        Warning::SignatureAbsent => Err(Error::SignatureAbsent),
        Warning::SignatureBad => Err(Error::SignatureBad),
    }
}

/// Builds the message for some content, under the message detail code `mdc`.
pub fn compose_msg(content_type: u8, text: Option<&str>, data: Option<&[u8]>, mdc: &str) -> (r: Result<
    Message,
    Error,
>)
    ensures
        match r {
            Ok(m) => composed(content_type, text_view(text), data_view(data), mdc@) == Ok::<
                MessageView,
                Error,
            >(m@),
            Err(e) => composed(content_type, text_view(text), data_view(data), mdc@) == Err::<
                MessageView,
                Error,
            >(e),
        },
{
    if content_type == TEXT {
        match text {
            None => Err(Error::NoText),
            Some(t) => Ok(Message::Text { text: t.to_owned(), mdc: mdc.to_owned() }),
        }
    } else if content_type == INTERNAL {
        let code = match text {
            None => { return Err(Error::NoEventCode); },
            Some(t) => t,
        };
        let event = match parse_u8(code) {
            None => { return Err(Error::InvalidEventCode); },
            Some(event) => event,
        };
        match data {
            None => Err(Error::MissingEventData),
            Some(d) => Ok(
                Message::Internal { event, event_data: crate::base64code::encode(d), mdc: mdc.to_owned() },
            ),
        }
    } else if content_type == VOICE {
        match data {
            None => Err(Error::NoVoiceData),
            Some(d) => Ok(Message::Voice { voice: crate::base64code::encode(d), mdc: mdc.to_owned() }),
        }
    } else if content_type == PICTURE {
        match data {
            None => Err(Error::NoPictureData),
            Some(d) => {
                let description = match text {
                    Some(t) => t.to_owned(),
                    None => String::new(),
                };
                Ok(Message::Picture { picture: crate::base64code::encode(d), description, mdc: mdc.to_owned() })
            },
        }
    } else if content_type == LINKED_MEDIA {
        let d = match data {
            None => { return Err(Error::NoMediaType); },
            Some(d) => d,
        };
        if d.len() != 1 {
            return Err(Error::MediaTypeLength(d.len()));
        }
        let t = match text {
            None => { return Err(Error::NoLink); },
            Some(t) => t,
        };
        let l = split_lines(t);
        if l.len() == 0 {
            return Err(Error::NoLink);
        }
        if l.len() == 1 {
            return Err(Error::NoMediaKey);
        }
        let description = join_lines(&l, 2);
        assert(texts(l@)[0] == l@[0]@ && texts(l@)[1] == l@[1]@);
        Ok(
            Message::LinkedMedia {
                media_type: *slice_index_get(d, 0),
                media_link: l[0].clone(),
                media_key: l[1].clone(),
                description,
                mdc: mdc.to_owned(),
            },
        )
    } else {
        Err(Error::UnknownContentType)
    }
}

/// Prepares a message for sending: builds the message for `content` under the
/// message detail code `mdc` and writes its plaintext, which the caller seals.
pub fn send_msg(content: (u8, Option<&str>, Option<&[u8]>), mdc: &str) -> (r: Result<String, Error>)
    ensures
        match r {
            Ok(plaintext) => composed(content.0, text_view(content.1), data_view(content.2), mdc@) is Ok
                && plaintext@ == composed(
                content.0,
                text_view(content.1),
                data_view(content.2),
                mdc@,
            ).unwrap().json_text(),
            Err(e) => composed(content.0, text_view(content.1), data_view(content.2), mdc@) == Err::<
                MessageView,
                Error,
            >(e),
        },
{
    match compose_msg(content.0, content.1, content.2, mdc) {
        Ok(message) => Ok(message.to_json()),
        Err(e) => Err(e),
    }
}

/// Hands the content of a message to the caller.
pub fn read_msg(message: Message) -> (r: Result<((u8, Option<String>, Option<Vec<u8>>), String), Error>)
    ensures
        match r {
            Ok((content, mdc)) => content_of(message@) == Ok::<(ContentView, Seq<char>), Error>(
                (content_view(content), mdc@),
            ),
            Err(e) => content_of(message@) == Err::<(ContentView, Seq<char>), Error>(e),
        },
{
    match message {
        Message::Text { text, mdc } => Ok(((TEXT, Some(text), None), mdc)),
        Message::Internal { event, event_data, mdc } => match crate::base64code::decode(
            event_data.as_str(),
        ) {
            Some(bytes) => {
                proof {
                    lemma_base64_text_injective(bytes@, base64_bytes(event_data@));
                }
                let mut code = String::new();
                write_decimal(event as usize, &mut code);
                assert(code@ =~= decimal_text(event as nat));
                Ok(((INTERNAL, Some(code), Some(bytes)), mdc))
            },
            None => Err(Error::InvalidEventData),
        },
        Message::Voice { voice, mdc } => match crate::base64code::decode(voice.as_str()) {
            Some(bytes) => {
                proof {
                    lemma_base64_text_injective(bytes@, base64_bytes(voice@));
                }
                Ok(((VOICE, None, Some(bytes)), mdc))
            },
            None => Err(Error::InvalidVoiceData),
        },
        Message::Picture { picture, description, mdc } => match crate::base64code::decode(picture.as_str()) {
            Some(bytes) => {
                proof {
                    lemma_base64_text_injective(bytes@, base64_bytes(picture@));
                }
                Ok(((PICTURE, Some(description), Some(bytes)), mdc))
            },
            None => Err(Error::InvalidPictureData),
        },
        Message::LinkedMedia { media_type, media_link, media_key, description, mdc } => {
            let mut text = media_link;
            push_char(&mut text, '\n');
            text.append(media_key.as_str());
            push_char(&mut text, '\n');
            text.append(description.as_str());
            let mut bytes: Vec<u8> = Vec::new();
            bytes.push(media_type);
            assert(bytes@ =~= seq![media_type]);
            assert(text@ =~= media_link@ + seq!['\n'] + media_key@ + seq!['\n'] + description@);
            Ok(((LINKED_MEDIA, Some(text), Some(bytes)), mdc))
        },
        Message::InitRequest { .. } => Err(Error::UnexpectedMessage),
        Message::InitAccept { .. } => Err(Error::UnexpectedMessage),
    }
}

/// Reads an incoming record: `opened` is what the ratchet made of it, or nothing
/// if it could not open it. Gives the content, the chain key for the next record
/// and the message detail code. On a failure nothing else is handed out, the
/// next chain key least of all.
pub fn parse_msg(opened: Option<Opened>, signature_required: bool) -> (r: Result<
    ((u8, Option<String>, Option<Vec<u8>>), Vec<u8>, String),
    Error,
>)
    ensures
        match r {
            Ok((content, next_key, mdc)) => received(opened, signature_required) == Ok::<
                (ContentView, Seq<u8>, Seq<char>),
                Error,
            >((content_view(content), next_key@, mdc@)),
            Err(e) => received(opened, signature_required) == Err::<
                (ContentView, Seq<u8>, Seq<char>),
                Error,
            >(e),
        },
        opened matches Some(o) && signature_required && o.warning == Warning::SignatureAbsent ==> r
            == Err::<((u8, Option<String>, Option<Vec<u8>>), Vec<u8>, String), Error>(Error::SignatureAbsent),
        opened matches Some(o) && signature_required && o.warning == Warning::SignatureBad ==> r
            == Err::<((u8, Option<String>, Option<Vec<u8>>), Vec<u8>, String), Error>(Error::SignatureBad),
{
    let record = match opened {
        None => { return Err(Error::DecryptionFailed); },
        Some(record) => record,
    };
    match check_signature(record.warning, signature_required) {
        Err(e) => { return Err(e); },
        Ok(_) => {},
    }
    let message = match record.body {
        None => { return Err(Error::InvalidJson); },
        Some(message) => message,
    };
    match read_msg(message) {
        Ok((content, mdc)) => Ok((content, record.next_key, mdc)),
        Err(e) => Err(e),
    }
}

} // verus!
