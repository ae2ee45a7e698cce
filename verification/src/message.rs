//! The messages that travel inside a sealed record.

use vstd::prelude::*;
use crate::decimal::decimal_text;
use crate::json::{add_member, json_member, json_record, json_string, number_member, record, text_member};

verus! {

/// A message. Keys travel as hexadecimal text, binary payloads as unpadded
/// base64 text. Every message carries the message detail code under which the
/// transport delivers it.
#[derive(Debug, Clone, PartialEq, Eq)]
pub enum Message {
    /// The first message of a conversation, from the side that starts it.
    InitRequest {
        id: String,
        mdc: String,
        kyber: String,
        curve_for_pfs: String,
        sign: String,
        name: String,
        comment: String,
        mdc_seed: String,
    },
    /// The answer that accepts an init request.
    InitAccept { kyber: String, sign: String, mdc: String },
    /// A text.
    Text { text: String, mdc: String },
    /// An event between the two clients, with its data.
    Internal { event: u8, event_data: String, mdc: String },
    /// A voice recording.
    Voice { voice: String, mdc: String },
    /// A picture with its description.
    Picture { picture: String, description: String, mdc: String },
    /// Media that lies elsewhere: where, under which key, and a description.
    LinkedMedia { media_type: u8, media_link: String, media_key: String, description: String, mdc: String },
}

/// What a message holds.
pub enum MessageView {
    InitRequest {
        id: Seq<char>,
        mdc: Seq<char>,
        kyber: Seq<char>,
        curve_for_pfs: Seq<char>,
        sign: Seq<char>,
        name: Seq<char>,
        comment: Seq<char>,
        mdc_seed: Seq<char>,
    },
    InitAccept { kyber: Seq<char>, sign: Seq<char>, mdc: Seq<char> },
    Text { text: Seq<char>, mdc: Seq<char> },
    Internal { event: u8, event_data: Seq<char>, mdc: Seq<char> },
    Voice { voice: Seq<char>, mdc: Seq<char> },
    Picture { picture: Seq<char>, description: Seq<char>, mdc: Seq<char> },
    LinkedMedia {
        media_type: u8,
        media_link: Seq<char>,
        media_key: Seq<char>,
        description: Seq<char>,
        mdc: Seq<char>,
    },
}

impl View for Message {
    type V = MessageView;

    open spec fn view(&self) -> MessageView {
        match *self {
            Message::InitRequest { id, mdc, kyber, curve_for_pfs, sign, name, comment, mdc_seed } => {
                MessageView::InitRequest {
                    id: id@,
                    mdc: mdc@,
                    kyber: kyber@,
                    curve_for_pfs: curve_for_pfs@,
                    sign: sign@,
                    name: name@,
                    comment: comment@,
                    mdc_seed: mdc_seed@,
                }
            },
            Message::InitAccept { kyber, sign, mdc } => MessageView::InitAccept {
                kyber: kyber@,
                sign: sign@,
                mdc: mdc@,
            },
            Message::Text { text, mdc } => MessageView::Text { text: text@, mdc: mdc@ },
            Message::Internal { event, event_data, mdc } => MessageView::Internal {
                event,
                event_data: event_data@,
                mdc: mdc@,
            },
            Message::Voice { voice, mdc } => MessageView::Voice { voice: voice@, mdc: mdc@ },
            Message::Picture { picture, description, mdc } => MessageView::Picture {
                picture: picture@,
                description: description@,
                mdc: mdc@,
            },
            Message::LinkedMedia { media_type, media_link, media_key, description, mdc } => {
                MessageView::LinkedMedia {
                    media_type,
                    media_link: media_link@,
                    media_key: media_key@,
                    description: description@,
                    mdc: mdc@,
                }
            },
        }
    }
}

impl MessageView {
    /// The message detail code of the message.
    pub open spec fn mdc(self) -> Seq<char> {
        match self {
            MessageView::InitRequest { mdc, .. } => mdc,
            MessageView::InitAccept { mdc, .. } => mdc,
            MessageView::Text { mdc, .. } => mdc,
            MessageView::Internal { mdc, .. } => mdc,
            MessageView::Voice { mdc, .. } => mdc,
            MessageView::Picture { mdc, .. } => mdc,
            MessageView::LinkedMedia { mdc, .. } => mdc,
        }
    }

    /// The plaintext of the message: a JSON record under the message's tag, with
    /// the fields by their names and in their order, and no space anywhere
    /// outside the strings.
    pub open spec fn json_text(self) -> Seq<char> {
        match self {
            MessageView::InitRequest { id, mdc, kyber, curve_for_pfs, sign, name, comment, mdc_seed } => {
                json_record(
                    "InitRequest"@,
                    json_member("id"@, json_string(id)) + seq![','] + json_member("mdc"@, json_string(mdc))
                        + seq![','] + json_member("kyber"@, json_string(kyber)) + seq![','] + json_member(
                        "curve_for_pfs"@,
                        json_string(curve_for_pfs),
                    ) + seq![','] + json_member("sign"@, json_string(sign)) + seq![','] + json_member(
                        "name"@,
                        json_string(name),
                    ) + seq![','] + json_member("comment"@, json_string(comment)) + seq![',']
                        + json_member("mdc_seed"@, json_string(mdc_seed)),
                )
            },
            MessageView::InitAccept { kyber, sign, mdc } => json_record(
                "InitAccept"@,
                json_member("kyber"@, json_string(kyber)) + seq![','] + json_member("sign"@, json_string(sign))
                    + seq![','] + json_member("mdc"@, json_string(mdc)),
            ),
            MessageView::Text { text, mdc } => json_record(
                "Text"@,
                json_member("text"@, json_string(text)) + seq![','] + json_member("mdc"@, json_string(mdc)),
            ),
            MessageView::Internal { event, event_data, mdc } => json_record(
                "Internal"@,
                json_member("event"@, decimal_text(event as nat)) + seq![','] + json_member(
                    "event_data"@,
                    json_string(event_data),
                ) + seq![','] + json_member("mdc"@, json_string(mdc)),
            ),
            MessageView::Voice { voice, mdc } => json_record(
                "Voice"@,
                json_member("voice"@, json_string(voice)) + seq![','] + json_member("mdc"@, json_string(mdc)),
            ),
            MessageView::Picture { picture, description, mdc } => json_record(
                "Picture"@,
                json_member("picture"@, json_string(picture)) + seq![','] + json_member(
                    "description"@,
                    json_string(description),
                ) + seq![','] + json_member("mdc"@, json_string(mdc)),
            ),
            MessageView::LinkedMedia { media_type, media_link, media_key, description, mdc } => json_record(
                "LinkedMedia"@,
                json_member("media_type"@, decimal_text(media_type as nat)) + seq![','] + json_member(
                    "media_link"@,
                    json_string(media_link),
                ) + seq![','] + json_member("media_key"@, json_string(media_key)) + seq![','] + json_member(
                    "description"@,
                    json_string(description),
                ) + seq![','] + json_member("mdc"@, json_string(mdc)),
            ),
        }
    }
}

impl Message {
    /// Writes the plaintext of the message.
    pub fn to_json(&self) -> (text: String)
        ensures
            text@ == self@.json_text(),
    {
        match self {
            Message::InitRequest { id, mdc, kyber, curve_for_pfs, sign, name, comment, mdc_seed } => {
                let mut members = text_member("id", id.as_str());
                add_member(&mut members, text_member("mdc", mdc.as_str()).as_str());
                add_member(&mut members, text_member("kyber", kyber.as_str()).as_str());
                add_member(&mut members, text_member("curve_for_pfs", curve_for_pfs.as_str()).as_str());
                add_member(&mut members, text_member("sign", sign.as_str()).as_str());
                add_member(&mut members, text_member("name", name.as_str()).as_str());
                add_member(&mut members, text_member("comment", comment.as_str()).as_str());
                add_member(&mut members, text_member("mdc_seed", mdc_seed.as_str()).as_str());
                record("InitRequest", members.as_str())
            },
            Message::InitAccept { kyber, sign, mdc } => {
                let mut members = text_member("kyber", kyber.as_str());
                add_member(&mut members, text_member("sign", sign.as_str()).as_str());
                add_member(&mut members, text_member("mdc", mdc.as_str()).as_str());
                record("InitAccept", members.as_str())
            },
            Message::Text { text, mdc } => {
                let mut members = text_member("text", text.as_str());
                add_member(&mut members, text_member("mdc", mdc.as_str()).as_str());
                record("Text", members.as_str())
            },
            Message::Internal { event, event_data, mdc } => {
                let mut members = number_member("event", *event);
                add_member(&mut members, text_member("event_data", event_data.as_str()).as_str());
                add_member(&mut members, text_member("mdc", mdc.as_str()).as_str());
                record("Internal", members.as_str())
            },
            Message::Voice { voice, mdc } => {
                let mut members = text_member("voice", voice.as_str());
                add_member(&mut members, text_member("mdc", mdc.as_str()).as_str());
                record("Voice", members.as_str())
            },
            Message::Picture { picture, description, mdc } => {
                let mut members = text_member("picture", picture.as_str());
                add_member(&mut members, text_member("description", description.as_str()).as_str());
                add_member(&mut members, text_member("mdc", mdc.as_str()).as_str());
                record("Picture", members.as_str())
            },
            Message::LinkedMedia { media_type, media_link, media_key, description, mdc } => {
                let mut members = number_member("media_type", *media_type);
                add_member(&mut members, text_member("media_link", media_link.as_str()).as_str());
                add_member(&mut members, text_member("media_key", media_key.as_str()).as_str());
                add_member(&mut members, text_member("description", description.as_str()).as_str());
                add_member(&mut members, text_member("mdc", mdc.as_str()).as_str());
                record("LinkedMedia", members.as_str())
            },
        }
    }
}

} // verus!
