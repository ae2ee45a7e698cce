//! The handle that a user publishes: five public keys, a name and the message
//! detail code under which a first request reaches the user. It is a text of
//! seven fields with a line feed between each two, the keys in hexadecimal. A
//! handle is written without a line feed at its end and read with or without
//! one.

use vstd::prelude::*;
use vstd::string::StrSliceExecFns;
use vstd::utf8::{decode_utf8, encode_utf8, valid_utf8};
use crate::error::Error;
use crate::hexcode::{hex_bytes, hex_text, is_hex_text, lemma_hex_round_trip, lemma_hex_text_has_no_line_feed};
use crate::lines::{
    fields, has_no_line_feed, join_lines, joined, lemma_fields_of_joined, lemma_joined_to_last, split_fields,
    texts,
};
use crate::text::{
    from_utf8, lemma_line_feed_bytes_of_concatenation, lemma_no_line_feed_bytes, lemma_utf8_of_concatenation,
    lemma_utf8_without_line_feed, line_feed_bytes,
};

verus! {

/// What a handle holds: the key-encapsulation key, the Diffie-Hellman key, the
/// second Diffie-Hellman key, the key-encapsulation key for the salts, the
/// Diffie-Hellman key for the salts, the name, the message detail code.
pub type HandleView = (Seq<u8>, Seq<u8>, Seq<u8>, Seq<u8>, Seq<u8>, Seq<char>, Seq<char>);

/// What a parsed handle holds.
pub open spec fn handle_view(handle: (Vec<u8>, Vec<u8>, Vec<u8>, Vec<u8>, Vec<u8>, String, String)) -> HandleView {
    (handle.0@, handle.1@, handle.2@, handle.3@, handle.4@, handle.5@, handle.6@)
}

/// The seven fields of a handle.
pub open spec fn handle_fields(handle: HandleView) -> Seq<Seq<char>> {
    seq![
        hex_text(handle.0),
        hex_text(handle.1),
        hex_text(handle.2),
        hex_text(handle.3),
        hex_text(handle.4),
        handle.5,
        handle.6,
    ]
}

/// The bytes of a handle: its text in UTF-8.
pub open spec fn handle_bytes(handle: HandleView) -> Seq<u8> {
    encode_utf8(joined(handle_fields(handle)))
}

/// The fields of the text of a handle: one line feed at the end of the text
/// closes the last field and opens no new one.
pub open spec fn text_fields(text: Seq<char>) -> Seq<Seq<char>> {
    let f = fields(text);
    if f.len() == 8 && f[7].len() == 0 {
        f.drop_last()
    } else {
        f
    }
}

/// The bytes of a hexadecimal text: one byte for each digit.
pub open spec fn hex_line(bytes: Seq<u8>) -> Seq<u8> {
    encode_utf8(hex_text(bytes))
}

/// The bytes of a handle, field by field: each key in hexadecimal, then the
/// name, then the message detail code, with the line feed byte between each
/// two.
pub open spec fn handle_layout(handle: HandleView) -> Seq<u8> {
    hex_line(handle.0) + seq![10u8] + hex_line(handle.1) + seq![10u8] + hex_line(handle.2) + seq![10u8]
        + hex_line(handle.3) + seq![10u8] + hex_line(handle.4) + seq![10u8] + encode_utf8(handle.5) + seq![
        10u8,
    ] + encode_utf8(handle.6)
}

/// What some bytes hold as a handle. Bytes that are not UTF-8 are refused, and
/// so is a text that does not have exactly seven fields, a line feed at its end
/// not counted, or whose first five fields are not hexadecimal.
pub open spec fn parsed_handle(content: Seq<u8>) -> Result<HandleView, Error> {
    if !valid_utf8(content) {
        Err(Error::HandleNotUtf8)
    } else {
        let f = text_fields(decode_utf8(content));
        if f.len() == 7 && is_hex_text(f[0]) && is_hex_text(f[1]) && is_hex_text(f[2]) && is_hex_text(f[3])
            && is_hex_text(f[4]) {
            Ok((hex_bytes(f[0]), hex_bytes(f[1]), hex_bytes(f[2]), hex_bytes(f[3]), hex_bytes(f[4]), f[5], f[6]))
        } else {
            Err(Error::HandleFormat)
        }
    }
}

/// Writes a handle.
pub fn gen_handle(
    init_pubkey_kyber: &[u8],
    init_pubkey_curve: &[u8],
    init_pubkey_curve_pfs_2: &[u8],
    init_pubkey_kyber_for_salt: &[u8],
    init_pubkey_curve_for_salt: &[u8],
    name: &str,
    mdc: &str,
) -> (handle: Vec<u8>)
    ensures
        handle@ == handle_bytes(
            (
                init_pubkey_kyber@,
                init_pubkey_curve@,
                init_pubkey_curve_pfs_2@,
                init_pubkey_kyber_for_salt@,
                init_pubkey_curve_for_salt@,
                name@,
                mdc@,
            ),
        ),
        handle@ == handle_layout(
            (
                init_pubkey_kyber@,
                init_pubkey_curve@,
                init_pubkey_curve_pfs_2@,
                init_pubkey_kyber_for_salt@,
                init_pubkey_curve_for_salt@,
                name@,
                mdc@,
            ),
        ),
        handle@.len() == 2 * (init_pubkey_kyber@.len() + init_pubkey_curve@.len()
            + init_pubkey_curve_pfs_2@.len() + init_pubkey_kyber_for_salt@.len()
            + init_pubkey_curve_for_salt@.len()) + encode_utf8(name@).len() + encode_utf8(mdc@).len() + 6,
        has_no_line_feed(name@) && has_no_line_feed(mdc@) ==> line_feed_bytes(handle@) == 6,
{
    proof {
        lemma_handle_layout(
            (
                init_pubkey_kyber@,
                init_pubkey_curve@,
                init_pubkey_curve_pfs_2@,
                init_pubkey_kyber_for_salt@,
                init_pubkey_curve_for_salt@,
                name@,
                mdc@,
            ),
        );
    }
    proof {
        if has_no_line_feed(name@) && has_no_line_feed(mdc@) {
            lemma_handle_line_feeds(
                (
                    init_pubkey_kyber@,
                    init_pubkey_curve@,
                    init_pubkey_curve_pfs_2@,
                    init_pubkey_kyber_for_salt@,
                    init_pubkey_curve_for_salt@,
                    name@,
                    mdc@,
                ),
            );
        }
    }
    let mut parts: Vec<String> = Vec::new();
    parts.push(crate::hexcode::encode(init_pubkey_kyber));
    parts.push(crate::hexcode::encode(init_pubkey_curve));
    parts.push(crate::hexcode::encode(init_pubkey_curve_pfs_2));
    parts.push(crate::hexcode::encode(init_pubkey_kyber_for_salt));
    parts.push(crate::hexcode::encode(init_pubkey_curve_for_salt));
    parts.push(name.to_owned());
    parts.push(mdc.to_owned());
    proof {
        let handle = (
            init_pubkey_kyber@,
            init_pubkey_curve@,
            init_pubkey_curve_pfs_2@,
            init_pubkey_kyber_for_salt@,
            init_pubkey_curve_for_salt@,
            name@,
            mdc@,
        );
        assert(texts(parts@).skip(0) =~= handle_fields(handle));
    }
    let text = join_lines(&parts, 0);
    text.as_str().as_bytes_vec()
}

/// Reads a handle.
pub fn parse_handle(handle_content: Vec<u8>) -> (r: Result<
    (Vec<u8>, Vec<u8>, Vec<u8>, Vec<u8>, Vec<u8>, String, String),
    Error,
>)
    ensures
        match r {
            Ok(handle) => parsed_handle(handle_content@) == Ok::<HandleView, Error>(handle_view(handle)),
            Err(e) => parsed_handle(handle_content@) == Err::<HandleView, Error>(e),
        },
{
    let ghost content = handle_content@;
    let text = match from_utf8(handle_content) {
        None => { return Err(Error::HandleNotUtf8); },
        Some(text) => text,
    };
    let mut parts = split_fields(text.as_str());
    if parts.len() == 8 && parts[7].as_str().is_empty() {
        parts.pop();
    }
    if parts.len() != 7 {
        return Err(Error::HandleFormat);
    }
    let ghost f = text_fields(decode_utf8(content));
    assert(f.len() == 7);
    assert(forall|i: int| 0 <= i < 7 ==> f[i] == #[trigger] parts@[i]@);
    let init_pubkey_kyber = match crate::hexcode::decode(parts[0].as_str()) {
        None => { return Err(Error::HandleFormat); },
        Some(key) => key,
    };
    let init_pubkey_curve = match crate::hexcode::decode(parts[1].as_str()) {
        None => { return Err(Error::HandleFormat); },
        Some(key) => key,
    };
    let init_pubkey_curve_pfs_2 = match crate::hexcode::decode(parts[2].as_str()) {
        None => { return Err(Error::HandleFormat); },
        Some(key) => key,
    };
    let init_pubkey_kyber_for_salt = match crate::hexcode::decode(parts[3].as_str()) {
        None => { return Err(Error::HandleFormat); },
        Some(key) => key,
    };
    let init_pubkey_curve_for_salt = match crate::hexcode::decode(parts[4].as_str()) {
        None => { return Err(Error::HandleFormat); },
        Some(key) => key,
    };
    let mdc = parts.pop().unwrap();
    let name = parts.pop().unwrap();
    Ok(
        (
            init_pubkey_kyber,
            init_pubkey_curve,
            init_pubkey_curve_pfs_2,
            init_pubkey_kyber_for_salt,
            init_pubkey_curve_for_salt,
            name,
            mdc,
        ),
    )
}

/// The bytes of a handle lie as `handle_layout` says: two bytes for each byte
/// of a key, the bytes of the name and of the message detail code, and six line
/// feeds between them.
pub proof fn lemma_handle_layout(handle: HandleView)
    ensures
        handle_bytes(handle) == handle_layout(handle),
        handle_bytes(handle).len() == 2 * (handle.0.len() + handle.1.len() + handle.2.len() + handle.3.len()
            + handle.4.len()) + encode_utf8(handle.5).len() + encode_utf8(handle.6).len() + 6,
{
    let f = handle_fields(handle);
    let n = seq!['\n'];
    let t1 = f[0];
    let t2 = t1 + n + f[1];
    let t3 = t2 + n + f[2];
    let t4 = t3 + n + f[3];
    let t5 = t4 + n + f[4];
    let t6 = t5 + n + f[5];
    let t7 = t6 + n + f[6];
    let f1 = seq![f[0]];
    let f2 = f1.push(f[1]);
    let f3 = f2.push(f[2]);
    let f4 = f3.push(f[3]);
    let f5 = f4.push(f[4]);
    let f6 = f5.push(f[5]);
    let f7 = f6.push(f[6]);
    assert(joined(f1) == t1);
    lemma_joined_to_last(f1, f[1]);
    lemma_joined_to_last(f2, f[2]);
    lemma_joined_to_last(f3, f[3]);
    lemma_joined_to_last(f4, f[4]);
    lemma_joined_to_last(f5, f[5]);
    lemma_joined_to_last(f6, f[6]);
    assert(f7 =~= f);
    assert(joined(f) == t7);
    assert(encode_utf8(n) =~= seq![10u8]) by {
        vstd::utf8::is_ascii_chars_encode_utf8(n);
    }
    lemma_utf8_of_concatenation(t1, n);
    lemma_utf8_of_concatenation(t1 + n, f[1]);
    lemma_utf8_of_concatenation(t2, n);
    lemma_utf8_of_concatenation(t2 + n, f[2]);
    lemma_utf8_of_concatenation(t3, n);
    lemma_utf8_of_concatenation(t3 + n, f[3]);
    lemma_utf8_of_concatenation(t4, n);
    lemma_utf8_of_concatenation(t4 + n, f[4]);
    lemma_utf8_of_concatenation(t5, n);
    lemma_utf8_of_concatenation(t5 + n, f[5]);
    lemma_utf8_of_concatenation(t6, n);
    lemma_utf8_of_concatenation(t6 + n, f[6]);
    lemma_hex_line_len(handle.0);
    lemma_hex_line_len(handle.1);
    lemma_hex_line_len(handle.2);
    lemma_hex_line_len(handle.3);
    lemma_hex_line_len(handle.4);
}

/// The bytes of a handle whose name and message detail code hold no line feed
/// hold six line feeds, those between the seven fields.
pub proof fn lemma_handle_line_feeds(handle: HandleView)
    requires
        has_no_line_feed(handle.5),
        has_no_line_feed(handle.6),
    ensures
        line_feed_bytes(handle_bytes(handle)) == 6,
{
    lemma_handle_layout(handle);
    let n = seq![10u8];
    assert(line_feed_bytes(n) == 1) by {
        assert(n.drop_last() =~= Seq::<u8>::empty());
        assert(line_feed_bytes(Seq::<u8>::empty()) == 0);
        assert(n.last() == 10);
    }
    lemma_hex_text_has_no_line_feed(handle.0);
    lemma_hex_text_has_no_line_feed(handle.1);
    lemma_hex_text_has_no_line_feed(handle.2);
    lemma_hex_text_has_no_line_feed(handle.3);
    lemma_hex_text_has_no_line_feed(handle.4);
    lemma_utf8_without_line_feed(hex_text(handle.0));
    lemma_utf8_without_line_feed(hex_text(handle.1));
    lemma_utf8_without_line_feed(hex_text(handle.2));
    lemma_utf8_without_line_feed(hex_text(handle.3));
    lemma_utf8_without_line_feed(hex_text(handle.4));
    lemma_utf8_without_line_feed(handle.5);
    lemma_utf8_without_line_feed(handle.6);
    let b1 = hex_line(handle.0);
    let b2 = b1 + n + hex_line(handle.1);
    let b3 = b2 + n + hex_line(handle.2);
    let b4 = b3 + n + hex_line(handle.3);
    let b5 = b4 + n + hex_line(handle.4);
    let b6 = b5 + n + encode_utf8(handle.5);
    lemma_line_feed_bytes_of_concatenation(b1, n);
    lemma_line_feed_bytes_of_concatenation(b1 + n, hex_line(handle.1));
    lemma_line_feed_bytes_of_concatenation(b2, n);
    lemma_line_feed_bytes_of_concatenation(b2 + n, hex_line(handle.2));
    lemma_line_feed_bytes_of_concatenation(b3, n);
    lemma_line_feed_bytes_of_concatenation(b3 + n, hex_line(handle.3));
    lemma_line_feed_bytes_of_concatenation(b4, n);
    lemma_line_feed_bytes_of_concatenation(b4 + n, hex_line(handle.4));
    lemma_line_feed_bytes_of_concatenation(b5, n);
    lemma_line_feed_bytes_of_concatenation(b5 + n, encode_utf8(handle.5));
    lemma_line_feed_bytes_of_concatenation(b6, n);
    lemma_line_feed_bytes_of_concatenation(b6 + n, encode_utf8(handle.6));
}

/// A hexadecimal text takes two bytes for each byte that it stands for.
proof fn lemma_hex_line_len(bytes: Seq<u8>)
    ensures
        hex_line(bytes).len() == 2 * bytes.len(),
{
    let text = hex_text(bytes);
    assert forall|i: int| 0 <= i < text.len() implies '\0' <= #[trigger] text[i] <= '\u{7f}' by {
        let v = if i % 2 == 0 {
            bytes[i / 2] as int / 16
        } else {
            bytes[i / 2] as int % 16
        };
        assert(text[i] == crate::hexcode::hex_digit(v));
    }
    vstd::utf8::is_ascii_chars_encode_utf8(text);
}

/// A handle that is written and read again is the same handle, as long as
/// neither its name nor its message detail code holds a line feed.
pub proof fn lemma_handle_round_trip(handle: HandleView)
    requires
        has_no_line_feed(handle.5),
        has_no_line_feed(handle.6),
    ensures
        parsed_handle(handle_bytes(handle)) == Ok::<HandleView, Error>(handle),
{
    let parts = handle_fields(handle);
    let text = joined(parts);
    vstd::utf8::encode_utf8_valid_utf8(text);
    vstd::utf8::encode_utf8_decode_utf8(text);
    lemma_hex_text_has_no_line_feed(handle.0);
    lemma_hex_text_has_no_line_feed(handle.1);
    lemma_hex_text_has_no_line_feed(handle.2);
    lemma_hex_text_has_no_line_feed(handle.3);
    lemma_hex_text_has_no_line_feed(handle.4);
    lemma_fields_of_joined(parts);
    lemma_hex_round_trip(handle.0);
    lemma_hex_round_trip(handle.1);
    lemma_hex_round_trip(handle.2);
    lemma_hex_round_trip(handle.3);
    lemma_hex_round_trip(handle.4);
}

} // verus!
