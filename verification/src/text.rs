//! What this crate needs of `String` and std gives without a contract.

use vstd::prelude::*;

verus! {

/// Calls `String::push`, which appends one character.
#[verifier::external_body]
pub(crate) fn push_char(text: &mut String, c: char)
    ensures
        final(text)@ == old(text)@.push(c),
{
    text.push(c)
}

/// Calls `String::from_utf8`, which accepts exactly the well-formed UTF-8 byte
/// strings and gives the text that they encode.
#[verifier::external_body]
pub(crate) fn from_utf8(bytes: Vec<u8>) -> (text: Option<String>)
    ensures
        text is Some <==> vstd::utf8::valid_utf8(bytes@),
        text matches Some(t) ==> t@ == vstd::utf8::decode_utf8(bytes@),
{
    String::from_utf8(bytes).ok()
}

/// The UTF-8 bytes of two texts, one after the other, are the bytes of the
/// first and then the bytes of the second.
pub proof fn lemma_utf8_of_concatenation(a: Seq<char>, b: Seq<char>)
    ensures
        vstd::utf8::encode_utf8(a + b) == vstd::utf8::encode_utf8(a) + vstd::utf8::encode_utf8(b),
    decreases a.len(),
{
    if a.len() == 0 {
        assert(a + b =~= b);
        assert(vstd::utf8::encode_utf8(a) + vstd::utf8::encode_utf8(b) =~= vstd::utf8::encode_utf8(b));
    } else {
        assert((a + b).drop_first() =~= a.drop_first() + b);
        assert((a + b)[0] == a[0]);
        lemma_utf8_of_concatenation(a.drop_first(), b);
        assert(vstd::utf8::encode_utf8(a + b) =~= vstd::utf8::encode_utf8(a) + vstd::utf8::encode_utf8(b));
    }
}

/// How many of the bytes are line feeds.
pub open spec fn line_feed_bytes(bytes: Seq<u8>) -> nat
    decreases bytes.len(),
{
    if bytes.len() == 0 {
        0
    } else {
        line_feed_bytes(bytes.drop_last()) + if bytes.last() == 10 {
            1nat
        } else {
            0nat
        }
    }
}

/// The line feeds of two byte strings, one after the other, are those of the
/// first and those of the second.
pub proof fn lemma_line_feed_bytes_of_concatenation(a: Seq<u8>, b: Seq<u8>)
    ensures
        line_feed_bytes(a + b) == line_feed_bytes(a) + line_feed_bytes(b),
    decreases b.len(),
{
    if b.len() == 0 {
        assert(a + b =~= a);
    } else {
        assert((a + b).drop_last() =~= a + b.drop_last());
        assert((a + b).last() == b.last());
        lemma_line_feed_bytes_of_concatenation(a, b.drop_last());
    }
}

/// Bytes of which none is a line feed hold no line feed.
pub proof fn lemma_no_line_feed_bytes(bytes: Seq<u8>)
    requires
        forall|i: int| 0 <= i < bytes.len() ==> #[trigger] bytes[i] != 10,
    ensures
        line_feed_bytes(bytes) == 0,
    decreases bytes.len(),
{
    if bytes.len() > 0 {
        assert(bytes.last() == bytes[bytes.len() - 1]);
        assert forall|i: int| 0 <= i < bytes.drop_last().len() implies #[trigger] bytes.drop_last()[i] != 10 by {
            assert(bytes.drop_last()[i] == bytes[i]);
        }
        lemma_no_line_feed_bytes(bytes.drop_last());
    }
}

/// The UTF-8 bytes of a text without a line feed hold no line feed byte: the
/// bytes of every other character are other bytes.
pub proof fn lemma_utf8_without_line_feed(text: Seq<char>)
    requires
        crate::lines::has_no_line_feed(text),
    ensures
        line_feed_bytes(vstd::utf8::encode_utf8(text)) == 0,
    decreases text.len(),
{
    if text.len() > 0 {
        let c = text[0] as u32;
        let rest = text.drop_first();
        assert(text[0] != '\n');
        assert(c != 10) by {
            vstd::utf8::char_u32_cast(text[0], c);
            assert(10u32 as char == '\n');
        }
        assert forall|i: int| 0 <= i < rest.len() implies #[trigger] rest[i] != '\n' by {
            assert(rest[i] == text[i + 1]);
        }
        lemma_utf8_without_line_feed(rest);
        let first = vstd::utf8::encode_scalar(c);
        if c <= 0x7F {
            assert((c & 0x7F) as u8 != 10) by (bit_vector)
                requires
                    c <= 0x7F,
                    c != 10,
            ;
        }
        assert(0xC0 | ((c >> 6) & 0x1F) as u8 != 10) by (bit_vector);
        assert(0xE0 | ((c >> 12) & 0x0F) as u8 != 10) by (bit_vector);
        assert(0xF0 | ((c >> 18) & 0x7) as u8 != 10) by (bit_vector);
        assert(0x80 | (c & 0x3F) as u8 != 10) by (bit_vector);
        assert(0x80 | ((c >> 6) & 0x3F) as u8 != 10) by (bit_vector);
        assert(0x80 | ((c >> 12) & 0x3F) as u8 != 10) by (bit_vector);
        assert(forall|i: int| 0 <= i < first.len() ==> #[trigger] first[i] != 10);
        lemma_no_line_feed_bytes(first);
        lemma_line_feed_bytes_of_concatenation(first, vstd::utf8::encode_utf8(rest));
    }
}

} // verus!
