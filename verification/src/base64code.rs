//! Unpadded base64 text, in the standard alphabet, for binary payloads.

use vstd::prelude::*;

verus! {

/// The symbol of the standard alphabet for a value below sixty-four.
pub open spec fn base64_symbol(v: int) -> char
    recommends
        0 <= v < 64,
{
    if v < 26 {
        (v + 65) as u8 as char
    } else if v < 52 {
        (v + 71) as u8 as char
    } else if v < 62 {
        (v - 4) as u8 as char
    } else if v == 62 {
        '+'
    } else {
        '/'
    }
}

/// The text of `bytes`: four symbols for every three bytes, two symbols for a
/// last single byte, three for a last pair, and no padding.
pub open spec fn base64_text(bytes: Seq<u8>) -> Seq<char>
    decreases bytes.len(),
{
    if bytes.len() == 0 {
        Seq::empty()
    } else if bytes.len() == 1 {
        seq![base64_symbol(bytes[0] as int / 4), base64_symbol(bytes[0] as int % 4 * 16)]
    } else if bytes.len() == 2 {
        seq![
            base64_symbol(bytes[0] as int / 4),
            base64_symbol(bytes[0] as int % 4 * 16 + bytes[1] as int / 16),
            base64_symbol(bytes[1] as int % 16 * 4),
        ]
    } else {
        seq![
            base64_symbol(bytes[0] as int / 4),
            base64_symbol(bytes[0] as int % 4 * 16 + bytes[1] as int / 16),
            base64_symbol(bytes[1] as int % 16 * 4 + bytes[2] as int / 64),
            base64_symbol(bytes[2] as int % 64),
        ] + base64_text(bytes.skip(3))
    }
}

/// Whether `text` is the text of some bytes.
pub open spec fn is_base64_text(text: Seq<char>) -> bool {
    exists|bytes: Seq<u8>| #[trigger] base64_text(bytes) == text
}

/// The bytes that `text` is the text of.
pub open spec fn base64_bytes(text: Seq<char>) -> Seq<u8>
    recommends
        is_base64_text(text),
{
    choose|bytes: Seq<u8>| #[trigger] base64_text(bytes) == text
}

/// Calls `encode` of base64's engine `STANDARD_NO_PAD`, which writes six bits to
/// a symbol of the standard alphabet, the high bits first, fills the last
/// symbol with zero bits and adds no padding.
#[verifier::external_body]
pub(crate) fn encode(bytes: &[u8]) -> (text: String)
    ensures
        text@ == base64_text(bytes@),
{
    ::base64::Engine::encode(&::base64::engine::general_purpose::STANDARD_NO_PAD, bytes)
}

/// Calls `decode` of base64's engine `STANDARD_NO_PAD`. That engine takes no
/// padding, no symbol outside the alphabet and no unused bits in the last
/// symbol: it accepts a text exactly when `encode` writes it for some bytes, and
/// gives those bytes.
#[verifier::external_body]
pub(crate) fn decode(text: &str) -> (bytes: Option<Vec<u8>>)
    ensures
        bytes is Some <==> is_base64_text(text@),
        bytes matches Some(b) ==> base64_text(b@) == text@,
{
    ::base64::Engine::decode(&::base64::engine::general_purpose::STANDARD_NO_PAD, text).ok()
}

/// Two byte strings with the same text are the same.
pub proof fn lemma_base64_text_injective(a: Seq<u8>, b: Seq<u8>)
    requires
        base64_text(a) == base64_text(b),
    ensures
        a == b,
    decreases a.len(),
{
    lemma_base64_text_len(a);
    lemma_base64_text_len(b);
    let ta = base64_text(a);
    let tb = base64_text(b);
    assert(a.len() == b.len());
    if a.len() == 0 {
        assert(a =~= b);
    } else {
        lemma_symbol_injective(a[0] as int / 4, b[0] as int / 4);
        assert(ta[0] == tb[0]);
        if a.len() == 1 {
            assert(ta[1] == tb[1]);
            lemma_symbol_injective(a[0] as int % 4 * 16, b[0] as int % 4 * 16);
            assert(a =~= b);
        } else {
            assert(ta[1] == tb[1]);
            lemma_symbol_injective(
                a[0] as int % 4 * 16 + a[1] as int / 16,
                b[0] as int % 4 * 16 + b[1] as int / 16,
            );
            if a.len() == 2 {
                assert(ta[2] == tb[2]);
                lemma_symbol_injective(a[1] as int % 16 * 4, b[1] as int % 16 * 4);
                assert(a =~= b);
            } else {
                assert(ta[2] == tb[2]);
                assert(ta[3] == tb[3]);
                lemma_symbol_injective(
                    a[1] as int % 16 * 4 + a[2] as int / 64,
                    b[1] as int % 16 * 4 + b[2] as int / 64,
                );
                lemma_symbol_injective(a[2] as int % 64, b[2] as int % 64);
                assert(ta.skip(4) =~= base64_text(a.skip(3)));
                assert(tb.skip(4) =~= base64_text(b.skip(3)));
                lemma_base64_text_injective(a.skip(3), b.skip(3));
                assert forall|i: int| 0 <= i < a.len() implies a[i] == b[i] by {
                    if i >= 3 {
                        assert(a[i] == a.skip(3)[i - 3]);
                        assert(b[i] == b.skip(3)[i - 3]);
                    }
                }
                assert(a =~= b);
            }
        }
    }
}

/// Decoding the text of some bytes gives the bytes back.
pub proof fn lemma_base64_round_trip(bytes: Seq<u8>)
    ensures
        is_base64_text(base64_text(bytes)),
        base64_bytes(base64_text(bytes)) == bytes,
{
    let text = base64_text(bytes);
    assert(is_base64_text(text));
    lemma_base64_text_injective(base64_bytes(text), bytes);
}

proof fn lemma_symbol_injective(v: int, w: int)
    requires
        0 <= v < 64,
        0 <= w < 64,
    ensures
        base64_symbol(v) == base64_symbol(w) ==> v == w,
{
}

proof fn lemma_base64_text_len(bytes: Seq<u8>)
    ensures
        base64_text(bytes).len() == (4 * bytes.len() + 2) / 3,
    decreases bytes.len(),
{
    if bytes.len() >= 3 {
        lemma_base64_text_len(bytes.skip(3));
    }
}

} // verus!
