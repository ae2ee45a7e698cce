use dawn_stdlib::decimal::{parse_u8, write_decimal};
use dawn_stdlib::frame::{DH_PUBLIC_KEY_LEN, FRAME_HEADER_LEN, KEM_CIPHERTEXT_LEN};
use dawn_stdlib::json::{add_member, number_member, record, text_member};
use dawn_stdlib::lines::{join_lines, split_fields, split_lines};
use dawn_stdlib::{check_signature, frame_init_request, split_init_request, Error, Message, Warning};

#[test]
fn frame_is_cut_at_fixed_widths() {
    assert_eq!(DH_PUBLIC_KEY_LEN, 32);
    assert_eq!(KEM_CIPHERTEXT_LEN, 1568);
    assert_eq!(FRAME_HEADER_LEN, 2 * DH_PUBLIC_KEY_LEN + KEM_CIPHERTEXT_LEN);
    let a = vec![1u8; 32];
    let b = vec![2u8; 32];
    let c = vec![3u8; 1568];
    let d = vec![4u8, 5, 6];
    let frame = frame_init_request(&a, &b, &c, &d);
    assert_eq!(frame.len(), 1635);
    assert_eq!(&frame[..32], &a[..]);
    assert_eq!(&frame[1632..], &d[..]);
    let (ra, rb, rc, rd) = split_init_request(&frame).unwrap();
    assert_eq!((ra, rb, rc, rd), (&a[..], &b[..], &c[..], &d[..]));
}

#[test]
fn frame_without_record_is_too_short() {
    assert_eq!(split_init_request(&vec![0u8; 1632]), Err(Error::RequestTooShort));
    assert_eq!(split_init_request(&[]), Err(Error::RequestTooShort));
    let frame = vec![7u8; 1633];
    let (a, b, c, d) = split_init_request(&frame).unwrap();
    assert_eq!((a.len(), b.len(), c.len(), d.len()), (32, 32, 1568, 1));
}

#[test]
fn frame_takes_parts_of_any_width() {
    assert_eq!(frame_init_request(&[1], &[], &[2, 3], &[4]), vec![1, 2, 3, 4]);
    assert_eq!(frame_init_request(&[1; 32], &[2; 32], &[3; 1568], &[4; 100]).len(), 1732);
}

#[test]
fn unsigned_byte_is_read_as_std_reads_it() {
    for text in ["0", "7", "42", "255", "256", "1000", "+0", "+255", "+256", "007", "0000000000000000000000255",
        "00000000000000000000000256", "", "+", "-", "-0", "++1", "1+", " 1", "1 ", "0x10", "1e1", "\u{661}", "12a"]
    {
        assert_eq!(parse_u8(text), text.parse::<u8>().ok(), "{}", text);
    }
    assert_eq!(parse_u8("+007"), Some(7));
    assert_eq!(parse_u8("255"), Some(255));
    assert_eq!(parse_u8("256"), None);
}

#[test]
fn decimal_has_no_leading_zeros() {
    for n in [0usize, 1, 9, 10, 99, 100, 101, 255, 1000, 65535, usize::MAX] {
        let mut out = String::from("n=");
        write_decimal(n, &mut out);
        assert_eq!(out, format!("n={}", n));
    }
}

#[test]
fn lines_are_cut_as_std_cuts_them() {
    for text in ["", "a", "a\n", "a\nb", "a\r\nb\r\n", "\n", "\n\n", "\r", "\r\n", "a\r", "a\r\r\n", "a\rb\n",
        "\r\r", "\r\r\n\r", "a\n\nb\n\n", "x\r\ny\rz\n\r", "\u{e4}\n\u{1f600}\r\n"]
    {
        let expected: Vec<String> = text.lines().map(str::to_string).collect();
        assert_eq!(split_lines(text), expected, "{:?}", text);
    }
    assert_eq!(split_lines("a\r\nb\n\nc\r"), vec!["a", "b", "", "c\r"]);
}

#[test]
fn fields_are_cut_at_every_line_feed() {
    for text in ["", "a", "a\n", "\n", "\n\n", "a\nb", "a\r\nb", "a\n\nb\n", "\u{e4}\n\u{1f600}"] {
        let expected: Vec<String> = text.split('\n').map(str::to_string).collect();
        assert_eq!(split_fields(text), expected, "{:?}", text);
    }
    assert_eq!(split_fields("a\n\nb\n"), vec!["a", "", "b", ""]);
}

#[test]
fn lines_are_joined_by_line_feeds() {
    let lines: Vec<String> = ["a", "", "b", "c"].iter().map(|s| s.to_string()).collect();
    assert_eq!(join_lines(&lines, 0), "a\n\nb\nc");
    assert_eq!(join_lines(&lines, 1), "\nb\nc");
    assert_eq!(join_lines(&lines, 3), "c");
    assert_eq!(join_lines(&lines, 4), "");
    assert_eq!(join_lines(&Vec::new(), 0), "");
}

#[test]
fn joined_lines_of_plain_text_are_the_text() {
    for text in ["a", "a\nb", "link\nkey\none\n\ntwo", "\na"] {
        assert_eq!(join_lines(&split_lines(text), 0), text);
    }
}

#[test]
fn members_and_records_are_written_without_spaces() {
    assert_eq!(text_member("na\"me", "va\nlue"), "\"na\\\"me\":\"va\\nlue\"");
    assert_eq!(number_member("event", 0), "\"event\":0");
    assert_eq!(number_member("event", 200), "\"event\":200");
    let mut members = text_member("a", "1");
    add_member(&mut members, &number_member("b", 2));
    assert_eq!(members, "\"a\":\"1\",\"b\":2");
    assert_eq!(record("Tag", &members), "{\"Tag\":{\"a\":\"1\",\"b\":2}}");
    assert_eq!(record("Tag", ""), "{\"Tag\":{}}");
}

#[test]
fn every_message_is_written_under_its_tag() {
    let s = |t: &str| t.to_string();
    let all = [
        (
            Message::InitRequest {
                id: s("1"),
                mdc: s("2"),
                kyber: s("3"),
                curve_for_pfs: s("4"),
                sign: s("5"),
                name: s("6"),
                comment: s("7"),
                mdc_seed: s("8"),
            },
            "{\"InitRequest\":{\"id\":\"1\",\"mdc\":\"2\",\"kyber\":\"3\",\"curve_for_pfs\":\"4\",\"sign\":\"5\",\"name\":\"6\",\"comment\":\"7\",\"mdc_seed\":\"8\"}}",
        ),
        (
            Message::InitAccept { kyber: s("1"), sign: s("2"), mdc: s("3") },
            "{\"InitAccept\":{\"kyber\":\"1\",\"sign\":\"2\",\"mdc\":\"3\"}}",
        ),
        (Message::Text { text: s("1"), mdc: s("2") }, "{\"Text\":{\"text\":\"1\",\"mdc\":\"2\"}}"),
        (
            Message::Internal { event: 19, event_data: s("1"), mdc: s("2") },
            "{\"Internal\":{\"event\":19,\"event_data\":\"1\",\"mdc\":\"2\"}}",
        ),
        (Message::Voice { voice: s("1"), mdc: s("2") }, "{\"Voice\":{\"voice\":\"1\",\"mdc\":\"2\"}}"),
        (
            Message::Picture { picture: s("1"), description: s("2"), mdc: s("3") },
            "{\"Picture\":{\"picture\":\"1\",\"description\":\"2\",\"mdc\":\"3\"}}",
        ),
        (
            Message::LinkedMedia {
                media_type: 255,
                media_link: s("1"),
                media_key: s("2"),
                description: s("3"),
                mdc: s("4"),
            },
            "{\"LinkedMedia\":{\"media_type\":255,\"media_link\":\"1\",\"media_key\":\"2\",\"description\":\"3\",\"mdc\":\"4\"}}",
        ),
    ];
    for (message, expected) in all {
        let text = message.to_json();
        assert_eq!(text, expected);
        assert!(serde_json::from_str::<serde_json::Value>(&text).is_ok());
    }
}

#[test]
fn warnings_count_only_where_a_signature_is_required() {
    assert_eq!(check_signature(Warning::NoWarning, true), Ok(()));
    assert_eq!(check_signature(Warning::NoWarning, false), Ok(()));
    assert_eq!(check_signature(Warning::SignatureAbsent, false), Ok(()));
    assert_eq!(check_signature(Warning::SignatureBad, false), Ok(()));
    assert_eq!(check_signature(Warning::SignatureAbsent, true), Err(Error::SignatureAbsent));
    assert_eq!(check_signature(Warning::SignatureBad, true), Err(Error::SignatureBad));
}
