use dawn_stdlib::{gen_handle, parse_handle, Error, ErrorKind};

const MDC: &str = "0123456789abcdef0123456789abcdef0123456789abcdef0123456789abcdef";

#[test]
fn test_handle_parsing() {
    let init_pk_kyber = vec![255, 0, 255, 1, 2, 3, 4, 5];
    let init_pk_curve = vec![5, 5, 6];
    let init_pk_curve_pfs_2 = vec![42, 5, 5, 5];
    let init_pk_kyber_for_salt = vec![42, 42, 0, 0, 0];
    let init_pk_curve_for_salt = vec![0, 0, 3, 0];
    let name = "Test 42";
    let mdc = MDC.to_string();
    let handle = gen_handle(
        &init_pk_kyber,
        &init_pk_curve,
        &init_pk_curve_pfs_2,
        &init_pk_kyber_for_salt,
        &init_pk_curve_for_salt,
        name,
        &mdc,
    );
    let (
        parsed_init_pk_kyber,
        parsed_init_pk_curve,
        parsed_init_pk_curve_pfs_2,
        parsed_init_pk_kyber_for_salt,
        parsed_init_pk_curve_for_salt,
        parsed_name,
        parsed_mdc,
    ) = parse_handle(handle).unwrap();
    assert_eq!(init_pk_kyber, parsed_init_pk_kyber);
    assert_eq!(init_pk_curve, parsed_init_pk_curve);
    assert_eq!(init_pk_curve_pfs_2, parsed_init_pk_curve_pfs_2);
    assert_eq!(init_pk_kyber_for_salt, parsed_init_pk_kyber_for_salt);
    assert_eq!(init_pk_curve_for_salt, parsed_init_pk_curve_for_salt);
    assert_eq!(name, parsed_name);
    assert_eq!(mdc, parsed_mdc);
}

#[test]
fn handle_text_is_seven_hex_and_plain_fields() {
    let handle = gen_handle(&[255, 0, 255, 1], &[5, 5, 6], &[42], &[], &[0, 10], "Test 42", "abc");
    assert_eq!(handle, b"ff00ff01\n050506\n2a\n\n000a\nTest 42\nabc".to_vec());
}

#[test]
fn handle_keys_may_be_upper_case() {
    let parsed = parse_handle(b"FF0a\nAb\n\n00\n1F\nn\xc3\xa4me\nm".to_vec()).unwrap();
    assert_eq!(parsed.0, vec![255, 10]);
    assert_eq!(parsed.1, vec![0xab]);
    assert_eq!(parsed.2, Vec::<u8>::new());
    assert_eq!(parsed.3, vec![0]);
    assert_eq!(parsed.4, vec![31]);
    assert_eq!(parsed.5, "n\u{e4}me");
    assert_eq!(parsed.6, "m");
}

#[test]
fn handle_that_is_not_utf8_is_refused() {
    let err = parse_handle(vec![0x61, 0xff, 0x0a]).unwrap_err();
    assert_eq!(err, Error::HandleNotUtf8);
    assert_eq!(err.kind(), ErrorKind::Decode);
    assert_eq!(err.message(), "@dawn-stdlib: handle content is not valid UTF-8!");
}

#[test]
fn handle_with_wrong_field_count_is_refused() {
    assert_eq!(parse_handle(b"aa\nbb\ncc\ndd\nee\nname".to_vec()), Err(Error::HandleFormat));
    assert_eq!(parse_handle(b"aa\nbb\ncc\ndd\nee\nname\nmdc\n\n".to_vec()), Err(Error::HandleFormat));
    assert_eq!(parse_handle(b"aa\nbb\ncc\ndd\nee\nname\n".to_vec()), Ok((vec![0xaa], vec![0xbb], vec![0xcc], vec![0xdd], vec![0xee], "name".to_string(), String::new())));
    assert_eq!(parse_handle(b"aa\nbb\ncc\ndd\nee\nname\nmdc\nmore".to_vec()), Err(Error::HandleFormat));
    assert_eq!(parse_handle(Vec::new()), Err(Error::HandleFormat));
    assert!(parse_handle(b"aa\nbb\ncc\ndd\nee\nname\nmdc".to_vec()).is_ok());
}

#[test]
fn handle_may_end_in_a_line_feed() {
    let expected = Ok((vec![0xaa], vec![0xbb], vec![0xcc], vec![0xdd], vec![0xee], "name".to_string(), "mdc".to_string()));
    assert_eq!(parse_handle(b"aa\nbb\ncc\ndd\nee\nname\nmdc".to_vec()), expected);
    assert_eq!(parse_handle(b"aa\nbb\ncc\ndd\nee\nname\nmdc\n".to_vec()), expected);
}

#[test]
fn handle_with_bad_key_is_refused() {
    assert_eq!(parse_handle(b"a\nbb\ncc\ndd\nee\nname\nmdc".to_vec()), Err(Error::HandleFormat));
    assert_eq!(parse_handle(b"aa\nbg\ncc\ndd\nee\nname\nmdc".to_vec()), Err(Error::HandleFormat));
    assert_eq!(parse_handle(b"aa\nbb\nc c \ndd\nee\nname\nmdc".to_vec()), Err(Error::HandleFormat));
    assert_eq!(parse_handle(b"aa\nbb\ncc\ndd\r\nee\nname\nmdc".to_vec()), Err(Error::HandleFormat));
    assert_eq!(parse_handle("aa\nbb\ncc\ndd\n\u{e4}\nname\nmdc".as_bytes().to_vec()), Err(Error::HandleFormat));
    assert_eq!(
        Error::HandleFormat.message(),
        "@dawn-stdlib: handle format invalid!"
    );
}

#[test]
fn handle_round_trip_keeps_empty_name_and_mdc() {
    let handle = gen_handle(&[1], &[2], &[3], &[4], &[5], "", "");
    assert_eq!(
        parse_handle(handle),
        Ok((vec![1], vec![2], vec![3], vec![4], vec![5], String::new(), String::new()))
    );
}

#[test]
fn handle_has_six_line_feeds_and_two_digits_for_each_key_byte() {
    let name = "n\u{e4}me \u{1f600}";
    let mdc = "0123456789abcdef";
    let handle = gen_handle(&[1, 2, 3], &[], &[4], &[5, 6], &[7, 8, 9, 10], name, mdc);
    assert_eq!(handle.len(), 2 * (3 + 0 + 1 + 2 + 4) + name.len() + mdc.len() + 6);
    assert_eq!(handle.iter().filter(|b| **b == b'\n').count(), 6);
    assert_eq!(handle, "010203\n\n04\n0506\n0708090a\nn\u{e4}me \u{1f600}\n0123456789abcdef".as_bytes());
}
