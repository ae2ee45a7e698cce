use dawn_stdlib::content_type;
use dawn_stdlib::{
    accept_init_request, frame_init_request, gen_init_request, parse_init_request, parse_init_response,
    parse_msg, send_msg, split_init_request, Error, ErrorKind, Message, Opened, Warning,
};

fn text_field(fields: &serde_json::Map<String, serde_json::Value>, name: &str) -> Option<String> {
    fields.get(name)?.as_str().map(str::to_string)
}

fn byte_field(fields: &serde_json::Map<String, serde_json::Value>, name: &str) -> Option<u8> {
    u8::try_from(fields.get(name)?.as_u64()?).ok()
}

// Reads a plaintext with serde_json, as a caller of the library does.
fn read_plaintext(plaintext: &str) -> Option<Message> {
    let value: serde_json::Value = serde_json::from_str(plaintext).ok()?;
    let record = value.as_object()?;
    if record.len() != 1 {
        return None;
    }
    let (tag, body) = record.iter().next()?;
    let fields = body.as_object()?;
    match tag.as_str() {
        "InitRequest" => Some(Message::InitRequest {
            id: text_field(fields, "id")?,
            mdc: text_field(fields, "mdc")?,
            kyber: text_field(fields, "kyber")?,
            curve_for_pfs: text_field(fields, "curve_for_pfs")?,
            sign: text_field(fields, "sign")?,
            name: text_field(fields, "name")?,
            comment: text_field(fields, "comment")?,
            mdc_seed: text_field(fields, "mdc_seed")?,
        }),
        "InitAccept" => Some(Message::InitAccept {
            kyber: text_field(fields, "kyber")?,
            sign: text_field(fields, "sign")?,
            mdc: text_field(fields, "mdc")?,
        }),
        "Text" => Some(Message::Text { text: text_field(fields, "text")?, mdc: text_field(fields, "mdc")? }),
        "Internal" => Some(Message::Internal {
            event: byte_field(fields, "event")?,
            event_data: text_field(fields, "event_data")?,
            mdc: text_field(fields, "mdc")?,
        }),
        "Voice" => Some(Message::Voice { voice: text_field(fields, "voice")?, mdc: text_field(fields, "mdc")? }),
        "Picture" => Some(Message::Picture {
            picture: text_field(fields, "picture")?,
            description: text_field(fields, "description")?,
            mdc: text_field(fields, "mdc")?,
        }),
        "LinkedMedia" => Some(Message::LinkedMedia {
            media_type: byte_field(fields, "media_type")?,
            media_link: text_field(fields, "media_link")?,
            media_key: text_field(fields, "media_key")?,
            description: text_field(fields, "description")?,
            mdc: text_field(fields, "mdc")?,
        }),
        _ => None,
    }
}

// Stands where the ratchet seals a plaintext: the record is the plaintext itself.
fn seal(plaintext: &str) -> Vec<u8> {
    plaintext.as_bytes().to_vec()
}

// Stands where the ratchet opens a record: reads the plaintext back and hands
// out the chain key and the warning that the test chose.
fn open(record: &[u8], next_key: &[u8], warning: Warning) -> Opened {
    let body = match std::str::from_utf8(record) {
        Ok(plaintext) => read_plaintext(plaintext),
        Err(_) => None,
    };
    Opened { body, next_key: next_key.to_vec(), warning }
}

fn key(first: u8, len: usize) -> Vec<u8> {
    (0..len).map(|i| first.wrapping_add(i as u8)).collect()
}

const ID: &str = "8f14e45fceea167a5a36dedd4bea2543ffeeddccbbaa99887766554433221100";
const MDC: &str = "0123456789abcdef0123456789abcdef0123456789abcdef0123456789abcdef";
const MDC_2: &str = "1123456789abcdef0123456789abcdef0123456789abcdef0123456789abcdef";
const MDC_3: &str = "2123456789abcdef0123456789abcdef0123456789abcdef0123456789abcdef";

#[test]
fn test_init_and_messaging() {
    let name = "alice";
    let comment = "\nhi\n\\{}[]{{}\"";
    let bob_pk_sig = key(7, 64);
    let alice_pk_sig = key(9, 64);
    let alice_pk_kyber = key(1, 1568);
    let alice_pk_curve = key(2, 32);
    let alice_pk_curve_for_salt = key(3, 32);
    let alice_pk_curve_pfs_2 = key(4, 32);
    let kyber_ciphertext_for_salt = key(5, 1568);
    let seed = key(6, 32);
    let id = ID.to_string();
    let mdc = MDC.to_string();

    // Alice sends an init request to Bob
    let (mdc_seed, plaintext) =
        gen_init_request(&alice_pk_kyber, &alice_pk_curve_pfs_2, &alice_pk_sig, &id, &seed, name, comment, &mdc)
            .unwrap();
    let alice_new_pfs_key = key(10, 32);
    let init_request_ciphertext =
        frame_init_request(&alice_pk_curve, &alice_pk_curve_for_salt, &kyber_ciphertext_for_salt, &seal(&plaintext));

    // Bob's client parses the init request
    let (recv_pk_curve, recv_pk_curve_for_salt, recv_kyber_ciphertext, record) =
        split_init_request(&init_request_ciphertext).unwrap();
    assert_eq!(recv_pk_curve, alice_pk_curve);
    assert_eq!(recv_pk_curve_for_salt, alice_pk_curve_for_salt);
    assert_eq!(recv_kyber_ciphertext, kyber_ciphertext_for_salt);
    let parts = parse_init_request(open(record, &alice_new_pfs_key, Warning::SignatureAbsent)).unwrap();

    // check the received init request
    assert_eq!(parts.id, id);
    assert_eq!(parts.mdc, mdc);
    assert_eq!(parts.remote_pubkey_kyber, alice_pk_kyber);
    assert_eq!(parts.remote_pubkey_sig, alice_pk_sig);
    assert_eq!(parts.remote_pubkey_curve_pfs_2, alice_pk_curve_pfs_2);
    assert_eq!(parts.new_remote_pfs_key, alice_new_pfs_key);
    assert_eq!(parts.name, name);
    assert_eq!(parts.comment, comment);
    assert_eq!(parts.mdc_seed, mdc_seed);
    assert_eq!(mdc_seed, "060708090a0b0c0d0e0f101112131415161718191a1b1c1d1e1f202122232425");

    // Bob accepts the init request
    let bob_pk_kyber = key(11, 1568);
    let mdc_2 = MDC_2.to_string();
    let bob_new_pfs_key_2 = key(12, 32);
    let init_accept_ciphertext = seal(&accept_init_request(&bob_pk_kyber, &bob_pk_sig, &mdc_2));

    // Alice happily receives the accept message
    let (recv_bob_pk_kyber, recv_bob_pk_sig, recv_bob_new_pfs_key_2, mdc_3) =
        parse_init_response(open(&init_accept_ciphertext, &bob_new_pfs_key_2, Warning::NoWarning), false).unwrap();

    // check the received values
    assert_eq!(recv_bob_pk_kyber, bob_pk_kyber);
    assert_eq!(recv_bob_pk_sig, bob_pk_sig);
    assert_eq!(bob_new_pfs_key_2, recv_bob_new_pfs_key_2);
    assert_eq!(mdc_2, mdc_3);

    // now we can send some messages!
    // Bob sends the first message
    let mdc_4 = MDC_3.to_string();
    let bob_new_pfs_key_3 = key(13, 32);
    let bob_msg_ciphertext_1 = seal(&send_msg((content_type::TEXT, Some("Hi Alice"), None), &mdc_4).unwrap());

    // Alice receives it
    let ((recv_content_type, recv_text, recv_bytes), recv_bob_new_pfs_key_3, mdc_5) =
        parse_msg(Some(open(&bob_msg_ciphertext_1, &bob_new_pfs_key_3, Warning::NoWarning)), true).unwrap();

    // check what was received
    assert_eq!(recv_content_type, content_type::TEXT);
    assert_eq!(recv_text, Some("Hi Alice".to_string()));
    assert_eq!(recv_bytes, None);
    assert_eq!(recv_bob_new_pfs_key_3, bob_new_pfs_key_3);
    assert_eq!(mdc_4, mdc_5);

    // Alice sends two messages
    let mdc_6 = MDC.to_string();
    let mdc_7 = MDC_2.to_string();
    let alice_new_pfs_key_2 = key(14, 32);
    let alice_new_pfs_key_3 = key(15, 32);
    let alice_msg_ciphertext_1 = seal(&send_msg((content_type::TEXT, Some("Hi Bob"), None), &mdc_6).unwrap());
    let alice_msg_ciphertext_2 =
        seal(&send_msg((content_type::TEXT, Some("How are you?"), None), &mdc_7).unwrap());

    // Bob receives both messages
    let ((recv_content_type_1, recv_text_1, recv_bytes_1), recv_alice_new_pfs_key_2, mdc_8) =
        parse_msg(Some(open(&alice_msg_ciphertext_1, &alice_new_pfs_key_2, Warning::NoWarning)), true).unwrap();
    let ((recv_content_type_2, recv_text_2, recv_bytes_2), recv_alice_new_pfs_key_3, mdc_9) =
        parse_msg(Some(open(&alice_msg_ciphertext_2, &alice_new_pfs_key_3, Warning::NoWarning)), true).unwrap();

    // check what was received
    assert!(recv_content_type_1 == recv_content_type_2 && recv_content_type_1 == content_type::TEXT);
    assert_eq!(recv_text_1, Some("Hi Bob".to_string()));
    assert_eq!(recv_text_2, Some("How are you?".to_string()));
    assert!(recv_bytes_1.is_none() && recv_bytes_2.is_none());
    assert_eq!(recv_alice_new_pfs_key_2, alice_new_pfs_key_2);
    assert_eq!(recv_alice_new_pfs_key_3, alice_new_pfs_key_3);
    assert_eq!(mdc_6, mdc_8);
    assert_eq!(mdc_7, mdc_9);
    assert_ne!(mdc_8, mdc_9);

    // Bob sends a message
    let mdc_10 = MDC.to_string();
    let bob_new_pfs_key_4 = key(16, 32);
    let bob_msg_ciphertext_2 = seal(
        &send_msg((content_type::TEXT, Some("I'm very happy because the test just passed!"), None), &mdc_10)
            .unwrap(),
    );

    // Alice receives it
    let ((recv_content_type, recv_text, recv_bytes), recv_bob_new_pfs_key_4, mdc_11) =
        parse_msg(Some(open(&bob_msg_ciphertext_2, &bob_new_pfs_key_4, Warning::NoWarning)), true).unwrap();

    // check what was received
    assert_eq!(recv_content_type, content_type::TEXT);
    assert_eq!(recv_text, Some("I'm very happy because the test just passed!".to_string()));
    assert!(recv_bytes.is_none());
    assert_eq!(recv_bob_new_pfs_key_4, bob_new_pfs_key_4);
    assert_eq!(mdc_10, mdc_11);

    // Alice sends a voice message
    let mdc_12 = MDC_2.to_string();
    let alice_new_pfs_key_3 = key(17, 32);
    let alice_msg_ciphertext_3 =
        seal(&send_msg((content_type::VOICE, None, Some(&vec![1, 3, 5, 7, 9, 42])), &mdc_12).unwrap());

    // Bob receives it
    let ((recv_content_type, recv_text, recv_bytes), recv_alice_new_pfs_key_3, mdc_13) =
        parse_msg(Some(open(&alice_msg_ciphertext_3, &alice_new_pfs_key_3, Warning::NoWarning)), true).unwrap();

    assert_eq!(recv_content_type, content_type::VOICE);
    assert!(recv_text.is_none());
    assert_eq!(recv_bytes, Some(vec![1, 3, 5, 7, 9, 42]));
    assert_eq!(recv_alice_new_pfs_key_3, alice_new_pfs_key_3);
    assert_eq!(mdc_12, mdc_13);

    // Bob sends a picture
    let mdc_14 = MDC_3.to_string();
    let bob_new_pfs_key_5 = key(18, 32);
    let bob_msg_ciphertext_3 = seal(
        &send_msg(
            (
                content_type::PICTURE,
                Some("Here is a photo for you!"),
                Some(&vec![42, 42, 42, 42, 7, 6, 5, 4, 3, 2, 1]),
            ),
            &mdc_14,
        )
        .unwrap(),
    );

    // Alice receives it
    let ((recv_content_type, recv_text, recv_bytes), recv_bob_new_pfs_key_5, mdc_15) =
        parse_msg(Some(open(&bob_msg_ciphertext_3, &bob_new_pfs_key_5, Warning::NoWarning)), true).unwrap();

    assert_eq!(recv_content_type, content_type::PICTURE);
    assert_eq!(recv_text, Some("Here is a photo for you!".to_string()));
    assert_eq!(recv_bytes, Some(vec![42, 42, 42, 42, 7, 6, 5, 4, 3, 2, 1]));
    assert_eq!(recv_bob_new_pfs_key_5, bob_new_pfs_key_5);
    assert_eq!(mdc_14, mdc_15);

    // Alice sends a large media file
    let link = "https://contentserver.dawn-privacy.org/f/42";
    let key_text = "42424242";
    let comment = "This is a test file!\nThe comment can use multiple lines just like a normal message!\nPretty neat, right? :)";
    let msg_string = link.to_string() + "\n" + key_text + "\n" + comment;
    let mdc_16 = MDC.to_string();
    let alice_new_pfs_key_4 = key(19, 32);
    let alice_msg_ciphertext_4 =
        seal(&send_msg((content_type::LINKED_MEDIA, Some(&msg_string), Some(&vec![42])), &mdc_16).unwrap());

    // Bob receives it
    let ((recv_content_type, recv_text, recv_bytes), recv_alice_new_pfs_key_4, mdc_17) =
        parse_msg(Some(open(&alice_msg_ciphertext_4, &alice_new_pfs_key_4, Warning::NoWarning)), true).unwrap();

    assert_eq!(recv_content_type, content_type::LINKED_MEDIA);
    assert_eq!(recv_text, Some(link.to_string() + "\n" + key_text + "\n" + comment));
    assert_eq!(recv_bytes, Some(vec![42]));
    assert_eq!(recv_alice_new_pfs_key_4, alice_new_pfs_key_4);
    assert_eq!(mdc_16, mdc_17);
}

#[test]
fn test_gen_init_request() {
    assert!(gen_init_request(&vec![], &vec![], &vec![], "", &vec![], "", "", "").is_err());
    let comment = "\nhi\n\\{}[]{{}\"";
    let mdc = MDC.to_string();
    let bob_init_pk_curve = key(20, 32);
    let bob_init_pk_kyber = key(21, 1568);
    let alice_pk_sig = key(22, 64);
    let r = gen_init_request(&bob_init_pk_kyber, &bob_init_pk_curve, &alice_pk_sig, ID, &key(23, 32), "", comment, &mdc);
    assert!(r.is_err());
    assert_eq!(r, Err(Error::EmptyName));
    assert_eq!(Error::EmptyName.kind(), ErrorKind::BadInput);
    assert_eq!(Error::EmptyName.message(), "@dawn-stdlib: name must not be empty");
}

#[test]
fn init_request_plaintext_is_exact() {
    let (seed, plaintext) =
        gen_init_request(&[0xab, 1], &[2], &[3, 0xff], "id1", &[0, 16], "alice", "\nhi\n\\{}[]{{}\"", "m1").unwrap();
    assert_eq!(seed, "0010");
    assert_eq!(
        plaintext,
        "{\"InitRequest\":{\"id\":\"id1\",\"mdc\":\"m1\",\"kyber\":\"ab01\",\"curve_for_pfs\":\"02\",\"sign\":\"03ff\",\"name\":\"alice\",\"comment\":\"\\nhi\\n\\\\{}[]{{}\\\"\",\"mdc_seed\":\"0010\"}}"
    );
}

#[test]
fn init_accept_plaintext_is_exact() {
    assert_eq!(
        accept_init_request(&[1, 2], &[0xfe], "m2"),
        "{\"InitAccept\":{\"kyber\":\"0102\",\"sign\":\"fe\",\"mdc\":\"m2\"}}"
    );
}

#[test]
fn init_request_is_refused_for_what_it_lacks() {
    let good = Message::InitRequest {
        id: "i".to_string(),
        mdc: "m".to_string(),
        kyber: "0a".to_string(),
        curve_for_pfs: "0B".to_string(),
        sign: "".to_string(),
        name: "n".to_string(),
        comment: "c".to_string(),
        mdc_seed: "s".to_string(),
    };
    let opened = |body: Option<Message>| Opened { body, next_key: vec![1], warning: Warning::SignatureBad };
    let parts = parse_init_request(opened(Some(good.clone()))).unwrap();
    assert_eq!(parts.remote_pubkey_kyber, vec![10]);
    assert_eq!(parts.remote_pubkey_curve_pfs_2, vec![11]);
    assert_eq!(parts.remote_pubkey_sig, Vec::<u8>::new());
    assert_eq!(parts.new_remote_pfs_key, vec![1]);
    assert_eq!(parse_init_request(opened(None)), Err(Error::InvalidJson));
    assert_eq!(
        parse_init_request(opened(Some(Message::Text { text: "t".to_string(), mdc: "m".to_string() }))),
        Err(Error::NotInitRequest)
    );
    let with = |kyber: &str, curve: &str, sign: &str| match good.clone() {
        Message::InitRequest { id, mdc, name, comment, mdc_seed, .. } => Message::InitRequest {
            id,
            mdc,
            kyber: kyber.to_string(),
            curve_for_pfs: curve.to_string(),
            sign: sign.to_string(),
            name,
            comment,
            mdc_seed,
        },
        other => other,
    };
    assert_eq!(parse_init_request(opened(Some(with("0", "zz", "zz")))), Err(Error::InvalidKyberKey));
    assert_eq!(parse_init_request(opened(Some(with("00", "zz", "zz")))), Err(Error::InvalidCurveKey));
    assert_eq!(parse_init_request(opened(Some(with("00", "11", "zz")))), Err(Error::InvalidSignatureKey));
}

#[test]
fn init_response_is_refused_for_what_it_lacks() {
    let accept = |kyber: &str, sign: &str| {
        Some(Message::InitAccept { kyber: kyber.to_string(), sign: sign.to_string(), mdc: "m".to_string() })
    };
    let opened = |body: Option<Message>, warning: Warning| Opened { body, next_key: vec![9, 9], warning };
    assert_eq!(
        parse_init_response(opened(accept("0102", "ff"), Warning::NoWarning), true),
        Ok((vec![1, 2], vec![255], vec![9, 9], "m".to_string()))
    );
    assert_eq!(
        parse_init_response(opened(accept("0102", "ff"), Warning::SignatureAbsent), false),
        Ok((vec![1, 2], vec![255], vec![9, 9], "m".to_string()))
    );
    assert_eq!(
        parse_init_response(opened(accept("0102", "ff"), Warning::SignatureAbsent), true),
        Err(Error::SignatureAbsent)
    );
    assert_eq!(
        parse_init_response(opened(accept("0102", "ff"), Warning::SignatureBad), true),
        Err(Error::SignatureBad)
    );
    assert_eq!(parse_init_response(opened(None, Warning::SignatureBad), true), Err(Error::SignatureBad));
    assert_eq!(parse_init_response(opened(None, Warning::NoWarning), true), Err(Error::InvalidJson));
    assert_eq!(
        parse_init_response(
            opened(Some(Message::Voice { voice: "".to_string(), mdc: "m".to_string() }), Warning::NoWarning),
            false
        ),
        Err(Error::NotInitAccept)
    );
    assert_eq!(parse_init_response(opened(accept("012", "ff"), Warning::NoWarning), false), Err(Error::InvalidKyberKey));
    assert_eq!(
        parse_init_response(opened(accept("0102", "fg"), Warning::NoWarning), false),
        Err(Error::InvalidSignatureKey)
    );
}

#[test]
fn required_signature_that_is_absent_is_never_a_success() {
    let record = seal(&send_msg((content_type::TEXT, Some("Hi"), None), MDC).unwrap());
    assert_eq!(parse_msg(Some(open(&record, &[1], Warning::SignatureAbsent)), true), Err(Error::SignatureAbsent));
    assert_eq!(parse_msg(Some(open(&record, &[1], Warning::SignatureBad)), true), Err(Error::SignatureBad));
    assert_eq!(Error::SignatureAbsent.kind(), ErrorKind::SignatureAbsent);
    assert_eq!(Error::SignatureBad.kind(), ErrorKind::SignatureBad);
    assert_eq!(
        Error::SignatureAbsent.message(),
        "@dawn-stdlib: CRITICAL: signature verification was requested, but the remote side did not provide a signature"
    );
    assert_eq!(
        Error::SignatureBad.message(),
        "@dawn-stdlib: CRITICAL: signature verification was requested, but the signature of the remote side is invalid"
    );
    // without the requirement the warning does not matter
    assert_eq!(
        parse_msg(Some(open(&record, &[1], Warning::SignatureAbsent)), false),
        Ok(((content_type::TEXT, Some("Hi".to_string()), None), vec![1], MDC.to_string()))
    );
    // the signature comes before the plaintext
    assert_eq!(parse_msg(Some(open(b"no json", &[1], Warning::SignatureAbsent)), true), Err(Error::SignatureAbsent));
}

#[test]
fn event_is_received_as_it_was_sent() {
    let record = seal(&send_msg((content_type::INTERNAL, Some("7"), Some(&[1, 2, 3])), MDC).unwrap());
    assert_eq!(
        parse_msg(Some(open(&record, &[4, 5], Warning::NoWarning)), true),
        Ok(((content_type::INTERNAL, Some("7".to_string()), Some(vec![1, 2, 3])), vec![4, 5], MDC.to_string()))
    );
}

#[test]
fn record_that_did_not_open_is_a_decrypt_failure() {
    assert_eq!(parse_msg(None, false), Err(Error::DecryptionFailed));
    assert_eq!(parse_msg(None, true), Err(Error::DecryptionFailed));
    assert_eq!(Error::DecryptionFailed.kind(), ErrorKind::Decrypt);
    assert_eq!(Error::DecryptionFailed.message(), "@dawn-stdlib: decryption failed");
}

#[test]
fn plaintext_that_cannot_be_read_is_refused() {
    assert_eq!(parse_msg(Some(open(b"{\"Text\":{\"text\":1}}", &[1], Warning::NoWarning)), false), Err(Error::InvalidJson));
    assert_eq!(Error::InvalidJson.message(), "@dawn-stdlib: json parsing failed");
}

#[test]
fn handshake_message_is_no_content() {
    let record = seal(&accept_init_request(&[1], &[2], MDC));
    assert_eq!(parse_msg(Some(open(&record, &[1], Warning::NoWarning)), false), Err(Error::UnexpectedMessage));
    let (_, plaintext) = gen_init_request(&[1], &[2], &[3], ID, &[4], "alice", "", MDC).unwrap();
    assert_eq!(
        parse_msg(Some(open(&seal(&plaintext), &[1], Warning::NoWarning)), false),
        Err(Error::UnexpectedMessage)
    );
    assert_eq!(
        Error::UnexpectedMessage.message(),
        "@dawn-stdlib: message type not known or unexpected init message"
    );
}
