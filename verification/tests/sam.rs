use i2p_client::sam::{
    check_result, datagram_header, datagram_packet, frame_line, generate_dest_command,
    generated_keys, hello_command, hello_outcome, interpret_reply, message, naming_lookup_command,
    naming_lookup_value, parse_datagram, parse_reply, session_create_command, session_destination,
};
use i2p_client::{SamErrorKind, SigType, StringMap, DEFAULT_SAM_TCP, DEFAULT_SAM_UDP};

#[test]
fn parses_a_hello_reply() {
    let m = parse_reply("HELLO REPLY RESULT=OK VERSION=3.3");
    assert_eq!(m.get("RESULT").unwrap(), "OK");
    assert_eq!(m.get("VERSION").unwrap(), "3.3");
    assert!(check_result(&m).is_ok());
}

#[test]
fn maps_a_sam_error_to_io_error() {
    let m = parse_reply("SESSION STATUS RESULT=DUPLICATED_ID MESSAGE=\"in use\"");
    let e = check_result(&m).unwrap_err();
    assert_eq!(e.kind(), SamErrorKind::AlreadyExists);
}

#[test]
fn reply_values_lose_their_quotes_and_split_at_the_first_equals() {
    let m = parse_reply("  NAMING REPLY RESULT=OK NAME=\"x.i2p\" VALUE=a=b=c  ");
    assert_eq!(m.get("NAME").unwrap(), "x.i2p");
    assert_eq!(m.get("VALUE").unwrap(), "a=b=c");
    assert!(m.get("NAMING").is_none());
    assert!(m.get("REPLY").is_none());
    let m = parse_reply("K=\"\"\"v\"\" E= =x");
    assert_eq!(m.get("K").unwrap(), "v");
    assert_eq!(m.get("E").unwrap(), "");
    assert_eq!(m.get("").unwrap(), "x");
}

#[test]
fn a_later_key_in_a_reply_wins() {
    let m = parse_reply("RESULT=OK RESULT=TIMEOUT");
    assert_eq!(m.get("RESULT").unwrap(), "TIMEOUT");
    assert_eq!(check_result(&m).unwrap_err().kind(), SamErrorKind::TimedOut);
}

#[test]
fn replies_split_on_unicode_white_space() {
    let m = parse_reply("A=1\u{a0}B=2\u{2003}C=3\tD=4\r\n");
    assert_eq!(m.get("A").unwrap(), "1");
    assert_eq!(m.get("B").unwrap(), "2");
    assert_eq!(m.get("C").unwrap(), "3");
    assert_eq!(m.get("D").unwrap(), "4");
    assert!(parse_reply("").get("RESULT").is_none());
}

#[test]
fn every_result_code_maps_to_its_kind() {
    let cases = [
        ("CANT_REACH_PEER", SamErrorKind::NotFound),
        ("KEY_NOT_FOUND", SamErrorKind::NotFound),
        ("PEER_NOT_FOUND", SamErrorKind::NotFound),
        ("DUPLICATED_DEST", SamErrorKind::AlreadyExists),
        ("DUPLICATED_ID", SamErrorKind::AlreadyExists),
        ("INVALID_KEY", SamErrorKind::InvalidInput),
        ("INVALID_ID", SamErrorKind::InvalidInput),
        ("TIMEOUT", SamErrorKind::TimedOut),
        ("I2P_ERROR", SamErrorKind::Other),
    ];
    for (code, kind) in cases {
        let m = parse_reply(&format!("X Y RESULT={} MESSAGE=why", code));
        let e = check_result(&m).unwrap_err();
        assert_eq!(e.kind(), kind, "code {}", code);
        if kind == SamErrorKind::Other {
            assert_eq!(e.message, format!("SAM error {}: why", code));
        } else {
            assert_eq!(e.message, "why");
        }
    }
    let e = check_result(&parse_reply("RESULT=NOVERSION")).unwrap_err();
    assert_eq!(e.kind(), SamErrorKind::Other);
    assert_eq!(e.message, "SAM error NOVERSION: ");
}

#[test]
fn a_reply_without_result_passes() {
    assert!(check_result(&parse_reply("PING")).is_ok());
    assert!(interpret_reply("NAMING REPLY VALUE=abc").is_ok());
    assert_eq!(message(&parse_reply("RESULT=OK")), "");
    assert_eq!(message(&parse_reply("MESSAGE=\"hi\"")), "hi");
}

#[test]
fn interpret_reply_keeps_the_pairs_or_gives_the_error() {
    let m = interpret_reply("SESSION STATUS RESULT=OK DESTINATION=abc~").unwrap();
    assert_eq!(session_destination(&m, "TRANSIENT"), "abc~");
    assert_eq!(session_destination(&parse_reply("SESSION STATUS RESULT=OK"), "req"), "req");
    let e = interpret_reply("SESSION STATUS RESULT=INVALID_KEY MESSAGE=bad").unwrap_err();
    assert_eq!(e.kind(), SamErrorKind::InvalidInput);
    assert_eq!(e.message, "bad");
}

#[test]
fn commands_are_written_as_sam_expects() {
    assert_eq!(hello_command(), "HELLO VERSION MIN=3.1 MAX=3.3");
    assert_eq!(naming_lookup_command("ME"), "NAMING LOOKUP NAME=ME");
    assert_eq!(
        generate_dest_command(SigType::EdDsaSha512Ed25519),
        "DEST GENERATE SIGNATURE_TYPE=EdDSA_SHA512_Ed25519"
    );
    assert_eq!(
        session_create_command("1m5", "TRANSIENT", 40321),
        "SESSION CREATE STYLE=DATAGRAM ID=1m5 DESTINATION=TRANSIENT HOST=127.0.0.1 PORT=40321"
    );
    assert_eq!(
        session_create_command("n", "D", 0),
        "SESSION CREATE STYLE=DATAGRAM ID=n DESTINATION=D HOST=127.0.0.1 PORT=0"
    );
    assert_eq!(frame_line("HELLO VERSION \t \n"), "HELLO VERSION\n");
    assert_eq!(frame_line("  X"), "  X\n");
    assert_eq!(frame_line(""), "\n");
}

#[test]
fn signature_types_have_their_sam_names() {
    assert_eq!(SigType::EdDsaSha512Ed25519.as_str(), "EdDSA_SHA512_Ed25519");
    assert_eq!(SigType::RedDsaSha512Ed25519.as_str(), "RedDSA_SHA512_Ed25519");
    assert_eq!(SigType::DsaSha1.as_str(), "DSA_SHA1");
}

#[test]
fn hello_refuses_a_bridge_without_a_common_version() {
    let e = hello_outcome(&parse_reply("HELLO REPLY RESULT=NOVERSION")).unwrap_err();
    assert_eq!(e.kind(), SamErrorKind::Unsupported);
    assert_eq!(e.message, "SAM bridge supports no compatible version");
    assert!(hello_outcome(&parse_reply("HELLO REPLY RESULT=OK VERSION=3.3")).is_ok());
}

#[test]
fn lookups_and_generated_keys_need_their_fields() {
    assert_eq!(naming_lookup_value(&parse_reply("NAMING REPLY RESULT=OK VALUE=v")).unwrap(), "v");
    let e = naming_lookup_value(&parse_reply("NAMING REPLY RESULT=OK")).unwrap_err();
    assert_eq!(e.kind(), SamErrorKind::Other);
    assert_eq!(e.message, "NAMING REPLY without VALUE");
    let (p, s) = generated_keys(&parse_reply("DEST REPLY PUB=pk PRIV=sk")).unwrap();
    assert_eq!(p, "pk");
    assert_eq!(s, "sk");
    let e = generated_keys(&parse_reply("DEST REPLY PUB=pk")).unwrap_err();
    assert_eq!(e.message, "DEST REPLY missing PUB/PRIV");
}

#[test]
fn datagrams_carry_a_header_line_then_the_payload() {
    assert_eq!(datagram_header("nick", "dest"), "3.3 nick dest\n");
    let p = datagram_packet("nick", "dést", &[0, 10, 255]);
    let mut expected = "3.3 nick dést\n".as_bytes().to_vec();
    expected.extend_from_slice(&[0, 10, 255]);
    assert_eq!(p, expected);
    assert_eq!(DEFAULT_SAM_TCP, "127.0.0.1:7656");
    assert_eq!(DEFAULT_SAM_UDP, "127.0.0.1:7655");
}

#[test]
fn forwarded_datagrams_split_at_the_first_newline() {
    let (from, payload) = parse_datagram(b" sender~AAAA \npay\nload");
    assert_eq!(from, "sender~AAAA");
    assert_eq!(payload, b"pay\nload".to_vec());
    let (from, payload) = parse_datagram(b"s\n");
    assert_eq!(from, "s");
    assert!(payload.is_empty());
    // Without a newline the header is empty and the first byte is dropped.
    let (from, payload) = parse_datagram(b"abc");
    assert_eq!(from, "");
    assert_eq!(payload, b"bc".to_vec());
}

#[test]
fn a_sender_that_is_not_utf8_is_decoded_leniently() {
    let (from, payload) = parse_datagram(&[b'a', 0xff, b'b', b'\n', 7]);
    assert_eq!(from, "a\u{fffd}b");
    assert_eq!(payload, vec![7]);
}

#[test]
fn string_maps_replace_and_look_up() {
    let mut m = StringMap::new();
    assert!(!m.contains_key("k"));
    m.insert("k".to_string(), "1".to_string());
    m.insert("j".to_string(), "2".to_string());
    m.insert("k".to_string(), "3".to_string());
    assert_eq!(m.get("k").unwrap(), "3");
    assert_eq!(m.get("j").unwrap(), "2");
    assert!(m.contains_key("j"));
    assert!(m.get("K").is_none());
}
