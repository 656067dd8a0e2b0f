use opengov_cli::call_data::{
    call_data_text, decode_call_data_file, decode_hex_text, decode_inline_call_data,
    is_inline_call_data,
};
use opengov_cli::text::{strip_hex_prefixes_from, to_ascii_lowercase, trim_whitespace};

#[test]
fn call_data_text_is_prefixed_lower_case_hex() {
    assert_eq!(call_data_text(&[0x01, 0x02, 0x03, 0x0f, 0x10, 0xab]), "0x0102030f10ab");
    assert_eq!(call_data_text(&[]), "0x");
    assert_eq!(call_data_text(b"Hello world!"), "0x48656c6c6f20776f726c6421");
}

#[test]
fn decodes_hex_in_either_case() {
    assert_eq!(decode_hex_text("48656c6c6f20776f726c6421"), Some(b"Hello world!".to_vec()));
    assert_eq!(decode_hex_text("F9b4cA"), Some(vec![0xf9, 0xb4, 0xca]));
    assert_eq!(decode_hex_text(""), Some(vec![]));
    assert_eq!(decode_hex_text("123"), None);
    assert_eq!(decode_hex_text("foo"), None);
    assert_eq!(decode_hex_text("0g"), None);
    assert_eq!(decode_hex_text("éé"), None);
}

#[test]
fn inline_call_data_drops_every_leading_0x() {
    assert!(is_inline_call_data("0x1234"));
    assert!(!is_inline_call_data("./upgrade.call"));
    assert!(!is_inline_call_data("0X1234"));
    assert_eq!(decode_inline_call_data("0x1234"), Some(vec![0x12, 0x34]));
    assert_eq!(decode_inline_call_data("0x0x1234"), Some(vec![0x12, 0x34]));
    assert_eq!(decode_inline_call_data("0x"), Some(vec![]));
    assert_eq!(decode_inline_call_data("0x123"), None);
    assert_eq!(decode_inline_call_data("0x1234\n"), None);
}

#[test]
fn file_call_data_is_trimmed_first() {
    assert_eq!(decode_call_data_file("  0xdeadbeef\n"), Some(vec![0xde, 0xad, 0xbe, 0xef]));
    assert_eq!(decode_call_data_file("deadbeef"), Some(vec![0xde, 0xad, 0xbe, 0xef]));
    assert_eq!(decode_call_data_file("\t0x0xab\r\n"), Some(vec![0xab]));
    assert_eq!(decode_call_data_file("0xde ad"), None);
    assert_eq!(decode_call_data_file("\u{3000}0x00\u{2029}"), Some(vec![0x00]));
}

#[test]
fn written_call_data_reads_back() {
    let data: Vec<u8> = (0..=255u8).collect();
    let text = call_data_text(&data);
    assert!(is_inline_call_data(&text));
    assert_eq!(decode_inline_call_data(&text), Some(data.clone()));
    assert_eq!(decode_call_data_file(&text), Some(data.clone()));
    assert_eq!(decode_call_data_file(&format!("{text}\n")), Some(data));
}

#[test]
fn text_helpers_match_std() {
    for s in ["  a b  ", "\n\t", "", "x", "\u{a0}é\u{85}", "\u{200b}y\u{200b}"] {
        assert_eq!(trim_whitespace(s), s.trim());
    }
    for s in ["Bulletin-POLKADOT", "ÄbC", ""] {
        assert_eq!(to_ascii_lowercase(s), s.to_ascii_lowercase());
    }
    assert_eq!(strip_hex_prefixes_from("0x0x0xab"), "0x0x0xab".trim_start_matches("0x"));
    assert_eq!(strip_hex_prefixes_from("00xab"), "00xab".trim_start_matches("0x"));
}
