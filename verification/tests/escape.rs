use tube_client::escape::{percent_decode, percent_encode};

#[test]
fn plain_characters_stand_for_themselves() {
    assert_eq!(percent_encode("AZaz09-._~"), "AZaz09-._~");
}

#[test]
fn the_empty_term_stays_empty() {
    assert_eq!(percent_encode(""), "");
    assert_eq!(percent_decode(""), Some(vec![]));
}

#[test]
fn other_bytes_become_percent_and_two_upper_case_digits() {
    assert_eq!(percent_encode(" "), "%20");
    assert_eq!(percent_encode("a b"), "a%20b");
    assert_eq!(percent_encode("a&b=c"), "a%26b%3Dc");
    assert_eq!(percent_encode("%"), "%25");
    assert_eq!(percent_encode("+"), "%2B");
    assert_eq!(percent_encode("/?#"), "%2F%3F%23");
    assert_eq!(percent_encode("\n"), "%0A");
}

#[test]
fn letters_outside_ascii_are_escaped_byte_by_byte() {
    assert_eq!(percent_encode("löve"), "l%C3%B6ve");
    assert_eq!(percent_encode("☂"), "%E2%98%82");
}

#[test]
fn decoding_gives_back_the_term() {
    for term in ["", "löve", "a b", "100% sure?", "Analysis 1 & 2", "日本語", "~-._"] {
        let escaped = percent_encode(term);
        assert!(escaped.chars().all(|c| c.is_ascii_alphanumeric() || "-._~%".contains(c)));
        let bytes = percent_decode(&escaped).unwrap();
        assert_eq!(String::from_utf8(bytes).unwrap(), term);
    }
}

#[test]
fn decoding_takes_digits_in_either_case() {
    assert_eq!(percent_decode("%c3%B6"), Some(vec![0xc3, 0xb6]));
    assert_eq!(percent_decode("a%2fb"), Some(vec![b'a', b'/', b'b']));
    assert_eq!(percent_decode("a+b"), Some(vec![b'a', b'+', b'b']));
}

#[test]
fn decoding_refuses_what_is_no_escape() {
    assert_eq!(percent_decode("%"), None);
    assert_eq!(percent_decode("%2"), None);
    assert_eq!(percent_decode("abc%2"), None);
    assert_eq!(percent_decode("%G1"), None);
    assert_eq!(percent_decode("%1G"), None);
    assert_eq!(percent_decode("ö"), None);
}
