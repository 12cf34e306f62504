use tinyhumans_sdk::enc;
use tinyhumans_sdk::text::decimal_string;

#[test]
fn a_slash_in_an_id_is_escaped() {
    assert_eq!(enc("job/abc"), "job%2Fabc");
}

#[test]
fn unreserved_characters_stand_for_themselves() {
    assert_eq!(enc("job-abc"), "job-abc");
    assert_eq!(enc("AZaz09-._~"), "AZaz09-._~");
    assert_eq!(enc(""), "");
}

#[test]
fn reserved_and_non_ascii_bytes_become_upper_case_escapes() {
    assert_eq!(enc("a b"), "a%20b");
    assert_eq!(enc("?#%"), "%3F%23%25");
    assert_eq!(enc("é"), "%C3%A9");
    assert_eq!(enc("key:1+2"), "key%3A1%2B2");
}

#[test]
fn encoded_segments_hold_no_separators() {
    for id in ["a/b/c", "x?y=1", "frag#ment", "ü/🎬"] {
        let out = enc(id);
        assert!(!out.contains('/') && !out.contains('?') && !out.contains('#'), "{out}");
    }
}

#[test]
fn decimal_numerals_match_to_string() {
    assert_eq!(decimal_string(0), "0");
    assert_eq!(decimal_string(7), "7");
    assert_eq!(decimal_string(10), "10");
    assert_eq!(decimal_string(255), "255");
    assert_eq!(decimal_string(u32::MAX), u32::MAX.to_string());
}
