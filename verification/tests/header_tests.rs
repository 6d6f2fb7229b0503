use http2::Header;
use http2::HeaderPart;
use http2::Headers;
use std::borrow::Cow;

#[test]
fn debug_rendering_escapes_non_printable_bytes() {
    let part = HeaderPart::from_slice(&[0x00, 0x1f, 0x20, 0x61, 0x7e, 0x7f, 0xff]);
    assert_eq!(part.debug_string(), "b\"\\x00\\x1f a~\\x7f\\xff\"");
}

#[test]
fn debug_rendering_of_empty_part() {
    let part = HeaderPart::from_vec(Vec::new());
    assert_eq!(part.debug_string(), "b\"\"");
}

#[test]
fn debug_rendering_passes_printable_ascii_through() {
    let part = HeaderPart::from_str(":method GET ~!");
    assert_eq!(part.debug_string(), "b\":method GET ~!\"");
}

#[test]
fn debug_rendering_hex_digits_are_lowercase() {
    let part = HeaderPart::from_slice(&[0x0a, 0xab, 0xcd, 0xef]);
    assert_eq!(part.debug_string(), "b\"\\x0a\\xab\\xcd\\xef\"");
}

#[test]
fn header_debug_rendering_labels_both_fields() {
    let h = Header::new(
        HeaderPart::from_str("key"),
        HeaderPart::from_slice(&[0x01]),
    );
    assert_eq!(h.debug_string(), "Header { name: b\"key\", value: b\"\\x01\" }");
}

#[test]
fn equal_content_compares_equal_across_conversion_paths() {
    let from_vec = HeaderPart::from_vec(vec![b'a', b'b', b'c']);
    let from_slice = HeaderPart::from_slice(b"abc");
    let from_array = HeaderPart::from_array(b"abc");
    let from_string = HeaderPart::from_string(String::from("abc"));
    let from_str = HeaderPart::from_str("abc");
    let from_cow_borrowed = HeaderPart::from_cow_bytes(Cow::Borrowed(b"abc".as_slice()));
    let from_cow_owned = HeaderPart::from_cow_bytes(Cow::Owned(vec![b'a', b'b', b'c']));
    let from_cow_str = HeaderPart::from_cow_str(Cow::Borrowed("abc"));
    let from_cow_string = HeaderPart::from_cow_str(Cow::Owned(String::from("abc")));
    assert!(from_vec == from_slice);
    assert!(from_slice == from_array);
    assert!(from_array == from_string);
    assert!(from_string == from_str);
    assert!(from_str == from_cow_borrowed);
    assert!(from_cow_borrowed == from_cow_owned);
    assert!(from_cow_owned == from_cow_str);
    assert!(from_cow_str == from_cow_string);
}

#[test]
fn different_content_compares_unequal() {
    assert!(HeaderPart::from_str("abc") != HeaderPart::from_str("abd"));
    assert!(HeaderPart::from_str("abc") != HeaderPart::from_str("ab"));
    assert!(HeaderPart::from_vec(Vec::new()) != HeaderPart::from_slice(&[0x00]));
}

#[test]
fn clone_observes_the_same_bytes() {
    let part = HeaderPart::from_slice(&[0x00, 0x61, 0xff]);
    let copy = part.clone();
    assert_eq!(copy.as_bytes(), &[0x00, 0x61, 0xff]);
    assert!(part == copy);
}

#[test]
fn header_new_keeps_name_and_value_bytes_for_every_source() {
    let h = Header::new(HeaderPart::from_str("name"), HeaderPart::from_str("value"));
    assert_eq!(h.name(), b"name");
    assert_eq!(h.value(), b"value");

    let h = Header::new(
        HeaderPart::from_vec(vec![1, 2]),
        HeaderPart::from_slice(&[3, 4, 5]),
    );
    assert_eq!(h.name(), &[1, 2]);
    assert_eq!(h.value(), &[3, 4, 5]);

    let h = Header::new(
        HeaderPart::from_array(&[0u8; 0]),
        HeaderPart::from_array(&[9u8; 23]),
    );
    assert_eq!(h.name(), b"");
    assert_eq!(h.value(), &[9u8; 23]);

    let h = Header::new(
        HeaderPart::from_string(String::from("n")),
        HeaderPart::from_cow_str(Cow::Borrowed("v")),
    );
    assert_eq!(h.name(), b"n");
    assert_eq!(h.value(), b"v");

    let h = Header::from_pair((
        HeaderPart::from_cow_bytes(Cow::Owned(vec![0xde, 0xad])),
        HeaderPart::from_cow_bytes(Cow::Borrowed([0xbe, 0xef].as_slice())),
    ));
    assert_eq!(h.name(), &[0xde, 0xad]);
    assert_eq!(h.value(), &[0xbe, 0xef]);
}

#[test]
fn header_equality_is_structural_on_both_fields() {
    let a = Header::new(HeaderPart::from_str("k"), HeaderPart::from_vec(vec![1]));
    let b = Header::new(HeaderPart::from_slice(b"k"), HeaderPart::from_slice(&[1]));
    let c = Header::new(HeaderPart::from_str("k"), HeaderPart::from_slice(&[2]));
    let d = Header::new(HeaderPart::from_str("j"), HeaderPart::from_slice(&[1]));
    assert!(a == b);
    assert!(a != c);
    assert!(a != d);
    assert!(a.clone() == b);
}

#[test]
fn headers_preserve_insertion_order_with_repeated_names() {
    let mut hs = Headers::new();
    hs.add("a", "1");
    hs.add("b", "2");
    hs.add("a", "3");
    let pairs: Vec<(&[u8], &[u8])> = hs.0.iter().map(|h| (h.name(), h.value())).collect();
    assert_eq!(
        pairs,
        vec![
            (b"a".as_slice(), b"1".as_slice()),
            (b"b".as_slice(), b"2".as_slice()),
            (b"a".as_slice(), b"3".as_slice()),
        ]
    );
}

#[test]
fn get_returns_the_first_match() {
    let mut hs = Headers::new();
    hs.add("a", "1");
    hs.add("b", "2");
    hs.add("a", "3");
    assert_eq!(hs.get("a"), "1");
    assert_eq!(hs.get("b"), "2");
}

#[test]
fn get_opt_finds_the_first_match_and_rejects_absent_names() {
    let mut hs = Headers::new();
    hs.add("a", "1");
    hs.add("b", "2");
    hs.add("a", "3");
    assert_eq!(hs.get_opt("a"), Some("1"));
    assert_eq!(hs.get_opt("b"), Some("2"));
    assert_eq!(hs.get_opt("z"), None);
}

#[test]
fn get_opt_on_empty_list_is_none() {
    let hs = Headers::new();
    assert_eq!(hs.get_opt("a"), None);
}

#[test]
fn get_opt_rejects_a_value_that_is_not_text() {
    let mut hs = Headers::new();
    hs.0.push(Header::new(
        HeaderPart::from_str("bin"),
        HeaderPart::from_slice(&[0xff, 0xfe]),
    ));
    assert_eq!(hs.get_opt("bin"), None);
}

#[test]
fn default_headers_list_is_empty() {
    let hs: Headers = Default::default();
    assert_eq!(hs.0.len(), 0);
}

#[test]
fn text_round_trips_through_a_part() {
    for text in ["", "x", "abc def", "h\u{e9}llo \u{2603} \u{1f600}"] {
        let part = HeaderPart::from_str(text);
        assert_eq!(part.as_text(), Some(text));
        let owned = HeaderPart::from_string(String::from(text));
        assert_eq!(owned.as_text(), Some(text));
    }
}

#[test]
fn as_text_rejects_bytes_that_are_not_utf8() {
    let part = HeaderPart::from_slice(&[0x61, 0x80]);
    assert_eq!(part.as_text(), None);
    let lone_continuation = HeaderPart::from_vec(vec![0xc3]);
    assert_eq!(lone_continuation.as_text(), None);
}
