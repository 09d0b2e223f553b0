use smartclock::bytes::{bytes_eq, find_sub, split_on, starts_with, trim_class};
use smartclock::request::ResponseData;

#[test]
fn find_sub_reports_the_first_occurrence() {
    assert_eq!(find_sub(b"abcabc", b"bc", 0), Some(1));
    assert_eq!(find_sub(b"abcabc", b"bc", 2), Some(4));
    assert_eq!(find_sub(b"abcabc", b"xy", 0), None);
    assert_eq!(find_sub(b"ab", b"abc", 0), None);
}

#[test]
fn trim_class_strips_both_ends() {
    assert_eq!(trim_class(b"  \r\n hi \t", 0), b"hi".to_vec());
    assert_eq!(trim_class(b"--value--", b'-'), b"value".to_vec());
    assert_eq!(trim_class(b"\"ssid\"", b'"'), b"ssid".to_vec());
    assert_eq!(trim_class(b"   ", 0), Vec::<u8>::new());
}

#[test]
fn split_on_cuts_every_separator() {
    let parts = split_on(b"a;;b;c", b";");
    let views: Vec<&[u8]> = parts.iter().map(|p| p.as_slice()).collect();
    assert_eq!(views, vec![&b"a"[..], &b""[..], &b"b"[..], &b"c"[..]]);
    let whole = split_on(b"abc", b";");
    assert_eq!(whole.len(), 1);
    assert_eq!(whole[0], b"abc".to_vec());
}

#[test]
fn prefix_and_equality_checks() {
    assert!(starts_with(b"multipart/form-data; x", b"multipart/form-data"));
    assert!(!starts_with(b"multi", b"multipart"));
    assert!(bytes_eq(b"same", b"same"));
    assert!(!bytes_eq(b"same", b"sam"));
}

#[test]
fn response_data_hands_out_its_used_prefix() {
    let mut data = [0u8; 4096];
    data[..5].copy_from_slice(b"hello");
    let resp = ResponseData { data, length: 5 };
    assert_eq!(resp.body_bytes(), b"hello".to_vec());
    let empty = ResponseData {
        data: [0u8; 4096],
        length: 0,
    };
    assert!(empty.body_bytes().is_empty());
}
