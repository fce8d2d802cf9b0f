use crabdrive_server::shard::{push_hyphenated, push_index, shard_path, shard_path_with_index};
use crabdrive_server::text::signed_decimal_string;

fn id(text: &str) -> u128 {
    uuid::Uuid::parse_str(text).expect("Failed to parse UUID!").as_u128()
}

#[test]
fn test_shard_path() {
    let cases = [
        ("4de6ed4b-01af-4f0f-a76a-39d62258a3c0", "4d/e6/ed/4b01af4f0fa76a39d62258a3c0"),
        ("4b037ba3-8309-4bfd-9c54-e8d4c66bb260", "4b/03/7b/a383094bfd9c54e8d4c66bb260"),
        ("b2af44f2-9814-4b03-a45e-24d3dd5e7e01", "b2/af/44/f298144b03a45e24d3dd5e7e01"),
        ("58d0de47-8ea5-4d05-b742-0d3c30a6503e", "58/d0/de/478ea54d05b7420d3c30a6503e"),
        ("9f54e7c1-b61c-4322-8fd1-09848f22d59a", "9f/54/e7/c1b61c43228fd109848f22d59a"),
        ("45422a90-75d5-400e-ab8d-8991329492b4", "45/42/2a/9075d5400eab8d8991329492b4"),
        ("3355cce4-0b31-4a4c-a1bd-f88b67bf4b2f", "33/55/cc/e40b314a4ca1bdf88b67bf4b2f"),
    ];
    for (uuid, expected) in cases {
        let result = shard_path(id(uuid), "/test/");
        assert_eq!(result, "/test/".to_string() + expected);
    }
}

#[test]
fn shard_path_separators() {
    let nil = 0u128;
    assert_eq!(shard_path(nil, "/base"), "/base/00/00/00/00000000000000000000000000");
    assert_eq!(shard_path(nil, ""), "00/00/00/00000000000000000000000000");
    assert_eq!(shard_path(u128::MAX, "a/"), "a/ff/ff/ff/ffffffffffffffffffffffffff");
}

#[test]
fn chunk_paths() {
    let mut path = "/stage/4d".to_string();
    push_index(&mut path, 5);
    assert_eq!(path, "/stage/4d/5.dat");
    let mut path = "/stage/".to_string();
    push_index(&mut path, -12);
    assert_eq!(path, "/stage/-12.dat");
    let path = shard_path_with_index(id("4de6ed4b-01af-4f0f-a76a-39d62258a3c0"), "/p", 17);
    assert_eq!(path, "/p/4d/e6/ed/4b01af4f0fa76a39d62258a3c0/17.dat");
}

#[test]
fn decimal_rendering() {
    assert_eq!(signed_decimal_string(0), "0");
    assert_eq!(signed_decimal_string(42), "42");
    assert_eq!(signed_decimal_string(-7), "-7");
    assert_eq!(signed_decimal_string(i64::MAX), i64::MAX.to_string());
    assert_eq!(signed_decimal_string(i64::MIN), i64::MIN.to_string());
}

#[test]
fn hyphenated_ids() {
    let text = "4de6ed4b-01af-4f0f-a76a-39d62258a3c0";
    let mut out = String::from("/");
    push_hyphenated(&mut out, id(text));
    assert_eq!(out, format!("/{}", text));
    assert_eq!(out, format!("/{}", uuid::Uuid::from_u128(id(text))));
}
