use jsonrpc_dispatch::json::Json;
use jsonrpc_dispatch::text::same_text;

fn text(s: &str) -> Json {
    Json::Text(s.to_string())
}

#[test]
fn parse_reads_scalars() {
    assert_eq!(Json::parse(b"null"), Some(Json::Null));
    assert_eq!(Json::parse(b"true"), Some(Json::Bool(true)));
    assert_eq!(Json::parse(b"false"), Some(Json::Bool(false)));
    assert_eq!(Json::parse(b"0"), Some(Json::Number(Some(0))));
    assert_eq!(Json::parse(b"-12"), Some(Json::Number(Some(-12))));
    assert_eq!(Json::parse(br#""a b""#), Some(text("a b")));
    assert_eq!(Json::parse(br#""""#), Some(text("")));
}

#[test]
fn parse_reads_integers_up_to_the_range_of_i64() {
    assert_eq!(Json::parse(b"9223372036854775807"), Some(Json::Number(Some(i64::MAX))));
    assert_eq!(Json::parse(b"-9223372036854775808"), Some(Json::Number(Some(i64::MIN))));
    assert_eq!(Json::parse(b"9223372036854775808"), Some(Json::Number(None)));
    assert_eq!(Json::parse(b"18446744073709551615"), Some(Json::Number(None)));
    assert_eq!(Json::parse(b"-9223372036854775809"), Some(Json::Number(None)));
}

#[test]
fn parse_gives_no_integer_for_other_numbers() {
    assert_eq!(Json::parse(b"1.5"), Some(Json::Number(None)));
    assert_eq!(Json::parse(b"2.0"), Some(Json::Number(None)));
    assert_eq!(Json::parse(b"1e3"), Some(Json::Number(None)));
    assert_eq!(Json::parse(b"-0"), Some(Json::Number(None)));
}

#[test]
fn parse_reads_arrays_and_objects() {
    assert_eq!(Json::parse(b"[]"), Some(Json::Array(vec![])));
    assert_eq!(Json::parse(b"{}"), Some(Json::Object(vec![])));
    let got = Json::parse(br#"[1, [2, "x"], {"k": null}]"#);
    let expected = Json::Array(vec![
        Json::Number(Some(1)),
        Json::Array(vec![Json::Number(Some(2)), text("x")]),
        Json::Object(vec![("k".to_string(), Json::Null)]),
    ]);
    assert_eq!(got, Some(expected));
}

#[test]
fn parse_hands_members_out_by_key() {
    let got = Json::parse(br#"{"b": 1, "a": 2, "c": 3}"#);
    let expected = Json::Object(vec![
        ("a".to_string(), Json::Number(Some(2))),
        ("b".to_string(), Json::Number(Some(1))),
        ("c".to_string(), Json::Number(Some(3))),
    ]);
    assert_eq!(got, Some(expected));
}

#[test]
fn parse_keeps_the_last_of_two_members_with_one_key() {
    let got = Json::parse(br#"{"a": 1, "a": 2}"#);
    assert_eq!(got, Some(Json::Object(vec![("a".to_string(), Json::Number(Some(2)))])));
}

#[test]
fn parse_rejects_what_is_not_json() {
    assert_eq!(Json::parse(b""), None);
    assert_eq!(Json::parse(b"   "), None);
    assert_eq!(Json::parse(b"not json"), None);
    assert_eq!(Json::parse(b"{"), None);
    assert_eq!(Json::parse(b"[1,]"), None);
    assert_eq!(Json::parse(b"{'a': 1}"), None);
    assert_eq!(Json::parse(b"1 2"), None);
    assert_eq!(Json::parse(b"01"), None);
    assert_eq!(Json::parse(&[b'"', 0xff, b'"']), None);
}

#[test]
fn parse_allows_whitespace_around_the_value() {
    assert_eq!(Json::parse(b" \t\r\n[ 1 ,\n2 ] \n"), Some(Json::Array(vec![
        Json::Number(Some(1)),
        Json::Number(Some(2)),
    ])));
}

#[test]
fn parse_rejects_nesting_beyond_the_limit() {
    let deep = "[".repeat(200) + &"]".repeat(200);
    assert_eq!(Json::parse(deep.as_bytes()), None);
    let shallow = "[".repeat(100) + &"]".repeat(100);
    assert!(Json::parse(shallow.as_bytes()).is_some());
}

#[test]
fn member_finds_the_first_with_the_key() {
    let object = Json::Object(vec![
        ("a".to_string(), Json::Number(Some(1))),
        ("b".to_string(), Json::Bool(true)),
        ("a".to_string(), Json::Null),
    ]);
    assert_eq!(object.member("a"), Some(&Json::Number(Some(1))));
    assert_eq!(object.member("b"), Some(&Json::Bool(true)));
    assert_eq!(object.member("c"), None);
    assert_eq!(object.member(""), None);
}

#[test]
fn member_of_what_is_no_object() {
    assert_eq!(Json::Null.member("a"), None);
    assert_eq!(Json::Array(vec![text("a")]).member("a"), None);
    assert_eq!(text("a").member("a"), None);
}

#[test]
fn same_text_compares_characters() {
    assert!(same_text("", ""));
    assert!(same_text("sum", "sum"));
    assert!(!same_text("sum", "sun"));
    assert!(!same_text("sum", "su"));
    assert!(!same_text("su", "sum"));
    assert!(!same_text("sum", "Sum"));
    assert!(same_text("gr\u{fc}n", "gr\u{fc}n"));
    assert!(!same_text("gr\u{fc}n", "grun"));
}
