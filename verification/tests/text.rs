use azure_sdk_for_rust::datetime::{UtcDateTime, MAX_TIMESTAMP, MIN_TIMESTAMP};
use azure_sdk_for_rust::ids::Uuid;
use azure_sdk_for_rust::metadata::Metadata;
use azure_sdk_for_rust::sas::{SasToken, MAX_INPUT_BYTES};
use azure_sdk_for_rust::text::{
    parse_u64, str_equal, strip_prefix, u64_to_string, visible_ascii_string,
};

#[test]
fn decimal_numerals() {
    assert_eq!(u64_to_string(0), "0");
    assert_eq!(u64_to_string(7), "7");
    assert_eq!(u64_to_string(10), "10");
    assert_eq!(u64_to_string(1_000_000), "1000000");
    assert_eq!(u64_to_string(u64::MAX), "18446744073709551615");
}

#[test]
fn unsigned_integers_are_parsed_as_std_does() {
    for text in [
        "0", "7", "007", "+5", "+", "", "-1", "12a", " 12", "12 ", "++1", "18446744073709551615",
        "18446744073709551616", "99999999999999999999", "1844674407370955161x",
    ] {
        assert_eq!(parse_u64(text.as_bytes()), text.parse::<u64>().ok(), "{:?}", text);
    }
    assert_eq!(parse_u64(b"18446744073709551615"), Some(u64::MAX));
    assert_eq!(parse_u64(b"18446744073709551616"), None);
    assert_eq!(parse_u64(b"+42"), Some(42));
}

#[test]
fn header_text_is_visible_ascii() {
    assert_eq!(visible_ascii_string(b"plain text\t!"), Some("plain text\t!".to_string()));
    assert_eq!(visible_ascii_string(b""), Some(String::new()));
    assert_eq!(visible_ascii_string(b"~"), Some("~".to_string()));
    assert_eq!(visible_ascii_string(&[0x7f]), None);
    assert_eq!(visible_ascii_string(&[0x1f]), None);
    assert_eq!(visible_ascii_string(b"a\nb"), None);
    assert_eq!(visible_ascii_string("é".as_bytes()), None);
}

#[test]
fn string_slices_compare_by_their_characters() {
    assert!(str_equal("", ""));
    assert!(str_equal("héllo", "héllo"));
    assert!(!str_equal("hello", "hellp"));
    assert!(!str_equal("hello", "hell"));
}

#[test]
fn prefixes_are_taken_by_characters() {
    assert_eq!(strip_prefix("x-ms-meta-key", "x-ms-meta-"), Some("key"));
    assert_eq!(strip_prefix("x-ms-meta-", "x-ms-meta-"), Some(""));
    assert_eq!(strip_prefix("x-ms-meta", "x-ms-meta-"), None);
    assert_eq!(strip_prefix("y-ms-meta-key", "x-ms-meta-"), None);
    assert_eq!(strip_prefix("éà-rest", "éà-"), Some("rest"));
    assert_eq!(strip_prefix("anything", ""), Some("anything"));
}

#[test]
fn metadata_keeps_one_value_for_each_key() {
    let mut metadata = Metadata::new();
    assert!(metadata.is_empty());
    assert_eq!(metadata.get("a"), None);
    metadata.insert("a", "1");
    metadata.insert("b", "2");
    metadata.insert("a", "3");
    assert_eq!(metadata.len(), 2);
    assert!(!metadata.is_empty());
    assert_eq!(metadata.get("a"), Some("3"));
    assert_eq!(metadata.get("b"), Some("2"));
    assert_eq!(metadata.key_at(0), "a");
    assert_eq!(metadata.value_at(0), "3");
    assert_eq!(metadata.key_at(1), "b");
    assert_eq!(metadata.value_at(1), "2");
    assert_eq!(metadata.clone(), metadata);
}

#[test]
fn instants_are_written_in_rfc3339() {
    let t = UtcDateTime::from_timestamp(1_546_300_800, 500_000_000).unwrap();
    assert_eq!(t.timestamp(), 1_546_300_800);
    assert_eq!(t.timestamp_subsec_nanos(), 500_000_000);
    assert_eq!(t.to_rfc3339(), "2019-01-01T00:00:00.500+00:00");
    assert_eq!(UtcDateTime::from_timestamp(0, 0).unwrap().to_rfc3339(), "1970-01-01T00:00:00+00:00");
}

#[test]
fn instants_out_of_range_are_refused() {
    assert_eq!(UtcDateTime::from_timestamp(i64::MAX, 0), None);
    assert_eq!(UtcDateTime::from_timestamp(i64::MIN, 0), None);
    assert_eq!(UtcDateTime::from_timestamp(0, 2_000_000_000), None);
    assert_eq!(UtcDateTime::from_timestamp(MAX_TIMESTAMP + 1, 0), None);
    assert_eq!(UtcDateTime::from_timestamp(MIN_TIMESTAMP - 1, 0), None);
}

#[test]
fn first_and_last_instant() {
    let first = UtcDateTime::from_timestamp(MIN_TIMESTAMP, 0).unwrap();
    assert_eq!(first.to_rfc3339(), "-262143-01-01T00:00:00+00:00");
    let last = UtcDateTime::from_timestamp(MAX_TIMESTAMP, 1_999_999_999).unwrap();
    assert_eq!(last.to_rfc3339(), "+262142-12-31T23:59:60.999999999+00:00");
}

#[test]
fn leap_seconds_stand_in_the_last_second_of_a_minute() {
    assert!(UtcDateTime::from_timestamp(59, 1_000_000_000).is_some());
    assert_eq!(UtcDateTime::from_timestamp(58, 1_000_000_000), None);
    assert_eq!(UtcDateTime::from_timestamp(60, 1_000_000_000), None);
    assert!(UtcDateTime::from_timestamp(-1, 1_500_000_000).is_some());
    assert_eq!(UtcDateTime::from_timestamp(-2, 1_500_000_000), None);
    assert_eq!(
        UtcDateTime::from_timestamp(59, 1_250_000_000).unwrap().to_rfc3339(),
        "1970-01-01T00:00:60.250+00:00"
    );
}

#[test]
fn instants_exist_exactly_where_chrono_has_them() {
    let seconds = [
        i64::MIN, MIN_TIMESTAMP - 86_400, MIN_TIMESTAMP - 1, MIN_TIMESTAMP, MIN_TIMESTAMP + 59,
        -86_401, -61, -60, -2, -1, 0, 1, 58, 59, 60, 119, 86_399, 86_400, 1_546_300_800,
        MAX_TIMESTAMP - 60, MAX_TIMESTAMP - 1, MAX_TIMESTAMP, MAX_TIMESTAMP + 1,
        MAX_TIMESTAMP + 86_400, i64::MAX,
    ];
    let nanos = [
        0, 1, 999_999_999, 1_000_000_000, 1_000_000_001, 1_999_999_999, 2_000_000_000, u32::MAX,
    ];
    for s in seconds {
        for n in nanos {
            let ours = UtcDateTime::from_timestamp(s, n);
            let theirs = chrono::DateTime::from_timestamp(s, n);
            assert_eq!(ours.is_some(), theirs.is_some(), "{} {}", s, n);
            if let (Some(ours), Some(theirs)) = (ours, theirs) {
                let text = ours.to_rfc3339();
                assert_eq!(text, theirs.to_rfc3339());
                assert!(text.chars().all(|c| c.is_ascii_digit() || "-:T.+".contains(c)));
            }
        }
    }
}

#[test]
fn instants_are_read_from_rfc2822() {
    let t = UtcDateTime::parse_from_rfc2822("Wed, 18 Feb 2015 23:16:09 GMT").unwrap();
    assert_eq!(t.timestamp(), 1_424_301_369);
    assert_eq!(UtcDateTime::parse_from_rfc2822("2015-02-18T23:16:09Z"), None);
}

#[test]
fn identifiers_are_read_and_written() {
    let id = Uuid::parse_str("936DA01F-9ABD-4D9D-80C7-02AF85C822A8").unwrap();
    assert_eq!(id.as_u128(), 0x936da01f_9abd_4d9d_80c7_02af85c822a8);
    assert_eq!(id.to_string(), "936da01f-9abd-4d9d-80c7-02af85c822a8");
    assert_eq!(Uuid::from_u128(id.as_u128()), id);
    assert_eq!(Uuid::parse_str("936da01f9abd4d9d80c702af85c822a8"), Some(id));
    assert_eq!(Uuid::parse_str("936da01f"), None);
    assert_eq!(Uuid::from_u128(0).to_string(), "00000000-0000-0000-0000-000000000000");
    assert_eq!(Uuid::from_u128(u128::MAX).to_string(), "ffffffff-ffff-ffff-ffff-ffffffffffff");
    assert_eq!(
        Uuid::from_u128(0x0123456789abcdef_fedcba9876543210).to_string(),
        "01234567-89ab-cdef-fedc-ba9876543210"
    );
}

#[test]
fn sas_token_is_added_to_the_query() {
    let token = SasToken::new(vec![
        ("lang".to_string(), "rust".to_string()),
        ("browser".to_string(), "servo".to_string()),
    ]);
    assert_eq!(
        token.add_to_uri("https://example.net?dont=clobberme"),
        "https://example.net/?dont=clobberme&lang=rust&browser=servo"
    );
    assert_eq!(
        token.try_add_to_uri("https://example.net?dont=clobberme"),
        Some("https://example.net/?dont=clobberme&lang=rust&browser=servo".to_string())
    );
    assert_eq!(token.try_add_to_uri("not a url"), None);
}

#[test]
fn sas_token_without_parameters() {
    let token = SasToken::new(Vec::new());
    assert_eq!(token.try_add_to_uri("https://example.net/a"), Some("https://example.net/a?".to_string()));
}

#[test]
fn sas_token_counts_the_bytes_of_its_input() {
    let token = SasToken::new(vec![("k\u{e9}".to_string(), "v".to_string())]);
    // The pair takes 3 + 1 + 2 bytes.
    let uri = "u".repeat(MAX_INPUT_BYTES - 6);
    assert!(token.fits(&uri));
    let longer = "u".repeat(MAX_INPUT_BYTES - 5);
    assert!(!token.fits(&longer));
    assert!(SasToken::new(Vec::new()).fits(&"u".repeat(MAX_INPUT_BYTES)));
    assert!(!SasToken::new(Vec::new()).fits(&"u".repeat(MAX_INPUT_BYTES + 1)));
}

#[test]
fn sas_token_beyond_the_limit_is_not_added() {
    let value = "v".repeat(MAX_INPUT_BYTES);
    let token = SasToken::new(vec![("k".to_string(), value)]);
    assert!(!token.fits("https://example.net/#fragment"));
    assert_eq!(token.try_add_to_uri("https://example.net/#fragment"), None);
}

#[test]
fn sas_token_at_the_limit_is_added() {
    let uri = "https://example.net/a#fragment";
    let value = "v".repeat(MAX_INPUT_BYTES - uri.len() - 3);
    let token = SasToken::new(vec![("k".to_string(), value.clone())]);
    assert!(token.fits(uri));
    assert_eq!(
        token.try_add_to_uri(uri),
        Some(format!("https://example.net/a?k={}#fragment", value))
    );
}
