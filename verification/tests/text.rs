use api_gateway::text::{concat_str, contains, copy_optional, first_segment, i64_to_decimal, join, starts_with, str_eq, strip_prefix, trim, u64_to_decimal};

#[test]
fn string_helpers() {
    assert!(str_eq("abc", "abc"));
    assert!(!str_eq("abc", "abd"));
    assert!(!str_eq("abc", "ab"));
    assert!(starts_with("https://x", "https://"));
    assert!(!starts_with("http", "https://"));
    assert!(contains("a,b,c", ",b,"));
    assert!(contains("abc", ""));
    assert!(!contains("abc", "abcd"));
    assert_eq!(strip_prefix("Bearer t", "Bearer "), Some("t"));
    assert_eq!(strip_prefix("t", "Bearer "), None);
    assert_eq!(trim("\t  héllo wörld \n\u{3000}"), "héllo wörld");
    assert_eq!(trim("   "), "");
    assert_eq!(first_segment("a,b", ','), "a");
    assert_eq!(first_segment("ab", ','), "ab");
    assert_eq!(concat_str("ab", "cd"), "abcd");
    assert_eq!(u64_to_decimal(0), "0");
    assert_eq!(u64_to_decimal(u64::MAX), u64::MAX.to_string());
    assert_eq!(i64_to_decimal(i64::MIN), i64::MIN.to_string());
    assert_eq!(i64_to_decimal(-45), "-45");
    assert_eq!(join(&vec!["a".to_string()], ", "), "a");
    assert_eq!(join(&vec![], ", "), "");
    assert_eq!(join(&vec!["a".to_string(), "b".to_string(), "c".to_string()], "-"), "a-b-c");
}

#[test]
fn test_copy_optional() {
    assert_eq!(copy_optional(&Some("sig".to_string())), Some("sig".to_string()));
    assert_eq!(copy_optional(&None), None);
}
