use tcbee::backend::IntermediateBackend;
use tcbee::names::{
    ascii_lower, best_match_series_id, debug_list, eq_ignore_ascii_case, is_ascii_alnum,
    normalize_series_name, vertical_marker_label,
};
use tcbee::text::{
    chars_of, contains, i64_to_decimal, is_whitespace, split, split_once, split_whitespace,
    string_from_chars, to_lowercase, trim, u64_to_decimal,
};

fn cs(s: &str) -> Vec<char> {
    s.chars().collect()
}

fn st(v: &[char]) -> String {
    v.iter().collect()
}

#[test]
fn chars_round_trip() {
    assert_eq!(chars_of("héllo"), cs("héllo"));
    assert_eq!(string_from_chars(&cs("héllo")), "héllo");
    assert_eq!(string_from_chars(&[]), "");
}

#[test]
fn lowercase_uses_unicode_mapping() {
    assert_eq!(to_lowercase("SND_UNA"), "snd_una");
    assert_eq!(to_lowercase("ÄÖÜ"), "äöü");
    assert_ne!(to_lowercase("ABC"), "ABC");
}

#[test]
fn whitespace_and_trim() {
    assert!(is_whitespace(' '));
    assert!(is_whitespace('\t'));
    assert!(is_whitespace('\u{3000}'));
    assert!(!is_whitespace('a'));
    assert_eq!(st(&trim(&cs("  a b \n"))), "a b");
    assert_eq!(st(&trim(&cs("   "))), "");
    assert_eq!(st(&trim(&cs(""))), "");
}

#[test]
fn split_keeps_empty_fields() {
    let parts: Vec<String> = split(&cs("a,,b,"), ',').iter().map(|p| st(p)).collect();
    assert_eq!(parts, vec!["a", "", "b", ""]);
    let one: Vec<String> = split(&cs(""), ',').iter().map(|p| st(p)).collect();
    assert_eq!(one, vec![""]);
}

#[test]
fn split_whitespace_drops_runs() {
    let words: Vec<String> =
        split_whitespace(&cs("  src:1.2  dport:80\t x ")).iter().map(|p| st(p)).collect();
    assert_eq!(words, vec!["src:1.2", "dport:80", "x"]);
    assert!(split_whitespace(&cs("   ")).is_empty());
}

#[test]
fn split_once_at_first_separator() {
    let (a, b) = split_once(&cs("src:10.0.0.1:80"), ':').unwrap();
    assert_eq!(st(&a), "src");
    assert_eq!(st(&b), "10.0.0.1:80");
    assert!(split_once(&cs("plain"), ':').is_none());
}

#[test]
fn contains_substring() {
    assert!(contains(&cs("192.168.0.1"), &cs("168")));
    assert!(contains(&cs("abc"), &cs("")));
    assert!(!contains(&cs("abc"), &cs("abcd")));
    assert!(!contains(&cs("abc"), &cs("ac")));
}

#[test]
fn decimal_formatting() {
    assert_eq!(st(&u64_to_decimal(0)), "0");
    assert_eq!(st(&u64_to_decimal(1234567890)), "1234567890");
    assert_eq!(st(&u64_to_decimal(u64::MAX)), u64::MAX.to_string());
    assert_eq!(st(&i64_to_decimal(-42)), "-42");
    assert_eq!(st(&i64_to_decimal(i64::MIN)), i64::MIN.to_string());
}

#[test]
fn ascii_helpers() {
    assert!(is_ascii_alnum('Z'));
    assert!(is_ascii_alnum('7'));
    assert!(!is_ascii_alnum('_'));
    assert!(!is_ascii_alnum('é'));
    assert_eq!(ascii_lower('Q'), 'q');
    assert_eq!(ascii_lower('q'), 'q');
    assert_eq!(ascii_lower('É'), 'É');
    assert!(eq_ignore_ascii_case(&cs("Snd_Una"), &cs("SND_UNA")));
    assert!(!eq_ignore_ascii_case(&cs("snd"), &cs("snd_")));
}

#[test]
fn normalize_names() {
    assert_eq!(normalize_series_name("SND_UNA"), "snduna");
    assert_eq!(normalize_series_name("snd-una"), "snduna");
    assert_eq!(normalize_series_name("snd una"), "snduna");
    assert_eq!(normalize_series_name("__"), "");
}

#[test]
fn normalize_twice_is_normalize_once() {
    for name in ["SND_UNA", "Tcp-Flags 2", "ÄBc", ""] {
        let once = normalize_series_name(name);
        assert_eq!(normalize_series_name(&once), once);
    }
}

#[test]
fn best_match_prefers_exact_then_case_then_normalized() {
    let available = vec![
        ("snd-una".to_string(), 1),
        ("SND_UNA".to_string(), 2),
        ("snd_una".to_string(), 3),
    ];
    assert_eq!(best_match_series_id("snd_una", &available), Some(3));
    assert_eq!(best_match_series_id("Snd_Una", &available), Some(2));
    assert_eq!(best_match_series_id("SND UNA", &available), Some(1));
    assert_eq!(best_match_series_id("cwnd", &available), None);
    assert_eq!(best_match_series_id("x", &[]), None);
}

#[test]
fn vertical_marker_reverses_characters() {
    assert_eq!(vertical_marker_label("abc"), "c\nb\na");
    assert_eq!(vertical_marker_label("x"), "x");
    assert_eq!(vertical_marker_label(""), "");
}

#[test]
fn filter_series_by_name() {
    let available = vec![
        ("cwnd".to_string(), 4),
        ("snd_una".to_string(), 5),
        ("rtt".to_string(), 6),
    ];
    let names = vec!["rtt".to_string(), "cwnd".to_string()];
    assert_eq!(IntermediateBackend::filter_timeseries_on_name(&available, &names), Some(vec![4, 6]));
    assert_eq!(IntermediateBackend::filter_timeseries_on_name(&available, &[]), Some(vec![]));
    // One id per requested name, or failure.
    let missing = vec!["rtt".to_string(), "srtt".to_string()];
    assert_eq!(IntermediateBackend::filter_timeseries_on_name(&available, &missing), None);
    let twice = vec![("cwnd".to_string(), 4), ("cwnd".to_string(), 7)];
    assert_eq!(
        IntermediateBackend::filter_timeseries_on_name(&twice, &["cwnd".to_string()]),
        None
    );
}

#[test]
fn debug_list_matches_vec_debug() {
    assert_eq!(st(&debug_list(&[1, -2, 30])), format!("{:?}", vec![1, -2, 30]));
    assert_eq!(st(&debug_list(&[])), "[]");
}
