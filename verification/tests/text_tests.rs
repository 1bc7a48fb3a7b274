use anime_manga::text::{
    chars_of, contains, decimal_string, lines, pad_to, parse_u32, parse_u64, replace, same_text,
    split, starts_with, trim_end, trim_start,
};

fn v(s: &str) -> Vec<char> {
    s.chars().collect()
}

fn st(c: &[char]) -> String {
    c.iter().collect()
}

#[test]
fn decimal_rendering() {
    assert_eq!(decimal_string(0), "0");
    assert_eq!(decimal_string(7), "7");
    assert_eq!(decimal_string(1234), "1234");
    assert_eq!(decimal_string(u64::MAX), u64::MAX.to_string());
}

#[test]
fn parse_u64_matches_std() {
    let inputs = [
        "", "+", "-", "0", "42", "+7", "-1", "007", "12a", " 1", "1 ", "18446744073709551615",
        "18446744073709551616", "99999999999999999999999", "+0", "++1", "٣",
    ];
    for s in inputs {
        assert_eq!(parse_u64(&v(s)), s.parse::<u64>().ok(), "input {:?}", s);
    }
}

#[test]
fn parse_u32_matches_std() {
    for s in ["4294967295", "4294967296", "720", "+1080", "p720", ""] {
        assert_eq!(parse_u32(&v(s)), s.parse::<u32>().ok(), "input {:?}", s);
    }
}

#[test]
fn decimal_reads_back() {
    for n in [0u64, 9, 10, 99, 100, 65535, 1 << 40, u64::MAX] {
        assert_eq!(parse_u64(&v(&decimal_string(n))), Some(n));
    }
}

#[test]
fn replace_matches_std() {
    let cases = [
        ("a\\u002Fb", "\\u002F", "/"),
        ("aaaa", "aa", "b"),
        ("abc", "x", "y"),
        ("", "a", "b"),
        ("/clock?id=1/clock", "/clock", "/clock.json"),
        ("\\\\x\\", "\\", ""),
    ];
    for (s, from, to) in cases {
        assert_eq!(st(&replace(&v(s), &v(from), &v(to))), s.replace(from, to));
    }
}

#[test]
fn trims_match_std() {
    for s in ["----abc", "--", "-abc", "abc--", ""] {
        assert_eq!(st(&trim_start(&v(s), &v("--"))), s.trim_start_matches("--"));
    }
    for s in ["720p", "720pp", "p", "", "auto"] {
        assert_eq!(st(&trim_end(&v(s), 'p')), s.trim_end_matches('p'));
    }
}

#[test]
fn split_matches_std() {
    for s in ["a,b,,c", "", ",", "RESOLUTION=1280x720", "x=1=2"] {
        for sep in [',', '=', 'x'] {
            let ours: Vec<String> = split(&v(s), sep).iter().map(|p| st(p)).collect();
            let theirs: Vec<String> = s.split(sep).map(|p| p.to_string()).collect();
            assert_eq!(ours, theirs);
        }
    }
}

#[test]
fn lines_match_std() {
    for s in ["", "\n", "a", "a\n", "a\r\nb", "a\r", "a\n\nb\r\n", "\r\n\r\n", "x\ry\n"] {
        let ours: Vec<String> = lines(&v(s)).iter().map(|p| st(p)).collect();
        let theirs: Vec<String> = s.lines().map(|p| p.to_string()).collect();
        assert_eq!(ours, theirs, "input {:?}", s);
    }
}

#[test]
fn prefixes_and_substrings() {
    assert!(starts_with(&v("#EXT-X-STREAM-INF:BW=1"), &v("#EXT-X-STREAM-INF")));
    assert!(!starts_with(&v("#EXT"), &v("#EXT-X")));
    assert!(contains(&v("BANDWIDTH=1,RESOLUTION=1x2"), &v("RESOLUTION=")));
    assert!(!contains(&v("RESOLUTION"), &v("RESOLUTION=")));
    assert!(contains(&v("abc"), &v("")));
}

#[test]
fn text_helpers() {
    assert_eq!(chars_of("héllo"), vec!['h', 'é', 'l', 'l', 'o']);
    assert!(same_text("720p", "720p"));
    assert!(!same_text("720p", "720"));
    assert_eq!(pad_to("ab", 4), format!("{:<4}", "ab"));
    assert_eq!(pad_to("abcdef", 4), "abcdef");
    assert_eq!(pad_to("日本", 5), format!("{:<5}", "日本"));
}
