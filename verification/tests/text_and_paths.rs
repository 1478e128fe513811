use ferrite::paths::{extension, file_name, file_stem};
use ferrite::text::{i64_decimal, parse_i64, parse_u64, replace_chars, trimmed, u64_decimal};
use std::path::Path;

fn chars(s: &str) -> Vec<char> {
    s.chars().collect()
}

fn text(v: &[char]) -> String {
    v.iter().collect()
}

const NUMBERS: &[&str] = &[
    "", "0", "7", "42", "+42", "-42", "+", "-", "007", "18446744073709551615",
    "18446744073709551616", "9223372036854775807", "9223372036854775808",
    "-9223372036854775808", "-9223372036854775809", "12a", " 1", "1 ", "+-1", "-+1", "--1",
    "99999999999999999999999", "٣",
];

#[test]
fn parse_u64_agrees_with_std() {
    for s in NUMBERS {
        assert_eq!(parse_u64(&chars(s)), s.parse::<u64>().ok(), "input {:?}", s);
    }
}

#[test]
fn parse_i64_agrees_with_std() {
    for s in NUMBERS {
        assert_eq!(parse_i64(&chars(s)), s.parse::<i64>().ok(), "input {:?}", s);
    }
}

#[test]
fn decimal_forms_agree_with_display() {
    for n in [0u64, 1, 9, 10, 99, 100, 512000, u64::MAX] {
        assert_eq!(text(&u64_decimal(n)), n.to_string());
    }
    for n in [0i64, -1, 5, -1725029869, i64::MIN, i64::MAX] {
        assert_eq!(text(&i64_decimal(n)), n.to_string());
    }
}

#[test]
fn decimal_roundtrip_on_values() {
    for n in [0u64, 3, 1000, 512000, u64::MAX] {
        assert_eq!(parse_u64(&u64_decimal(n)), Some(n));
    }
    for n in [i64::MIN, -1, 0, 1725029869, i64::MAX] {
        assert_eq!(parse_i64(&i64_decimal(n)), Some(n));
    }
}

#[test]
fn trim_agrees_with_std() {
    for s in ["", "  ", " a ", "\t\nhttps://x\r\n", "\u{3000}x\u{a0}", "x", "a b", "\u{200b}x"] {
        assert_eq!(text(&trimmed(&chars(s))), s.trim(), "input {:?}", s);
    }
}

#[test]
fn replace_agrees_with_std() {
    let cases = [
        ("<p>{{SITE_KEY}}</p>", "{{SITE_KEY}}", "abc"),
        ("{{SITE_KEY}}{{SITE_KEY}}", "{{SITE_KEY}}", "k"),
        ("no marks here", "{{SITE_KEY}}", "k"),
        ("aaa", "aa", "b"),
        ("{{SITE_KEY", "{{SITE_KEY}}", "k"),
    ];
    for (s, from, to) in cases {
        assert_eq!(text(&replace_chars(&chars(s), &chars(from), &chars(to))), s.replace(from, to));
    }
}

const PATHS: &[&str] = &[
    "", "/", ".", "..", "a", "a.mp3", "dir/a.mp3", "dir/a.mp3/", "dir/a.mp3/.", "dir/..",
    "./a.tar.gz", ".hidden", ".hidden.mp3", "..mp3", "a.", "/music/Song.FLAC", "a//b.ogg",
    "//", "./", "dir/.", "x/./y.wav", "no_ext/", "Music/track.info.json",
];

#[test]
fn file_name_agrees_with_std() {
    for p in PATHS {
        let expected = Path::new(p).file_name().map(|s| s.to_str().unwrap().to_string());
        assert_eq!(file_name(&chars(p)).map(|v| text(&v)), expected, "path {:?}", p);
    }
}

#[test]
fn extension_agrees_with_std() {
    for p in PATHS {
        let expected = Path::new(p).extension().map(|s| s.to_str().unwrap().to_string());
        assert_eq!(extension(&chars(p)).map(|v| text(&v)), expected, "path {:?}", p);
    }
}

#[test]
fn file_stem_agrees_with_std() {
    for p in PATHS {
        let expected = Path::new(p).file_stem().map(|s| s.to_str().unwrap().to_string());
        assert_eq!(file_stem(&chars(p)).map(|v| text(&v)), expected, "path {:?}", p);
    }
}
