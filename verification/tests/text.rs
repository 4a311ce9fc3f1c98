use pyembed_downloader::number::{parse_signed, parse_unsigned, render, render_signed};
use pyembed_downloader::text::{
    chars_of, eq_ignore_ascii_case, has_prefix, has_suffix, join, lines, remove, split,
    string_of, trim, whitespace,
};

fn c(s: &str) -> Vec<char> {
    s.chars().collect()
}

fn strings(v: Vec<Vec<char>>) -> Vec<String> {
    v.into_iter().map(|l| l.into_iter().collect()).collect()
}

#[test]
fn chars_round_trip() {
    let s = "安装 pip\r\n";
    assert_eq!(string_of(&chars_of(s)), s);
    assert_eq!(chars_of("ab"), vec!['a', 'b']);
}

#[test]
fn trim_matches_std() {
    for s in ["", " ", "  a b \t\r\n", "\u{3000}x\u{a0}", "x", "\u{200b}x", "\u{85}\u{2028}y\u{205f}"] {
        let got: String = trim(&c(s)).into_iter().collect();
        assert_eq!(got, s.trim(), "{:?}", s);
    }
}

#[test]
fn whitespace_matches_std_on_every_char() {
    let mut code = 0u32;
    while code <= 0x10ffff {
        if let Some(ch) = char::from_u32(code) {
            assert_eq!(whitespace(ch), ch.is_whitespace(), "U+{:04X}", code);
        }
        code += 1;
    }
}

#[test]
fn split_matches_std() {
    for s in ["", "a", "a.b.c", ".", "a..b", "3.8.6.", ".x"] {
        let want: Vec<String> = s.split('.').map(|p| p.to_string()).collect();
        assert_eq!(strings(split(&c(s), '.')), want, "{:?}", s);
    }
}

#[test]
fn lines_match_std() {
    for s in ["", "\n", "a", "a\n", "a\r\n", "a\r", "a\n\n", "a\r\nb\r", "\r\n\r\n", "a\rb\nc", "x\n\r\ny", "\r"] {
        let want: Vec<String> = s.lines().map(|p| p.to_string()).collect();
        assert_eq!(strings(lines(&c(s))), want, "{:?}", s);
    }
}

#[test]
fn join_matches_std() {
    let cases: Vec<Vec<&str>> = vec![vec![], vec![""], vec!["a"], vec!["a", "b"], vec!["", "", "x"]];
    for pieces in cases {
        let input: Vec<Vec<char>> = pieces.iter().map(|p| c(p)).collect();
        let got: String = join(&input, '\n').into_iter().collect();
        assert_eq!(got, pieces.join("\n"));
    }
}

#[test]
fn remove_takes_out_every_dot() {
    let got: String = remove(&c("3.10.11"), '.').into_iter().collect();
    assert_eq!(got, "31011");
    assert_eq!(remove(&c("..."), '.'), Vec::<char>::new());
}

#[test]
fn prefix_and_suffix() {
    assert!(has_prefix(&c("pip 20.1"), &c("pip ")));
    assert!(!has_prefix(&c("pipenv 1"), &c("pip ")));
    assert!(!has_prefix(&c("pi"), &c("pip ")));
    assert!(has_suffix(&c("six-1.0.dist-info"), &c(".dist-info")));
    assert!(!has_suffix(&c("six-1.0.dist-info "), &c(".dist-info")));
    assert!(has_suffix(&c("x"), &c("")));
}

#[test]
fn case_is_ignored_for_ascii_letters_only() {
    assert!(eq_ignore_ascii_case(&c("5AE191973e00"), &c("5ae191973E00")));
    assert!(!eq_ignore_ascii_case(&c("abc"), &c("abd")));
    assert!(!eq_ignore_ascii_case(&c("abc"), &c("abcd")));
    assert!(!eq_ignore_ascii_case(&c("@"), &c("`")));
    assert!(!eq_ignore_ascii_case(&c("[") , &c("{")));
    assert!(!eq_ignore_ascii_case(&c("É"), &c("é")));
    for (a, b) in [("Z", "z"), ("A", "a"), ("", "")] {
        assert_eq!(eq_ignore_ascii_case(&c(a), &c(b)), a.eq_ignore_ascii_case(b));
    }
}

#[test]
fn numbers_are_rendered_as_std_does() {
    for n in [0u64, 7, 10, 99, 100, 255, 65535, u64::MAX] {
        let got: String = render(n).into_iter().collect();
        assert_eq!(got, n.to_string());
    }
    for n in [0i64, -1, 1, -10, 2147483647, i64::MIN, i64::MAX] {
        let got: String = render_signed(n).into_iter().collect();
        assert_eq!(got, n.to_string());
    }
}

#[test]
fn unsigned_numbers_are_read_as_std_does() {
    for s in ["", "0", "7", "+7", "-7", "-0", "255", "256", "0255", "000000000000000000000001", "1a", " 1", "1 ", "+", "++1", "٣"] {
        let want = s.parse::<u8>().ok().map(|v| v as u64);
        assert_eq!(parse_unsigned(&c(s), 255), want, "{:?}", s);
    }
}

#[test]
fn signed_numbers_are_read_as_std_does() {
    for s in ["", "0", "-0", "+0", "-", "+", "12345", "-12345", "9223372036854775807", "9223372036854775808",
        "-9223372036854775808", "-9223372036854775809", "99999999999999999999999", "1_000", "0x10", "-+1"] {
        assert_eq!(parse_signed(&c(s)), s.parse::<i64>().ok(), "{:?}", s);
    }
}
