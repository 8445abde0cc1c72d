use make_quote::quotes::quote_origins;
use make_quote::text::{Line, LineWrap, Lines};
use make_quote::ErrorKind;

/// Widths of a made-up face: `a` to `e` are 10 pixels wide, every other
/// character 5; every line is 12 pixels tall.
fn advance(c: char) -> i32 {
    if ('a'..='e').contains(&c) {
        10
    } else {
        5
    }
}

fn extent(chars: &[char]) -> (i32, i32) {
    if chars.is_empty() {
        (0, 0)
    } else {
        (chars.iter().map(|&c| advance(c)).sum(), 12)
    }
}

fn wrap(text: &str, limit: i32) -> Result<Lines, ErrorKind> {
    let chars: Vec<char> = text.chars().collect();
    let mut pass = LineWrap::new(text, limit)?;
    while !pass.is_done() {
        let (start, pos) = pass.pending();
        pass.step(extent(&chars[start..pos + 1]), extent(&chars[pos..pos + 1]));
    }
    pass.finish()
}

fn texts(lines: &Lines) -> Vec<String> {
    lines.lines().iter().map(|l: &Line| l.text.clone()).collect()
}

fn rejoin(lines: &Lines) -> String {
    let mut out = String::new();
    for l in lines.lines() {
        out.push_str(&l.text);
        if l.hard_break {
            out.push('\n');
        }
    }
    out
}

#[test]
fn wrap_abcdefghij_into_two_lines() {
    // four of the wide characters stay under 45, five reach it
    let lines = wrap("abcdefghij", 45).unwrap();
    assert_eq!(texts(&lines), vec!["abcd".to_string(), "efghij".to_string()]);
    let data = lines.lines();
    assert_eq!(data[0].width, 40);
    assert!(data[0].width < 45);
    assert_eq!(data[1].width, 35);
    assert_eq!(data[0].first_char_width, 10);
    assert_eq!(data[1].first_char_width, 10);
}

#[test]
fn wrap_rejoins_text_with_breaks() {
    for text in ["ab\ncd efg\n", "\n\nx", "abcdefghijklmnop", "a\n\nb", ""] {
        let lines = wrap(text, 23).unwrap();
        assert_eq!(rejoin(&lines), text);
    }
}

#[test]
fn wrap_breaks_on_newline_and_consumes_it() {
    let lines = wrap("ab\ncd", 1000).unwrap();
    assert_eq!(texts(&lines), vec!["ab".to_string(), "cd".to_string()]);
    assert!(lines.lines()[0].hard_break);
    assert!(!lines.lines()[1].hard_break);
}

#[test]
fn wrap_keeps_lines_within_limit() {
    let lines = wrap("the quick brown fox jumps over the lazy dog", 37).unwrap();
    assert!(lines.lines().len() > 1);
    for l in lines.lines() {
        assert!(l.text.chars().count() == 1 || l.width < 37, "{:?}", l.text);
    }
}

#[test]
fn wrap_keeps_a_too_wide_character_alone() {
    let lines = wrap("abc", 8).unwrap();
    assert_eq!(texts(&lines), vec!["a".to_string(), "b".to_string(), "c".to_string()]);
    assert!(lines.lines().iter().all(|l| l.width == 10));
}

#[test]
fn wrap_of_empty_text_is_one_empty_line() {
    let lines = wrap("", 10).unwrap();
    assert_eq!(lines.lines().len(), 1);
    let l = &lines.lines()[0];
    assert_eq!((l.text.as_str(), l.width, l.height, l.first_char_width), ("", 0, 0, 0));
    assert_eq!(lines.size(), (0, 0));
}

#[test]
fn wrap_twice_gives_the_same_lines() {
    let a = wrap("abcdefghij\nklm", 31).unwrap();
    let b = wrap("abcdefghij\nklm", 31).unwrap();
    assert_eq!(texts(&a), texts(&b));
    let dims = |l: &Lines| -> Vec<(i32, i32, i32, bool)> {
        l.lines().iter().map(|x| (x.width, x.height, x.first_char_width, x.hard_break)).collect()
    };
    assert_eq!(dims(&a), dims(&b));
}

#[test]
fn aggregate_height_is_the_sum_of_line_heights() {
    let lines = wrap("abcdefghij\nxyz", 25).unwrap();
    let sum: i32 = lines.lines().iter().map(|l| l.height).sum();
    let widest = lines.lines().iter().map(|l| l.width).max().unwrap();
    assert_eq!(lines.size(), (widest, sum));
    assert_eq!(lines.size(), (20, 12 * 5));
}

#[test]
fn wrap_rejects_a_non_positive_limit() {
    assert!(matches!(LineWrap::new("abc", 0), Err(ErrorKind::NonPositiveLimit)));
    assert!(matches!(LineWrap::new("abc", -5), Err(ErrorKind::NonPositiveLimit)));
}

#[test]
fn wrap_reports_lines_too_tall_to_sum() {
    let mut pass = LineWrap::new("a\nb", 100).unwrap();
    while !pass.is_done() {
        pass.step((10, i32::MAX), (10, i32::MAX));
    }
    assert!(matches!(pass.finish(), Err(ErrorKind::TextTooTall)));
}

#[test]
fn quote_lines_are_centred_and_stacked() {
    let lines = wrap("abcdefghij", 45).unwrap();
    assert_eq!(lines.size(), (40, 24));
    // panel 1320 wide, canvas 1080 tall, inset 30: the block starts its whole
    // height above the middle, each line moved left by its first character
    let origins = quote_origins(&lines, 1320, 1080, 30);
    assert_eq!(origins, vec![(660 + 30 - 20 - 10, 540 - 24), (660 + 30 - 17 - 10, 540 - 24 + 12)]);
}

#[test]
fn an_overflowing_last_character_makes_the_last_line() {
    let lines = wrap("abcde", 45).unwrap();
    assert_eq!(texts(&lines), vec!["abcd".to_string(), "e".to_string()]);
    assert_eq!(lines.lines()[1].width, 10);
}

#[test]
fn two_breaks_in_a_row_leave_an_empty_line() {
    let lines = wrap("a\n\nb", 1000).unwrap();
    assert_eq!(texts(&lines), vec!["a".to_string(), String::new(), "b".to_string()]);
    assert!(lines.lines().iter().all(|l| !l.text.contains('\n')));
    assert_eq!(rejoin(&lines), "a\n\nb");
}
