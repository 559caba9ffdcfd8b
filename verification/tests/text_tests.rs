use simadmin::text::{chars_of, parse_uint, replace_chars, split_lines, split_words, trim_chars};

fn v(s: &str) -> Vec<char> {
    s.chars().collect()
}

#[test]
fn unsigned_parsing_follows_from_str() {
    assert_eq!(parse_uint(&v("42"), 10, 255), Some(42));
    assert_eq!(parse_uint(&v("+7"), 10, 255), Some(7));
    assert_eq!(parse_uint(&v("+"), 10, 255), None);
    assert_eq!(parse_uint(&v(""), 10, 255), None);
    assert_eq!(parse_uint(&v("-1"), 10, 255), None);
    assert_eq!(parse_uint(&v("256"), 10, 255), None);
    assert_eq!(parse_uint(&v("0255"), 10, 255), Some(255));
    assert_eq!(parse_uint(&v("1003"), 16, u32::MAX as u64), Some(0x1003));
    assert_eq!(parse_uint(&v("fF"), 16, 255), Some(255));
    assert_eq!(parse_uint(&v("18446744073709551616"), 10, u64::MAX), None);
    assert_eq!(parse_uint(&v("18446744073709551615"), 10, u64::MAX), Some(u64::MAX));
}

#[test]
fn words_and_lines() {
    let w = split_words(&v("  a\tbb \u{3000}c  "));
    assert_eq!(w, vec![v("a"), v("bb"), v("c")]);
    let l = split_lines(&v("x\r\ny\n\nz\r"));
    assert_eq!(l, vec![v("x"), v("y"), v(""), v("z\r")]);
    assert_eq!(split_lines(&v("")).len(), 0);
    assert_eq!(trim_chars(&v(" \t q r \n")), v("q r"));
    assert_eq!(chars_of("é"), vec!['é']);
}

#[test]
fn replacement_left_to_right() {
    assert_eq!(replace_chars(&v("aaa"), "aa", "b"), v("ba"));
    assert_eq!(replace_chars(&v("inet addr:1.2.3.4"), "addr:", "addr "), v("inet addr 1.2.3.4"));
}
