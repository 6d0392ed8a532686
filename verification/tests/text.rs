use nganjo::text::{first_lines, lines_of, padded_left, padded_right, parse_u32, prefix_bytes, trimmed, words_of};

fn cs(s: &str) -> Vec<char> {
    s.chars().collect()
}

fn st(v: &[char]) -> String {
    v.iter().collect()
}

#[test]
fn numbers_parse_like_from_str_radix() {
    assert_eq!(parse_u32(&cs("755"), 8), Some(0o755));
    assert_eq!(parse_u32(&cs("8"), 8), None);
    assert_eq!(parse_u32(&cs("+12"), 10), Some(12));
    assert_eq!(parse_u32(&cs("-1"), 10), None);
    assert_eq!(parse_u32(&cs(""), 10), None);
    assert_eq!(parse_u32(&cs("+"), 10), None);
    assert_eq!(parse_u32(&cs("4294967295"), 10), Some(u32::MAX));
    assert_eq!(parse_u32(&cs("4294967296"), 10), None);
}

#[test]
fn lines_drop_the_newlines_and_a_final_empty_line() {
    let ls: Vec<String> = lines_of(&cs("a\r\nb\n\nc")).iter().map(|l| st(l)).collect();
    assert_eq!(ls, vec!["a", "b", "", "c"]);
    assert_eq!(lines_of(&cs("x\n")).len(), 1);
    assert_eq!(lines_of(&cs("")).len(), 0);
    assert_eq!(first_lines("1\n2\n3\n", 2), "1\n2");
}

#[test]
fn words_and_trimming() {
    let w: Vec<String> = words_of(&cs("  a\tbb  c ")).iter().map(|x| st(x)).collect();
    assert_eq!(w, vec!["a", "bb", "c"]);
    assert_eq!(st(&trimmed(&cs(" \t x y \n"))), "x y");
}

#[test]
fn byte_prefixes_end_on_character_boundaries() {
    assert_eq!(st(&prefix_bytes(&cs("héllo"), 3)), "hé");
    assert_eq!(st(&prefix_bytes(&cs("abc"), 10)), "abc");
    assert_eq!(st(&prefix_bytes(&cs("abc"), 0)), "");
}

#[test]
fn padding_to_a_width() {
    assert_eq!(st(&padded_right(&cs("ab"), 4)), "ab  ");
    assert_eq!(st(&padded_left(&cs("ab"), 4)), "  ab");
    assert_eq!(st(&padded_left(&cs("abcde"), 4)), "abcde");
}
