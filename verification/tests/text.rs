use aurora::text::{chars_of, is_whitespace, push_decimal, push_joined, push_str, split_words};

#[test]
fn whitespace_agrees_with_std_for_every_char() {
    for u in 0u32..=0x10FFFF {
        if let Some(c) = char::from_u32(u) {
            assert_eq!(is_whitespace(c), c.is_whitespace(), "char {:#x}", u);
        }
    }
}

#[test]
fn split_words_matches_split_whitespace() {
    let inputs = [
        "",
        "   ",
        "ping",
        "  settings   user  show ",
        "a\tb\nc\u{3000}d\u{a0}e",
        "x\u{2028}y",
    ];
    for input in inputs {
        let got = split_words(&chars_of(input));
        let want: Vec<String> = input.split_whitespace().map(String::from).collect();
        assert_eq!(got, want, "input {:?}", input);
    }
}

#[test]
fn chars_of_keeps_every_char() {
    let s = "héllo wörld ✓";
    assert_eq!(chars_of(s), s.chars().collect::<Vec<char>>());
}

#[test]
fn push_decimal_formats_like_display() {
    for n in [0u64, 7, 10, 42, 1000, 1234567890123, u64::MAX] {
        let mut out = vec!['x'];
        push_decimal(&mut out, n);
        let got: String = out.into_iter().collect();
        assert_eq!(got, format!("x{}", n));
    }
}

#[test]
fn push_str_appends() {
    let mut out = vec!['a'];
    push_str(&mut out, "bc");
    assert_eq!(out, vec!['a', 'b', 'c']);
}

#[test]
fn push_joined_joins_the_tail_with_spaces() {
    let ws: Vec<String> = vec!["a".into(), "bb".into(), "c".into()];
    let mut out = Vec::new();
    push_joined(&mut out, &ws, 1);
    assert_eq!(out.into_iter().collect::<String>(), "bb c");
    let mut one = Vec::new();
    push_joined(&mut one, &ws, 2);
    assert_eq!(one.into_iter().collect::<String>(), "c");
    let mut none = vec!['z'];
    push_joined(&mut none, &ws, 3);
    assert_eq!(none, vec!['z']);
}
