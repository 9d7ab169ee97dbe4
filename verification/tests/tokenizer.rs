use ksh::tokenizer::{is_delimiter_char, ksh_split_line};

fn owned(words: &[&str]) -> Vec<String> {
    words.iter().map(|w| w.to_string()).collect()
}

#[test]
fn empty_line_has_no_tokens() {
    assert_eq!(ksh_split_line(""), Vec::<String>::new());
}

#[test]
fn blank_line_has_no_tokens() {
    assert_eq!(ksh_split_line("   \t\n"), Vec::<String>::new());
    assert_eq!(ksh_split_line(" \t\r\n\u{7}"), Vec::<String>::new());
}

#[test]
fn words_are_split_at_spaces() {
    assert_eq!(ksh_split_line("echo hello world"), owned(&["echo", "hello", "world"]));
}

#[test]
fn every_delimiter_splits() {
    assert_eq!(ksh_split_line("a b\tc\rd\ne\u{7}f"), owned(&["a", "b", "c", "d", "e", "f"]));
}

#[test]
fn the_delimiters_are_these_five() {
    let mut code: u32 = 0;
    while code <= 0x10ffff {
        if let Some(c) = char::from_u32(code) {
            let expected = c == ' ' || c == '\t' || c == '\r' || c == '\n' || c == '\u{7}';
            assert_eq!(is_delimiter_char(c), expected, "U+{:04X}", code);
        }
        code += 1;
    }
}

#[test]
fn runs_of_delimiters_collapse() {
    assert_eq!(ksh_split_line("  ls   -l \t\t /tmp  "), owned(&["ls", "-l", "/tmp"]));
    assert_eq!(ksh_split_line("\n\nls\n\n"), owned(&["ls"]));
}

#[test]
fn a_single_word_is_one_token() {
    assert_eq!(ksh_split_line("exit"), owned(&["exit"]));
    assert_eq!(ksh_split_line("x"), owned(&["x"]));
}

#[test]
fn quotes_do_not_keep_words_together() {
    assert_eq!(
        ksh_split_line("echo \"Hello, World!\""),
        owned(&["echo", "\"Hello,", "World!\""])
    );
    assert_eq!(ksh_split_line("echo 'a b'"), owned(&["echo", "'a", "b'"]));
}

#[test]
fn nothing_is_expanded_or_escaped() {
    assert_eq!(ksh_split_line("echo $HOME a\\ b ~"), owned(&["echo", "$HOME", "a\\", "b", "~"]));
}

#[test]
fn other_white_space_does_not_split() {
    assert_eq!(ksh_split_line("a\u{b}b\u{c}c\u{a0}d"), owned(&["a\u{b}b\u{c}c\u{a0}d"]));
}

#[test]
fn tokens_keep_characters_beyond_ascii() {
    assert_eq!(
        ksh_split_line("cat \u{3bb}x.txt na\u{ef}ve\t\u{1f600}"),
        owned(&["cat", "\u{3bb}x.txt", "na\u{ef}ve", "\u{1f600}"])
    );
}

#[test]
fn no_token_is_empty_or_holds_a_delimiter() {
    let lines = [
        "",
        " ",
        "a",
        " a",
        "a ",
        "  a  b  ",
        "\ta\r\nb\u{7}\u{7}c",
        "one two\tthree\rfour\nfive\u{7}six",
        " \u{3bb} \u{3bb}\t",
    ];
    for line in lines {
        for token in ksh_split_line(line) {
            assert!(!token.is_empty(), "line {:?}", line);
            assert!(!token.chars().any(is_delimiter_char), "line {:?}", line);
        }
    }
}

#[test]
fn a_delimiter_parts_the_tokens_of_a_line() {
    let before = "ls  -l";
    let behind = " /tmp\t/var ";
    for delimiter in [' ', '\t', '\r', '\n', '\u{7}'] {
        let line = format!("{}{}{}", before, delimiter, behind);
        let mut expected = ksh_split_line(before);
        expected.extend(ksh_split_line(behind));
        assert_eq!(ksh_split_line(&line), expected);
        assert_eq!(ksh_split_line(&line), owned(&["ls", "-l", "/tmp", "/var"]));
    }
}

#[test]
fn splitting_agrees_with_split_and_filter() {
    let lines = ["", "  ", "a b", " a  b ", "x\ty\rz\nw\u{7}v", "echo \"a b\"  c"];
    for line in lines {
        let expected: Vec<String> = line
            .split(|c| " \t\r\n\u{7}".contains(c))
            .filter(|s| !s.is_empty())
            .map(|s| s.to_string())
            .collect();
        assert_eq!(ksh_split_line(line), expected);
    }
}
