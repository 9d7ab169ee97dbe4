//! Splitting a line into tokens at the delimiters.

use vstd::prelude::*;
use vstd::string::*;

verus! {

/// Whether `c` parts two tokens: a space, a tab, a carriage return, a line
/// feed or a bell.
pub open spec fn is_delimiter(c: char) -> bool {
    c == ' ' || c == '\t' || c == '\r' || c == '\n' || c == '\x07'
}

/// Where the word that starts at `from` ends: the place of the first
/// delimiter at or behind `from`, or the end of `s` where there is none.
pub open spec fn word_end(s: Seq<char>, from: int) -> int
    decreases s.len() - from,
{
    if 0 <= from < s.len() && !is_delimiter(s[from]) {
        word_end(s, from + 1)
    } else {
        from
    }
}

/// The tokens of `s` that start at or behind `from`: delimiters are passed
/// over, and a token runs from a character that is no delimiter to the next
/// delimiter or to the end of `s`.
pub open spec fn tokens_from(s: Seq<char>, from: int) -> Seq<Seq<char>>
    decreases s.len() - from,
    via tokens_from_decreases
{
    if from < 0 || from >= s.len() {
        Seq::empty()
    } else if is_delimiter(s[from]) {
        tokens_from(s, from + 1)
    } else {
        seq![s.subrange(from, word_end(s, from))] + tokens_from(s, word_end(s, from))
    }
}

#[via_fn]
proof fn tokens_from_decreases(s: Seq<char>, from: int) {
    if 0 <= from < s.len() && !is_delimiter(s[from]) {
        lemma_word_end(s, from + 1);
    }
}

/// The tokens of the line `s`.
pub open spec fn tokens(s: Seq<char>) -> Seq<Seq<char>> {
    tokens_from(s, 0)
}

/// A word ends at or behind its start and within the line, holds no
/// delimiter, and is followed by a delimiter or by the end of the line.
pub proof fn lemma_word_end(s: Seq<char>, from: int)
    requires
        0 <= from <= s.len(),
    ensures
        from <= word_end(s, from) <= s.len(),
        forall|k: int| from <= k < word_end(s, from) ==> !is_delimiter(s[k]),
        word_end(s, from) < s.len() ==> is_delimiter(s[word_end(s, from)]),
    decreases s.len() - from,
{
    if from < s.len() && !is_delimiter(s[from]) {
        lemma_word_end(s, from + 1);
    }
}

/// A stretch without a delimiter that a delimiter or the end of the line
/// follows is a word.
pub proof fn lemma_word_end_is(s: Seq<char>, from: int, end: int)
    requires
        0 <= from <= end <= s.len(),
        forall|k: int| from <= k < end ==> !is_delimiter(s[k]),
        end < s.len() ==> is_delimiter(s[end]),
    ensures
        word_end(s, from) == end,
    decreases end - from,
{
    if from < end {
        lemma_word_end_is(s, from + 1, end);
    }
}

/// Whether `t` can be a token: it is not empty and holds no delimiter.
pub open spec fn is_word(t: Seq<char>) -> bool {
    t.len() > 0 && forall|j: int| 0 <= j < t.len() ==> !is_delimiter(#[trigger] t[j])
}

/// Whether `s` holds delimiters only.
pub open spec fn is_blank(s: Seq<char>) -> bool {
    forall|k: int| 0 <= k < s.len() ==> is_delimiter(#[trigger] s[k])
}

proof fn lemma_tokens_from_are_words(s: Seq<char>, from: int)
    requires
        0 <= from <= s.len(),
    ensures
        forall|i: int|
            0 <= i < tokens_from(s, from).len() ==> is_word(#[trigger] tokens_from(s, from)[i]),
    decreases s.len() - from,
{
    if from < s.len() {
        if is_delimiter(s[from]) {
            lemma_tokens_from_are_words(s, from + 1);
            assert(tokens_from(s, from) == tokens_from(s, from + 1));
        } else {
            let end = word_end(s, from);
            lemma_word_end(s, from);
            lemma_word_end(s, from + 1);
            lemma_tokens_from_are_words(s, end);
            let word = s.subrange(from, end);
            assert(is_word(word)) by {
                assert forall|j: int| 0 <= j < word.len() implies !is_delimiter(
                    #[trigger] word[j],
                ) by {
                    assert(word[j] == s[from + j]);
                }
            }
            assert forall|i: int| 0 <= i < tokens_from(s, from).len() implies is_word(
                #[trigger] tokens_from(s, from)[i],
            ) by {
                assert(tokens_from(s, from) == seq![word] + tokens_from(s, end));
                if i > 0 {
                    assert(tokens_from(s, from)[i] == tokens_from(s, end)[i - 1]);
                } else {
                    assert(tokens_from(s, from)[i] == word);
                }
            }
        }
    }
}

/// No token of a line is empty, and no token holds a delimiter.
pub proof fn lemma_tokens_are_words(s: Seq<char>)
    ensures
        forall|i: int| 0 <= i < tokens(s).len() ==> is_word(#[trigger] tokens(s)[i]),
        forall|i: int| 0 <= i < tokens(s).len() ==> (#[trigger] tokens(s)[i]).len() > 0,
        forall|i: int, j: int|
            0 <= i < tokens(s).len() && 0 <= j < tokens(s)[i].len() ==> !is_delimiter(
                #[trigger] tokens(s)[i][j],
            ),
{
    lemma_tokens_from_are_words(s, 0);
    assert forall|i: int, j: int|
        0 <= i < tokens(s).len() && 0 <= j < tokens(s)[i].len() implies !is_delimiter(
        #[trigger] tokens(s)[i][j],
    ) by {
        assert(is_word(tokens(s)[i]));
    }
}

proof fn lemma_blank_from(s: Seq<char>, from: int)
    requires
        0 <= from <= s.len(),
    ensures
        tokens_from(s, from).len() == 0 <==> forall|k: int|
            from <= k < s.len() ==> is_delimiter(#[trigger] s[k]),
    decreases s.len() - from,
{
    if from < s.len() {
        if is_delimiter(s[from]) {
            lemma_blank_from(s, from + 1);
        } else {
            assert(tokens_from(s, from).len() > 0);
        }
    }
}

/// A line has no tokens if and only if it holds delimiters only.
pub proof fn lemma_no_tokens_iff_blank(s: Seq<char>)
    ensures
        tokens(s).len() == 0 <==> is_blank(s),
{
    lemma_blank_from(s, 0);
}

/// A word alone on a line is the one token of that line.
pub proof fn lemma_tokens_of_word(word: Seq<char>)
    requires
        is_word(word),
    ensures
        tokens(word) == seq![word],
{
    lemma_word_end_is(word, 0, word.len() as int);
    assert(word.subrange(0, word.len() as int) =~= word);
    assert(tokens_from(word, word.len() as int) =~= Seq::<Seq<char>>::empty());
    assert(tokens(word) =~= seq![word]);
}

/// What stands before a place does not change the tokens behind it.
proof fn lemma_tokens_behind_prefix(prefix: Seq<char>, s: Seq<char>, from: int)
    requires
        0 <= from <= s.len(),
    ensures
        tokens_from(prefix + s, prefix.len() + from) == tokens_from(s, from),
    decreases s.len() - from,
{
    let whole = prefix + s;
    let at = prefix.len() + from;
    if from < s.len() {
        assert(whole[at] == s[from]);
        if is_delimiter(s[from]) {
            lemma_tokens_behind_prefix(prefix, s, from + 1);
        } else {
            let end = word_end(s, from);
            lemma_word_end(s, from);
            lemma_word_end(s, from + 1);
            assert forall|k: int| at <= k < prefix.len() + end implies !is_delimiter(
                whole[k],
            ) by {
                assert(whole[k] == s[k - prefix.len()]);
            }
            if end < s.len() {
                assert(whole[prefix.len() + end] == s[end]);
            }
            lemma_word_end_is(whole, at, prefix.len() + end);
            assert(whole.subrange(at, prefix.len() + end) =~= s.subrange(from, end));
            lemma_tokens_behind_prefix(prefix, s, end);
        }
    }
}

/// Up to a delimiter the tokens are those of the text before it, and the
/// tokens behind the delimiter follow them.
proof fn lemma_tokens_before_delimiter(s: Seq<char>, cut: int, from: int)
    requires
        0 <= from <= cut < s.len(),
        is_delimiter(s[cut]),
    ensures
        tokens_from(s, from) == tokens_from(s.take(cut), from) + tokens_from(s, cut + 1),
    decreases cut - from,
{
    let head = s.take(cut);
    if from == cut {
        assert(tokens_from(head, from) =~= Seq::<Seq<char>>::empty());
        assert(tokens_from(s, from) =~= tokens_from(head, from) + tokens_from(s, cut + 1));
    } else {
        assert(head[from] == s[from]);
        if is_delimiter(s[from]) {
            lemma_tokens_before_delimiter(s, cut, from + 1);
        } else {
            let end = word_end(head, from);
            lemma_word_end(head, from);
            lemma_word_end(head, from + 1);
            assert forall|k: int| from <= k < end implies !is_delimiter(s[k]) by {
                assert(s[k] == head[k]);
            }
            if end < cut {
                assert(s[end] == head[end]);
            }
            lemma_word_end_is(s, from, end);
            assert(s.subrange(from, end) =~= head.subrange(from, end));
            lemma_tokens_before_delimiter(s, cut, end);
            assert(tokens_from(s, from) =~= tokens_from(head, from) + tokens_from(s, cut + 1));
        }
    }
}

/// A delimiter parts a line in two: the tokens of the line are those of what
/// stands before the delimiter, followed by those of what stands behind it.
pub proof fn lemma_tokens_split(before: Seq<char>, delimiter: char, behind: Seq<char>)
    requires
        is_delimiter(delimiter),
    ensures
        tokens(before + seq![delimiter] + behind) == tokens(before) + tokens(behind),
{
    let head = before + seq![delimiter];
    let s = head + behind;
    let cut = before.len() as int;
    assert(s[cut] == delimiter);
    assert(s.take(cut) =~= before);
    lemma_tokens_before_delimiter(s, cut, 0);
    lemma_tokens_behind_prefix(head, behind, 0);
}

/// Whether `c` parts two tokens.
pub fn is_delimiter_char(c: char) -> (b: bool)
    ensures
        b == is_delimiter(c),
{
    c == ' ' || c == '\t' || c == '\r' || c == '\n' || c == '\x07'
}

/// Splits `line` into its tokens: none of them is empty, and none holds a
/// delimiter.
pub fn ksh_split_line(line: &str) -> (args: Vec<String>)
    ensures
        args.deep_view() == tokens(line@),
        forall|i: int| 0 <= i < args.len() ==> is_word(#[trigger] args[i]@),
{
    let len: usize = line.unicode_len();
    let mut args: Vec<String> = Vec::new();
    let mut at: usize = 0;
    assert(args.deep_view() + tokens_from(line@, 0) =~= tokens(line@));
    while at < len
        invariant
            len == line@.len(),
            at <= len,
            args.deep_view() + tokens_from(line@, at as int) == tokens(line@),
        decreases len - at,
    {
        if is_delimiter_char(line.get_char(at)) {
            at = at + 1;
        } else {
            let start: usize = at;
            while at < len && !is_delimiter_char(line.get_char(at))
                invariant
                    len == line@.len(),
                    start <= at <= len,
                    forall|k: int| start <= k < at ==> !is_delimiter(line@[k]),
                decreases len - at,
            {
                at = at + 1;
            }
            proof {
                lemma_word_end_is(line@, start as int, at as int);
            }
            let ghost before = args.deep_view();
            let word = String::from_str(line.substring_char(start, at));
            args.push(word);
            assert(args.deep_view() =~= before + seq![line@.subrange(start as int, at as int)]);
            assert(args.deep_view() + tokens_from(line@, at as int) =~= before + tokens_from(
                line@,
                start as int,
            ));
        }
    }
    assert(args.deep_view() + tokens_from(line@, len as int) =~= args.deep_view());
    proof {
        lemma_tokens_are_words(line@);
        assert forall|i: int| 0 <= i < args.len() implies is_word(#[trigger] args[i]@) by {
            assert(args[i]@ == args.deep_view()[i]);
        }
    }
    args
}

} // verus!
