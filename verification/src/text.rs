//! Small pieces of text: decimal numbers, padding, and the end of a line.

use vstd::prelude::*;
use vstd::string::*;
use vstd::utf8::*;

verus! {

/// The character that stands for the digit `d`.
pub open spec fn digit(d: nat) -> char
    recommends
        d < 10,
{
    if d == 0 {
        '0'
    } else if d == 1 {
        '1'
    } else if d == 2 {
        '2'
    } else if d == 3 {
        '3'
    } else if d == 4 {
        '4'
    } else if d == 5 {
        '5'
    } else if d == 6 {
        '6'
    } else if d == 7 {
        '7'
    } else if d == 8 {
        '8'
    } else {
        '9'
    }
}

/// `n` written in base ten, without leading zeros.
pub open spec fn decimal(n: nat) -> Seq<char>
    decreases n,
{
    if n < 10 {
        seq![digit(n)]
    } else {
        decimal(n / 10).push(digit(n % 10))
    }
}

/// `width` spaces.
pub open spec fn blanks(width: nat) -> Seq<char> {
    Seq::new(width, |i: int| ' ')
}

/// `s`, followed by as many spaces as bring it to `width` characters; `s`
/// itself where it is that long already.
pub open spec fn padded(s: Seq<char>, width: nat) -> Seq<char> {
    if s.len() >= width {
        s
    } else {
        s + blanks((width - s.len()) as nat)
    }
}

/// Whether `c` is white space as Unicode defines it (the property
/// `White_Space`).
pub open spec fn is_space(c: char) -> bool {
    let code = c as u32;
    ||| 0x09 <= code <= 0x0d
    ||| code == 0x20
    ||| code == 0x85
    ||| code == 0xa0
    ||| code == 0x1680
    ||| 0x2000 <= code <= 0x200a
    ||| code == 0x2028
    ||| code == 0x2029
    ||| code == 0x202f
    ||| code == 0x205f
    ||| code == 0x3000
}

/// The number of characters of `s` that are left when the white space at its
/// end is taken away.
pub open spec fn trimmed_len(s: Seq<char>) -> nat
    decreases s.len(),
{
    if s.len() > 0 && is_space(s.last()) {
        trimmed_len(s.drop_last())
    } else {
        s.len()
    }
}

/// `s` without the white space at its end.
pub open spec fn trimmed(s: Seq<char>) -> Seq<char> {
    s.take(trimmed_len(s) as int)
}

/// Trimming takes away white space from the end and nothing else: what is
/// left is the text up to its last character that is no white space.
pub proof fn lemma_trimmed(s: Seq<char>)
    ensures
        trimmed_len(s) <= s.len(),
        trimmed(s).len() == trimmed_len(s),
        forall|k: int| 0 <= k < trimmed_len(s) ==> trimmed(s)[k] == s[k],
        forall|k: int| trimmed_len(s) <= k < s.len() ==> is_space(s[k]),
        trimmed_len(s) > 0 ==> !is_space(s[trimmed_len(s) - 1]),
    decreases s.len(),
{
    if s.len() > 0 && is_space(s.last()) {
        lemma_trimmed(s.drop_last());
        assert forall|k: int| trimmed_len(s) <= k < s.len() implies is_space(s[k]) by {
            if k < s.len() - 1 {
                assert(s[k] == s.drop_last()[k]);
            }
        }
    }
}

/// The digit `d` as a text of one character.
fn digit_text(d: usize) -> (t: &'static str)
    requires
        d < 10,
    ensures
        t@ == seq![digit(d as nat)],
{
    proof {
        reveal_strlit("0");
        reveal_strlit("1");
        reveal_strlit("2");
        reveal_strlit("3");
        reveal_strlit("4");
        reveal_strlit("5");
        reveal_strlit("6");
        reveal_strlit("7");
        reveal_strlit("8");
        reveal_strlit("9");
    }
    let t = if d == 0 {
        "0"
    } else if d == 1 {
        "1"
    } else if d == 2 {
        "2"
    } else if d == 3 {
        "3"
    } else if d == 4 {
        "4"
    } else if d == 5 {
        "5"
    } else if d == 6 {
        "6"
    } else if d == 7 {
        "7"
    } else if d == 8 {
        "8"
    } else {
        "9"
    };
    assert(t@ =~= seq![digit(d as nat)]);
    t
}

/// Writes `n` in base ten.
pub fn format_decimal(n: usize) -> (text: String)
    ensures
        text@ == decimal(n as nat),
    decreases n,
{
    if n < 10 {
        String::from_str(digit_text(n))
    } else {
        let mut text = format_decimal(n / 10);
        text.append(digit_text(n % 10));
        assert(text@ =~= decimal(n as nat));
        text
    }
}

/// Brings `s` to `width` characters by adding spaces at its end.
pub fn pad(s: &str, width: usize) -> (text: String)
    ensures
        text@ == padded(s@, width as nat),
{
    let len: usize = s.unicode_len();
    let mut text = String::from_str(s);
    let mut n: usize = len;
    while n < width
        invariant
            len == s@.len(),
            len <= n,
            n <= width || n == len,
            text@ == s@ + blanks((n - len) as nat),
        decreases width - n,
    {
        proof {
            reveal_strlit(" ");
        }
        text.append(" ");
        n = n + 1;
        assert(text@ =~= s@ + blanks((n - len) as nat));
    }
    assert(text@ =~= padded(s@, width as nat));
    text
}

/// Whether `c` is white space as Unicode defines it.
pub fn is_whitespace(c: char) -> (b: bool)
    ensures
        b == is_space(c),
{
    let code: u32 = c as u32;
    (0x09 <= code && code <= 0x0d) || code == 0x20 || code == 0x85 || code == 0xa0 || code
        == 0x1680 || (0x2000 <= code && code <= 0x200a) || code == 0x2028 || code == 0x2029
        || code == 0x202f || code == 0x205f || code == 0x3000
}

/// Takes the white space at the end of `s` away.
pub fn trim_end(s: &str) -> (text: String)
    ensures
        text@ == trimmed(s@),
{
    let mut end: usize = s.unicode_len();
    assert(s@.take(end as int) =~= s@);
    while end > 0 && is_whitespace(s.get_char(end - 1))
        invariant
            end <= s@.len(),
            trimmed_len(s@) == trimmed_len(s@.take(end as int)),
        decreases end,
    {
        assert(s@.take(end as int).drop_last() =~= s@.take(end - 1));
        end = end - 1;
    }
    String::from_str(s.substring_char(0, end))
}

/// Whether `a` and `b` are the same text.
pub fn same_text(a: &str, b: &str) -> (same: bool)
    ensures
        same == (a@ == b@),
{
    let x = a.as_bytes();
    let y = b.as_bytes();
    proof {
        encode_utf8_decode_utf8(a@);
        encode_utf8_decode_utf8(b@);
    }
    if x.len() != y.len() {
        return false;
    }
    let mut i: usize = 0;
    while i < x.len()
        invariant
            x@ == encode_utf8(a@),
            y@ == encode_utf8(b@),
            x@.len() == y@.len(),
            i <= x@.len(),
            forall|k: int| 0 <= k < i ==> x@[k] == y@[k],
        decreases x@.len() - i,
    {
        if x[i] != y[i] {
            return false;
        }
        i = i + 1;
    }
    assert(x@ =~= y@);
    true
}

} // verus!
