//! Small operations on text, stated over sequences of characters.

use vstd::prelude::*;

verus! {

/// The characters that Unicode classes as `White_Space`.
pub open spec fn is_white_space(c: char) -> bool {
    let code = c as u32;
    ||| 0x09 <= code <= 0x0D
    ||| code == 0x20
    ||| code == 0x85
    ||| code == 0xA0
    ||| code == 0x1680
    ||| 0x2000 <= code <= 0x200A
    ||| code == 0x2028
    ||| code == 0x2029
    ||| code == 0x202F
    ||| code == 0x205F
    ||| code == 0x3000
}

/// What an optional text holds.
pub open spec fn optional_text(text: Option<String>) -> Option<Seq<char>> {
    match text {
        Some(t) => Some(t@),
        None => None,
    }
}

/// What an optional borrowed text holds.
pub open spec fn optional_str(text: Option<&str>) -> Option<Seq<char>> {
    match text {
        Some(t) => Some(t@),
        None => None,
    }
}

/// A text is blank when nothing but white space is in it.
pub open spec fn blank(text: Seq<char>) -> bool {
    forall|i: int| 0 <= i < text.len() ==> is_white_space(#[trigger] text[i])
}

/// `text` with every trailing repetition of `suffix` removed.
pub open spec fn without_trailing(text: Seq<char>, suffix: Seq<char>) -> Seq<char>
    decreases text.len(),
{
    if suffix.len() > 0 && suffix.is_suffix_of(text) {
        without_trailing(text.subrange(0, text.len() - suffix.len()), suffix)
    } else {
        text
    }
}

/// The position of the last occurrence of `c` in `text`, if there is one.
pub open spec fn last_position(text: Seq<char>, c: char) -> Option<int>
    decreases text.len(),
{
    if text.len() == 0 {
        None
    } else if text.last() == c {
        Some(text.len() - 1)
    } else {
        last_position(text.drop_last(), c)
    }
}

/// The number of occurrences of `c` in `text`.
pub open spec fn occurrences(text: Seq<char>, c: char) -> nat
    decreases text.len(),
{
    if text.len() == 0 {
        0
    } else {
        occurrences(text.drop_last(), c) + if text.last() == c { 1nat } else { 0nat }
    }
}

/// The decimal digits of `n`, most significant first, without leading zeros.
pub open spec fn decimal_digits(n: nat) -> Seq<char>
    decreases n,
{
    if n < 10 {
        seq![digit_char(n)]
    } else {
        decimal_digits(n / 10).push(digit_char(n % 10))
    }
}

/// The character of a single decimal digit.
pub open spec fn digit_char(d: nat) -> char {
    if d == 0 {
        '0'
    } else if d == 1 {
        '1'
    } else if d == 2 {
        '2'
    } else if d == 3 {
        '3'
    } else if d == 4 {
        '4'
    } else if d == 5 {
        '5'
    } else if d == 6 {
        '6'
    } else if d == 7 {
        '7'
    } else if d == 8 {
        '8'
    } else {
        '9'
    }
}

/// Whether Unicode classes `c` as `White_Space`.
pub fn is_whitespace(c: char) -> (r: bool)
    ensures
        r == is_white_space(c),
{
    let code = c as u32;
    (0x09 <= code && code <= 0x0D) || code == 0x20 || code == 0x85 || code == 0xA0 || code
        == 0x1680 || (0x2000 <= code && code <= 0x200A) || code == 0x2028 || code == 0x2029
        || code == 0x202F || code == 0x205F || code == 0x3000
}

/// The characters of `s`, in order.
pub fn chars_of(s: &str) -> (v: Vec<char>)
    ensures
        v@ == s@,
{
    let mut v: Vec<char> = Vec::new();
    for c in it: s.chars()
        invariant
            v@ == it.seq().take(it.index() as int),
            it.seq() == s@,
    {
        v.push(c);
    }
    v
}

/// Whether `text` holds nothing but white space (an empty text is blank).
pub fn is_blank(text: &str) -> (r: bool)
    ensures
        r == blank(text@),
{
    let chars = chars_of(text);
    let mut i: usize = 0;
    while i < chars.len()
        invariant
            i <= chars.len(),
            chars@ == text@,
            forall|j: int| 0 <= j < i ==> is_white_space(#[trigger] chars@[j]),
        decreases chars.len() - i,
    {
        if !is_whitespace(chars[i]) {
            return false;
        }
        i += 1;
    }
    true
}

/// Whether `text` begins with `prefix`.
pub fn starts_with(text: &str, prefix: &str) -> (r: bool)
    ensures
        r == prefix@.is_prefix_of(text@),
{
    let t = chars_of(text);
    let p = chars_of(prefix);
    if p.len() > t.len() {
        return false;
    }
    let mut i: usize = 0;
    while i < p.len()
        invariant
            i <= p.len() <= t.len(),
            t@ == text@,
            p@ == prefix@,
            forall|j: int| 0 <= j < i ==> t@[j] == p@[j],
        decreases p.len() - i,
    {
        if t[i] != p[i] {
            assert(text@.subrange(0, prefix@.len() as int)[i as int] != prefix@[i as int]);
            return false;
        }
        i += 1;
    }
    assert(text@.subrange(0, prefix@.len() as int) =~= prefix@);
    true
}

/// Whether `text` ends with `suffix`.
pub fn ends_with(text: &str, suffix: &str) -> (r: bool)
    ensures
        r == suffix@.is_suffix_of(text@),
{
    let t = chars_of(text);
    let s = chars_of(suffix);
    if s.len() > t.len() {
        return false;
    }
    let offset: usize = t.len() - s.len();
    let mut i: usize = 0;
    while i < s.len()
        invariant
            i <= s.len() <= t.len(),
            offset == t.len() - s.len(),
            t@ == text@,
            s@ == suffix@,
            forall|j: int| 0 <= j < i ==> t@[offset + j] == s@[j],
        decreases s.len() - i,
    {
        if t[offset + i] != s[i] {
            assert(text@.subrange(text@.len() - suffix@.len(), text@.len() as int)[i as int]
                != suffix@[i as int]);
            return false;
        }
        i += 1;
    }
    assert(text@.subrange(text@.len() - suffix@.len(), text@.len() as int) =~= suffix@);
    true
}

/// Removes every trailing repetition of `suffix` from `text`.
pub fn trim_trailing(text: &str, suffix: &str) -> (r: String)
    ensures
        r@ == without_trailing(text@, suffix@),
{
    let suffix_len = suffix.unicode_len();
    let mut end: usize = text.unicode_len();
    if suffix_len == 0 {
        return text.to_string();
    }
    assert(text@.subrange(0, end as int) =~= text@);
    loop
        invariant
            suffix_len == suffix@.len(),
            suffix_len > 0,
            end <= text@.len(),
            without_trailing(text@, suffix@) == without_trailing(
                text@.subrange(0, end as int),
                suffix@,
            ),
        decreases end,
    {
        let head = text.substring_char(0, end);
        if !ends_with(head, suffix) {
            return head.to_string();
        }
        proof {
            let h = text@.subrange(0, end as int);
            assert(h.subrange(0, h.len() - suffix@.len()) =~= text@.subrange(
                0,
                end - suffix_len,
            ));
        }
        end = end - suffix_len;
    }
}

/// The position of the last `c` in `text`, counted in characters.
pub fn last_index_of(text: &str, c: char) -> (r: Option<usize>)
    ensures
        r is Some <==> last_position(text@, c) is Some,
        r is Some ==> r->0 as int == last_position(text@, c)->0,
{
    let chars = chars_of(text);
    let mut end: usize = chars.len();
    assert(text@.subrange(0, end as int) =~= text@);
    while end > 0
        invariant
            end <= chars.len(),
            chars@ == text@,
            last_position(text@, c) == last_position(text@.subrange(0, end as int), c),
        decreases end,
    {
        if chars[end - 1] == c {
            return Some(end - 1);
        }
        proof {
            let h = text@.subrange(0, end as int);
            assert(h.drop_last() =~= text@.subrange(0, end - 1));
        }
        end -= 1;
    }
    assert(text@.subrange(0, 0).len() == 0);
    None
}

/// How often `c` occurs in `text`.
pub fn count_of(text: &str, c: char) -> (r: usize)
    ensures
        r == occurrences(text@, c),
{
    let chars = chars_of(text);
    let mut n: usize = 0;
    let mut i: usize = 0;
    while i < chars.len()
        invariant
            i <= chars.len(),
            chars@ == text@,
            n <= i,
            n == occurrences(text@.subrange(0, i as int), c),
        decreases chars.len() - i,
    {
        proof {
            let h = text@.subrange(0, i + 1);
            assert(h.drop_last() =~= text@.subrange(0, i as int));
        }
        if chars[i] == c {
            n += 1;
        }
        i += 1;
    }
    assert(text@.subrange(0, text@.len() as int) =~= text@);
    n
}

/// The first `limit` characters of `text`, or all of it if it is shorter.
pub fn truncated(text: &str, limit: usize) -> (r: String)
    ensures
        r@ == if text@.len() <= limit { text@ } else { text@.subrange(0, limit as int) },
{
    let len = text.unicode_len();
    if len <= limit {
        text.to_string()
    } else {
        text.substring_char(0, limit).to_string()
    }
}

fn digit_text(d: u32) -> (r: &'static str)
    requires
        d < 10,
    ensures
        r@ == seq![digit_char(d as nat)],
{
    proof {
        reveal_strlit("0");
        reveal_strlit("1");
        reveal_strlit("2");
        reveal_strlit("3");
        reveal_strlit("4");
        reveal_strlit("5");
        reveal_strlit("6");
        reveal_strlit("7");
        reveal_strlit("8");
        reveal_strlit("9");
    }
    let r = if d == 0 {
        "0"
    } else if d == 1 {
        "1"
    } else if d == 2 {
        "2"
    } else if d == 3 {
        "3"
    } else if d == 4 {
        "4"
    } else if d == 5 {
        "5"
    } else if d == 6 {
        "6"
    } else if d == 7 {
        "7"
    } else if d == 8 {
        "8"
    } else {
        "9"
    };
    assert(r@ =~= seq![digit_char(d as nat)]);
    r
}

/// `n` written in decimal.
pub fn decimal(n: u32) -> (r: String)
    ensures
        r@ == decimal_digits(n as nat),
    decreases n,
{
    if n < 10 {
        digit_text(n).to_string()
    } else {
        let head = decimal(n / 10);
        let r = head.concat(digit_text(n % 10));
        assert(r@ =~= decimal_digits(n as nat));
        r
    }
}

} // verus!
