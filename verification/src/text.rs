//! Text helpers: counting words, joining list items and writing numbers.
use crate::positions::positions_below;
use vstd::prelude::*;
use vstd::string::{StrSliceExecFns, StringExecFns};

verus! {

/// Whether `c` is white space: a character with the Unicode property
/// `White_Space`.
pub open spec fn is_space(c: char) -> bool {
    let n = c as u32;
    ||| 0x09 <= n <= 0x0d
    ||| n == 0x20
    ||| n == 0x85
    ||| n == 0xa0
    ||| n == 0x1680
    ||| 0x2000 <= n <= 0x200a
    ||| n == 0x2028
    ||| n == 0x2029
    ||| n == 0x202f
    ||| n == 0x205f
    ||| n == 0x3000
}

/// Whether a word starts at position `i`: whether the character there is no
/// white space and stands first or after white space.
pub open spec fn word_start_at(s: Seq<char>) -> spec_fn(int) -> bool {
    |i: int| !is_space(s[i]) && (i == 0 || is_space(s[i - 1]))
}

/// The number of words in `s`: of maximal runs of characters that are no
/// white space.
pub open spec fn word_count(s: Seq<char>) -> nat {
    positions_below(s.len() as int, word_start_at(s)).len()
}

/// A text has no more words than characters.
pub proof fn lemma_word_count_bound(s: Seq<char>)
    ensures
        word_count(s) <= s.len(),
{
    crate::positions::lemma_positions_below(s.len() as int, word_start_at(s));
}

/// Whether `c` is white space.
pub fn is_whitespace(c: char) -> (b: bool)
    ensures
        b == is_space(c),
{
    let n = c as u32;
    (0x09 <= n && n <= 0x0d) || n == 0x20 || n == 0x85 || n == 0xa0 || n == 0x1680 || (0x2000 <= n
        && n <= 0x200a) || n == 0x2028 || n == 0x2029 || n == 0x202f || n == 0x205f || n
        == 0x3000
}

/// Counts the words of `text`.
pub fn count_words(text: &str) -> (n: usize)
    ensures
        n == word_count(text@),
        n <= text@.len(),
{
    let len = text.unicode_len();
    if len == 0 {
        return 0;
    }
    let mut n: usize = 0;
    let mut after_space = true;
    let ghost pred = word_start_at(text@);
    for c in it: text.chars()
        invariant
            len == text@.len(),
            pred == word_start_at(text@),
            it.seq() == text@,
            n == positions_below(it.index@ as int, pred).len(),
            n <= it.index@,
            after_space == (it.index@ == 0 || is_space(text@[it.index@ - 1])),
    {
        let space = is_whitespace(c);
        if !space && after_space {
            n = n + 1;
        }
        after_space = space;
    }
    n
}

/// The first `k` items joined, with `sep` between neighbours.
pub open spec fn joined(items: Seq<&str>, sep: Seq<char>, k: int) -> Seq<char>
    decreases k,
{
    if k <= 0 {
        Seq::empty()
    } else if k == 1 {
        items[0]@
    } else {
        joined(items, sep, k - 1) + sep + items[k - 1]@
    }
}

/// Joins the items, with `sep` between neighbours.
pub fn join(items: &[&str], sep: &str) -> (s: String)
    ensures
        s@ == joined(items@, sep@, items@.len() as int),
{
    let mut s = String::new();
    let mut i: usize = 0;
    while i < items.len()
        invariant
            i <= items@.len(),
            s@ == joined(items@, sep@, i as int),
        decreases items@.len() - i,
    {
        if i > 0 {
            s.append(sep);
        }
        s.append(items[i]);
        proof {
            if i == 0 {
                assert(s@ =~= items@[0]@);
            }
        }
        i = i + 1;
    }
    s
}

/// The character of the decimal digit `d`.
pub open spec fn digit_char(d: int) -> char {
    if d == 0 {
        '0'
    } else if d == 1 {
        '1'
    } else if d == 2 {
        '2'
    } else if d == 3 {
        '3'
    } else if d == 4 {
        '4'
    } else if d == 5 {
        '5'
    } else if d == 6 {
        '6'
    } else if d == 7 {
        '7'
    } else if d == 8 {
        '8'
    } else {
        '9'
    }
}

/// The decimal digits of `n`, without leading zeros.
pub open spec fn decimal_digits(n: nat) -> Seq<char>
    decreases n,
{
    if n < 10 {
        seq![digit_char(n as int)]
    } else {
        decimal_digits(n / 10).push(digit_char((n % 10) as int))
    }
}

/// The digit `d` as a string.
fn digit_str(d: u64) -> (s: &'static str)
    requires
        d < 10,
    ensures
        s@ == seq![digit_char(d as int)],
{
    proof {
        reveal_strlit("0");
        reveal_strlit("1");
        reveal_strlit("2");
        reveal_strlit("3");
        reveal_strlit("4");
        reveal_strlit("5");
        reveal_strlit("6");
        reveal_strlit("7");
        reveal_strlit("8");
        reveal_strlit("9");
    }
    let s = if d == 0 {
        "0"
    } else if d == 1 {
        "1"
    } else if d == 2 {
        "2"
    } else if d == 3 {
        "3"
    } else if d == 4 {
        "4"
    } else if d == 5 {
        "5"
    } else if d == 6 {
        "6"
    } else if d == 7 {
        "7"
    } else if d == 8 {
        "8"
    } else {
        "9"
    };
    assert(s@ =~= seq![digit_char(d as int)]);
    s
}

/// Writes `n` in decimal digits.
pub fn decimal(n: u64) -> (s: String)
    ensures
        s@ == decimal_digits(n as nat),
    decreases n,
{
    if n < 10 {
        String::from_str(digit_str(n))
    } else {
        let mut s = decimal(n / 10);
        s.append(digit_str(n % 10));
        assert(s@ =~= decimal_digits(n as nat));
        s
    }
}

/// `digits` with zeros in front, up to a width of `width` characters.
pub open spec fn zero_padded(digits: Seq<char>, width: int) -> Seq<char>
    decreases width - digits.len(),
{
    if digits.len() >= width {
        digits
    } else {
        zero_padded(seq!['0'] + digits, width)
    }
}

/// Writes `n` in decimal digits, with zeros in front up to `width` characters.
pub fn decimal_padded(n: u64, width: usize) -> (s: String)
    ensures
        s@ == zero_padded(decimal_digits(n as nat), width as int),
{
    let mut s = decimal(n);
    let mut len = s.as_str().unicode_len();
    while len < width
        invariant
            len == s@.len(),
            zero_padded(s@, width as int) == zero_padded(decimal_digits(n as nat), width as int),
        decreases width - len,
    {
        let longer = String::from_str("0").concat(s.as_str());
        proof {
            reveal_strlit("0");
            assert("0"@ =~= seq!['0']);
        }
        s = longer;
        len = len + 1;
    }
    s
}

/// Whether `part` stands in `s` at position `at`.
pub open spec fn occurs_at(s: Seq<char>, part: Seq<char>, at: int) -> bool {
    0 <= at && at + part.len() <= s.len() && s.subrange(at, at + part.len()) == part
}

/// Whether `s` starts with `prefix`.
pub open spec fn has_prefix(s: Seq<char>, prefix: Seq<char>) -> bool {
    occurs_at(s, prefix, 0)
}

/// Whether `s` ends with `suffix`.
pub open spec fn has_suffix(s: Seq<char>, suffix: Seq<char>) -> bool {
    occurs_at(s, suffix, s.len() - suffix.len())
}

/// Whether `part` stands somewhere in `s`.
pub open spec fn has_part(s: Seq<char>, part: Seq<char>) -> bool {
    exists|at: int| occurs_at(s, part, at)
}

/// Whether `part`, of `part_len` characters, stands in `s`, of `len`
/// characters, at position `at`.
fn matches_at(s: &str, len: usize, part: &str, part_len: usize, at: usize) -> (b: bool)
    requires
        len == s@.len(),
        part_len == part@.len(),
    ensures
        b == occurs_at(s@, part@, at as int),
{
    if part_len > len || at > len - part_len {
        return false;
    }
    let mut i: usize = 0;
    while i < part_len
        invariant
            i <= part_len == part@.len(),
            len == s@.len(),
            at + part_len <= len,
            forall|k: int| 0 <= k < i ==> s@[at + k] == part@[k],
        decreases part_len - i,
    {
        if s.get_char(at + i) != part.get_char(i) {
            proof {
                let window = s@.subrange(at as int, at + part_len);
                assert(window[i as int] == s@[at + i]);
            }
            return false;
        }
        i = i + 1;
    }
    assert(s@.subrange(at as int, at + part_len) =~= part@);
    true
}

/// Whether `s` starts with `prefix`.
pub fn starts_with(s: &str, prefix: &str) -> (b: bool)
    ensures
        b == has_prefix(s@, prefix@),
{
    matches_at(s, s.unicode_len(), prefix, prefix.unicode_len(), 0)
}

/// Whether `s` ends with `suffix`.
pub fn ends_with(s: &str, suffix: &str) -> (b: bool)
    ensures
        b == has_suffix(s@, suffix@),
{
    let len = s.unicode_len();
    let suffix_len = suffix.unicode_len();
    if suffix_len > len {
        return false;
    }
    matches_at(s, len, suffix, suffix_len, len - suffix_len)
}

/// Whether `part` stands somewhere in `s`.
pub fn contains(s: &str, part: &str) -> (b: bool)
    ensures
        b == has_part(s@, part@),
{
    let len = s.unicode_len();
    let part_len = part.unicode_len();
    if part_len > len {
        return false;
    }
    let last = len - part_len;
    let mut at: usize = 0;
    loop
        invariant
            len == s@.len(),
            part_len == part@.len(),
            last == len - part_len,
            at <= last,
            forall|k: int| 0 <= k < at ==> !occurs_at(s@, part@, k),
        decreases last - at,
    {
        if matches_at(s, len, part, part_len, at) {
            return true;
        }
        if at == last {
            return false;
        }
        at = at + 1;
    }
}

/// The path of `name` in the directory `dir`, joined as paths are on Unix: an
/// absolute `name` stands for itself; otherwise `name` follows `dir`, with a
/// slash between them unless `dir` is empty or ends in one.
pub open spec fn path_in(dir: Seq<char>, name: Seq<char>) -> Seq<char> {
    if name.len() > 0 && name[0] == '/' {
        name
    } else if dir.len() == 0 || dir.last() == '/' {
        dir + name
    } else {
        dir + seq!['/'] + name
    }
}

/// The path of `name` in the directory `dir`.
pub fn join_path(dir: &str, name: &str) -> (path: String)
    ensures
        path@ == path_in(dir@, name@),
{
    let dir_len = dir.unicode_len();
    if name.unicode_len() > 0 && name.get_char(0) == '/' {
        return String::from_str(name);
    }
    let mut path = String::from_str(dir);
    if dir_len > 0 && dir.get_char(dir_len - 1) != '/' {
        proof {
            reveal_strlit("/");
            assert("/"@ =~= seq!['/']);
        }
        path.append("/");
    }
    path.append(name);
    path
}

} // verus!
