//! Verified helpers over character sequences: prefix and substring tests,
//! equality of string slices, character search, and decimal rendering of
//! fixed-point scores.

use vstd::prelude::*;
use vstd::string::*;

verus! {

/// `p` is a prefix of `s`.
pub open spec fn seq_starts_with(s: Seq<char>, p: Seq<char>) -> bool {
    p.len() <= s.len() && s.subrange(0, p.len() as int) == p
}

/// `needle` occurs in `hay` as a contiguous substring.
pub open spec fn seq_contains_sub(hay: Seq<char>, needle: Seq<char>) -> bool {
    exists|i: int|
        0 <= i && i + needle.len() <= hay.len() && #[trigger] hay.subrange(
            i,
            i + needle.len() as int,
        ) == needle
}

/// Whether `s` starts with the prefix `p`.
pub fn str_starts_with(s: &str, p: &str) -> (r: bool)
    ensures
        r == seq_starts_with(s@, p@),
{
    let s_len = s.unicode_len();
    let p_len = p.unicode_len();
    if p_len > s_len {
        return false;
    }
    let mut i: usize = 0;
    while i < p_len
        invariant
            i <= p_len <= s_len,
            s_len == s@.len(),
            p_len == p@.len(),
            forall|j: int| 0 <= j < i ==> s@[j] == p@[j],
        decreases p_len - i,
    {
        if s.get_char(i) != p.get_char(i) {
            assert(!seq_starts_with(s@, p@)) by {
                if s@.subrange(0, p@.len() as int) == p@ {
                    assert(s@.subrange(0, p@.len() as int)[i as int] == p@[i as int]);
                }
            }
            return false;
        }
        i = i + 1;
    }
    assert(s@.subrange(0, p@.len() as int) =~= p@);
    true
}

/// Whether the two string slices hold the same characters.
pub fn str_eq(a: &str, b: &str) -> (r: bool)
    ensures
        r == (a@ == b@),
{
    let a_len = a.unicode_len();
    let b_len = b.unicode_len();
    if a_len != b_len {
        return false;
    }
    let mut i: usize = 0;
    while i < a_len
        invariant
            i <= a_len,
            a_len == a@.len(),
            a_len == b@.len(),
            forall|j: int| 0 <= j < i ==> a@[j] == b@[j],
        decreases a_len - i,
    {
        if a.get_char(i) != b.get_char(i) {
            assert(a@ != b@) by {
                if a@ == b@ {
                    assert(a@[i as int] == b@[i as int]);
                }
            }
            return false;
        }
        i = i + 1;
    }
    assert(a@ =~= b@);
    true
}

/// Whether `needle` occurs in `hay` at position `at`.
fn matches_at(hay: &str, needle: &str, at: usize) -> (r: bool)
    requires
        at + needle@.len() <= hay@.len(),
    ensures
        r == (hay@.subrange(at as int, at + needle@.len() as int) == needle@),
{
    let n_len = needle.unicode_len();
    let hay_len = hay.unicode_len();
    let mut i: usize = 0;
    while i < n_len
        invariant
            i <= n_len,
            n_len == needle@.len(),
            hay_len == hay@.len(),
            at + n_len <= hay_len,
            forall|j: int| 0 <= j < i ==> hay@[at + j] == needle@[j],
        decreases n_len - i,
    {
        if hay.get_char(at + i) != needle.get_char(i) {
            assert(hay@.subrange(at as int, at + needle@.len() as int) != needle@) by {
                if hay@.subrange(at as int, at + needle@.len() as int) == needle@ {
                    assert(hay@.subrange(at as int, at + needle@.len() as int)[i as int]
                        == needle@[i as int]);
                }
            }
            return false;
        }
        i = i + 1;
    }
    assert(hay@.subrange(at as int, at + needle@.len() as int) =~= needle@);
    true
}

/// Whether `needle` occurs in `hay` as a contiguous substring.
pub fn str_contains_sub(hay: &str, needle: &str) -> (r: bool)
    ensures
        r == seq_contains_sub(hay@, needle@),
{
    let hay_len = hay.unicode_len();
    let needle_len = needle.unicode_len();
    if needle_len > hay_len {
        assert(!seq_contains_sub(hay@, needle@));
        return false;
    }
    if needle_len == 0 {
        assert(seq_contains_sub(hay@, needle@)) by {
            assert(0 <= 0int && 0int + needle@.len() <= hay@.len() && hay@.subrange(
                0,
                0 + needle@.len() as int,
            ) =~= needle@);
        }
        return true;
    }
    let mut i: usize = 0;
    while i <= hay_len - needle_len
        invariant
            1 <= needle_len <= hay_len,
            i <= hay_len - needle_len + 1,
            hay_len == hay@.len(),
            needle_len == needle@.len(),
            forall|j: int|
                0 <= j < i ==> #[trigger] hay@.subrange(j, j + needle@.len() as int) != needle@,
        decreases hay_len - needle_len - i + 1,
    {
        if matches_at(hay, needle, i) {
            assert(seq_contains_sub(hay@, needle@)) by {
                assert(0 <= i as int && i as int + needle@.len() <= hay@.len()
                    && hay@.subrange(i as int, i as int + needle@.len() as int) == needle@);
            }
            return true;
        }
        i = i + 1;
    }
    false
}

/// The position of the first occurrence of `c` in `s` at or after `from`.
pub fn find_char_from(s: &str, from: usize, c: char) -> (r: Option<usize>)
    requires
        from <= s@.len(),
    ensures
        match r {
            Some(i) => from <= i < s@.len() && s@[i as int] == c && forall|j: int|
                from <= j < i ==> s@[j] != c,
            None => forall|j: int| from <= j < s@.len() ==> s@[j] != c,
        },
{
    let s_len = s.unicode_len();
    let mut i: usize = from;
    while i < s_len
        invariant
            from <= i <= s_len,
            s_len == s@.len(),
            forall|j: int| from <= j < i ==> s@[j] != c,
        decreases s_len - i,
    {
        if s.get_char(i) == c {
            return Some(i);
        }
        i = i + 1;
    }
    None
}

/// `s` split on `c`: the pieces between the occurrences of `c`, in order;
/// a string without `c` is one piece, and the result is never empty.
pub open spec fn split_on(s: Seq<char>, c: char) -> Seq<Seq<char>>
    decreases s.len(),
{
    if s.len() == 0 {
        seq![Seq::<char>::empty()]
    } else if s[0] == c {
        seq![Seq::<char>::empty()] + split_on(s.drop_first(), c)
    } else {
        let rest = split_on(s.drop_first(), c);
        seq![seq![s[0]] + rest[0]] + rest.drop_first()
    }
}

/// Splitting yields at least one piece.
pub proof fn lemma_split_on_nonempty(s: Seq<char>, c: char)
    ensures
        split_on(s, c).len() >= 1,
    decreases s.len(),
{
    if s.len() > 0 {
        lemma_split_on_nonempty(s.drop_first(), c);
    }
}

/// With no occurrence of the separator, the whole string is the one piece.
proof fn lemma_split_on_none(s: Seq<char>, c: char)
    requires
        forall|j: int| 0 <= j < s.len() ==> s[j] != c,
    ensures
        split_on(s, c) =~= seq![s],
    decreases s.len(),
{
    if s.len() == 0 {
        assert(s =~= Seq::<char>::empty());
    } else {
        lemma_split_on_none(s.drop_first(), c);
        let rest = split_on(s.drop_first(), c);
        assert(rest =~= seq![s.drop_first()]);
        assert(seq![s[0]] + s.drop_first() =~= s);
        assert(split_on(s, c) =~= seq![s]);
    }
}

/// At the first occurrence of the separator, the split is the prefix piece
/// followed by the split of the suffix.
proof fn lemma_split_on_first(s: Seq<char>, c: char, i: int)
    requires
        0 <= i < s.len(),
        s[i] == c,
        forall|j: int| 0 <= j < i ==> s[j] != c,
    ensures
        split_on(s, c) =~= seq![s.subrange(0, i)] + split_on(s.subrange(i + 1, s.len() as int), c),
    decreases s.len(),
{
    if i == 0 {
        assert(s.drop_first() =~= s.subrange(1, s.len() as int));
        assert(s.subrange(0, 0) =~= Seq::<char>::empty());
    } else {
        let d = s.drop_first();
        assert(d[i - 1] == c);
        assert(forall|j: int| 0 <= j < i - 1 ==> d[j] != c);
        lemma_split_on_first(d, c, i - 1);
        lemma_split_on_nonempty(d.subrange(i, d.len() as int), c);
        let rest = split_on(d, c);
        assert(rest =~= seq![d.subrange(0, i - 1)] + split_on(d.subrange(i, d.len() as int), c));
        assert(seq![s[0]] + rest[0] =~= s.subrange(0, i)) by {
            assert(rest[0] == d.subrange(0, i - 1));
        }
        assert(d.subrange(i, d.len() as int) =~= s.subrange(i + 1, s.len() as int));
        assert(rest.drop_first() =~= split_on(s.subrange(i + 1, s.len() as int), c));
    }
}

/// Split a string on a separator character.
pub fn split_on_char(s: &str, c: char) -> (r: Vec<String>)
    ensures
        r@.map_values(|x: String| x@) == split_on(s@, c),
    decreases s@.len(),
{
    let s_len = s.unicode_len();
    match find_char_from(s, 0, c) {
        Some(i) => {
            proof {
                lemma_split_on_first(s@, c, i as int);
            }
            let head = s.substring_char(0, i).to_owned();
            let tail = s.substring_char(i + 1, s_len);
            let mut rest = split_on_char(tail, c);
            rest.insert(0, head);
            proof {
                assert(rest@.map_values(|x: String| x@) =~= split_on(s@, c));
            }
            rest
        },
        None => {
            let mut r: Vec<String> = Vec::new();
            r.push(s.to_owned());
            proof {
                lemma_split_on_none(s@, c);
                assert(r@.map_values(|x: String| x@) =~= split_on(s@, c));
            }
            r
        },
    }
}

/// The character for a decimal digit.
pub open spec fn digit_char(d: int) -> char {
    if d == 0 {
        '0'
    } else if d == 1 {
        '1'
    } else if d == 2 {
        '2'
    } else if d == 3 {
        '3'
    } else if d == 4 {
        '4'
    } else if d == 5 {
        '5'
    } else if d == 6 {
        '6'
    } else if d == 7 {
        '7'
    } else if d == 8 {
        '8'
    } else {
        '9'
    }
}

/// A one-character string slice holding the decimal digit `d`.
pub fn digit_str(d: u64) -> (r: &'static str)
    requires
        d < 10,
    ensures
        r@ =~= seq![digit_char(d as int)],
{
    proof {
        reveal_strlit("0");
        reveal_strlit("1");
        reveal_strlit("2");
        reveal_strlit("3");
        reveal_strlit("4");
        reveal_strlit("5");
        reveal_strlit("6");
        reveal_strlit("7");
        reveal_strlit("8");
        reveal_strlit("9");
    }
    if d == 0 {
        "0"
    } else if d == 1 {
        "1"
    } else if d == 2 {
        "2"
    } else if d == 3 {
        "3"
    } else if d == 4 {
        "4"
    } else if d == 5 {
        "5"
    } else if d == 6 {
        "6"
    } else if d == 7 {
        "7"
    } else if d == 8 {
        "8"
    } else {
        "9"
    }
}

/// A fixed-point score rendered with two decimals, rounding half up:
/// `8550` becomes `0.86`, `10000` becomes `1.00`.
pub open spec fn spec_render_score(score: int) -> Seq<char> {
    let r = (score + 50) / 100;
    if r >= 100 {
        "1.00"@
    } else {
        "0."@ + seq![digit_char(r / 10), digit_char(r % 10)]
    }
}

/// Render a fixed-point score (`10000` stands for 1.0) with two decimals.
pub fn render_score(score: u64) -> (r: String)
    requires
        score <= 10000,
    ensures
        r@ == spec_render_score(score as int),
{
    let rounded = (score + 50) / 100;
    if rounded >= 100 {
        let r: String = "1.00".to_owned();
        r
    } else {
        let mut r: String = "0.".to_owned();
        r.append(digit_str(rounded / 10));
        r.append(digit_str(rounded % 10));
        assert(r@ =~= spec_render_score(score as int));
        r
    }
}

/// An element-wise copy of a vector of strings.
pub fn clone_string_vec(v: &Vec<String>) -> (r: Vec<String>)
    ensures
        r@ == v@,
{
    let mut r: Vec<String> = Vec::new();
    let mut i: usize = 0;
    while i < v.len()
        invariant
            i <= v@.len(),
            r@ =~= v@.subrange(0, i as int),
        decreases v@.len() - i,
    {
        r.push(v[i].clone());
        assert(r@ =~= v@.subrange(0, i + 1));
        i = i + 1;
    }
    assert(r@ =~= v@);
    r
}

/// The decimal representation of a natural number.
pub open spec fn dec_str_of(n: int) -> Seq<char>
    decreases n,
{
    if n < 10 {
        seq![digit_char(n)]
    } else {
        dec_str_of(n / 10) + seq![digit_char(n % 10)]
    }
}

/// The Unicode lowercase form of a character sequence.
pub uninterp spec fn lower_of(s: Seq<char>) -> Seq<char>;

/// Relies on `str::to_lowercase`: the result depends on the characters
/// alone.
#[verifier::external_body]
pub(crate) fn to_lowercase_string(s: &str) -> (r: String)
    ensures
        r@ == lower_of(s@),
{
    s.to_lowercase()
}

/// The Unicode uppercase form of a character sequence.
pub uninterp spec fn upper_of(s: Seq<char>) -> Seq<char>;

/// Relies on `str::to_uppercase`: the result depends on the characters
/// alone.
#[verifier::external_body]
pub(crate) fn to_uppercase_string(s: &str) -> (r: String)
    ensures
        r@ == upper_of(s@),
{
    s.to_uppercase()
}

/// Render a number in decimal.
pub fn u64_to_string(n: u64) -> (r: String)
    ensures
        r@ == dec_str_of(n as int),
    decreases n,
{
    if n < 10 {
        let d = digit_str(n);
        let r = d.to_owned();
        assert(r@ =~= dec_str_of(n as int));
        r
    } else {
        let mut r = u64_to_string(n / 10);
        r.append(digit_str(n % 10));
        assert(r@ =~= dec_str_of(n as int));
        r
    }
}

} // verus!
