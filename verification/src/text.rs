//! Verified text utilities for chord parsing and command-parameter
//! substitution: ASCII case folding, whitespace trimming, splitting on `+`,
//! and literal search-and-replace.

use vstd::prelude::*;
use vstd::string::StrSliceExecFns;
use vstd::string::StringExecFns;

verus! {

/// ASCII case folding of one character: uppercase letters map to lowercase,
/// everything else is unchanged.
pub open spec fn lower_char(c: char) -> char {
    if 65 <= c as u32 && c as u32 <= 90 {
        (((c as u32) + 32) as u8) as char
    } else {
        c
    }
}

/// A character sequence with every character case-folded by [`lower_char`].
pub open spec fn fold_lower(s: Seq<char>) -> Seq<char> {
    Seq::new(s.len(), |i: int| lower_char(s[i]))
}

/// The whitespace characters stripped by [`trimmed`].
pub open spec fn is_space_char(c: char) -> bool {
    c == ' ' || c == '\t' || c == '\n' || c == '\r'
}

pub open spec fn trim_front(s: Seq<char>) -> Seq<char>
    decreases s.len(),
{
    if s.len() > 0 && is_space_char(s[0]) {
        trim_front(s.drop_first())
    } else {
        s
    }
}

pub open spec fn trim_back(s: Seq<char>) -> Seq<char>
    decreases s.len(),
{
    if s.len() > 0 && is_space_char(s.last()) {
        trim_back(s.drop_last())
    } else {
        s
    }
}

/// `s` with leading and trailing whitespace removed.
pub open spec fn trimmed(s: Seq<char>) -> Seq<char> {
    trim_back(trim_front(s))
}

pub open spec fn has_plus(s: Seq<char>) -> bool {
    exists|i: int| 0 <= i < s.len() && s[i] == '+'
}

pub open spec fn first_plus_index(s: Seq<char>) -> int
    decreases s.len(),
{
    if s.len() == 0 {
        0
    } else if s[0] == '+' {
        0
    } else {
        1 + first_plus_index(s.drop_first())
    }
}

pub proof fn lemma_first_plus_index(s: Seq<char>)
    requires
        has_plus(s),
    ensures
        0 <= first_plus_index(s) < s.len(),
        s[first_plus_index(s)] == '+',
        forall|j: int| 0 <= j < first_plus_index(s) ==> s[j] != '+',
    decreases s.len(),
{
    if s[0] != '+' {
        let i = choose|i: int| 0 <= i < s.len() && s[i] == '+';
        assert(s.drop_first()[i - 1] == '+');
        lemma_first_plus_index(s.drop_first());
        assert forall|j: int| 0 <= j < first_plus_index(s) implies s[j] != '+' by {
            if j > 0 {
                assert(s.drop_first()[j - 1] != '+');
            }
        }
    }
}

/// The parts of `s` split on every `+`, in order; splitting a string with no
/// `+` yields that string as its only part.
pub open spec fn split_plus(s: Seq<char>) -> Seq<Seq<char>>
    decreases s.len(),
    via split_plus_decreases
{
    if has_plus(s) {
        seq![s.take(first_plus_index(s))] + split_plus(s.skip(first_plus_index(s) + 1))
    } else {
        seq![s]
    }
}

#[via_fn]
proof fn split_plus_decreases(s: Seq<char>) {
    if has_plus(s) {
        lemma_first_plus_index(s);
    }
}

pub proof fn lemma_split_plus_nonempty(s: Seq<char>)
    ensures
        split_plus(s).len() >= 1,
{
    if has_plus(s) {
        lemma_first_plus_index(s);
    }
}

/// `s` with every non-overlapping occurrence of `from` replaced by `to`,
/// scanning left to right; an empty pattern leaves `s` unchanged.
pub open spec fn replace_seq(s: Seq<char>, from: Seq<char>, to: Seq<char>) -> Seq<char>
    decreases s.len(),
{
    if from.len() == 0 {
        s
    } else if s.len() < from.len() {
        s
    } else if s.take(from.len() as int) == from {
        to + replace_seq(s.skip(from.len() as int), from, to)
    } else {
        seq![s[0]] + replace_seq(s.drop_first(), from, to)
    }
}

/// ASCII case folding of one character.
pub fn to_lower_char(c: char) -> (r: char)
    ensures
        r == lower_char(c),
{
    let u = c as u32;
    if 65 <= u && u <= 90 {
        ((u + 32) as u8) as char
    } else {
        c
    }
}

/// Exact equality of two string slices.
pub fn str_eq(a: &str, b: &str) -> (r: bool)
    ensures
        r == (a@ == b@),
{
    let alen = a.unicode_len();
    let blen = b.unicode_len();
    if alen != blen {
        return false;
    }
    let mut i: usize = 0;
    while i < alen
        invariant
            alen == a@.len(),
            alen == b@.len(),
            0 <= i <= alen,
            forall|j: int| 0 <= j < i ==> a@[j] == b@[j],
        decreases alen - i,
    {
        if a.get_char(i) != b.get_char(i) {
            return false;
        }
        i = i + 1;
    }
    proof {
        assert(a@ =~= b@);
    }
    true
}

/// Whether `a`, case-folded, equals `b` exactly.
pub fn str_eq_folded(a: &str, b: &str) -> (r: bool)
    ensures
        r == (fold_lower(a@) == b@),
{
    let alen = a.unicode_len();
    let blen = b.unicode_len();
    if alen != blen {
        return false;
    }
    let mut i: usize = 0;
    while i < alen
        invariant
            alen == a@.len(),
            alen == b@.len(),
            0 <= i <= alen,
            forall|j: int| 0 <= j < i ==> lower_char(a@[j]) == b@[j],
        decreases alen - i,
    {
        if to_lower_char(a.get_char(i)) != b.get_char(i) {
            return false;
        }
        i = i + 1;
    }
    proof {
        assert(fold_lower(a@) =~= b@);
    }
    true
}

/// Whether `a` and `b` are equal after case-folding both.
pub fn str_eq_fold_both(a: &str, b: &str) -> (r: bool)
    ensures
        r == (fold_lower(a@) == fold_lower(b@)),
{
    let alen = a.unicode_len();
    let blen = b.unicode_len();
    if alen != blen {
        proof {
            assert(fold_lower(a@).len() == a@.len());
            assert(fold_lower(b@).len() == b@.len());
        }
        return false;
    }
    let mut i: usize = 0;
    while i < alen
        invariant
            alen == a@.len(),
            alen == b@.len(),
            0 <= i <= alen,
            forall|j: int| 0 <= j < i ==> lower_char(a@[j]) == lower_char(b@[j]),
        decreases alen - i,
    {
        if to_lower_char(a.get_char(i)) != to_lower_char(b.get_char(i)) {
            proof {
                assert(fold_lower(a@)[i as int] == lower_char(a@[i as int]));
                assert(fold_lower(b@)[i as int] == lower_char(b@[i as int]));
            }
            return false;
        }
        i = i + 1;
    }
    proof {
        assert(fold_lower(a@) =~= fold_lower(b@));
    }
    true
}

proof fn lemma_trim_front_skip(s: Seq<char>, a: int)
    requires
        0 <= a <= s.len(),
        forall|j: int| 0 <= j < a ==> is_space_char(s[j]),
        a == s.len() || !is_space_char(s[a]),
    ensures
        trim_front(s) == s.skip(a),
    decreases a,
{
    if a == 0 {
        assert(s.skip(0) =~= s);
    } else {
        lemma_trim_front_skip(s.drop_first(), a - 1);
        assert(s.drop_first().skip(a - 1) =~= s.skip(a));
    }
}

proof fn lemma_trim_back_take(s: Seq<char>, b: int)
    requires
        0 <= b <= s.len(),
        forall|j: int| b <= j < s.len() ==> is_space_char(s[j]),
        b == 0 || !is_space_char(s[b - 1]),
    ensures
        trim_back(s) == s.take(b),
    decreases s.len(),
{
    if b == s.len() {
        assert(s.take(b) =~= s);
    } else {
        assert(is_space_char(s.last()));
        lemma_trim_back_take(s.drop_last(), b);
        assert(s.drop_last().take(b) =~= s.take(b));
    }
}

/// `s` with leading and trailing whitespace removed.
pub fn trim(s: &str) -> (r: &str)
    ensures
        r@ == trimmed(s@),
{
    let len = s.unicode_len();
    let mut a: usize = 0;
    while a < len && is_space(s.get_char(a))
        invariant
            len == s@.len(),
            0 <= a <= len,
            forall|j: int| 0 <= j < a ==> is_space_char(s@[j]),
        decreases len - a,
    {
        a = a + 1;
    }
    let mut b: usize = len;
    while b > a && is_space(s.get_char(b - 1))
        invariant
            len == s@.len(),
            a <= b <= len,
            forall|j: int| 0 <= j < a ==> is_space_char(s@[j]),
            a == len || !is_space_char(s@[a as int]),
            forall|j: int| b <= j < len ==> is_space_char(s@[j]),
        decreases b,
    {
        b = b - 1;
    }
    proof {
        lemma_trim_front_skip(s@, a as int);
        let rest = s@.skip(a as int);
        lemma_trim_back_take(rest, b - a);
        assert(rest.take(b - a) =~= s@.subrange(a as int, b as int));
    }
    s.substring_char(a, b)
}

/// Whether `c` is whitespace for the purposes of [`trim`].
pub fn is_space(c: char) -> (r: bool)
    ensures
        r == is_space_char(c),
{
    c == ' ' || c == '\t' || c == '\n' || c == '\r'
}

/// The parts of `s` split on every `+`, in order.
pub fn split_on_plus(s: &str) -> (parts: Vec<String>)
    ensures
        parts@.len() == split_plus(s@).len(),
        forall|i: int| 0 <= i < parts@.len() ==> #[trigger] parts@[i]@ == split_plus(s@)[i],
    decreases s@.len(),
{
    let len = s.unicode_len();
    let mut i: usize = 0;
    while i < len && s.get_char(i) != '+'
        invariant
            len == s@.len(),
            0 <= i <= len,
            forall|j: int| 0 <= j < i ==> s@[j] != '+',
        decreases len - i,
    {
        i = i + 1;
    }
    if i < len {
        proof {
            lemma_first_plus_index(s@);
            let fpi = first_plus_index(s@);
            if fpi < i {
                assert(s@[fpi] != '+');
            }
            if i < fpi {
                assert(s@[i as int] != '+');
            }
        }
        let head = s.substring_char(0, i);
        let tail = s.substring_char(i + 1, len);
        let mut rest = split_on_plus(tail);
        rest.insert(0, head.to_owned());
        proof {
            assert(tail@ =~= s@.skip(i + 1));
            assert(head@ =~= s@.take(i as int));
        }
        rest
    } else {
        proof {
            if has_plus(s@) {
                let k = choose|k: int| 0 <= k < s@.len() && s@[k] == '+';
                assert(s@[k] != '+');
            }
        }
        let mut parts: Vec<String> = Vec::new();
        parts.push(s.to_owned());
        parts
    }
}

/// `s` with every non-overlapping occurrence of `from` replaced by `to`,
/// scanning left to right.
pub fn replace_all(s: &str, from: &str, to: &str) -> (r: String)
    ensures
        r@ == replace_seq(s@, from@, to@),
{
    let slen = s.unicode_len();
    let flen = from.unicode_len();
    if flen == 0 {
        return s.to_owned();
    }
    let mut out = String::new();
    let mut i: usize = 0;
    proof {
        assert(s@.skip(0) =~= s@);
        assert(out@ + replace_seq(s@.skip(0), from@, to@) =~= replace_seq(s@, from@, to@));
    }
    if flen <= slen {
        while i <= slen - flen
            invariant
                slen == s@.len(),
                flen == from@.len(),
                1 <= flen <= slen,
                0 <= i <= slen,
                replace_seq(s@, from@, to@) == out@ + replace_seq(
                    s@.skip(i as int),
                    from@,
                    to@,
                ),
            decreases slen - i,
        {
            let ghost rest = s@.skip(i as int);
            let ghost out0 = out@;
            let window = s.substring_char(i, i + flen);
            proof {
                assert(window@ =~= rest.take(flen as int));
            }
            if str_eq(window, from) {
                out.append(to);
                proof {
                    assert(rest.skip(flen as int) =~= s@.skip(i + flen));
                    assert((out0 + to@) + replace_seq(s@.skip(i + flen), from@, to@) =~= out0
                        + replace_seq(rest, from@, to@));
                }
                i = i + flen;
            } else {
                let c = s.substring_char(i, i + 1);
                out.append(c);
                proof {
                    assert(c@ =~= seq![rest[0]]);
                    assert(rest.drop_first() =~= s@.skip(i + 1));
                    assert((out0 + c@) + replace_seq(s@.skip(i + 1), from@, to@) =~= out0
                        + replace_seq(rest, from@, to@));
                }
                i = i + 1;
            }
        }
    }
    let tail = s.substring_char(i, slen);
    out.append(tail);
    proof {
        assert(s@.skip(i as int) =~= tail@);
    }
    out
}

} // verus!
