//! Character-level helpers over strings, each specified over `Seq<char>`.

use vstd::prelude::*;
use vstd::string::StrSliceExecFns;
use vstd::string::StringExecFns;

verus! {

/// Index of the last occurrence of `c` in `s`, if any.
pub open spec fn last_index_of(s: Seq<char>, c: char) -> Option<int>
    decreases s.len(),
{
    if s.len() == 0 {
        None
    } else if s.last() == c {
        Some(s.len() - 1)
    } else {
        last_index_of(s.drop_last(), c)
    }
}

/// Index of the first occurrence of `c` in `s`, if any.
pub open spec fn first_index_of(s: Seq<char>, c: char) -> Option<int>
    decreases s.len(),
{
    if s.len() == 0 {
        None
    } else if s[0] == c {
        Some(0)
    } else {
        match first_index_of(s.drop_first(), c) {
            Some(i) => Some(i + 1),
            None => None,
        }
    }
}

/// `s` without every trailing `c`.
pub open spec fn trim_end(s: Seq<char>, c: char) -> Seq<char>
    decreases s.len(),
{
    if s.len() > 0 && s.last() == c {
        trim_end(s.drop_last(), c)
    } else {
        s
    }
}

/// `s` without every leading `c`.
pub open spec fn trim_start(s: Seq<char>, c: char) -> Seq<char>
    decreases s.len(),
{
    if s.len() > 0 && s[0] == c {
        trim_start(s.drop_first(), c)
    } else {
        s
    }
}

/// `s` with every `from` replaced by `to`.
pub open spec fn map_char(s: Seq<char>, from: char, to: char) -> Seq<char> {
    s.map_values(|x: char| if x == from { to } else { x })
}

/// An optional machine index seen as a mathematical one.
pub open spec fn opt_index(o: Option<usize>) -> Option<int> {
    match o {
        Some(i) => Some(i as int),
        None => None,
    }
}

/// The last index found is a position of `c`, and no later position holds `c`.
pub proof fn lemma_last_index_of(s: Seq<char>, c: char)
    ensures
        match last_index_of(s, c) {
            Some(i) => 0 <= i < s.len() && s[i] == c && forall|j: int| i < j < s.len() ==> s[j] != c,
            None => !s.contains(c),
        },
    decreases s.len(),
{
    if s.len() > 0 {
        lemma_last_index_of(s.drop_last(), c);
        if s.last() != c {
            if let Some(i) = last_index_of(s.drop_last(), c) {
                assert forall|j: int| i < j < s.len() implies s[j] != c by {
                    if j < s.len() - 1 {
                        assert(s[j] == s.drop_last()[j]);
                    }
                }
            }
            if s.contains(c) {
                let k = choose|k: int| 0 <= k < s.len() && s[k] == c;
                assert(s.drop_last()[k] == c);
            }
        }
    }
}

/// The first index found is a position of `c`, and no earlier position holds `c`.
pub proof fn lemma_first_index_of(s: Seq<char>, c: char)
    ensures
        match first_index_of(s, c) {
            Some(i) => 0 <= i < s.len() && s[i] == c && forall|j: int| 0 <= j < i ==> s[j] != c,
            None => !s.contains(c),
        },
    decreases s.len(),
{
    if s.len() > 0 {
        lemma_first_index_of(s.drop_first(), c);
        if s[0] != c {
            match first_index_of(s.drop_first(), c) {
                Some(i) => {
                    assert forall|j: int| 0 <= j < i + 1 implies s[j] != c by {
                        if j > 0 {
                            assert(s[j] == s.drop_first()[j - 1]);
                        }
                    }
                },
                None => {
                    if s.contains(c) {
                        let k = choose|k: int| 0 <= k < s.len() && s[k] == c;
                        assert(s.drop_first()[k - 1] == c);
                    }
                },
            }
        }
    }
}

/// Appends one character to a string (`String::push`).
#[verifier::external_body]
pub(crate) fn push_char(s: &mut String, c: char)
    ensures
        final(s)@ == old(s)@.push(c),
{
    s.push(c);
}

/// The characters of `s`, in order.
pub fn chars_vec(s: &str) -> (v: Vec<char>)
    ensures
        v@ == s@,
{
    let mut v: Vec<char> = Vec::new();
    for ch in it: s.chars()
        invariant
            it.seq() == s@,
            v@ == s@.take(it.index() as int),
    {
        v.push(ch);
        assert(v@ == s@.take(it.index() + 1));
    }
    assert(s@.take(s@.len() as int) == s@);
    v
}

/// Finds the character index of the last `c` in `s`.
pub fn rfind_char(s: &str, c: char) -> (r: Option<usize>)
    ensures
        opt_index(r) == last_index_of(s@, c),
{
    let v = chars_vec(s);
    let mut j: usize = v.len();
    assert(s@.take(j as int) == s@);
    while j > 0
        invariant
            v@ == s@,
            j <= v@.len(),
            last_index_of(s@, c) == last_index_of(s@.take(j as int), c),
        decreases j,
    {
        assert(s@.take(j as int).drop_last() == s@.take(j - 1));
        if v[j - 1] == c {
            return Some(j - 1);
        }
        j = j - 1;
    }
    None
}

/// Finds the character index of the first `c` in `s`.
pub fn find_char(s: &str, c: char) -> (r: Option<usize>)
    ensures
        opt_index(r) == first_index_of(s@, c),
{
    let v = chars_vec(s);
    let mut i: usize = 0;
    assert(s@.skip(0) == s@);
    while i < v.len()
        invariant
            v@ == s@,
            i <= v@.len(),
            first_index_of(s@, c) == match first_index_of(s@.skip(i as int), c) {
                Some(k) => Some(k + i),
                None => None,
            },
        decreases v@.len() - i,
    {
        assert(s@.skip(i as int).drop_first() == s@.skip(i + 1));
        if v[i] == c {
            return Some(i);
        }
        i = i + 1;
    }
    None
}

/// Whether `c` occurs in `s`.
pub fn contains_char(s: &str, c: char) -> (r: bool)
    ensures
        r == s@.contains(c),
{
    proof {
        lemma_last_index_of(s@, c);
    }
    rfind_char(s, c).is_some()
}

/// Whether `s` begins with `c`.
pub fn starts_with_char(s: &str, c: char) -> (r: bool)
    ensures
        r == (s@.len() > 0 && s@[0] == c),
{
    let v = chars_vec(s);
    v.len() > 0 && v[0] == c
}

/// Whether `s` ends with `c`.
pub fn ends_with_char(s: &str, c: char) -> (r: bool)
    ensures
        r == (s@.len() > 0 && s@.last() == c),
{
    let v = chars_vec(s);
    v.len() > 0 && v[v.len() - 1] == c
}

/// Whether two strings hold the same characters.
pub fn str_eq(a: &str, b: &str) -> (r: bool)
    ensures
        r == (a@ == b@),
{
    let va = chars_vec(a);
    let vb = chars_vec(b);
    if va.len() != vb.len() {
        return false;
    }
    let mut i: usize = 0;
    while i < va.len()
        invariant
            va@ == a@,
            vb@ == b@,
            va@.len() == vb@.len(),
            i <= va@.len(),
            forall|k: int| 0 <= k < i ==> va@[k] == vb@[k],
        decreases va@.len() - i,
    {
        if va[i] != vb[i] {
            return false;
        }
        i = i + 1;
    }
    assert(va@ =~= vb@);
    true
}

/// `s` without every trailing `c` (`str::trim_end_matches` with one character).
pub fn trim_end_char(s: &str, c: char) -> (r: &str)
    ensures
        r@ == trim_end(s@, c),
{
    let v = chars_vec(s);
    let mut j: usize = v.len();
    assert(s@.take(j as int) == s@);
    while j > 0 && v[j - 1] == c
        invariant
            v@ == s@,
            j <= v@.len(),
            trim_end(s@, c) == trim_end(s@.take(j as int), c),
        decreases j,
    {
        assert(s@.take(j as int).drop_last() == s@.take(j - 1));
        j = j - 1;
    }
    s.substring_char(0, j)
}

/// `s` without every leading `c` (`str::trim_start_matches` with one character).
pub fn trim_start_char(s: &str, c: char) -> (r: &str)
    ensures
        r@ == trim_start(s@, c),
{
    let v = chars_vec(s);
    let mut i: usize = 0;
    assert(s@.skip(0) == s@);
    while i < v.len() && v[i] == c
        invariant
            v@ == s@,
            i <= v@.len(),
            trim_start(s@, c) == trim_start(s@.skip(i as int), c),
        decreases v@.len() - i,
    {
        assert(s@.skip(i as int).drop_first() == s@.skip(i + 1));
        i = i + 1;
    }
    assert(s@.skip(i as int) == s@.subrange(i as int, v@.len() as int));
    s.substring_char(i, v.len())
}

/// A new string holding the characters of `s`.
pub fn owned(s: &str) -> (r: String)
    ensures
        r@ == s@,
{
    String::from_str(s)
}

/// `a` followed by `b`, as a new string.
pub fn concat2(a: &str, b: &str) -> (r: String)
    ensures
        r@ == a@ + b@,
{
    let mut r = String::from_str(a);
    r.append(b);
    r
}

/// The pieces of `s` between occurrences of `c` (`str::split` with one character).
pub open spec fn split_on(s: Seq<char>, c: char) -> Seq<Seq<char>>
    decreases s.len(),
{
    match first_index_of(s, c) {
        Some(i) => if 0 <= i < s.len() {
            seq![s.take(i)] + split_on(s.skip(i + 1), c)
        } else {
            seq![s]
        },
        None => seq![s],
    }
}

/// The pieces joined back together with `c` between them.
pub open spec fn join_with(parts: Seq<Seq<char>>, c: char) -> Seq<char>
    decreases parts.len(),
{
    if parts.len() == 0 {
        Seq::empty()
    } else if parts.len() == 1 {
        parts[0]
    } else {
        parts[0] + seq![c] + join_with(parts.drop_first(), c)
    }
}

/// A position of `c` with no `c` before it is the first index of `c`.
pub proof fn lemma_first_index_of_at(s: Seq<char>, c: char, i: int)
    requires
        0 <= i < s.len(),
        s[i] == c,
        forall|j: int| 0 <= j < i ==> s[j] != c,
    ensures
        first_index_of(s, c) == Some(i),
{
    lemma_first_index_of(s, c);
    match first_index_of(s, c) {
        Some(k) => {
            if k < i {
                assert(s[k] != c);
            }
            if k > i {
                assert(s[i] != c);
            }
        },
        None => {
            assert(s.contains(c));
        },
    }
}

/// Splitting on `c` and joining with `c` gives the string back, and no piece holds `c`.
pub proof fn lemma_split_join(s: Seq<char>, c: char)
    ensures
        join_with(split_on(s, c), c) == s,
        split_on(s, c).len() >= 1,
        forall|k: int| 0 <= k < split_on(s, c).len() ==> !(#[trigger] split_on(s, c)[k]).contains(c),
    decreases s.len(),
{
    lemma_first_index_of(s, c);
    match first_index_of(s, c) {
        Some(i) => {
            let rest = s.skip(i + 1);
            lemma_split_join(rest, c);
            let parts = split_on(s, c);
            assert(parts.drop_first() =~= split_on(rest, c));
            assert(s.take(i) + seq![c] + rest =~= s);
            assert forall|k: int| 0 <= k < parts.len() implies !(#[trigger] parts[k]).contains(c) by {
                if k == 0 {
                    if s.take(i).contains(c) {
                        let j = choose|j: int| 0 <= j < s.take(i).len() && s.take(i)[j] == c;
                        assert(s[j] == c);
                    }
                } else {
                    assert(parts[k] == split_on(rest, c)[k - 1]);
                }
            }
        },
        None => {},
    }
}

/// The pieces of `s` between occurrences of `c`, in order.
pub fn split_char(s: &str, c: char) -> (r: Vec<&str>)
    ensures
        r@.map_values(|x: &str| x@) == split_on(s@, c),
{
    let v = chars_vec(s);
    let n = v.len();
    let mut parts: Vec<&str> = Vec::new();
    let mut start: usize = 0;
    let mut i: usize = 0;
    assert(s@.skip(0) == s@);
    assert(parts@.map_values(|x: &str| x@) + split_on(s@, c) =~= split_on(s@, c));
    while i < n
        invariant
            v@ == s@,
            n == v@.len(),
            start <= i <= n,
            forall|k: int| start <= k < i ==> s@[k] != c,
            parts@.map_values(|x: &str| x@) + split_on(s@.skip(start as int), c) == split_on(s@, c),
        decreases n - i,
    {
        if v[i] == c {
            let ghost rest = s@.skip(start as int);
            let ghost old_parts = parts@;
            proof {
                assert forall|j: int| 0 <= j < i - start implies rest[j] != c by {
                    assert(rest[j] == s@[start + j]);
                }
                lemma_first_index_of_at(rest, c, i - start);
                assert(rest.take(i - start) =~= s@.subrange(start as int, i as int));
                assert(rest.skip(i - start + 1) =~= s@.skip(i + 1));
            }
            let piece = s.substring_char(start, i);
            parts.push(piece);
            assert(parts@.map_values(|x: &str| x@) =~= old_parts.map_values(|x: &str| x@).push(piece@));
            assert(parts@.map_values(|x: &str| x@) + split_on(s@.skip(i + 1), c) =~= old_parts.map_values(
                |x: &str| x@,
            ) + split_on(rest, c));
            start = i + 1;
        }
        i = i + 1;
    }
    let ghost rest = s@.skip(start as int);
    let ghost old_parts = parts@;
    proof {
        lemma_first_index_of(rest, c);
        if rest.contains(c) {
            let k = choose|k: int| 0 <= k < rest.len() && rest[k] == c;
            assert(s@[start + k] == c);
        }
        assert(rest =~= s@.subrange(start as int, n as int));
    }
    let piece = s.substring_char(start, n);
    parts.push(piece);
    assert(parts@.map_values(|x: &str| x@) =~= old_parts.map_values(|x: &str| x@).push(piece@));
    assert(parts@.map_values(|x: &str| x@) =~= old_parts.map_values(|x: &str| x@) + split_on(rest, c));
    parts
}

} // verus!
