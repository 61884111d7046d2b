//! Path and class-name utilities, and the character replacement with escaping
//! that turns a device path into a single file name and back.


pub mod class_name;
pub mod device_path;

pub use class_name::ClassName;
pub use device_path::DevicePath;

use vstd::prelude::*;
use crate::text::chars_vec;
use crate::text::push_char;

verus! {

/// Separator of the components of a path on an Android device.
pub const DEVICE_PATH_SEP_CHAR: char = '/';

/// Character that stands for [`DEVICE_PATH_SEP_CHAR`] in a squashed path.
pub const REPLACED_DEVICE_PATH_SEP_CHAR: char = '%';

/// Character that escapes a literal replacement character in a squashed path.
pub const ESCAPE_CHAR: char = '\\';

/// What one character becomes when `replace` is replaced by `with`: `replace`
/// turns into `with`, a literal `with` is escaped as `\with`, and every other
/// character stays.
pub open spec fn replaced_char(c: char, replace: char, with: char) -> Seq<char> {
    if c == replace {
        seq![with]
    } else if c == with {
        seq![ESCAPE_CHAR, with]
    } else {
        seq![c]
    }
}

/// `s` with every `replace` turned into `with` and every literal `with` escaped.
pub open spec fn replaced(s: Seq<char>, replace: char, with: char) -> Seq<char>
    decreases s.len(),
{
    if s.len() == 0 {
        seq![]
    } else {
        replaced_char(s[0], replace, with) + replaced(s.drop_first(), replace, with)
    }
}

/// The inverse reading of [`replaced`]: an escaped `\with` gives a literal
/// `with`, a bare `with` gives `replace`, every other character stays.
pub open spec fn unreplaced(s: Seq<char>, replace: char, with: char) -> Seq<char>
    decreases s.len(),
{
    if s.len() == 0 {
        seq![]
    } else if s.len() >= 2 && s[0] == ESCAPE_CHAR && s[1] == with {
        seq![with] + unreplaced(s.skip(2), replace, with)
    } else if s[0] == with {
        seq![replace] + unreplaced(s.drop_first(), replace, with)
    } else {
        seq![s[0]] + unreplaced(s.drop_first(), replace, with)
    }
}

/// Whether an escape character stands right before a `c` somewhere in `s`.
pub open spec fn has_escape_before(s: Seq<char>, c: char) -> bool {
    exists|i: int| 0 <= i < s.len() - 1 && s[i] == ESCAPE_CHAR && #[trigger] s[i + 1] == c
}

/// Replacing distributes over appending one character.
pub proof fn lemma_replaced_push(s: Seq<char>, c: char, replace: char, with: char)
    ensures
        replaced(s.push(c), replace, with) == replaced(s, replace, with) + replaced_char(c, replace, with),
    decreases s.len(),
{
    if s.len() == 0 {
        assert(s.push(c).drop_first() =~= Seq::<char>::empty());
        assert(s.push(c)[0] == c);
        assert(replaced(Seq::<char>::empty(), replace, with) == Seq::<char>::empty());
        assert(replaced(s.push(c), replace, with) =~= replaced_char(c, replace, with));
    } else {
        assert(s.push(c).drop_first() =~= s.drop_first().push(c));
        lemma_replaced_push(s.drop_first(), c, replace, with);
        assert(replaced(s.push(c), replace, with) =~= replaced(s, replace, with) + replaced_char(c, replace, with));
    }
}

/// The first character of a replaced non-empty string.
proof fn lemma_replaced_first(s: Seq<char>, replace: char, with: char)
    requires
        s.len() > 0,
    ensures
        replaced(s, replace, with).len() > 0,
        replaced(s, replace, with)[0] == replaced_char(s[0], replace, with)[0],
{
}

/// After replacing, `replace` no longer occurs (as long as neither it nor the
/// escape character is the replacement).
pub proof fn lemma_replaced_free_of(s: Seq<char>, replace: char, with: char)
    requires
        replace != with,
        replace != ESCAPE_CHAR,
    ensures
        !replaced(s, replace, with).contains(replace),
    decreases s.len(),
{
    if s.len() > 0 {
        lemma_replaced_free_of(s.drop_first(), replace, with);
        let head = replaced_char(s[0], replace, with);
        let tail = replaced(s.drop_first(), replace, with);
        assert forall|i: int| 0 <= i < (head + tail).len() implies (head + tail)[i] != replace by {
            if i >= head.len() {
                assert((head + tail)[i] == tail[i - head.len()]);
            }
        }
    }
}

/// Reading a replaced string back gives the string itself, provided that
/// it never has an escape character right before `replace`, and that
/// the three characters involved are distinct.
pub proof fn lemma_unreplaced_replaced(s: Seq<char>, replace: char, with: char)
    requires
        replace != with,
        replace != ESCAPE_CHAR,
        with != ESCAPE_CHAR,
        !has_escape_before(s, replace),
    ensures
        unreplaced(replaced(s, replace, with), replace, with) == s,
    decreases s.len(),
{
    if s.len() > 0 {
        let rest = s.drop_first();
        assert(!has_escape_before(rest, replace)) by {
            if has_escape_before(rest, replace) {
                let i = choose|i: int| 0 <= i < rest.len() - 1 && rest[i] == ESCAPE_CHAR && #[trigger] rest[i + 1] == replace;
                assert(s[(i + 1) + 1] == replace);
            }
        }
        lemma_unreplaced_replaced(rest, replace, with);
        let r = replaced(rest, replace, with);
        let c = s[0];
        let whole = replaced(s, replace, with);
        assert(whole == replaced_char(c, replace, with) + r);
        if c == replace {
            assert(whole.drop_first() =~= r);
        } else if c == with {
            assert(whole.skip(2) =~= r);
        } else {
            assert(whole.drop_first() =~= r);
            if c == ESCAPE_CHAR && r.len() > 0 {
                lemma_replaced_first(rest, replace, with);
                assert(rest[0] != replace) by {
                    if rest[0] == replace {
                        assert(s[0int + 1] == replace);
                    }
                }
                assert(r[0] != with);
            }
        }
        assert(seq![c] + rest =~= s);
    }
}

/// `s` with every `replace` turned into `with` and every literal `with`
/// escaped with a backslash.
pub fn replace_char(s: &str, replace: char, with: char) -> (r: String)
    ensures
        r@ == replaced(s@, replace, with),
{
    let v = chars_vec(s);
    let mut out = String::new();
    let mut i: usize = 0;
    while i < v.len()
        invariant
            v@ == s@,
            i <= v@.len(),
            out@ == replaced(s@.take(i as int), replace, with),
        decreases v@.len() - i,
    {
        let c = v[i];
        proof {
            assert(s@.take(i + 1) == s@.take(i as int).push(c));
            lemma_replaced_push(s@.take(i as int), c, replace, with);
        }
        if c == replace {
            push_char(&mut out, with);
        } else if c == with {
            push_char(&mut out, ESCAPE_CHAR);
            push_char(&mut out, with);
        } else {
            push_char(&mut out, c);
        }
        assert(out@ == replaced(s@.take(i + 1), replace, with));
        i = i + 1;
    }
    assert(s@.take(i as int) == s@);
    out
}

/// The inverse of [`replace_char`]: `\with` becomes `with`, a bare `with`
/// becomes `replace`, everything else is kept.
pub fn unreplace_char(s: &str, replace: char, with: char) -> (r: String)
    ensures
        r@ == unreplaced(s@, replace, with),
{
    let v = chars_vec(s);
    let n = v.len();
    let mut out = String::new();
    let mut i: usize = 0;
    assert(s@.skip(0) == s@);
    while i < n
        invariant
            v@ == s@,
            n == v@.len(),
            i <= n,
            out@ + unreplaced(s@.skip(i as int), replace, with) == unreplaced(s@, replace, with),
        decreases n - i,
    {
        let ghost before = out@;
        let ghost rest = s@.skip(i as int);
        if v[i] == ESCAPE_CHAR && i + 1 < n && v[i + 1] == with {
            push_char(&mut out, with);
            assert(rest.skip(2) == s@.skip(i + 2));
            assert(out@ + unreplaced(s@.skip(i + 2), replace, with) =~= before + unreplaced(rest, replace, with));
            i = i + 2;
        } else if v[i] == with {
            push_char(&mut out, replace);
            assert(rest.drop_first() == s@.skip(i + 1));
            assert(out@ + unreplaced(s@.skip(i + 1), replace, with) =~= before + unreplaced(rest, replace, with));
            i = i + 1;
        } else {
            push_char(&mut out, v[i]);
            assert(rest.drop_first() == s@.skip(i + 1));
            assert(out@ + unreplaced(s@.skip(i + 1), replace, with) =~= before + unreplaced(rest, replace, with));
            i = i + 1;
        }
    }
    assert(out@ + unreplaced(s@.skip(i as int), replace, with) == out@ + Seq::<char>::empty());
    assert(out@ + Seq::<char>::empty() =~= out@);
    out
}

} // verus!
