//! A boolean that may also be unknown, with its numeric database encoding.

use vstd::prelude::*;
use vstd::std_specs::convert::FromSpecImpl;
use vstd::std_specs::ops::BitAndSpecImpl;
use vstd::std_specs::ops::BitOrSpecImpl;
use core::ops::BitAnd;
use core::ops::BitOr;

verus! {

/// Numeric encoding of [`UnknownBool::True`].
pub const UB_TRUE: i32 = 1;

/// Numeric encoding of [`UnknownBool::False`].
pub const UB_FALSE: i32 = -1;

/// Numeric encoding of [`UnknownBool::Unknown`].
pub const UB_UNKNOWN: i32 = 0;

/// A three-valued boolean: true, false, or not (yet) known. Its numeric
/// encoding (1, -1, 0) is given by [`UnknownBool::to_numeric`].
#[derive(PartialEq, Eq, Structural, Debug, Clone, Copy)]
pub enum UnknownBool {
    Unknown,
    True,
    False,
}

/// An `UnknownBool` is an optional boolean: `None` when unknown.
impl View for UnknownBool {
    type V = Option<bool>;

    open spec fn view(&self) -> Option<bool> {
        match self {
            UnknownBool::Unknown => None,
            UnknownBool::True => Some(true),
            UnknownBool::False => Some(false),
        }
    }
}

impl UnknownBool {
    /// The value that a numeric encoding decodes to; every number that is
    /// not one of the three encodings decodes to `Unknown`.
    pub open spec fn spec_from_numeric(num: i32) -> UnknownBool {
        if num == UB_UNKNOWN {
            UnknownBool::Unknown
        } else if num == UB_FALSE {
            UnknownBool::False
        } else if num == UB_TRUE {
            UnknownBool::True
        } else {
            UnknownBool::Unknown
        }
    }

    /// The numeric encoding of a value.
    pub open spec fn spec_to_numeric(self) -> i32 {
        match self {
            UnknownBool::Unknown => UB_UNKNOWN,
            UnknownBool::False => UB_FALSE,
            UnknownBool::True => UB_TRUE,
        }
    }

    /// The known value of a boolean.
    pub open spec fn spec_from_bool(b: bool) -> UnknownBool {
        if b {
            UnknownBool::True
        } else {
            UnknownBool::False
        }
    }

    /// The value of an optional boolean: unknown when absent.
    pub open spec fn spec_from_option(o: Option<bool>) -> UnknownBool {
        match o {
            None => UnknownBool::Unknown,
            Some(b) => UnknownBool::spec_from_bool(b),
        }
    }

    /// Left-to-right conjunction: false and unknown on the left decide the
    /// result, true on the left yields the right operand.
    pub open spec fn spec_and(self, rhs: UnknownBool) -> UnknownBool {
        match self {
            UnknownBool::False => UnknownBool::False,
            UnknownBool::Unknown => UnknownBool::Unknown,
            UnknownBool::True => rhs,
        }
    }

    /// Disjunction: true if either side is true, false if both are false,
    /// unknown otherwise.
    pub open spec fn spec_or(self, rhs: UnknownBool) -> UnknownBool {
        match self {
            UnknownBool::True => UnknownBool::True,
            UnknownBool::Unknown => match rhs {
                UnknownBool::Unknown => UnknownBool::Unknown,
                UnknownBool::False => UnknownBool::Unknown,
                UnknownBool::True => UnknownBool::True,
            },
            UnknownBool::False => rhs,
        }
    }

    /// Decodes a numeric encoding.
    pub fn from_numeric(num: i32) -> (r: UnknownBool)
        ensures
            r == UnknownBool::spec_from_numeric(num),
    {
        UnknownBool::from(num)
    }

    /// The numeric encoding of this value.
    pub fn to_numeric(&self) -> (r: i32)
        ensures
            r == self.spec_to_numeric(),
    {
        match self {
            UnknownBool::Unknown => UB_UNKNOWN,
            UnknownBool::False => UB_FALSE,
            UnknownBool::True => UB_TRUE,
        }
    }

    #[inline]
    pub fn is_known(&self) -> (r: bool)
        ensures
            r == (*self != UnknownBool::Unknown),
            r == self@ is Some,
    {
        *self != UnknownBool::Unknown
    }

    #[inline]
    pub fn is_unknown(&self) -> (r: bool)
        ensures
            r == (*self == UnknownBool::Unknown),
            r == self@ is None,
    {
        *self == UnknownBool::Unknown
    }

    #[inline]
    pub fn is_true(&self) -> (r: bool)
        ensures
            r == (*self == UnknownBool::True),
            r == (self@ == Some(true)),
    {
        *self == UnknownBool::True
    }

    #[inline]
    pub fn is_false(&self) -> (r: bool)
        ensures
            r == (*self == UnknownBool::False),
            r == (self@ == Some(false)),
    {
        *self == UnknownBool::False
    }

    #[inline]
    pub fn is_false_or_unknown(&self) -> (r: bool)
        ensures
            r == (*self != UnknownBool::True),
    {
        self.is_false() || self.is_unknown()
    }

    #[inline]
    pub fn is_true_or_unknown(&self) -> (r: bool)
        ensures
            r == (*self != UnknownBool::False),
    {
        self.is_true() || self.is_unknown()
    }

    #[inline]
    pub fn set(&mut self, val: bool)
        ensures
            *final(self) == UnknownBool::spec_from_bool(val),
            final(self)@ == Some(val),
    {
        *self = UnknownBool::from(val);
    }

    #[inline]
    pub fn set_false(&mut self)
        ensures
            *final(self) == UnknownBool::False,
    {
        *self = UnknownBool::False;
    }

    #[inline]
    pub fn set_true(&mut self)
        ensures
            *final(self) == UnknownBool::True,
    {
        *self = UnknownBool::True;
    }

    #[inline]
    pub fn set_unknown(&mut self)
        ensures
            *final(self) == UnknownBool::Unknown,
    {
        *self = UnknownBool::Unknown;
    }

    /// The text that this value displays as: `unknown`, `true` or `false`.
    pub open spec fn display_text(self) -> Seq<char> {
        match self {
            UnknownBool::Unknown => "unknown"@,
            UnknownBool::True => "true"@,
            UnknownBool::False => "false"@,
        }
    }

    /// This value as it is displayed.
    pub fn to_display_string(&self) -> (r: String)
        ensures
            r@ == self.display_text(),
    {
        let s: &str = match self {
            UnknownBool::Unknown => "unknown",
            UnknownBool::True => "true",
            UnknownBool::False => "false",
        };
        crate::text::owned(s)
    }
}

impl Default for UnknownBool {
    fn default() -> (r: Self)
        ensures
            r == UnknownBool::Unknown,
    {
        UnknownBool::Unknown
    }
}

impl From<i32> for UnknownBool {
    fn from(value: i32) -> (r: Self) {
        if value == UB_UNKNOWN {
            UnknownBool::Unknown
        } else if value == UB_FALSE {
            UnknownBool::False
        } else if value == UB_TRUE {
            UnknownBool::True
        } else {
            UnknownBool::Unknown
        }
    }
}

impl FromSpecImpl<i32> for UnknownBool {
    open spec fn obeys_from_spec() -> bool {
        true
    }

    open spec fn from_spec(v: i32) -> UnknownBool {
        UnknownBool::spec_from_numeric(v)
    }
}

impl From<Option<bool>> for UnknownBool {
    fn from(value: Option<bool>) -> (r: Self) {
        match value {
            None => UnknownBool::Unknown,
            Some(v) => UnknownBool::from(v),
        }
    }
}

impl FromSpecImpl<Option<bool>> for UnknownBool {
    open spec fn obeys_from_spec() -> bool {
        true
    }

    open spec fn from_spec(v: Option<bool>) -> UnknownBool {
        UnknownBool::spec_from_option(v)
    }
}

impl From<bool> for UnknownBool {
    fn from(value: bool) -> (r: Self) {
        if value {
            UnknownBool::True
        } else {
            UnknownBool::False
        }
    }
}

impl FromSpecImpl<bool> for UnknownBool {
    open spec fn obeys_from_spec() -> bool {
        true
    }

    open spec fn from_spec(v: bool) -> UnknownBool {
        UnknownBool::spec_from_bool(v)
    }
}

impl From<UnknownBool> for Option<bool> {
    fn from(value: UnknownBool) -> (r: Self) {
        match value {
            UnknownBool::Unknown => None,
            UnknownBool::False => Some(false),
            UnknownBool::True => Some(true),
        }
    }
}

impl FromSpecImpl<UnknownBool> for Option<bool> {
    open spec fn obeys_from_spec() -> bool {
        true
    }

    open spec fn from_spec(v: UnknownBool) -> Option<bool> {
        v@
    }
}

impl From<UnknownBool> for i32 {
    fn from(value: UnknownBool) -> (r: Self) {
        value.to_numeric()
    }
}

impl FromSpecImpl<UnknownBool> for i32 {
    open spec fn obeys_from_spec() -> bool {
        true
    }

    open spec fn from_spec(v: UnknownBool) -> i32 {
        v.spec_to_numeric()
    }
}

impl BitAnd for UnknownBool {
    type Output = Self;

    fn bitand(self, rhs: Self) -> (r: Self::Output) {
        match self {
            UnknownBool::False => UnknownBool::False,
            UnknownBool::Unknown => UnknownBool::Unknown,
            UnknownBool::True => rhs,
        }
    }
}

impl BitAndSpecImpl for UnknownBool {
    open spec fn obeys_bitand_spec() -> bool {
        true
    }

    open spec fn bitand_req(self, rhs: UnknownBool) -> bool {
        true
    }

    open spec fn bitand_spec(self, rhs: UnknownBool) -> UnknownBool {
        self.spec_and(rhs)
    }
}

impl BitOr for UnknownBool {
    type Output = Self;

    fn bitor(self, rhs: Self) -> (r: Self::Output) {
        match self {
            UnknownBool::True => UnknownBool::True,
            UnknownBool::Unknown => match rhs {
                UnknownBool::Unknown => UnknownBool::Unknown,
                UnknownBool::False => UnknownBool::Unknown,
                UnknownBool::True => UnknownBool::True,
            },
            UnknownBool::False => rhs,
        }
    }
}

impl BitOrSpecImpl for UnknownBool {
    open spec fn obeys_bitor_spec() -> bool {
        true
    }

    open spec fn bitor_req(self, rhs: UnknownBool) -> bool {
        true
    }

    open spec fn bitor_spec(self, rhs: UnknownBool) -> UnknownBool {
        self.spec_or(rhs)
    }
}

/// Encoding a value as a number and decoding it gives the value back.
pub proof fn lemma_numeric_roundtrip(u: UnknownBool)
    ensures
        UnknownBool::spec_from_numeric(u.spec_to_numeric()) == u,
{
}

/// A number decodes to a value that encodes back to it exactly when it is
/// one of the three encodings; every other number decodes to `Unknown`.
pub proof fn lemma_numeric_decode(num: i32)
    ensures
        (num == UB_TRUE || num == UB_FALSE || num == UB_UNKNOWN)
            <==> UnknownBool::spec_from_numeric(num).spec_to_numeric() == num,
        !(num == UB_TRUE || num == UB_FALSE || num == UB_UNKNOWN)
            ==> UnknownBool::spec_from_numeric(num) == UnknownBool::Unknown,
{
}

/// Conversion to and from `Option<bool>` are inverse to each other.
pub proof fn lemma_option_roundtrip(u: UnknownBool, o: Option<bool>)
    ensures
        UnknownBool::spec_from_option(u@) == u,
        UnknownBool::spec_from_option(o)@ == o,
{
}

/// A plain boolean is the same as a present optional boolean, and is known.
pub proof fn lemma_from_bool_known(b: bool)
    ensures
        UnknownBool::spec_from_bool(b) == UnknownBool::spec_from_option(Some(b)),
        UnknownBool::spec_from_bool(b)@ == Some(b),
{
}

/// On known values, `&` and `|` compute the boolean `&&` and `||`.
pub proof fn lemma_ops_agree_with_bool(a: bool, b: bool)
    ensures
        UnknownBool::spec_from_bool(a).spec_and(UnknownBool::spec_from_bool(b))
            == UnknownBool::spec_from_bool(a && b),
        UnknownBool::spec_from_bool(a).spec_or(UnknownBool::spec_from_bool(b))
            == UnknownBool::spec_from_bool(a || b),
{
}

/// `True` is the identity of `&` and `False` is the identity of `|`, on both sides;
/// `False` absorbs `&` from the left and `True` absorbs `|` from both sides.
pub proof fn lemma_identities(x: UnknownBool)
    ensures
        UnknownBool::True.spec_and(x) == x,
        x.spec_and(UnknownBool::True) == x,
        UnknownBool::False.spec_or(x) == x,
        x.spec_or(UnknownBool::False) == x,
        UnknownBool::False.spec_and(x) == UnknownBool::False,
        UnknownBool::True.spec_or(x) == UnknownBool::True,
        x.spec_or(UnknownBool::True) == UnknownBool::True,
        x.spec_and(x) == x,
        x.spec_or(x) == x,
{
}

/// `|` is commutative; `&` is not (`Unknown & False` is `Unknown`, `False & Unknown` is `False`).
pub proof fn lemma_or_commutative(x: UnknownBool, y: UnknownBool)
    ensures
        x.spec_or(y) == y.spec_or(x),
{
}

/// `&` and `|` are associative.
pub proof fn lemma_associative(x: UnknownBool, y: UnknownBool, z: UnknownBool)
    ensures
        x.spec_and(y).spec_and(z) == x.spec_and(y.spec_and(z)),
        x.spec_or(y).spec_or(z) == x.spec_or(y.spec_or(z)),
{
}

/// An unknown left operand of `&` decides the result: it stays unknown,
/// even against `False`.
pub proof fn lemma_unknown_and(x: UnknownBool)
    ensures
        UnknownBool::Unknown.spec_and(x) == UnknownBool::Unknown,
{
}

/// The sign of the numeric encoding tells the value: positive for true,
/// negative for false, zero for unknown.
pub proof fn lemma_numeric_sign(u: UnknownBool)
    ensures
        u.spec_to_numeric() > 0 <==> u@ == Some(true),
        u.spec_to_numeric() < 0 <==> u@ == Some(false),
        u.spec_to_numeric() == 0 <==> u@ is None,
        -1 <= u.spec_to_numeric() <= 1,
{
}

/// A value displays as `true` exactly when it is known true, as `false`
/// exactly when known false, and as `unknown` otherwise.
pub proof fn lemma_display_text(u: UnknownBool)
    ensures
        u.display_text() == "true"@ <==> u@ == Some(true),
        u.display_text() == "false"@ <==> u@ == Some(false),
        u.display_text() == "unknown"@ <==> u@ is None,
{
    reveal_strlit("true");
    reveal_strlit("false");
    reveal_strlit("unknown");
    assert("true"@ != "false"@) by {
        assert("true"@[0] != "false"@[0]);
    }
    assert("true"@ != "unknown"@) by {
        assert("true"@[0] != "unknown"@[0]);
    }
    assert("false"@ != "unknown"@) by {
        assert("false"@[0] != "unknown"@[0]);
    }
}

} // verus!
