//! Class names that may be written in Java form (`com.example.Class`) or in
//! smali form (`Lcom/example/Class;`).

use vstd::prelude::*;
use vstd::std_specs::cmp::PartialEqSpecImpl;
use vstd::std_specs::convert::FromSpecImpl;
use vstd::string::StrSliceExecFns;
use vstd::string::StringExecFns;
use std::borrow::Cow;
use std::convert::Infallible;
use std::str::FromStr;
use crate::text::chars_vec;
use crate::text::concat2;
use crate::text::contains_char;
use crate::text::ends_with_char;
use crate::text::last_index_of;
use crate::text::lemma_last_index_of;
use crate::text::map_char;
use crate::text::owned;
use crate::text::push_char;
use crate::text::rfind_char;
use crate::text::starts_with_char;
use crate::text::str_eq;
use crate::text::trim_end;
use crate::text::trim_end_char;
use crate::text::trim_start;
use crate::text::trim_start_char;

verus! {

/// Whether `s` is written in smali form: it starts with `L` and ends with `;`.
pub open spec fn is_smali_name(s: Seq<char>) -> bool {
    s.len() > 0 && s[0] == 'L' && s.last() == ';'
}

/// The smali form of a Java name: `L`, the name with `.` turned into `/`, then `;`.
pub open spec fn java_to_smali_name(s: Seq<char>) -> Seq<char> {
    seq!['L'] + map_char(s, '.', '/') + seq![';']
}

/// The Java form of a smali name: the name without its leading `L` and
/// trailing `;`, with `/` turned into `.` (empty for a name too short to
/// have both).
pub open spec fn smali_to_java_name(s: Seq<char>) -> Seq<char> {
    if s.len() >= 2 {
        map_char(s.subrange(1, s.len() - 1), '/', '.')
    } else {
        Seq::empty()
    }
}

/// A name in Java form: smali names are converted, other names are kept.
pub open spec fn java_form(s: Seq<char>) -> Seq<char> {
    if is_smali_name(s) {
        smali_to_java_name(s)
    } else {
        s
    }
}

/// A name in smali form: smali names are kept, other names are converted.
pub open spec fn smali_form(s: Seq<char>) -> Seq<char> {
    if is_smali_name(s) {
        s
    } else {
        java_to_smali_name(s)
    }
}

/// The simple name: for a Java name what follows the last `.`; for a smali
/// name what follows the last `/` (or the leading `L`), without trailing `;`.
pub open spec fn simple_name(s: Seq<char>) -> Seq<char> {
    if !is_smali_name(s) {
        match last_index_of(s, '.') {
            Some(i) => s.skip(i + 1),
            None => s,
        }
    } else {
        match last_index_of(s, '/') {
            Some(i) => trim_end(s.skip(i + 1), ';'),
            None => trim_end(s.skip(1), ';'),
        }
    }
}

/// The package as a dotted Java package: the Java form up to its last `.`
/// (empty when there is none).
pub open spec fn java_package(s: Seq<char>) -> Seq<char> {
    let j = java_form(s);
    match last_index_of(j, '.') {
        Some(i) => j.take(i),
        None => j.take(0),
    }
}

/// Whether the name has a package: a `/` in a smali name, a `.` after the
/// leading dots of any other name.
pub open spec fn has_package(s: Seq<char>) -> bool {
    if is_smali_name(s) {
        s.contains('/')
    } else {
        trim_start(s, '.').contains('.')
    }
}

/// The name built from the simple name of `s` placed in package `pkg`: in smali
/// form when `pkg` contains a `/`, in Java form otherwise.
pub open spec fn repackaged_name(s: Seq<char>, pkg: Seq<char>) -> Seq<char> {
    if pkg.contains('/') {
        seq!['L'] + trim_end(pkg, '/') + seq!['/'] + simple_name(s) + seq![';']
    } else {
        trim_end(pkg, '.') + seq!['.'] + simple_name(s)
    }
}

/// The name built from the Java package of `s`, a `.` and a new simple name;
/// just the new simple name when the Java form of `s` holds no `.` at all.
pub open spec fn renamed_name(s: Seq<char>, name: Seq<char>) -> Seq<char> {
    if !java_form(s).contains('.') {
        name
    } else {
        java_package(s) + seq!['.'] + name
    }
}

/// The full name of a manifest entry `pkg/name`: a name starting with `.` is
/// relative to `pkg`.
pub open spec fn manifest_name(pkg: Seq<char>, name: Seq<char>) -> Seq<char> {
    if name.len() > 0 && name[0] == '.' {
        pkg + name
    } else {
        name
    }
}

/// Whether a class stored as `s` equals the text `other`: compared in smali
/// form when `other` is a smali name, in Java form otherwise.
pub open spec fn names_equal(s: Seq<char>, other: Seq<char>) -> bool {
    if is_smali_name(other) {
        smali_form(s) == other
    } else {
        java_form(s) == other
    }
}

/// Whether `s` is a smali name (starts with `L` and ends with `;`).
pub fn class_is_smali(s: &str) -> (r: bool)
    ensures
        r == is_smali_name(s@),
{
    starts_with_char(s, 'L') && ends_with_char(s, ';')
}

/// The smali form of a Java name.
pub fn java_name_to_smali(name: &str) -> (r: String)
    ensures
        r@ == java_to_smali_name(name@),
{
    let v = chars_vec(name);
    let mut out = String::new();
    push_char(&mut out, 'L');
    let mut i: usize = 0;
    while i < v.len()
        invariant
            v@ == name@,
            i <= v@.len(),
            out@ == seq!['L'] + map_char(name@.take(i as int), '.', '/'),
        decreases v@.len() - i,
    {
        if v[i] == '.' {
            push_char(&mut out, '/');
        } else {
            push_char(&mut out, v[i]);
        }
        assert(map_char(name@.take(i + 1), '.', '/') =~= map_char(name@.take(i as int), '.', '/').push(
            if v@[i as int] == '.' { '/' } else { v@[i as int] },
        ));
        i = i + 1;
    }
    assert(name@.take(i as int) == name@);
    push_char(&mut out, ';');
    out
}

/// The Java form of a smali name: the leading `L` and trailing `;` are
/// dropped and `/` becomes `.`.
pub fn smali_name_to_java(name: &str) -> (r: String)
    ensures
        r@ == smali_to_java_name(name@),
{
    let v = chars_vec(name);
    let mut out = String::new();
    if v.len() < 2 {
        return out;
    }
    let end = v.len() - 1;
    let mut i: usize = 1;
    while i < end
        invariant
            v@ == name@,
            end == v@.len() - 1,
            1 <= i <= end,
            out@ == map_char(name@.subrange(1, i as int), '/', '.'),
        decreases end - i,
    {
        if v[i] == '/' {
            push_char(&mut out, '.');
        } else {
            push_char(&mut out, v[i]);
        }
        assert(map_char(name@.subrange(1, i + 1), '/', '.') =~= map_char(name@.subrange(1, i as int), '/', '.').push(
            if v@[i as int] == '/' { '.' } else { v@[i as int] },
        ));
        i = i + 1;
    }
    out
}

/// A single type to represent both smali and Java class names. The name is
/// kept in Java form whenever it was given in smali form.
#[derive(Debug, Eq, PartialOrd, Ord)]
pub struct ClassName {
    name: String,
}

/// A class name is viewed as the characters of its stored name.
impl View for ClassName {
    type V = Seq<char>;

    closed spec fn view(&self) -> Seq<char> {
        self.name@
    }
}

impl ClassName {
    /// A class name from a Java or smali name; smali names are stored in Java form.
    pub fn new(name: String) -> (r: ClassName)
        ensures
            r@ == java_form(name@),
    {
        if class_is_smali(name.as_str()) {
            ClassName { name: smali_name_to_java(name.as_str()) }
        } else {
            ClassName { name }
        }
    }

    /// A class name from a manifest entry `pkg/name` after it has been split:
    /// `com.foo.bar/foo.bar.Baz` names `foo.bar.Baz`, `com.foo.bar/.Baz` names
    /// `com.foo.bar.Baz`.
    pub fn from_split_manifest(pkg: &str, name: &str) -> (r: ClassName)
        ensures
            r@ == java_form(manifest_name(pkg@, name@)),
            name@.len() > 0 && name@[0] == '.' ==> r@ == java_form(pkg@ + name@),
            !(name@.len() > 0 && name@[0] == '.') ==> r@ == java_form(name@),
    {
        if starts_with_char(name, '.') {
            ClassName::new(concat2(pkg, name))
        } else {
            ClassName::new(owned(name))
        }
    }

    /// Whether the class has a package.
    pub fn has_pkg(&self) -> (r: bool)
        ensures
            r == has_package(self@),
    {
        if self.is_smali() {
            contains_char(self.name.as_str(), '/')
        } else {
            contains_char(trim_start_char(self.name.as_str(), '.'), '.')
        }
    }

    /// A class name with the same simple name in another package.
    pub fn with_new_package(&self, pkg: &str) -> (r: ClassName)
        ensures
            r@ == java_form(repackaged_name(self@, pkg@)),
    {
        let simple = self.get_simple_class_name();
        let is_smali_pkg = contains_char(pkg, '/');
        let new_name = if is_smali_pkg {
            let mut s = owned("L");
            s.append(trim_end_char(pkg, '/'));
            push_char(&mut s, '/');
            s.append(simple);
            push_char(&mut s, ';');
            s
        } else {
            let mut s = owned(trim_end_char(pkg, '.'));
            push_char(&mut s, '.');
            s.append(simple);
            s
        };
        proof {
            reveal_strlit("L");
        }
        assert(new_name@ =~= repackaged_name(self@, pkg@));
        ClassName::new(new_name)
    }

    /// The stored name.
    pub fn as_str(&self) -> (r: &str)
        ensures
            r@ == self@,
    {
        self.name.as_str()
    }

    /// A class name with the same package and another simple name.
    pub fn with_new_simple_class_name(&self, name: &str) -> (r: ClassName)
        ensures
            r@ == java_form(renamed_name(self@, name@)),
    {
        let java = self.get_java_name();
        if !contains_char(cow_as_str(&java), '.') {
            return ClassName::new(owned(name));
        }
        let pkg = self.pkg_as_java();
        let pkg_str = cow_as_str(&pkg);
        let mut base = owned(pkg_str);
        push_char(&mut base, '.');
        base.append(name);
        assert(base@ =~= renamed_name(self@, name@));
        ClassName::new(base)
    }

    /// The simple class name, without package.
    pub fn get_simple_class_name(&self) -> (r: &str)
        ensures
            r@ == simple_name(self@),
    {
        let s = self.name.as_str();
        let n = s.unicode_len();
        if self.is_java() {
            let idx = match rfind_char(s, '.') {
                Some(i) => {
                    proof {
                        lemma_last_index_of(s@, '.');
                    }
                    i + 1
                },
                None => 0,
            };
            let r = s.substring_char(idx, n);
            assert(s@.skip(0) == s@);
            assert(r@ == s@.skip(idx as int));
            r
        } else {
            let idx = match rfind_char(s, '/') {
                Some(i) => {
                    proof {
                        lemma_last_index_of(s@, '/');
                    }
                    i + 1
                },
                None => 1,
            };
            let rest = s.substring_char(idx, n);
            assert(rest@ == s@.skip(idx as int));
            trim_end_char(rest, ';')
        }
    }

    /// The package as a dotted Java package; borrowed from the stored name
    /// when that is in Java form.
    pub fn pkg_as_java(&self) -> (r: Cow<'_, str>)
        ensures
            r@ == java_package(self@),
            !is_smali_name(self@) ==> r is Borrowed,
            is_smali_name(self@) ==> r is Owned,
    {
        if self.is_java() {
            let s = self.name.as_str();
            let start = match rfind_char(s, '.') {
                Some(i) => {
                    proof {
                        lemma_last_index_of(s@, '.');
                    }
                    i
                },
                None => 0,
            };
            Cow::Borrowed(s.substring_char(0, start))
        } else {
            let java = smali_name_to_java(self.name.as_str());
            let s = java.as_str();
            let start = match rfind_char(s, '.') {
                Some(i) => {
                    proof {
                        lemma_last_index_of(s@, '.');
                    }
                    i
                },
                None => 0,
            };
            Cow::Owned(owned(s.substring_char(0, start)))
        }
    }

    /// Whether the stored name is in smali form.
    pub fn is_smali(&self) -> (r: bool)
        ensures
            r == is_smali_name(self@),
    {
        class_is_smali(self.name.as_str())
    }

    /// Whether the stored name is not in smali form.
    pub fn is_java(&self) -> (r: bool)
        ensures
            r == !is_smali_name(self@),
    {
        !self.is_smali()
    }

    /// The name in Java form; borrowed when the stored name already is.
    pub fn get_java_name(&self) -> (r: Cow<'_, str>)
        ensures
            r@ == java_form(self@),
            !is_smali_name(self@) ==> r is Borrowed,
            is_smali_name(self@) ==> r is Owned,
    {
        if self.is_java() {
            Cow::Borrowed(self.name.as_str())
        } else {
            Cow::Owned(smali_name_to_java(self.name.as_str()))
        }
    }

    /// The name in smali form; borrowed when the stored name already is.
    pub fn get_smali_name(&self) -> (r: Cow<'_, str>)
        ensures
            r@ == smali_form(self@),
            is_smali_name(self@) ==> r is Borrowed,
            !is_smali_name(self@) ==> r is Owned,
    {
        if self.is_smali() {
            Cow::Borrowed(self.name.as_str())
        } else {
            Cow::Owned(java_name_to_smali(self.name.as_str()))
        }
    }

    /// Whether this class is named by `other`, which may be in either form.
    pub fn eq_str(&self, other: &str) -> (r: bool)
        ensures
            r == names_equal(self@, other@),
    {
        if class_is_smali(other) {
            let smali = self.get_smali_name();
            str_eq(cow_as_str(&smali), other)
        } else {
            let java = self.get_java_name();
            str_eq(cow_as_str(&java), other)
        }
    }

    /// The name as it is displayed: its Java form.
    pub fn to_display_string(&self) -> (r: String)
        ensures
            r@ == java_form(self@),
    {
        let java = self.get_java_name();
        owned(cow_as_str(&java))
    }
}

/// The text behind a borrowed or owned string.
pub fn cow_as_str<'a>(c: &'a Cow<'_, str>) -> (r: &'a str)
    ensures
        r@ == c@,
{
    match c {
        Cow::Borrowed(b) => b,
        Cow::Owned(o) => o.as_str(),
    }
}

impl PartialEq<str> for ClassName {
    fn eq(&self, other: &str) -> (r: bool) {
        self.eq_str(other)
    }
}

impl PartialEqSpecImpl<str> for ClassName {
    open spec fn obeys_eq_spec() -> bool {
        true
    }

    open spec fn eq_spec(&self, other: &str) -> bool {
        names_equal(self@, other@)
    }
}

impl<'a> PartialEq<&'a str> for ClassName {
    fn eq(&self, other: &&'a str) -> (r: bool) {
        self.eq_str(*other)
    }
}

impl<'a> PartialEqSpecImpl<&'a str> for ClassName {
    open spec fn obeys_eq_spec() -> bool {
        true
    }

    open spec fn eq_spec(&self, other: &&'a str) -> bool {
        names_equal(self@, (*other)@)
    }
}

impl PartialEq<String> for ClassName {
    fn eq(&self, other: &String) -> (r: bool) {
        self.eq_str(other.as_str())
    }
}

impl PartialEqSpecImpl<String> for ClassName {
    open spec fn obeys_eq_spec() -> bool {
        true
    }

    open spec fn eq_spec(&self, other: &String) -> bool {
        names_equal(self@, other@)
    }
}

impl Clone for ClassName {
    fn clone(&self) -> (r: ClassName)
        ensures
            r == *self,
    {
        ClassName { name: self.name.clone() }
    }
}

impl PartialEq for ClassName {
    fn eq(&self, other: &ClassName) -> (r: bool) {
        self.eq_str(other.as_str())
    }
}

impl PartialEqSpecImpl for ClassName {
    open spec fn obeys_eq_spec() -> bool {
        true
    }

    open spec fn eq_spec(&self, other: &ClassName) -> bool {
        names_equal(self@, other@)
    }
}

impl AsRef<str> for ClassName {
    fn as_ref(&self) -> (r: &str)
        ensures
            r@ == self@,
    {
        self.name.as_str()
    }
}

impl FromStr for ClassName {
    type Err = Infallible;

    fn from_str(s: &str) -> (r: Result<ClassName, Infallible>)
        ensures
            r matches Ok(c) && c@ == java_form(s@),
    {
        Ok(ClassName::new(owned(s)))
    }
}

impl From<&str> for ClassName {
    fn from(value: &str) -> (r: ClassName)
        ensures
            r@ == java_form(value@),
    {
        ClassName::new(owned(value))
    }
}

impl FromSpecImpl<&str> for ClassName {
    open spec fn obeys_from_spec() -> bool {
        false
    }

    open spec fn from_spec(v: &str) -> ClassName {
        arbitrary()
    }
}

impl From<String> for ClassName {
    fn from(value: String) -> (r: ClassName)
        ensures
            r@ == java_form(value@),
    {
        ClassName::new(value)
    }
}

impl FromSpecImpl<String> for ClassName {
    open spec fn obeys_from_spec() -> bool {
        false
    }

    open spec fn from_spec(v: String) -> ClassName {
        arbitrary()
    }
}

impl From<&String> for ClassName {
    fn from(value: &String) -> (r: ClassName)
        ensures
            r@ == java_form(value@),
    {
        ClassName::new(value.clone())
    }
}

impl FromSpecImpl<&String> for ClassName {
    open spec fn obeys_from_spec() -> bool {
        false
    }

    open spec fn from_spec(v: &String) -> ClassName {
        arbitrary()
    }
}

/// A position of `c` with no `c` after it is the last index of `c`.
pub proof fn lemma_last_index_of_at(s: Seq<char>, c: char, i: int)
    requires
        0 <= i < s.len(),
        s[i] == c,
        forall|j: int| i < j < s.len() ==> s[j] != c,
    ensures
        last_index_of(s, c) == Some(i),
{
    lemma_last_index_of(s, c);
    match last_index_of(s, c) {
        Some(k) => {
            if k < i {
                assert(s[i] != c);
            }
            if k > i {
                assert(s[k] != c);
            }
        },
        None => {
            assert(s.contains(c));
        },
    }
}

/// A name made of a package, a `.` and a simple name without `.` that does
/// not end with `;` is in Java form, and splits back into that package and
/// that simple name.
pub proof fn lemma_dotted_name_parts(pkg: Seq<char>, simple: Seq<char>)
    requires
        !simple.contains('.'),
        simple.len() > 0 ==> simple.last() != ';',
    ensures
        java_form(pkg + seq!['.'] + simple) == pkg + seq!['.'] + simple,
        simple_name(pkg + seq!['.'] + simple) == simple,
        java_package(pkg + seq!['.'] + simple) == pkg,
{
    let n = pkg + seq!['.'] + simple;
    if simple.len() > 0 {
        assert(n.last() == simple.last());
    } else {
        assert(n.last() == '.');
    }
    assert forall|j: int| pkg.len() < j < n.len() implies n[j] != '.' by {
        assert(n[j] == simple[j - pkg.len() - 1]);
    }
    lemma_last_index_of_at(n, '.', pkg.len() as int);
    assert(n.skip(pkg.len() + 1int) =~= simple);
    assert(n.take(pkg.len() as int) =~= pkg);
}

/// A name without `.` that does not end with `;` is its own simple name and
/// has an empty package.
pub proof fn lemma_plain_name_parts(name: Seq<char>)
    requires
        !name.contains('.'),
        name.len() > 0 ==> name.last() != ';',
    ensures
        java_form(name) == name,
        simple_name(name) == name,
        java_package(name).len() == 0,
{
    lemma_last_index_of(name, '.');
}

/// Renaming a class keeps its package and gives it the new simple name, for a
/// simple name that holds no `.` and does not end with `;`.
pub proof fn lemma_rename_keeps_package(s: Seq<char>, name: Seq<char>)
    requires
        !name.contains('.'),
        name.len() > 0 ==> name.last() != ';',
    ensures
        simple_name(java_form(renamed_name(s, name))) == name,
        java_package(java_form(renamed_name(s, name))) == java_package(s),
{
    if !java_form(s).contains('.') {
        lemma_plain_name_parts(name);
        lemma_last_index_of(java_form(s), '.');
    } else {
        lemma_dotted_name_parts(java_package(s), name);
    }
}

/// Moving a class to a dotted package keeps its simple name and gives it that
/// package (without trailing dots), for a simple name that holds no `.` and
/// does not end with `;`.
pub proof fn lemma_repackage_keeps_simple_name(s: Seq<char>, pkg: Seq<char>)
    requires
        !pkg.contains('/'),
        !simple_name(s).contains('.'),
        simple_name(s).len() > 0 ==> simple_name(s).last() != ';',
    ensures
        simple_name(java_form(repackaged_name(s, pkg))) == simple_name(s),
        java_package(java_form(repackaged_name(s, pkg))) == trim_end(pkg, '.'),
{
    lemma_dotted_name_parts(trim_end(pkg, '.'), simple_name(s));
}

/// Moving a class to a package written with `/` gives it that package in
/// dotted form and keeps its simple name, for a simple name that holds no
/// `.` or `/` and does not end with `;`.
pub proof fn lemma_repackage_smali_keeps_simple_name(s: Seq<char>, pkg: Seq<char>)
    requires
        pkg.contains('/'),
        !simple_name(s).contains('.'),
        !simple_name(s).contains('/'),
        simple_name(s).len() > 0 ==> simple_name(s).last() != ';',
    ensures
        simple_name(java_form(repackaged_name(s, pkg))) == simple_name(s),
        java_package(java_form(repackaged_name(s, pkg))) == map_char(trim_end(pkg, '/'), '/', '.'),
{
    let sn = simple_name(s);
    let t = trim_end(pkg, '/');
    let n = seq!['L'] + t + seq!['/'] + sn + seq![';'];
    assert(n == repackaged_name(s, pkg));
    assert(is_smali_name(n));
    let inner = t + seq!['/'] + sn;
    assert(n.subrange(1, n.len() - 1) =~= inner);
    assert forall|i: int| 0 <= i < sn.len() implies sn[i] != '/' && sn[i] != '.' by {
        if sn[i] == '/' {
            assert(sn.contains('/'));
        }
        if sn[i] == '.' {
            assert(sn.contains('.'));
        }
    }
    let mt = map_char(t, '/', '.');
    assert(map_char(inner, '/', '.') =~= mt + seq!['.'] + sn);
    lemma_dotted_name_parts(mt, sn);
}

/// Converting a Java name without `/` to smali form and back gives the name.
pub proof fn lemma_java_smali_roundtrip(j: Seq<char>)
    requires
        !j.contains('/'),
    ensures
        is_smali_name(java_to_smali_name(j)),
        smali_to_java_name(java_to_smali_name(j)) == j,
{
    let m = map_char(j, '.', '/');
    let s = java_to_smali_name(j);
    assert(s.subrange(1, s.len() - 1) =~= m);
    assert forall|i: int| 0 <= i < j.len() implies j[i] != '/' by {
        if j[i] == '/' {
            assert(j.contains('/'));
        }
    }
    assert(map_char(m, '/', '.') =~= j);
}

/// Converting a smali name with no `.` inside to Java form and back gives
/// the name.
pub proof fn lemma_smali_java_roundtrip(s: Seq<char>)
    requires
        is_smali_name(s),
        !s.subrange(1, s.len() - 1).contains('.'),
    ensures
        java_to_smali_name(smali_to_java_name(s)) == s,
{
    let inner = s.subrange(1, s.len() - 1);
    assert(s.len() >= 2);
    assert forall|i: int| 0 <= i < inner.len() implies inner[i] != '.' by {
        if inner[i] == '.' {
            assert(inner.contains('.'));
        }
    }
    let j = map_char(inner, '/', '.');
    assert(map_char(j, '.', '/') =~= inner);
    assert(java_to_smali_name(j) =~= s);
}

/// A Java name without `/` and its smali form name the same class: both are
/// stored as the Java name, and each matches the other.
pub proof fn lemma_both_forms_same_class(j: Seq<char>)
    requires
        !j.contains('/'),
        !is_smali_name(j),
    ensures
        java_form(java_to_smali_name(j)) == java_form(j),
        names_equal(java_form(j), java_to_smali_name(j)),
        names_equal(java_form(java_to_smali_name(j)), j),
{
    lemma_java_smali_roundtrip(j);
}

/// Every stored name equals itself.
pub proof fn lemma_names_equal_reflexive(s: Seq<char>)
    ensures
        names_equal(s, s),
{
}

/// A Java form that is not itself smali-looking is left as it is by a
/// second conversion, so a class name written out in Java form and read
/// back is stored the same.
pub proof fn lemma_java_form_stable(s: Seq<char>)
    requires
        !is_smali_name(java_form(s)),
    ensures
        java_form(java_form(s)) == java_form(s),
        names_equal(s, java_form(java_form(s))),
{
}

/// Equal class names have the same smali form (so hashing the smali form is
/// consistent with equality), as long as a stored name in smali form has no
/// `.` inside.
pub proof fn lemma_equal_names_same_smali_form(s: Seq<char>, o: Seq<char>)
    requires
        names_equal(s, o),
        is_smali_name(s) ==> !s.subrange(1, s.len() - 1).contains('.'),
    ensures
        smali_form(s) == smali_form(o),
{
    if is_smali_name(s) && !is_smali_name(o) {
        lemma_smali_java_roundtrip(s);
    }
}

/// A manifest name that starts with `.` is relative: the full name is the
/// package followed by the whole relative name (the package is a prefix, the
/// name a suffix, and nothing else is in between). Any other name is already
/// full and is taken as it is.
pub proof fn lemma_manifest_name_resolution(pkg: Seq<char>, name: Seq<char>)
    ensures
        name.len() > 0 && name[0] == '.' ==> {
            let m = manifest_name(pkg, name);
            &&& m.len() == pkg.len() + name.len()
            &&& m.take(pkg.len() as int) == pkg
            &&& m.skip(pkg.len() as int) == name
        },
        !(name.len() > 0 && name[0] == '.') ==> manifest_name(pkg, name) == name,
{
    if name.len() > 0 && name[0] == '.' {
        let m = manifest_name(pkg, name);
        assert(m.take(pkg.len() as int) =~= pkg);
        assert(m.skip(pkg.len() as int) =~= name);
    }
}

/// A Java name splits at its last `.` into its package and its simple name:
/// package, `.`, simple name give the name back, and the simple name holds no
/// `.`. A name without `.` is its own simple name and has no package.
pub proof fn lemma_java_name_splits(s: Seq<char>)
    requires
        !is_smali_name(s),
    ensures
        !simple_name(s).contains('.'),
        s.contains('.') ==> java_package(s) + seq!['.'] + simple_name(s) == s,
        !s.contains('.') ==> java_package(s).len() == 0 && simple_name(s) == s,
{
    lemma_last_index_of(s, '.');
    match last_index_of(s, '.') {
        Some(i) => {
            let sn = s.skip(i + 1);
            assert(java_package(s) + seq!['.'] + sn =~= s);
            assert forall|j: int| 0 <= j < sn.len() implies sn[j] != '.' by {
                assert(sn[j] == s[i + 1 + j]);
            }
        },
        None => {},
    }
}

/// The smali form of a Java name is `L`, then the name with each `.` turned
/// into `/` and every other character kept in place, then `;`.
pub proof fn lemma_java_to_smali_shape(j: Seq<char>)
    ensures
        ({
            let s = java_to_smali_name(j);
            &&& s.len() == j.len() + 2
            &&& s[0] == 'L'
            &&& s[s.len() - 1] == ';'
            &&& is_smali_name(s)
            &&& forall|i: int| 0 <= i < j.len() ==> #[trigger] s[i + 1] == (if j[i] == '.' {
                '/'
            } else {
                j[i]
            })
        }),
{
}

/// The Java form of a smali name is the name without its first and last
/// character, with each `/` turned into `.` and every other character kept
/// in place.
pub proof fn lemma_smali_to_java_shape(s: Seq<char>)
    requires
        is_smali_name(s),
    ensures
        ({
            let j = smali_to_java_name(s);
            &&& j.len() == s.len() - 2
            &&& forall|i: int| 0 <= i < j.len() ==> #[trigger] j[i] == (if s[i + 1] == '/' {
                '.'
            } else {
                s[i + 1]
            })
        }),
{
}

} // verus!
