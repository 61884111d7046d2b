//! Paths as they are on an Android device, together with their squashed form:
//! the same path as a single file name, with `/` replaced by `%` and every
//! literal `%` escaped as `\%`.

use vstd::prelude::*;
use vstd::std_specs::cmp::PartialEqSpecImpl;
use vstd::std_specs::convert::FromSpecImpl;
use vstd::string::StrSliceExecFns;
use crate::text::chars_vec;
use crate::text::last_index_of;
use crate::text::lemma_last_index_of;
use crate::text::owned;
use crate::text::rfind_char;
use crate::text::str_eq;
use super::has_escape_before;
use super::lemma_replaced_free_of;
use super::lemma_unreplaced_replaced;
use super::replace_char;
use super::replaced;
use super::unreplace_char;
use super::unreplaced;
use super::DEVICE_PATH_SEP_CHAR;
use super::ESCAPE_CHAR;
use super::REPLACED_DEVICE_PATH_SEP_CHAR;

verus! {

/// The squashed form of a device path.
pub open spec fn squashed_form(raw: Seq<char>) -> Seq<char> {
    replaced(raw, DEVICE_PATH_SEP_CHAR, REPLACED_DEVICE_PATH_SEP_CHAR)
}

/// The device path that a squashed form stands for.
pub open spec fn raw_form(squashed: Seq<char>) -> Seq<char> {
    unreplaced(squashed, DEVICE_PATH_SEP_CHAR, REPLACED_DEVICE_PATH_SEP_CHAR)
}

/// The file name of a path: what follows its last `/`, or the whole path.
pub open spec fn file_name_of(s: Seq<char>) -> Seq<char> {
    match last_index_of(s, DEVICE_PATH_SEP_CHAR) {
        Some(i) => s.skip(i + 1),
        None => s,
    }
}

/// The extension of a file name: what follows its last `.`, if it has one.
pub open spec fn extension_of(fname: Seq<char>) -> Option<Seq<char>> {
    match last_index_of(fname, '.') {
        Some(i) => Some(fname.skip(i + 1)),
        None => None,
    }
}

/// Whether `s` holds a `%` that separates components of a squashed path: one
/// that is not escaped by a backslash right before it. A `%` at the start of
/// `s` counts as a separator.
pub open spec fn has_separator(s: Seq<char>) -> bool {
    exists|j: int|
        0 <= j < s.len() && #[trigger] s[j] == REPLACED_DEVICE_PATH_SEP_CHAR && (j == 0 || s[j - 1]
            != ESCAPE_CHAR)
}

/// A squashed path without the extension of its file name: without its last
/// `.` and what follows, unless a separator follows that `.` (then the file
/// name has no extension).
pub open spec fn without_extension(s: Seq<char>) -> Seq<char> {
    match last_index_of(s, '.') {
        Some(i) => if has_separator(s.skip(i + 1)) {
            s
        } else {
            s.take(i)
        },
        None => s,
    }
}

/// Why a path could not be read as a device path.
#[derive(Debug)]
pub enum DevicePathError {
    /// The path has no final component that is a file name.
    BadPath(String),
}

/// A path as it was on the Android device (the raw view, such as
/// `/system/priv-app/Test.apk`) together with its squashed view
/// (`%system%priv-app%Test.apk`), which can stand as one file name.
pub struct DevicePath {
    raw_path: String,
    squashed_path: String,
}

/// A device path is viewed as its raw path.
impl View for DevicePath {
    type V = Seq<char>;

    closed spec fn view(&self) -> Seq<char> {
        self.raw_path@
    }
}

/// The file name of a filesystem path whose components are separated by `/`:
/// its last component, skipping empty and `.` components; none when that
/// component is `..` or there is none.
pub open spec fn path_file_name_of(s: Seq<char>) -> Option<Seq<char>>
    decreases s.len(),
{
    if s.len() == 0 {
        None
    } else if s.last() == DEVICE_PATH_SEP_CHAR {
        path_file_name_of(s.drop_last())
    } else {
        let start = match last_index_of(s, DEVICE_PATH_SEP_CHAR) {
            Some(i) => i + 1,
            None => 0,
        };
        let seg = s.skip(start);
        if seg == "."@ {
            if 0 <= start < s.len() {
                path_file_name_of(s.take(start))
            } else {
                None
            }
        } else if seg == ".."@ {
            None
        } else {
            Some(seg)
        }
    }
}

/// The file name of a filesystem path whose components are separated by `/`.
pub fn path_file_name(path: &str) -> (r: Option<&str>)
    ensures
        match path_file_name_of(path@) {
            Some(n) => r matches Some(x) && x@ == n,
            None => r is None,
        },
{
    let v = chars_vec(path);
    let mut end: usize = v.len();
    assert(path@.take(end as int) == path@);
    loop
        invariant
            v@ == path@,
            end <= v@.len(),
            path_file_name_of(path@) == path_file_name_of(path@.take(end as int)),
        decreases end,
    {
        let ghost s = path@.take(end as int);
        if end == 0 {
            return None;
        }
        if v[end - 1] == DEVICE_PATH_SEP_CHAR {
            assert(s.drop_last() == path@.take(end - 1));
            end = end - 1;
        } else {
            let mut j: usize = end;
            while j > 0 && v[j - 1] != DEVICE_PATH_SEP_CHAR
                invariant
                    v@ == path@,
                    j <= end <= v@.len(),
                    forall|k: int| j <= k < end ==> s[k] != DEVICE_PATH_SEP_CHAR,
                    s == path@.take(end as int),
                decreases j,
            {
                j = j - 1;
            }
            proof {
                if j > 0 {
                    assert(s[j - 1] == DEVICE_PATH_SEP_CHAR);
                    crate::utils::class_name::lemma_last_index_of_at(s, DEVICE_PATH_SEP_CHAR, j - 1);
                } else {
                    lemma_last_index_of(s, DEVICE_PATH_SEP_CHAR);
                    if let Some(k) = last_index_of(s, DEVICE_PATH_SEP_CHAR) {
                        assert(s[k] != DEVICE_PATH_SEP_CHAR);
                    }
                }
                assert(s.skip(j as int) =~= path@.subrange(j as int, end as int));
            }
            let seg = path.substring_char(j, end);
            if str_eq(seg, ".") {
                assert(s.take(j as int) == path@.take(j as int));
                end = j;
            } else if str_eq(seg, "..") {
                return None;
            } else {
                return Some(seg);
            }
        }
    }
}

/// A path made of a directory, a `/` and a name that is non-empty, holds no
/// `/` and is neither `.` nor `..` has that name as its file name.
pub proof fn lemma_path_file_name_joined(dir: Seq<char>, name: Seq<char>)
    requires
        name.len() > 0,
        !name.contains(DEVICE_PATH_SEP_CHAR),
        name != "."@,
        name != ".."@,
    ensures
        path_file_name_of(dir + seq![DEVICE_PATH_SEP_CHAR] + name) == Some(name),
{
    let s = dir + seq![DEVICE_PATH_SEP_CHAR] + name;
    assert(s.last() == name.last());
    assert forall|k: int| dir.len() < k < s.len() implies s[k] != DEVICE_PATH_SEP_CHAR by {
        assert(s[k] == name[k - dir.len() - 1]);
        if name[k - dir.len() - 1] == DEVICE_PATH_SEP_CHAR {
            assert(name.contains(DEVICE_PATH_SEP_CHAR));
        }
    }
    crate::utils::class_name::lemma_last_index_of_at(s, DEVICE_PATH_SEP_CHAR, dir.len() as int);
    assert(s.skip(dir.len() + 1int) =~= name);
    assert(name.last() != DEVICE_PATH_SEP_CHAR) by {
        if name.last() == DEVICE_PATH_SEP_CHAR {
            assert(name[name.len() - 1] == DEVICE_PATH_SEP_CHAR);
        }
    }
}

/// Whether the characters of `s` from `start` on hold a separator.
fn tail_has_separator(s: &str, start: usize) -> (r: bool)
    requires
        1 <= start <= s@.len(),
    ensures
        r == has_separator(s@.skip(start as int)),
{
    let v = chars_vec(s);
    let ghost tail = s@.skip(start as int);
    let mut k: usize = start;
    while k < v.len()
        invariant
            v@ == s@,
            1 <= start <= k <= v@.len(),
            tail == s@.skip(start as int),
            forall|j: int|
                0 <= j < k - start ==> !(#[trigger] tail[j] == REPLACED_DEVICE_PATH_SEP_CHAR && (j == 0 || tail[j - 1]
                    != ESCAPE_CHAR)),
        decreases v@.len() - k,
    {
        if v[k] == REPLACED_DEVICE_PATH_SEP_CHAR && (k == start || v[k - 1] != ESCAPE_CHAR) {
            assert(tail[k - start] == REPLACED_DEVICE_PATH_SEP_CHAR);
            return true;
        }
        assert(tail[k - start] == v@[k as int]);
        assert(k > start ==> tail[k - start - 1] == v@[k - 1]);
        k = k + 1;
    }
    assert forall|j: int|
        0 <= j < tail.len() implies !(#[trigger] tail[j] == REPLACED_DEVICE_PATH_SEP_CHAR && (j == 0
            || tail[j - 1] != ESCAPE_CHAR)) by {}
    false
}

impl DevicePath {
    /// The squashed view of this path.
    pub closed spec fn squashed_view(&self) -> Seq<char> {
        self.squashed_path@
    }

    /// A device path from its raw form.
    pub fn new(value: &str) -> (r: DevicePath)
        ensures
            r@ == value@,
            r.squashed_view() == squashed_form(value@),
    {
        let raw_path = owned(value);
        let squashed_path = replace_char(value, DEVICE_PATH_SEP_CHAR, REPLACED_DEVICE_PATH_SEP_CHAR);
        DevicePath { raw_path, squashed_path }
    }

    /// A device path from its squashed form.
    pub fn from_squashed(value: &str) -> (r: DevicePath)
        ensures
            r.squashed_view() == value@,
            r@ == raw_form(value@),
    {
        let squashed_path = owned(value);
        let raw_path = unreplace_char(value, DEVICE_PATH_SEP_CHAR, REPLACED_DEVICE_PATH_SEP_CHAR);
        DevicePath { raw_path, squashed_path }
    }

    /// A device path from a filesystem path whose last component is a
    /// squashed path; `file_name` is that last component, if there is one.
    pub fn from_path_file_name(path: &str, file_name: Option<&str>) -> (r: Result<DevicePath, DevicePathError>)
        ensures
            match file_name {
                Some(n) => r matches Ok(d) && d.squashed_view() == n@ && d@ == raw_form(n@),
                None => r matches Err(DevicePathError::BadPath(p)) && p@ == path@,
            },
    {
        match file_name {
            Some(n) => Ok(DevicePath::from_squashed(n)),
            None => Err(DevicePathError::BadPath(owned(path))),
        }
    }

    /// A device path from a filesystem path whose last component is a
    /// squashed path.
    pub fn from_path(path: &str) -> (r: Result<DevicePath, DevicePathError>)
        ensures
            match path_file_name_of(path@) {
                Some(n) => r matches Ok(d) && d.squashed_view() == n && d@ == raw_form(n),
                None => r matches Err(DevicePathError::BadPath(p)) && p@ == path@,
            },
    {
        DevicePath::from_path_file_name(path, path_file_name(path))
    }

    /// The file extension, without the preceding `.`.
    pub fn extension(&self) -> (r: Option<&str>)
        ensures
            match extension_of(file_name_of(self@)) {
                Some(e) => r matches Some(x) && x@ == e,
                None => r is None,
            },
    {
        let fname = self.device_file_name();
        match rfind_char(fname, '.') {
            Some(i) => {
                proof {
                    lemma_last_index_of(fname@, '.');
                }
                let n = fname.unicode_len();
                let ext = fname.substring_char(i + 1, n);
                assert(ext@ == fname@.skip(i + 1));
                Some(ext)
            },
            None => None,
        }
    }

    /// Just the file name of the path.
    pub fn device_file_name(&self) -> (r: &str)
        ensures
            r@ == file_name_of(self@),
    {
        let s = self.raw_path.as_str();
        match rfind_char(s, DEVICE_PATH_SEP_CHAR) {
            Some(i) => {
                proof {
                    lemma_last_index_of(s@, DEVICE_PATH_SEP_CHAR);
                }
                let n = s.unicode_len();
                let r = s.substring_char(i + 1, n);
                assert(r@ == s@.skip(i + 1));
                r
            },
            None => s,
        }
    }

    /// The path with `/` as the separator.
    pub fn as_device_str(&self) -> (r: &str)
        ensures
            r@ == self@,
    {
        self.raw_path.as_str()
    }

    /// The path with `/` as the separator, as a new string.
    pub fn get_device_string(&self) -> (r: String)
        ensures
            r@ == self@,
    {
        owned(self.as_device_str())
    }

    /// The path with `%` as the separator.
    pub fn as_squashed_str(&self) -> (r: &str)
        ensures
            r@ == self.squashed_view(),
    {
        self.squashed_path.as_str()
    }

    /// The squashed path without the extension of its file name.
    pub fn as_squashed_str_no_ext(&self) -> (r: &str)
        ensures
            r@ == without_extension(self.squashed_view()),
    {
        let s = self.squashed_path.as_str();
        let n = s.unicode_len();
        match rfind_char(s, '.') {
            Some(i) => {
                proof {
                    lemma_last_index_of(s@, '.');
                }
                assert(i < n);
                if tail_has_separator(s, i + 1) {
                    s
                } else {
                    s.substring_char(0, i)
                }
            },
            None => s,
        }
    }

    /// The squashed path, as a new string.
    pub fn get_squashed_string(&self) -> (r: String)
        ensures
            r@ == self.squashed_view(),
    {
        owned(self.as_squashed_str())
    }

    /// The squashed path, consuming the device path.
    pub fn into_squashed(self) -> (r: String)
        ensures
            r@ == self.squashed_view(),
    {
        self.squashed_path
    }

    /// Squashes a device path.
    pub fn squash(device_path: &str) -> (r: String)
        ensures
            r@ == squashed_form(device_path@),
    {
        replace_char(device_path, DEVICE_PATH_SEP_CHAR, REPLACED_DEVICE_PATH_SEP_CHAR)
    }

    /// The path as it is displayed: the raw path.
    pub fn to_display_string(&self) -> (r: String)
        ensures
            r@ == self@,
    {
        owned(self.as_device_str())
    }

    /// Whether two device paths have the same raw path.
    pub fn same_path(&self, other: &DevicePath) -> (r: bool)
        ensures
            r == (self@ == other@),
    {
        str_eq(self.raw_path.as_str(), other.raw_path.as_str())
    }
}

impl Clone for DevicePath {
    fn clone(&self) -> (r: DevicePath)
        ensures
            r == *self,
    {
        DevicePath { raw_path: self.raw_path.clone(), squashed_path: self.squashed_path.clone() }
    }
}

/// Two device paths are equal when their raw paths are.
impl PartialEq for DevicePath {
    fn eq(&self, other: &DevicePath) -> (r: bool) {
        self.same_path(other)
    }
}

impl PartialEqSpecImpl for DevicePath {
    open spec fn obeys_eq_spec() -> bool {
        true
    }

    open spec fn eq_spec(&self, other: &DevicePath) -> bool {
        self@ == other@
    }
}

impl AsRef<str> for DevicePath {
    fn as_ref(&self) -> (r: &str)
        ensures
            r@ == self@,
    {
        self.as_device_str()
    }
}

impl Eq for DevicePath {}

impl From<&DevicePath> for DevicePath {
    fn from(value: &DevicePath) -> (r: DevicePath)
        ensures
            r@ == value@,
            r.squashed_view() == squashed_form(value@),
    {
        DevicePath::new(value.raw_path.as_str())
    }
}

impl FromSpecImpl<&DevicePath> for DevicePath {
    open spec fn obeys_from_spec() -> bool {
        false
    }

    open spec fn from_spec(v: &DevicePath) -> DevicePath {
        arbitrary()
    }
}

/// A squashed path is a single file name: it holds no `/`.
pub proof fn lemma_squashed_is_file_name(raw: Seq<char>)
    ensures
        !squashed_form(raw).contains(DEVICE_PATH_SEP_CHAR),
{
    lemma_replaced_free_of(raw, DEVICE_PATH_SEP_CHAR, REPLACED_DEVICE_PATH_SEP_CHAR);
}

/// Reading back the squashed form of a device path gives the device path,
/// unless the path has a backslash right before a `/`.
pub proof fn lemma_squash_roundtrip(raw: Seq<char>)
    requires
        !has_escape_before(raw, DEVICE_PATH_SEP_CHAR),
    ensures
        raw_form(squashed_form(raw)) == raw,
{
    lemma_unreplaced_replaced(raw, DEVICE_PATH_SEP_CHAR, REPLACED_DEVICE_PATH_SEP_CHAR);
}

/// A squashed device path placed in any directory reads back, through
/// [`DevicePath::from_path`], as that device path: the file name of the joined
/// path is the squashed path, and it reads back as the raw path (unless the
/// raw path has a backslash right before a `/`). The squashed path must be a
/// usable file name: non-empty and neither `.` nor `..`.
pub proof fn lemma_from_path_reads_back(dir: Seq<char>, raw: Seq<char>)
    requires
        !has_escape_before(raw, DEVICE_PATH_SEP_CHAR),
        squashed_form(raw).len() > 0,
        squashed_form(raw) != "."@,
        squashed_form(raw) != ".."@,
    ensures
        path_file_name_of(dir + seq![DEVICE_PATH_SEP_CHAR] + squashed_form(raw)) == Some(squashed_form(raw)),
        raw_form(squashed_form(raw)) == raw,
{
    lemma_squashed_is_file_name(raw);
    lemma_path_file_name_joined(dir, squashed_form(raw));
    lemma_squash_roundtrip(raw);
}

/// Squashing is one-to-one on paths without a backslash right before a `/`.
/// (A `%` and a backslash followed by `/` both squash to a backslash
/// followed by `%`.)
pub proof fn lemma_squash_injective(a: Seq<char>, b: Seq<char>)
    requires
        !has_escape_before(a, DEVICE_PATH_SEP_CHAR),
        !has_escape_before(b, DEVICE_PATH_SEP_CHAR),
        squashed_form(a) == squashed_form(b),
    ensures
        a == b,
{
    lemma_squash_roundtrip(a);
    lemma_squash_roundtrip(b);
}

/// The file name of a path holds no `/`, and an extension holds no `.`.
pub proof fn lemma_file_name_parts(raw: Seq<char>)
    ensures
        !file_name_of(raw).contains(DEVICE_PATH_SEP_CHAR),
        extension_of(file_name_of(raw)) matches Some(e) ==> !e.contains('.'),
{
    lemma_last_index_of(raw, DEVICE_PATH_SEP_CHAR);
    let f = file_name_of(raw);
    match last_index_of(raw, DEVICE_PATH_SEP_CHAR) {
        Some(i) => {
            assert forall|j: int| 0 <= j < f.len() implies f[j] != DEVICE_PATH_SEP_CHAR by {
                assert(f[j] == raw[i + 1 + j]);
            }
        },
        None => {},
    }
    lemma_last_index_of(f, '.');
    match last_index_of(f, '.') {
        Some(i) => {
            let e = f.skip(i + 1);
            assert forall|j: int| 0 <= j < e.len() implies e[j] != '.' by {
                assert(e[j] == f[i + 1 + j]);
            }
        },
        None => {},
    }
}

/// The file name is the end of the path that follows its last `/` (the whole
/// path when it has none), and an extension is the end of the file name that
/// follows its last `.`.
pub proof fn lemma_file_name_is_last_part(raw: Seq<char>)
    ensures
        ({
            let f = file_name_of(raw);
            &&& f.len() <= raw.len()
            &&& raw.skip(raw.len() - f.len()) == f
            &&& f.len() < raw.len() ==> raw[raw.len() - f.len() - 1] == DEVICE_PATH_SEP_CHAR
            &&& f.len() == raw.len() ==> !raw.contains(DEVICE_PATH_SEP_CHAR)
        }),
        extension_of(file_name_of(raw)) matches Some(e) ==> {
            let f = file_name_of(raw);
            &&& e.len() < f.len()
            &&& f.skip(f.len() - e.len()) == e
            &&& f[f.len() - e.len() - 1] == '.'
        },
        extension_of(file_name_of(raw)) is None ==> !file_name_of(raw).contains('.'),
{
    lemma_last_index_of(raw, DEVICE_PATH_SEP_CHAR);
    let f = file_name_of(raw);
    match last_index_of(raw, DEVICE_PATH_SEP_CHAR) {
        Some(i) => {
            assert(raw.skip(raw.len() - f.len()) =~= f);
        },
        None => {
            assert(raw.skip(0) =~= raw);
        },
    }
    lemma_last_index_of(f, '.');
    match last_index_of(f, '.') {
        Some(i) => {
            let e = f.skip(i + 1);
            assert(f.skip(f.len() - e.len()) =~= e);
        },
        None => {},
    }
}

/// Removing the extension leaves a prefix of the squashed path. When it
/// removes something, what it removes is a `.` and an end that holds no
/// other `.` and no separator; when it removes nothing, the path has no `.`
/// or a separator follows its last `.`.
pub proof fn lemma_without_extension_shape(s: Seq<char>)
    ensures
        ({
            let w = without_extension(s);
            &&& w.len() <= s.len()
            &&& s.take(w.len() as int) == w
            &&& w.len() < s.len() ==> {
                &&& s[w.len() as int] == '.'
                &&& !s.skip(w.len() + 1int).contains('.')
                &&& !has_separator(s.skip(w.len() + 1int))
            }
            &&& w.len() == s.len() ==> (!s.contains('.') || has_separator(
                s.skip(last_index_of(s, '.')->0 + 1),
            ))
        }),
{
    lemma_last_index_of(s, '.');
    match last_index_of(s, '.') {
        Some(i) => {
            if !has_separator(s.skip(i + 1)) {
                assert(s.take(i) =~= s.take(without_extension(s).len() as int));
                let tail = s.skip(i + 1);
                assert forall|j: int| 0 <= j < tail.len() implies tail[j] != '.' by {
                    assert(tail[j] == s[i + 1 + j]);
                }
            } else {
                assert(s.take(s.len() as int) =~= s);
            }
        },
        None => {
            assert(s.take(s.len() as int) =~= s);
        },
    }
}

} // verus!
