//! Rows of the call-graph database, method and class specifications, call
//! paths and the parameters of method and class searches.

use vstd::prelude::*;
use vstd::std_specs::cmp::PartialEqSpecImpl;
use vstd::std_specs::convert::FromSpecImpl;
use vstd::string::StringExecFns;
use crate::text::str_eq;
use crate::utils::class_name::cow_as_str;
use crate::utils::class_name::names_equal;
use crate::utils::class_name::smali_form;
use crate::utils::ClassName;

verus! {

/// The source name under which classes of the framework itself are recorded.
pub const FRAMEWORK_SOURCE: &'static str = "framework";

/// A call from one method to another.
#[derive(Debug, Clone)]
pub struct Call {
    pub caller: i32,
    pub callee: i32,
}

/// A class and its superclass.
#[derive(Debug, Clone)]
pub struct Super {
    pub parent: i32,
    pub child: i32,
}

/// A class and an interface that it implements.
#[derive(Debug, Clone)]
pub struct Interface {
    pub interface: i32,
    pub class: i32,
}

/// A method row.
#[derive(Debug, Clone)]
pub struct Method {
    pub id: i32,
    pub class: i32,
    pub name: String,
    pub args: String,
    pub ret: String,
    pub access_flags: i64,
    pub source: i32,
}

/// A class row.
#[derive(Debug, Clone)]
pub struct Class {
    pub id: i32,
    pub name: String,
    pub access_flags: i64,
    pub source: i32,
}

/// A source (APK or framework jar) of classes.
#[derive(Debug, Clone)]
pub struct Source {
    pub id: i32,
    pub name: String,
}

/// How far the loading of a source has come.
#[derive(Debug, Clone)]
pub struct LoadStatus {
    pub source: i32,
    pub kind: i32,
}

/// A class with its access flags (as their bit set) and its source.
#[derive(Debug, Clone)]
pub struct ClassSpec {
    pub name: ClassName,
    pub access_flags: u64,
    pub source: String,
}

/// A method: its class, name, signature, return type, source and access
/// flags (as their bit set).
#[derive(Debug, Eq)]
pub struct MethodSpec {
    pub class: ClassName,
    pub name: String,
    pub signature: String,
    pub ret: String,
    pub source: String,
    pub access_flags: u64,
}

impl Clone for MethodSpec {
    fn clone(&self) -> (r: MethodSpec)
        ensures
            r == *self,
    {
        MethodSpec {
            class: self.class.clone(),
            name: self.name.clone(),
            signature: self.signature.clone(),
            ret: self.ret.clone(),
            source: self.source.clone(),
            access_flags: self.access_flags,
        }
    }
}

/// Two method specifications name the same method: same source, class,
/// name, signature and return type. Access flags are left out.
pub open spec fn same_method(a: MethodSpec, b: MethodSpec) -> bool {
    &&& a.source@ == b.source@
    &&& names_equal(a.class@, b.class@)
    &&& a.name@ == b.name@
    &&& a.signature@ == b.signature@
    &&& a.ret@ == b.ret@
}

/// The smali text of a method: `Lclass;->name(signature)ret`.
pub open spec fn method_smali(m: MethodSpec) -> Seq<char> {
    smali_form(m.class@) + "->"@ + m.name@ + "("@ + m.signature@ + ")"@ + m.ret@
}

impl MethodSpec {
    /// Whether `other` names the same method; access flags are left out.
    pub fn same_as(&self, other: &MethodSpec) -> (r: bool)
        ensures
            r == same_method(*self, *other),
            r <==> (self.source@ == other.source@ && names_equal(self.class@, other.class@)
                && self.name@ == other.name@ && self.signature@ == other.signature@
                && self.ret@ == other.ret@),
    {
        str_eq(self.source.as_str(), other.source.as_str()) && self.class.eq_str(other.class.as_str())
            && str_eq(self.name.as_str(), other.name.as_str()) && str_eq(
            self.signature.as_str(),
            other.signature.as_str(),
        ) && str_eq(self.ret.as_str(), other.ret.as_str())
    }

    /// The method in smali notation.
    pub fn as_smali(&self) -> (r: String)
        ensures
            r@ == method_smali(*self),
            r@.len() == smali_form(self.class@).len() + self.name@.len() + self.signature@.len()
                + self.ret@.len() + 4,
            r@[smali_form(self.class@).len() + 2int + self.name@.len()] == '(',
    {
        let smali = self.class.get_smali_name();
        let mut s = String::from_str(cow_as_str(&smali));
        s.append("->");
        s.append(self.name.as_str());
        s.append("(");
        s.append(self.signature.as_str());
        s.append(")");
        s.append(self.ret.as_str());
        proof {
            lemma_method_smali_layout(*self);
        }
        s
    }

    /// The method as it is displayed: its smali notation.
    pub fn to_display_string(&self) -> (r: String)
        ensures
            r@ == method_smali(*self),
    {
        self.as_smali()
    }
}

impl PartialEq for MethodSpec {
    fn eq(&self, other: &MethodSpec) -> (r: bool) {
        self.same_as(other)
    }
}

impl PartialEqSpecImpl for MethodSpec {
    open spec fn obeys_eq_spec() -> bool {
        true
    }

    open spec fn eq_spec(&self, other: &MethodSpec) -> bool {
        same_method(*self, *other)
    }
}

/// A path of methods that ends at a target call.
#[derive(Debug, Clone, PartialEq, Eq)]
pub struct MethodCallPath {
    /// The methods, from the source of the path to its destination.
    pub path: Vec<MethodSpec>,
}

impl MethodCallPath {
    #[inline]
    pub fn is_empty(&self) -> (r: bool)
        ensures
            r == (self.path@.len() == 0),
    {
        self.path.len() == 0
    }

    #[inline]
    pub fn is_not_empty(&self) -> (r: bool)
        ensures
            r == (self.path@.len() > 0),
    {
        !self.is_empty()
    }

    /// The first method of the path.
    pub fn get_src_method(&self) -> (r: Option<&MethodSpec>)
        ensures
            r == (if self.path@.len() > 0 { Some(&self.path@[0]) } else { None::<&MethodSpec> }),
    {
        if self.path.len() > 0 {
            Some(&self.path[0])
        } else {
            None
        }
    }

    /// The last method of the path.
    pub fn get_dst_method(&self) -> (r: Option<&MethodSpec>)
        ensures
            r == (if self.path@.len() > 0 {
                Some(&self.path@[self.path@.len() - 1])
            } else {
                None::<&MethodSpec>
            }),
    {
        if self.path.len() > 0 {
            Some(&self.path[self.path.len() - 1])
        } else {
            None
        }
    }

    /// The class of the first method of the path.
    pub fn get_src_class(&self) -> (r: Option<&ClassName>)
        ensures
            r == (if self.path@.len() > 0 { Some(&self.path@[0].class) } else { None::<&ClassName> }),
    {
        match self.get_src_method() {
            Some(m) => Some(&m.class),
            None => None,
        }
    }

    /// The class of the last method of the path.
    pub fn get_dst_class(&self) -> (r: Option<&ClassName>)
        ensures
            r == (if self.path@.len() > 0 {
                Some(&self.path@[self.path@.len() - 1].class)
            } else {
                None::<&ClassName>
            }),
    {
        match self.get_dst_method() {
            Some(m) => Some(&m.class),
            None => None,
        }
    }

    /// The source of the first method of the path.
    pub fn get_source(&self) -> (r: Option<&str>)
        ensures
            match r {
                Some(s) => self.path@.len() > 0 && s@ == self.path@[0].source@,
                None => self.path@.len() == 0,
            },
    {
        match self.get_src_method() {
            Some(m) => Some(m.source.as_str()),
            None => None,
        }
    }

    /// The first method of a non-empty path.
    pub fn must_get_src_method(&self) -> (r: &MethodSpec)
        requires
            self.path@.len() > 0,
        ensures
            *r == self.path@[0],
    {
        &self.path[0]
    }

    /// The last method of a non-empty path.
    pub fn must_get_dst_method(&self) -> (r: &MethodSpec)
        requires
            self.path@.len() > 0,
        ensures
            *r == self.path@[self.path@.len() - 1],
    {
        &self.path[self.path.len() - 1]
    }

    /// The class of the first method of a non-empty path.
    pub fn must_get_src_class(&self) -> (r: &ClassName)
        requires
            self.path@.len() > 0,
        ensures
            *r == self.path@[0].class,
    {
        &self.must_get_src_method().class
    }

    /// The class of the last method of a non-empty path.
    pub fn must_get_dst_class(&self) -> (r: &ClassName)
        requires
            self.path@.len() > 0,
        ensures
            *r == self.path@[self.path@.len() - 1].class,
    {
        &self.must_get_dst_method().class
    }

    /// The source of the first method of a non-empty path.
    pub fn must_get_source(&self) -> (r: &str)
        requires
            self.path@.len() > 0,
        ensures
            r@ == self.path@[0].source@,
    {
        self.must_get_src_method().source.as_str()
    }
}

impl From<Vec<MethodSpec>> for MethodCallPath {
    fn from(path: Vec<MethodSpec>) -> (r: MethodCallPath) {
        MethodCallPath { path }
    }
}

impl FromSpecImpl<Vec<MethodSpec>> for MethodCallPath {
    open spec fn obeys_from_spec() -> bool {
        true
    }

    open spec fn from_spec(v: Vec<MethodSpec>) -> MethodCallPath {
        MethodCallPath { path: v }
    }
}

/// What a method search looks for.
pub enum MethodSearchParams<'a> {
    /// Search for the method by name only: *bar*
    ByName { name: &'a str },
    /// Search for the method by class only: Lfoo;->*
    ByClass { class: &'a ClassName },
    /// Search for the method by name and signature: *bar(IZ)
    ByNameAndSignature { name: &'a str, signature: &'a str },
    /// Search for the method by class and name
    ByClassAndName { class: &'a ClassName, name: &'a str },
    /// Search for a fully specified method: Lfoo;->bar(IZ)
    ByFullSpec { class: &'a ClassName, name: &'a str, signature: &'a str },
}

/// The error text for a search by class and signature without a name.
pub open spec fn class_and_signature_only_error() -> Seq<char> {
    "class and signature only currently unsupported"@
}

/// The error text for a search with neither name nor class.
pub open spec fn need_name_or_class_error() -> Seq<char> {
    "need name or class"@
}

/// The search that the given parts describe, if they describe one: a search
/// needs a name or a class, and a signature is only supported with a name.
pub open spec fn search_params<'a>(
    name: Option<&'a str>,
    class: Option<&'a ClassName>,
    signature: Option<&'a str>,
) -> Option<MethodSearchParams<'a>> {
    match (name, class, signature) {
        (Some(n), Some(c), Some(s)) => Some(MethodSearchParams::ByFullSpec { class: c, name: n, signature: s }),
        (Some(n), Some(c), None) => Some(MethodSearchParams::ByClassAndName { class: c, name: n }),
        (Some(n), None, Some(s)) => Some(MethodSearchParams::ByNameAndSignature { name: n, signature: s }),
        (Some(n), None, None) => Some(MethodSearchParams::ByName { name: n }),
        (None, Some(c), None) => Some(MethodSearchParams::ByClass { class: c }),
        (None, Some(_), Some(_)) => None,
        (None, None, _) => None,
    }
}

/// The error text for parts that describe no search.
pub open spec fn search_params_error(class: Option<&ClassName>) -> Seq<char> {
    if class is Some {
        class_and_signature_only_error()
    } else {
        need_name_or_class_error()
    }
}

impl<'a> MethodSearchParams<'a> {
    /// The search that the given parts describe. A search needs a name or a
    /// class, and a signature is only supported together with a name.
    pub fn new(name: Option<&'a str>, class: Option<&'a ClassName>, signature: Option<&'a str>) -> (r:
        Result<Self, &'static str>)
        ensures
            match search_params(name, class, signature) {
                Some(p) => r == Ok::<Self, &'static str>(p),
                None => r matches Err(e) && e@ == search_params_error(class),
            },
    {
        match name {
            Some(name) => match class {
                Some(class) => match signature {
                    Some(signature) => Ok(MethodSearchParams::ByFullSpec { class, name, signature }),
                    None => Ok(MethodSearchParams::ByClassAndName { class, name }),
                },
                None => match signature {
                    Some(signature) => Ok(MethodSearchParams::ByNameAndSignature { name, signature }),
                    None => Ok(MethodSearchParams::ByName { name }),
                },
            },
            None => match class {
                Some(class) => match signature {
                    None => Ok(MethodSearchParams::ByClass { class }),
                    Some(_) => Err("class and signature only currently unsupported"),
                },
                None => Err("need name or class"),
            },
        }
    }
}

/// A class to search for, optionally in one source.
pub struct ClassSearch<'a> {
    pub class: &'a ClassName,
    pub source: Option<&'a str>,
}

impl<'a> From<&'a ClassName> for ClassSearch<'a> {
    fn from(value: &'a ClassName) -> (r: ClassSearch<'a>) {
        ClassSearch::new(value, None)
    }
}

impl<'a> FromSpecImpl<&'a ClassName> for ClassSearch<'a> {
    open spec fn obeys_from_spec() -> bool {
        true
    }

    open spec fn from_spec(v: &'a ClassName) -> ClassSearch<'a> {
        ClassSearch { class: v, source: None }
    }
}

impl<'a> ClassSearch<'a> {
    /// The same search, restricted to `source`.
    #[inline]
    pub fn with_source(self, source: &'a str) -> (r: ClassSearch<'a>)
        ensures
            r.class == self.class,
            r.source == Some(source),
    {
        let mut s = self;
        s.source = Some(source);
        s
    }

    pub fn new(class: &'a ClassName, source: Option<&'a str>) -> (r: ClassSearch<'a>)
        ensures
            r.class == class,
            r.source == source,
    {
        ClassSearch { class, source }
    }
}

/// A method to search for, optionally in one source.
pub struct MethodSearch<'a> {
    pub param: MethodSearchParams<'a>,
    pub source: Option<&'a str>,
}

impl<'a> From<MethodSearchParams<'a>> for MethodSearch<'a> {
    fn from(value: MethodSearchParams<'a>) -> (r: MethodSearch<'a>) {
        MethodSearch::new(value, None)
    }
}

impl<'a> FromSpecImpl<MethodSearchParams<'a>> for MethodSearch<'a> {
    open spec fn obeys_from_spec() -> bool {
        true
    }

    open spec fn from_spec(v: MethodSearchParams<'a>) -> MethodSearch<'a> {
        MethodSearch { param: v, source: None }
    }
}

impl<'a> MethodSearch<'a> {
    /// The same search, restricted to `source`.
    #[inline]
    pub fn with_source(self, source: &'a str) -> (r: MethodSearch<'a>)
        ensures
            r.param == self.param,
            r.source == Some(source),
    {
        let mut s = self;
        s.source = Some(source);
        s
    }

    pub fn new(param: MethodSearchParams<'a>, source: Option<&'a str>) -> (r: MethodSearch<'a>)
        ensures
            r.param == param,
            r.source == source,
    {
        MethodSearch { param, source }
    }

    /// The search that the given parts describe, as [`MethodSearchParams::new`]
    /// builds it, restricted to `source` when one is given.
    pub fn new_from_opts(
        class: Option<&'a ClassName>,
        name: Option<&'a str>,
        signature: Option<&'a str>,
        source: Option<&'a str>,
    ) -> (r: Result<Self, &'static str>)
        ensures
            match search_params(name, class, signature) {
                Some(p) => r matches Ok(s) && s.param == p && s.source == source,
                None => r matches Err(e) && e@ == search_params_error(class),
            },
    {
        let param = MethodSearchParams::new(name, class, signature)?;
        Ok(MethodSearch { param, source })
    }
}

/// Method specifications that differ only in their access flags name the
/// same method.
pub proof fn lemma_same_method_ignores_flags(a: MethodSpec, b: MethodSpec)
    requires
        a.class == b.class,
        a.name@ == b.name@,
        a.signature@ == b.signature@,
        a.ret@ == b.ret@,
        a.source@ == b.source@,
    ensures
        same_method(a, b),
{
    crate::utils::class_name::lemma_names_equal_reflexive(a.class@);
}

/// Two method specifications are the same method exactly when their sources,
/// names, signatures and return types agree and their classes are equal in
/// either form; in particular methods that differ in any one of these (such
/// as overloads that differ only in signature) are different.
pub proof fn lemma_same_method_fields(a: MethodSpec, b: MethodSpec)
    ensures
        same_method(a, b) <==> (a.source@ == b.source@ && names_equal(a.class@, b.class@) && a.name@
            == b.name@ && a.signature@ == b.signature@ && a.ret@ == b.ret@),
        a.signature@ != b.signature@ ==> !same_method(a, b),
        a.name@ != b.name@ ==> !same_method(a, b),
        a.ret@ != b.ret@ ==> !same_method(a, b),
        a.source@ != b.source@ ==> !same_method(a, b),
        !names_equal(a.class@, b.class@) ==> !same_method(a, b),
{
}

/// The smali text of a method is laid out as: the class in smali form, `->`,
/// the name, `(` right after the name, the signature, `)`, and the return
/// type, whatever the signature is (an empty one included).
pub proof fn lemma_method_smali_layout(m: MethodSpec)
    ensures
        ({
            let s = method_smali(m);
            let c = smali_form(m.class@);
            let cl = c.len() as int;
            let p = cl + 2 + m.name@.len();
            let q = p + 1 + m.signature@.len();
            &&& s.len() == q + 1 + m.ret@.len()
            &&& s.take(cl) == c
            &&& s[cl] == '-'
            &&& s[cl + 1] == '>'
            &&& s.subrange(cl + 2, p) == m.name@
            &&& s[p] == '('
            &&& s.subrange(p + 1, q) == m.signature@
            &&& s[q] == ')'
            &&& s.skip(q + 1) == m.ret@
        }),
{
    reveal_strlit("->");
    reveal_strlit("(");
    reveal_strlit(")");
    let s = method_smali(m);
    let c = smali_form(m.class@);
    let cl = c.len() as int;
    let p = cl + 2 + m.name@.len();
    let q = p + 1 + m.signature@.len();
    assert(s.take(cl) =~= c);
    assert(s.subrange(cl + 2, p) =~= m.name@);
    assert(s.subrange(p + 1, q) =~= m.signature@);
    assert(s.skip(q + 1) =~= m.ret@);
}

/// A search is described exactly when a name is given, or a class is given
/// without a signature. The search keeps every given part and nothing else:
/// the class is used exactly when one is given, and so are the name and the
/// signature.
pub proof fn lemma_search_params_parts<'a>(
    name: Option<&'a str>,
    class: Option<&'a ClassName>,
    signature: Option<&'a str>,
)
    ensures
        search_params(name, class, signature) is Some <==> (name is Some || (class is Some
            && signature is None)),
        search_params(name, class, signature) matches Some(p) ==> match p {
            MethodSearchParams::ByName { name: n } => name == Some(n) && class is None
                && signature is None,
            MethodSearchParams::ByClass { class: c } => class == Some(c) && name is None
                && signature is None,
            MethodSearchParams::ByNameAndSignature { name: n, signature: s } => name == Some(n)
                && signature == Some(s) && class is None,
            MethodSearchParams::ByClassAndName { class: c, name: n } => class == Some(c)
                && name == Some(n) && signature is None,
            MethodSearchParams::ByFullSpec { class: c, name: n, signature: s } => class == Some(c)
                && name == Some(n) && signature == Some(s),
        },
        search_params(name, class, signature) is None ==> (class is Some
            <==> search_params_error(class) == class_and_signature_only_error()),
{
    reveal_strlit("class and signature only currently unsupported");
    reveal_strlit("need name or class");
    assert(class_and_signature_only_error() != need_name_or_class_error()) by {
        assert(class_and_signature_only_error()[0] != need_name_or_class_error()[0]);
    }
}

} // verus!
