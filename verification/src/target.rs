//! The download location of a component: owner, repository, tag and file name.

use crate::reference::{ComponentReference, Fields};
use crate::text::{chars_of, string_of};
use vstd::prelude::*;

verus! {

/// `s` with every underscore replaced by a hyphen.
pub open spec fn hyphenated(s: Seq<char>) -> Seq<char> {
    Seq::new(
        s.len(),
        |i: int|
            if s[i] == '_' {
                '-'
            } else {
                s[i]
            },
    )
}

/// A namespace separator, two underscores in a row, starts at `i`.
pub open spec fn separator_at(name: Seq<char>, i: int) -> bool {
    &&& 0 <= i
    &&& i + 1 < name.len()
    &&& name[i] == '_'
    &&& name[i + 1] == '_'
}

/// `len` is where the namespace of `name` ends: at the first separator, or
/// at the end of the name when it has none.
pub open spec fn ends_namespace(name: Seq<char>, len: int) -> bool {
    &&& 0 <= len <= name.len()
    &&& len == name.len() || separator_at(name, len)
    &&& forall|i: int| 0 <= i < len ==> !separator_at(name, i)
}

/// The length of the namespace of `name`.
pub open spec fn namespace_len(name: Seq<char>) -> int {
    choose|len: int| ends_namespace(name, len)
}

/// The namespace of `name`: what stands before its first separator, or all of
/// it when there is none.
pub open spec fn namespace_of(name: Seq<char>) -> Seq<char> {
    name.take(namespace_len(name))
}

/// Only one length ends the namespace of a name.
pub proof fn lemma_namespace_end_unique(name: Seq<char>, a: int, b: int)
    requires
        ends_namespace(name, a),
        ends_namespace(name, b),
    ensures
        a == b,
{
}

/// Some length ends the namespace among the first `upto` positions, unless
/// none of them starts a separator.
proof fn lemma_namespace_end_within(name: Seq<char>, upto: int)
    requires
        0 <= upto <= name.len(),
    ensures
        (exists|len: int| 0 <= len < upto && ends_namespace(name, len)) || (forall|i: int|
            0 <= i < upto ==> !separator_at(name, i)),
    decreases upto,
{
    if upto > 0 {
        lemma_namespace_end_within(name, upto - 1);
        if forall|i: int| 0 <= i < upto - 1 ==> !separator_at(name, i) {
            if separator_at(name, upto - 1) {
                assert(ends_namespace(name, upto - 1));
            }
        }
    }
}

/// Every name has a namespace, and `namespace_len` is where it ends.
pub proof fn lemma_namespace_len(name: Seq<char>)
    ensures
        ends_namespace(name, namespace_len(name)),
{
    lemma_namespace_end_within(name, name.len() as int);
    if !exists|len: int| 0 <= len < name.len() && ends_namespace(name, len) {
        assert(ends_namespace(name, name.len() as int));
    }
}

/// The host and scheme under which every release is found.
pub open spec fn base_url() -> Seq<char> {
    "https://github.com/"@
}

/// The repository of a namespace.
pub open spec fn repository(namespace: Seq<char>) -> Seq<char> {
    "slipway_"@ + namespace
}

/// The name of the released file: the reference as it was given, then `.tar`.
pub open spec fn file_name(fields: Fields) -> Seq<char> {
    fields.text() + ".tar"@
}

/// The location of the release that holds the file, without the file name.
pub open spec fn release_url(fields: Fields) -> Seq<char> {
    base_url() + hyphenated(fields.publisher) + seq!['/'] + repository(namespace_of(fields.name))
        + "/releases/download/"@ + fields.version
}

/// The download location of the component.
pub open spec fn target_url(fields: Fields) -> Seq<char> {
    release_url(fields) + seq!['/'] + file_name(fields)
}

/// Replaces every underscore of `s` by a hyphen.
pub fn hyphenate(s: &str) -> (out: String)
    ensures
        out@ == hyphenated(s@),
{
    let chars = chars_of(s);
    let mut out = String::new();
    let mut i: usize = 0;
    while i < chars.len()
        invariant
            chars@ == s@,
            0 <= i <= chars@.len(),
            out@ == hyphenated(s@).take(i as int),
        decreases chars@.len() - i,
    {
        let c = chars[i];
        if c == '_' {
            out.push('-');
        } else {
            out.push(c);
        }
        i = i + 1;
        assert(hyphenated(s@).take(i as int) == hyphenated(s@).take(i - 1).push(
            hyphenated(s@)[i - 1],
        ));
    }
    assert(hyphenated(s@).take(i as int) == hyphenated(s@));
    out
}

/// Cuts the namespace out of `name`.
pub fn namespace(name: &str) -> (out: String)
    ensures
        out@ == namespace_of(name@),
{
    let chars = chars_of(name);
    let mut end: usize = 0;
    while end < chars.len() && !(end + 1 < chars.len() && chars[end] == '_' && chars[end + 1]
        == '_')
        invariant
            chars@ == name@,
            0 <= end <= chars@.len(),
            forall|i: int| 0 <= i < end ==> !separator_at(name@, i),
        decreases chars@.len() - end,
    {
        end = end + 1;
    }
    proof {
        assert(ends_namespace(name@, end as int));
        lemma_namespace_len(name@);
        lemma_namespace_end_unique(name@, end as int, namespace_len(name@));
    }
    string_of(&chars, 0, end)
}

impl ComponentReference {
    /// The namespace of the component: its name up to the first separator.
    pub fn namespace(&self) -> (out: String)
        ensures
            out@ == namespace_of(self@.name),
    {
        namespace(self.name())
    }

    /// The name of the released file.
    pub fn file_name(&self) -> (out: String)
        ensures
            out@ == file_name(self@),
    {
        let mut out = String::from_str(self.publisher());
        out.push('.');
        out.append(self.name());
        out.push('.');
        out.append(self.version());
        out.append(".tar");
        assert(out@ =~= file_name(self@));
        out
    }

    /// The download location of the component.
    pub fn target_url(&self) -> (out: String)
        ensures
            out@ == target_url(self@),
    {
        let owner = hyphenate(self.publisher());
        let namespace = self.namespace();
        let file = self.file_name();
        let mut out = String::from_str("https://github.com/");
        out.append(owner.as_str());
        out.push('/');
        out.append("slipway_");
        out.append(namespace.as_str());
        out.append("/releases/download/");
        out.append(self.version());
        out.push('/');
        out.append(file.as_str());
        assert(out@ =~= target_url(self@));
        out
    }
}

} // verus!
