//! What holds of every resolution, proved from the definitions.

use crate::reference::{
    lemma_reading_splits, lemma_reading_unique, matches_grammar, reading, reads_as, Fields,
};
use crate::resolver::{resolution_of, Resolved};
use crate::target::{
    base_url, ends_namespace, file_name, hyphenated, lemma_namespace_len, namespace_len,
    namespace_of, release_url, repository, separator_at, target_url,
};
use crate::text::is_word;
use vstd::prelude::*;

verus! {

/// `segment` is what follows the last slash of `url`.
pub open spec fn is_trailing_segment(url: Seq<char>, segment: Seq<char>) -> bool {
    &&& segment.len() < url.len()
    &&& url[url.len() - segment.len() - 1] == '/'
    &&& url.skip(url.len() - segment.len()) == segment
    &&& !segment.contains('/')
}

/// Two dots stand in `text` with something left after the second.
pub open spec fn has_two_dots_before_remainder(text: Seq<char>) -> bool {
    exists|i: int, j: int|
        0 <= i < j && j + 1 < text.len() && #[trigger] text[i] == '.' && #[trigger] text[j] == '.'
}

/// A publisher and a name that are words, and a version that is not empty,
/// joined by dots, resolve, and to those very fields. The namespace of the
/// result is the name up to its first separator, or the name itself where it
/// has none, and it names the repository of the download location.
pub proof fn law_well_formed_reference_resolves(
    publisher: Seq<char>,
    name: Seq<char>,
    version: Seq<char>,
)
    requires
        is_word(publisher),
        is_word(name),
        version.len() > 0,
    ensures
        ({
            let fields = Fields { publisher, name, version };
            &&& resolution_of(fields.text()) == Some(
                Resolved { fields, target: target_url(fields) },
            )
            &&& target_url(fields) == base_url() + hyphenated(publisher) + seq!['/'] + repository(
                namespace_of(name),
            ) + "/releases/download/"@ + version + seq!['/'] + file_name(fields)
        }),
        forall|i: int|
            separator_at(name, i) && (forall|j: int| 0 <= j < i ==> !separator_at(name, j))
                ==> namespace_of(name) == name.take(i),
        (forall|i: int| !separator_at(name, i)) ==> namespace_of(name) == name,
{
    let fields = Fields { publisher, name, version };
    assert(reads_as(fields.text(), fields));
    lemma_reading_unique(fields.text(), fields, reading(fields.text()));
    lemma_namespace_len(name);
    let len = namespace_len(name);
    assert forall|i: int|
        separator_at(name, i) && (forall|j: int|
            0 <= j < i ==> !separator_at(name, j)) implies namespace_of(name) == name.take(i) by {
        assert(ends_namespace(name, i));
        assert(len == i);
    }
    if forall|i: int| !separator_at(name, i) {
        assert(len == name.len());
        assert(name.take(len) =~= name);
    }
}

/// The download location of a resolved text ends in a slash, the text itself
/// and `.tar`, whatever the namespace is.
pub proof fn law_target_ends_in_file_name(text: Seq<char>)
    requires
        matches_grammar(text),
    ensures
        resolution_of(text) matches Some(resolved) && resolved.target == release_url(
            resolved.fields,
        ) + seq!['/'] + (text + ".tar"@),
{
}

/// Round trip: where the text of a reference holds no slash, what follows the
/// last slash of its download location is the text itself and `.tar`.
pub proof fn law_trailing_segment_is_reference(text: Seq<char>)
    requires
        matches_grammar(text),
        !text.contains('/'),
    ensures
        resolution_of(text) matches Some(resolved) && is_trailing_segment(
            resolved.target,
            text + ".tar"@,
        ),
{
    reveal_strlit(".tar");
    let fields = reading(text);
    let url = target_url(fields);
    let segment = text + ".tar"@;
    let directory = release_url(fields) + seq!['/'];
    assert(url == directory + segment);
    assert(url.skip(url.len() - segment.len()) =~= segment);
    assert(url[url.len() - segment.len() - 1] == directory[directory.len() - 1]);
    if segment.contains('/') {
        let i = choose|i: int| 0 <= i < segment.len() && segment[i] == '/';
        if i < text.len() {
            assert(text[i] == '/');
        } else {
            assert(segment[i] == ".tar"@[i - text.len()]);
        }
    }
}

/// Underscores give way to hyphens in the owner of the download location and
/// nowhere else: the owner is the publisher with each underscore replaced and
/// every other character kept, the namespace is the front of the name as it
/// stands, and the version and the file name are written as they were given.
pub proof fn law_hyphens_only_in_owner(text: Seq<char>)
    requires
        matches_grammar(text),
    ensures
        ({
            let fields = reading(text);
            let owner = hyphenated(fields.publisher);
            let namespace = namespace_of(fields.name);
            &&& resolution_of(text) matches Some(resolved) && resolved.target == base_url()
                + owner + seq!['/'] + "slipway_"@ + namespace + "/releases/download/"@
                + fields.version + seq!['/'] + text + ".tar"@
            &&& owner.len() == fields.publisher.len()
            &&& forall|i: int|
                0 <= i < owner.len() ==> #[trigger] owner[i] == if fields.publisher[i] == '_' {
                    '-'
                } else {
                    fields.publisher[i]
                }
            &&& namespace.is_prefix_of(fields.name)
        }),
{
    let fields = reading(text);
    let owner = hyphenated(fields.publisher);
    let namespace = namespace_of(fields.name);
    lemma_namespace_len(fields.name);
    assert(target_url(fields) =~= base_url() + owner + seq!['/'] + "slipway_"@ + namespace
        + "/releases/download/"@ + fields.version + seq!['/'] + text + ".tar"@);
}

/// A text without two dots and something after the second does not resolve.
pub proof fn law_missing_separator_is_rejected(text: Seq<char>)
    requires
        !has_two_dots_before_remainder(text),
    ensures
        resolution_of(text) is None,
{
    if matches_grammar(text) {
        let fields = reading(text);
        lemma_reading_splits(text, fields);
        assert(text[fields.first_dot()] == '.' && text[fields.second_dot()] == '.');
    }
}

} // verus!
