//! Component references: the grammar `<publisher>.<name>.<version>` and its parser.

use crate::text::{chars_of, is_word, is_word_char, string_of, word_char};
use vstd::prelude::*;

verus! {

/// The three fields of a component reference, as mathematical strings.
pub struct Fields {
    pub publisher: Seq<char>,
    pub name: Seq<char>,
    pub version: Seq<char>,
}

impl Fields {
    /// Publisher and name are words; the version is any non-empty string.
    pub open spec fn well_formed(self) -> bool {
        &&& is_word(self.publisher)
        &&& is_word(self.name)
        &&& self.version.len() > 0
    }

    /// The fields joined by dots.
    pub open spec fn text(self) -> Seq<char> {
        self.publisher + seq!['.'] + self.name + seq!['.'] + self.version
    }

    /// Where the first dot of `text()` stands.
    pub open spec fn first_dot(self) -> int {
        self.publisher.len() as int
    }

    /// Where the second dot of `text()` stands.
    pub open spec fn second_dot(self) -> int {
        self.first_dot() + 1 + self.name.len()
    }
}

/// `text` reads as `fields`: the fields are well formed and spell `text`.
pub open spec fn reads_as(text: Seq<char>, fields: Fields) -> bool {
    fields.well_formed() && fields.text() == text
}

/// `text` belongs to the grammar of component references.
pub open spec fn matches_grammar(text: Seq<char>) -> bool {
    exists|fields: Fields| reads_as(text, fields)
}

/// The fields that a text of the grammar reads as; `lemma_reading_unique` shows
/// that there is only one choice.
pub open spec fn reading(text: Seq<char>) -> Fields {
    choose|fields: Fields| reads_as(text, fields)
}

/// The separating dots of `text` stand at `i` and `j`: words before `i` and
/// between the two, and something left after `j`.
pub open spec fn splits_at(text: Seq<char>, i: int, j: int) -> bool {
    &&& 0 < i
    &&& i + 1 < j
    &&& j + 1 < text.len()
    &&& text[i] == '.'
    &&& text[j] == '.'
    &&& forall|k: int| 0 <= k < i ==> is_word_char(#[trigger] text[k])
    &&& forall|k: int| i < k < j ==> is_word_char(#[trigger] text[k])
}

/// The fields cut out of `text` by dots at `i` and `j`.
pub open spec fn fields_between(text: Seq<char>, i: int, j: int) -> Fields {
    Fields {
        publisher: text.subrange(0, i),
        name: text.subrange(i + 1, j),
        version: text.subrange(j + 1, text.len() as int),
    }
}

/// A reading puts the dots right after the publisher and right after the name.
pub proof fn lemma_reading_splits(text: Seq<char>, fields: Fields)
    requires
        reads_as(text, fields),
    ensures
        splits_at(text, fields.first_dot(), fields.second_dot()),
        fields_between(text, fields.first_dot(), fields.second_dot()) == fields,
{
    let i = fields.first_dot();
    let j = fields.second_dot();
    assert forall|k: int| 0 <= k < i implies is_word_char(#[trigger] text[k]) by {
        assert(text[k] == fields.publisher[k]);
    }
    assert forall|k: int| i < k < j implies is_word_char(#[trigger] text[k]) by {
        assert(text[k] == fields.name[k - i - 1]);
    }
    let cut = fields_between(text, i, j);
    assert(cut.publisher =~= fields.publisher);
    assert(cut.name =~= fields.name);
    assert(cut.version =~= fields.version);
}

/// Dots that split a text give a reading of it.
pub proof fn lemma_split_reads(text: Seq<char>, i: int, j: int)
    requires
        splits_at(text, i, j),
    ensures
        reads_as(text, fields_between(text, i, j)),
{
    let cut = fields_between(text, i, j);
    assert forall|k: int| 0 <= k < cut.publisher.len() implies is_word_char(
        #[trigger] cut.publisher[k],
    ) by {
        assert(cut.publisher[k] == text[k]);
    }
    assert forall|k: int| 0 <= k < cut.name.len() implies is_word_char(#[trigger] cut.name[k]) by {
        assert(cut.name[k] == text[i + 1 + k]);
    }
    assert(cut.text() =~= text);
}

/// A text is split by at most one pair of dots.
pub proof fn lemma_split_unique(text: Seq<char>, i: int, j: int, k: int, l: int)
    requires
        splits_at(text, i, j),
        splits_at(text, k, l),
    ensures
        i == k,
        j == l,
{
    if i < k {
        assert(is_word_char(text[i]));
    }
    if k < i {
        assert(is_word_char(text[k]));
    }
    if j < l {
        assert(is_word_char(text[j]));
    }
    if l < j {
        assert(is_word_char(text[l]));
    }
}

/// A text has at most one reading.
pub proof fn lemma_reading_unique(text: Seq<char>, a: Fields, b: Fields)
    requires
        reads_as(text, a),
        reads_as(text, b),
    ensures
        a == b,
{
    lemma_reading_splits(text, a);
    lemma_reading_splits(text, b);
    lemma_split_unique(text, a.first_dot(), a.second_dot(), b.first_dot(), b.second_dot());
}

/// The number of word characters at the front of `chars[from..]`.
fn word_run(chars: &Vec<char>, from: usize) -> (end: usize)
    requires
        from <= chars@.len(),
    ensures
        from <= end <= chars@.len(),
        forall|k: int| from <= k < end ==> is_word_char(#[trigger] chars@[k]),
        end < chars@.len() ==> !is_word_char(chars@[end as int]),
{
    let mut end: usize = from;
    while end < chars.len() && word_char(chars[end])
        invariant
            from <= end <= chars@.len(),
            forall|k: int| from <= k < end ==> is_word_char(#[trigger] chars@[k]),
        decreases chars@.len() - end,
    {
        end = end + 1;
    }
    end
}

/// Finds the two separating dots of `chars`, if it has them.
fn separators(chars: &Vec<char>) -> (found: Option<(usize, usize)>)
    ensures
        match found {
            Some((i, j)) => splits_at(chars@, i as int, j as int),
            None => forall|i: int, j: int| !splits_at(chars@, i, j),
        },
{
    let i = word_run(chars, 0);
    if i == 0 || i >= chars.len() || chars[i] != '.' {
        assert forall|k: int, l: int| !splits_at(chars@, k, l) by {
            if splits_at(chars@, k, l) {
                assert(k < i ==> is_word_char(chars@[k]));
                assert(i < k ==> is_word_char(chars@[i as int]));
            }
        }
        return None;
    }
    let j = word_run(chars, i + 1);
    if j == i + 1 || j >= chars.len() || chars[j] != '.' || j + 1 >= chars.len() {
        assert forall|k: int, l: int| !splits_at(chars@, k, l) by {
            if splits_at(chars@, k, l) {
                assert(k < i ==> is_word_char(chars@[k]));
                assert(i < k ==> is_word_char(chars@[i as int]));
                assert(l < j ==> is_word_char(chars@[l]));
                assert(j < l ==> is_word_char(chars@[j as int]));
            }
        }
        return None;
    }
    Some((i, j))
}

/// A component reference that was read from a text of the grammar.
#[derive(Debug)]
pub struct ComponentReference {
    publisher: String,
    name: String,
    version: String,
}

impl View for ComponentReference {
    type V = Fields;

    closed spec fn view(&self) -> Fields {
        Fields { publisher: self.publisher@, name: self.name@, version: self.version@ }
    }
}

impl ComponentReference {
    #[verifier::type_invariant]
    spec fn holds_a_reading(&self) -> bool {
        self@.well_formed()
    }

    /// Reads `text` as a component reference: `Some` exactly for the texts of
    /// the grammar, with the one reading that such a text has.
    pub fn parse(text: &str) -> (parsed: Option<ComponentReference>)
        ensures
            parsed is Some <==> matches_grammar(text@),
            parsed is Some ==> parsed->0@ == reading(text@) && reads_as(text@, parsed->0@),
    {
        let chars = chars_of(text);
        match separators(&chars) {
            Some((i, j)) => {
                let end = chars.len();
                let reference = ComponentReference {
                    publisher: string_of(&chars, 0, i),
                    name: string_of(&chars, i + 1, j),
                    version: string_of(&chars, j + 1, end),
                };
                proof {
                    lemma_split_reads(text@, i as int, j as int);
                    assert(reference@ == fields_between(text@, i as int, j as int));
                    lemma_reading_unique(text@, reference@, reading(text@));
                }
                Some(reference)
            },
            None => {
                proof {
                    if matches_grammar(text@) {
                        lemma_reading_splits(text@, reading(text@));
                    }
                }
                None
            },
        }
    }

    /// The publisher as it stands in the reference.
    pub fn publisher(&self) -> (s: &str)
        ensures
            s@ == self@.publisher,
            is_word(s@),
    {
        proof {
            use_type_invariant(self);
        }
        self.publisher.as_str()
    }

    /// The name as it stands in the reference, sub-component included.
    pub fn name(&self) -> (s: &str)
        ensures
            s@ == self@.name,
            is_word(s@),
    {
        proof {
            use_type_invariant(self);
        }
        self.name.as_str()
    }

    /// The version: all that follows the second dot.
    pub fn version(&self) -> (s: &str)
        ensures
            s@ == self@.version,
            s@.len() > 0,
    {
        proof {
            use_type_invariant(self);
        }
        self.version.as_str()
    }
}

} // verus!
