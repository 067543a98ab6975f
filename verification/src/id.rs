//! Identifiers of stored records, and the file names that stand for them.

use crate::filename::{file_name, file_name_bounds, file_stem, stem_bounds};
use crate::filename::{lemma_file_name, lemma_last_index_of_is, lemma_stem_of};
use crate::text::{chars_of, push_chars};
use vstd::prelude::*;

verus! {

/// The name of a stored record: a text that a person typed and that can name a file.
#[derive(Debug, Hash)]
pub struct Id(String);

impl Clone for Id {
    fn clone(&self) -> (r: Id)
        ensures
            r@ == self@,
    {
        proof {
            use_type_invariant(self);
        }
        Id(self.0.clone())
    }
}

/// Why a file name does not name a record.
#[derive(Clone, Debug)]
pub enum IdDecodeError {
    /// The file name, given here, has no last component to take a name from.
    NoBasename(String),
}

/// The extension of every record file.
pub open spec fn extension() -> Seq<char> {
    seq!['.', 'y', 'a', 'm', 'l']
}

/// The name of the file that keeps the record called `id`.
pub open spec fn filename_of(id: Seq<char>) -> Seq<char> {
    id + extension()
}

/// Whether a text can name a record: it is not empty and holds no `/`.
pub open spec fn is_valid_id(id: Seq<char>) -> bool {
    id.len() > 0 && !id.contains('/')
}

impl View for Id {
    type V = Seq<char>;

    closed spec fn view(&self) -> Seq<char> {
        self.0@
    }
}

impl PartialEq for Id {
    fn eq(&self, other: &Id) -> (r: bool) {
        self.0 == other.0
    }
}

impl Eq for Id {

}

impl vstd::std_specs::cmp::PartialEqSpecImpl for Id {
    open spec fn obeys_eq_spec() -> bool {
        true
    }

    open spec fn eq_spec(&self, other: &Id) -> bool {
        self@ == other@
    }
}

/// Whether a text can name a record: see [`is_valid_id`].
pub fn is_valid_text(text: &str) -> (b: bool)
    ensures
        b == is_valid_id(text@),
{
    let chars = chars_of(text);
    let mut i: usize = 0;
    while i < chars.len()
        invariant
            i <= chars.len(),
            chars@ == text@,
            forall|k: int| 0 <= k < i ==> chars@[k] != '/',
        decreases chars.len() - i,
    {
        if chars[i] == '/' {
            assert(chars@.contains(chars@[i as int]));
            return false;
        }
        i += 1;
    }
    chars.len() > 0
}

impl Id {
    #[verifier::type_invariant]
    spec fn valid(&self) -> bool {
        is_valid_id(self.0@)
    }

    /// The identifier that the text `s` is made.
    pub closed spec fn new_spec(s: String) -> Id {
        Id(s)
    }

    /// Makes the text `s` an identifier. The text must be one that can name a record:
    /// see [`Id::try_new`] for a text of which that is not known.
    pub fn new(s: String) -> (id: Id)
        requires
            is_valid_id(s@),
        ensures
            id == Id::new_spec(s),
            id@ == s@,
    {
        Id(s)
    }

    /// Makes the text `s` an identifier, where it can name a record: where it is not
    /// empty and holds no `/`.
    pub fn try_new(s: String) -> (r: Option<Id>)
        ensures
            match r {
                Some(id) => is_valid_id(s@) && id == Id::new_spec(s) && id@ == s@,
                None => !is_valid_id(s@),
            },
    {
        if is_valid_text(s.as_str()) {
            Some(Id(s))
        } else {
            None
        }
    }

    /// The text of the identifier, which can name a record.
    pub fn as_str(&self) -> (s: &str)
        ensures
            s@ == self@,
            is_valid_id(self@),
    {
        proof {
            use_type_invariant(self);
        }
        self.0.as_str()
    }

    /// The text of the identifier, as it is shown to a person.
    pub fn to_text(&self) -> (s: String)
        ensures
            s@ == self@,
    {
        self.0.clone()
    }

    /// Gives up the identifier for its text.
    pub fn into_string(self) -> (s: String)
        ensures
            s@ == self@,
    {
        self.0
    }

    /// The name of the file that keeps the record with this identifier. The identifier
    /// can be read back from it.
    pub fn to_filename(&self) -> (name: String)
        ensures
            name@ == filename_of(self@),
            file_stem(name@) == Some(self@),
    {
        let mut name = self.0.clone();
        name.append(".yaml");
        proof {
            use_type_invariant(self);
            reveal_strlit(".yaml");
            assert(".yaml"@ =~= extension());
            lemma_filename_round_trip(self@);
        }
        name
    }

    /// Reads the identifier back from a file name, or from a path that ends in one: the
    /// stem of its last component. Fails where the path has no last component.
    pub fn from_filename(filename: &str) -> (r: Result<Id, IdDecodeError>)
        ensures
            match r {
                Ok(id) => file_stem(filename@) == Some(id@),
                Err(IdDecodeError::NoBasename(name)) => file_stem(filename@) is None && name@
                    == filename@,
            },
    {
        let chars = chars_of(filename);
        match file_name_bounds(&chars) {
            Some((start, end)) => {
                let (from, to) = stem_bounds(&chars, start, end);
                let mut stem = String::new();
                push_chars(&mut stem, &chars, from, to);
                proof {
                    assert(stem@ =~= chars@.subrange(from as int, to as int));
                    lemma_decoded_id_is_valid(filename@);
                }
                Ok(Id(stem))
            },
            None => Err(IdDecodeError::NoBasename(filename.to_owned())),
        }
    }
}

/// An identifier made of a text has that text.
pub proof fn lemma_new_id(s: String)
    ensures
        Id::new_spec(s)@ == s@,
{
}

/// The texts of a list of identifiers.
pub open spec fn id_texts(ids: Seq<Id>) -> Seq<Seq<char>> {
    ids.map_values(|id: Id| id@)
}

/// The identifiers that a list of file names reads back as: each name that reads back
/// as one gives it, in the order of the names, and the others are passed over.
pub open spec fn decoded_ids(filenames: Seq<Seq<char>>) -> Seq<Seq<char>> {
    filenames.filter_map(|name: Seq<char>| file_stem(name))
}

/// Reads the identifiers of the records in a directory from the names of its files:
/// see [`decoded_ids`]. A name that does not read back as an identifier is passed over
/// in silence.
pub fn ids_from_filenames(filenames: &Vec<String>) -> (ids: Vec<Id>)
    ensures
        id_texts(ids@) == decoded_ids(filenames@.map_values(|s: String| s@)),
{
    let ghost names = filenames@.map_values(|s: String| s@);
    let mut ids: Vec<Id> = Vec::new();
    let mut i: usize = 0;
    assert(names.take(0) =~= Seq::<Seq<char>>::empty());
    while i < filenames.len()
        invariant
            i <= filenames.len(),
            names == filenames@.map_values(|s: String| s@),
            id_texts(ids@) == decoded_ids(names.take(i as int)),
        decreases filenames.len() - i,
    {
        let ghost before = ids@;
        assert(names.take(i + 1).drop_last() =~= names.take(i as int));
        assert(names.take(i + 1).last() == filenames@[i as int]@);
        match Id::from_filename(filenames[i].as_str()) {
            Ok(id) => {
                ids.push(id);
                assert(id_texts(ids@) =~= id_texts(before) + seq![id@]);
            },
            Err(_) => {},
        }
        i += 1;
    }
    assert(names.take(filenames.len() as int) =~= names);
    ids
}

/// The file name made from a valid identifier reads back as that identifier.
pub proof fn lemma_filename_round_trip(id: Seq<char>)
    requires
        is_valid_id(id),
    ensures
        file_stem(filename_of(id)) == Some(id),
{
    let name = filename_of(id);
    assert forall|j: int| 0 <= j < name.len() implies name[j] != '/' by {
        if j < id.len() {
            assert(id.contains(id[j]));
        }
    }
    lemma_last_index_of_is(name, '/', -1);
    assert(name.skip(0) =~= name);
    assert(file_name(name) == Some(name));
    lemma_last_index_of_is(name, '.', id.len() as int);
    assert(name.take(id.len() as int) =~= id);
}

/// Whatever a file name reads back as is a valid identifier.
pub proof fn lemma_decoded_id_is_valid(path: Seq<char>)
    ensures
        file_stem(path) matches Some(id) ==> is_valid_id(id),
{
    lemma_file_name(path);
    if let Some(name) = file_name(path) {
        lemma_stem_of(name);
    }
}

} // verus!
