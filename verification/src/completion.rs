//! Completion of a typed prefix against a list of known names.

use crate::cli::option_text;
use crate::text::{chars_of, lowercase, push_chars, starts_with, to_lowercase};
use vstd::prelude::*;

verus! {

/// The texts of a list of strings.
pub open spec fn texts(strings: Seq<String>) -> Seq<Seq<char>> {
    strings.map_values(|s: String| s@)
}

/// Whether every one of `strings` has a character at index `k`.
pub open spec fn has_column(strings: Seq<Seq<char>>, k: int) -> bool {
    forall|i: int| 0 <= i < strings.len() ==> k < (#[trigger] strings[i]).len()
}

/// The characters that `strings` hold at index `k`, one of each string.
pub open spec fn column(strings: Seq<Seq<char>>, k: int) -> Seq<char> {
    Seq::new(strings.len(), |i: int| strings[i][k])
}

/// Whether all of `chars` are one and the same character.
pub open spec fn all_same(chars: Seq<char>) -> bool {
    chars.len() > 0 && forall|i: int| 0 <= i < chars.len() ==> #[trigger] chars[i] == chars[0]
}

/// Whether `p` is a prefix of every one of `strings`.
pub open spec fn is_common_prefix(p: Seq<char>, strings: Seq<Seq<char>>) -> bool {
    forall|i: int| 0 <= i < strings.len() ==> p.is_prefix_of(#[trigger] strings[i])
}

/// How far `strings` agree with each other from index `k` on, given that they agree
/// before it: the first index at or after `k` at which one of them ends or two differ.
pub open spec fn agreement_end(strings: Seq<Seq<char>>, k: int) -> int
    decreases strings[0].len() - k,
{
    if strings.len() > 0 && 0 <= k < strings[0].len() && has_column(strings, k) && all_same(
        column(strings, k),
    ) {
        agreement_end(strings, k + 1)
    } else {
        k
    }
}

/// The longest text with which every one of `strings` begins; the empty text where
/// there are no strings.
pub open spec fn common_prefix(strings: Seq<Seq<char>>) -> Seq<char> {
    if strings.len() == 0 {
        Seq::empty()
    } else {
        strings[0].take(agreement_end(strings, 0))
    }
}

/// The options whose lowercase form, found at the same index of `lowers`, begins with
/// `needle`; only the first `n` options are looked at.
pub open spec fn matching(
    options: Seq<Seq<char>>,
    lowers: Seq<Seq<char>>,
    needle: Seq<char>,
    n: int,
) -> Seq<Seq<char>>
    decreases n,
{
    if n <= 0 {
        Seq::empty()
    } else if needle.is_prefix_of(lowers[n - 1]) {
        matching(options, lowers, needle, n - 1).push(options[n - 1])
    } else {
        matching(options, lowers, needle, n - 1)
    }
}

/// The options that match what was typed, without regard to case: each option whose
/// lowercase form begins with the lowercase form of `input`, in the order of the options.
pub open spec fn match_set(options: Seq<Seq<char>>, input: Seq<char>) -> Seq<Seq<char>> {
    options.filter(|c: Seq<char>| lowercase(input).is_prefix_of(lowercase(c)))
}

/// What to put in place of the typed text: the highlighted suggestion where there is
/// one; else nothing where nothing matches, and what all the matches begin with where
/// some do.
pub open spec fn completion(matches: Seq<Seq<char>>, highlighted: Option<Seq<char>>) -> Option<
    Seq<char>,
> {
    match highlighted {
        Some(suggestion) => Some(suggestion),
        None => if matches.len() == 0 {
            None
        } else {
            Some(common_prefix(matches))
        },
    }
}

/// Walks several strings side by side, a character of each at a time, until the first
/// of them ends.
pub struct ParallelStringIterator {
    strings: Vec<Vec<char>>,
    pos: usize,
}

impl ParallelStringIterator {
    /// The strings that are walked.
    pub closed spec fn strings(&self) -> Seq<Seq<char>> {
        self.strings@.map_values(|v: Vec<char>| v@)
    }

    /// How many columns have been handed out.
    pub closed spec fn position(&self) -> nat {
        self.pos as nat
    }

    /// Starts at the first character of each string.
    pub fn new(strings: &Vec<String>) -> (it: Self)
        ensures
            it.strings() == texts(strings@),
            it.position() == 0,
    {
        let mut all: Vec<Vec<char>> = Vec::new();
        let mut i: usize = 0;
        while i < strings.len()
            invariant
                i <= strings.len(),
                all.len() == i,
                forall|j: int| 0 <= j < i ==> (#[trigger] all@[j])@ == strings@[j]@,
            decreases strings.len() - i,
        {
            all.push(chars_of(strings[i].as_str()));
            i += 1;
        }
        let it = ParallelStringIterator { strings: all, pos: 0 };
        assert(it.strings() =~= texts(strings@));
        it
    }

    /// The next column: the character that each string holds at the current position,
    /// where every string has one. After the first `None` there is only `None`. Without
    /// any strings every column is there, and is empty.
    pub fn next(&mut self) -> (r: Option<Vec<char>>)
        ensures
            final(self).strings() == old(self).strings(),
            match r {
                Some(chars) => has_column(old(self).strings(), old(self).position() as int)
                    && chars@ == column(old(self).strings(), old(self).position() as int)
                    && final(self).position() == if old(self).strings().len() == 0 {
                    old(self).position()
                } else {
                    old(self).position() + 1
                },
                None => !has_column(old(self).strings(), old(self).position() as int)
                    && final(self).position() == old(self).position(),
            },
    {
        let mut chars: Vec<char> = Vec::new();
        let mut i: usize = 0;
        while i < self.strings.len()
            invariant
                i <= self.strings.len(),
                *self == *old(self),
                chars.len() == i,
                forall|j: int| 0 <= j < i ==> self.pos < (#[trigger] self.strings()[j]).len(),
                forall|j: int| 0 <= j < i ==> #[trigger] chars@[j] == self.strings()[j][self.pos as int],
            decreases self.strings.len() - i,
        {
            assert(self.strings()[i as int] == self.strings@[i as int]@);
            if self.pos >= self.strings[i].len() {
                return None;
            }
            chars.push(self.strings[i][self.pos]);
            i += 1;
        }
        assert(chars@ =~= column(self.strings(), self.pos as int));
        if self.strings.len() > 0 {
            let first_len = self.strings[0].len();
            assert(self.strings()[0] == self.strings@[0]@);
            assert(self.pos < first_len);
            self.pos = self.pos + 1;
        }
        Some(chars)
    }
}

/// The character that all of `chars` are, if they are all the same and there is one at
/// all.
pub fn chars_are_same(chars: &[char]) -> (r: Option<char>)
    ensures
        match r {
            Some(c) => all_same(chars@) && c == chars@[0],
            None => !all_same(chars@),
        },
{
    if chars.len() == 0 {
        return None;
    }
    let first = chars[0];
    let mut i: usize = 1;
    while i < chars.len()
        invariant
            1 <= i <= chars.len(),
            first == chars@[0],
            forall|j: int| 0 <= j < i ==> #[trigger] chars@[j] == first,
        decreases chars.len() - i,
    {
        if chars[i] != first {
            return None;
        }
        i += 1;
    }
    Some(first)
}

/// The longest text with which all of `strings` begin.
pub fn get_common_prefix(strings: Vec<String>) -> (common: String)
    ensures
        common@ == common_prefix(texts(strings@)),
{
    let mut common = String::new();
    if strings.len() == 0 {
        return common;
    }
    let first = chars_of(strings[0].as_str());
    let mut columns = ParallelStringIterator::new(&strings);
    let ghost all = texts(strings@);
    let mut len: usize = 0;
    loop
        invariant_except_break
            all == texts(strings@),
            all.len() > 0,
            first@ == all[0],
            columns.strings() == all,
            columns.position() == len,
            len <= first.len(),
            agreement_end(all, 0) == agreement_end(all, len as int),
        ensures
            all == texts(strings@),
            all.len() > 0,
            first@ == all[0],
            len <= first.len(),
            agreement_end(all, 0) == len,
        decreases first.len() - len,
    {
        match columns.next() {
            Some(chars) => {
                assert(len < all[0].len());
                match chars_are_same(chars.as_slice()) {
                    Some(c) => {
                        len = len + 1;
                    },
                    None => {
                        break;
                    },
                }
            },
            None => {
                break;
            },
        }
    }
    push_chars(&mut common, &first, 0, len);
    common
}

/// The common prefix is a prefix of every string, and no text that is a prefix of every
/// string is longer.
pub proof fn lemma_common_prefix_is_longest(strings: Seq<Seq<char>>)
    requires
        strings.len() > 0,
    ensures
        is_common_prefix(common_prefix(strings), strings),
        forall|p: Seq<char>| #[trigger]
            is_common_prefix(p, strings) ==> p.is_prefix_of(common_prefix(strings)),
{
    assert forall|i: int| 0 <= i < strings.len() implies (#[trigger] strings[i]).take(0)
        == strings[0].take(0) by {
        assert(strings[i].take(0) =~= strings[0].take(0));
    }
    lemma_agreement(strings, 0);
    let end = agreement_end(strings, 0);
    assert forall|i: int| 0 <= i < strings.len() implies common_prefix(strings).is_prefix_of(
        #[trigger] strings[i],
    ) by {
        assert(strings[i].take(end) =~= strings[0].take(end));
    }
    assert forall|p: Seq<char>| #[trigger] is_common_prefix(p, strings) implies p.is_prefix_of(
        common_prefix(strings),
    ) by {
        assert(p.is_prefix_of(strings[0]));
        if p.len() > end {
            // Every string has a character at `end`, and it is that of `p`.
            assert forall|i: int| 0 <= i < strings.len() implies end < (#[trigger] strings[i]).len()
                && strings[i][end] == strings[0][end] by {
                assert(p.is_prefix_of(strings[i]));
                assert(strings[i][end] == p[end]);
                assert(strings[0][end] == p[end]);
            }
            assert(has_column(strings, end));
            assert(all_same(column(strings, end)));
        }
        assert(p =~= common_prefix(strings).take(p.len() as int));
    }
}

/// From `k` on, where the strings agree before `k`, they agree up to
/// [`agreement_end`], which is within all of them, and not at it.
proof fn lemma_agreement(strings: Seq<Seq<char>>, k: int)
    requires
        strings.len() > 0,
        0 <= k <= strings[0].len(),
        forall|i: int| 0 <= i < strings.len() ==> k <= (#[trigger] strings[i]).len() && strings[i].take(k) == strings[0].take(k),
    ensures
        k <= agreement_end(strings, k) <= strings[0].len(),
        forall|i: int|
            0 <= i < strings.len() ==> agreement_end(strings, k) <= (#[trigger] strings[i]).len()
                && strings[i].take(agreement_end(strings, k)) == strings[0].take(
                agreement_end(strings, k),
            ),
        !(agreement_end(strings, k) < strings[0].len() && has_column(
            strings,
            agreement_end(strings, k),
        ) && all_same(column(strings, agreement_end(strings, k)))),
    decreases strings[0].len() - k,
{
    if k < strings[0].len() && has_column(strings, k) && all_same(column(strings, k)) {
        assert forall|i: int| 0 <= i < strings.len() implies k + 1 <= (#[trigger] strings[i]).len()
            && strings[i].take(k + 1) == strings[0].take(k + 1) by {
            assert(column(strings, k)[i] == column(strings, k)[0]);
            assert(strings[i].take(k + 1) =~= strings[i].take(k).push(strings[i][k]));
            assert(strings[0].take(k + 1) =~= strings[0].take(k).push(strings[0][k]));
        }
        lemma_agreement(strings, k + 1);
    }
}

/// A source of names to complete against: the names as they are shown, and the same
/// names in lowercase, index by index.
pub trait PrefixAutocomplete {
    /// The names as they are shown.
    spec fn options(&self) -> Seq<Seq<char>>;

    /// The names in lowercase.
    spec fn lowercase_options(&self) -> Seq<Seq<char>>;

    fn get_options(&self) -> (r: &[String])
        ensures
            texts(r@) == self.options(),
    ;

    fn get_lowercase_options(&self) -> (r: &[String])
        ensures
            texts(r@) == self.lowercase_options(),
    ;

    /// The names that match `input` without regard to case, as they are shown and in
    /// their order.
    fn get_matches(&self, input: &str) -> (r: Vec<String>)
        requires
            self.lowercase_options().len() <= self.options().len(),
        ensures
            texts(r@) == matching(
                self.options(),
                self.lowercase_options(),
                lowercase(input@),
                self.lowercase_options().len() as int,
            ),
    {
        let options = self.get_options();
        let lowers = self.get_lowercase_options();
        let needle = chars_of(to_lowercase(input).as_str());
        let mut matches: Vec<String> = Vec::new();
        let mut i: usize = 0;
        while i < lowers.len()
            invariant
                i <= lowers.len() <= options.len(),
                texts(options@) == self.options(),
                texts(lowers@) == self.lowercase_options(),
                needle@ == lowercase(input@),
                texts(matches@) == matching(
                    self.options(),
                    self.lowercase_options(),
                    needle@,
                    i as int,
                ),
            decreases lowers.len() - i,
        {
            let lower = chars_of(lowers[i].as_str());
            assert(texts(lowers@)[i as int] == lowers@[i as int]@);
            assert(texts(options@)[i as int] == options@[i as int]@);
            if starts_with(&lower, &needle) {
                let ghost before = matches@;
                matches.push(options[i].clone());
                assert(texts(matches@) =~= texts(before).push(options@[i as int]@));
            }
            i += 1;
        }
        matches
    }
}

/// Where the lowercase names are the lowercase forms of the names shown, the matches
/// are the names whose lowercase form begins with the lowercase form of what was typed.
pub proof fn lemma_matching_is_match_set(options: Seq<Seq<char>>, lowers: Seq<Seq<char>>, input: Seq<char>)
    requires
        lowers == options.map_values(|c: Seq<char>| lowercase(c)),
    ensures
        matching(options, lowers, lowercase(input), lowers.len() as int) == match_set(
            options,
            input,
        ),
{
    lemma_matching_prefix(options, lowers, input, options.len() as int);
    assert(options.take(options.len() as int) =~= options);
}

proof fn lemma_matching_prefix(options: Seq<Seq<char>>, lowers: Seq<Seq<char>>, input: Seq<char>, n: int)
    requires
        lowers == options.map_values(|c: Seq<char>| lowercase(c)),
        0 <= n <= options.len(),
    ensures
        matching(options, lowers, lowercase(input), n) == match_set(options.take(n), input),
    decreases n,
{
    let pred = |c: Seq<char>| lowercase(input).is_prefix_of(lowercase(c));
    reveal(Seq::filter);
    if n > 0 {
        lemma_matching_prefix(options, lowers, input, n - 1);
        assert(options.take(n).drop_last() =~= options.take(n - 1));
        assert(options.take(n).last() == options[n - 1]);
    } else {
        assert(options.take(0) =~= Seq::<Seq<char>>::empty());
    }
}

/// Completion for a prompt, over the names that `T` supplies.
#[derive(Clone)]
pub struct LocalAutocompleter<T: Clone + PrefixAutocomplete>(pub T);

impl<T: Clone + PrefixAutocomplete> LocalAutocompleter<T> {
    pub fn new(inner: T) -> (r: Self)
        ensures
            r.0 == inner,
    {
        LocalAutocompleter(inner)
    }

    /// The names to offer for what was typed so far.
    pub fn get_suggestions(&mut self, input: &str) -> (r: Vec<String>)
        requires
            old(self).0.lowercase_options().len() <= old(self).0.options().len(),
        ensures
            *final(self) == *old(self),
            texts(r@) == matching(
                old(self).0.options(),
                old(self).0.lowercase_options(),
                lowercase(input@),
                old(self).0.lowercase_options().len() as int,
            ),
    {
        self.0.get_matches(input)
    }

    /// What to replace the typed text with: see [`completion`].
    pub fn get_completion(&mut self, input: &str, highlighted_suggestion: Option<String>) -> (r:
        Option<String>)
        requires
            old(self).0.lowercase_options().len() <= old(self).0.options().len(),
        ensures
            *final(self) == *old(self),
            option_text(r) == completion(
                matching(
                    old(self).0.options(),
                    old(self).0.lowercase_options(),
                    lowercase(input@),
                    old(self).0.lowercase_options().len() as int,
                ),
                option_text(highlighted_suggestion),
            ),
    {
        match highlighted_suggestion {
            Some(suggestion) => Some(suggestion),
            None => {
                let matches = self.0.get_matches(input);
                if matches.len() == 0 {
                    None
                } else {
                    Some(get_common_prefix(matches))
                }
            },
        }
    }
}

} // verus!
