//! File names: the last component of a `/`-separated path and its stem.

use crate::text::{chars_of, parse_number, parse_u32};
use vstd::prelude::*;

verus! {

/// The index of the last `c` in `s`, or -1 where `s` holds none.
pub open spec fn last_index_of(s: Seq<char>, c: char) -> int
    decreases s.len(),
{
    if s.len() == 0 {
        -1
    } else if s.last() == c {
        s.len() - 1
    } else {
        last_index_of(s.drop_last(), c)
    }
}

/// [`last_index_of`] finds an occurrence after which there is no other.
pub proof fn lemma_last_index_of(s: Seq<char>, c: char)
    ensures
        -1 <= last_index_of(s, c) < s.len(),
        last_index_of(s, c) >= 0 ==> s[last_index_of(s, c)] == c,
        forall|j: int| last_index_of(s, c) < j < s.len() ==> s[j] != c,
    decreases s.len(),
{
    if s.len() > 0 && s.last() != c {
        lemma_last_index_of(s.drop_last(), c);
        assert forall|j: int| last_index_of(s, c) < j < s.len() implies s[j] != c by {
            if j < s.len() - 1 {
                assert(s.drop_last()[j] == s[j]);
            }
        }
    }
}

/// An occurrence after which there is no other is the one [`last_index_of`] finds.
pub proof fn lemma_last_index_of_is(s: Seq<char>, c: char, i: int)
    requires
        -1 <= i < s.len(),
        i >= 0 ==> s[i] == c,
        forall|j: int| i < j < s.len() ==> s[j] != c,
    ensures
        last_index_of(s, c) == i,
{
    lemma_last_index_of(s, c);
}

/// The last component of a path: what follows the last `/`, where empty components and
/// `.` are passed over from the end. A path that ends in `..`, or holds no component at
/// all, has none.
pub open spec fn file_name(path: Seq<char>) -> Option<Seq<char>>
    decreases path.len(),
{
    let start = last_index_of(path, '/') + 1;
    let name = path.skip(start);
    if name.len() == 0 || (name.len() == 1 && name[0] == '.') {
        if 0 < start <= path.len() {
            file_name(path.take(start - 1))
        } else {
            None
        }
    } else if name.len() == 2 && name[0] == '.' && name[1] == '.' {
        None
    } else {
        Some(name)
    }
}

/// The stem of a file name: the name up to its last `.`, or the whole name where it
/// holds no `.` or only one at its start.
pub open spec fn stem_of(name: Seq<char>) -> Seq<char> {
    let dot = last_index_of(name, '.');
    if dot <= 0 {
        name
    } else {
        name.take(dot)
    }
}

/// The stem of the last component of a path, if the path has one.
pub open spec fn file_stem(path: Seq<char>) -> Option<Seq<char>> {
    match file_name(path) {
        Some(name) => Some(stem_of(name)),
        None => None,
    }
}

/// A file name is never empty and holds no `/`.
pub proof fn lemma_file_name(path: Seq<char>)
    ensures
        file_name(path) matches Some(name) ==> name.len() > 0 && !name.contains('/'),
    decreases path.len(),
{
    lemma_last_index_of(path, '/');
    let start = last_index_of(path, '/') + 1;
    let name = path.skip(start);
    if name.len() == 0 || (name.len() == 1 && name[0] == '.') {
        if start != 0 {
            lemma_file_name(path.take(start - 1));
        }
    }
}

/// A stem is never empty and holds no `/`, given a name of which both are true.
pub proof fn lemma_stem_of(name: Seq<char>)
    requires
        name.len() > 0,
        !name.contains('/'),
    ensures
        stem_of(name).len() > 0,
        !stem_of(name).contains('/'),
{
    lemma_last_index_of(name, '.');
    let dot = last_index_of(name, '.');
    if dot > 0 {
        assert forall|i: int| 0 <= i < name.take(dot).len() implies name.take(dot)[i] != '/' by {
            assert(name.contains(name[i]));
        }
    }
}

/// Finds the last `c` among the first `end` characters.
pub fn find_last(chars: &Vec<char>, end: usize, c: char) -> (r: Option<usize>)
    requires
        end <= chars.len(),
    ensures
        match r {
            Some(i) => i == last_index_of(chars@.take(end as int), c),
            None => last_index_of(chars@.take(end as int), c) == -1,
        },
{
    let mut i: usize = end;
    while i > 0
        invariant
            i <= end <= chars.len(),
            last_index_of(chars@.take(end as int), c) == last_index_of(chars@.take(i as int), c),
        decreases i,
    {
        assert(chars@.take(i as int).drop_last() =~= chars@.take(i - 1));
        if chars[i - 1] == c {
            return Some(i - 1);
        }
        i -= 1;
    }
    None
}

/// The bounds of the last component of the path held in `chars`.
pub fn file_name_bounds(chars: &Vec<char>) -> (r: Option<(usize, usize)>)
    ensures
        match r {
            Some((start, end)) => start < end <= chars.len() && file_name(chars@) == Some(
                chars@.subrange(start as int, end as int),
            ),
            None => file_name(chars@) is None,
        },
{
    let mut end: usize = chars.len();
    assert(chars@.take(end as int) =~= chars@);
    loop
        invariant
            end <= chars.len(),
            file_name(chars@) == file_name(chars@.take(end as int)),
        decreases end,
    {
        let ghost path = chars@.take(end as int);
        proof {
            lemma_last_index_of(path, '/');
        }
        let start: usize = match find_last(chars, end, '/') {
            Some(i) => i + 1,
            None => 0,
        };
        let len: usize = end - start;
        assert(path.skip(start as int) =~= chars@.subrange(start as int, end as int));
        if len == 0 || (len == 1 && chars[start] == '.') {
            if start == 0 {
                return None;
            }
            assert(path.take(start - 1) =~= chars@.take(start - 1));
            end = start - 1;
        } else if len == 2 && chars[start] == '.' && chars[start + 1] == '.' {
            return None;
        } else {
            return Some((start, end));
        }
    }
}

/// The bounds of the stem of the file name `chars[start..end]`.
pub fn stem_bounds(chars: &Vec<char>, start: usize, end: usize) -> (r: (usize, usize))
    requires
        start <= end <= chars.len(),
    ensures
        r.0 == start,
        start <= r.1 <= end,
        chars@.subrange(r.0 as int, r.1 as int) == stem_of(chars@.subrange(start as int, end as int)),
{
    let ghost name = chars@.subrange(start as int, end as int);
    assert(name.take(end - start) =~= name);
    let mut i: usize = end;
    while i > start
        invariant
            start <= i <= end <= chars.len(),
            name == chars@.subrange(start as int, end as int),
            last_index_of(name, '.') == last_index_of(name.take(i - start), '.'),
        decreases i,
    {
        assert(name.take(i - start).drop_last() =~= name.take(i - start - 1));
        if chars[i - 1] == '.' {
            if i - 1 == start {
                assert(name.take(name.len() as int) =~= name);
                return (start, end);
            }
            assert(name.take(i - 1 - start) =~= chars@.subrange(start as int, i - 1));
            return (start, i - 1);
        }
        i -= 1;
    }
    assert(name.take(name.len() as int) =~= name);
    (start, end)
}

/// The number that a file name stands for: what its stem denotes as an unsigned
/// 32-bit number, if it denotes one.
pub open spec fn number_of_filename(name: Seq<char>) -> Option<u32> {
    match file_stem(name) {
        Some(stem) => parse_u32(stem),
        None => None,
    }
}

/// The numbers that a list of file names stands for: each name that stands for one
/// gives it, in the order of the names, and the others are passed over.
pub open spec fn decoded_numbers(filenames: Seq<Seq<char>>) -> Seq<u32> {
    filenames.filter_map(|name: Seq<char>| number_of_filename(name))
}

/// Reads the number that a file name stands for: see [`number_of_filename`].
pub fn number_from_filename(filename: &str) -> (r: Option<u32>)
    ensures
        r == number_of_filename(filename@),
{
    let chars = chars_of(filename);
    match file_name_bounds(&chars) {
        Some((start, end)) => {
            let (from, to) = stem_bounds(&chars, start, end);
            let mut stem: Vec<char> = Vec::new();
            let mut i: usize = from;
            while i < to
                invariant
                    from <= i <= to <= chars.len(),
                    stem@ == chars@.subrange(from as int, i as int),
                decreases to - i,
            {
                stem.push(chars[i]);
                assert(chars@.subrange(from as int, i + 1) =~= chars@.subrange(
                    from as int,
                    i as int,
                ).push(chars@[i as int]));
                i += 1;
            }
            parse_number(&stem)
        },
        None => None,
    }
}

/// Reads the numbers of the records in a directory from the names of its files: see
/// [`decoded_numbers`]. A name that does not stand for a number is passed over in
/// silence.
pub fn numbers_from_filenames(filenames: &Vec<String>) -> (numbers: Vec<u32>)
    ensures
        numbers@ == decoded_numbers(filenames@.map_values(|s: String| s@)),
{
    let ghost names = filenames@.map_values(|s: String| s@);
    let mut numbers: Vec<u32> = Vec::new();
    let mut i: usize = 0;
    assert(names.take(0) =~= Seq::<Seq<char>>::empty());
    while i < filenames.len()
        invariant
            i <= filenames.len(),
            names == filenames@.map_values(|s: String| s@),
            numbers@ == decoded_numbers(names.take(i as int)),
        decreases filenames.len() - i,
    {
        assert(names.take(i + 1).drop_last() =~= names.take(i as int));
        assert(names.take(i + 1).last() == filenames@[i as int]@);
        match number_from_filename(filenames[i].as_str()) {
            Some(number) => {
                numbers.push(number);
            },
            None => {},
        }
        i += 1;
    }
    assert(names.take(filenames.len() as int) =~= names);
    numbers
}

} // verus!
