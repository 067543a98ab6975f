//! What passes between the program and the person at the terminal: titles and headers,
//! questions and answers, and the checks on typed input.

use crate::id::{is_valid_id, Id};
use crate::text::{char_is_numeric, is_numeric_char, push_char, push_repeated};
use vstd::prelude::*;

verus! {

/// A line of `n` equals signs.
pub open spec fn bar(n: nat) -> Seq<char> {
    Seq::new(n, |i: int| '=')
}

/// The length of a text in bytes, as a `usize` holds it: so wide is its underline drawn.
pub open spec fn width(text: Seq<char>) -> nat {
    (vstd::utf8::encode_utf8(text).len() as usize) as nat
}

/// A title: the text between `= ` and ` =`, boxed by bars above and below, after an
/// empty line.
pub open spec fn title(text: Seq<char>) -> Seq<char> {
    seq!['\n'] + bar(width(text) + 4) + seq!['\n'] + seq!['=', ' '] + text + seq![' ', '=']
        + seq!['\n'] + bar(width(text) + 4) + seq!['\n']
}

/// A header: the text, underlined by a bar of its width, after an empty line.
pub open spec fn header(text: Seq<char>) -> Seq<char> {
    seq!['\n'] + text + seq!['\n'] + bar(width(text)) + seq!['\n']
}

/// Lays `text` out as a title.
pub fn format_title(text: &str) -> (r: String)
    ensures
        r@ == title(text@),
{
    let mut out = String::new();
    push_char(&mut out, '\n');
    push_repeated(&mut out, '=', text.len());
    push_repeated(&mut out, '=', 4);
    push_char(&mut out, '\n');
    push_char(&mut out, '=');
    push_char(&mut out, ' ');
    out.append(text);
    push_char(&mut out, ' ');
    push_char(&mut out, '=');
    push_char(&mut out, '\n');
    push_repeated(&mut out, '=', text.len());
    push_repeated(&mut out, '=', 4);
    push_char(&mut out, '\n');
    proof {
        let n = width(text@);
        assert(bar(n) + bar(4) =~= bar(n + 4));
        assert(out@ =~= title(text@));
    }
    out
}

/// Lays `text` out as a header.
pub fn format_header(text: &str) -> (r: String)
    ensures
        r@ == header(text@),
{
    let mut out = String::new();
    push_char(&mut out, '\n');
    out.append(text);
    push_char(&mut out, '\n');
    push_repeated(&mut out, '=', text.len());
    push_char(&mut out, '\n');
    proof {
        assert(out@ =~= header(text@));
    }
    out
}

/// A question put to the person at the terminal.
#[derive(Clone, Debug)]
pub enum Question {
    /// Asks for a line of text, to be answered by [`Answer::Text`]. Where `required` is
    /// set an empty line is not taken for an answer.
    Text { message: &'static str, placeholder: Option<&'static str>, required: bool },
    /// Asks for a line of text that may be left out: answered by [`Answer::Text`] or
    /// [`Answer::Skipped`].
    OptionalText { message: &'static str, placeholder: Option<&'static str> },
    /// Asks for the name of a record, offering the known names for completion;
    /// answered by an [`Answer::Text`] that can name a record.
    Name { message: &'static str, known: Vec<String> },
    /// Asks for a number, and offers one to begin with where there is one to offer;
    /// answered by an [`Answer::Text`] that is not empty and that a [`NumberValidator`]
    /// accepts.
    Number { message: &'static str, initial: Option<u32> },
    /// Asks for a day of the calendar; answered by an [`Answer::Text`] of the form
    /// `YYYY-MM-DD`.
    Date { message: &'static str },
    /// Asks for a number of days and offers a default; answered by [`Answer::Days`].
    Days { message: &'static str, default: u16 },
    /// Asks for an amount, which may have a fraction; answered by [`Answer::Amount`].
    Amount { message: &'static str },
    /// Asks to pick one of the options; answered by [`Answer::Choice`] with its index.
    Select { message: &'static str, options: Vec<String> },
    /// Asks for a client: one is named, and made and stored where the name is new;
    /// answered by [`Answer::Text`] with the name.
    Client,
    /// Asks for a project: one is named, and made and stored where the name is new;
    /// answered by [`Answer::Text`] with the name.
    Project,
}

/// What is to be done next in taking down a record of type `R`.
#[derive(Debug)]
pub enum Next<'a, R> {
    /// Put the question, after showing the title where there is one, and hand the
    /// answer back.
    Ask { title: Option<String>, question: Question },
    /// Show the record to be looked over and corrected, and hand back what it was corrected to.
    Review(&'a R),
    /// Nothing: the record is complete.
    Done,
}

/// Whether `next` is to put `question` under `title`.
pub open spec fn asks<R>(next: Next<R>, title: Option<Seq<char>>, question: Question) -> bool {
    next matches Next::Ask { title: t, question: q } && q == question && option_text(t) == title
}

/// The text of a string that may be missing.
pub open spec fn option_text(s: Option<String>) -> Option<Seq<char>> {
    match s {
        Some(s) => Some(s@),
        None => None,
    }
}

/// What became of a name that was asked for.
#[derive(Debug)]
pub enum Named {
    /// No name was given, or none that can name a record: ask again.
    Missing,
    /// A record of this name is known.
    Known(Id),
    /// No record of this name is known yet: one is to be made and stored.
    New(Id),
}

/// Whether one of `known` has the text `name`.
pub open spec fn is_known(known: Seq<Id>, name: Seq<char>) -> bool {
    exists|i: int| 0 <= i < known.len() && (#[trigger] known[i])@ == name
}

/// Decides what an answer to a question for a name means: an answer that names
/// nothing leaves the name missing; a name among `known` is known; any other is new.
/// See [`name_text`] for the name that an answer gives.
pub fn name_given(known: &Vec<Id>, answer: Answer) -> (r: Named)
    ensures
        match r {
            Named::Missing => name_text(answer) is None,
            Named::Known(id) => name_text(answer) matches Some(s) && id@ == s@ && is_known(
                known@,
                s@,
            ),
            Named::New(id) => name_text(answer) matches Some(s) && id@ == s@ && !is_known(
                known@,
                s@,
            ),
        },
{
    match answer.into_name() {
        None => Named::Missing,
        Some(id) => {
            let mut i: usize = 0;
            while i < known.len()
                invariant
                    i <= known.len(),
                    name_text(answer) matches Some(s) && s@ == id@,
                    forall|j: int| 0 <= j < i ==> (#[trigger] known@[j])@ != id@,
                decreases known.len() - i,
            {
                if known[i] == id {
                    return Named::Known(id);
                }
                i += 1;
            }
            Named::New(id)
        },
    }
}

/// What the person at the terminal answered.
#[derive(Clone, Debug)]
pub enum Answer {
    /// A line of text.
    Text(String),
    /// Nothing: the question was passed over.
    Skipped,
    /// A number of days.
    Days(u16),
    /// An amount, as the bits of a single-precision number.
    Amount(u32),
    /// The index of the option that was picked.
    Choice(usize),
}

/// The text of an answer that is worth keeping: that of a line of text that is not
/// empty. A question passed over and an empty line both count as no answer.
pub open spec fn kept_text(answer: Answer) -> Option<String> {
    match answer {
        Answer::Text(s) => if s@.len() == 0 {
            None
        } else {
            Some(s)
        },
        _ => None,
    }
}

/// The name that an answer gives: the text of a line of text that can name a record.
/// An answer that is no text, and a text that is empty or holds a `/`, give none.
pub open spec fn name_text(answer: Answer) -> Option<String> {
    match kept_text(answer) {
        Some(s) => if is_valid_id(s@) {
            Some(s)
        } else {
            None
        },
        None => None,
    }
}

/// The text of an answer, which may be empty.
pub open spec fn any_text(answer: Answer) -> Option<String> {
    match answer {
        Answer::Text(s) => Some(s),
        _ => None,
    }
}

impl Answer {
    /// The text that was typed, unless nothing was typed: see [`kept_text`].
    pub fn into_kept_text(self) -> (r: Option<String>)
        ensures
            r == kept_text(self),
    {
        match self {
            Answer::Text(s) => if s.as_str().is_empty() {
                None
            } else {
                Some(s)
            },
            _ => None,
        }
    }

    /// The name that was typed, where what was typed can name a record: see
    /// [`name_text`].
    pub fn into_name(self) -> (r: Option<Id>)
        ensures
            match r {
                Some(id) => name_text(self) matches Some(s) && id == Id::new_spec(s) && id@ == s@,
                None => name_text(self) is None,
            },
    {
        match self.into_kept_text() {
            Some(text) => Id::try_new(text),
            None => None,
        }
    }

    /// The text that was typed, even where it is empty: see [`any_text`].
    pub fn into_text(self) -> (r: Option<String>)
        ensures
            r == any_text(self),
    {
        match self {
            Answer::Text(s) => Some(s),
            _ => None,
        }
    }
}

/// What a check on typed input found.
#[derive(Clone, Debug)]
pub enum Validation {
    /// The input is accepted.
    Valid,
    /// The input is refused, with the reason to show.
    Invalid(String),
}

/// Whether every character of `input` is numeric. The empty text is.
pub open spec fn is_number_text(input: Seq<char>) -> bool {
    forall|i: int| 0 <= i < input.len() ==> is_numeric_char(#[trigger] input[i])
}

/// What is shown where a number was asked for and something else was typed.
pub open spec fn number_required() -> Seq<char> {
    "number required."@
}

/// Accepts input that is made of numeric characters only.
#[derive(Clone, Copy, Debug)]
pub struct NumberValidator;

impl NumberValidator {
    pub fn new() -> (r: Self) {
        NumberValidator {  }
    }

    /// Accepts `input` where it is made of numeric characters only, and refuses it with
    /// the message [`number_required`] where it is not.
    pub fn validate(&self, input: &str) -> (r: Validation)
        ensures
            match r {
                Validation::Valid => is_number_text(input@),
                Validation::Invalid(message) => !is_number_text(input@) && message@
                    == number_required(),
            },
    {
        for c in it: input.chars()
            invariant
                it.seq() == input@,
                forall|i: int| 0 <= i < it.index() ==> is_numeric_char(#[trigger] input@[i]),
        {
            if !char_is_numeric(c) {
                assert(!is_numeric_char(input@[it.index() as int]));
                return Validation::Invalid("number required.".to_owned());
            }
        }
        Validation::Valid
    }
}

} // verus!
