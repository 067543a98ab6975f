//! Mailing addresses, and the questions by which one is taken down.

use crate::cli::{any_text, kept_text, Answer, Question};
use vstd::prelude::*;

verus! {

/// Where mail for a client, or for the owner of the books, goes.
#[derive(Clone, Debug)]
pub struct MailingAddress {
    pub addr1: String,
    pub addr2: Option<String>,
    pub addr3: Option<String>,
    pub city: String,
    pub state: String,
    pub zip: String,
}

/// The lines of an address above the city.
#[derive(Debug)]
pub struct AddressLines {
    pub addr1: String,
    pub addr2: Option<String>,
    pub addr3: Option<String>,
}

/// An address as it is being taken down: what has been answered, and by that what is
/// asked next.
#[derive(Debug)]
pub enum AddressForm {
    /// Nothing is known yet; the first line is asked for.
    Line1,
    /// The second line is asked for.
    Line2 { addr1: String },
    /// There is a second line, and a third is asked for.
    Line3 { addr1: String, addr2: String },
    /// The city is asked for.
    City { lines: AddressLines },
    /// The state is asked for.
    State { lines: AddressLines, city: String },
    /// The zip code is asked for.
    Zip { lines: AddressLines, city: String, state: String },
    /// The address is complete.
    Done(MailingAddress),
}

/// The question that a form asks; none once the address is complete.
pub open spec fn address_question(form: AddressForm) -> Option<Question> {
    match form {
        AddressForm::Line1 => Some(
            Question::Text {
                message: "Address Line 1:",
                placeholder: Some("123 Happy Lane"),
                required: true,
            },
        ),
        AddressForm::Line2 { .. } => Some(
            Question::OptionalText {
                message: "Address Line 2 (optional):",
                placeholder: Some("Apt. 7"),
            },
        ),
        AddressForm::Line3 { .. } => Some(
            Question::OptionalText {
                message: "Address Line 3 (optional):",
                placeholder: Some("Closet under the stairs"),
            },
        ),
        AddressForm::City { .. } => Some(
            Question::Text { message: "City:", placeholder: Some("Springfield"), required: true },
        ),
        AddressForm::State { .. } => Some(
            Question::Text { message: "State:", placeholder: Some("Ohio"), required: false },
        ),
        AddressForm::Zip { .. } => Some(
            Question::Text { message: "Zipcode:", placeholder: Some("12345"), required: true },
        ),
        AddressForm::Done(_) => None,
    }
}

/// Whether an answer is one that a question which may be passed over takes: a line of
/// text, or none.
pub open spec fn is_optional_answer(answer: Answer) -> bool {
    answer is Text || answer is Skipped
}

/// The form after an answer to its question. The first line, the city and the zip code
/// are asked for again until they are given. A second line that is left out, or left
/// empty, is absent from the address, and then no third line is asked for; a third line
/// that is left out or left empty is absent likewise. The state may be left empty.
pub open spec fn address_after(form: AddressForm, answer: Answer) -> AddressForm {
    match form {
        AddressForm::Line1 => match kept_text(answer) {
            Some(addr1) => AddressForm::Line2 { addr1 },
            None => form,
        },
        AddressForm::Line2 { addr1 } => if is_optional_answer(answer) {
            match kept_text(answer) {
                Some(addr2) => AddressForm::Line3 { addr1, addr2 },
                None => AddressForm::City {
                    lines: AddressLines { addr1, addr2: None, addr3: None },
                },
            }
        } else {
            form
        },
        AddressForm::Line3 { addr1, addr2 } => if is_optional_answer(answer) {
            AddressForm::City {
                lines: AddressLines { addr1, addr2: Some(addr2), addr3: kept_text(answer) },
            }
        } else {
            form
        },
        AddressForm::City { lines } => match kept_text(answer) {
            Some(city) => AddressForm::State { lines, city },
            None => form,
        },
        AddressForm::State { lines, city } => match any_text(answer) {
            Some(state) => AddressForm::Zip { lines, city, state },
            None => form,
        },
        AddressForm::Zip { lines, city, state } => match kept_text(answer) {
            Some(zip) => AddressForm::Done(
                MailingAddress {
                    addr1: lines.addr1,
                    addr2: lines.addr2,
                    addr3: lines.addr3,
                    city,
                    state,
                    zip,
                },
            ),
            None => form,
        },
        AddressForm::Done(_) => form,
    }
}

/// Whether an address is one that the questions can give: the first line, the city
/// and the zip code are not empty; a second or third line that is there is not empty;
/// and there is no third line without a second.
pub open spec fn is_complete_address(address: MailingAddress) -> bool {
    &&& address.addr1@.len() > 0
    &&& address.city@.len() > 0
    &&& address.zip@.len() > 0
    &&& is_complete_lines(
        AddressLines { addr1: address.addr1, addr2: address.addr2, addr3: address.addr3 },
    )
}

/// The same for the lines above the city.
pub open spec fn is_complete_lines(lines: AddressLines) -> bool {
    &&& lines.addr1@.len() > 0
    &&& lines.addr2 matches Some(line) ==> line@.len() > 0
    &&& lines.addr3 matches Some(line) ==> line@.len() > 0
    &&& lines.addr2 is None ==> lines.addr3 is None
}

/// Whether what a form holds so far can become a complete address.
pub open spec fn address_in_order(form: AddressForm) -> bool {
    match form {
        AddressForm::Line1 => true,
        AddressForm::Line2 { addr1 } => addr1@.len() > 0,
        AddressForm::Line3 { addr1, addr2 } => addr1@.len() > 0 && addr2@.len() > 0,
        AddressForm::City { lines } => is_complete_lines(lines),
        AddressForm::State { lines, city } => is_complete_lines(lines) && city@.len() > 0,
        AddressForm::Zip { lines, city, state } => is_complete_lines(lines) && city@.len() > 0,
        AddressForm::Done(address) => is_complete_address(address),
    }
}

/// A form that starts empty stays in order whatever is answered, so the address it
/// ends with is complete.
pub proof fn lemma_address_stays_in_order(form: AddressForm, answer: Answer)
    requires
        address_in_order(form),
    ensures
        address_in_order(address_after(form, answer)),
{
}

impl AddressForm {
    /// An empty form, which asks for the first line.
    pub fn new() -> (form: AddressForm)
        ensures
            form == AddressForm::Line1,
    {
        AddressForm::Line1
    }

    /// What to ask next: see [`address_question`].
    pub fn question(&self) -> (q: Option<Question>)
        ensures
            q == address_question(*self),
    {
        match self {
            AddressForm::Line1 => Some(
                Question::Text {
                    message: "Address Line 1:",
                    placeholder: Some("123 Happy Lane"),
                    required: true,
                },
            ),
            AddressForm::Line2 { .. } => Some(
                Question::OptionalText {
                    message: "Address Line 2 (optional):",
                    placeholder: Some("Apt. 7"),
                },
            ),
            AddressForm::Line3 { .. } => Some(
                Question::OptionalText {
                    message: "Address Line 3 (optional):",
                    placeholder: Some("Closet under the stairs"),
                },
            ),
            AddressForm::City { .. } => Some(
                Question::Text {
                    message: "City:",
                    placeholder: Some("Springfield"),
                    required: true,
                },
            ),
            AddressForm::State { .. } => Some(
                Question::Text { message: "State:", placeholder: Some("Ohio"), required: false },
            ),
            AddressForm::Zip { .. } => Some(
                Question::Text { message: "Zipcode:", placeholder: Some("12345"), required: true },
            ),
            AddressForm::Done(_) => None,
        }
    }

    /// Takes the answer to the question: see [`address_after`].
    pub fn answer(self, answer: Answer) -> (form: AddressForm)
        ensures
            form == address_after(self, answer),
    {
        match self {
            AddressForm::Line1 => match answer.into_kept_text() {
                Some(addr1) => AddressForm::Line2 { addr1 },
                None => AddressForm::Line1,
            },
            AddressForm::Line2 { addr1 } => match answer {
                Answer::Text(_) | Answer::Skipped => match answer.into_kept_text() {
                    Some(addr2) => AddressForm::Line3 { addr1, addr2 },
                    None => AddressForm::City {
                        lines: AddressLines { addr1, addr2: None, addr3: None },
                    },
                },
                _ => AddressForm::Line2 { addr1 },
            },
            AddressForm::Line3 { addr1, addr2 } => match answer {
                Answer::Text(_) | Answer::Skipped => AddressForm::City {
                    lines: AddressLines {
                        addr1,
                        addr2: Some(addr2),
                        addr3: answer.into_kept_text(),
                    },
                },
                _ => AddressForm::Line3 { addr1, addr2 },
            },
            AddressForm::City { lines } => match answer.into_kept_text() {
                Some(city) => AddressForm::State { lines, city },
                None => AddressForm::City { lines },
            },
            AddressForm::State { lines, city } => match answer.into_text() {
                Some(state) => AddressForm::Zip { lines, city, state },
                None => AddressForm::State { lines, city },
            },
            AddressForm::Zip { lines, city, state } => match answer.into_kept_text() {
                Some(zip) => AddressForm::Done(
                    MailingAddress {
                        addr1: lines.addr1,
                        addr2: lines.addr2,
                        addr3: lines.addr3,
                        city,
                        state,
                        zip,
                    },
                ),
                None => AddressForm::Zip { lines, city, state },
            },
            AddressForm::Done(address) => AddressForm::Done(address),
        }
    }

    /// The address, once every question has been answered; else the form, to go on
    /// with.
    pub fn finish(self) -> (r: Result<MailingAddress, AddressForm>)
        ensures
            r == match self {
                AddressForm::Done(address) => Ok::<MailingAddress, AddressForm>(address),
                _ => Err(self),
            },
    {
        match self {
            AddressForm::Done(address) => Ok(address),
            form => Err(form),
        }
    }
}

} // verus!
