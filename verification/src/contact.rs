//! How to reach someone, and the questions by which that is taken down.

use crate::cli::{kept_text, Answer, Question};
use vstd::prelude::*;

verus! {

/// How to reach a client, or the owner of the books.
#[derive(Clone, Debug)]
pub struct ContactInfo {
    pub email: String,
    pub phone: String,
}

/// Contact details as they are being taken down: what has been answered, and by that
/// what is asked next.
#[derive(Debug)]
pub enum ContactForm {
    /// Nothing is known yet; the email address is asked for.
    Email,
    /// The telephone number is asked for.
    Phone { email: String },
    /// Both are known.
    Done(ContactInfo),
}

/// The question that a form asks; none once the details are complete.
pub open spec fn contact_question(form: ContactForm) -> Option<Question> {
    match form {
        ContactForm::Email => Some(
            Question::Text {
                message: "Email:",
                placeholder: Some("test@example.com"),
                required: true,
            },
        ),
        ContactForm::Phone { .. } => Some(
            Question::Text {
                message: "Phone:",
                placeholder: Some("(412) 555-1827"),
                required: true,
            },
        ),
        ContactForm::Done(_) => None,
    }
}

/// The form after an answer to its question: both details are required, and each is
/// asked for again until it is given.
pub open spec fn contact_after(form: ContactForm, answer: Answer) -> ContactForm {
    match (form, kept_text(answer)) {
        (ContactForm::Email, Some(email)) => ContactForm::Phone { email },
        (ContactForm::Phone { email }, Some(phone)) => ContactForm::Done(
            ContactInfo { email, phone },
        ),
        _ => form,
    }
}

impl ContactForm {
    /// An empty form, which asks for the email address.
    pub fn new() -> (form: ContactForm)
        ensures
            form == ContactForm::Email,
    {
        ContactForm::Email
    }

    /// What to ask next: see [`contact_question`].
    pub fn question(&self) -> (q: Option<Question>)
        ensures
            q == contact_question(*self),
    {
        match self {
            ContactForm::Email => Some(
                Question::Text {
                    message: "Email:",
                    placeholder: Some("test@example.com"),
                    required: true,
                },
            ),
            ContactForm::Phone { .. } => Some(
                Question::Text {
                    message: "Phone:",
                    placeholder: Some("(412) 555-1827"),
                    required: true,
                },
            ),
            ContactForm::Done(_) => None,
        }
    }

    /// Takes the answer to the question: see [`contact_after`].
    pub fn answer(self, answer: Answer) -> (form: ContactForm)
        ensures
            form == contact_after(self, answer),
    {
        match self {
            ContactForm::Email => match answer.into_kept_text() {
                Some(email) => ContactForm::Phone { email },
                None => ContactForm::Email,
            },
            ContactForm::Phone { email } => match answer.into_kept_text() {
                Some(phone) => ContactForm::Done(ContactInfo { email, phone }),
                None => ContactForm::Phone { email },
            },
            ContactForm::Done(contact) => ContactForm::Done(contact),
        }
    }

    /// The contact details, once both questions have been answered; else the form, to
    /// go on with.
    pub fn finish(self) -> (r: Result<ContactInfo, ContactForm>)
        ensures
            r == match self {
                ContactForm::Done(contact) => Ok::<ContactInfo, ContactForm>(contact),
                _ => Err(self),
            },
    {
        match self {
            ContactForm::Done(contact) => Ok(contact),
            form => Err(form),
        }
    }
}

/// A form that holds nothing empty holds nothing empty after an answer either: so the
/// details that a form ends with, having started empty, are both there.
pub proof fn lemma_contact_is_complete(form: ContactForm, answer: Answer)
    requires
        contact_complete(form),
    ensures
        contact_complete(contact_after(form, answer)),
{
}

/// Whether what a form holds is not empty.
pub open spec fn contact_complete(form: ContactForm) -> bool {
    match form {
        ContactForm::Email => true,
        ContactForm::Phone { email } => email@.len() > 0,
        ContactForm::Done(contact) => contact.email@.len() > 0 && contact.phone@.len() > 0,
    }
}

} // verus!
