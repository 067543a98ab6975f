//! The owner of the books: who sends the invoices, and how they can be paid.

use crate::address::{address_after, address_question, is_optional_answer, AddressForm, MailingAddress};
use crate::cli::{asks, kept_text, Answer, Next, Question};
use crate::contact::{contact_after, contact_question, ContactForm, ContactInfo};
use crate::latex::{can_escape, tex_escaped, Latex, LatexError};
use vstd::prelude::*;

verus! {

/// A way to pay an invoice.
#[derive(Clone, Debug)]
pub struct PaymentMethod {
    pub name: String,
    pub display_text: Option<String>,
    pub url: Option<String>,
}

/// What a payment method is shown as: its display text where it has one, else its name.
pub open spec fn display_of(method: PaymentMethod) -> Seq<char> {
    match method.display_text {
        Some(text) => text@,
        None => method.name@,
    }
}

/// A payment method in a LaTeX document, where what it is shown as can be escaped:
/// that text, escaped; and where the method has a URL, that text as a link to it.
pub open spec fn latex_of(method: PaymentMethod) -> Seq<char> {
    match method.url {
        Some(url) => "\\href{"@ + url@ + "}{"@ + tex_escaped(display_of(method)) + "}"@,
        None => tex_escaped(display_of(method)),
    }
}

impl PaymentMethod {
    /// What the method is shown as: see [`display_of`].
    pub fn display(&self) -> (text: String)
        ensures
            text@ == display_of(*self),
    {
        match &self.display_text {
            Some(text) => text.clone(),
            None => self.name.clone(),
        }
    }

    /// The method as it stands in a LaTeX document: see [`latex_of`]. Fails where, and
    /// only where, what the method is shown as cannot be escaped.
    pub fn to_latex(&self) -> (r: Result<String, LatexError>)
        ensures
            match r {
                Ok(text) => can_escape(display_of(*self)) && text@ == latex_of(*self),
                Err(LatexError::Escape) => !can_escape(display_of(*self)),
            },
    {
        let shown = self.display();
        let escaped = Latex.escape(shown.as_str())?;
        match &self.url {
            Some(url) => {
                let mut out = "\\href{".to_owned();
                out.append(url.as_str());
                out.append("}{");
                out.append(escaped.as_str());
                out.append("}");
                Ok(out)
            },
            None => Ok(escaped),
        }
    }

    /// Begins to take down a payment method.
    pub fn create_from_user_input() -> (form: PaymentForm)
        ensures
            form == PaymentForm::Name,
    {
        PaymentForm::Name
    }
}

/// A payment method as it is being taken down.
#[derive(Debug)]
pub enum PaymentForm {
    /// The name is asked for; no name means that there is no further method.
    Name,
    /// Another text to show in place of the name is asked for.
    DisplayText { name: String },
    /// A URL to link to is asked for.
    Url { name: String, display_text: Option<String> },
    /// The method is complete, or there is none.
    Done(Option<PaymentMethod>),
}

/// The question that a form asks; none once it is done.
pub open spec fn payment_question(form: PaymentForm) -> Option<Question> {
    match form {
        PaymentForm::Name => Some(
            Question::OptionalText { message: "Payment method:", placeholder: None },
        ),
        PaymentForm::DisplayText { .. } => Some(
            Question::OptionalText { message: "Alternate display text?", placeholder: None },
        ),
        PaymentForm::Url { .. } => Some(
            Question::OptionalText { message: "Add link URL?", placeholder: None },
        ),
        PaymentForm::Done(_) => None,
    }
}

/// The form after an answer. Each question may be passed over or answered with an
/// empty line, which both mean the same: without a name there is no method, and a
/// display text or URL that is not given is absent.
pub open spec fn payment_after(form: PaymentForm, answer: Answer) -> PaymentForm {
    if !is_optional_answer(answer) {
        form
    } else {
        match form {
            PaymentForm::Name => match kept_text(answer) {
                Some(name) => PaymentForm::DisplayText { name },
                None => PaymentForm::Done(None),
            },
            PaymentForm::DisplayText { name } => PaymentForm::Url {
                name,
                display_text: kept_text(answer),
            },
            PaymentForm::Url { name, display_text } => PaymentForm::Done(
                Some(PaymentMethod { name, display_text, url: kept_text(answer) }),
            ),
            PaymentForm::Done(_) => form,
        }
    }
}

impl PaymentForm {
    /// What to ask next: see [`payment_question`].
    pub fn question(&self) -> (q: Option<Question>)
        ensures
            q == payment_question(*self),
    {
        match self {
            PaymentForm::Name => Some(
                Question::OptionalText { message: "Payment method:", placeholder: None },
            ),
            PaymentForm::DisplayText { .. } => Some(
                Question::OptionalText { message: "Alternate display text?", placeholder: None },
            ),
            PaymentForm::Url { .. } => Some(
                Question::OptionalText { message: "Add link URL?", placeholder: None },
            ),
            PaymentForm::Done(_) => None,
        }
    }

    /// Takes the answer to the question: see [`payment_after`].
    pub fn answer(self, answer: Answer) -> (form: PaymentForm)
        ensures
            form == payment_after(self, answer),
    {
        match answer {
            Answer::Text(_) | Answer::Skipped => {},
            _ => {
                return self;
            },
        }
        match self {
            PaymentForm::Name => match answer.into_kept_text() {
                Some(name) => PaymentForm::DisplayText { name },
                None => PaymentForm::Done(None),
            },
            PaymentForm::DisplayText { name } => PaymentForm::Url {
                name,
                display_text: answer.into_kept_text(),
            },
            PaymentForm::Url { name, display_text } => PaymentForm::Done(
                Some(PaymentMethod { name, display_text, url: answer.into_kept_text() }),
            ),
            PaymentForm::Done(method) => PaymentForm::Done(method),
        }
    }

    /// What the questions came to, once they have been answered: a payment method, or
    /// none; else the form, to go on with.
    pub fn finish(self) -> (r: Result<Option<PaymentMethod>, PaymentForm>)
        ensures
            r == match self {
                PaymentForm::Done(method) => Ok::<Option<PaymentMethod>, PaymentForm>(method),
                _ => Err(self),
            },
    {
        match self {
            PaymentForm::Done(method) => Ok(method),
            form => Err(form),
        }
    }
}

/// The owner of the books.
#[derive(Clone, Debug)]
pub struct Me {
    pub name: String,
    pub address: MailingAddress,
    pub contact: ContactInfo,
    pub payment: Vec<PaymentMethod>,
}

/// The owner's record as it is being taken down: the name, the address, the contact
/// details, then payment methods until one is asked for and none is named, then the
/// review of the whole.
#[derive(Debug)]
pub enum MeForm {
    Name,
    Address { name: String, form: AddressForm },
    Contact { name: String, address: MailingAddress, form: ContactForm },
    Payment {
        name: String,
        address: MailingAddress,
        contact: ContactInfo,
        payment: Vec<PaymentMethod>,
        form: PaymentForm,
    },
    Review(Me),
    Done(Me),
}

/// The question for the owner's name.
pub open spec fn owner_question() -> Question {
    Question::Text { message: "Your Name:", placeholder: None, required: true }
}

/// Whether `next` is what a form is to do: ask the question of the part that is being
/// taken down, under the title of that part where it is its first question; show the
/// record for review; or nothing, once that is done.
pub open spec fn me_next(form: MeForm, next: Next<Me>) -> bool {
    match form {
        MeForm::Name => asks(next, None, owner_question()),
        MeForm::Address { form, .. } => match address_question(form) {
            Some(q) => asks(
                next,
                if form is Line1 {
                    Some("Mailing address:"@)
                } else {
                    None
                },
                q,
            ),
            None => next is Done,
        },
        MeForm::Contact { form, .. } => match contact_question(form) {
            Some(q) => asks(
                next,
                if form is Email {
                    Some("Contact info:"@)
                } else {
                    None
                },
                q,
            ),
            None => next is Done,
        },
        MeForm::Payment { payment, form, .. } => match payment_question(form) {
            Some(q) => asks(
                next,
                if form is Name && payment@.len() == 0 {
                    Some("Acceptable payment methods:"@)
                } else {
                    None
                },
                q,
            ),
            None => next is Done,
        },
        MeForm::Review(me) => next == Next::Review(&me),
        MeForm::Done(_) => next is Done,
    }
}

/// Whether `after` is the form that follows `before` upon an answer. The answer goes
/// to the part that is being asked for, and the next part begins when that one is
/// complete. Each payment method that is taken down joins the others at their end, and
/// the next one is asked for; when none is named, the record goes to review with the
/// methods taken down until then.
pub open spec fn me_after(before: MeForm, answer: Answer, after: MeForm) -> bool {
    match before {
        MeForm::Name => after == match kept_text(answer) {
            Some(name) => MeForm::Address { name, form: AddressForm::Line1 },
            None => before,
        },
        MeForm::Address { name, form } => after == match address_after(form, answer) {
            AddressForm::Done(address) => MeForm::Contact { name, address, form: ContactForm::Email },
            form => MeForm::Address { name, form },
        },
        MeForm::Contact { name, address, form } => match contact_after(form, answer) {
            ContactForm::Done(c) => after matches MeForm::Payment {
                name: n,
                address: a,
                contact,
                payment,
                form,
            } && n == name && a == address && contact == c && payment@.len() == 0 && form
                == PaymentForm::Name,
            form => after == MeForm::Contact { name, address, form },
        },
        MeForm::Payment { name, address, contact, payment, form } => match payment_after(
            form,
            answer,
        ) {
            PaymentForm::Done(Some(method)) => after matches MeForm::Payment {
                name: n,
                address: a,
                contact: c,
                payment: p,
                form,
            } && n == name && a == address && c == contact && p@ == payment@.push(method)
                && form == PaymentForm::Name,
            PaymentForm::Done(None) => after == MeForm::Review(
                Me { name, address, contact, payment },
            ),
            form => after == MeForm::Payment { name, address, contact, payment, form },
        },
        _ => after == before,
    }
}

/// The form after the review: the record as it was corrected is the record.
pub open spec fn me_reviewed(form: MeForm, edited: Me) -> MeForm {
    match form {
        MeForm::Review(_) => MeForm::Done(edited),
        _ => form,
    }
}

impl Me {
    /// Begins to take down the owner's record.
    pub fn create_from_user_input() -> (form: MeForm)
        ensures
            form == MeForm::Name,
    {
        MeForm::Name
    }
}

impl MeForm {
    /// What to do next: see [`me_next`].
    pub fn next(&self) -> (next: Next<'_, Me>)
        ensures
            me_next(*self, next),
    {
        match self {
            MeForm::Name => Next::Ask {
                title: None,
                question: Question::Text {
                    message: "Your Name:",
                    placeholder: None,
                    required: true,
                },
            },
            MeForm::Address { form, .. } => {
                let title = match form {
                    AddressForm::Line1 => Some("Mailing address:".to_owned()),
                    _ => None,
                };
                match form.question() {
                    Some(question) => Next::Ask { title, question },
                    None => Next::Done,
                }
            },
            MeForm::Contact { form, .. } => {
                let title = match form {
                    ContactForm::Email => Some("Contact info:".to_owned()),
                    _ => None,
                };
                match form.question() {
                    Some(question) => Next::Ask { title, question },
                    None => Next::Done,
                }
            },
            MeForm::Payment { payment, form, .. } => {
                let first = payment.len() == 0;
                let title = match form {
                    PaymentForm::Name => if first {
                        Some("Acceptable payment methods:".to_owned())
                    } else {
                        None
                    },
                    _ => None,
                };
                match form.question() {
                    Some(question) => Next::Ask { title, question },
                    None => Next::Done,
                }
            },
            MeForm::Review(me) => Next::Review(me),
            MeForm::Done(_) => Next::Done,
        }
    }

    /// Takes the answer to the question: see [`me_after`].
    pub fn answer(self, answer: Answer) -> (form: MeForm)
        ensures
            me_after(self, answer, form),
    {
        match self {
            MeForm::Name => match answer.into_kept_text() {
                Some(name) => MeForm::Address { name, form: AddressForm::new() },
                None => MeForm::Name,
            },
            MeForm::Address { name, form } => match form.answer(answer).finish() {
                Ok(address) => MeForm::Contact { name, address, form: ContactForm::new() },
                Err(form) => MeForm::Address { name, form },
            },
            MeForm::Contact { name, address, form } => match form.answer(answer).finish() {
                Ok(contact) => MeForm::Payment {
                    name,
                    address,
                    contact,
                    payment: Vec::new(),
                    form: PaymentForm::Name,
                },
                Err(form) => MeForm::Contact { name, address, form },
            },
            MeForm::Payment { name, address, contact, payment, form } => {
                match form.answer(answer).finish() {
                    Ok(Some(method)) => {
                        let mut payment = payment;
                        payment.push(method);
                        MeForm::Payment {
                            name,
                            address,
                            contact,
                            payment,
                            form: PaymentForm::Name,
                        }
                    },
                    Ok(None) => MeForm::Review(Me { name, address, contact, payment }),
                    Err(form) => MeForm::Payment { name, address, contact, payment, form },
                }
            },
            form => form,
        }
    }

    /// Takes the record as it was corrected: see [`me_reviewed`].
    pub fn reviewed(self, edited: Me) -> (form: MeForm)
        ensures
            form == me_reviewed(self, edited),
    {
        match self {
            MeForm::Review(_) => MeForm::Done(edited),
            form => form,
        }
    }

    /// The record, once it has been reviewed; else the form, to go on with.
    pub fn finish(self) -> (r: Result<Me, MeForm>)
        ensures
            r == match self {
                MeForm::Done(me) => Ok::<Me, MeForm>(me),
                _ => Err(self),
            },
    {
        match self {
            MeForm::Done(me) => Ok(me),
            form => Err(form),
        }
    }
}

} // verus!
