//! Clients, the files that keep them, and the questions by which one is taken down.

use crate::address::{address_after, address_question, AddressForm, MailingAddress};
use crate::cli::{
    asks, is_known, name_given, name_text, Answer, Named, Next, Question,
};
use crate::completion::{texts, PrefixAutocomplete};
use crate::contact::{contact_after, contact_question, ContactForm, ContactInfo};
use crate::id::{decoded_ids, filename_of, id_texts, ids_from_filenames, Id};
use crate::text::{lowercase, to_lowercase};
use vstd::prelude::*;

verus! {

/// Someone for whom work is done and invoiced. The name is what the client is called
/// and also what the record is found by.
#[derive(Clone, Debug)]
pub struct Client {
    pub name: Id,
    pub address: MailingAddress,
    pub contact: ContactInfo,
}

/// The texts of identifiers, as strings.
pub fn names_of(ids: &Vec<Id>) -> (names: Vec<String>)
    ensures
        texts(names@) == id_texts(ids@),
{
    let mut names: Vec<String> = Vec::new();
    let mut i: usize = 0;
    while i < ids.len()
        invariant
            i <= ids.len(),
            names.len() == i,
            forall|j: int| 0 <= j < i ==> (#[trigger] names@[j])@ == ids@[j]@,
        decreases ids.len() - i,
    {
        names.push(ids[i].to_text());
        i += 1;
    }
    assert(texts(names@) =~= id_texts(ids@));
    names
}

/// The lowercase forms of names.
pub fn lowercase_all(names: &Vec<String>) -> (lowers: Vec<String>)
    ensures
        texts(lowers@) == texts(names@).map_values(|c: Seq<char>| lowercase(c)),
{
    let mut lowers: Vec<String> = Vec::new();
    let mut i: usize = 0;
    while i < names.len()
        invariant
            i <= names.len(),
            lowers.len() == i,
            forall|j: int| 0 <= j < i ==> (#[trigger] lowers@[j])@ == lowercase(names@[j]@),
        decreases names.len() - i,
    {
        lowers.push(to_lowercase(names[i].as_str()));
        i += 1;
    }
    assert(texts(lowers@) =~= texts(names@).map_values(|c: Seq<char>| lowercase(c)));
    lowers
}

impl Client {
    /// The name of the file that keeps this client.
    pub fn filename(&self) -> (name: String)
        ensures
            name@ == filename_of(self.name@),
    {
        self.name.to_filename()
    }

    /// The names of the clients on record, read from the names of the files in their
    /// directory. A file whose name does not read back as a name is passed over.
    pub fn list(filenames: &Vec<String>) -> (names: Vec<Id>)
        ensures
            id_texts(names@) == decoded_ids(texts(filenames@)),
    {
        ids_from_filenames(filenames)
    }

    /// The question for the name of a client, which offers the known names.
    pub fn name_question(known: &Vec<Id>) -> (q: Question)
        ensures
            q matches Question::Name { message, known: offered } && message == "Client Name:"
                && texts(offered@) == id_texts(known@),
    {
        Question::Name { message: "Client Name:", known: names_of(known) }
    }

    /// Decides whether the client that was named is on record or is to be made: see
    /// [`name_given`].
    pub fn get_or_create_from_user_input(known: &Vec<Id>, answer: Answer) -> (r: Named)
        ensures
            match r {
                Named::Missing => name_text(answer) is None,
                Named::Known(id) => name_text(answer) matches Some(s) && id@ == s@
                    && is_known(known@, s@),
                Named::New(id) => name_text(answer) matches Some(s) && id@ == s@
                    && !is_known(known@, s@),
            },
    {
        name_given(known, answer)
    }

    /// Begins to take down the client called `name`.
    pub fn create_from_user_input_with_name(name: Id) -> (form: ClientForm)
        ensures
            form == (ClientForm::Address { name, form: AddressForm::Line1 }),
    {
        ClientForm::Address { name, form: AddressForm::new() }
    }
}

/// A client as it is being taken down: first the address, then the contact details,
/// then the review of the whole.
#[derive(Debug)]
pub enum ClientForm {
    Address { name: Id, form: AddressForm },
    Contact { name: Id, address: MailingAddress, form: ContactForm },
    Review(Client),
    Done(Client),
}

/// The form after an answer: the answer goes to the part that is being asked for, and
/// the part after it begins once that one is complete.
pub open spec fn client_after(form: ClientForm, answer: Answer) -> ClientForm {
    match form {
        ClientForm::Address { name, form } => match address_after(form, answer) {
            AddressForm::Done(address) => ClientForm::Contact {
                name,
                address,
                form: ContactForm::Email,
            },
            form => ClientForm::Address { name, form },
        },
        ClientForm::Contact { name, address, form } => match contact_after(form, answer) {
            ContactForm::Done(contact) => ClientForm::Review(Client { name, address, contact }),
            form => ClientForm::Contact { name, address, form },
        },
        _ => form,
    }
}

/// The form after the review: the client as it was corrected is the client.
pub open spec fn client_reviewed(form: ClientForm, edited: Client) -> ClientForm {
    match form {
        ClientForm::Review(_) => ClientForm::Done(edited),
        _ => form,
    }
}

/// Whether `next` is what a form is to do: ask the question of the part that is being
/// taken down, under the title of that part where it is its first question; show the
/// client for review; or nothing, once that is done.
pub open spec fn client_next(form: ClientForm, next: Next<Client>) -> bool {
    match form {
        ClientForm::Address { form, .. } => match address_question(form) {
            Some(q) => asks(
                next,
                if form is Line1 {
                    Some("Mailing address:"@)
                } else {
                    None
                },
                q,
            ),
            None => next is Done,
        },
        ClientForm::Contact { form, .. } => match contact_question(form) {
            Some(q) => asks(
                next,
                if form is Email {
                    Some("Contact info:"@)
                } else {
                    None
                },
                q,
            ),
            None => next is Done,
        },
        ClientForm::Review(client) => next == Next::Review(&client),
        ClientForm::Done(_) => next is Done,
    }
}

impl ClientForm {
    /// What to do next: see [`client_next`].
    pub fn next(&self) -> (next: Next<'_, Client>)
        ensures
            client_next(*self, next),
    {
        match self {
            ClientForm::Address { form, .. } => {
                let title = match form {
                    AddressForm::Line1 => Some("Mailing address:".to_owned()),
                    _ => None,
                };
                match form.question() {
                    Some(question) => Next::Ask { title, question },
                    None => Next::Done,
                }
            },
            ClientForm::Contact { form, .. } => {
                let title = match form {
                    ContactForm::Email => Some("Contact info:".to_owned()),
                    _ => None,
                };
                match form.question() {
                    Some(question) => Next::Ask { title, question },
                    None => Next::Done,
                }
            },
            ClientForm::Review(client) => Next::Review(client),
            ClientForm::Done(_) => Next::Done,
        }
    }

    /// Takes the answer to the question: see [`client_after`].
    pub fn answer(self, answer: Answer) -> (form: ClientForm)
        ensures
            form == client_after(self, answer),
    {
        match self {
            ClientForm::Address { name, form } => match form.answer(answer).finish() {
                Ok(address) => ClientForm::Contact { name, address, form: ContactForm::new() },
                Err(form) => ClientForm::Address { name, form },
            },
            ClientForm::Contact { name, address, form } => match form.answer(answer).finish() {
                Ok(contact) => ClientForm::Review(Client { name, address, contact }),
                Err(form) => ClientForm::Contact { name, address, form },
            },
            form => form,
        }
    }

    /// Takes the client as it was corrected: see [`client_reviewed`].
    pub fn reviewed(self, edited: Client) -> (form: ClientForm)
        ensures
            form == client_reviewed(self, edited),
    {
        match self {
            ClientForm::Review(_) => ClientForm::Done(edited),
            form => form,
        }
    }

    /// The client, once it has been reviewed; else the form, to go on with.
    pub fn finish(self) -> (r: Result<Client, ClientForm>)
        ensures
            r == match self {
                ClientForm::Done(client) => Ok::<Client, ClientForm>(client),
                _ => Err(self),
            },
    {
        match self {
            ClientForm::Done(client) => Ok(client),
            form => Err(form),
        }
    }
}

/// The names of the clients, to complete a typed name against.
#[derive(Clone, Debug)]
pub struct ClientAutocomplete {
    client_names: Vec<String>,
    lowercase_names: Vec<String>,
}

impl ClientAutocomplete {
    /// Whether the lowercase names are the lowercase forms of the names, one for one.
    /// It is so of every value that [`ClientAutocomplete::new`] makes.
    pub closed spec fn wf(&self) -> bool {
        texts(self.lowercase_names@) == texts(self.client_names@).map_values(
            |c: Seq<char>| lowercase(c),
        )
    }

    pub fn new(client_ids: Vec<Id>) -> (r: ClientAutocomplete)
        ensures
            r.wf(),
            r.options() == id_texts(client_ids@),
            r.lowercase_options() == r.options().map_values(|c: Seq<char>| lowercase(c)),
    {
        let client_names = names_of(&client_ids);
        let lowercase_names = lowercase_all(&client_names);
        ClientAutocomplete { client_names, lowercase_names }
    }
}

impl PrefixAutocomplete for ClientAutocomplete {
    closed spec fn options(&self) -> Seq<Seq<char>> {
        texts(self.client_names@)
    }

    closed spec fn lowercase_options(&self) -> Seq<Seq<char>> {
        texts(self.lowercase_names@)
    }

    fn get_options(&self) -> (r: &[String]) {
        self.client_names.as_slice()
    }

    fn get_lowercase_options(&self) -> (r: &[String]) {
        self.lowercase_names.as_slice()
    }
}

} // verus!
