//! Invoices, the files that keep them, the questions by which one is taken down, and
//! the documents and ledger entries made from them.

use crate::address::is_optional_answer;
use crate::cli::{asks, format_header, header, kept_text, name_text, Answer, Next, Question};
use crate::client::Client;
use crate::completion::texts;
use crate::date::{is_iso_date, iso_day, iso_month, iso_year, later_date, DateString};
use crate::filename::{decoded_numbers, number_of_filename, numbers_from_filenames};
use crate::id::{extension, filename_of, lemma_filename_round_trip, Id};
use crate::ledger::{
    decimal_of, is_balanced, AccountType, Amount, Decimal, LedgerError, Posting, Transaction,
};
use crate::me::Me;
use crate::price::PriceUSD;
use crate::project::Project;
use crate::text::{
    alphanumerics, chars_of, decimal_digits, decimal_text, is_digit, keep_alphanumerics,
    lemma_decimal_digits,
    lemma_parse_decimal_digits, parse_number, parse_u32, remove_whitespace, without_whitespace,
};
use vstd::prelude::*;

verus! {

pub use crate::client::ClientAutocomplete;

/// Whether the bits of a single-precision number make an amount: a number that is
/// neither negative nor infinite nor undefined.
pub open spec fn is_amount(bits: u32) -> bool {
    bits <= 0x7f7f_ffff
}

/// One thing that an invoice charges for. The quantity is kept as the bits of a
/// single-precision number, as a price is.
#[derive(Clone, Debug)]
pub struct LineItem {
    pub description: String,
    pub quantity: u32,
    pub unit_price: PriceUSD,
}

/// A line item as it is being taken down.
#[derive(Debug)]
pub enum LineItemForm {
    /// The description is asked for; none means that there is no further item.
    Description,
    /// The quantity is asked for.
    Quantity { description: String },
    /// The price of one unit is asked for.
    Price { description: String, quantity: u32 },
    /// The item is complete, or there is none.
    Done(Option<LineItem>),
}

/// The question that a form asks; none once it is done.
pub open spec fn item_question(form: LineItemForm) -> Option<Question> {
    match form {
        LineItemForm::Description => Some(
            Question::OptionalText { message: "Line item:", placeholder: None },
        ),
        LineItemForm::Quantity { .. } => Some(Question::Amount { message: "Quantity:" }),
        LineItemForm::Price { .. } => Some(Question::Amount { message: "Unit Price:" }),
        LineItemForm::Done(_) => None,
    }
}

/// The form after an answer. A description that is passed over or left empty means
/// that there is no item. Quantity and price are asked for until each is given as an
/// amount: see [`is_amount`].
pub open spec fn item_after(form: LineItemForm, answer: Answer) -> LineItemForm {
    match form {
        LineItemForm::Description => if is_optional_answer(answer) {
            match kept_text(answer) {
                Some(description) => LineItemForm::Quantity { description },
                None => LineItemForm::Done(None),
            }
        } else {
            form
        },
        LineItemForm::Quantity { description } => match answer {
            Answer::Amount(quantity) => if is_amount(quantity) {
                LineItemForm::Price { description, quantity }
            } else {
                form
            },
            _ => form,
        },
        LineItemForm::Price { description, quantity } => match answer {
            Answer::Amount(price) => if is_amount(price) {
                LineItemForm::Done(
                    Some(LineItem { description, quantity, unit_price: PriceUSD(price) }),
                )
            } else {
                form
            },
            _ => form,
        },
        LineItemForm::Done(_) => form,
    }
}

impl LineItem {
    /// Begins to take down a line item.
    pub fn create_from_user_input() -> (form: LineItemForm)
        ensures
            form == LineItemForm::Description,
    {
        LineItemForm::Description
    }
}

impl LineItemForm {
    /// What to ask next: see [`item_question`].
    pub fn question(&self) -> (q: Option<Question>)
        ensures
            q == item_question(*self),
    {
        match self {
            LineItemForm::Description => Some(
                Question::OptionalText { message: "Line item:", placeholder: None },
            ),
            LineItemForm::Quantity { .. } => Some(Question::Amount { message: "Quantity:" }),
            LineItemForm::Price { .. } => Some(Question::Amount { message: "Unit Price:" }),
            LineItemForm::Done(_) => None,
        }
    }

    /// Takes the answer to the question: see [`item_after`].
    pub fn answer(self, answer: Answer) -> (form: LineItemForm)
        ensures
            form == item_after(self, answer),
    {
        match self {
            LineItemForm::Description => match answer {
                Answer::Text(_) | Answer::Skipped => match answer.into_kept_text() {
                    Some(description) => LineItemForm::Quantity { description },
                    None => LineItemForm::Done(None),
                },
                _ => LineItemForm::Description,
            },
            LineItemForm::Quantity { description } => match answer {
                Answer::Amount(quantity) => if quantity <= 0x7f7f_ffff {
                    LineItemForm::Price { description, quantity }
                } else {
                    LineItemForm::Quantity { description }
                },
                _ => LineItemForm::Quantity { description },
            },
            LineItemForm::Price { description, quantity } => match answer {
                Answer::Amount(price) => if price <= 0x7f7f_ffff {
                    LineItemForm::Done(
                        Some(LineItem { description, quantity, unit_price: PriceUSD(price) }),
                    )
                } else {
                    LineItemForm::Price { description, quantity }
                },
                _ => LineItemForm::Price { description, quantity },
            },
            LineItemForm::Done(item) => LineItemForm::Done(item),
        }
    }

    /// What the questions came to, once they have been answered: a line item, or none;
    /// else the form, to go on with.
    pub fn finish(self) -> (r: Result<Option<LineItem>, LineItemForm>)
        ensures
            r == match self {
                LineItemForm::Done(item) => Ok::<Option<LineItem>, LineItemForm>(item),
                _ => Err(self),
            },
    {
        match self {
            LineItemForm::Done(item) => Ok(item),
            form => Err(form),
        }
    }
}

/// A bill for work on a project. The project is named, not held. The due date is
/// worked out once, when the invoice is made, and kept.
#[derive(Clone, Debug)]
pub struct Invoice {
    pub number: u32,
    pub project_ref: Id,
    pub date: DateString,
    pub due_date: DateString,
    pub items: Vec<LineItem>,
}

/// The greatest of some numbers; zero where there are none.
pub open spec fn greatest(numbers: Seq<u32>) -> nat
    decreases numbers.len(),
{
    if numbers.len() == 0 {
        0
    } else if numbers.last() > greatest(numbers.drop_last()) {
        numbers.last() as nat
    } else {
        greatest(numbers.drop_last())
    }
}

/// The greatest of some numbers is none of them exceeded, and is one of them unless
/// there are none.
pub proof fn lemma_greatest(numbers: Seq<u32>)
    ensures
        forall|i: int| 0 <= i < numbers.len() ==> #[trigger] numbers[i] <= greatest(numbers),
        numbers.len() > 0 ==> exists|i: int|
            0 <= i < numbers.len() && #[trigger] numbers[i] == greatest(numbers),
        numbers.len() == 0 ==> greatest(numbers) == 0,
    decreases numbers.len(),
{
    if numbers.len() > 0 {
        let rest = numbers.drop_last();
        lemma_greatest(rest);
        assert forall|i: int| 0 <= i < numbers.len() implies #[trigger] numbers[i] <= greatest(
            numbers,
        ) by {
            if i < rest.len() {
                assert(rest[i] == numbers[i]);
            }
        }
        if numbers.last() > greatest(rest) || rest.len() == 0 {
            assert(numbers[numbers.len() - 1] == greatest(numbers));
        } else {
            let i = choose|i: int| 0 <= i < rest.len() && #[trigger] rest[i] == greatest(rest);
            assert(numbers[i] == greatest(numbers));
        }
    }
}

/// The name of the file that keeps the invoice with the given number.
pub open spec fn invoice_filename(number: u32) -> Seq<char> {
    filename_of(decimal_digits(number as nat))
}

/// The name of the file of an invoice stands for the number of the invoice.
pub proof fn lemma_invoice_filename_round_trip(number: u32)
    ensures
        number_of_filename(invoice_filename(number)) == Some(number),
{
    let digits = decimal_digits(number as nat);
    lemma_decimal_digits(number as nat);
    assert(!digits.contains('/')) by {
        if digits.contains('/') {
            let i = choose|i: int| 0 <= i < digits.len() && digits[i] == '/';
            assert(is_digit(digits[i]));
        }
    }
    lemma_filename_round_trip(digits);
    lemma_parse_decimal_digits(number);
}

/// Why the records that an invoice names could not be brought together.
#[derive(Debug)]
pub enum CollectError {
    /// There is no project on record under the name given here.
    ProjectNotFound(Id),
    /// There is no client on record under the name given here.
    ClientNotFound(Id),
}

impl Invoice {
    /// The numbers of the invoices on record, read from the names of the files in
    /// their directory. A file whose name does not stand for a number is passed over.
    pub fn list(filenames: &Vec<String>) -> (numbers: Vec<u32>)
        ensures
            numbers@ == decoded_numbers(texts(filenames@)),
    {
        numbers_from_filenames(filenames)
    }

    /// The number for the next invoice: one more than the greatest number on record,
    /// and 1 where there is none.
    pub fn get_next_number(existing: &Vec<u32>) -> (next: u32)
        requires
            greatest(existing@) < u32::MAX,
        ensures
            next == greatest(existing@) + 1,
    {
        let mut max: u32 = 0;
        let mut i: usize = 0;
        assert(existing@.take(0) =~= Seq::<u32>::empty());
        while i < existing.len()
            invariant
                i <= existing.len(),
                max == greatest(existing@.take(i as int)),
            decreases existing.len() - i,
        {
            assert(existing@.take(i + 1).drop_last() =~= existing@.take(i as int));
            if existing[i] > max {
                max = existing[i];
            }
            i += 1;
        }
        assert(existing@.take(existing.len() as int) =~= existing@);
        max + 1
    }

    /// The number for the next invoice, where there is one left: see
    /// [`Invoice::get_next_number`].
    pub fn checked_next_number(existing: &Vec<u32>) -> (next: Option<u32>)
        ensures
            next == if greatest(existing@) < u32::MAX {
                Some((greatest(existing@) + 1) as u32)
            } else {
                None
            },
    {
        let mut i: usize = 0;
        proof {
            lemma_greatest(existing@);
        }
        while i < existing.len()
            invariant
                i <= existing.len(),
                forall|j: int| 0 <= j < i ==> #[trigger] existing@[j] < u32::MAX,
                forall|j: int| 0 <= j < existing.len() ==> #[trigger] existing@[j] <= greatest(existing@),
            decreases existing.len() - i,
        {
            if existing[i] == u32::MAX {
                return None;
            }
            i += 1;
        }
        proof {
            lemma_greatest(existing@);
        }
        Some(Invoice::get_next_number(existing))
    }

    /// The name of the file that keeps this invoice.
    pub fn filename(&self) -> (name: String)
        ensures
            name@ == invoice_filename(self.number),
    {
        let mut name = decimal_text(self.number);
        name.append(".yaml");
        proof {
            reveal_strlit(".yaml");
            assert(".yaml"@ =~= extension());
        }
        name
    }

    /// Begins to take down an invoice, given the numbers of the invoices on record.
    /// The number that is offered is the next one; none is offered where the numbers
    /// have run out.
    pub fn create_from_user_input(existing: &Vec<u32>) -> (form: InvoiceForm)
        ensures
            form == (InvoiceForm::Number {
                offered: if greatest(existing@) < u32::MAX {
                    Some((greatest(existing@) + 1) as u32)
                } else {
                    None
                },
            }),
    {
        InvoiceForm::Number { offered: Invoice::checked_next_number(existing) }
    }

    /// Brings together what a document of this invoice shows: the invoice, the project
    /// that it names, the client that the project names, and the owner of the books.
    /// `project` is what was found under the name of the project, and `client` what was
    /// found under the name that the project gives for its client. Fails where the
    /// project is missing, and where the project is there and the client is missing.
    pub fn collect(self, me: Me, project: Option<Project>, client: Option<Client>) -> (r: Result<
        FullInvoice,
        CollectError,
    >)
        ensures
            match (project, client) {
                (None, _) => r matches Err(CollectError::ProjectNotFound(id)) && id@
                    == self.project_ref@,
                (Some(p), None) => r matches Err(CollectError::ClientNotFound(id)) && id@
                    == p.client_ref@,
                (Some(p), Some(c)) => r == Ok::<FullInvoice, CollectError>(
                    FullInvoice { me, invoice: self, project: p, client: c },
                ),
            },
    {
        match project {
            None => Err(CollectError::ProjectNotFound(self.project_ref)),
            Some(project) => match client {
                None => Err(CollectError::ClientNotFound(project.client_ref)),
                Some(client) => Ok(FullInvoice { me, invoice: self, project, client }),
            },
        }
    }
}

/// An invoice as it is being taken down: its number, its project, its date, the days
/// allowed for payment, then line items until one is asked for and none is given, then
/// the review of the whole.
#[derive(Debug)]
pub enum InvoiceForm {
    Number { offered: Option<u32> },
    Project { number: u32 },
    Date { number: u32, project_ref: Id },
    Days { number: u32, project_ref: Id, date: DateString },
    Items {
        number: u32,
        project_ref: Id,
        date: DateString,
        due_date: DateString,
        items: Vec<LineItem>,
        form: LineItemForm,
    },
    Review(Invoice),
    Done(Invoice),
}

/// The days allowed for payment that are offered.
pub const DEFAULT_DAYS_TO_PAY: u16 = 7;

/// The line that announces the invoice with the given number.
pub open spec fn invoice_announcement(number: u32) -> Seq<char> {
    header("Create invoice "@ + decimal_digits(number as nat))
}

/// Whether `next` is what a form is to do.
pub open spec fn invoice_next(form: InvoiceForm, next: Next<Invoice>) -> bool {
    match form {
        InvoiceForm::Number { offered } => asks(
            next,
            None,
            Question::Number { message: "Invoice number:", initial: offered },
        ),
        InvoiceForm::Project { number } => asks(
            next,
            Some(invoice_announcement(number)),
            Question::Project,
        ),
        InvoiceForm::Date { .. } => asks(next, None, Question::Date { message: "Invoice date:" }),
        InvoiceForm::Days { .. } => asks(
            next,
            None,
            Question::Days { message: "Days to pay:", default: DEFAULT_DAYS_TO_PAY },
        ),
        InvoiceForm::Items { form, .. } => match item_question(form) {
            Some(q) => asks(next, None, q),
            None => next is Done,
        },
        InvoiceForm::Review(invoice) => next == Next::Review(&invoice),
        InvoiceForm::Done(_) => next is Done,
    }
}

/// Whether `after` is the form that follows `before` upon an answer. A number is asked
/// for until the answer denotes one; a project until one is named; a date until the
/// answer is one; the days to pay until the day that lies so many days after the date
/// is one that can be written, which is then the due date. Each line item that is
/// taken down joins the others at their end, and the next one is asked for; when none
/// is given, the invoice goes to review with the items taken down until then.
pub open spec fn invoice_after(before: InvoiceForm, answer: Answer, after: InvoiceForm) -> bool {
    match before {
        InvoiceForm::Number { offered } => after == match kept_text(answer) {
            Some(text) => match parse_u32(text@) {
                Some(number) => InvoiceForm::Project { number },
                None => before,
            },
            None => before,
        },
        InvoiceForm::Project { number } => match name_text(answer) {
            Some(name) => after matches InvoiceForm::Date { number: n, project_ref } && n == number
                && project_ref@ == name@,
            None => after == before,
        },
        InvoiceForm::Date { number, project_ref } => match kept_text(answer) {
            Some(text) => if is_iso_date(text@) {
                after matches InvoiceForm::Days { number: n, project_ref: p, date } && n == number
                    && p == project_ref && date@ == text@
            } else {
                after == before
            },
            None => after == before,
        },
        InvoiceForm::Days { number, project_ref, date } => match answer {
            Answer::Days(days) => match later_date(
                iso_year(date@),
                iso_month(date@),
                iso_day(date@),
                days as int,
            ) {
                Some(due) => after matches InvoiceForm::Items {
                    number: n,
                    project_ref: p,
                    date: d,
                    due_date,
                    items,
                    form,
                } && n == number && p == project_ref && d == date && iso_year(due_date@) == due.0
                    && iso_month(due_date@) == due.1 && iso_day(due_date@) == due.2
                    && items@.len() == 0 && form == LineItemForm::Description,
                None => after == before,
            },
            _ => after == before,
        },
        InvoiceForm::Items { number, project_ref, date, due_date, items, form } => match item_after(
            form,
            answer,
        ) {
            LineItemForm::Done(Some(item)) => after matches InvoiceForm::Items {
                number: n,
                project_ref: p,
                date: d,
                due_date: u,
                items: i,
                form,
            } && n == number && p == project_ref && d == date && u == due_date && i@
                == items@.push(item) && form == LineItemForm::Description,
            LineItemForm::Done(None) => after == InvoiceForm::Review(
                Invoice { number, project_ref, date, due_date, items },
            ),
            form => after == InvoiceForm::Items { number, project_ref, date, due_date, items, form },
        },
        _ => after == before,
    }
}

/// The form after the review: the invoice as it was corrected is the invoice.
pub open spec fn invoice_reviewed(form: InvoiceForm, edited: Invoice) -> InvoiceForm {
    match form {
        InvoiceForm::Review(_) => InvoiceForm::Done(edited),
        _ => form,
    }
}

impl InvoiceForm {
    /// What to do next: see [`invoice_next`].
    pub fn next(&self) -> (next: Next<'_, Invoice>)
        ensures
            invoice_next(*self, next),
    {
        match self {
            InvoiceForm::Number { offered } => Next::Ask {
                title: None,
                question: Question::Number { message: "Invoice number:", initial: *offered },
            },
            InvoiceForm::Project { number } => {
                let mut text = "Create invoice ".to_owned();
                let digits = decimal_text(*number);
                text.append(digits.as_str());
                Next::Ask {
                    title: Some(format_header(text.as_str())),
                    question: Question::Project,
                }
            },
            InvoiceForm::Date { .. } => Next::Ask {
                title: None,
                question: Question::Date { message: "Invoice date:" },
            },
            InvoiceForm::Days { .. } => Next::Ask {
                title: None,
                question: Question::Days { message: "Days to pay:", default: DEFAULT_DAYS_TO_PAY },
            },
            InvoiceForm::Items { form, .. } => match form.question() {
                Some(question) => Next::Ask { title: None, question },
                None => Next::Done,
            },
            InvoiceForm::Review(invoice) => Next::Review(invoice),
            InvoiceForm::Done(_) => Next::Done,
        }
    }

    /// Takes the answer to the question: see [`invoice_after`].
    pub fn answer(self, answer: Answer) -> (form: InvoiceForm)
        ensures
            invoice_after(self, answer, form),
    {
        match self {
            InvoiceForm::Number { offered } => match answer.into_kept_text() {
                Some(text) => {
                    let chars = chars_of(text.as_str());
                    match parse_number(&chars) {
                        Some(number) => InvoiceForm::Project { number },
                        None => InvoiceForm::Number { offered },
                    }
                },
                None => InvoiceForm::Number { offered },
            },
            InvoiceForm::Project { number } => match answer.into_name() {
                Some(project_ref) => InvoiceForm::Date { number, project_ref },
                None => InvoiceForm::Project { number },
            },
            InvoiceForm::Date { number, project_ref } => match answer.into_kept_text() {
                Some(text) => match DateString::try_new(text) {
                    Ok(date) => InvoiceForm::Days { number, project_ref, date },
                    Err(_) => InvoiceForm::Date { number, project_ref },
                },
                None => InvoiceForm::Date { number, project_ref },
            },
            InvoiceForm::Days { number, project_ref, date } => match answer {
                Answer::Days(days) => match date.checked_add_days(days) {
                    Some(due_date) => InvoiceForm::Items {
                        number,
                        project_ref,
                        date,
                        due_date,
                        items: Vec::new(),
                        form: LineItemForm::Description,
                    },
                    None => InvoiceForm::Days { number, project_ref, date },
                },
                _ => InvoiceForm::Days { number, project_ref, date },
            },
            InvoiceForm::Items { number, project_ref, date, due_date, items, form } => {
                match form.answer(answer).finish() {
                    Ok(Some(item)) => {
                        let mut items = items;
                        items.push(item);
                        InvoiceForm::Items {
                            number,
                            project_ref,
                            date,
                            due_date,
                            items,
                            form: LineItemForm::Description,
                        }
                    },
                    Ok(None) => InvoiceForm::Review(
                        Invoice { number, project_ref, date, due_date, items },
                    ),
                    Err(form) => InvoiceForm::Items {
                        number,
                        project_ref,
                        date,
                        due_date,
                        items,
                        form,
                    },
                }
            },
            form => form,
        }
    }

    /// Takes the invoice as it was corrected: see [`invoice_reviewed`].
    pub fn reviewed(self, edited: Invoice) -> (form: InvoiceForm)
        ensures
            form == invoice_reviewed(self, edited),
    {
        match self {
            InvoiceForm::Review(_) => InvoiceForm::Done(edited),
            form => form,
        }
    }

    /// The invoice, once it has been reviewed; else the form, to go on with.
    pub fn finish(self) -> (r: Result<Invoice, InvoiceForm>)
        ensures
            r == match self {
                InvoiceForm::Done(invoice) => Ok::<Invoice, InvoiceForm>(invoice),
                _ => Err(self),
            },
    {
        match self {
            InvoiceForm::Done(invoice) => Ok(invoice),
            form => Err(form),
        }
    }
}

/// An invoice together with the records that it names, and the owner of the books:
/// all that a document of the invoice shows. It is put together when it is needed
/// and is not kept.
#[derive(Clone, Debug)]
pub struct FullInvoice {
    pub me: Me,
    pub invoice: Invoice,
    pub project: Project,
    pub client: Client,
}

/// The name of the file of a document: what kind of document it is, the name of the
/// owner without white space, the number, and the extension.
pub open spec fn document_filename(kind: Seq<char>, owner: Seq<char>, number: u32) -> Seq<char> {
    kind + without_whitespace(owner) + decimal_digits(number as nat) + ".pdf"@
}

/// The name of the file of the ledger entry for the invoice with the given number.
pub open spec fn ledger_filename(number: u32) -> Seq<char> {
    "Invoice_"@ + decimal_digits(number as nat) + ".ledger"@
}

/// What a ledger entry says happened.
pub open spec fn narration_of(number: u32, project: Seq<char>) -> Seq<char> {
    "Invoice #"@ + decimal_digits(number as nat) + " - "@ + project
}

/// Whether `transaction` is the ledger entry of an invoice over the amount `total`:
/// dated on the day of the invoice, it books the amount, in dollars, on the income
/// account named after the client and on the account of sums receivable.
pub open spec fn is_ledger_entry(full: FullInvoice, total: Decimal, transaction: Transaction) -> bool {
    &&& transaction.date@ == full.invoice.date@
    &&& transaction.narration@ == narration_of(full.invoice.number, full.project.name@)
    &&& transaction.postings@.len() == 2
    &&& transaction.postings@[0].account_type == AccountType::Income
    &&& transaction.postings@[0].account@ == alphanumerics(full.client.name@)
    &&& transaction.postings@[1].account_type == AccountType::Assets
    &&& transaction.postings@[1].account@ == "AccountsReceivable"@
    &&& forall|i: int|
        0 <= i < 2 ==> (#[trigger] transaction.postings@[i]).units.num == total
            && transaction.postings@[i].units.currency@ == "USD"@
}

/// The ledger entry of an invoice is balanced.
pub proof fn lemma_ledger_entry_is_balanced(full: FullInvoice, total: Decimal, transaction: Transaction)
    requires
        is_ledger_entry(full, total, transaction),
    ensures
        is_balanced(transaction),
{
    assert(transaction.postings@[0].units.num == total);
    assert(transaction.postings@[1].units.num == total);
}

impl FullInvoice {
    /// The name of the file of the document of this invoice.
    pub fn filename(&self) -> (name: String)
        ensures
            name@ == document_filename("Invoice_"@, self.me.name@, self.invoice.number),
    {
        let mut name = "Invoice_".to_owned();
        let owner = remove_whitespace(self.me.name.as_str());
        name.append(owner.as_str());
        let number = decimal_text(self.invoice.number);
        name.append(number.as_str());
        name.append(".pdf");
        name
    }

    /// The name of the file of the ledger entry of this invoice.
    pub fn ledger_filename(&self) -> (name: String)
        ensures
            name@ == ledger_filename(self.invoice.number),
    {
        let mut name = "Invoice_".to_owned();
        let number = decimal_text(self.invoice.number);
        name.append(number.as_str());
        name.append(".ledger");
        name
    }

    /// The ledger entry of this invoice over the amount that `total` writes: see
    /// [`is_ledger_entry`]. Fails where `total` does not write a decimal number
    /// exactly.
    pub fn ledger_entry(&self, total: &str) -> (r: Result<Transaction, LedgerError>)
        ensures
            match r {
                Ok(transaction) => decimal_of(total@) matches Some(amount) && is_ledger_entry(
                    *self,
                    amount,
                    transaction,
                ) && is_balanced(transaction),
                Err(LedgerError::Amount) => decimal_of(total@) is None,
            },
    {
        let num = Decimal::from_str_exact(total)?;
        let account = keep_alphanumerics(self.client.name.as_str());
        let mut narration = "Invoice #".to_owned();
        let number = decimal_text(self.invoice.number);
        narration.append(number.as_str());
        narration.append(" - ");
        narration.append(self.project.name.as_str());
        let income = Posting {
            account_type: AccountType::Income,
            account,
            units: Amount { num, currency: "USD".to_owned() },
        };
        let receivable = Posting {
            account_type: AccountType::Assets,
            account: "AccountsReceivable".to_owned(),
            units: Amount { num, currency: "USD".to_owned() },
        };
        let mut postings: Vec<Posting> = Vec::new();
        postings.push(income);
        postings.push(receivable);
        let transaction = Transaction { date: self.invoice.date.clone(), narration, postings };
        proof {
            lemma_ledger_entry_is_balanced(*self, num, transaction);
        }
        Ok(transaction)
    }
}

} // verus!
