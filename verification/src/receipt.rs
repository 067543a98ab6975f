//! Receipts for paid invoices, the files that keep them, and the questions by which one
//! is taken down.

use crate::cli::{asks, format_header, header, kept_text, Answer, Next, Question};
use crate::client::Client;
use crate::completion::texts;
use crate::date::{is_iso_date, iso_day, iso_month, iso_year, long_form, DateString};
use crate::filename::{decoded_numbers, numbers_from_filenames};
use crate::id::extension;
use crate::invoice::{document_filename, invoice_filename, CollectError, Invoice};
use crate::me::{Me, PaymentMethod};
use crate::project::Project;
use crate::text::{decimal_digits, decimal_text, remove_whitespace};
use vstd::prelude::*;

verus! {

/// The record that an invoice was paid. There is at most one for an invoice, and it is
/// found by the number of the invoice.
#[derive(Clone, Debug)]
pub struct Receipt {
    pub invoice_num: u32,
    pub date: DateString,
    pub payment_method: String,
}

/// Why no receipt can be made.
#[derive(Clone, Copy, Debug, PartialEq, Eq, Structural)]
pub enum ReceiptError {
    /// Every invoice has its receipt: there is nothing to do.
    AllPaid,
}

/// Whether `numbers` fall strictly from one to the next.
pub open spec fn is_descending(numbers: Seq<u32>) -> bool {
    forall|i: int, j: int| 0 <= i < j < numbers.len() ==> numbers[i] > numbers[j]
}

/// Whether `unpaid` are the numbers of the invoices without a receipt, the greatest
/// first and each once: every one of them is the number of an invoice and of no
/// receipt, and every number of an invoice and of no receipt is among them.
pub open spec fn is_unpaid(invoices: Seq<u32>, receipts: Seq<u32>, unpaid: Seq<u32>) -> bool {
    &&& is_descending(unpaid)
    &&& forall|n: u32| unpaid.contains(n) <==> invoices.contains(n) && !receipts.contains(n)
}

/// Whether `numbers` holds `n`.
fn contains_number(numbers: &Vec<u32>, n: u32) -> (b: bool)
    ensures
        b == numbers@.contains(n),
{
    let mut i: usize = 0;
    while i < numbers.len()
        invariant
            i <= numbers.len(),
            forall|j: int| 0 <= j < i ==> numbers@[j] != n,
        decreases numbers.len() - i,
    {
        if numbers[i] == n {
            return true;
        }
        i += 1;
    }
    false
}

/// A number put among others is among them afterwards, beside those that were.
proof fn lemma_insert_contains(before: Seq<u32>, at: int, n: u32)
    requires
        0 <= at <= before.len(),
    ensures
        forall|m: u32| before.insert(at, n).contains(m) <==> before.contains(m) || m == n,
{
    let after = before.insert(at, n);
    assert forall|m: u32| after.contains(m) <==> before.contains(m) || m == n by {
        if after.contains(m) {
            let k = choose|k: int| 0 <= k < after.len() && after[k] == m;
            if k < at {
                assert(before[k] == m);
            } else if k > at {
                assert(before[k - 1] == m);
            }
        }
        if before.contains(m) {
            let k = choose|k: int| 0 <= k < before.len() && before[k] == m;
            if k < at {
                assert(after[k] == m);
            } else {
                assert(after[k + 1] == m);
            }
        }
        if m == n {
            assert(after[at] == n);
        }
    }
}

/// Numbers that fall still fall when a number is put between those greater than it
/// and those less than it.
proof fn lemma_insert_descending(before: Seq<u32>, at: int, n: u32)
    requires
        0 <= at <= before.len(),
        is_descending(before),
        forall|j: int| 0 <= j < at ==> before[j] > n,
        forall|j: int| at <= j < before.len() ==> before[j] < n,
    ensures
        is_descending(before.insert(at, n)),
{
    let after = before.insert(at, n);
    assert forall|i: int, j: int| 0 <= i < j < after.len() implies after[i] > after[j] by {
        let x = if i < at {
            before[i]
        } else if i == at {
            n
        } else {
            before[i - 1]
        };
        let y = if j < at {
            before[j]
        } else if j == at {
            n
        } else {
            before[j - 1]
        };
        assert(after[i] == x && after[j] == y);
    }
}

/// Puts `n` in its place among numbers that fall, unless it is there already.
fn insert_descending(sorted: &mut Vec<u32>, n: u32)
    requires
        is_descending(old(sorted)@),
    ensures
        is_descending(final(sorted)@),
        forall|m: u32| final(sorted)@.contains(m) <==> old(sorted)@.contains(m) || m == n,
{
    let mut at: usize = 0;
    while at < sorted.len() && sorted[at] > n
        invariant
            at <= sorted.len(),
            *sorted == *old(sorted),
            forall|j: int| 0 <= j < at ==> sorted@[j] > n,
        decreases sorted.len() - at,
    {
        at += 1;
    }
    let ghost before = sorted@;
    if at < sorted.len() && sorted[at] == n {
        assert(before.contains(n)) by {
            assert(before[at as int] == n);
        }
        return ;
    }
    proof {
        assert forall|j: int| at <= j < before.len() implies before[j] < n by {
            if j > at {
                assert(before[at as int] > before[j]);
            }
        }
        lemma_insert_contains(before, at as int, n);
        lemma_insert_descending(before, at as int, n);
    }
    sorted.insert(at, n);
}

/// What is offered for an invoice where one is picked to make a receipt for: its
/// number, its date, its due date and its project.
pub open spec fn invoice_option(invoice: Invoice) -> Seq<char> {
    "#"@ + decimal_digits(invoice.number as nat) + " on "@ + long_form(
        iso_year(invoice.date@),
        iso_month(invoice.date@),
        iso_day(invoice.date@),
    ) + " (due "@ + long_form(
        iso_year(invoice.due_date@),
        iso_month(invoice.due_date@),
        iso_day(invoice.due_date@),
    ) + ") for "@ + invoice.project_ref@
}

impl Receipt {
    /// The numbers of the receipts on record, read from the names of the files in
    /// their directory. A file whose name does not stand for a number is passed over.
    pub fn list(filenames: &Vec<String>) -> (numbers: Vec<u32>)
        ensures
            numbers@ == decoded_numbers(texts(filenames@)),
    {
        numbers_from_filenames(filenames)
    }

    /// The name of the file that keeps this receipt: that of its invoice, in the
    /// directory of the receipts.
    pub fn filename(&self) -> (name: String)
        ensures
            name@ == invoice_filename(self.invoice_num),
    {
        let mut name = decimal_text(self.invoice_num);
        name.append(".yaml");
        proof {
            reveal_strlit(".yaml");
            assert(".yaml"@ =~= extension());
        }
        name
    }

    /// The numbers of the invoices without a receipt, the greatest first: see
    /// [`is_unpaid`]. Fails where there is none, so that nothing is asked when there
    /// is nothing to make a receipt for.
    pub fn unpaid_invoices(invoices: &Vec<u32>, receipts: &Vec<u32>) -> (r: Result<
        Vec<u32>,
        ReceiptError,
    >)
        ensures
            match r {
                Ok(unpaid) => unpaid@.len() > 0 && is_unpaid(invoices@, receipts@, unpaid@),
                Err(ReceiptError::AllPaid) => forall|n: u32|
                    invoices@.contains(n) ==> receipts@.contains(n),
            },
    {
        let mut unpaid: Vec<u32> = Vec::new();
        let mut i: usize = 0;
        while i < invoices.len()
            invariant
                i <= invoices.len(),
                is_descending(unpaid@),
                forall|n: u32|
                    unpaid@.contains(n) <==> invoices@.take(i as int).contains(n)
                        && !receipts@.contains(n),
            decreases invoices.len() - i,
        {
            let n = invoices[i];
            let ghost before = unpaid@;
            let ghost seen = invoices@.take(i as int);
            let ghost grown = invoices@.take(i + 1);
            assert(grown =~= seen.push(n));
            assert forall|m: u32| grown.contains(m) <==> seen.contains(m) || m == n by {
                if grown.contains(m) {
                    let k = choose|k: int| 0 <= k < grown.len() && grown[k] == m;
                    if k < i {
                        assert(seen[k] == m);
                    }
                }
                if seen.contains(m) {
                    let k = choose|k: int| 0 <= k < seen.len() && seen[k] == m;
                    assert(grown[k] == m);
                }
                if m == n {
                    assert(grown[i as int] == n);
                }
            }
            if !contains_number(receipts, n) {
                insert_descending(&mut unpaid, n);
            }
            i += 1;
        }
        assert(invoices@.take(invoices.len() as int) =~= invoices@);
        if unpaid.len() == 0 {
            assert forall|n: u32| invoices@.contains(n) implies receipts@.contains(n) by {
                if !receipts@.contains(n) {
                    assert(unpaid@.contains(n));
                }
            }
            Err(ReceiptError::AllPaid)
        } else {
            Ok(unpaid)
        }
    }

    /// What is offered for an invoice: see [`invoice_option`].
    pub fn describe(invoice: &Invoice) -> (text: String)
        ensures
            text@ == invoice_option(*invoice),
    {
        let mut text = "#".to_owned();
        let number = decimal_text(invoice.number);
        text.append(number.as_str());
        text.append(" on ");
        let date = invoice.date.to_string_long_form();
        text.append(date.as_str());
        text.append(" (due ");
        let due = invoice.due_date.to_string_long_form();
        text.append(due.as_str());
        text.append(") for ");
        text.append(invoice.project_ref.as_str());
        text
    }

    /// Begins to take down a receipt. `invoices` are the unpaid invoices that could be
    /// read, in the order of [`Receipt::unpaid_invoices`], and `methods` the ways to
    /// pay that the owner of the books accepts.
    pub fn create_from_user_input(invoices: Vec<Invoice>, methods: Vec<PaymentMethod>) -> (form:
        ReceiptForm)
        ensures
            form == (ReceiptForm::Invoice { invoices, methods }),
    {
        ReceiptForm::Invoice { invoices, methods }
    }

    /// Brings together what a document of this receipt shows: the receipt, its invoice,
    /// the project that the invoice names, the client that the project names, and the
    /// owner of the books. Each of `invoice`, `project` and `client` is what was found
    /// under the name that the record before it gives. Fails at the first that is
    /// missing.
    pub fn collect(
        self,
        me: Me,
        invoice: Option<Invoice>,
        project: Option<Project>,
        client: Option<Client>,
    ) -> (r: Result<FullReceipt, ReceiptCollectError>)
        ensures
            match (invoice, project, client) {
                (None, _, _) => r matches Err(ReceiptCollectError::InvoiceNotFound(n)) && n
                    == self.invoice_num,
                (Some(i), None, _) => r matches Err(
                    ReceiptCollectError::Record(CollectError::ProjectNotFound(id)),
                ) && id@ == i.project_ref@,
                (Some(i), Some(p), None) => r matches Err(
                    ReceiptCollectError::Record(CollectError::ClientNotFound(id)),
                ) && id@ == p.client_ref@,
                (Some(i), Some(p), Some(c)) => r == Ok::<FullReceipt, ReceiptCollectError>(
                    FullReceipt { me, receipt: self, invoice: i, project: p, client: c },
                ),
            },
    {
        match invoice {
            None => Err(ReceiptCollectError::InvoiceNotFound(self.invoice_num)),
            Some(invoice) => match project {
                None => Err(
                    ReceiptCollectError::Record(
                        CollectError::ProjectNotFound(invoice.project_ref),
                    ),
                ),
                Some(project) => match client {
                    None => Err(
                        ReceiptCollectError::Record(
                            CollectError::ClientNotFound(project.client_ref),
                        ),
                    ),
                    Some(client) => Ok(
                        FullReceipt { me, receipt: self, invoice, project, client },
                    ),
                },
            },
        }
    }
}

/// Why the records that a receipt leads to could not be brought together.
#[derive(Debug)]
pub enum ReceiptCollectError {
    /// There is no invoice on record under the number given here.
    InvoiceNotFound(u32),
    /// A record that the invoice leads to is missing.
    Record(CollectError),
}

/// A receipt as it is being taken down: the invoice that was paid, the day of the
/// payment, the way of the payment, then the review of the whole.
#[derive(Debug)]
pub enum ReceiptForm {
    Invoice { invoices: Vec<Invoice>, methods: Vec<PaymentMethod> },
    Date { invoice_num: u32, methods: Vec<PaymentMethod> },
    Method { invoice_num: u32, date: DateString, methods: Vec<PaymentMethod> },
    Review(Receipt),
    Done(Receipt),
}

/// The line that announces the receipt for the invoice with the given number.
pub open spec fn receipt_announcement(number: u32) -> Seq<char> {
    header("Create receipt "@ + decimal_digits(number as nat))
}

/// Whether `next` is what a form is to do: offer the invoices to pick one from, each
/// as [`invoice_option`] describes it; ask for the day of the payment, under the line
/// that announces the receipt; offer the names of the ways to pay; show the receipt for
/// review; or nothing, once that is done.
pub open spec fn receipt_next(form: ReceiptForm, next: Next<Receipt>) -> bool {
    match form {
        ReceiptForm::Invoice { invoices, .. } => next matches Next::Ask {
            title: None,
            question: Question::Select { message, options },
        } && message == "Invoice number:" && texts(options@) == invoices@.map_values(
            |i: Invoice| invoice_option(i),
        ),
        ReceiptForm::Date { invoice_num, .. } => asks(
            next,
            Some(receipt_announcement(invoice_num)),
            Question::Date { message: "Receipt date:" },
        ),
        ReceiptForm::Method { methods, .. } => next matches Next::Ask {
            title: None,
            question: Question::Select { message, options },
        } && message == "Payment method:" && texts(options@) == methods@.map_values(
            |m: PaymentMethod| m.name@,
        ),
        ReceiptForm::Review(receipt) => next == Next::Review(&receipt),
        ReceiptForm::Done(_) => next is Done,
    }
}

/// Whether `after` is the form that follows `before` upon an answer. An invoice is
/// asked for until one of those offered is picked; a date until the answer is one; a
/// way to pay until one of those offered is picked, whose name the receipt then keeps.
pub open spec fn receipt_after(before: ReceiptForm, answer: Answer, after: ReceiptForm) -> bool {
    match before {
        ReceiptForm::Invoice { invoices, methods } => match answer {
            Answer::Choice(at) => if at < invoices@.len() {
                after == (ReceiptForm::Date { invoice_num: invoices@[at as int].number, methods })
            } else {
                after == before
            },
            _ => after == before,
        },
        ReceiptForm::Date { invoice_num, methods } => match kept_text(answer) {
            Some(text) => if is_iso_date(text@) {
                after matches ReceiptForm::Method { invoice_num: n, date, methods: m } && n
                    == invoice_num && m == methods && date@ == text@
            } else {
                after == before
            },
            None => after == before,
        },
        ReceiptForm::Method { invoice_num, date, methods } => match answer {
            Answer::Choice(at) => if at < methods@.len() {
                after matches ReceiptForm::Review(receipt) && receipt.invoice_num == invoice_num
                    && receipt.date == date && receipt.payment_method@ == methods@[at as int].name@
            } else {
                after == before
            },
            _ => after == before,
        },
        _ => after == before,
    }
}

/// The form after the review: the receipt as it was corrected is the receipt.
pub open spec fn receipt_reviewed(form: ReceiptForm, edited: Receipt) -> ReceiptForm {
    match form {
        ReceiptForm::Review(_) => ReceiptForm::Done(edited),
        _ => form,
    }
}

impl ReceiptForm {
    /// What to do next: see [`receipt_next`].
    pub fn next(&self) -> (next: Next<'_, Receipt>)
        ensures
            receipt_next(*self, next),
    {
        match self {
            ReceiptForm::Invoice { invoices, .. } => {
                let mut options: Vec<String> = Vec::new();
                let mut i: usize = 0;
                while i < invoices.len()
                    invariant
                        i <= invoices.len(),
                        options.len() == i,
                        forall|j: int|
                            0 <= j < i ==> (#[trigger] options@[j])@ == invoice_option(
                                invoices@[j],
                            ),
                    decreases invoices.len() - i,
                {
                    options.push(Receipt::describe(&invoices[i]));
                    i += 1;
                }
                assert(texts(options@) =~= invoices@.map_values(|i: Invoice| invoice_option(i)));
                Next::Ask {
                    title: None,
                    question: Question::Select { message: "Invoice number:", options },
                }
            },
            ReceiptForm::Date { invoice_num, .. } => {
                let mut text = "Create receipt ".to_owned();
                let digits = decimal_text(*invoice_num);
                text.append(digits.as_str());
                Next::Ask {
                    title: Some(format_header(text.as_str())),
                    question: Question::Date { message: "Receipt date:" },
                }
            },
            ReceiptForm::Method { methods, .. } => {
                let mut options: Vec<String> = Vec::new();
                let mut i: usize = 0;
                while i < methods.len()
                    invariant
                        i <= methods.len(),
                        options.len() == i,
                        forall|j: int| 0 <= j < i ==> (#[trigger] options@[j])@ == methods@[j].name@,
                    decreases methods.len() - i,
                {
                    options.push(methods[i].name.clone());
                    i += 1;
                }
                assert(texts(options@) =~= methods@.map_values(|m: PaymentMethod| m.name@));
                Next::Ask {
                    title: None,
                    question: Question::Select { message: "Payment method:", options },
                }
            },
            ReceiptForm::Review(receipt) => Next::Review(receipt),
            ReceiptForm::Done(_) => Next::Done,
        }
    }

    /// Takes the answer to the question: see [`receipt_after`].
    pub fn answer(self, answer: Answer) -> (form: ReceiptForm)
        ensures
            receipt_after(self, answer, form),
    {
        match self {
            ReceiptForm::Invoice { invoices, methods } => match answer {
                Answer::Choice(at) => if at < invoices.len() {
                    ReceiptForm::Date { invoice_num: invoices[at].number, methods }
                } else {
                    ReceiptForm::Invoice { invoices, methods }
                },
                _ => ReceiptForm::Invoice { invoices, methods },
            },
            ReceiptForm::Date { invoice_num, methods } => match answer.into_kept_text() {
                Some(text) => match DateString::try_new(text) {
                    Ok(date) => ReceiptForm::Method { invoice_num, date, methods },
                    Err(_) => ReceiptForm::Date { invoice_num, methods },
                },
                None => ReceiptForm::Date { invoice_num, methods },
            },
            ReceiptForm::Method { invoice_num, date, methods } => match answer {
                Answer::Choice(at) => if at < methods.len() {
                    let payment_method = methods[at].name.clone();
                    ReceiptForm::Review(Receipt { invoice_num, date, payment_method })
                } else {
                    ReceiptForm::Method { invoice_num, date, methods }
                },
                _ => ReceiptForm::Method { invoice_num, date, methods },
            },
            form => form,
        }
    }

    /// Takes the receipt as it was corrected: see [`receipt_reviewed`].
    pub fn reviewed(self, edited: Receipt) -> (form: ReceiptForm)
        ensures
            form == receipt_reviewed(self, edited),
    {
        match self {
            ReceiptForm::Review(_) => ReceiptForm::Done(edited),
            form => form,
        }
    }

    /// The receipt, once it has been reviewed; else the form, to go on with.
    pub fn finish(self) -> (r: Result<Receipt, ReceiptForm>)
        ensures
            r == match self {
                ReceiptForm::Done(receipt) => Ok::<Receipt, ReceiptForm>(receipt),
                _ => Err(self),
            },
    {
        match self {
            ReceiptForm::Done(receipt) => Ok(receipt),
            form => Err(form),
        }
    }
}

/// A receipt together with the records that it leads to, and the owner of the books:
/// all that a document of the receipt shows. It is put together when it is needed and
/// is not kept.
#[derive(Clone, Debug)]
pub struct FullReceipt {
    pub me: Me,
    pub receipt: Receipt,
    pub invoice: Invoice,
    pub project: Project,
    pub client: Client,
}

impl FullReceipt {
    /// The name of the file of the document of this receipt.
    pub fn filename(&self) -> (name: String)
        ensures
            name@ == document_filename("Receipt_"@, self.me.name@, self.invoice.number),
    {
        let mut name = "Receipt_".to_owned();
        let owner = remove_whitespace(self.me.name.as_str());
        name.append(owner.as_str());
        let number = decimal_text(self.invoice.number);
        name.append(number.as_str());
        name.append(".pdf");
        name
    }
}

} // verus!
