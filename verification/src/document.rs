//! The LaTeX source of the documents: what an invoice and a receipt show, with every
//! text that a person typed escaped.

use crate::address::MailingAddress;
use crate::date::{iso_day, iso_month, iso_year, long_form, DateString};
use crate::invoice::{FullInvoice, LineItem};
use crate::latex::{can_escape, tex_escape, tex_escaped, Latex, LatexError};
use crate::me::{display_of, latex_of, PaymentMethod};
use crate::receipt::FullReceipt;
use crate::text::{decimal_digits, decimal_text};
use vstd::prelude::*;

verus! {

/// An address on one line: its lines and the city, each followed by a comma, then the
/// state and the zip code.
pub open spec fn address_line(address: MailingAddress) -> Seq<char> {
    address.addr1@ + ", "@ + (match address.addr2 {
        Some(line) => line@ + ", "@,
        None => Seq::empty(),
    }) + (match address.addr3 {
        Some(line) => line@ + ", "@,
        None => Seq::empty(),
    }) + address.city@ + ", "@ + address.state@ + " "@ + address.zip@
}

/// A date as a document shows it.
pub open spec fn shown_date(date: DateString) -> Seq<char> {
    long_form(iso_year(date@), iso_month(date@), iso_day(date@))
}

/// A line of a document: a label in bold, a value, and a line break.
pub open spec fn labelled(label: Seq<char>, value: Seq<char>) -> Seq<char> {
    "\\textbf{"@ + label + "} "@ + value + "\\\\\n"@
}

/// The row of the table of an invoice for one item: its description, escaped, and its
/// quantity and price as the texts `amounts` that were made of them.
pub open spec fn item_row(item: LineItem, amounts: (String, String)) -> Seq<char> {
    tex_escaped(item.description@) + " & "@ + amounts.0@ + " & \\$"@ + amounts.1@ + "\\\\\n"@
}

/// The rows for the first `n` items.
pub open spec fn item_rows(items: Seq<LineItem>, amounts: Seq<(String, String)>, n: int) -> Seq<char>
    decreases n,
{
    if n <= 0 {
        Seq::empty()
    } else {
        item_rows(items, amounts, n - 1) + item_row(items[n - 1], amounts[n - 1])
    }
}

/// The lines for the first `n` ways to pay, each as [`latex_of`] shows it.
pub open spec fn payment_lines(methods: Seq<PaymentMethod>, n: int) -> Seq<char>
    decreases n,
{
    if n <= 0 {
        Seq::empty()
    } else {
        payment_lines(methods, n - 1) + latex_of(methods[n - 1]) + "\\\\\n"@
    }
}

/// How many rows the table of an invoice has: one for each item that amounts were
/// given for.
pub open spec fn row_count(items: Seq<LineItem>, amounts: Seq<(String, String)>) -> int {
    if amounts.len() < items.len() {
        amounts.len() as int
    } else {
        items.len() as int
    }
}

/// Whether the names, addresses and contact details that the document of an invoice
/// shows can be escaped.
pub open spec fn invoice_texts_escape(full: FullInvoice) -> bool {
    &&& can_escape(full.me.name@)
    &&& can_escape(address_line(full.me.address))
    &&& can_escape(full.me.contact.email@)
    &&& can_escape(full.me.contact.phone@)
    &&& can_escape(full.client.name@)
    &&& can_escape(address_line(full.client.address))
    &&& can_escape(full.project.name@)
    &&& can_escape(full.project.description@)
}

/// Whether the descriptions of the first `n` items can be escaped.
pub open spec fn items_escape(items: Seq<LineItem>, n: int) -> bool {
    forall|i: int| 0 <= i < n ==> can_escape(#[trigger] items[i].description@)
}

/// Whether what each way to pay is shown as can be escaped.
pub open spec fn payment_escapes(methods: Seq<PaymentMethod>) -> bool {
    forall|k: int| 0 <= k < methods.len() ==> can_escape(display_of(#[trigger] methods[k]))
}

/// Whether every text that the document of an invoice shows can be escaped: the names,
/// addresses and contact details, the description of every item that has a row, and
/// what every way to pay is shown as.
pub open spec fn invoice_escapes(full: FullInvoice, amounts: Seq<(String, String)>) -> bool {
    &&& invoice_texts_escape(full)
    &&& items_escape(full.invoice.items@, row_count(full.invoice.items@, amounts))
    &&& payment_escapes(full.me.payment@)
}

/// Whether every text that the document of a receipt shows can be escaped.
pub open spec fn receipt_escapes(full: FullReceipt) -> bool {
    &&& can_escape(full.me.name@)
    &&& can_escape(address_line(full.me.address))
    &&& can_escape(full.client.name@)
    &&& can_escape(full.project.name@)
    &&& can_escape(full.receipt.payment_method@)
}

/// The source of the document of an invoice, where every text that it shows can be
/// escaped.
pub open spec fn invoice_source(full: FullInvoice, amounts: Seq<(String, String)>, total: Seq<char>) -> Seq<
    char,
> {
    "\\documentclass{article}\n\\usepackage{hyperref}\n\\begin{document}\n\\section*{Invoice \\#"@
        + decimal_digits(full.invoice.number as nat) + "}\n"@ + labelled(
        "From:"@,
        tex_escaped(full.me.name@),
    ) + tex_escaped(address_line(full.me.address)) + "\\\\\n"@ + tex_escaped(
        full.me.contact.email@,
    ) + ", "@ + tex_escaped(full.me.contact.phone@) + "\n\n"@ + labelled(
        "Bill to:"@,
        tex_escaped(full.client.name@),
    ) + tex_escaped(address_line(full.client.address)) + "\n\n"@ + labelled(
        "Project:"@,
        tex_escaped(full.project.name@) + " --- "@ + tex_escaped(full.project.description@),
    ) + labelled("Date:"@, shown_date(full.invoice.date)) + labelled(
        "Due:"@,
        shown_date(full.invoice.due_date),
    ) + "\n\\begin{tabular}{lrr}\nItem & Quantity & Unit price\\\\\n"@ + item_rows(
        full.invoice.items@,
        amounts,
        row_count(full.invoice.items@, amounts),
    ) + "\\end{tabular}\n\n"@ + labelled("Total:"@, "\\$"@ + total) + "\n\\textbf{Payment:}\\\\\n"@
        + payment_lines(full.me.payment@, full.me.payment@.len() as int) + "\\end{document}\n"@
}

/// The source of the document of a receipt, where every text that it shows can be
/// escaped.
pub open spec fn receipt_source(full: FullReceipt, total: Seq<char>) -> Seq<char> {
    "\\documentclass{article}\n\\begin{document}\n\\section*{Receipt for invoice \\#"@
        + decimal_digits(full.invoice.number as nat) + "}\n"@ + labelled(
        "From:"@,
        tex_escaped(full.me.name@),
    ) + tex_escaped(address_line(full.me.address)) + "\n\n"@ + labelled(
        "Received from:"@,
        tex_escaped(full.client.name@),
    ) + labelled("Project:"@, tex_escaped(full.project.name@)) + labelled(
        "Amount:"@,
        "\\$"@ + total,
    ) + labelled("Paid on:"@, shown_date(full.receipt.date)) + labelled(
        "Paid by:"@,
        tex_escaped(full.receipt.payment_method@),
    ) + "\\end{document}\n"@
}

/// An address on one line: see [`address_line`].
pub fn format_address(address: &MailingAddress) -> (line: String)
    ensures
        line@ == address_line(*address),
{
    let mut line = address.addr1.clone();
    line.append(", ");
    let ghost before = line@;
    match &address.addr2 {
        Some(second) => {
            line.append(second.as_str());
            line.append(", ");
        },
        None => {
            assert(line@ =~= before + Seq::<char>::empty());
        },
    }
    let ghost before = line@;
    match &address.addr3 {
        Some(third) => {
            line.append(third.as_str());
            line.append(", ");
        },
        None => {
            assert(line@ =~= before + Seq::<char>::empty());
        },
    }
    line.append(address.city.as_str());
    line.append(", ");
    line.append(address.state.as_str());
    line.append(" ");
    line.append(address.zip.as_str());
    assert(line@ =~= address_line(*address));
    line
}

/// Appends a labelled line: see [`labelled`].
fn push_labelled(out: &mut String, label: &str, value: &str)
    ensures
        final(out)@ == old(out)@ + labelled(label@, value@),
{
    out.append("\\textbf{");
    out.append(label);
    out.append("} ");
    out.append(value);
    out.append("\\\\\n");
    assert(out@ =~= old(out)@ + labelled(label@, value@));
}

/// Appends a text, escaped. Where the text cannot be escaped, fails and appends
/// nothing.
fn push_escaped(out: &mut String, text: &str) -> (r: Result<(), LatexError>)
    ensures
        match r {
            Ok(_) => can_escape(text@) && final(out)@ == old(out)@ + tex_escaped(text@),
            Err(LatexError::Escape) => !can_escape(text@) && final(out)@ == old(out)@,
        },
{
    let escaped = Latex.escape(text)?;
    out.append(escaped.as_str());
    Ok(())
}

/// A text, escaped. Fails where, and only where, the text cannot be escaped.
fn escaped(text: &str) -> (r: Result<String, LatexError>)
    ensures
        match r {
            Ok(t) => can_escape(text@) && t@ == tex_escaped(text@),
            Err(LatexError::Escape) => !can_escape(text@),
        },
{
    Latex.escape(text)
}

impl FullInvoice {
    /// The source of the document of this invoice: see [`invoice_source`]. `amounts`
    /// holds, for each item in turn, its quantity and its price as they are to be
    /// printed, and `total` the sum to pay. Fails where, and only where, one of the
    /// texts that the document shows cannot be escaped: see [`invoice_escapes`].
    pub fn render_tex(&self, amounts: &Vec<(String, String)>, total: &str) -> (r: Result<
        String,
        LatexError,
    >)
        ensures
            match r {
                Ok(source) => invoice_escapes(*self, amounts@) && source@ == invoice_source(
                    *self,
                    amounts@,
                    total@,
                ),
                Err(LatexError::Escape) => !invoice_escapes(*self, amounts@),
            },
    {
        let mut out =
            "\\documentclass{article}\n\\usepackage{hyperref}\n\\begin{document}\n\\section*{Invoice \\#".to_owned();
        let number = decimal_text(self.invoice.number);
        out.append(number.as_str());
        out.append("}\n");
        let owner = escaped(self.me.name.as_str())?;
        push_labelled(&mut out, "From:", owner.as_str());
        let address = format_address(&self.me.address);
        push_escaped(&mut out, address.as_str())?;
        out.append("\\\\\n");
        push_escaped(&mut out, self.me.contact.email.as_str())?;
        out.append(", ");
        push_escaped(&mut out, self.me.contact.phone.as_str())?;
        out.append("\n\n");
        let client = escaped(self.client.name.as_str())?;
        push_labelled(&mut out, "Bill to:", client.as_str());
        let address = format_address(&self.client.address);
        push_escaped(&mut out, address.as_str())?;
        out.append("\n\n");
        let mut project = escaped(self.project.name.as_str())?;
        project.append(" --- ");
        push_escaped(&mut project, self.project.description.as_str())?;
        push_labelled(&mut out, "Project:", project.as_str());
        let date = self.invoice.date.to_string_long_form();
        push_labelled(&mut out, "Date:", date.as_str());
        let due = self.invoice.due_date.to_string_long_form();
        push_labelled(&mut out, "Due:", due.as_str());
        out.append("\n\\begin{tabular}{lrr}\nItem & Quantity & Unit price\\\\\n");
        let ghost head = out@;
        let rows: usize = if amounts.len() < self.invoice.items.len() {
            amounts.len()
        } else {
            self.invoice.items.len()
        };
        let mut i: usize = 0;
        assert(out@ =~= head + item_rows(self.invoice.items@, amounts@, 0));
        while i < rows
            invariant
                i <= rows,
                rows <= amounts.len(),
                rows <= self.invoice.items.len(),
                rows == row_count(self.invoice.items@, amounts@),
                invoice_texts_escape(*self),
                items_escape(self.invoice.items@, i as int),
                out@ == head + item_rows(self.invoice.items@, amounts@, i as int),
            decreases rows - i,
        {
            let ghost before = out@;
            push_escaped(&mut out, self.invoice.items[i].description.as_str())?;
            out.append(" & ");
            out.append(amounts[i].0.as_str());
            out.append(" & \\$");
            out.append(amounts[i].1.as_str());
            out.append("\\\\\n");
            assert(out@ =~= before + item_row(self.invoice.items@[i as int], amounts@[i as int]));
            assert(out@ =~= head + item_rows(self.invoice.items@, amounts@, i + 1));
            i += 1;
        }
        out.append("\\end{tabular}\n\n");
        let mut sum = "\\$".to_owned();
        sum.append(total);
        push_labelled(&mut out, "Total:", sum.as_str());
        out.append("\n\\textbf{Payment:}\\\\\n");
        let ghost body = out@;
        let mut k: usize = 0;
        assert(out@ =~= body + payment_lines(self.me.payment@, 0));
        while k < self.me.payment.len()
            invariant
                k <= self.me.payment.len(),
                invoice_texts_escape(*self),
                items_escape(self.invoice.items@, row_count(self.invoice.items@, amounts@)),
                forall|j: int| 0 <= j < k ==> can_escape(display_of(#[trigger] self.me.payment@[j])),
                out@ == body + payment_lines(self.me.payment@, k as int),
            decreases self.me.payment.len() - k,
        {
            let method = self.me.payment[k].to_latex()?;
            out.append(method.as_str());
            out.append("\\\\\n");
            assert(out@ =~= body + payment_lines(self.me.payment@, k + 1));
            k += 1;
        }
        out.append("\\end{document}\n");
        assert(out@ =~= invoice_source(*self, amounts@, total@));
        Ok(out)
    }
}

impl FullReceipt {
    /// The source of the document of this receipt: see [`receipt_source`]. `total` is
    /// the sum that was paid, as it is to be printed. Fails where, and only where, one
    /// of the texts that the document shows cannot be escaped: see [`receipt_escapes`].
    pub fn render_tex(&self, total: &str) -> (r: Result<String, LatexError>)
        ensures
            match r {
                Ok(source) => receipt_escapes(*self) && source@ == receipt_source(*self, total@),
                Err(LatexError::Escape) => !receipt_escapes(*self),
            },
    {
        let mut out =
            "\\documentclass{article}\n\\begin{document}\n\\section*{Receipt for invoice \\#".to_owned();
        let number = decimal_text(self.invoice.number);
        out.append(number.as_str());
        out.append("}\n");
        let owner = escaped(self.me.name.as_str())?;
        push_labelled(&mut out, "From:", owner.as_str());
        let address = format_address(&self.me.address);
        push_escaped(&mut out, address.as_str())?;
        out.append("\n\n");
        let client = escaped(self.client.name.as_str())?;
        push_labelled(&mut out, "Received from:", client.as_str());
        let project = escaped(self.project.name.as_str())?;
        push_labelled(&mut out, "Project:", project.as_str());
        let mut sum = "\\$".to_owned();
        sum.append(total);
        push_labelled(&mut out, "Amount:", sum.as_str());
        let date = self.receipt.date.to_string_long_form();
        push_labelled(&mut out, "Paid on:", date.as_str());
        let method = escaped(self.receipt.payment_method.as_str())?;
        push_labelled(&mut out, "Paid by:", method.as_str());
        out.append("\\end{document}\n");
        assert(out@ =~= receipt_source(*self, total@));
        Ok(out)
    }
}

} // verus!
