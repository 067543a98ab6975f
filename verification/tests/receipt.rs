use pdoc::address::MailingAddress;
use pdoc::cli::{Answer, Next, Question};
use pdoc::client::Client;
use pdoc::contact::ContactInfo;
use pdoc::date::DateString;
use pdoc::id::Id;
use pdoc::invoice::{CollectError, Invoice};
use pdoc::me::{Me, PaymentMethod};
use pdoc::project::Project;
use pdoc::receipt::{Receipt, ReceiptCollectError, ReceiptError, ReceiptForm};

fn date(text: &str) -> DateString {
    DateString::try_new(text.to_owned()).unwrap()
}

fn invoice(number: u32) -> Invoice {
    Invoice {
        number,
        project_ref: Id::new("Manhattan".to_owned()),
        date: date("2023-02-17"),
        due_date: date("2023-02-24"),
        items: Vec::new(),
    }
}

fn method(name: &str) -> PaymentMethod {
    PaymentMethod { name: name.to_owned(), display_text: Some("shown".to_owned()), url: None }
}

fn address() -> MailingAddress {
    MailingAddress {
        addr1: "1 Main St".to_owned(),
        addr2: None,
        addr3: None,
        city: "Springfield".to_owned(),
        state: "Ohio".to_owned(),
        zip: "12345".to_owned(),
    }
}

fn me() -> Me {
    Me {
        name: "Test  User".to_owned(),
        address: address(),
        contact: ContactInfo { email: "e".to_owned(), phone: "p".to_owned() },
        payment: vec![method("PayPal"), method("Check")],
    }
}

#[test]
fn no_receipt_is_made_when_every_invoice_is_paid() {
    assert_eq!(Receipt::unpaid_invoices(&vec![5, 7, 2], &vec![2, 5, 7, 9]), Err(ReceiptError::AllPaid));
    assert_eq!(Receipt::unpaid_invoices(&Vec::new(), &Vec::new()), Err(ReceiptError::AllPaid));
    assert_eq!(Receipt::unpaid_invoices(&Vec::new(), &vec![1]), Err(ReceiptError::AllPaid));
}

#[test]
fn unpaid_invoices_come_greatest_first_and_once() {
    assert_eq!(Receipt::unpaid_invoices(&vec![5, 7, 2], &Vec::new()), Ok(vec![7, 5, 2]));
    assert_eq!(Receipt::unpaid_invoices(&vec![5, 7, 2], &vec![5]), Ok(vec![7, 2]));
    assert_eq!(Receipt::unpaid_invoices(&vec![1, 9, 1, 3, 9], &vec![3, 4]), Ok(vec![9, 1]));
    assert_eq!(Receipt::unpaid_invoices(&vec![0, u32::MAX], &vec![8]), Ok(vec![u32::MAX, 0]));
}

#[test]
fn receipts_are_listed_and_named_by_invoice_number() {
    let names: Vec<String> = ["3.yaml", "oops", "12.yaml"].iter().map(|s| s.to_string()).collect();
    assert_eq!(Receipt::list(&names), vec![3, 12]);
    let receipt = Receipt { invoice_num: 12, date: date("2023-03-01"), payment_method: "PayPal".to_owned() };
    assert_eq!(receipt.filename(), "12.yaml");
}

#[test]
fn an_invoice_is_described_for_picking() {
    assert_eq!(
        Receipt::describe(&invoice(17)),
        "#17 on February 17, 2023 (due February 24, 2023) for Manhattan"
    );
}

#[test]
fn a_receipt_is_taken_down_step_by_step() {
    let mut form = Receipt::create_from_user_input(vec![invoice(7), invoice(2)], me().payment);
    match form.next() {
        Next::Ask { title: None, question: Question::Select { message, options } } => {
            assert_eq!(message, "Invoice number:");
            assert_eq!(options.len(), 2);
            assert_eq!(options[0], "#7 on February 17, 2023 (due February 24, 2023) for Manhattan");
            assert_eq!(options[1], "#2 on February 17, 2023 (due February 24, 2023) for Manhattan");
        }
        other => panic!("{:?}", other),
    }
    form = form.answer(Answer::Choice(2));
    assert!(matches!(form.next(), Next::Ask { question: Question::Select { message: "Invoice number:", .. }, .. }));
    form = form.answer(Answer::Choice(1));
    match form.next() {
        Next::Ask { title, question: Question::Date { message } } => {
            assert_eq!(title.as_deref(), Some("\nCreate receipt 2\n================\n"));
            assert_eq!(message, "Receipt date:");
        }
        other => panic!("{:?}", other),
    }
    form = form.answer(Answer::Text("2023-13-01".to_owned()));
    assert!(matches!(form.next(), Next::Ask { question: Question::Date { .. }, .. }));
    form = form.answer(Answer::Text("2023-03-01".to_owned()));
    match form.next() {
        Next::Ask { title: None, question: Question::Select { message, options } } => {
            assert_eq!(message, "Payment method:");
            assert_eq!(options, vec!["PayPal".to_owned(), "Check".to_owned()]);
        }
        other => panic!("{:?}", other),
    }
    form = form.answer(Answer::Choice(5));
    assert!(matches!(form.next(), Next::Ask { question: Question::Select { message: "Payment method:", .. }, .. }));
    form = form.answer(Answer::Choice(1));
    let receipt = match form.next() {
        Next::Review(receipt) => receipt.clone(),
        other => panic!("{:?}", other),
    };
    assert_eq!(receipt.invoice_num, 2);
    assert_eq!(receipt.date.as_str(), "2023-03-01");
    assert_eq!(receipt.payment_method, "Check");
    let done = form.reviewed(receipt).finish().unwrap();
    assert_eq!(done.filename(), "2.yaml");
    assert!(matches!(
        Receipt::create_from_user_input(Vec::new(), Vec::new()).finish(),
        Err(ReceiptForm::Invoice { .. })
    ));
}

#[test]
fn a_receipt_collects_what_its_invoice_leads_to() {
    let receipt = Receipt { invoice_num: 17, date: date("2023-03-01"), payment_method: "PayPal".to_owned() };
    let project = Project {
        name: Id::new("Manhattan".to_owned()),
        description: "d".to_owned(),
        client_ref: Id::new("Acme".to_owned()),
    };
    let client = Client {
        name: Id::new("Acme".to_owned()),
        address: address(),
        contact: ContactInfo { email: "e".to_owned(), phone: "p".to_owned() },
    };
    match receipt.clone().collect(me(), None, Some(project.clone()), Some(client.clone())) {
        Err(ReceiptCollectError::InvoiceNotFound(17)) => {}
        other => panic!("{:?}", other),
    }
    match receipt.clone().collect(me(), Some(invoice(17)), None, Some(client.clone())) {
        Err(ReceiptCollectError::Record(CollectError::ProjectNotFound(id))) => {
            assert_eq!(id.to_text(), "Manhattan")
        }
        other => panic!("{:?}", other),
    }
    match receipt.clone().collect(me(), Some(invoice(17)), Some(project.clone()), None) {
        Err(ReceiptCollectError::Record(CollectError::ClientNotFound(id))) => assert_eq!(id.to_text(), "Acme"),
        other => panic!("{:?}", other),
    }
    let full = receipt.collect(me(), Some(invoice(17)), Some(project), Some(client)).unwrap();
    assert_eq!(full.receipt.invoice_num, 17);
    assert_eq!(full.filename(), "Receipt_TestUser17.pdf");
    let source = full.render_tex("29.50").unwrap();
    assert_eq!(
        source,
        "\\documentclass{article}\n\\begin{document}\n\\section*{Receipt for invoice \\#17}\n\
         \\textbf{From:} Test  User\\\\\n1 Main St, Springfield, Ohio 12345\n\n\
         \\textbf{Received from:} Acme\\\\\n\\textbf{Project:} Manhattan\\\\\n\
         \\textbf{Amount:} \\$29.50\\\\\n\\textbf{Paid on:} March 1, 2023\\\\\n\
         \\textbf{Paid by:} PayPal\\\\\n\\end{document}\n"
    );
}
