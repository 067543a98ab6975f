use pdoc::address::MailingAddress;
use pdoc::cli::{Answer, Next, Question};
use pdoc::client::Client;
use pdoc::contact::ContactInfo;
use pdoc::date::DateString;
use pdoc::id::Id;
use pdoc::invoice::{CollectError, FullInvoice, Invoice, InvoiceForm, LineItem};
use pdoc::ledger::{AccountType, Decimal, LedgerError};
use pdoc::me::{Me, PaymentMethod};
use pdoc::price::PriceUSD;
use pdoc::project::Project;

fn text(s: &str) -> Answer {
    Answer::Text(s.to_owned())
}

fn amount(value: f32) -> Answer {
    Answer::Amount(value.to_bits())
}

fn create_full_test_invoice() -> FullInvoice {
    FullInvoice {
        me: Me {
            name: "Test User".to_owned(),
            address: MailingAddress {
                addr1: "123 Test Street".to_owned(),
                addr2: None,
                addr3: None,
                city: "Twin Falls".to_owned(),
                state: "Idaho".to_owned(),
                zip: "12345".to_owned(),
            },
            contact: ContactInfo {
                email: "test@example.com".to_owned(),
                phone: "(123) 456-7890".to_owned(),
            },
            payment: [PaymentMethod { name: "PayPal".to_owned(), display_text: None, url: None }].to_vec(),
        },
        invoice: Invoice {
            number: 17,
            project_ref: Id::new("Test Project #1".to_owned()),
            date: DateString::try_new("2023-01-07".to_owned()).unwrap(),
            due_date: DateString::try_new("2023-01-21".to_owned()).unwrap(),
            items: [
                LineItem {
                    description: "Test the first thing".to_owned(),
                    quantity: 1.0f32.to_bits(),
                    unit_price: PriceUSD::from_bits("10.3".parse::<f32>().unwrap().to_bits()),
                },
                LineItem {
                    description: "Test the second thing".to_owned(),
                    quantity: 2.0f32.to_bits(),
                    unit_price: PriceUSD::from_bits("9.6".parse::<f32>().unwrap().to_bits()),
                },
            ]
            .to_vec(),
        },
        project: Project {
            name: Id::new("Test Project #1".to_owned()),
            description: "A great project for testing".to_owned(),
            client_ref: Id::new("Test Client #1".to_owned()),
        },
        client: Client {
            name: Id::new("Test Client #1".to_owned()),
            address: MailingAddress {
                addr1: "124 Test Avenue".to_owned(),
                addr2: None,
                addr3: None,
                city: "New York".to_owned(),
                state: "New York".to_owned(),
                zip: "54321".to_owned(),
            },
            contact: ContactInfo {
                email: "client@example.com".to_owned(),
                phone: "(321) 654-0987".to_owned(),
            },
        },
    }
}

fn total_of(invoice: &Invoice) -> String {
    let total: f32 = invoice
        .items
        .iter()
        .map(|item| f32::from_bits(item.quantity) * f32::from_bits(item.unit_price.to_bits()))
        .sum();
    format!("{:.2}", total)
}

#[test]
fn test_write_beancount() {
    let full_invoice = create_full_test_invoice();
    let total = total_of(&full_invoice.invoice);
    assert_eq!(total, "29.50");

    let transaction = full_invoice.ledger_entry(&total).unwrap();

    assert_eq!(transaction.date.as_str(), "2023-01-07");
    assert_eq!(transaction.narration, "Invoice #17 - Test Project #1");
    assert_eq!(transaction.postings.len(), 2);
    let expected = Decimal { mantissa: 2950, scale: 2 };
    assert_eq!(transaction.postings[0].account_type, AccountType::Income);
    assert_eq!(transaction.postings[0].account, "TestClient1");
    assert_eq!(transaction.postings[0].units.num, expected);
    assert_eq!(transaction.postings[0].units.currency, "USD");
    assert_eq!(transaction.postings[1].account_type, AccountType::Assets);
    assert_eq!(transaction.postings[1].account, "AccountsReceivable");
    assert_eq!(transaction.postings[1].units.num, expected);
    assert_eq!(transaction.postings[1].units.currency, "USD");
}

#[test]
fn a_total_that_is_no_number_makes_no_ledger_entry() {
    let full_invoice = create_full_test_invoice();
    for total in ["", "NaN", "inf", "12,50", "1e3"] {
        assert!(matches!(full_invoice.ledger_entry(total), Err(LedgerError::Amount)), "{}", total);
    }
}

#[test]
fn decimals_are_read_exactly() {
    assert_eq!(Decimal::from_str_exact("29.50"), Ok(Decimal { mantissa: 2950, scale: 2 }));
    assert_eq!(Decimal::from_str_exact("-0.5"), Ok(Decimal { mantissa: -5, scale: 1 }));
    assert_eq!(Decimal::from_str_exact("7"), Ok(Decimal { mantissa: 7, scale: 0 }));
    assert_eq!(Decimal::from_str_exact("0.00"), Ok(Decimal { mantissa: 0, scale: 2 }));
    assert_eq!(Decimal::from_str_exact("x"), Err(LedgerError::Amount));
}

#[test]
fn documents_are_named_after_owner_and_number() {
    let full_invoice = create_full_test_invoice();
    assert_eq!(full_invoice.filename(), "Invoice_TestUser17.pdf");
    assert_eq!(full_invoice.ledger_filename(), "Invoice_17.ledger");
    assert_eq!(full_invoice.invoice.filename(), "17.yaml");
}

#[test]
fn next_number_is_one_more_than_the_greatest() {
    assert_eq!(Invoice::get_next_number(&Vec::new()), 1);
    assert_eq!(Invoice::get_next_number(&vec![5, 7, 2]), 8);
    assert_eq!(Invoice::get_next_number(&vec![3, 3]), 4);
    assert_eq!(Invoice::checked_next_number(&vec![5, 7, 2]), Some(8));
    assert_eq!(Invoice::checked_next_number(&Vec::new()), Some(1));
    assert_eq!(Invoice::checked_next_number(&vec![1, u32::MAX]), None);
    assert_eq!(Invoice::checked_next_number(&vec![u32::MAX - 1]), Some(u32::MAX));
}

#[test]
fn invoices_are_listed_by_the_numbers_of_their_files() {
    let names: Vec<String> =
        ["5.yaml", "7.yaml", "README", "2.yaml"].iter().map(|s| s.to_string()).collect();
    let numbers = Invoice::list(&names);
    assert_eq!(numbers, vec![5, 7, 2]);
    assert_eq!(Invoice::get_next_number(&numbers), 8);
}

#[test]
fn invoice_file_names_read_back_as_their_numbers() {
    for number in [0, 1, 17, 4294967295] {
        let invoice = Invoice { number, ..create_full_test_invoice().invoice };
        assert_eq!(Invoice::list(&vec![invoice.filename()]), vec![number]);
    }
}

#[test]
fn collect_fails_where_the_project_is_missing() {
    let full = create_full_test_invoice();
    match full.invoice.clone().collect(full.me.clone(), None, Some(full.client.clone())) {
        Err(CollectError::ProjectNotFound(id)) => assert_eq!(id.to_text(), "Test Project #1"),
        other => panic!("{:?}", other),
    }
    match full.invoice.clone().collect(full.me.clone(), Some(full.project.clone()), None) {
        Err(CollectError::ClientNotFound(id)) => assert_eq!(id.to_text(), "Test Client #1"),
        other => panic!("{:?}", other),
    }
    let collected = full
        .invoice
        .clone()
        .collect(full.me.clone(), Some(full.project.clone()), Some(full.client.clone()))
        .unwrap();
    assert_eq!(collected.invoice.number, 17);
    assert_eq!(collected.project.name, full.project.name);
    assert_eq!(collected.client.name, full.client.name);
    assert_eq!(collected.me.name, "Test User");
}

fn asked(form: &InvoiceForm) -> (Option<String>, Question) {
    match form.next() {
        Next::Ask { title, question } => (title, question),
        other => panic!("{:?}", other),
    }
}

#[test]
fn an_invoice_is_taken_down_step_by_step() {
    let mut form = Invoice::create_from_user_input(&vec![5, 7, 2]);
    assert!(matches!(asked(&form), (None, Question::Number { message: "Invoice number:", initial: Some(8) })));
    for refused in [text(""), text("٣"), text("eight"), text("4294967296"), Answer::Days(8)] {
        form = form.answer(refused);
        assert!(matches!(asked(&form).1, Question::Number { .. }));
    }
    form = form.answer(text("17"));
    let (title, question) = asked(&form);
    assert_eq!(title.as_deref(), Some("\nCreate invoice 17\n=================\n"));
    assert!(matches!(question, Question::Project));
    form = form.answer(text("Manhattan"));
    assert!(matches!(asked(&form), (None, Question::Date { message: "Invoice date:" })));
    for refused in [text("2023-02-30"), text("tomorrow"), Answer::Skipped] {
        form = form.answer(refused);
        assert!(matches!(asked(&form).1, Question::Date { .. }));
    }
    form = form.answer(text("2023-02-17"));
    assert!(matches!(asked(&form), (None, Question::Days { message: "Days to pay:", default: 7 })));
    form = form.answer(text("7"));
    assert!(matches!(asked(&form).1, Question::Days { .. }));
    form = form.answer(Answer::Days(7));
    assert!(matches!(asked(&form), (None, Question::OptionalText { message: "Line item:", placeholder: None })));
    form = form.answer(text("Test the first thing"));
    assert!(matches!(asked(&form), (None, Question::Amount { message: "Quantity:" })));
    for refused in [amount(-1.0), amount(f32::NAN), amount(f32::INFINITY), text("1")] {
        form = form.answer(refused);
        assert!(matches!(asked(&form).1, Question::Amount { message: "Quantity:" }));
    }
    form = form.answer(amount(1.0));
    assert!(matches!(asked(&form), (None, Question::Amount { message: "Unit Price:" })));
    form = form.answer(amount(10.3));
    form = form.answer(text("Test the second thing")).answer(amount(2.0)).answer(amount(9.6));
    assert!(matches!(asked(&form).1, Question::OptionalText { message: "Line item:", .. }));
    form = form.answer(text(""));
    let invoice = match form.next() {
        Next::Review(invoice) => invoice.clone(),
        other => panic!("{:?}", other),
    };
    assert_eq!(invoice.number, 17);
    assert_eq!(invoice.project_ref.to_text(), "Manhattan");
    assert_eq!(invoice.date.as_str(), "2023-02-17");
    assert_eq!(invoice.due_date.as_str(), "2023-02-24");
    assert_eq!(invoice.items.len(), 2);
    assert_eq!(invoice.items[0].description, "Test the first thing");
    assert_eq!(f32::from_bits(invoice.items[0].quantity), 1.0);
    assert_eq!(f32::from_bits(invoice.items[1].unit_price.to_bits()), 9.6);
    assert_eq!(total_of(&invoice), "29.50");
    let done = form.reviewed(invoice).finish().unwrap();
    assert_eq!(done.filename(), "17.yaml");
}

#[test]
fn the_first_invoice_is_offered_number_one() {
    let form = Invoice::create_from_user_input(&Vec::new());
    assert!(matches!(asked(&form).1, Question::Number { initial: Some(1), .. }));
    let form = Invoice::create_from_user_input(&vec![u32::MAX]);
    assert!(matches!(asked(&form).1, Question::Number { initial: None, .. }));
}

#[test]
fn a_due_date_past_the_last_year_is_asked_for_again() {
    let form = Invoice::create_from_user_input(&Vec::new())
        .answer(text("1"))
        .answer(text("Manhattan"))
        .answer(text("9999-12-30"))
        .answer(Answer::Days(2));
    assert!(matches!(asked(&form).1, Question::Days { .. }));
    let form = form.answer(Answer::Days(1));
    assert!(matches!(asked(&form).1, Question::OptionalText { .. }));
}

#[test]
fn an_invoice_may_have_no_items() {
    let form = Invoice::create_from_user_input(&Vec::new())
        .answer(text("5"))
        .answer(text("Manhattan"))
        .answer(text("2023-02-17"))
        .answer(Answer::Days(7))
        .answer(Answer::Skipped);
    match form.next() {
        Next::Review(invoice) => {
            assert!(invoice.items.is_empty());
            assert_eq!(invoice.due_date.as_str(), "2023-02-24");
        }
        other => panic!("{:?}", other),
    }
}

#[test]
fn the_source_of_an_invoice_escapes_what_was_typed() {
    let full_invoice = create_full_test_invoice();
    let amounts = vec![("1".to_owned(), "10.30".to_owned()), ("2".to_owned(), "9.60".to_owned())];
    let source = full_invoice.render_tex(&amounts, "29.50").unwrap();
    assert!(source.starts_with("\\documentclass{article}\n\\usepackage{hyperref}\n\\begin{document}\n\\section*{Invoice \\#17}\n"));
    assert!(source.contains("\\textbf{From:} Test User\\\\\n123 Test Street, Twin Falls, Idaho 12345\\\\\n"));
    assert!(source.contains("\\textbf{Bill to:} Test Client \\#1\\\\\n124 Test Avenue, New York, New York 54321\n"));
    assert!(source.contains("\\textbf{Project:} Test Project \\#1 --- A great project for testing\\\\\n"));
    assert!(source.contains("\\textbf{Date:} January 7, 2023\\\\\n\\textbf{Due:} January 21, 2023\\\\\n"));
    assert!(source.contains("Test the first thing & 1 & \\$10.30\\\\\nTest the second thing & 2 & \\$9.60\\\\\n\\end{tabular}"));
    assert!(source.contains("\\textbf{Total:} \\$29.50\\\\\n"));
    assert!(source.ends_with("\\textbf{Payment:}\\\\\nPayPal\\\\\n\\end{document}\n"));
    // Amounts are printed for as many items as they are given for.
    let short = full_invoice.render_tex(&vec![("1".to_owned(), "10.30".to_owned())], "10.30").unwrap();
    assert!(short.contains("Test the first thing"));
    assert!(!short.contains("Test the second thing"));
}
