use pdoc::address::{AddressForm, MailingAddress};
use pdoc::cli::{Answer, Named, Next, Question};
use pdoc::client::{Client, ClientForm};
use pdoc::contact::{ContactForm, ContactInfo};
use pdoc::id::Id;
use pdoc::me::{Me, MeForm, PaymentForm, PaymentMethod};
use pdoc::project::{Project, ProjectForm};

fn text(s: &str) -> Answer {
    Answer::Text(s.to_owned())
}

fn message_of(question: &Question) -> &'static str {
    match question {
        Question::Text { message, .. } => message,
        Question::OptionalText { message, .. } => message,
        Question::Name { message, .. } => message,
        Question::Number { message, .. } => message,
        Question::Date { message } => message,
        Question::Days { message, .. } => message,
        Question::Amount { message } => message,
        Question::Select { message, .. } => message,
        Question::Client => "client",
        Question::Project => "project",
    }
}

fn address_asks(form: &AddressForm) -> &'static str {
    message_of(&form.question().unwrap())
}

#[test]
fn an_address_with_all_lines() {
    let mut form = AddressForm::new();
    assert!(matches!(
        form.question(),
        Some(Question::Text { message: "Address Line 1:", placeholder: Some("123 Happy Lane"), required: true })
    ));
    form = form.answer(text("1 Main St"));
    assert!(matches!(
        form.question(),
        Some(Question::OptionalText { message: "Address Line 2 (optional):", placeholder: Some("Apt. 7") })
    ));
    form = form.answer(text("Apt. 7"));
    assert_eq!(address_asks(&form), "Address Line 3 (optional):");
    form = form.answer(text("Closet"));
    assert_eq!(address_asks(&form), "City:");
    form = form.answer(text("Springfield"));
    assert!(matches!(form.question(), Some(Question::Text { message: "State:", required: false, .. })));
    form = form.answer(text("Ohio"));
    assert_eq!(address_asks(&form), "Zipcode:");
    form = form.answer(text("12345"));
    assert!(form.question().is_none());
    let address = form.finish().unwrap();
    assert_eq!(address.addr1, "1 Main St");
    assert_eq!(address.addr2.as_deref(), Some("Apt. 7"));
    assert_eq!(address.addr3.as_deref(), Some("Closet"));
    assert_eq!(address.city, "Springfield");
    assert_eq!(address.state, "Ohio");
    assert_eq!(address.zip, "12345");
}

#[test]
fn no_third_line_is_asked_for_without_a_second() {
    for second in [Answer::Skipped, text("")] {
        let form = AddressForm::new().answer(text("1 Main St")).answer(second);
        assert_eq!(address_asks(&form), "City:");
        let address =
            form.answer(text("Springfield")).answer(text("")).answer(text("12345")).finish().unwrap();
        assert_eq!(address.addr2, None);
        assert_eq!(address.addr3, None);
        assert_eq!(address.state, "");
    }
}

#[test]
fn an_empty_third_line_is_absent() {
    for third in [Answer::Skipped, text("")] {
        let address = AddressForm::new()
            .answer(text("1 Main St"))
            .answer(text("Apt. 7"))
            .answer(third)
            .answer(text("Springfield"))
            .answer(text("Ohio"))
            .answer(text("12345"))
            .finish()
            .unwrap();
        assert_eq!(address.addr2.as_deref(), Some("Apt. 7"));
        assert_eq!(address.addr3, None);
    }
}

#[test]
fn required_lines_are_asked_for_again() {
    let mut form = AddressForm::new();
    for answer in [text(""), Answer::Skipped, Answer::Days(1), Answer::Choice(0)] {
        form = form.answer(answer);
        assert_eq!(address_asks(&form), "Address Line 1:");
    }
    form = form.answer(text("1 Main St")).answer(Answer::Amount(0));
    assert_eq!(address_asks(&form), "Address Line 2 (optional):");
    form = form.answer(Answer::Skipped).answer(text(""));
    assert_eq!(address_asks(&form), "City:");
    form = form.answer(text("Springfield")).answer(Answer::Skipped);
    assert_eq!(address_asks(&form), "State:");
    form = form.answer(text("Ohio")).answer(text(""));
    assert_eq!(address_asks(&form), "Zipcode:");
    assert!(form.finish().is_err());
}

#[test]
fn contact_details_are_both_required() {
    let mut form = ContactForm::new();
    assert!(matches!(
        form.question(),
        Some(Question::Text { message: "Email:", placeholder: Some("test@example.com"), required: true })
    ));
    form = form.answer(text(""));
    assert_eq!(message_of(&form.question().unwrap()), "Email:");
    form = form.answer(text("a@example.com"));
    assert!(matches!(
        form.question(),
        Some(Question::Text { message: "Phone:", placeholder: Some("(412) 555-1827"), required: true })
    ));
    form = form.answer(Answer::Skipped);
    assert_eq!(message_of(&form.question().unwrap()), "Phone:");
    let contact = form.answer(text("555")).finish().unwrap();
    assert_eq!(contact.email, "a@example.com");
    assert_eq!(contact.phone, "555");
}

fn asked<R>(next: Next<'_, R>) -> (Option<String>, Question) {
    match next {
        Next::Ask { title, question } => (title, question),
        Next::Review(_) => panic!("review"),
        Next::Done => panic!("done"),
    }
}

#[test]
fn a_client_is_taken_down_part_by_part() {
    let mut form = Client::create_from_user_input_with_name(Id::new("Acme".to_owned()));
    let (title, question) = asked(form.next());
    assert_eq!(title.as_deref(), Some("Mailing address:"));
    assert_eq!(message_of(&question), "Address Line 1:");
    form = form.answer(text("1 Main St"));
    let (title, question) = asked(form.next());
    assert_eq!(title, None);
    assert_eq!(message_of(&question), "Address Line 2 (optional):");
    form = form.answer(Answer::Skipped).answer(text("Springfield")).answer(text("Ohio")).answer(text("12345"));
    let (title, question) = asked(form.next());
    assert_eq!(title.as_deref(), Some("Contact info:"));
    assert_eq!(message_of(&question), "Email:");
    form = form.answer(text("a@example.com"));
    let (title, question) = asked(form.next());
    assert_eq!(title, None);
    assert_eq!(message_of(&question), "Phone:");
    form = form.answer(text("555"));
    let mut edited = match form.next() {
        Next::Review(client) => {
            assert_eq!(client.name.to_text(), "Acme");
            assert_eq!(client.address.city, "Springfield");
            assert_eq!(client.contact.phone, "555");
            client.clone()
        }
        other => panic!("{:?}", other),
    };
    // An answer changes nothing while the review is awaited.
    form = form.answer(text("ignored"));
    assert!(matches!(form.next(), Next::Review(_)));
    edited.contact.phone = "556".to_owned();
    form = form.reviewed(edited);
    assert!(matches!(form.next(), Next::Done));
    let client = form.finish().unwrap();
    assert_eq!(client.contact.phone, "556");
    assert_eq!(client.filename(), "Acme.yaml");
}

#[test]
fn a_review_before_its_time_changes_nothing() {
    let client = Client {
        name: Id::new("X".to_owned()),
        address: MailingAddress {
            addr1: "a".to_owned(),
            addr2: None,
            addr3: None,
            city: "c".to_owned(),
            state: "s".to_owned(),
            zip: "z".to_owned(),
        },
        contact: ContactInfo { email: "e".to_owned(), phone: "p".to_owned() },
    };
    let form = Client::create_from_user_input_with_name(Id::new("Acme".to_owned())).reviewed(client);
    let (_, question) = asked(form.next());
    assert_eq!(message_of(&question), "Address Line 1:");
    assert!(form.finish().is_err());
}

#[test]
fn client_names_are_offered_and_looked_up() {
    let known = vec![Id::new("Acme".to_owned()), Id::new("Beta".to_owned())];
    match Client::name_question(&known) {
        Question::Name { message, known } => {
            assert_eq!(message, "Client Name:");
            assert_eq!(known, vec!["Acme".to_owned(), "Beta".to_owned()]);
        }
        other => panic!("{:?}", other),
    }
    assert!(matches!(Client::get_or_create_from_user_input(&known, text("Acme")), Named::Known(_)));
    assert!(matches!(Client::get_or_create_from_user_input(&known, text("Gamma")), Named::New(_)));
    assert!(matches!(Client::get_or_create_from_user_input(&known, text("")), Named::Missing));
    match Project::name_question(&known) {
        Question::Name { message, known } => {
            assert_eq!(message, "Project Name:");
            assert_eq!(known.len(), 2);
        }
        other => panic!("{:?}", other),
    }
    assert!(matches!(Project::get_or_create_from_user_input(&known, text("Beta")), Named::Known(_)));
    assert!(matches!(Project::get_or_create_from_user_input(&Vec::new(), text("Beta")), Named::New(_)));
}

#[test]
fn a_project_asks_for_its_description_and_its_client() {
    let mut form = Project::create_from_user_input_with_name(Id::new("Manhattan".to_owned()));
    let (title, question) = asked(form.next());
    assert_eq!(title, None);
    assert!(matches!(
        question,
        Question::Text {
            message: "Project Description:",
            placeholder: Some("Doing what we can, one day at a time."),
            required: true
        }
    ));
    form = form.answer(text(""));
    assert_eq!(message_of(&asked(form.next()).1), "Project Description:");
    form = form.answer(text("A great project"));
    assert!(matches!(asked(form.next()).1, Question::Client));
    for refused in [Answer::Skipped, text(""), text("Acme/Co")] {
        form = form.answer(refused);
        assert!(matches!(asked(form.next()).1, Question::Client));
    }
    form = form.answer(text("Acme"));
    let project = match form.next() {
        Next::Review(project) => project.clone(),
        other => panic!("{:?}", other),
    };
    assert_eq!(project.name.to_text(), "Manhattan");
    assert_eq!(project.description, "A great project");
    assert_eq!(project.client_ref.to_text(), "Acme");
    assert_eq!(project.filename(), "Manhattan.yaml");
    let done = form.reviewed(project).finish().unwrap();
    assert_eq!(done.client_ref.to_text(), "Acme");
}

#[test]
fn a_payment_method_without_a_name_is_none() {
    for answer in [Answer::Skipped, text("")] {
        let form = PaymentMethod::create_from_user_input().answer(answer);
        assert!(form.question().is_none());
        assert!(form.finish().unwrap().is_none());
    }
}

#[test]
fn a_payment_method_keeps_what_was_given() {
    let mut form = PaymentMethod::create_from_user_input();
    assert!(matches!(
        form.question(),
        Some(Question::OptionalText { message: "Payment method:", placeholder: None })
    ));
    form = form.answer(Answer::Choice(1));
    assert_eq!(message_of(&form.question().unwrap()), "Payment method:");
    form = form.answer(text("PayPal"));
    assert_eq!(message_of(&form.question().unwrap()), "Alternate display text?");
    form = form.answer(text(""));
    assert_eq!(message_of(&form.question().unwrap()), "Add link URL?");
    form = form.answer(text("https://paypal.me/x"));
    let method = form.finish().unwrap().unwrap();
    assert_eq!(method.name, "PayPal");
    assert_eq!(method.display_text, None);
    assert_eq!(method.url.as_deref(), Some("https://paypal.me/x"));
    assert_eq!(method.display(), "PayPal");
    let named = PaymentMethod {
        name: "PayPal".to_owned(),
        display_text: Some("Pay with PayPal".to_owned()),
        url: None,
    };
    assert_eq!(named.display(), "Pay with PayPal");
    assert!(matches!(PaymentForm::Name.finish(), Err(PaymentForm::Name)));
}

#[test]
fn the_owner_is_taken_down_with_payment_methods() {
    let mut form: MeForm = Me::create_from_user_input();
    let (title, question) = asked(form.next());
    assert_eq!(title, None);
    assert!(matches!(question, Question::Text { message: "Your Name:", placeholder: None, required: true }));
    form = form.answer(text("Test User"));
    assert_eq!(asked(form.next()).0.as_deref(), Some("Mailing address:"));
    form = form.answer(text("123 Test Street")).answer(Answer::Skipped);
    form = form.answer(text("Twin Falls")).answer(text("Idaho")).answer(text("12345"));
    assert_eq!(asked(form.next()).0.as_deref(), Some("Contact info:"));
    form = form.answer(text("test@example.com")).answer(text("(123) 456-7890"));
    let (title, question) = asked(form.next());
    assert_eq!(title.as_deref(), Some("Acceptable payment methods:"));
    assert_eq!(message_of(&question), "Payment method:");
    form = form.answer(text("PayPal"));
    assert_eq!(asked(form.next()).0, None);
    form = form.answer(Answer::Skipped).answer(Answer::Skipped);
    // The second method is asked for without the title.
    let (title, question) = asked(form.next());
    assert_eq!(title, None);
    assert_eq!(message_of(&question), "Payment method:");
    form = form.answer(text("Check")).answer(text("By check")).answer(text(""));
    form = form.answer(Answer::Skipped);
    let me = match form.next() {
        Next::Review(me) => me.clone(),
        other => panic!("{:?}", other),
    };
    assert_eq!(me.name, "Test User");
    assert_eq!(me.address.city, "Twin Falls");
    assert_eq!(me.contact.email, "test@example.com");
    assert_eq!(me.payment.len(), 2);
    assert_eq!(me.payment[0].name, "PayPal");
    assert_eq!(me.payment[1].display_text.as_deref(), Some("By check"));
    let me = form.reviewed(me).finish().unwrap();
    assert_eq!(me.payment.len(), 2);
}

#[test]
fn the_owner_may_have_no_payment_methods() {
    let form = Me::create_from_user_input()
        .answer(text("Test User"))
        .answer(text("123 Test Street"))
        .answer(Answer::Skipped)
        .answer(text("Twin Falls"))
        .answer(text("Idaho"))
        .answer(text("12345"))
        .answer(text("test@example.com"))
        .answer(text("(123) 456-7890"))
        .answer(Answer::Skipped);
    match form.next() {
        Next::Review(me) => assert!(me.payment.is_empty()),
        other => panic!("{:?}", other),
    }
}
