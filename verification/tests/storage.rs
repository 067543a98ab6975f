use pdoc::address::MailingAddress;
use pdoc::client::Client;
use pdoc::config::{Config, StorageConfig};
use pdoc::contact::ContactInfo;
use pdoc::filters::payment_to_latex;
use pdoc::id::Id;
use pdoc::latex::Latex;
use pdoc::me::{Me, PaymentMethod};
use pdoc::project::Project;
use pdoc::storage::{
    choose_data_dir, config_file_in, find_client, find_invoice, find_project, get_clients_dir, get_config_file_path,
    get_data_dir, get_invoices_dir, get_ledger_dir, get_me_path, get_pdfs_dir, get_projects_dir,
    get_receipts_dir, join, StorageError,
};

fn config(data_dir: Option<&str>) -> StorageConfig {
    Config {
        me: Me {
            name: "Test User".to_owned(),
            address: MailingAddress {
                addr1: "1".to_owned(),
                addr2: None,
                addr3: None,
                city: "c".to_owned(),
                state: "s".to_owned(),
                zip: "z".to_owned(),
            },
            contact: ContactInfo { email: "e".to_owned(), phone: "p".to_owned() },
            payment: Vec::new(),
        },
        storage: StorageConfig { data_dir: data_dir.map(|s| s.to_owned()) },
    }
    .storage
}

#[test]
fn directories_lie_in_the_data_directory() {
    assert_eq!(get_clients_dir("/data"), "/data/clients");
    assert_eq!(get_projects_dir("/data"), "/data/projects");
    assert_eq!(get_invoices_dir("/data"), "/data/invoices");
    assert_eq!(get_receipts_dir("/data"), "/data/receipts");
    assert_eq!(get_pdfs_dir("/data"), "/data/pdfs");
    assert_eq!(get_ledger_dir("/data"), "/data/ledger");
    assert_eq!(get_me_path("/data"), "/data/me.yaml");
    assert_eq!(join("a", "b"), "a/b");
}

#[test]
fn records_are_looked_for_under_their_keys() {
    assert_eq!(find_client(&Id::new("Acme Co.".to_owned()), "/data"), "/data/clients/Acme Co..yaml");
    assert_eq!(find_project(&Id::new("Manhattan".to_owned()), "/data"), "/data/projects/Manhattan.yaml");
    assert_eq!(find_invoice(17, "/data"), "/data/invoices/17.yaml");
}

#[test]
fn a_set_data_directory_must_be_absolute() {
    assert_eq!(get_data_dir(&config(Some("/var/lib/pdoc"))).unwrap(), "/var/lib/pdoc");
    match get_data_dir(&config(Some("relative/dir"))) {
        Err(StorageError::NotAbsolute(dir)) => assert_eq!(dir, "relative/dir"),
        other => panic!("{:?}", other),
    }
    match get_data_dir(&config(Some("~other/dir"))) {
        Err(StorageError::NotAbsolute(dir)) => assert_eq!(dir, "~other/dir"),
        other => panic!("{:?}", other),
    }
    match get_data_dir(&config(Some(""))) {
        Err(StorageError::NotAbsolute(dir)) => assert_eq!(dir, ""),
        other => panic!("{:?}", other),
    }
}

#[test]
fn a_tilde_stands_for_the_home_directory() {
    match get_data_dir(&config(Some("~/books"))) {
        Ok(dir) => {
            assert!(dir.ends_with("/books"));
            assert!(!dir.starts_with('~'));
        }
        // Without a home directory the path stays as it is, and is not absolute.
        Err(StorageError::NotAbsolute(dir)) => assert!(dir.ends_with("/books")),
        other => panic!("{:?}", other),
    }
}

#[test]
fn the_data_directory_is_chosen_from_what_is_known() {
    assert_eq!(choose_data_dir(Some(("/a".to_owned(), true)), Some("/d".to_owned())).unwrap(), "/a");
    assert!(matches!(
        choose_data_dir(Some(("a".to_owned(), false)), Some("/d".to_owned())),
        Err(StorageError::NotAbsolute(_))
    ));
    assert_eq!(choose_data_dir(None, Some("/d".to_owned())).unwrap(), "/d");
    assert!(matches!(choose_data_dir(None, None), Err(StorageError::NoDataDirectory)));
}

#[test]
fn the_file_of_settings_lies_in_the_directory_for_settings() {
    assert_eq!(config_file_in(Some("/home/u/.config/pdoc".to_owned())).unwrap(), "/home/u/.config/pdoc/config.toml");
    assert!(matches!(config_file_in(None), Err(StorageError::NoConfigDirectory)));
}

#[test]
fn the_system_names_the_default_directories() {
    match get_data_dir(&config(None)) {
        Ok(dir) => assert!(dir.contains("pdoc")),
        Err(error) => assert!(matches!(error, StorageError::NoDataDirectory)),
    }
    match get_config_file_path() {
        Ok(path) => {
            assert!(path.ends_with("/config.toml"));
            assert!(path.contains("pdoc"));
        }
        Err(error) => assert!(matches!(error, StorageError::NoConfigDirectory)),
    }
}

#[test]
fn text_is_escaped_for_latex() {
    assert_eq!(Latex.escape("50% & more_or_less #1").unwrap(), "50\\% \\& more\\_or\\_less \\#1");
    assert_eq!(Latex.escape("plain").unwrap(), "plain");
    assert_eq!(Latex.escape("a\\b").unwrap(), "a\\textbackslash{}b");
    assert_eq!(Latex.escape("").unwrap(), "");
}

#[test]
fn payment_methods_are_shown_in_latex() {
    let plain = PaymentMethod { name: "Cash & carry".to_owned(), display_text: None, url: None };
    assert_eq!(plain.to_latex().unwrap(), "Cash \\& carry");
    assert_eq!(payment_to_latex(&plain).unwrap(), "Cash \\& carry");
    let linked = PaymentMethod {
        name: "PayPal".to_owned(),
        display_text: Some("Pay_Pal".to_owned()),
        url: Some("https://paypal.me/x".to_owned()),
    };
    assert_eq!(linked.to_latex().unwrap(), "\\href{https://paypal.me/x}{Pay\\_Pal}");
}

#[test]
fn clients_and_projects_are_listed_by_the_names_of_their_files() {
    let names: Vec<String> =
        ["Acme Co..yaml", "..", "Beta LLC.yaml", ""].iter().map(|s| s.to_string()).collect();
    let clients = Client::list(&names);
    assert_eq!(clients, vec![Id::new("Acme Co.".to_owned()), Id::new("Beta LLC".to_owned())]);
    let projects = Project::list(&names);
    assert_eq!(projects.len(), 2);
    assert_eq!(projects[1].to_text(), "Beta LLC");
}

#[test]
fn an_address_is_written_on_one_line() {
    let mut address = MailingAddress {
        addr1: "1 Main St".to_owned(),
        addr2: None,
        addr3: None,
        city: "Springfield".to_owned(),
        state: "Ohio".to_owned(),
        zip: "12345".to_owned(),
    };
    assert_eq!(pdoc::document::format_address(&address), "1 Main St, Springfield, Ohio 12345");
    address.addr2 = Some("Apt. 7".to_owned());
    address.addr3 = Some("Closet".to_owned());
    assert_eq!(
        pdoc::document::format_address(&address),
        "1 Main St, Apt. 7, Closet, Springfield, Ohio 12345"
    );
}
