use pdoc::filename::{number_from_filename, numbers_from_filenames};
use pdoc::text::{chars_of, decimal_text, keep_alphanumerics, parse_number, remove_whitespace, starts_with};

fn parse(text: &str) -> Option<u32> {
    parse_number(&text.chars().collect())
}

#[test]
fn numbers_are_written_in_decimal() {
    assert_eq!(decimal_text(0), "0");
    assert_eq!(decimal_text(7), "7");
    assert_eq!(decimal_text(10), "10");
    assert_eq!(decimal_text(1234567890), "1234567890");
    assert_eq!(decimal_text(u32::MAX), "4294967295");
}

#[test]
fn numbers_are_read_as_std_reads_them() {
    for text in ["0", "7", "007", "+5", "4294967295", "4294967296", "", "+", "-5", "5 ", "٣", "1_000", "99999999999999999999", "++1", "1+"] {
        assert_eq!(parse(text), text.parse::<u32>().ok(), "for {:?}", text);
    }
    assert_eq!(parse("4294967295"), Some(u32::MAX));
    assert_eq!(parse("4294967296"), None);
}

#[test]
fn written_numbers_read_back() {
    for n in [0, 1, 9, 10, 99, 100, 65535, u32::MAX - 1, u32::MAX] {
        assert_eq!(parse(&decimal_text(n)), Some(n));
    }
}

#[test]
fn a_text_is_taken_apart_into_its_characters() {
    assert_eq!(chars_of("aé€"), vec!['a', 'é', '€']);
    assert_eq!(chars_of(""), Vec::<char>::new());
}

#[test]
fn prefixes_are_recognised() {
    let text: Vec<char> = "acme co.".chars().collect();
    assert!(starts_with(&text, &"ac".chars().collect()));
    assert!(starts_with(&text, &Vec::new()));
    assert!(starts_with(&text, &text.clone()));
    assert!(!starts_with(&text, &"ad".chars().collect()));
    assert!(!starts_with(&text, &"acme co.x".chars().collect()));
}

#[test]
fn white_space_is_removed_everywhere() {
    assert_eq!(remove_whitespace("  Test \t User\n"), "TestUser");
    assert_eq!(remove_whitespace("A\u{a0}B\u{2003}C"), "ABC");
    assert_eq!(remove_whitespace(""), "");
}

#[test]
fn only_letters_and_numbers_are_kept() {
    assert_eq!(keep_alphanumerics("Test Client #1"), "TestClient1");
    assert_eq!(keep_alphanumerics("Müller & Söhne, 3. OG"), "MüllerSöhne3OG");
    assert_eq!(keep_alphanumerics("!?"), "");
}

#[test]
fn file_names_stand_for_numbers() {
    assert_eq!(number_from_filename("17.yaml"), Some(17));
    assert_eq!(number_from_filename("invoices/17.yaml"), Some(17));
    assert_eq!(number_from_filename("017.yaml"), Some(17));
    assert_eq!(number_from_filename("+17.yaml"), Some(17));
    assert_eq!(number_from_filename("17"), Some(17));
    assert_eq!(number_from_filename("17.yaml.bak"), None);
    assert_eq!(number_from_filename("seventeen.yaml"), None);
    assert_eq!(number_from_filename(".yaml"), None);
    assert_eq!(number_from_filename("4294967296.yaml"), None);
    assert_eq!(number_from_filename(""), None);
}

#[test]
fn unreadable_file_names_are_passed_over() {
    let names: Vec<String> =
        ["5.yaml", "notes.txt", "7.yaml", "", "2.yaml", "x7.yaml"].iter().map(|s| s.to_string()).collect();
    assert_eq!(numbers_from_filenames(&names), vec![5, 7, 2]);
}
