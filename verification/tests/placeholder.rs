use promptforge::{
    extract_placeholder_variable, extract_variables, is_valid_identifier, MessagesPlaceholder,
    TemplateError,
};

#[test]
fn identifiers_are_letters_digits_and_underscores() {
    assert!(is_valid_identifier("a"));
    assert!(is_valid_identifier("_"));
    assert!(is_valid_identifier("history"));
    assert!(is_valid_identifier("chat_history_2"));
    assert!(is_valid_identifier("A9"));

    assert!(!is_valid_identifier(""));
    assert!(!is_valid_identifier("9a"));
    assert!(!is_valid_identifier("a b"));
    assert!(!is_valid_identifier("a-b"));
    assert!(!is_valid_identifier("{a}"));
    assert!(!is_valid_identifier("é"));
}

#[test]
fn variables_come_out_in_order_of_appearance() {
    assert_eq!(extract_variables(""), Vec::<String>::new());
    assert_eq!(extract_variables("no variables"), Vec::<String>::new());
    assert_eq!(extract_variables("{a}"), vec!["a".to_string()]);
    assert_eq!(
        extract_variables("Hello {name}, today is { day }. Bye {name}."),
        vec!["name".to_string(), "day".to_string(), "name".to_string()]
    );
    assert_eq!(
        extract_variables("{{first}} and {{ second }}"),
        vec!["first".to_string(), "second".to_string()]
    );
    assert_eq!(extract_variables("{}"), vec!["".to_string()]);
    assert_eq!(extract_variables("{unclosed"), Vec::<String>::new());
    assert_eq!(extract_variables("unopened}"), Vec::<String>::new());
}

#[test]
fn placeholder_variable_is_a_bare_reference() {
    assert_eq!(extract_placeholder_variable("{history}").unwrap(), "history");
    assert_eq!(extract_placeholder_variable("{{history}}").unwrap(), "history");
    assert_eq!(extract_placeholder_variable("{_h1}").unwrap(), "_h1");

    for bad in [
        "", "history", "{}", "{{}}", "{ history }", "{history} ", " {history}", "{1history}",
        "{a b}", "{a}{b}", "{{history}", "{history}}", "{{{history}}}", "{a-b}",
    ] {
        match extract_placeholder_variable(bad) {
            Err(TemplateError::MalformedTemplate(text)) => assert_eq!(text, bad),
            other => panic!("expected a malformed template for {:?}, got {:?}", bad, other),
        }
    }
}

#[test]
fn placeholder_from_template_has_the_defaults() {
    let placeholder = MessagesPlaceholder::try_from("{history}").unwrap();
    assert_eq!(placeholder.variable_name(), "history");
    assert!(!placeholder.optional());
    assert_eq!(placeholder.n_messages(), MessagesPlaceholder::DEFAULT_LIMIT);
    assert_eq!(MessagesPlaceholder::DEFAULT_LIMIT, 1000);

    let same = MessagesPlaceholder::from_template("{{history}}").unwrap();
    assert_eq!(same.variable_name(), "history");

    assert!(MessagesPlaceholder::try_from("Hello {history}").is_err());
}

#[test]
fn placeholder_options_are_kept() {
    let placeholder = MessagesPlaceholder::with_options("log".to_string(), true, 0);
    assert_eq!(placeholder.variable_name(), "log");
    assert!(placeholder.optional());
    assert_eq!(placeholder.n_messages(), 0);

    let copy = placeholder.clone();
    assert_eq!(copy.variable_name(), "log");
    assert!(copy.optional());
    assert_eq!(copy.n_messages(), 0);

    let plain = MessagesPlaceholder::new("log".to_string());
    assert!(!plain.optional());
    assert_eq!(plain.n_messages(), 1000);
}
