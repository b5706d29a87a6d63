use promptforge::template_format::{
    detect_template, is_fmtstring, is_mustache, is_plain_text, is_valid_template, merge_vars,
    validate_template,
};
use promptforge::{TemplateError, TemplateFormat, Vars};

#[test]
fn test_is_plain_text() {
    assert!(is_plain_text("No placeholders"));
    assert!(is_plain_text("This has no placeholders"));

    assert!(!is_plain_text("{var}"));
    assert!(!is_plain_text("{{var}}"));
    assert!(!is_plain_text("{var words another}}"));
}

#[test]
fn test_is_mustache() {
    assert!(is_mustache("{{var}}"));
    assert!(is_mustache("{{var}} words {{ another }}"));

    assert!(!is_mustache("{var}"));
    assert!(!is_mustache("This has no placeholders"));
    assert!(!is_mustache("{{var"));
    assert!(!is_mustache("var}}"));
    assert!(!is_mustache("{var} words {{another}}"));
    assert!(!is_mustache("{{ hello world }}"));
}

#[test]
fn test_is_fmtstring() {
    assert!(is_fmtstring("{var}"));
    assert!(is_fmtstring("Here is a {var}"));
    assert!(is_fmtstring("{var} and { another }"));

    assert!(!is_fmtstring("{{var}}"));
    assert!(!is_fmtstring("{{var}"));
    assert!(!is_fmtstring("{var}}"));
    assert!(!is_fmtstring("No placeholders"));
    assert!(!is_fmtstring("{var} words {{another}}"));
    assert!(!is_fmtstring("{ hello world }"));
}

#[test]
fn test_is_valid_template() {
    assert!(is_valid_template("{var}"));
    assert!(is_valid_template("Here is a {var}"));
    assert!(is_valid_template("{var} and {another}"));
    assert!(is_valid_template("{{var}}"));
    assert!(is_valid_template("{{var}} words {{another}}"));

    assert!(!is_valid_template("{{var}"));
    assert!(!is_valid_template("{var}}"));
    assert!(!is_valid_template("{var} words {{another}}"));

    assert!(is_valid_template("No placeholders"));
}

#[test]
fn test_detect_template() {
    assert_eq!(
        detect_template("No placeholders").unwrap(),
        TemplateFormat::PlainText
    );

    assert_eq!(detect_template("{var}").unwrap(), TemplateFormat::FmtString);
    assert_eq!(
        detect_template("Here is a {var}").unwrap(),
        TemplateFormat::FmtString
    );
    assert_eq!(
        detect_template("{var} and {another}").unwrap(),
        TemplateFormat::FmtString
    );
    assert_eq!(
        detect_template("{{var}}").unwrap(),
        TemplateFormat::Mustache
    );
    assert_eq!(
        detect_template("{{var}} and {{another}}").unwrap(),
        TemplateFormat::Mustache
    );

    assert!(detect_template("{var words}")
        .unwrap_err()
        .matches(&TemplateError::UnsupportedFormat("{var words}".to_string())));
}

#[test]
fn test_validate_template() {
    assert!(validate_template("{var}").is_ok());
    assert!(validate_template("Here is a {var}").is_ok());
    assert!(validate_template("{{var}}").is_ok());
    assert!(validate_template("This is a {{valid}} Mustache template").is_ok());
    assert!(validate_template("No placeholders here").is_ok());

    assert!(validate_template("{{var}")
        .unwrap_err()
        .matches(&TemplateError::MalformedTemplate("{{var}".to_string())));

    assert!(validate_template("{var}}")
        .unwrap_err()
        .matches(&TemplateError::MalformedTemplate("{var}}".to_string())));

    assert!(validate_template("{var} words {{another}}")
        .unwrap_err()
        .matches(&TemplateError::MalformedTemplate(
            "{var} words {{another}}".to_string()
        )));
}

#[test]
fn test_from_template_format() {
    assert_eq!(
        TemplateFormat::from_template("{name}").unwrap(),
        TemplateFormat::FmtString
    );

    assert_eq!(
        TemplateFormat::from_template("{{name}}").unwrap(),
        TemplateFormat::Mustache
    );

    assert_eq!(
        TemplateFormat::from_template("Hello, world!").unwrap(),
        TemplateFormat::PlainText
    );

    let result = TemplateFormat::from_template("{name {{other}}");
    match result {
        Err(TemplateError::MalformedTemplate(msg)) => {
            assert_eq!(msg, "Malformed template".to_string());
        }
        _ => panic!("Expected MalformedTemplate error"),
    }

    let result = TemplateFormat::from_template("{ name age }");
    match result {
        Err(TemplateError::UnsupportedFormat(msg)) => {
            assert_eq!(msg, "Unsupported template format".to_string());
        }
        e => panic!("Expected UnsupportedFormat error. Got error: {:?}", e),
    }
}

#[test]
fn test_merge_vars_both_non_empty() {
    let mut partials = Vars::new();
    partials.insert("name", "Alice");
    partials.insert("day", "Sunday");

    let mut runtime_vars = Vars::new();
    runtime_vars.insert("day", "Monday");
    runtime_vars.insert("time", "Morning");

    let merged = merge_vars(&partials, &runtime_vars);

    assert_eq!(merged.get("name"), Some("Alice"));
    assert_eq!(merged.get("day"), Some("Monday"));
    assert_eq!(merged.get("time"), Some("Morning"));
    assert_eq!(merged.len(), 3);
}

#[test]
fn test_merge_vars_only_partials() {
    let mut partials = Vars::new();
    partials.insert("name", "Alice");
    partials.insert("day", "Sunday");

    let runtime_vars = Vars::new();

    let merged = merge_vars(&partials, &runtime_vars);

    assert_eq!(merged.get("name"), Some("Alice"));
    assert_eq!(merged.get("day"), Some("Sunday"));
    assert_eq!(merged.len(), 2);
}

#[test]
fn test_merge_vars_only_runtime_vars() {
    let partials = Vars::new();

    let mut runtime_vars = Vars::new();
    runtime_vars.insert("day", "Monday");
    runtime_vars.insert("time", "Morning");

    let merged = merge_vars(&partials, &runtime_vars);

    assert_eq!(merged.get("day"), Some("Monday"));
    assert_eq!(merged.get("time"), Some("Morning"));
    assert_eq!(merged.len(), 2);
}

#[test]
fn test_merge_vars_both_empty() {
    let partials = Vars::new();
    let runtime_vars = Vars::new();

    let merged = merge_vars(&partials, &runtime_vars);

    assert!(merged.is_empty());
}

#[test]
fn test_merge_vars_runtime_overwrites_partial() {
    let mut partials = Vars::new();
    partials.insert("var", "PartialValue");

    let mut runtime_vars = Vars::new();
    runtime_vars.insert("var", "RuntimeValue");

    let merged = merge_vars(&partials, &runtime_vars);

    assert_eq!(merged.get("var"), Some("RuntimeValue"));
    assert_eq!(merged.len(), 1);
}

#[test]
fn test_merge_vars_runtime_with_no_conflict() {
    let mut partials = Vars::new();
    partials.insert("name", "Alice");

    let mut runtime_vars = Vars::new();
    runtime_vars.insert("day", "Monday");

    let merged = merge_vars(&partials, &runtime_vars);

    assert_eq!(merged.get("name"), Some("Alice"));
    assert_eq!(merged.get("day"), Some("Monday"));
    assert_eq!(merged.len(), 2);
}

#[test]
fn test_merge_vars_handles_empty_strings() {
    let mut partials = Vars::new();
    partials.insert("name", "");
    partials.insert("day", "Sunday");

    let mut runtime_vars = Vars::new();
    runtime_vars.insert("name", "Bob");
    runtime_vars.insert("time", "Morning");

    let merged = merge_vars(&partials, &runtime_vars);

    assert_eq!(merged.get("name"), Some("Bob"));
    assert_eq!(merged.get("day"), Some("Sunday"));
    assert_eq!(merged.get("time"), Some("Morning"));
    assert_eq!(merged.len(), 3);
}

#[test]
fn test_merge_vars_empty_strings_in_runtime() {
    let mut partials = Vars::new();
    partials.insert("name", "Alice");
    partials.insert("day", "Sunday");

    let mut runtime_vars = Vars::new();
    runtime_vars.insert("name", "");

    let merged = merge_vars(&partials, &runtime_vars);

    assert_eq!(merged.get("name"), Some(""));
    assert_eq!(merged.get("day"), Some("Sunday"));
    assert_eq!(merged.len(), 2);
}
