use promptforge::role::InvalidRoleError;
use promptforge::template::{find_missing, substitute};
use promptforge::{
    MessageType, Role, Template, TemplateError, TemplateFormat, Vars,
};

fn vars(pairs: &[(&str, &str)]) -> Vars {
    let mut map = Vars::new();
    for (key, value) in pairs {
        map.insert(key, value);
    }
    map
}

#[test]
fn plain_text_is_classified_without_braces() {
    for s in ["", "hello", "a b c", "100% sure: yes"] {
        assert_eq!(TemplateFormat::from_template(s).unwrap(), TemplateFormat::PlainText);
    }
}

#[test]
fn unbalanced_braces_are_malformed_in_any_style() {
    for s in ["{", "}", "{a", "a}", "{{a}", "{a}}", "{a} {", "{{a}} }", "{a b", "{{a b}"] {
        match TemplateFormat::from_template(s) {
            Err(TemplateError::MalformedTemplate(text)) => assert_eq!(text, "Malformed template"),
            other => panic!("expected a malformed template for {:?}, got {:?}", s, other),
        }
    }
}

#[test]
fn mixed_styles_are_unsupported_when_balanced() {
    for s in ["{a} {{b}}", "{{a}} {b}", "}{", "{ {a} }", "{{{a}}}", "{a b}", "{{a b}}"] {
        match TemplateFormat::from_template(s) {
            Err(TemplateError::UnsupportedFormat(text)) => {
                assert_eq!(text, "Unsupported template format")
            }
            other => panic!("expected an unsupported format for {:?}, got {:?}", s, other),
        }
    }
}

#[test]
fn format_names_are_read_in_any_case() {
    assert_eq!(TemplateFormat::try_from("FmtString").unwrap(), TemplateFormat::FmtString);
    assert_eq!(TemplateFormat::try_from("MUSTACHE").unwrap(), TemplateFormat::Mustache);
    assert_eq!(TemplateFormat::try_from("plaintext").unwrap(), TemplateFormat::PlainText);
    match TemplateFormat::try_from("jinja") {
        Err(TemplateError::UnsupportedFormat(text)) => {
            assert_eq!(text, "Unsupported template format")
        }
        other => panic!("expected an unsupported format, got {:?}", other),
    }
    assert!(TemplateFormat::from_lowercase_name("Mustache").is_err());
    assert_eq!(TemplateFormat::FmtString.as_str(), "FmtString");
    assert_eq!(TemplateFormat::Mustache.as_str(), "Mustache");
    assert_eq!(TemplateFormat::PlainText.as_str(), "PlainText");
}

#[test]
fn template_keeps_text_and_format() {
    let t = Template::from_template("Hi {name}").unwrap();
    assert_eq!(t.template(), "Hi {name}");
    assert_eq!(t.template_format(), TemplateFormat::FmtString);
    assert_eq!(t.input_variables(), vec!["name".to_string()]);

    let m = Template::new("Hi {{name}}").unwrap();
    assert_eq!(m.template_format(), TemplateFormat::Mustache);
    let copy = m.clone();
    assert_eq!(copy.template(), "Hi {{name}}");
    assert_eq!(copy.template_format(), TemplateFormat::Mustache);

    assert!(Template::from_template("{a} {{b}}").is_err());
    assert!(Template::from_template("{a").is_err());
}

#[test]
fn single_braces_are_substituted() {
    let v = vars(&[("name", "Bob"), ("day", "Monday")]);
    assert_eq!(substitute("", &v), "");
    assert_eq!(substitute("plain", &v), "plain");
    assert_eq!(substitute("{name}", &v), "Bob");
    assert_eq!(substitute("Hi { name }, it is {day}!", &v), "Hi Bob, it is Monday!");
    assert_eq!(substitute("{name}{name}", &v), "BobBob");
    assert_eq!(substitute("a {other} b", &v), "a  b");
    assert_eq!(substitute("tail {name", &v), "tail ");
    assert_eq!(substitute("stray } brace", &v), "stray  brace");
}

#[test]
fn the_first_missing_name_is_found() {
    let v = vars(&[("a", "1"), ("c", "3")]);
    let names = vec!["a".to_string(), "b".to_string(), "c".to_string(), "d".to_string()];
    assert_eq!(find_missing(&names, &v), Some("b".to_string()));
    assert_eq!(find_missing(&vec!["a".to_string(), "c".to_string()], &v), None);
    assert_eq!(find_missing(&Vec::new(), &v), None);
}

#[test]
fn rendering_follows_the_format() {
    let v = vars(&[("name", "Bob")]);
    assert_eq!(Template::new("Just text.").unwrap().format(&v).unwrap(), "Just text.");
    assert_eq!(Template::new("You are {name}.").unwrap().format(&v).unwrap(), "You are Bob.");
    assert_eq!(Template::new("You are {{name}}.").unwrap().format(&v).unwrap(), "You are Bob.");
    assert_eq!(Template::new("You are {{ name }}.").unwrap().format(&v).unwrap(), "You are Bob.");
}

#[test]
fn rendering_reports_the_missing_variable() {
    let v = vars(&[("name", "Bob")]);
    for text in ["{name} on {day} at {hour}", "{{name}} on {{day}} at {{hour}}"] {
        match Template::new(text).unwrap().format(&v) {
            Err(TemplateError::MissingVariable(name)) => assert_eq!(name, "day"),
            other => panic!("expected a missing variable, got {:?}", other),
        }
    }
}

#[test]
fn engine_failure_is_a_runtime_error() {
    let v = vars(&[("if", "x")]);
    let result = Template::new("{{if}}").unwrap().format(&v);
    match result {
        Err(e @ TemplateError::RuntimeError(_)) => {
            assert!(e.message().starts_with("Render error: "));
            assert!(e.message().len() > "Render error: ".len());
        }
        other => panic!("expected a runtime error, got {:?}", other),
    }
}

#[test]
fn double_braces_hold_variable_names_only() {
    let v = vars(&[
        ("#if", "x"),
        ("#*inline\"a\"", "x"),
        (">a", "x"),
        ("/inline", "x"),
        ("a-b", "x"),
        ("", "x"),
    ]);
    for text in [
        "{{#if}}",
        "{{#*inline\"a\"}}{{>a}}{{/inline}}{{>a}}",
        "{{>a}}",
        "{{a-b}}",
        "{{}}",
        "{{ 1a }}",
    ] {
        let template = Template::new(text).unwrap();
        assert_eq!(template.template_format(), TemplateFormat::Mustache);
        for variables in [&v, &Vars::new()] {
            match template.format(variables) {
                Err(TemplateError::UnsupportedFormat(message)) => {
                    assert_eq!(message, "Unsupported template format")
                }
                other => panic!("expected an unsupported format for {:?}, got {:?}", text, other),
            }
        }
    }
    assert_eq!(Template::new("{a-b}").unwrap().format(&v).unwrap(), "x");
}

#[test]
fn the_engine_sees_the_value_that_stands() {
    let mut v = Vars::new();
    v.insert("name", "first");
    v.insert("other", "o");
    v.insert("name", "second");
    assert_eq!(Template::new("{{name}}-{{other}}").unwrap().format(&v).unwrap(), "second-o");
    assert_eq!(Template::new("{name}-{other}").unwrap().format(&v).unwrap(), "second-o");
    assert_eq!(
        v.bindings(),
        vec![
            ("name".to_string(), "second".to_string()),
            ("other".to_string(), "o".to_string())
        ]
    );
    assert_eq!(Vars::new().bindings(), Vec::<(String, String)>::new());
}

#[test]
fn messages_of_errors() {
    assert_eq!(
        TemplateError::MalformedTemplate("x".to_string()).message(),
        "Malformed template: x"
    );
    assert_eq!(
        TemplateError::UnsupportedFormat("y".to_string()).message(),
        "Unsupported format: y"
    );
    assert_eq!(
        TemplateError::MissingVariable("z".to_string()).message(),
        "Missing variable: z"
    );
    assert_eq!(TemplateError::InvalidRoleError.message(), "Invalid role error");
    assert_eq!(
        TemplateError::TomlDeserializationError("t".to_string()).message(),
        "TOML deserialization error: t"
    );
}

#[test]
fn errors_match_by_kind_and_text() {
    let a = TemplateError::MissingVariable("a".to_string());
    assert!(a.matches(&TemplateError::MissingVariable("a".to_string())));
    assert!(!a.matches(&TemplateError::MissingVariable("b".to_string())));
    assert!(!a.matches(&TemplateError::MalformedTemplate("a".to_string())));
    assert!(TemplateError::InvalidRoleError.matches(&TemplateError::InvalidRoleError));
    assert!(!TemplateError::InvalidRoleError.matches(&a));
    assert!(TemplateError::TomlDeserializationError("t".to_string())
        .matches(&TemplateError::TomlDeserializationError("t".to_string())));
    assert!(!TemplateError::UnsupportedFormat("t".to_string())
        .matches(&TemplateError::UnsupportedFormat("u".to_string())));

    let v = vars(&[("if", "x"), ("each", "y")]);
    let one = Template::new("{{if}}").unwrap().format(&v).unwrap_err();
    let other = Template::new("{{each}}").unwrap().format(&v).unwrap_err();
    assert!(one.matches(&other));
    assert!(!one.matches(&a));
}

#[test]
fn outside_errors_convert() {
    let from_role: TemplateError = InvalidRoleError.into();
    assert!(from_role.matches(&TemplateError::InvalidRoleError));

    let toml_error = toml::from_str::<toml::Value>("= broken").unwrap_err();
    let text = toml_error.to_string();
    match TemplateError::from(toml_error) {
        TemplateError::TomlDeserializationError(message) => assert_eq!(message, text),
        other => panic!("expected a TOML error, got {:?}", other),
    }
}

#[test]
fn roles_speak_as_their_message_type() {
    let m = Role::System.to_message("s").unwrap();
    assert_eq!(m.message_type(), MessageType::System);
    assert_eq!(m.content(), "s");
    assert_eq!(m.role(), "system");
    assert_eq!(Role::Human.to_message("h").unwrap().role(), "human");
    assert_eq!(Role::Ai.to_message("a").unwrap().role(), "ai");
    assert_eq!(Role::Placeholder.to_message("p").unwrap_err(), InvalidRoleError);
    assert_eq!(Role::Placeholder.as_str(), "placeholder");
    assert_eq!(Role::Ai.as_str(), "ai");
    assert_eq!(MessageType::Tool.as_str(), "tool");
}

#[test]
fn vars_shadow_and_count_names() {
    let mut v = Vars::new();
    assert!(v.is_empty());
    assert_eq!(v.len(), 0);
    assert!(!v.contains_key("a"));
    assert_eq!(v.get("a"), None);
    v.insert("a", "1");
    v.insert("b", "2");
    v.insert("a", "3");
    assert!(!v.is_empty());
    assert_eq!(v.len(), 2);
    assert!(v.contains_key("a"));
    assert_eq!(v.get("a"), Some("3"));
    assert_eq!(v.get("b"), Some("2"));
    let copy = v.clone();
    assert_eq!(copy.len(), 2);
    assert_eq!(copy.get("a"), Some("3"));
}
