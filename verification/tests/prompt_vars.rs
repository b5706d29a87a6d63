use promptforge::Vars;

#[test]
fn test_empty_prompt_vars() {
    let vars = Vars::new();
    assert!(vars.is_empty(), "The hashmap should be empty.");
}

#[test]
fn test_single_prompt_var() {
    let mut vars = Vars::new();
    vars.insert("name", "tom");
    assert_eq!(vars.len(), 1);
    assert_eq!(vars.get("name"), Some("tom"));
}

#[test]
fn test_multiple_prompt_vars() {
    let mut vars = Vars::new();
    vars.insert("name", "tom");
    vars.insert("adjective", "funny");
    vars.insert("content", "chickens");
    assert_eq!(vars.len(), 3);
    assert_eq!(vars.get("name"), Some("tom"));
    assert_eq!(vars.get("adjective"), Some("funny"));
    assert_eq!(vars.get("content"), Some("chickens"));
}

#[test]
fn test_trailing_comma() {
    let mut vars = Vars::new();
    vars.insert("name", "tom");
    vars.insert("adjective", "funny");
    vars.insert("content", "chickens");
    assert_eq!(vars.len(), 3);
    assert_eq!(vars.get("name"), Some("tom"));
    assert_eq!(vars.get("adjective"), Some("funny"));
    assert_eq!(vars.get("content"), Some("chickens"));
}

#[test]
fn test_overwriting_keys() {
    let mut vars = Vars::new();
    vars.insert("name", "tom");
    vars.insert("name", "jerry");
    assert_eq!(vars.len(), 1);
    assert_eq!(vars.get("name"), Some("jerry"));
}
