use snowman::config::config_directory;
use snowman::config::config_file_path;
use snowman::config::parse_credential;

#[test]
fn parses_plain_assignment() {
    let c = parse_credential("apikey = \"tok-123\"").expect("valid assignment");
    assert_eq!(c.apikey, "tok-123");
}

#[test]
fn parses_single_quoted_assignment() {
    let c = parse_credential("apikey = 'PMAK-abc-def'").expect("valid assignment");
    assert_eq!(c.apikey, "PMAK-abc-def");
}

#[test]
fn parses_among_comments_and_blank_lines() {
    let text = "# Snowman Config\n#\n# a comment\n\n  apikey =\t\"tok-9\"  \nother = \"x\"\n";
    let c = parse_credential(text).expect("valid file");
    assert_eq!(c.apikey, "tok-9");
}

#[test]
fn first_assignment_wins() {
    let text = "apikey = \"one\"\napikey = \"two\"\n";
    let c = parse_credential(text).expect("valid file");
    assert_eq!(c.apikey, "one");
}

#[test]
fn rejects_missing_key() {
    assert!(parse_credential("").is_none());
    assert!(parse_credential("# only a comment\n").is_none());
    assert!(parse_credential("token = \"x\"\n").is_none());
}

#[test]
fn rejects_malformed_assignments() {
    // unquoted value
    assert!(parse_credential("apikey = tok").is_none());
    // unterminated quote
    assert!(parse_credential("apikey = \"tok").is_none());
    // mismatched quotes
    assert!(parse_credential("apikey = \"tok'").is_none());
    // empty value between the quotes still needs both quotes
    assert!(parse_credential("apikey = \"").is_none());
    // a longer key must not match
    assert!(parse_credential("apikeys = \"tok\"").is_none());
    // the template's dangling assignment
    assert!(parse_credential("apikey =\n").is_none());
}

#[test]
fn accepts_empty_value() {
    let c = parse_credential("apikey = \"\"").expect("empty value is still quoted");
    assert_eq!(c.apikey, "");
}

#[test]
fn resolves_configuration_directory() {
    assert_eq!(
        config_directory(Some("/xdg".to_string()), Some("/home/me".to_string())),
        Some("/xdg/snowman".to_string())
    );
    assert_eq!(
        config_directory(None, Some("/home/me".to_string())),
        Some("/home/me/.config/snowman".to_string())
    );
    assert_eq!(config_directory(None, None), None);
    assert_eq!(
        config_file_path("/home/me/.config/snowman"),
        "/home/me/.config/snowman/snowman.toml"
    );
}
