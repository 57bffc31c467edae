use snowman::audit::audit_lines;
use snowman::audit::lex_le_exec;
use snowman::audit::sorted_entries;
use snowman::materialize::materialize;
use snowman::model::Environment;
use snowman::model::Variable;

fn var(key: &str, value: &str, enabled: bool, tag: &str) -> Variable {
    Variable {
        key: key.to_string(),
        value: value.to_string(),
        enabled,
        type_field: tag.to_string(),
    }
}

fn env(name: &str, values: Vec<Variable>) -> Environment {
    Environment {
        id: "e1".to_string(),
        name: name.to_string(),
        owner: "me".to_string(),
        created_at: "c".to_string(),
        updated_at: "u".to_string(),
        values,
        is_public: false,
    }
}

/// One entry per variable plus the reserved name entry.
#[test]
fn one_entry_per_variable() {
    let e = env("Prod", vec![
        var("HOST", "api.example.com", true, "default"),
        var("PORT", "443", false, "default"),
    ]);
    let r = materialize(&e);
    assert_eq!(r.entries.len(), 3);
    let mut entries = r.entries.clone();
    entries.sort();
    assert_eq!(entries, vec![
        ("SNOWMAN_HOST".to_string(), "api.example.com".to_string()),
        ("SNOWMAN_PORT".to_string(), "443".to_string()),
        ("_SNOWMAN_ENVIRONMENT_NAME".to_string(), "Prod".to_string()),
    ]);
}

/// Disabled variables are exported all the same: no filtering happens.
#[test]
fn disabled_variables_are_exported() {
    let e = env("Prod", vec![var("SECRET", "hush", false, "secret")]);
    let r = materialize(&e);
    assert!(r.entries.contains(&("SNOWMAN_SECRET".to_string(), "hush".to_string())));
}

/// A repeated key resolves to one entry holding the last occurrence's value.
#[test]
fn duplicate_keys_last_occurrence_wins() {
    let e = env("Prod", vec![
        var("HOST", "first.example.com", true, "default"),
        var("OTHER", "x", true, "default"),
        var("HOST", "second.example.com", true, "default"),
    ]);
    let r = materialize(&e);
    assert_eq!(r.entries.len(), 3);
    let host: Vec<&(String, String)> =
        r.entries.iter().filter(|e| e.0 == "SNOWMAN_HOST").collect();
    assert_eq!(host.len(), 1);
    assert_eq!(host[0].1, "second.example.com");
}

/// An environment without variables still carries its name entry.
#[test]
fn empty_environment_keeps_name_entry() {
    let e = env("Empty", vec![]);
    let r = materialize(&e);
    assert_eq!(r.entries.len(), 1);
    assert_eq!(r.entries[0], ("_SNOWMAN_ENVIRONMENT_NAME".to_string(), "Empty".to_string()));
}

/// The audit list is sorted by name and renders `name: value` lines.
#[test]
fn audit_list_is_sorted() {
    let e = env("Prod", vec![
        var("ZULU", "z", true, "default"),
        var("ALPHA", "a", true, "default"),
    ]);
    let r = materialize(&e);
    let sorted = sorted_entries(&r);
    let lines = audit_lines(&sorted);
    assert_eq!(lines, vec![
        "SNOWMAN_ALPHA: a".to_string(),
        "SNOWMAN_ZULU: z".to_string(),
        "_SNOWMAN_ENVIRONMENT_NAME: Prod".to_string(),
    ]);
}

/// The string order behind the audit sort.
#[test]
fn lexicographic_order() {
    assert!(lex_le_exec("", "a"));
    assert!(lex_le_exec("a", "a"));
    assert!(lex_le_exec("a", "ab"));
    assert!(!lex_le_exec("ab", "a"));
    assert!(lex_le_exec("SNOWMAN_A", "_SNOWMAN_ENVIRONMENT_NAME"));
    assert!(!lex_le_exec("b", "a"));
}
