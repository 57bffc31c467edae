use snowman::json::decode_environment_detail;
use snowman::json::decode_environment_digests;
use snowman::json::decode_workspaces;

#[test]
fn decodes_workspace_listing() {
    let body = r#"{"workspaces":[
        {"id":"w1","name":"Team A","type":"personal","visibility":"private"},
        {"id":"w2","name":"Team B","type":"team","visibility":"public"}
    ]}"#;
    let resp = decode_workspaces(body).expect("well-formed listing");
    assert_eq!(resp.workspaces.len(), 2);
    assert_eq!(resp.workspaces[0].id, "w1");
    assert_eq!(resp.workspaces[0].name, "Team A");
    assert_eq!(resp.workspaces[0].type_field, "personal");
    assert_eq!(resp.workspaces[0].visibility, "private");
    assert_eq!(resp.workspaces[1].id, "w2");
}

#[test]
fn workspace_listing_tolerates_unknown_members() {
    let body = r#"{"workspaces":[
        {"id":"w1","name":"Team A","type":"personal","visibility":"private","extra":42}
    ],"meta":{"page":1}}"#;
    let resp = decode_workspaces(body).expect("unknown members are ignored");
    assert_eq!(resp.workspaces.len(), 1);
}

#[test]
fn malformed_json_fails_to_decode() {
    assert!(decode_workspaces("not json at all").is_none());
    assert!(decode_workspaces("{\"workspaces\":").is_none());
    assert!(decode_workspaces("").is_none());
}

#[test]
fn missing_member_fails_to_decode() {
    // no `workspaces` member
    assert!(decode_workspaces(r#"{"spaces":[]}"#).is_none());
    // an element without `visibility`
    let body = r#"{"workspaces":[{"id":"w1","name":"A","type":"personal"}]}"#;
    assert!(decode_workspaces(body).is_none());
}

#[test]
fn wrongly_typed_member_fails_to_decode() {
    // `id` must be a string, not a number
    let body = r#"{"workspaces":[{"id":7,"name":"A","type":"t","visibility":"v"}]}"#;
    assert!(decode_workspaces(body).is_none());
    // `workspaces` must be an array
    assert!(decode_workspaces(r#"{"workspaces":{"id":"w1"}}"#).is_none());
}

#[test]
fn decodes_environment_listing() {
    let body = r#"{"environments":[
        {"id":"e1","name":"Prod","createdAt":"2021-01-01","updatedAt":"2021-06-01",
         "owner":"me","uid":"me-e1","isPublic":false}
    ]}"#;
    let resp = decode_environment_digests(body).expect("well-formed listing");
    assert_eq!(resp.environments.len(), 1);
    assert_eq!(resp.environments[0].id, "e1");
    assert_eq!(resp.environments[0].name, "Prod");
    assert_eq!(resp.environments[0].created_at, "2021-01-01");
    assert_eq!(resp.environments[0].updated_at, "2021-06-01");
    assert_eq!(resp.environments[0].owner, "me");
    assert_eq!(resp.environments[0].uid, "me-e1");
    assert!(!resp.environments[0].is_public);
}

#[test]
fn environment_listing_needs_camel_case_keys() {
    // snake_case timestamps do not match the wire format
    let body = r#"{"environments":[
        {"id":"e1","name":"Prod","created_at":"x","updated_at":"y",
         "owner":"me","uid":"u","isPublic":false}
    ]}"#;
    assert!(decode_environment_digests(body).is_none());
}

#[test]
fn decodes_environment_detail() {
    let body = r#"{"environment":{
        "id":"e1","name":"Prod","owner":"me","createdAt":"x","updatedAt":"y","isPublic":true,
        "values":[
            {"key":"HOST","value":"api.example.com","enabled":true,"type":"default"},
            {"key":"TOKEN","value":"s3cr3t","enabled":false,"type":"secret"}
        ]}}"#;
    let resp = decode_environment_detail(body).expect("well-formed detail");
    let env = resp.environment;
    assert_eq!(env.id, "e1");
    assert_eq!(env.name, "Prod");
    assert!(env.is_public);
    assert_eq!(env.values.len(), 2);
    assert_eq!(env.values[0].key, "HOST");
    assert_eq!(env.values[0].value, "api.example.com");
    assert!(env.values[0].enabled);
    assert_eq!(env.values[0].type_field, "default");
    assert_eq!(env.values[1].key, "TOKEN");
    assert!(!env.values[1].enabled);
    assert_eq!(env.values[1].type_field, "secret");
}

#[test]
fn environment_detail_needs_every_variable_member() {
    let body = r#"{"environment":{
        "id":"e1","name":"Prod","owner":"me","createdAt":"x","updatedAt":"y","isPublic":true,
        "values":[{"key":"HOST","value":"api.example.com"}]}}"#;
    assert!(decode_environment_detail(body).is_none());
}
