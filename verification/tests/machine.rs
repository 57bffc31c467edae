use snowman::model::ActivationError;
use snowman::orchestrate::api_url;
use snowman::orchestrate::auth_header_name;
use snowman::model::Credential;
use snowman::orchestrate::initial;
use snowman::orchestrate::step;
use snowman::orchestrate::Action;
use snowman::orchestrate::ApiCall;
use snowman::orchestrate::Event;
use snowman::orchestrate::Phase;

fn cred(s: &str) -> Credential {
    Credential { apikey: s.to_string() }
}

fn ok_response(body: &str) -> Event {
    Event::Response { status: 200, body: body.to_string() }
}

/// A full successful run: one workspace, one environment, one variable.
#[test]
fn full_activation_run() {
    let (phase, action) = initial();
    assert!(matches!(phase, Phase::ResolveConfig));
    assert!(matches!(action, Action::LoadConfig));

    let (phase, action) = step(
        phase,
        Event::ConfigText { text: Some("apikey = \"tok-1\"".to_string()) },
    );
    assert!(matches!(&phase, Phase::FetchWorkspaces { credential } if credential.apikey == "tok-1"));
    match &action {
        Some(Action::Call { credential, call }) => {
            assert_eq!(credential.apikey, "tok-1");
            assert!(matches!(call, ApiCall::ListWorkspaces));
        },
        other => panic!("expected the workspace-listing call, got {:?}", other.is_none()),
    }

    let body = r#"{"workspaces":[{"id":"w1","name":"Team A","type":"personal","visibility":"private"}]}"#;
    let (phase, action) = step(phase, ok_response(body));
    assert!(matches!(&phase, Phase::SelectWorkspace { workspaces, .. } if workspaces.len() == 1));
    match &action {
        Some(Action::Prompt { prompt, items }) => {
            assert_eq!(prompt, "Pick your workspace");
            assert_eq!(items, &vec!["Team A".to_string()]);
        },
        _ => panic!("expected the workspace prompt"),
    }

    let (phase, action) = step(phase, Event::Choice { index: Some(0) });
    assert!(matches!(&phase, Phase::FetchEnvironments { workspace_id, .. } if workspace_id == "w1"));
    match &action {
        Some(Action::Call { call: ApiCall::ListEnvironments { workspace_id }, .. }) => {
            assert_eq!(workspace_id, "w1");
        },
        _ => panic!("expected the environment-listing call"),
    }

    let body = r#"{"environments":[{"id":"e1","name":"Prod","createdAt":"c","updatedAt":"u","owner":"o","uid":"x","isPublic":false}]}"#;
    let (phase, action) = step(phase, ok_response(body));
    assert!(matches!(&phase, Phase::SelectEnvironment { environments, .. } if environments.len() == 1));
    match &action {
        Some(Action::Prompt { prompt, items }) => {
            assert_eq!(prompt, "Pick your environment");
            assert_eq!(items, &vec!["Prod".to_string()]);
        },
        _ => panic!("expected the environment prompt"),
    }

    let (phase, action) = step(phase, Event::Choice { index: Some(0) });
    assert!(
        matches!(&phase, Phase::FetchEnvironmentDetail { environment_id, .. } if environment_id == "e1")
    );
    assert!(matches!(
        &action,
        Some(Action::Call { call: ApiCall::FetchEnvironment { .. }, .. })
    ));

    let body = r#"{"environment":{"id":"e1","name":"Prod","owner":"o","createdAt":"c","updatedAt":"u","isPublic":true,
        "values":[{"key":"HOST","value":"api.example.com","enabled":true,"type":"default"}]}}"#;
    let (phase, action) = step(phase, ok_response(body));
    assert!(matches!(&phase, Phase::Materialize { environment } if environment.name == "Prod"));
    assert!(action.is_none());

    let (phase, action) = step(phase, Event::Proceed);
    assert!(action.is_none());
    match phase {
        Phase::Done { result } => {
            let mut entries = result.entries.clone();
            entries.sort();
            assert_eq!(
                entries,
                vec![
                    (
                        "SNOWMAN_HOST".to_string(),
                        "api.example.com".to_string()
                    ),
                    (
                        "_SNOWMAN_ENVIRONMENT_NAME".to_string(),
                        "Prod".to_string()
                    ),
                ]
            );
        },
        _ => panic!("expected the run to finish"),
    }
}

/// A failed status on the environment-detail call aborts the run with the
/// originating status, and nothing further is requested.
#[test]
fn unauthorized_detail_aborts() {
    let phase = Phase::FetchEnvironmentDetail {
        credential: cred("tok-1"),
        environment_id: "e1".to_string(),
    };
    let (phase, action) = step(
        phase,
        Event::Response { status: 401, body: "unauthorized".to_string() },
    );
    assert!(action.is_none());
    match phase {
        Phase::Failed { error: ActivationError::RemoteError { status, body } } => {
            assert_eq!(status, 401);
            assert_eq!(body, "unauthorized");
        },
        _ => panic!("expected the remote error"),
    }
}

/// A workspace listing that is not JSON aborts with the decode error and no
/// prompt is emitted.
#[test]
fn malformed_workspaces_abort() {
    let phase = Phase::FetchWorkspaces { credential: cred("tok-1") };
    let (phase, action) = step(phase, ok_response("this is not json"));
    assert!(action.is_none());
    assert!(matches!(phase, Phase::Failed { error: ActivationError::DecodeError }));
}

/// An empty workspace listing aborts before any prompt is shown.
#[test]
fn empty_workspaces_abort() {
    let phase = Phase::FetchWorkspaces { credential: cred("tok-1") };
    let (phase, action) = step(phase, ok_response(r#"{"workspaces":[]}"#));
    assert!(action.is_none());
    assert!(matches!(phase, Phase::Failed { error: ActivationError::NoItemsAvailable }));
}

/// An empty environment listing aborts the same way.
#[test]
fn empty_environments_abort() {
    let phase = Phase::FetchEnvironments {
        credential: cred("tok-1"),
        workspace_id: "w1".to_string(),
    };
    let (phase, action) = step(phase, ok_response(r#"{"environments":[]}"#));
    assert!(action.is_none());
    assert!(matches!(phase, Phase::Failed { error: ActivationError::NoItemsAvailable }));
}

/// A cancelled or out-of-range selection aborts the run.
#[test]
fn cancelled_selection_aborts() {
    let ws = snowman::model::Workspace {
        id: "w1".to_string(),
        name: "Team A".to_string(),
        type_field: "personal".to_string(),
        visibility: "private".to_string(),
    };
    let phase = Phase::SelectWorkspace { credential: cred("t"), workspaces: vec![ws.clone()] };
    let (phase2, action) = step(phase, Event::Choice { index: None });
    assert!(action.is_none());
    assert!(matches!(phase2, Phase::Failed { error: ActivationError::SelectionAborted }));

    let phase = Phase::SelectWorkspace { credential: cred("t"), workspaces: vec![ws] };
    let (phase3, action) = step(phase, Event::Choice { index: Some(5) });
    assert!(action.is_none());
    assert!(matches!(phase3, Phase::Failed { error: ActivationError::SelectionAborted }));
}

/// A missing configuration file aborts with ConfigMissing, an unparsable one
/// with ConfigInvalid.
#[test]
fn config_failures_abort() {
    let (phase, _) = initial();
    let (phase, action) = step(phase, Event::ConfigText { text: None });
    assert!(action.is_none());
    assert!(matches!(phase, Phase::Failed { error: ActivationError::ConfigMissing }));

    let (phase, _) = initial();
    let (phase, action) = step(
        phase,
        Event::ConfigText { text: Some("# nothing here".to_string()) },
    );
    assert!(action.is_none());
    assert!(matches!(phase, Phase::Failed { error: ActivationError::ConfigInvalid }));
}

/// The URLs of the three calls, and the authentication header's name.
#[test]
fn api_urls() {
    assert_eq!(auth_header_name(), "X-Api-Key");
    assert_eq!(
        api_url(&ApiCall::ListWorkspaces),
        "https://api.getpostman.com/workspaces"
    );
    assert_eq!(
        api_url(&ApiCall::ListEnvironments { workspace_id: "w1".to_string() }),
        "https://api.getpostman.com/environments"
    );
    assert_eq!(
        api_url(&ApiCall::FetchEnvironment { environment_id: "e9".to_string() }),
        "https://api.getpostman.com/environments/e9"
    );
}

/// Processing the same listing response twice yields the same ordered
/// choices: listing mutates nothing.
#[test]
fn listing_is_idempotent() {
    let body = r#"{"workspaces":[
        {"id":"w1","name":"Team A","type":"personal","visibility":"private"},
        {"id":"w2","name":"Team B","type":"team","visibility":"public"}
    ]}"#;
    let run_once = || {
        let phase = Phase::FetchWorkspaces { credential: cred("tok-1") };
        match step(phase, ok_response(body)) {
            (Phase::SelectWorkspace { workspaces, .. }, Some(Action::Prompt { items, .. })) => {
                (workspaces, items)
            },
            _ => panic!("expected the workspace prompt"),
        }
    };
    let (ws1, items1) = run_once();
    let (ws2, items2) = run_once();
    assert_eq!(ws1, ws2);
    assert_eq!(items1, items2);
}
