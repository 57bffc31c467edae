//! The activation orchestrator: a strictly linear state machine that
//! sequences configuration resolution, the three remote read calls, the two
//! interactive selections and the materialization.
//!
//! The machine itself is pure and verified: [`step`] takes the current phase
//! and the outcome of the last outside action as an event, and returns the
//! next phase together with the next action, exactly as the transition
//! function [`next`] prescribes on the models. The unverified binary performs
//! the actions (reading the configuration file, issuing the HTTP calls,
//! prompting) and feeds their outcomes back. Every failure goes straight to
//! the terminal failure phase, which accepts no further event.

use vstd::prelude::*;

use crate::config::credential_of;
use crate::json::decode_environment_detail;
use crate::json::decode_environment_digests;
use crate::json::decode_workspaces;
use crate::json::digests_of_body;
use crate::json::environment_of_body;
use crate::json::workspaces_of_body;
use crate::materialize::activation_map;
use crate::materialize::distinct_keys;
use crate::materialize::lemma_activation_map_card;
use crate::materialize::materialize;
use crate::materialize::ActivationResult;
use crate::model::digest_views;
use crate::model::string_views;
use crate::model::workspace_views;
use crate::model::ActivationError;
use crate::model::Credential;
use crate::model::Environment;
use crate::model::EnvironmentDigest;
use crate::model::EnvironmentDigestModel;
use crate::model::EnvironmentModel;
use crate::model::ErrorModel;
use crate::model::Workspace;
use crate::model::WorkspaceModel;
use vstd::string::StringExecFns;

verus! {

/// One of the three read calls against the remote service.
pub enum ApiCall {
    ListWorkspaces,
    ListEnvironments { workspace_id: String },
    FetchEnvironment { environment_id: String },
}

/// Mathematical model of an [`ApiCall`].
pub enum ApiCallModel {
    ListWorkspaces,
    ListEnvironments { workspace_id: Seq<char> },
    FetchEnvironment { environment_id: Seq<char> },
}

impl View for ApiCall {
    type V = ApiCallModel;

    open spec fn view(&self) -> ApiCallModel {
        match self {
            ApiCall::ListWorkspaces => ApiCallModel::ListWorkspaces,
            ApiCall::ListEnvironments { workspace_id } => ApiCallModel::ListEnvironments {
                workspace_id: workspace_id@,
            },
            ApiCall::FetchEnvironment { environment_id } => ApiCallModel::FetchEnvironment {
                environment_id: environment_id@,
            },
        }
    }
}

/// What the orchestrator asks the outside world to do next.
pub enum Action {
    /// Read the local configuration file's text.
    LoadConfig,
    /// Issue a read call with the credential attached.
    Call { credential: Credential, call: ApiCall },
    /// Present an interactive selection over the listed items.
    Prompt { prompt: String, items: Vec<String> },
}

/// Mathematical model of an [`Action`].
pub enum ActionModel {
    LoadConfig,
    Call { credential: Seq<char>, call: ApiCallModel },
    Prompt { prompt: Seq<char>, items: Seq<Seq<char>> },
}

impl View for Action {
    type V = ActionModel;

    open spec fn view(&self) -> ActionModel {
        match self {
            Action::LoadConfig => ActionModel::LoadConfig,
            Action::Call { credential, call } => ActionModel::Call {
                credential: credential@,
                call: call@,
            },
            Action::Prompt { prompt, items } => ActionModel::Prompt {
                prompt: prompt@,
                items: string_views(items@),
            },
        }
    }
}

/// The model of an optional action.
pub open spec fn action_view(a: Option<Action>) -> Option<ActionModel> {
    match a {
        Some(x) => Some(x@),
        None => None,
    }
}

/// The outcome of the last outside action, fed back into the machine.
pub enum Event {
    /// The configuration file's text, or nothing when the file is absent or
    /// unreadable.
    ConfigText { text: Option<String> },
    /// A remote call's HTTP status and raw response body.
    Response { status: u16, body: String },
    /// The confirmed selection index, or nothing when the user cancelled.
    Choice { index: Option<usize> },
    /// Nothing happened outside: the machine may take its internal step.
    Proceed,
}

/// Mathematical model of an [`Event`].
pub enum EventModel {
    ConfigText { text: Option<Seq<char>> },
    Response { status: u16, body: Seq<char> },
    Choice { index: Option<usize> },
    Proceed,
}

impl View for Event {
    type V = EventModel;

    open spec fn view(&self) -> EventModel {
        match self {
            Event::ConfigText { text } => EventModel::ConfigText {
                text: match text {
                    Some(s) => Some(s@),
                    None => None,
                },
            },
            Event::Response { status, body } => EventModel::Response {
                status: *status,
                body: body@,
            },
            Event::Choice { index } => EventModel::Choice { index: *index },
            Event::Proceed => EventModel::Proceed,
        }
    }
}

/// Where an activation run stands. The flow is strictly linear; the two
/// terminal phases accept no further event.
pub enum Phase {
    ResolveConfig,
    FetchWorkspaces { credential: Credential },
    SelectWorkspace { credential: Credential, workspaces: Vec<Workspace> },
    FetchEnvironments { credential: Credential, workspace_id: String },
    SelectEnvironment { credential: Credential, environments: Vec<EnvironmentDigest> },
    FetchEnvironmentDetail { credential: Credential, environment_id: String },
    Materialize { environment: Environment },
    Done { result: ActivationResult },
    Failed { error: ActivationError },
}

/// Mathematical model of a [`Phase`].
pub enum PhaseModel {
    ResolveConfig,
    FetchWorkspaces { credential: Seq<char> },
    SelectWorkspace { credential: Seq<char>, workspaces: Seq<WorkspaceModel> },
    FetchEnvironments { credential: Seq<char>, workspace_id: Seq<char> },
    SelectEnvironment { credential: Seq<char>, environments: Seq<EnvironmentDigestModel> },
    FetchEnvironmentDetail { credential: Seq<char>, environment_id: Seq<char> },
    Materialize { environment: EnvironmentModel },
    Done { result: Map<Seq<char>, Seq<char>> },
    Failed { error: ErrorModel },
}

impl View for Phase {
    type V = PhaseModel;

    open spec fn view(&self) -> PhaseModel {
        match self {
            Phase::ResolveConfig => PhaseModel::ResolveConfig,
            Phase::FetchWorkspaces { credential } => PhaseModel::FetchWorkspaces {
                credential: credential@,
            },
            Phase::SelectWorkspace { credential, workspaces } => PhaseModel::SelectWorkspace {
                credential: credential@,
                workspaces: workspace_views(workspaces@),
            },
            Phase::FetchEnvironments { credential, workspace_id } => PhaseModel::FetchEnvironments {
                credential: credential@,
                workspace_id: workspace_id@,
            },
            Phase::SelectEnvironment { credential, environments } => PhaseModel::SelectEnvironment {
                credential: credential@,
                environments: digest_views(environments@),
            },
            Phase::FetchEnvironmentDetail {
                credential,
                environment_id,
            } => PhaseModel::FetchEnvironmentDetail {
                credential: credential@,
                environment_id: environment_id@,
            },
            Phase::Materialize { environment } => PhaseModel::Materialize {
                environment: environment@,
            },
            Phase::Done { result } => PhaseModel::Done { result: result@ },
            Phase::Failed { error } => PhaseModel::Failed { error: error@ },
        }
    }
}

/// A successful HTTP status.
pub open spec fn ok_status(status: u16) -> bool {
    200 <= status < 300
}

/// The names of a workspace listing, in original order.
pub open spec fn workspace_names_spec(ws: Seq<WorkspaceModel>) -> Seq<Seq<char>> {
    ws.map_values(|w: WorkspaceModel| w.name)
}

/// The names of an environment listing, in original order.
pub open spec fn digest_names_spec(ds: Seq<EnvironmentDigestModel>) -> Seq<Seq<char>> {
    ds.map_values(|d: EnvironmentDigestModel| d.name)
}

/// Which kind of event each phase expects; the terminal phases expect none.
pub open spec fn event_fits(p: PhaseModel, e: EventModel) -> bool {
    match p {
        PhaseModel::ResolveConfig => e is ConfigText,
        PhaseModel::FetchWorkspaces { .. } => e is Response,
        PhaseModel::SelectWorkspace { .. } => e is Choice,
        PhaseModel::FetchEnvironments { .. } => e is Response,
        PhaseModel::SelectEnvironment { .. } => e is Choice,
        PhaseModel::FetchEnvironmentDetail { .. } => e is Response,
        PhaseModel::Materialize { .. } => e is Proceed,
        PhaseModel::Done { .. } => false,
        PhaseModel::Failed { .. } => false,
    }
}

/// The transition function of the activation run: what the next phase is and
/// which action is requested, for each phase and event.
pub open spec fn next(p: PhaseModel, e: EventModel) -> (PhaseModel, Option<ActionModel>) {
    match (p, e) {
        (PhaseModel::ResolveConfig, EventModel::ConfigText { text }) => match text {
            None => (PhaseModel::Failed { error: ErrorModel::ConfigMissing }, None),
            Some(t) => match credential_of(t) {
                None => (PhaseModel::Failed { error: ErrorModel::ConfigInvalid }, None),
                Some(k) => (
                    PhaseModel::FetchWorkspaces { credential: k },
                    Some(ActionModel::Call { credential: k, call: ApiCallModel::ListWorkspaces }),
                ),
            },
        },
        (PhaseModel::FetchWorkspaces { credential }, EventModel::Response { status, body }) => if !ok_status(
            status,
        ) {
            (PhaseModel::Failed { error: ErrorModel::Remote { status, body } }, None)
        } else {
            match workspaces_of_body(body) {
                None => (PhaseModel::Failed { error: ErrorModel::Decode }, None),
                Some(ws) => if ws.len() == 0 {
                    (PhaseModel::Failed { error: ErrorModel::NoItemsAvailable }, None)
                } else {
                    (
                        PhaseModel::SelectWorkspace { credential, workspaces: ws },
                        Some(
                            ActionModel::Prompt {
                                prompt: "Pick your workspace"@,
                                items: workspace_names_spec(ws),
                            },
                        ),
                    )
                },
            }
        },
        (
            PhaseModel::SelectWorkspace { credential, workspaces },
            EventModel::Choice { index },
        ) => match index {
            Some(i) => if i < workspaces.len() {
                (
                    PhaseModel::FetchEnvironments {
                        credential,
                        workspace_id: workspaces[i as int].id,
                    },
                    Some(
                        ActionModel::Call {
                            credential,
                            call: ApiCallModel::ListEnvironments {
                                workspace_id: workspaces[i as int].id,
                            },
                        },
                    ),
                )
            } else {
                (PhaseModel::Failed { error: ErrorModel::SelectionAborted }, None)
            },
            None => (PhaseModel::Failed { error: ErrorModel::SelectionAborted }, None),
        },
        (PhaseModel::FetchEnvironments { credential, .. }, EventModel::Response { status, body }) => if !ok_status(
            status,
        ) {
            (PhaseModel::Failed { error: ErrorModel::Remote { status, body } }, None)
        } else {
            match digests_of_body(body) {
                None => (PhaseModel::Failed { error: ErrorModel::Decode }, None),
                Some(ds) => if ds.len() == 0 {
                    (PhaseModel::Failed { error: ErrorModel::NoItemsAvailable }, None)
                } else {
                    (
                        PhaseModel::SelectEnvironment { credential, environments: ds },
                        Some(
                            ActionModel::Prompt {
                                prompt: "Pick your environment"@,
                                items: digest_names_spec(ds),
                            },
                        ),
                    )
                },
            }
        },
        (
            PhaseModel::SelectEnvironment { credential, environments },
            EventModel::Choice { index },
        ) => match index {
            Some(i) => if i < environments.len() {
                (
                    PhaseModel::FetchEnvironmentDetail {
                        credential,
                        environment_id: environments[i as int].id,
                    },
                    Some(
                        ActionModel::Call {
                            credential,
                            call: ApiCallModel::FetchEnvironment {
                                environment_id: environments[i as int].id,
                            },
                        },
                    ),
                )
            } else {
                (PhaseModel::Failed { error: ErrorModel::SelectionAborted }, None)
            },
            None => (PhaseModel::Failed { error: ErrorModel::SelectionAborted }, None),
        },
        (
            PhaseModel::FetchEnvironmentDetail { .. },
            EventModel::Response { status, body },
        ) => if !ok_status(status) {
            (PhaseModel::Failed { error: ErrorModel::Remote { status, body } }, None)
        } else {
            match environment_of_body(body) {
                None => (PhaseModel::Failed { error: ErrorModel::Decode }, None),
                Some(env) => (PhaseModel::Materialize { environment: env }, None),
            }
        },
        (PhaseModel::Materialize { environment }, EventModel::Proceed) => (
            PhaseModel::Done { result: activation_map(environment) },
            None,
        ),
        _ => (p, None),
    }
}

fn workspace_names(ws: &Vec<Workspace>) -> (r: Vec<String>)
    ensures
        string_views(r@) == workspace_names_spec(workspace_views(ws@)),
{
    let mut r: Vec<String> = Vec::new();
    let mut i: usize = 0;
    while i < ws.len()
        invariant
            i <= ws@.len(),
            r@.len() == i,
            forall|j: int| 0 <= j < i ==> #[trigger] r@[j]@ == ws@[j]@.name,
        decreases ws@.len() - i,
    {
        r.push(ws[i].name.clone());
        i += 1;
    }
    proof {
        assert(string_views(r@) =~= workspace_names_spec(workspace_views(ws@)));
    }
    r
}

fn digest_names(ds: &Vec<EnvironmentDigest>) -> (r: Vec<String>)
    ensures
        string_views(r@) == digest_names_spec(digest_views(ds@)),
{
    let mut r: Vec<String> = Vec::new();
    let mut i: usize = 0;
    while i < ds.len()
        invariant
            i <= ds@.len(),
            r@.len() == i,
            forall|j: int| 0 <= j < i ==> #[trigger] r@[j]@ == ds@[j]@.name,
        decreases ds@.len() - i,
    {
        r.push(ds[i].name.clone());
        i += 1;
    }
    proof {
        assert(string_views(r@) =~= digest_names_spec(digest_views(ds@)));
    }
    r
}

/// The activation run's first phase, and the action that starts it.
pub fn initial() -> (r: (Phase, Action))
    ensures
        r.0@ == PhaseModel::ResolveConfig,
        r.1@ == ActionModel::LoadConfig,
{
    (Phase::ResolveConfig, Action::LoadConfig)
}

/// Takes one step of the activation run: from the current phase and the
/// outcome of the last outside action to the next phase and the next
/// requested action, exactly as [`next`] prescribes.
pub fn step(phase: Phase, event: Event) -> (r: (Phase, Option<Action>))
    requires
        event_fits(phase@, event@),
    ensures
        (r.0@, action_view(r.1)) == next(phase@, event@),
{
    match phase {
        Phase::ResolveConfig => match event {
            Event::ConfigText { text } => match text {
                None => (Phase::Failed { error: ActivationError::ConfigMissing }, None),
                Some(t) => match crate::config::parse_credential(t.as_str()) {
                    None => (Phase::Failed { error: ActivationError::ConfigInvalid }, None),
                    Some(credential) => {
                        let copy = Credential { apikey: credential.apikey.clone() };
                        (
                            Phase::FetchWorkspaces { credential },
                            Some(Action::Call { credential: copy, call: ApiCall::ListWorkspaces }),
                        )
                    },
                },
            },
            _ => vstd::pervasive::unreached(),
        },
        Phase::FetchWorkspaces { credential } => match event {
            Event::Response { status, body } => {
                if !(200 <= status && status < 300) {
                    (Phase::Failed { error: ActivationError::RemoteError { status, body } }, None)
                } else {
                    match decode_workspaces(body.as_str()) {
                        None => (Phase::Failed { error: ActivationError::DecodeError }, None),
                        Some(resp) => {
                            if resp.workspaces.len() == 0 {
                                (
                                    Phase::Failed { error: ActivationError::NoItemsAvailable },
                                    None,
                                )
                            } else {
                                let items = workspace_names(&resp.workspaces);
                                let prompt = String::from_str("Pick your workspace");
                                (
                                    Phase::SelectWorkspace {
                                        credential,
                                        workspaces: resp.workspaces,
                                    },
                                    Some(Action::Prompt { prompt, items }),
                                )
                            }
                        },
                    }
                }
            },
            _ => vstd::pervasive::unreached(),
        },
        Phase::SelectWorkspace { credential, workspaces } => match event {
            Event::Choice { index } => match index {
                Some(i) => {
                    if i < workspaces.len() {
                        let workspace_id = workspaces[i].id.clone();
                        let id_copy = workspaces[i].id.clone();
                        let copy = Credential { apikey: credential.apikey.clone() };
                        (
                            Phase::FetchEnvironments { credential, workspace_id },
                            Some(
                                Action::Call {
                                    credential: copy,
                                    call: ApiCall::ListEnvironments { workspace_id: id_copy },
                                },
                            ),
                        )
                    } else {
                        (Phase::Failed { error: ActivationError::SelectionAborted }, None)
                    }
                },
                None => (Phase::Failed { error: ActivationError::SelectionAborted }, None),
            },
            _ => vstd::pervasive::unreached(),
        },
        Phase::FetchEnvironments { credential, workspace_id: _ } => match event {
            Event::Response { status, body } => {
                if !(200 <= status && status < 300) {
                    (Phase::Failed { error: ActivationError::RemoteError { status, body } }, None)
                } else {
                    match decode_environment_digests(body.as_str()) {
                        None => (Phase::Failed { error: ActivationError::DecodeError }, None),
                        Some(resp) => {
                            if resp.environments.len() == 0 {
                                (
                                    Phase::Failed { error: ActivationError::NoItemsAvailable },
                                    None,
                                )
                            } else {
                                let items = digest_names(&resp.environments);
                                let prompt = String::from_str("Pick your environment");
                                (
                                    Phase::SelectEnvironment {
                                        credential,
                                        environments: resp.environments,
                                    },
                                    Some(Action::Prompt { prompt, items }),
                                )
                            }
                        },
                    }
                }
            },
            _ => vstd::pervasive::unreached(),
        },
        Phase::SelectEnvironment { credential, environments } => match event {
            Event::Choice { index } => match index {
                Some(i) => {
                    if i < environments.len() {
                        let environment_id = environments[i].id.clone();
                        let id_copy = environments[i].id.clone();
                        let copy = Credential { apikey: credential.apikey.clone() };
                        (
                            Phase::FetchEnvironmentDetail { credential, environment_id },
                            Some(
                                Action::Call {
                                    credential: copy,
                                    call: ApiCall::FetchEnvironment { environment_id: id_copy },
                                },
                            ),
                        )
                    } else {
                        (Phase::Failed { error: ActivationError::SelectionAborted }, None)
                    }
                },
                None => (Phase::Failed { error: ActivationError::SelectionAborted }, None),
            },
            _ => vstd::pervasive::unreached(),
        },
        Phase::FetchEnvironmentDetail { credential: _, environment_id: _ } => match event {
            Event::Response { status, body } => {
                if !(200 <= status && status < 300) {
                    (Phase::Failed { error: ActivationError::RemoteError { status, body } }, None)
                } else {
                    match decode_environment_detail(body.as_str()) {
                        None => (Phase::Failed { error: ActivationError::DecodeError }, None),
                        Some(resp) => (Phase::Materialize { environment: resp.environment }, None),
                    }
                }
            },
            _ => vstd::pervasive::unreached(),
        },
        Phase::Materialize { environment } => match event {
            Event::Proceed => {
                let result = materialize(&environment);
                (Phase::Done { result }, None)
            },
            _ => vstd::pervasive::unreached(),
        },
        Phase::Done { .. } => vstd::pervasive::unreached(),
        Phase::Failed { .. } => vstd::pervasive::unreached(),
    }
}

/// The name of the authentication header that carries the credential on
/// every remote call: a fixed protocol constant.
pub fn auth_header_name() -> (r: &'static str)
    ensures
        r@ == "X-Api-Key"@,
{
    "X-Api-Key"
}

/// The URL an API call goes to, on the fixed service host. The workspace
/// scope of the environment listing travels as a query parameter and is not
/// part of this URL.
pub open spec fn api_url_spec(c: ApiCallModel) -> Seq<char> {
    match c {
        ApiCallModel::ListWorkspaces => "https://api.getpostman.com/workspaces"@,
        ApiCallModel::ListEnvironments { .. } => "https://api.getpostman.com/environments"@,
        ApiCallModel::FetchEnvironment { environment_id } => "https://api.getpostman.com/environments/"@
            + environment_id,
    }
}

/// Builds the URL of an API call.
pub fn api_url(call: &ApiCall) -> (r: String)
    ensures
        r@ == api_url_spec(call@),
{
    match call {
        ApiCall::ListWorkspaces => String::from_str("https://api.getpostman.com/workspaces"),
        ApiCall::ListEnvironments { workspace_id: _ } => String::from_str(
            "https://api.getpostman.com/environments",
        ),
        ApiCall::FetchEnvironment { environment_id } => {
            let mut r = String::from_str("https://api.getpostman.com/environments/");
            r.append(environment_id.as_str());
            r
        },
    }
}

/// The phase a run of events leads to, stepping through [`next`].
pub open spec fn run(p: PhaseModel, events: Seq<EventModel>) -> PhaseModel
    decreases events.len(),
{
    if events.len() == 0 {
        p
    } else {
        run(next(p, events[0]).0, events.skip(1))
    }
}

/// The events of one full activation run: the configuration text, the three
/// responses, the two selections, and the internal materialization step.
pub open spec fn activation_events(
    text: Seq<char>,
    s1: u16,
    b1: Seq<char>,
    i: usize,
    s2: u16,
    b2: Seq<char>,
    j: usize,
    s3: u16,
    b3: Seq<char>,
) -> Seq<EventModel> {
    seq![
        EventModel::ConfigText { text: Some(text) },
        EventModel::Response { status: s1, body: b1 },
        EventModel::Choice { index: Some(i) },
        EventModel::Response { status: s2, body: b2 },
        EventModel::Choice { index: Some(j) },
        EventModel::Response { status: s3, body: b3 },
        EventModel::Proceed,
    ]
}

/// Law: with a resolvable credential, well-formed responses on successful
/// statuses and in-range selections, the run reaches its terminal success
/// phase carrying the activation mapping; with pairwise distinct variable
/// keys that mapping holds exactly one entry per variable plus the reserved
/// name entry.
pub proof fn lemma_activation_completes(
    text: Seq<char>,
    s1: u16,
    b1: Seq<char>,
    i: usize,
    s2: u16,
    b2: Seq<char>,
    j: usize,
    s3: u16,
    b3: Seq<char>,
    ws: Seq<WorkspaceModel>,
    ds: Seq<EnvironmentDigestModel>,
    env: EnvironmentModel,
)
    requires
        credential_of(text) is Some,
        ok_status(s1),
        workspaces_of_body(b1) == Some(ws),
        0 < ws.len(),
        (i as int) < ws.len(),
        ok_status(s2),
        digests_of_body(b2) == Some(ds),
        0 < ds.len(),
        (j as int) < ds.len(),
        ok_status(s3),
        environment_of_body(b3) == Some(env),
        distinct_keys(env.values),
    ensures
        run(PhaseModel::ResolveConfig, activation_events(text, s1, b1, i, s2, b2, j, s3, b3))
            == (PhaseModel::Done { result: activation_map(env) }),
        activation_map(env).dom().len() == env.values.len() + 1,
{
    let ev = activation_events(text, s1, b1, i, s2, b2, j, s3, b3);
    let k = credential_of(text)->0;
    let p0 = PhaseModel::ResolveConfig;
    let p1 = PhaseModel::FetchWorkspaces { credential: k };
    let p2 = PhaseModel::SelectWorkspace { credential: k, workspaces: ws };
    let p3 = PhaseModel::FetchEnvironments { credential: k, workspace_id: ws[i as int].id };
    let p4 = PhaseModel::SelectEnvironment { credential: k, environments: ds };
    let p5 = PhaseModel::FetchEnvironmentDetail {
        credential: k,
        environment_id: ds[j as int].id,
    };
    let p6 = PhaseModel::Materialize { environment: env };
    let p7 = PhaseModel::Done { result: activation_map(env) };
    let t1 = ev.skip(1);
    let t2 = t1.skip(1);
    let t3 = t2.skip(1);
    let t4 = t3.skip(1);
    let t5 = t4.skip(1);
    let t6 = t5.skip(1);
    let t7 = t6.skip(1);
    assert(next(p0, ev[0]).0 == p1);
    assert(next(p1, t1[0]).0 == p2);
    assert(next(p2, t2[0]).0 == p3);
    assert(next(p3, t3[0]).0 == p4);
    assert(next(p4, t4[0]).0 == p5);
    assert(next(p5, t5[0]).0 == p6);
    assert(next(p6, t6[0]).0 == p7);
    assert(t7.len() == 0);
    assert(run(p0, ev) == run(p1, t1));
    assert(run(p1, t1) == run(p2, t2));
    assert(run(p2, t2) == run(p3, t3));
    assert(run(p3, t3) == run(p4, t4));
    assert(run(p4, t4) == run(p5, t5));
    assert(run(p5, t5) == run(p6, t6));
    assert(run(p6, t6) == run(p7, t7));
    assert(run(p7, t7) == p7);
    lemma_activation_map_card(env);
}

/// Law: listing is read-only and deterministic — processing the same
/// response in the same listing phase twice yields the same next phase and
/// the same prompt, so two identical listing calls against an unchanged
/// remote state present identical ordered choices.
pub proof fn lemma_listing_idempotent(p: PhaseModel, e1: EventModel, e2: EventModel)
    requires
        p is FetchWorkspaces || p is FetchEnvironments,
        e1 == e2,
    ensures
        next(p, e1) == next(p, e2),
{
}

/// Law: an empty workspace listing fails with NoItemsAvailable before any
/// prompt is emitted.
pub proof fn lemma_empty_workspaces_no_prompt(credential: Seq<char>, status: u16, body: Seq<char>)
    requires
        ok_status(status),
        workspaces_of_body(body) == Some(Seq::<WorkspaceModel>::empty()),
    ensures
        next(PhaseModel::FetchWorkspaces { credential }, EventModel::Response { status, body })
            == (
            PhaseModel::Failed { error: ErrorModel::NoItemsAvailable },
            None::<ActionModel>,
        ),
{
}

/// Law: an empty environment listing fails with NoItemsAvailable before any
/// prompt is emitted.
pub proof fn lemma_empty_environments_no_prompt(
    credential: Seq<char>,
    workspace_id: Seq<char>,
    status: u16,
    body: Seq<char>,
)
    requires
        ok_status(status),
        digests_of_body(body) == Some(Seq::<EnvironmentDigestModel>::empty()),
    ensures
        next(
            PhaseModel::FetchEnvironments { credential, workspace_id },
            EventModel::Response { status, body },
        ) == (PhaseModel::Failed { error: ErrorModel::NoItemsAvailable }, None::<ActionModel>),
{
}

/// Law: a failed status on the environment-detail call aborts with the
/// originating status and requests nothing further, so no materialization
/// and no subshell follow.
pub proof fn lemma_remote_error_aborts(
    credential: Seq<char>,
    environment_id: Seq<char>,
    status: u16,
    body: Seq<char>,
)
    requires
        !ok_status(status),
    ensures
        next(
            PhaseModel::FetchEnvironmentDetail { credential, environment_id },
            EventModel::Response { status, body },
        ) == (
            PhaseModel::Failed { error: ErrorModel::Remote { status, body } },
            None::<ActionModel>,
        ),
{
}

/// Law: a workspace listing that does not decode aborts the run — with the
/// decode error on a successful status, with the remote error otherwise —
/// and no prompt is ever emitted.
pub proof fn lemma_malformed_workspaces_no_prompt(
    credential: Seq<char>,
    status: u16,
    body: Seq<char>,
)
    requires
        workspaces_of_body(body) is None,
    ensures
        next(PhaseModel::FetchWorkspaces { credential }, EventModel::Response { status, body }).0
            is Failed,
        next(
            PhaseModel::FetchWorkspaces { credential },
            EventModel::Response { status, body },
        ).1 is None,
{
}

} // verus!
