//! Data model of the remote environment-management service, together with the
//! mathematical models (`...Model` types) that the contracts speak of.

use vstd::prelude::*;

verus! {

/// The opaque authentication token read from the local configuration file.
/// It is attached to every remote call as an authentication header.
#[derive(Clone, Debug)]
pub struct Credential {
    pub apikey: String,
}

impl View for Credential {
    type V = Seq<char>;

    open spec fn view(&self) -> Seq<char> {
        self.apikey@
    }
}

/// One key-value entry of an environment: a key, a raw value, an enabled flag
/// and a free-form type tag. The flag and the tag are carried through without
/// being interpreted.
#[derive(Clone, Debug, PartialEq)]
pub struct Variable {
    pub key: String,
    pub value: String,
    pub enabled: bool,
    pub type_field: String,
}

/// Mathematical model of a [`Variable`].
pub struct VariableModel {
    pub key: Seq<char>,
    pub value: Seq<char>,
    pub enabled: bool,
    pub type_field: Seq<char>,
}

impl View for Variable {
    type V = VariableModel;

    open spec fn view(&self) -> VariableModel {
        VariableModel {
            key: self.key@,
            value: self.value@,
            enabled: self.enabled,
            type_field: self.type_field@,
        }
    }
}

/// A full environment record: identity, display name, ownership and
/// timestamps, the ordered list of its variables, and a visibility flag.
#[derive(Clone, Debug, PartialEq)]
pub struct Environment {
    pub id: String,
    pub name: String,
    pub owner: String,
    pub created_at: String,
    pub updated_at: String,
    pub values: Vec<Variable>,
    pub is_public: bool,
}

/// Mathematical model of an [`Environment`].
pub struct EnvironmentModel {
    pub id: Seq<char>,
    pub name: Seq<char>,
    pub owner: Seq<char>,
    pub created_at: Seq<char>,
    pub updated_at: Seq<char>,
    pub values: Seq<VariableModel>,
    pub is_public: bool,
}

/// The models of a variable list, element by element.
pub open spec fn variable_views(vs: Seq<Variable>) -> Seq<VariableModel> {
    vs.map_values(|v: Variable| v@)
}

impl View for Environment {
    type V = EnvironmentModel;

    open spec fn view(&self) -> EnvironmentModel {
        EnvironmentModel {
            id: self.id@,
            name: self.name@,
            owner: self.owner@,
            created_at: self.created_at@,
            updated_at: self.updated_at@,
            values: variable_views(self.values@),
            is_public: self.is_public,
        }
    }
}

/// The response envelope of the environment-detail endpoint.
#[derive(Clone, Debug, PartialEq)]
pub struct EnvironmentResponse {
    pub environment: Environment,
}

impl View for EnvironmentResponse {
    type V = EnvironmentModel;

    open spec fn view(&self) -> EnvironmentModel {
        self.environment@
    }
}

/// A lightweight listing entry for an environment, used only for selection;
/// it carries no variable values.
#[derive(Clone, Debug, PartialEq)]
pub struct EnvironmentDigest {
    pub id: String,
    pub name: String,
    pub created_at: String,
    pub updated_at: String,
    pub owner: String,
    pub uid: String,
    pub is_public: bool,
}

/// Mathematical model of an [`EnvironmentDigest`].
pub struct EnvironmentDigestModel {
    pub id: Seq<char>,
    pub name: Seq<char>,
    pub created_at: Seq<char>,
    pub updated_at: Seq<char>,
    pub owner: Seq<char>,
    pub uid: Seq<char>,
    pub is_public: bool,
}

impl View for EnvironmentDigest {
    type V = EnvironmentDigestModel;

    open spec fn view(&self) -> EnvironmentDigestModel {
        EnvironmentDigestModel {
            id: self.id@,
            name: self.name@,
            created_at: self.created_at@,
            updated_at: self.updated_at@,
            owner: self.owner@,
            uid: self.uid@,
            is_public: self.is_public,
        }
    }
}

/// The response envelope of the environment-listing endpoint.
#[derive(Clone, Debug, PartialEq)]
pub struct EnvironmentDigestsResponse {
    pub environments: Vec<EnvironmentDigest>,
}

/// The models of a digest list, element by element.
pub open spec fn digest_views(ds: Seq<EnvironmentDigest>) -> Seq<EnvironmentDigestModel> {
    ds.map_values(|d: EnvironmentDigest| d@)
}

impl View for EnvironmentDigestsResponse {
    type V = Seq<EnvironmentDigestModel>;

    open spec fn view(&self) -> Seq<EnvironmentDigestModel> {
        digest_views(self.environments@)
    }
}

/// A workspace: a named container of environments in the remote service.
#[derive(Clone, Debug, PartialEq)]
pub struct Workspace {
    pub id: String,
    pub name: String,
    pub type_field: String,
    pub visibility: String,
}

/// Mathematical model of a [`Workspace`].
pub struct WorkspaceModel {
    pub id: Seq<char>,
    pub name: Seq<char>,
    pub type_field: Seq<char>,
    pub visibility: Seq<char>,
}

impl View for Workspace {
    type V = WorkspaceModel;

    open spec fn view(&self) -> WorkspaceModel {
        WorkspaceModel {
            id: self.id@,
            name: self.name@,
            type_field: self.type_field@,
            visibility: self.visibility@,
        }
    }
}

/// The response envelope of the workspace-listing endpoint.
#[derive(Clone, Debug, PartialEq)]
pub struct WorkspacesResponse {
    pub workspaces: Vec<Workspace>,
}

/// The models of a workspace list, element by element.
pub open spec fn workspace_views(ws: Seq<Workspace>) -> Seq<WorkspaceModel> {
    ws.map_values(|w: Workspace| w@)
}

/// The views of a string list, element by element.
pub open spec fn string_views(ss: Seq<String>) -> Seq<Seq<char>> {
    ss.map_values(|s: String| s@)
}

impl View for WorkspacesResponse {
    type V = Seq<WorkspaceModel>;

    open spec fn view(&self) -> Seq<WorkspaceModel> {
        workspace_views(self.workspaces@)
    }
}

/// Everything that can abort an activation run. Every failure surfaces
/// immediately; there is no retry and no partial success.
#[derive(Clone, Debug, PartialEq)]
pub enum ActivationError {
    /// The local configuration file is absent or unreadable.
    ConfigMissing,
    /// The local configuration file does not parse into a credential.
    ConfigInvalid,
    /// A remote call answered with a non-success HTTP status.
    RemoteError { status: u16, body: String },
    /// A remote response body does not have the expected shape.
    DecodeError,
    /// The user cancelled an interactive selection.
    SelectionAborted,
    /// A selection was requested over an empty candidate list.
    NoItemsAvailable,
    /// The subshell binary could not be spawned.
    ShellSpawnError,
}

/// Mathematical model of an [`ActivationError`].
pub enum ErrorModel {
    ConfigMissing,
    ConfigInvalid,
    Remote { status: u16, body: Seq<char> },
    Decode,
    SelectionAborted,
    NoItemsAvailable,
    ShellSpawn,
}

impl View for ActivationError {
    type V = ErrorModel;

    open spec fn view(&self) -> ErrorModel {
        match self {
            ActivationError::ConfigMissing => ErrorModel::ConfigMissing,
            ActivationError::ConfigInvalid => ErrorModel::ConfigInvalid,
            ActivationError::RemoteError { status, body } => ErrorModel::Remote {
                status: *status,
                body: body@,
            },
            ActivationError::DecodeError => ErrorModel::Decode,
            ActivationError::SelectionAborted => ErrorModel::SelectionAborted,
            ActivationError::NoItemsAvailable => ErrorModel::NoItemsAvailable,
            ActivationError::ShellSpawnError => ErrorModel::ShellSpawn,
        }
    }
}

} // verus!
