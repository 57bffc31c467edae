//! Decoders for the remote service's JSON responses.
//!
//! Parsing the raw text into a JSON document is serde_json's work and stands
//! behind trusted items; what a document holds is named by uninterpreted
//! functions (`json_of`, `json_field`, ...). The shape checking — which fields
//! an entity needs, of which kinds, and what model it decodes to — is this
//! crate's own logic and is verified against those names.

use vstd::prelude::*;

use crate::model::Environment;
use crate::model::EnvironmentDigest;
use crate::model::EnvironmentDigestModel;
use crate::model::EnvironmentDigestsResponse;
use crate::model::EnvironmentModel;
use crate::model::EnvironmentResponse;
use crate::model::Variable;
use crate::model::VariableModel;
use crate::model::Workspace;
use crate::model::WorkspaceModel;
use crate::model::WorkspacesResponse;

verus! {

#[verifier::external_type_specification]
#[verifier::external_body]
pub struct ExJsonValue(serde_json::Value);

/// The JSON document that a piece of text parses to, if it parses at all.
pub uninterp spec fn json_of(s: Seq<char>) -> Option<serde_json::Value>;

/// The member of a JSON object under a given key, if the document is an
/// object and has that member.
pub uninterp spec fn json_field(v: serde_json::Value, key: Seq<char>) -> Option<serde_json::Value>;

/// The characters of a JSON string, if the document is a string.
pub uninterp spec fn json_string(v: serde_json::Value) -> Option<Seq<char>>;

/// The elements of a JSON array, if the document is an array.
pub uninterp spec fn json_items(v: serde_json::Value) -> Option<Seq<serde_json::Value>>;

/// The value of a JSON boolean, if the document is a boolean.
pub uninterp spec fn json_bool(v: serde_json::Value) -> Option<bool>;

/// Relies on serde_json::from_str::<Value>: parses a piece of text into a
/// JSON document, deterministically, and fails exactly on malformed input.
#[verifier::external_body]
pub(crate) fn parse_json(s: &str) -> (r: Option<serde_json::Value>)
    ensures
        r == json_of(s@),
{
    serde_json::from_str::<serde_json::Value>(s).ok()
}

/// Relies on serde_json::Value::get: looks a member up by key, returning
/// None when the document is not an object or lacks the key.
#[verifier::external_body]
pub(crate) fn get_field<'a>(v: &'a serde_json::Value, key: &str) -> (r: Option<
    &'a serde_json::Value,
>)
    ensures
        match r {
            Some(f) => json_field(*v, key@) == Some(*f),
            None => json_field(*v, key@) is None,
        },
{
    v.get(key)
}

/// Relies on serde_json::Value::as_str: hands the characters of a JSON
/// string out, and None for every other kind of document.
#[verifier::external_body]
pub(crate) fn as_string(v: &serde_json::Value) -> (r: Option<String>)
    ensures
        match r {
            Some(s) => json_string(*v) == Some(s@),
            None => json_string(*v) is None,
        },
{
    match v.as_str() {
        Some(s) => Some(s.to_string()),
        None => None,
    }
}

/// Relies on serde_json::Value::as_array: hands the elements of a JSON
/// array out, and None for every other kind of document.
#[verifier::external_body]
pub(crate) fn as_items<'a>(v: &'a serde_json::Value) -> (r: Option<&'a Vec<serde_json::Value>>)
    ensures
        match r {
            Some(a) => json_items(*v) == Some(a@),
            None => json_items(*v) is None,
        },
{
    v.as_array()
}

/// Relies on serde_json::Value::as_bool: hands the value of a JSON boolean
/// out, and None for every other kind of document.
#[verifier::external_body]
pub(crate) fn as_boolean(v: &serde_json::Value) -> (r: Option<bool>)
    ensures
        match r {
            Some(b) => json_bool(*v) == Some(b),
            None => json_bool(*v) is None,
        },
{
    v.as_bool()
}

/// The characters of the string member under a key, if present.
pub open spec fn field_string(v: serde_json::Value, key: Seq<char>) -> Option<Seq<char>> {
    match json_field(v, key) {
        Some(f) => json_string(f),
        None => None,
    }
}

/// The elements of the array member under a key, if present.
pub open spec fn field_array(v: serde_json::Value, key: Seq<char>) -> Option<
    Seq<serde_json::Value>,
> {
    match json_field(v, key) {
        Some(f) => json_items(f),
        None => None,
    }
}

/// The value of the boolean member under a key, if present.
pub open spec fn field_bool(v: serde_json::Value, key: Seq<char>) -> Option<bool> {
    match json_field(v, key) {
        Some(f) => json_bool(f),
        None => None,
    }
}

pub fn field_str(v: &serde_json::Value, key: &str) -> (r: Option<String>)
    ensures
        match r {
            Some(s) => field_string(*v, key@) == Some(s@),
            None => field_string(*v, key@) is None,
        },
{
    match get_field(v, key) {
        Some(f) => as_string(f),
        None => None,
    }
}

pub fn field_items<'a>(v: &'a serde_json::Value, key: &str) -> (r: Option<
    &'a Vec<serde_json::Value>,
>)
    ensures
        match r {
            Some(a) => field_array(*v, key@) == Some(a@),
            None => field_array(*v, key@) is None,
        },
{
    match get_field(v, key) {
        Some(f) => as_items(f),
        None => None,
    }
}

pub fn field_boolean(v: &serde_json::Value, key: &str) -> (r: Option<bool>)
    ensures
        match r {
            Some(b) => field_bool(*v, key@) == Some(b),
            None => field_bool(*v, key@) is None,
        },
{
    match get_field(v, key) {
        Some(f) => as_boolean(f),
        None => None,
    }
}

/// The workspace a JSON object decodes to: it needs the four string members
/// `id`, `name`, `type` and `visibility`.
pub open spec fn workspace_of_json(v: serde_json::Value) -> Option<WorkspaceModel> {
    match (
        field_string(v, "id"@),
        field_string(v, "name"@),
        field_string(v, "type"@),
        field_string(v, "visibility"@),
    ) {
        (Some(id), Some(name), Some(type_field), Some(visibility)) => Some(
            WorkspaceModel { id, name, type_field, visibility },
        ),
        _ => None,
    }
}

/// The workspaces a JSON array decodes to: every element must decode.
pub open spec fn workspaces_of_json(arr: Seq<serde_json::Value>) -> Option<Seq<WorkspaceModel>> {
    if forall|i: int| 0 <= i < arr.len() ==> workspace_of_json(arr[i]) is Some {
        Some(Seq::new(arr.len(), |i: int| workspace_of_json(arr[i])->0))
    } else {
        None
    }
}

/// The workspace listing a response body decodes to: a JSON object whose
/// `workspaces` member is an array of workspaces.
pub open spec fn workspaces_of_body(s: Seq<char>) -> Option<Seq<WorkspaceModel>> {
    match json_of(s) {
        Some(doc) => match field_array(doc, "workspaces"@) {
            Some(arr) => workspaces_of_json(arr),
            None => None,
        },
        None => None,
    }
}

pub fn decode_workspace(v: &serde_json::Value) -> (r: Option<Workspace>)
    ensures
        match r {
            Some(w) => workspace_of_json(*v) == Some(w@),
            None => workspace_of_json(*v) is None,
        },
{
    let id = match field_str(v, "id") {
        Some(s) => s,
        None => {
            return None;
        },
    };
    let name = match field_str(v, "name") {
        Some(s) => s,
        None => {
            return None;
        },
    };
    let type_field = match field_str(v, "type") {
        Some(s) => s,
        None => {
            return None;
        },
    };
    let visibility = match field_str(v, "visibility") {
        Some(s) => s,
        None => {
            return None;
        },
    };
    Some(Workspace { id, name, type_field, visibility })
}

/// Decodes the body of the workspace-listing response, failing exactly on
/// input that does not have the expected shape.
pub fn decode_workspaces(body: &str) -> (r: Option<WorkspacesResponse>)
    ensures
        match r {
            Some(resp) => workspaces_of_body(body@) == Some(resp@),
            None => workspaces_of_body(body@) is None,
        },
{
    let doc = match parse_json(body) {
        Some(d) => d,
        None => {
            return None;
        },
    };
    let items = match field_items(&doc, "workspaces") {
        Some(a) => a,
        None => {
            return None;
        },
    };
    let ghost arr = items@;
    let mut workspaces: Vec<Workspace> = Vec::new();
    let mut i: usize = 0;
    while i < items.len()
        invariant
            i <= arr.len(),
            items@ == arr,
            workspaces_of_body(body@) == workspaces_of_json(arr),
            workspaces@.len() == i,
            forall|j: int| 0 <= j < i ==> workspace_of_json(arr[j]) == Some(workspaces@[j]@),
        decreases arr.len() - i,
    {
        match decode_workspace(&items[i]) {
            Some(w) => workspaces.push(w),
            None => {
                proof {
                    assert(!(forall|j: int|
                        0 <= j < arr.len() ==> workspace_of_json(arr[j]) is Some)) by {
                        assert(workspace_of_json(arr[i as int]) is None);
                    }
                }
                return None;
            },
        }
        i += 1;
    }
    let r = WorkspacesResponse { workspaces };
    proof {
        let decoded = workspaces_of_json(arr)->0;
        assert(r@ =~= decoded);
    }
    Some(r)
}

/// The environment digest a JSON object decodes to: six string members and
/// the boolean `isPublic`, with the timestamps under their camel-case keys.
pub open spec fn digest_of_json(v: serde_json::Value) -> Option<EnvironmentDigestModel> {
    match (
        field_string(v, "id"@),
        field_string(v, "name"@),
        field_string(v, "createdAt"@),
        field_string(v, "updatedAt"@),
        field_string(v, "owner"@),
        field_string(v, "uid"@),
        field_bool(v, "isPublic"@),
    ) {
        (
            Some(id),
            Some(name),
            Some(created_at),
            Some(updated_at),
            Some(owner),
            Some(uid),
            Some(is_public),
        ) => Some(
            EnvironmentDigestModel { id, name, created_at, updated_at, owner, uid, is_public },
        ),
        _ => None,
    }
}

/// The digests a JSON array decodes to: every element must decode.
pub open spec fn digests_of_json(arr: Seq<serde_json::Value>) -> Option<
    Seq<EnvironmentDigestModel>,
> {
    if forall|i: int| 0 <= i < arr.len() ==> digest_of_json(arr[i]) is Some {
        Some(Seq::new(arr.len(), |i: int| digest_of_json(arr[i])->0))
    } else {
        None
    }
}

/// The environment listing a response body decodes to: a JSON object whose
/// `environments` member is an array of digests.
pub open spec fn digests_of_body(s: Seq<char>) -> Option<Seq<EnvironmentDigestModel>> {
    match json_of(s) {
        Some(doc) => match field_array(doc, "environments"@) {
            Some(arr) => digests_of_json(arr),
            None => None,
        },
        None => None,
    }
}

pub fn decode_digest(v: &serde_json::Value) -> (r: Option<EnvironmentDigest>)
    ensures
        match r {
            Some(d) => digest_of_json(*v) == Some(d@),
            None => digest_of_json(*v) is None,
        },
{
    let id = match field_str(v, "id") {
        Some(s) => s,
        None => {
            return None;
        },
    };
    let name = match field_str(v, "name") {
        Some(s) => s,
        None => {
            return None;
        },
    };
    let created_at = match field_str(v, "createdAt") {
        Some(s) => s,
        None => {
            return None;
        },
    };
    let updated_at = match field_str(v, "updatedAt") {
        Some(s) => s,
        None => {
            return None;
        },
    };
    let owner = match field_str(v, "owner") {
        Some(s) => s,
        None => {
            return None;
        },
    };
    let uid = match field_str(v, "uid") {
        Some(s) => s,
        None => {
            return None;
        },
    };
    let is_public = match field_boolean(v, "isPublic") {
        Some(b) => b,
        None => {
            return None;
        },
    };
    Some(EnvironmentDigest { id, name, created_at, updated_at, owner, uid, is_public })
}

/// Decodes the body of the environment-listing response, failing exactly on
/// input that does not have the expected shape.
pub fn decode_environment_digests(body: &str) -> (r: Option<EnvironmentDigestsResponse>)
    ensures
        match r {
            Some(resp) => digests_of_body(body@) == Some(resp@),
            None => digests_of_body(body@) is None,
        },
{
    let doc = match parse_json(body) {
        Some(d) => d,
        None => {
            return None;
        },
    };
    let items = match field_items(&doc, "environments") {
        Some(a) => a,
        None => {
            return None;
        },
    };
    let ghost arr = items@;
    let mut environments: Vec<EnvironmentDigest> = Vec::new();
    let mut i: usize = 0;
    while i < items.len()
        invariant
            i <= arr.len(),
            items@ == arr,
            digests_of_body(body@) == digests_of_json(arr),
            environments@.len() == i,
            forall|j: int| 0 <= j < i ==> digest_of_json(arr[j]) == Some(environments@[j]@),
        decreases arr.len() - i,
    {
        match decode_digest(&items[i]) {
            Some(d) => environments.push(d),
            None => {
                proof {
                    assert(!(forall|j: int| 0 <= j < arr.len() ==> digest_of_json(arr[j]) is Some))
                        by {
                        assert(digest_of_json(arr[i as int]) is None);
                    }
                }
                return None;
            },
        }
        i += 1;
    }
    let r = EnvironmentDigestsResponse { environments };
    proof {
        let decoded = digests_of_json(arr)->0;
        assert(r@ =~= decoded);
    }
    Some(r)
}

/// The variable a JSON object decodes to: the string members `key`, `value`
/// and `type`, and the boolean `enabled`.
pub open spec fn variable_of_json(v: serde_json::Value) -> Option<VariableModel> {
    match (
        field_string(v, "key"@),
        field_string(v, "value"@),
        field_bool(v, "enabled"@),
        field_string(v, "type"@),
    ) {
        (Some(key), Some(value), Some(enabled), Some(type_field)) => Some(
            VariableModel { key, value, enabled, type_field },
        ),
        _ => None,
    }
}

/// The variables a JSON array decodes to: every element must decode.
pub open spec fn variables_of_json(arr: Seq<serde_json::Value>) -> Option<Seq<VariableModel>> {
    if forall|i: int| 0 <= i < arr.len() ==> variable_of_json(arr[i]) is Some {
        Some(Seq::new(arr.len(), |i: int| variable_of_json(arr[i])->0))
    } else {
        None
    }
}

/// The environment a JSON object decodes to: five string members, the
/// boolean `isPublic`, and the `values` array of variables.
pub open spec fn environment_of_json(v: serde_json::Value) -> Option<EnvironmentModel> {
    match (
        field_string(v, "id"@),
        field_string(v, "name"@),
        field_string(v, "owner"@),
        field_string(v, "createdAt"@),
        field_string(v, "updatedAt"@),
        field_bool(v, "isPublic"@),
        field_array(v, "values"@),
    ) {
        (
            Some(id),
            Some(name),
            Some(owner),
            Some(created_at),
            Some(updated_at),
            Some(is_public),
            Some(arr),
        ) => match variables_of_json(arr) {
            Some(values) => Some(
                EnvironmentModel { id, name, owner, created_at, updated_at, values, is_public },
            ),
            None => None,
        },
        _ => None,
    }
}

/// The environment detail a response body decodes to: a JSON object whose
/// `environment` member is an environment.
pub open spec fn environment_of_body(s: Seq<char>) -> Option<EnvironmentModel> {
    match json_of(s) {
        Some(doc) => match json_field(doc, "environment"@) {
            Some(f) => environment_of_json(f),
            None => None,
        },
        None => None,
    }
}

pub fn decode_variable(v: &serde_json::Value) -> (r: Option<Variable>)
    ensures
        match r {
            Some(x) => variable_of_json(*v) == Some(x@),
            None => variable_of_json(*v) is None,
        },
{
    let key = match field_str(v, "key") {
        Some(s) => s,
        None => {
            return None;
        },
    };
    let value = match field_str(v, "value") {
        Some(s) => s,
        None => {
            return None;
        },
    };
    let enabled = match field_boolean(v, "enabled") {
        Some(b) => b,
        None => {
            return None;
        },
    };
    let type_field = match field_str(v, "type") {
        Some(s) => s,
        None => {
            return None;
        },
    };
    Some(Variable { key, value, enabled, type_field })
}

pub fn decode_environment(v: &serde_json::Value) -> (r: Option<Environment>)
    ensures
        match r {
            Some(e) => environment_of_json(*v) == Some(e@),
            None => environment_of_json(*v) is None,
        },
{
    let id = match field_str(v, "id") {
        Some(s) => s,
        None => {
            return None;
        },
    };
    let name = match field_str(v, "name") {
        Some(s) => s,
        None => {
            return None;
        },
    };
    let owner = match field_str(v, "owner") {
        Some(s) => s,
        None => {
            return None;
        },
    };
    let created_at = match field_str(v, "createdAt") {
        Some(s) => s,
        None => {
            return None;
        },
    };
    let updated_at = match field_str(v, "updatedAt") {
        Some(s) => s,
        None => {
            return None;
        },
    };
    let is_public = match field_boolean(v, "isPublic") {
        Some(b) => b,
        None => {
            return None;
        },
    };
    let items = match field_items(v, "values") {
        Some(a) => a,
        None => {
            return None;
        },
    };
    let ghost arr = items@;
    let mut values: Vec<Variable> = Vec::new();
    let mut i: usize = 0;
    while i < items.len()
        invariant
            i <= arr.len(),
            items@ == arr,
            field_string(*v, "id"@) == Some(id@),
            field_string(*v, "name"@) == Some(name@),
            field_string(*v, "owner"@) == Some(owner@),
            field_string(*v, "createdAt"@) == Some(created_at@),
            field_string(*v, "updatedAt"@) == Some(updated_at@),
            field_bool(*v, "isPublic"@) == Some(is_public),
            field_array(*v, "values"@) == Some(arr),
            values@.len() == i,
            forall|j: int| 0 <= j < i ==> variable_of_json(arr[j]) == Some(values@[j]@),
        decreases arr.len() - i,
    {
        match decode_variable(&items[i]) {
            Some(x) => values.push(x),
            None => {
                proof {
                    assert(!(forall|j: int|
                        0 <= j < arr.len() ==> variable_of_json(arr[j]) is Some)) by {
                        assert(variable_of_json(arr[i as int]) is None);
                    }
                }
                return None;
            },
        }
        i += 1;
    }
    let r = Environment { id, name, owner, created_at, updated_at, values, is_public };
    proof {
        let decoded = variables_of_json(arr)->0;
        assert(r@.values =~= decoded);
    }
    Some(r)
}

/// Decodes the body of the environment-detail response, failing exactly on
/// input that does not have the expected shape.
pub fn decode_environment_detail(body: &str) -> (r: Option<EnvironmentResponse>)
    ensures
        match r {
            Some(resp) => environment_of_body(body@) == Some(resp@),
            None => environment_of_body(body@) is None,
        },
{
    let doc = match parse_json(body) {
        Some(d) => d,
        None => {
            return None;
        },
    };
    let f = match get_field(&doc, "environment") {
        Some(f) => f,
        None => {
            return None;
        },
    };
    match decode_environment(f) {
        Some(environment) => Some(EnvironmentResponse { environment }),
        None => None,
    }
}

} // verus!
