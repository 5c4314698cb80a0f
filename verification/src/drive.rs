//! The calls to the remote permission service, and what is read from its
//! answers.

use crate::error::{ErrorKind, ErrorKindView, IdResolutionFailure};
use crate::json::{json_parse, parse_json, parsed_view, Json, JsonView};
use crate::step::{CallOutcome, CallOutcomeView, CallWait, CallWaitView, Step, StepView};
use crate::structures::GetIdForEmailResponse;
use crate::targets::{texts, TargetResourceSet};
use vstd::prelude::*;
use vstd::string::*;

verus! {

/// The one scope that access tokens are asked for: reading and writing the
/// drives' files and permissions.
pub open spec fn drive_scope() -> Seq<char> {
    "https://www.googleapis.com/auth/drive"@
}

/// Writes [`drive_scope`] out.
pub fn token_scope() -> (scope: String)
    ensures
        scope@ == drive_scope(),
{
    "https://www.googleapis.com/auth/drive".to_owned()
}

/// The HTTP method of a call.
#[derive(Clone, Copy, Debug, PartialEq, Eq, Structural)]
pub enum Method {
    Get,
    Post,
    Delete,
}

/// A named text: a query parameter, or a member of a JSON body.
#[derive(Clone, Debug, PartialEq, Eq)]
pub struct Field {
    pub name: String,
    pub value: String,
}

/// The names and values of a list of fields.
pub open spec fn fields(list: Seq<Field>) -> Seq<(Seq<char>, Seq<char>)> {
    Seq::new(list.len(), |i: int| (list[i].name@, list[i].value@))
}

/// A call to the permission service, by what it is for.
#[derive(Clone, Debug, PartialEq, Eq)]
pub enum ApiCall {
    /// Make `email` a reader of the resource.
    CreatePermission { resource_id: String, email: String },
    /// Ask for the permission id that `email` is known by.
    ResolveId { email: String },
    /// Take the permission `permission_id` off the resource.
    DeletePermission { resource_id: String, permission_id: String },
}

/// The mathematical value of an [`ApiCall`].
pub enum ApiCallView {
    CreatePermission { resource_id: Seq<char>, email: Seq<char> },
    ResolveId { email: Seq<char> },
    DeletePermission { resource_id: Seq<char>, permission_id: Seq<char> },
}

impl View for ApiCall {
    type V = ApiCallView;

    open spec fn view(&self) -> ApiCallView {
        match self {
            ApiCall::CreatePermission { resource_id, email } => ApiCallView::CreatePermission {
                resource_id: resource_id@,
                email: email@,
            },
            ApiCall::ResolveId { email } => ApiCallView::ResolveId { email: email@ },
            ApiCall::DeletePermission { resource_id, permission_id } =>
                ApiCallView::DeletePermission {
                    resource_id: resource_id@,
                    permission_id: permission_id@,
                },
        }
    }
}

/// A call as it goes over the wire.
#[derive(Clone, Debug, PartialEq, Eq)]
pub struct ApiRequest {
    pub method: Method,
    pub url: String,
    /// The query parameters, in order.
    pub query: Vec<Field>,
    /// The members of the JSON object sent as the body, where one is sent.
    pub json: Option<Vec<Field>>,
    /// The token sent as the bearer credential.
    pub bearer_token: String,
}

/// The mathematical value of an [`ApiRequest`].
pub struct ApiRequestView {
    pub method: Method,
    pub url: Seq<char>,
    pub query: Seq<(Seq<char>, Seq<char>)>,
    pub json: Option<Seq<(Seq<char>, Seq<char>)>>,
    pub bearer_token: Seq<char>,
}

impl View for ApiRequest {
    type V = ApiRequestView;

    open spec fn view(&self) -> ApiRequestView {
        ApiRequestView {
            method: self.method,
            url: self.url@,
            query: fields(self.query@),
            json: match self.json {
                Some(members) => Some(fields(members@)),
                None => None,
            },
            bearer_token: self.bearer_token@,
        }
    }
}

impl ApiCallView {
    pub open spec fn method(self) -> Method {
        match self {
            ApiCallView::CreatePermission { .. } => Method::Post,
            ApiCallView::ResolveId { .. } => Method::Get,
            ApiCallView::DeletePermission { .. } => Method::Delete,
        }
    }

    /// The address of the call. The ids and the address are put in as they
    /// are.
    pub open spec fn url(self) -> Seq<char> {
        match self {
            ApiCallView::CreatePermission { resource_id, .. } =>
                "https://www.googleapis.com/drive/v3/files/"@ + resource_id + "/permissions"@,
            ApiCallView::ResolveId { email } =>
                "https://www.googleapis.com/drive/v2/permissionIds/"@ + email,
            ApiCallView::DeletePermission { resource_id, permission_id } =>
                "https://www.googleapis.com/drive/v3/files/"@ + resource_id + "/permissions/"@
                    + permission_id,
        }
    }

    /// The query parameters. Creating and deleting ask for shared drives to
    /// be supported; creating asks for a JSON answer as well.
    pub open spec fn query(self) -> Seq<(Seq<char>, Seq<char>)> {
        match self {
            ApiCallView::CreatePermission { .. } => seq![
                ("supportsAllDrives"@, "true"@),
                ("alt"@, "json"@),
            ],
            ApiCallView::ResolveId { .. } => seq![],
            ApiCallView::DeletePermission { .. } => seq![("supportsAllDrives"@, "true"@)],
        }
    }

    /// The JSON body: creating a permission names the role `reader`, the
    /// grantee type `user` and the address; the other calls send none.
    pub open spec fn json(self) -> Option<Seq<(Seq<char>, Seq<char>)>> {
        match self {
            ApiCallView::CreatePermission { email, .. } => Some(
                seq![("role"@, "reader"@), ("type"@, "user"@), ("emailAddress"@, email)],
            ),
            _ => None,
        }
    }

    /// The call as it goes over the wire, authenticated with `token`.
    pub open spec fn request(self, token: Seq<char>) -> ApiRequestView {
        ApiRequestView {
            method: self.method(),
            url: self.url(),
            query: self.query(),
            json: self.json(),
            bearer_token: token,
        }
    }
}

fn field(name: &str, value: &str) -> (made: Field)
    ensures
        made.name@ == name@,
        made.value@ == value@,
{
    Field { name: name.to_owned(), value: value.to_owned() }
}

impl ApiCall {
    pub fn method(&self) -> (method: Method)
        ensures
            method == self@.method(),
    {
        match self {
            ApiCall::CreatePermission { .. } => Method::Post,
            ApiCall::ResolveId { .. } => Method::Get,
            ApiCall::DeletePermission { .. } => Method::Delete,
        }
    }

    pub fn url(&self) -> (url: String)
        ensures
            url@ == self@.url(),
    {
        match self {
            ApiCall::CreatePermission { resource_id, .. } => {
                "https://www.googleapis.com/drive/v3/files/".to_owned().concat(
                    resource_id.as_str(),
                ).concat("/permissions")
            },
            ApiCall::ResolveId { email } => {
                "https://www.googleapis.com/drive/v2/permissionIds/".to_owned().concat(
                    email.as_str(),
                )
            },
            ApiCall::DeletePermission { resource_id, permission_id } => {
                "https://www.googleapis.com/drive/v3/files/".to_owned().concat(
                    resource_id.as_str(),
                ).concat("/permissions/").concat(permission_id.as_str())
            },
        }
    }

    pub fn query(&self) -> (query: Vec<Field>)
        ensures
            fields(query@) == self@.query(),
    {
        let mut query: Vec<Field> = Vec::new();
        match self {
            ApiCall::CreatePermission { .. } => {
                query.push(field("supportsAllDrives", "true"));
                query.push(field("alt", "json"));
            },
            ApiCall::ResolveId { .. } => {},
            ApiCall::DeletePermission { .. } => {
                query.push(field("supportsAllDrives", "true"));
            },
        }
        assert(fields(query@) =~= self@.query());
        query
    }

    pub fn json(&self) -> (json: Option<Vec<Field>>)
        ensures
            match json {
                Some(members) => self@.json() == Some(fields(members@)),
                None => self@.json() is None,
            },
    {
        match self {
            ApiCall::CreatePermission { email, .. } => {
                let mut members: Vec<Field> = Vec::new();
                members.push(field("role", "reader"));
                members.push(field("type", "user"));
                members.push(field("emailAddress", email.as_str()));
                assert(fields(members@) =~= self@.json()->Some_0);
                Some(members)
            },
            _ => None,
        }
    }

    /// Renders the call for the wire, authenticated with `token`.
    pub fn request(&self, token: &str) -> (request: ApiRequest)
        ensures
            request@ == self@.request(token@),
    {
        ApiRequest {
            method: self.method(),
            url: self.url(),
            query: self.query(),
            json: self.json(),
            bearer_token: token.to_owned(),
        }
    }
}

/// Whether a status code is an HTTP success status.
pub open spec fn is_success(status: u16) -> bool {
    200 <= status <= 299
}

/// The member `id` of the answer of the id lookup, as JSON text, given
/// what the JSON reader made of the answer's body. The answer has to be an
/// object, and the member has to be there.
pub open spec fn id_member_of(parsed: Option<JsonView>) -> Result<Seq<char>, IdResolutionFailure> {
    match parsed {
        Some(JsonView::Object(members)) => match JsonView::Object(members).member("id"@) {
            Some(value) => Ok(value),
            None => Err(IdResolutionFailure::MissingField),
        },
        _ => Err(IdResolutionFailure::UnparseableBody),
    }
}

/// The permission id, given what the JSON reader made of the member `id`:
/// it has to be a string.
pub open spec fn id_text_of(parsed: Option<JsonView>) -> Result<Seq<char>, IdResolutionFailure> {
    match parsed {
        Some(JsonView::Text(id)) => Ok(id),
        _ => Err(IdResolutionFailure::WrongType),
    }
}

/// The permission id that the body of the lookup's answer holds: the
/// content of the string that is the member `id` of the object that the
/// body is.
pub open spec fn permission_id_of(body: Seq<char>) -> Result<Seq<char>, IdResolutionFailure> {
    match id_member_of(json_parse(body)) {
        Ok(value) => id_text_of(json_parse(value)),
        Err(failure) => Err(failure),
    }
}

/// The mathematical value of the outcome of an id lookup.
pub open spec fn resolved_view(resolved: Result<GetIdForEmailResponse, IdResolutionFailure>)
    -> Result<Seq<char>, IdResolutionFailure> {
    match resolved {
        Ok(response) => Ok(response.id@),
        Err(failure) => Err(failure),
    }
}

/// Finds the member `id` in the answer of the id lookup, given what the
/// JSON reader made of the answer's body.
pub fn id_member(parsed: &Option<Json>) -> (found: Result<&String, IdResolutionFailure>)
    ensures
        match found {
            Ok(value) => id_member_of(parsed_view(*parsed)) == Ok::<_, IdResolutionFailure>(
                value@,
            ),
            Err(failure) => id_member_of(parsed_view(*parsed)) == Err::<Seq<char>, _>(failure),
        },
{
    match parsed {
        Some(json) => match json {
            Json::Object(_) => match json.member("id") {
                Some(value) => Ok(value),
                None => Err(IdResolutionFailure::MissingField),
            },
            _ => Err(IdResolutionFailure::UnparseableBody),
        },
        None => Err(IdResolutionFailure::UnparseableBody),
    }
}

/// Takes the permission id from what the JSON reader made of the member
/// `id`.
pub fn id_text(parsed: Option<Json>) -> (resolved: Result<
    GetIdForEmailResponse,
    IdResolutionFailure,
>)
    ensures
        resolved_view(resolved) == id_text_of(parsed_view(parsed)),
{
    match parsed {
        Some(Json::Text(id)) => Ok(GetIdForEmailResponse { id }),
        _ => Err(IdResolutionFailure::WrongType),
    }
}

/// Reads the permission id out of the body of the lookup's answer.
pub fn resolve_permission_id(body: &str) -> (resolved: Result<
    GetIdForEmailResponse,
    IdResolutionFailure,
>)
    ensures
        resolved_view(resolved) == permission_id_of(body@),
{
    let answer = parse_json(body);
    match id_member(&answer) {
        Ok(value) => id_text(parse_json(value.as_str())),
        Err(failure) => Err(failure),
    }
}

impl CallOutcomeView {
    /// Whether the service answered with an HTTP success status.
    pub open spec fn succeeded(self) -> bool {
        self matches CallOutcomeView::Responded { status, .. } && is_success(status)
    }

    /// What the id lookup resolved to, if this is how it ended. The
    /// answer's body decides, whatever its status; no answer is no body.
    pub open spec fn resolution(self) -> Result<Seq<char>, IdResolutionFailure> {
        match self {
            CallOutcomeView::Responded { body, .. } => permission_id_of(body),
            CallOutcomeView::Unanswered => Err(IdResolutionFailure::UnparseableBody),
        }
    }
}

impl StepView {
    /// Granting goes on with the first of `ids`; it is over, and has
    /// succeeded, where none is left.
    pub open spec fn grant_next(email: Seq<char>, token: Seq<char>, ids: Seq<Seq<char>>)
        -> StepView {
        if ids.len() == 0 {
            StepView::Done(Ok(()))
        } else {
            StepView::NeedCall(
                CallWaitView::Granting { email, token, resource_id: ids[0], remaining: ids.skip(1) },
            )
        }
    }

    /// Revoking goes on with the first of `ids`; it is over, and has
    /// succeeded, where none is left.
    pub open spec fn revoke_next(
        email: Seq<char>,
        token: Seq<char>,
        permission_id: Seq<char>,
        ids: Seq<Seq<char>>,
    ) -> StepView {
        if ids.len() == 0 {
            StepView::Done(Ok(()))
        } else {
            StepView::NeedCall(
                CallWaitView::Revoking {
                    email,
                    token,
                    permission_id,
                    resource_id: ids[0],
                    remaining: ids.skip(1),
                },
            )
        }
    }

    /// What follows the id lookup: with an id, the deletes; without one,
    /// the failure, and no delete.
    pub open spec fn after_lookup(
        email: Seq<char>,
        token: Seq<char>,
        targets: Seq<Seq<char>>,
        resolved: Result<Seq<char>, IdResolutionFailure>,
    ) -> StepView {
        match resolved {
            Ok(permission_id) => StepView::revoke_next(email, token, permission_id, targets),
            Err(failure) => StepView::Done(Err(ErrorKindView::IdResolutionError(failure))),
        }
    }
}

/// Granting `email` read access to every one of `targets`: one create call
/// per resource, in order.
pub open spec fn grant(targets: Seq<Seq<char>>, email: Seq<char>, token: Seq<char>) -> StepView {
    StepView::grant_next(email, token, targets)
}

/// Revoking the access of `email` to every one of `targets`: the id lookup
/// first.
pub open spec fn revoke(targets: Seq<Seq<char>>, email: Seq<char>, token: Seq<char>) -> StepView {
    StepView::NeedCall(CallWaitView::Resolving { email, token, targets })
}

impl CallWaitView {
    /// How handling goes on once the call has ended in `outcome`. A create
    /// or delete call that did not succeed ends the handling: the resources
    /// still to come are not touched, and what was done stays done.
    pub open spec fn resume(self, outcome: CallOutcomeView) -> StepView {
        match self {
            CallWaitView::Granting { email, token, resource_id, remaining } => {
                if outcome.succeeded() {
                    StepView::grant_next(email, token, remaining)
                } else {
                    StepView::Done(Err(ErrorKindView::RemoteApiError { resource_id, email }))
                }
            },
            CallWaitView::Resolving { email, token, targets } => StepView::after_lookup(
                email,
                token,
                targets,
                outcome.resolution(),
            ),
            CallWaitView::Revoking { email, token, permission_id, resource_id, remaining } => {
                if outcome.succeeded() {
                    StepView::revoke_next(email, token, permission_id, remaining)
                } else {
                    StepView::Done(Err(ErrorKindView::RemoteApiError { resource_id, email }))
                }
            },
        }
    }
}

fn grant_next(email: String, token: String, ids: Vec<String>) -> (step: Step)
    ensures
        step@ == StepView::grant_next(email@, token@, texts(ids@)),
{
    let mut remaining = ids;
    if remaining.len() == 0 {
        Step::Done(Ok(()))
    } else {
        let resource_id = remaining.remove(0);
        assert(texts(remaining@) == texts(ids@).skip(1));
        Step::NeedCall(CallWait::Granting { email, token, resource_id, remaining })
    }
}

fn revoke_next(email: String, token: String, permission_id: String, ids: Vec<String>) -> (step:
    Step)
    ensures
        step@ == StepView::revoke_next(email@, token@, permission_id@, texts(ids@)),
{
    let mut remaining = ids;
    if remaining.len() == 0 {
        Step::Done(Ok(()))
    } else {
        let resource_id = remaining.remove(0);
        assert(texts(remaining@) == texts(ids@).skip(1));
        Step::NeedCall(CallWait::Revoking { email, token, permission_id, resource_id, remaining })
    }
}

/// Starts granting `email` read access to `targets`.
pub fn add_user(targets: &TargetResourceSet, email: String, token: String) -> (step: Step)
    ensures
        step@ == grant(targets@, email@, token@),
{
    grant_next(email, token, copy_of(targets))
}

/// Starts revoking the access of `email` to `targets`.
pub fn remove_user(targets: &TargetResourceSet, email: String, token: String) -> (step: Step)
    ensures
        step@ == revoke(targets@, email@, token@),
{
    Step::NeedCall(CallWait::Resolving { email, token, targets: copy_of(targets) })
}

fn copy_of(targets: &TargetResourceSet) -> (ids: Vec<String>)
    ensures
        texts(ids@) == targets@,
{
    crate::targets::copy_ids(targets.ids())
}

/// Whether a call ended in an HTTP success status.
fn succeeded(outcome: &CallOutcome) -> (success: bool)
    ensures
        success == outcome@.succeeded(),
{
    match outcome {
        CallOutcome::Responded { status, .. } => 200 <= *status && *status <= 299,
        CallOutcome::Unanswered => false,
    }
}

/// Goes on after the id lookup, given what it resolved to.
pub fn after_lookup(
    email: String,
    token: String,
    targets: Vec<String>,
    resolved: Result<GetIdForEmailResponse, IdResolutionFailure>,
) -> (step: Step)
    ensures
        step@ == StepView::after_lookup(email@, token@, texts(targets@), resolved_view(resolved)),
{
    match resolved {
        Ok(response) => revoke_next(email, token, response.id, targets),
        Err(failure) => Step::Done(Err(ErrorKind::IdResolutionError(failure))),
    }
}

impl CallWait {
    /// Goes on once the call waited for has ended in `outcome`.
    pub fn resume(self, outcome: &CallOutcome) -> (step: Step)
        ensures
            step@ == self@.resume(outcome@),
    {
        match self {
            CallWait::Granting { email, token, resource_id, remaining } => {
                if succeeded(outcome) {
                    grant_next(email, token, remaining)
                } else {
                    Step::Done(Err(ErrorKind::RemoteApiError { resource_id, email }))
                }
            },
            CallWait::Resolving { email, token, targets } => {
                let resolved = match outcome {
                    CallOutcome::Responded { body, .. } => resolve_permission_id(body.as_str()),
                    CallOutcome::Unanswered => Err(IdResolutionFailure::UnparseableBody),
                };
                after_lookup(email, token, targets, resolved)
            },
            CallWait::Revoking { email, token, permission_id, resource_id, remaining } => {
                if succeeded(outcome) {
                    revoke_next(email, token, permission_id, remaining)
                } else {
                    Step::Done(Err(ErrorKind::RemoteApiError { resource_id, email }))
                }
            },
        }
    }
}

} // verus!
