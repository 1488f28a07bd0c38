//! The endpoints: each one plans its request, and for the list endpoints
//! turns the decoded answer into the list that callers get.
use crate::call::{
    flatten, get_call, judged, post_call, states_list, Call, Method, Shape, StatesBody,
    StatusPolicy,
};
use crate::credentials::{resolved, GlobalVars};
use crate::error::{CredentialField, HaError};
use crate::json::{encode_value, object_value};
use crate::paths;
use crate::records::{
    CalendarResponse, HistoryResponse, StatesRequest, StatesResponse, TemplateRequest,
};
use vstd::prelude::*;

verus! {

/// The error that the credentials of a call give, if any: the URL is looked
/// at before the token.
pub open spec fn missing(vars: GlobalVars, ha_url: Option<String>, ha_token: Option<String>) -> Option<
    HaError,
> {
    if resolved(ha_url, vars.url) is None {
        Some(HaError::MissingCredential(CredentialField::Url))
    } else if resolved(ha_token, vars.token) is None {
        Some(HaError::MissingCredential(CredentialField::Token))
    } else {
        None
    }
}

/// The call goes to the resolved base URL followed by `path`, with the
/// resolved token.
pub open spec fn targets(
    c: Call,
    vars: GlobalVars,
    ha_url: Option<String>,
    ha_token: Option<String>,
    path: Seq<char>,
) -> bool {
    &&& c.url@ == resolved(ha_url, vars.url)->0 + path
    &&& c.token@ == resolved(ha_token, vars.token)->0
}

/// `r` is the GET of `path` that an endpoint plans.
pub open spec fn plans_get(
    r: Result<Call, HaError>,
    vars: GlobalVars,
    ha_url: Option<String>,
    ha_token: Option<String>,
    path: Seq<char>,
    policy: StatusPolicy,
    shape: Shape,
) -> bool {
    match missing(vars, ha_url, ha_token) {
        Some(e) => r == Err::<Call, HaError>(e),
        None => {
            &&& r is Ok
            &&& r->Ok_0.method == Method::Get
            &&& targets(r->Ok_0, vars, ha_url, ha_token, path)
            &&& r->Ok_0.body is None
            &&& r->Ok_0.policy == policy
            &&& r->Ok_0.shape == shape
        },
    }
}

/// `r` is the POST to `path` that an endpoint plans: once the credentials
/// are there, the call is planned, with a body.
pub open spec fn plans_post(
    r: Result<Call, HaError>,
    vars: GlobalVars,
    ha_url: Option<String>,
    ha_token: Option<String>,
    path: Seq<char>,
    policy: StatusPolicy,
    shape: Shape,
) -> bool {
    match missing(vars, ha_url, ha_token) {
        Some(e) => r == Err::<Call, HaError>(e),
        None => {
            &&& r is Ok
            &&& r->Ok_0.method == Method::Post
            &&& targets(r->Ok_0, vars, ha_url, ha_token, path)
            &&& r->Ok_0.body is Some
            &&& r->Ok_0.body->0@.len() > 0
            &&& r->Ok_0.policy == policy
            &&& r->Ok_0.shape == shape
        },
    }
}

/// The read endpoints.
#[derive(Debug)]
pub struct HomeAssistant {
    pub post: HomeAssistantPost,
}

/// The write endpoints.
#[derive(Debug)]
pub struct HomeAssistantPost {
    /// The credentials that a call falls back on.
    pub vars: GlobalVars,
}

/// A client without fallback credentials: every call names its own.
pub fn hass() -> (r: HomeAssistant)
    ensures
        r.post.vars.url is None,
        r.post.vars.token is None,
{
    HomeAssistant { post: HomeAssistantPost { vars: GlobalVars::none() } }
}

fn plan_get(
    vars: &GlobalVars,
    ha_url: Option<String>,
    ha_token: Option<String>,
    path: String,
    policy: StatusPolicy,
    shape: Shape,
) -> (r: Result<Call, HaError>)
    ensures
        plans_get(r, *vars, ha_url, ha_token, path@, policy, shape),
{
    match vars.resolve(ha_url, ha_token) {
        Ok(creds) => Ok(get_call(creds, path, policy, shape)),
        Err(e) => Err(e),
    }
}

fn plan_post(
    vars: &GlobalVars,
    ha_url: Option<String>,
    ha_token: Option<String>,
    path: String,
    body: serde_json::Value,
    policy: StatusPolicy,
    shape: Shape,
) -> (r: Result<Call, HaError>)
    ensures
        plans_post(r, *vars, ha_url, ha_token, path@, policy, shape),
{
    match vars.resolve(ha_url, ha_token) {
        Ok(creds) => post_call(creds, path, encode_value(&body), policy, shape),
        Err(e) => Err(e),
    }
}

impl HomeAssistant {
    /// A client that falls back on `vars` for a credential that a call does
    /// not name.
    pub fn with_fallback(vars: GlobalVars) -> (r: HomeAssistant)
        ensures
            r.post.vars == vars,
    {
        HomeAssistant { post: HomeAssistantPost { vars } }
    }

    /// The write endpoints, with the same fallback.
    pub fn request(&self) -> (r: &HomeAssistantPost)
        ensures
            r.vars == self.post.vars,
    {
        &self.post
    }

    /// GET `/api/config`: the configuration, one object.
    pub fn config(&self, ha_url: Option<String>, ha_token: Option<String>) -> (r: Result<
        Call,
        HaError,
    >)
        ensures
            plans_get(r, self.post.vars, ha_url, ha_token, "/api/config"@, StatusPolicy::Checked, Shape::Object),
    {
        plan_get(&self.post.vars, ha_url, ha_token, String::from_str("/api/config"), StatusPolicy::Checked, Shape::Object)
    }

    /// GET `/api/events`: a list of events.
    pub fn events(&self, ha_url: Option<String>, ha_token: Option<String>) -> (r: Result<
        Call,
        HaError,
    >)
        ensures
            plans_get(r, self.post.vars, ha_url, ha_token, "/api/events"@, StatusPolicy::Checked, Shape::List),
    {
        plan_get(&self.post.vars, ha_url, ha_token, String::from_str("/api/events"), StatusPolicy::Checked, Shape::List)
    }

    /// GET `/api/services`: a list of JSON values.
    pub fn services(&self, ha_url: Option<String>, ha_token: Option<String>) -> (r: Result<
        Call,
        HaError,
    >)
        ensures
            plans_get(r, self.post.vars, ha_url, ha_token, "/api/services"@, StatusPolicy::Checked, Shape::List),
    {
        plan_get(&self.post.vars, ha_url, ha_token, String::from_str("/api/services"), StatusPolicy::Checked, Shape::List)
    }

    /// GET `/api/history/period` filtered on one entity, each flag set
    /// adding its bare query token: a list of lists, one per entity.
    pub fn history(
        &self,
        ha_url: Option<String>,
        ha_token: Option<String>,
        ha_entity_id: Option<&str>,
        minimal_response: bool,
        no_attributes: bool,
        significant_changes_only: bool,
    ) -> (r: Result<Call, HaError>)
        ensures
            plans_get(
                r,
                self.post.vars,
                ha_url,
                ha_token,
                paths::history_path(ha_entity_id, minimal_response, no_attributes, significant_changes_only),
                StatusPolicy::Checked,
                Shape::NestedList,
            ),
    {
        let path = paths::history(ha_entity_id, minimal_response, no_attributes, significant_changes_only);
        plan_get(&self.post.vars, ha_url, ha_token, path, StatusPolicy::Checked, Shape::NestedList)
    }

    /// GET `/api/logbook?<entity id>`: a list of logbook entries.
    pub fn logbook(&self, ha_url: Option<String>, ha_token: Option<String>, ha_entity_id: Option<&str>) -> (r: Result<
        Call,
        HaError,
    >)
        ensures
            plans_get(r, self.post.vars, ha_url, ha_token, paths::logbook_path(ha_entity_id), StatusPolicy::Checked, Shape::List),
    {
        plan_get(&self.post.vars, ha_url, ha_token, paths::logbook(ha_entity_id), StatusPolicy::Checked, Shape::List)
    }

    /// GET `/api/states` for every entity (a list), or `/api/states/<id>`
    /// for one (one object).
    pub fn states(&self, ha_url: Option<String>, ha_token: Option<String>, ha_entity_id: Option<&str>) -> (r: Result<
        Call,
        HaError,
    >)
        ensures
            plans_get(
                r,
                self.post.vars,
                ha_url,
                ha_token,
                paths::states_path(ha_entity_id),
                StatusPolicy::Checked,
                if paths::id_or_empty(ha_entity_id).len() == 0 { Shape::List } else { Shape::Object },
            ),
    {
        let single = match ha_entity_id {
            Some(e) => !e.is_empty(),
            None => false,
        };
        let shape = if single { Shape::Object } else { Shape::List };
        plan_get(&self.post.vars, ha_url, ha_token, paths::states(ha_entity_id), StatusPolicy::Checked, shape)
    }

    /// The error log, as text, whatever the status. It is read from
    /// `/api/states`, not from a path of its own: deployments that rely on
    /// this answer keep getting it.
    pub fn error_log(&self, ha_url: Option<String>, ha_token: Option<String>) -> (r: Result<
        Call,
        HaError,
    >)
        ensures
            plans_get(r, self.post.vars, ha_url, ha_token, "/api/states"@, StatusPolicy::Unchecked, Shape::Text),
    {
        plan_get(&self.post.vars, ha_url, ha_token, String::from_str("/api/states"), StatusPolicy::Unchecked, Shape::Text)
    }

    /// GET `/api/camera_proxy/<id>?time=<unix seconds>` as bytes, whatever
    /// the status.
    pub fn camera_proxy(&self, ha_url: Option<String>, ha_token: Option<String>, ha_entity_id: &str, time: u64) -> (r: Result<
        Call,
        HaError,
    >)
        ensures
            plans_get(r, self.post.vars, ha_url, ha_token, paths::camera_proxy_path(ha_entity_id@, time), StatusPolicy::Unchecked, Shape::Bytes),
    {
        plan_get(&self.post.vars, ha_url, ha_token, paths::camera_proxy(ha_entity_id, time), StatusPolicy::Unchecked, Shape::Bytes)
    }

    /// Calendars are not implemented: the call fails before any request.
    pub fn calendars(&self, ha_url: Option<String>, ha_token: Option<String>) -> (r: Result<
        Vec<CalendarResponse>,
        HaError,
    >)
        ensures
            r == Err::<Vec<CalendarResponse>, HaError>(HaError::NotSupported),
    {
        Err(HaError::NotSupported)
    }
}

impl Call {
    /// What a history call answers: the inner lists, joined in order.
    pub fn answer_history(&self, status: u16, decoded: Result<Vec<Vec<HistoryResponse>>, HaError>) -> (r: Result<
        Vec<HistoryResponse>,
        HaError,
    >)
        ensures
            match judged(self.policy, status, decoded) {
                Ok(lists) => r is Ok && r->Ok_0@ == lists@.map_values(|v: Vec<HistoryResponse>| v@).flatten(),
                Err(e) => r == Err::<Vec<HistoryResponse>, HaError>(e),
            },
    {
        match self.answer(status, decoded) {
            Ok(lists) => Ok(flatten(lists)),
            Err(e) => Err(e),
        }
    }

    /// What a states call answers: always a list. A body of the other shape
    /// than the one the call asked for is a decoding error.
    pub fn answer_states(&self, status: u16, decoded: Result<StatesBody, HaError>) -> (r: Result<
        Vec<StatesResponse>,
        HaError,
    >)
        ensures
            match judged(self.policy, status, decoded) {
                Ok(StatesBody::Many(v)) => if self.shape == Shape::List {
                    r is Ok && r->Ok_0@ == v@
                } else {
                    r is Err && r->Err_0 is DecodeError
                },
                Ok(StatesBody::One(s)) => if self.shape == Shape::Object {
                    r is Ok && r->Ok_0@ == seq![s]
                } else {
                    r is Err && r->Err_0 is DecodeError
                },
                Err(e) => r == Err::<Vec<StatesResponse>, HaError>(e),
            },
    {
        match self.answer(status, decoded) {
            Ok(body) => {
                let fits = match &body {
                    StatesBody::Many(_) => self.shape == Shape::List,
                    StatesBody::One(_) => self.shape == Shape::Object,
                };
                if fits {
                    Ok(states_list(body))
                } else {
                    Err(HaError::DecodeError(String::from_str("the answer does not have the shape of the call")))
                }
            },
            Err(e) => Err(e),
        }
    }
}

impl HomeAssistantPost {
    /// POST `/api/states/<id>` with the request, flattened: the new state,
    /// one object.
    pub fn state(&self, ha_url: Option<String>, ha_token: Option<String>, ha_entity_id: &str, request: StatesRequest) -> (r: Result<
        Call,
        HaError,
    >)
        ensures
            plans_post(r, self.vars, ha_url, ha_token, paths::state_path(ha_entity_id@), StatusPolicy::Checked, Shape::Object),
    {
        plan_post(&self.vars, ha_url, ha_token, paths::state(ha_entity_id), request.into_value(), StatusPolicy::Checked, Shape::Object)
    }

    /// POST `/api/events/<event type>` with any JSON body: a message.
    pub fn events(&self, ha_url: Option<String>, ha_token: Option<String>, ha_event_type: &str, request: serde_json::Value) -> (r: Result<
        Call,
        HaError,
    >)
        ensures
            plans_post(r, self.vars, ha_url, ha_token, paths::event_path(ha_event_type@), StatusPolicy::Checked, Shape::Object),
    {
        plan_post(&self.vars, ha_url, ha_token, paths::event(ha_event_type), request, StatusPolicy::Checked, Shape::Object)
    }

    /// POST `/api/services/<domain>/<service>`, with `?return_response` when
    /// asked: any JSON value.
    pub fn service(
        &self,
        ha_url: Option<String>,
        ha_token: Option<String>,
        ha_domain: &str,
        ha_service: &str,
        request: serde_json::Value,
        return_response: bool,
    ) -> (r: Result<Call, HaError>)
        ensures
            plans_post(
                r,
                self.vars,
                ha_url,
                ha_token,
                paths::service_path(ha_domain@, ha_service@, return_response),
                StatusPolicy::Checked,
                Shape::Object,
            ),
    {
        let path = paths::service(ha_domain, ha_service, return_response);
        plan_post(&self.vars, ha_url, ha_token, path, request, StatusPolicy::Checked, Shape::Object)
    }

    /// POST `/api/template`: the rendered text, whatever the status.
    pub fn template(&self, ha_url: Option<String>, ha_token: Option<String>, request: TemplateRequest) -> (r: Result<
        Call,
        HaError,
    >)
        ensures
            plans_post(r, self.vars, ha_url, ha_token, "/api/template"@, StatusPolicy::Unchecked, Shape::Text),
    {
        plan_post(&self.vars, ha_url, ha_token, String::from_str("/api/template"), request.into_value(), StatusPolicy::Unchecked, Shape::Text)
    }

    /// POST `/api/config/core/check_config` with an empty object: the result
    /// of the check.
    pub fn config_check(&self, ha_url: Option<String>, ha_token: Option<String>) -> (r: Result<
        Call,
        HaError,
    >)
        ensures
            plans_post(r, self.vars, ha_url, ha_token, "/api/config/core/check_config"@, StatusPolicy::Checked, Shape::Object),
    {
        let body = object_value(serde_json::Map::new());
        plan_post(&self.vars, ha_url, ha_token, String::from_str("/api/config/core/check_config"), body, StatusPolicy::Checked, Shape::Object)
    }

    /// POST `/api/intent/handle` with any JSON body: the answer as text,
    /// whatever the status.
    pub fn intent(&self, ha_url: Option<String>, ha_token: Option<String>, request: serde_json::Value) -> (r: Result<
        Call,
        HaError,
    >)
        ensures
            plans_post(r, self.vars, ha_url, ha_token, "/api/intent/handle"@, StatusPolicy::Unchecked, Shape::Text),
    {
        plan_post(&self.vars, ha_url, ha_token, String::from_str("/api/intent/handle"), request, StatusPolicy::Unchecked, Shape::Text)
    }
}

} // verus!
