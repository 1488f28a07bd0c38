//! A planned HTTP exchange, and the judgement of what the server answered.
use crate::credentials::Credentials;
use crate::error::HaError;
use crate::json::error_message;
use crate::records::StatesResponse;
use vstd::prelude::*;

verus! {

#[derive(Debug, Clone, Copy, PartialEq, Eq, Structural)]
pub enum Method {
    Get,
    Post,
}

/// Whether an endpoint turns a status outside `200..=299` into an error, or
/// hands the body back whatever the status.
#[derive(Debug, Clone, Copy, PartialEq, Eq, Structural)]
pub enum StatusPolicy {
    Checked,
    Unchecked,
}

/// The shape of the body that an endpoint answers with.
#[derive(Debug, Clone, Copy, PartialEq, Eq, Structural)]
pub enum Shape {
    /// One JSON object, or any JSON value.
    Object,
    /// A JSON list of records.
    List,
    /// A JSON list of lists of records.
    NestedList,
    /// The body as text.
    Text,
    /// The body as bytes.
    Bytes,
}

/// One request, ready to send: `Authorization: Bearer <token>` goes with it,
/// and a body, when there is one, goes as JSON.
#[derive(Debug)]
pub struct Call {
    pub method: Method,
    pub url: String,
    pub token: String,
    pub body: Option<String>,
    pub policy: StatusPolicy,
    pub shape: Shape,
}

pub open spec fn is_success(status: u16) -> bool {
    200 <= status && status <= 299
}

/// What a call answers: the status error on a checked endpoint when the
/// status is not a success, else what the body decoded to.
pub open spec fn judged<T>(policy: StatusPolicy, status: u16, decoded: Result<T, HaError>) -> Result<
    T,
    HaError,
> {
    if policy == StatusPolicy::Checked && !is_success(status) {
        Err(HaError::HttpError(status))
    } else {
        decoded
    }
}

/// The body that a POST carries: none for an empty encoding, since some
/// endpoints accept a bodyless POST where they refuse an empty one.
pub open spec fn post_body_of(encoded: String) -> Option<String> {
    if encoded@.len() == 0 {
        None
    } else {
        Some(encoded)
    }
}

pub open spec fn is_get(c: Call, creds: Credentials, path: Seq<char>, policy: StatusPolicy, shape: Shape) -> bool {
    &&& c.method == Method::Get
    &&& c.url@ == creds.base_url@ + path
    &&& c.token@ == creds.token@
    &&& c.body is None
    &&& c.policy == policy
    &&& c.shape == shape
}

pub open spec fn is_post(
    c: Call,
    creds: Credentials,
    path: Seq<char>,
    encoded: String,
    policy: StatusPolicy,
    shape: Shape,
) -> bool {
    &&& c.method == Method::Post
    &&& c.url@ == creds.base_url@ + path
    &&& c.token@ == creds.token@
    &&& c.body == post_body_of(encoded)
    &&& c.policy == policy
    &&& c.shape == shape
}

pub fn is_success_status(status: u16) -> (r: bool)
    ensures
        r == is_success(status),
{
    200 <= status && status <= 299
}

pub fn post_body(encoded: String) -> (r: Option<String>)
    ensures
        r == post_body_of(encoded),
{
    if encoded.as_str().is_empty() {
        None
    } else {
        Some(encoded)
    }
}

pub fn get_call(creds: Credentials, path: String, policy: StatusPolicy, shape: Shape) -> (r: Call)
    ensures
        is_get(r, creds, path@, policy, shape),
{
    let url = creds.base_url.concat(path.as_str());
    Call { method: Method::Get, url, token: creds.token, body: None, policy, shape }
}

/// A POST from the outcome of encoding its body: an encoding error fails
/// the call before anything is sent.
pub fn post_call(
    creds: Credentials,
    path: String,
    encoded: Result<String, serde_json::Error>,
    policy: StatusPolicy,
    shape: Shape,
) -> (r: Result<Call, HaError>)
    ensures
        r is Ok <==> encoded is Ok,
        r is Err ==> r->Err_0 is EncodeError,
        encoded is Ok ==> is_post(r->Ok_0, creds, path@, encoded->Ok_0, policy, shape),
{
    match encoded {
        Ok(text) => {
            let url = creds.base_url.concat(path.as_str());
            let body = post_body(text);
            Ok(Call { method: Method::Post, url, token: creds.token, body, policy, shape })
        },
        Err(e) => Err(HaError::EncodeError(error_message(&e))),
    }
}

impl Call {
    /// Whether the status alone fails the call, so that its body need not be
    /// read or decoded.
    pub fn rejects(&self, status: u16) -> (r: bool)
        ensures
            r == (self.policy == StatusPolicy::Checked && !is_success(status)),
    {
        self.policy == StatusPolicy::Checked && !is_success_status(status)
    }

    /// What the call answers, given the status and what the body decoded to.
    pub fn answer<T>(&self, status: u16, decoded: Result<T, HaError>) -> (r: Result<T, HaError>)
        ensures
            r == judged(self.policy, status, decoded),
    {
        if self.policy == StatusPolicy::Checked && !is_success_status(status) {
            Err(HaError::HttpError(status))
        } else {
            decoded
        }
    }
}

/// The records of every inner list, in order, as one list.
pub fn flatten<T>(lists: Vec<Vec<T>>) -> (r: Vec<T>)
    ensures
        r@ == lists@.map_values(|v: Vec<T>| v@).flatten(),
{
    let ghost whole = lists@.map_values(|v: Vec<T>| v@);
    let mut rest = lists;
    let mut out: Vec<T> = Vec::new();
    while rest.len() > 0
        invariant
            out@ + rest@.map_values(|v: Vec<T>| v@).flatten() == whole.flatten(),
        decreases rest.len(),
    {
        let ghost before = rest@.map_values(|v: Vec<T>| v@);
        let mut first = rest.remove(0);
        proof {
            assert(before.drop_first() =~= rest@.map_values(|v: Vec<T>| v@));
            assert(before.first() == first@);
        }
        let ghost out_before = out@;
        out.append(&mut first);
        assert(out_before + before.flatten() =~= out@ + rest@.map_values(|v: Vec<T>| v@).flatten());
    }
    assert(rest@.map_values(|v: Vec<T>| v@) =~= Seq::<Seq<T>>::empty());
    assert(out@ =~= whole.flatten());
    out
}

/// What the states endpoint decoded: a list for every entity, or one record
/// for a single entity.
#[derive(Debug)]
pub enum StatesBody {
    Many(Vec<StatesResponse>),
    One(StatesResponse),
}

/// The states as a list in either case.
pub fn states_list(body: StatesBody) -> (r: Vec<StatesResponse>)
    ensures
        match body {
            StatesBody::Many(v) => r@ == v@,
            StatesBody::One(s) => r@ == seq![s],
        },
{
    match body {
        StatesBody::Many(v) => v,
        StatesBody::One(s) => {
            let mut v = Vec::new();
            v.push(s);
            v
        },
    }
}

} // verus!
