//! The records that the endpoints answer with, and the request bodies.
use crate::json::{json_keys, object_value, string_value};
use vstd::prelude::*;

verus! {

#[derive(Debug, Clone, Default)]
pub struct UnitSystem {
    pub length: String,
    pub mass: String,
    pub temperature: String,
    pub volume: String,
}

#[derive(Debug, Clone, Default)]
pub struct EventResponse {
    pub event: String,
    pub listener_count: u16,
}

/// The attributes of an entity: the common ones by name, every other one in
/// `other_fields`.
#[derive(Debug)]
pub struct Attributes {
    pub friendly_name: Option<String>,
    pub editable: Option<bool>,
    pub id: Option<String>,
    pub source: Option<String>,
    pub user_id: Option<String>,
    pub icon: Option<String>,
    pub other_fields: serde_json::Value,
}

#[derive(Debug)]
pub struct HistoryResponse {
    pub entity_id: Option<String>,
    pub state: String,
    pub attributes: Option<Attributes>,
    pub last_changed: String,
    pub last_updated: Option<String>,
}

#[derive(Debug, Clone, Default)]
pub struct LogBook {
    pub name: String,
    pub message: Option<String>,
    pub source: Option<String>,
    pub entity_id: String,
    pub context_id: Option<String>,
    pub domain: Option<String>,
    pub when: String,
}

#[derive(Debug, Clone, Default)]
pub struct Context {
    pub id: String,
    pub parent_id: Option<String>,
    pub user_id: Option<String>,
}

#[derive(Debug)]
pub struct StatesResponse {
    pub entity_id: Option<String>,
    pub state: String,
    pub attributes: Option<Attributes>,
    pub last_changed: Option<String>,
    pub last_reported: Option<String>,
    pub last_updated: Option<String>,
    pub context: Option<Context>,
}

#[derive(Debug, Clone, Default)]
pub struct CalendarResponse {
    pub entity_id: String,
    pub name: String,
}

#[derive(Debug, Clone, Default)]
pub struct SimpleResponse {
    pub message: String,
}

#[derive(Debug, Clone, Default)]
pub struct ConfigCheckResponse {
    pub errors: Option<String>,
    pub result: String,
    pub warnings: Option<String>,
}

#[derive(Debug)]
pub struct ServicesResponse {
    pub domain: String,
    pub services: serde_json::Value,
}

/// The body that sets the state of an entity. Its attributes stand beside
/// `state` in the encoded object, not under a key of their own.
#[derive(Debug)]
pub struct StatesRequest {
    pub state: String,
    pub attributes: Option<serde_json::Map<String, serde_json::Value>>,
}

/// The keys of the attributes of a request, none when it has none.
pub open spec fn attribute_keys(a: Option<serde_json::Map<String, serde_json::Value>>) -> Set<
    Seq<char>,
> {
    match a {
        Some(m) => json_keys(m),
        None => Set::empty(),
    }
}

impl StatesRequest {
    /// The object that is sent: the attributes, flattened, and `state`,
    /// which wins over an attribute of that name.
    pub fn into_object(self) -> (r: serde_json::Map<String, serde_json::Value>)
        ensures
            json_keys(r) == attribute_keys(self.attributes).insert("state"@),
    {
        let mut m = match self.attributes {
            Some(a) => a,
            None => serde_json::Map::new(),
        };
        m.insert(String::from_str("state"), string_value(self.state));
        m
    }

    /// The encoded request as a JSON value.
    pub fn into_value(self) -> (r: serde_json::Value) {
        object_value(self.into_object())
    }
}

/// The body that renders a template.
#[derive(Debug, Clone, Default)]
pub struct TemplateRequest {
    pub template: String,
}

impl TemplateRequest {
    /// The object that is sent: `template` alone.
    pub fn into_object(self) -> (r: serde_json::Map<String, serde_json::Value>)
        ensures
            json_keys(r) == set!["template"@],
    {
        let mut m = serde_json::Map::new();
        m.insert(String::from_str("template"), string_value(self.template));
        assert(json_keys(m) =~= set!["template"@]);
        m
    }

    /// The encoded request as a JSON value.
    pub fn into_value(self) -> (r: serde_json::Value) {
        object_value(self.into_object())
    }
}

} // verus!
