use homeassistant_rs::call::{
    flatten, post_body, states_list, Call, Method, Shape, StatesBody, StatusPolicy,
};
use homeassistant_rs::credentials::{globalvars, validate, GlobalVars};
use homeassistant_rs::error::{CredentialField, HaError};
use homeassistant_rs::paths;
use homeassistant_rs::records::{HistoryResponse, StatesRequest, StatesResponse, TemplateRequest};
use homeassistant_rs::{hass, HomeAssistant};

fn s(v: &str) -> Option<String> {
    Some(v.to_string())
}

fn client() -> HomeAssistant {
    HomeAssistant::with_fallback(globalvars(s("http://fallback:8123"), s("fallback-token")))
}

fn history_record(state: &str) -> HistoryResponse {
    HistoryResponse {
        entity_id: None,
        state: state.to_string(),
        attributes: None,
        last_changed: String::new(),
        last_updated: None,
    }
}

fn states_record(id: &str) -> StatesResponse {
    StatesResponse {
        entity_id: s(id),
        state: "on".to_string(),
        attributes: None,
        last_changed: None,
        last_reported: None,
        last_updated: None,
        context: None,
    }
}

fn object_keys(v: &serde_json::Value) -> Vec<String> {
    let mut keys: Vec<String> = v.as_object().unwrap().keys().cloned().collect();
    keys.sort();
    keys
}

#[test]
fn explicit_credentials_win_over_fallback() {
    let c = client().config(s("http://explicit:8123"), s("explicit-token")).unwrap();
    assert_eq!(c.url, "http://explicit:8123/api/config");
    assert_eq!(c.token, "explicit-token");
    assert_eq!(c.method, Method::Get);
    assert_eq!(c.body, None);
    assert_eq!(c.policy, StatusPolicy::Checked);
    assert_eq!(c.shape, Shape::Object);
}

#[test]
fn fallback_fills_missing_credentials() {
    let c = client().events(None, s("")).unwrap();
    assert_eq!(c.url, "http://fallback:8123/api/events");
    assert_eq!(c.token, "fallback-token");
    assert_eq!(c.shape, Shape::List);
}

#[test]
fn no_credentials_anywhere_is_missing_url() {
    let e = hass().config(None, None).unwrap_err();
    assert_eq!(e, HaError::MissingCredential(CredentialField::Url));
    let e = hass().request().intent(None, None, serde_json::Value::Null).unwrap_err();
    assert_eq!(e, HaError::MissingCredential(CredentialField::Url));
}

#[test]
fn missing_token_alone() {
    let e = hass().services(s("http://h"), None).unwrap_err();
    assert_eq!(e, HaError::MissingCredential(CredentialField::Token));
}

#[test]
fn empty_explicit_value_is_not_given() {
    assert_eq!(validate().arg(s("")), None);
    assert_eq!(validate().arg(s("x")), s("x"));
    assert_eq!(validate().arg(None), None);
    let vars = GlobalVars::new(None, s("t"));
    assert!(vars.resolve(s(""), None).is_err());
}

#[test]
fn history_path_with_flags() {
    let c = client()
        .history(None, None, Some("light.bedroom_local_bedroom_local"), true, true, true)
        .unwrap();
    assert_eq!(
        c.url,
        "http://fallback:8123/api/history/period?filter_entity_id=light.bedroom_local_bedroom_local&minimal_response&no_attributes&significant_changes_only"
    );
    assert_eq!(c.shape, Shape::NestedList);
    assert_eq!(paths::history(None, false, true, false), "/api/history/period?filter_entity_id=&no_attributes");
}

#[test]
fn logbook_without_entity_keeps_bare_question_mark() {
    let c = client().logbook(None, None, None).unwrap();
    assert_eq!(c.url, "http://fallback:8123/api/logbook?");
    let c = client().logbook(None, None, Some("light.x")).unwrap();
    assert_eq!(c.url, "http://fallback:8123/api/logbook?light.x");
}

#[test]
fn states_path_and_shape() {
    let all = client().states(None, None, None).unwrap();
    assert_eq!(all.url, "http://fallback:8123/api/states");
    assert_eq!(all.shape, Shape::List);
    let empty = client().states(None, None, Some("")).unwrap();
    assert_eq!(empty.url, "http://fallback:8123/api/states");
    let one = client().states(None, None, Some("light.x")).unwrap();
    assert_eq!(one.url, "http://fallback:8123/api/states/light.x");
    assert_eq!(one.shape, Shape::Object);
}

#[test]
fn error_log_reads_states_unchecked() {
    let c = client().error_log(None, None).unwrap();
    assert_eq!(c.url, "http://fallback:8123/api/states");
    assert_eq!(c.policy, StatusPolicy::Unchecked);
    assert_eq!(c.shape, Shape::Text);
}

#[test]
fn camera_proxy_writes_time_in_decimal() {
    let c = client().camera_proxy(None, None, "camera.door", 1700000000).unwrap();
    assert_eq!(c.url, "http://fallback:8123/api/camera_proxy/camera.door?time=1700000000");
    assert_eq!(c.policy, StatusPolicy::Unchecked);
    assert_eq!(c.shape, Shape::Bytes);
    assert_eq!(paths::camera_proxy("c", 0), "/api/camera_proxy/c?time=0");
    assert_eq!(paths::camera_proxy("c", u64::MAX), "/api/camera_proxy/c?time=18446744073709551615");
}

#[test]
fn calendars_is_not_supported() {
    assert_eq!(hass().calendars(None, None).unwrap_err(), HaError::NotSupported);
    assert_eq!(client().calendars(s("http://h"), s("t")).unwrap_err(), HaError::NotSupported);
}

#[test]
fn checked_endpoint_turns_status_into_error() {
    let c = client().config(None, None).unwrap();
    let r: Result<u8, HaError> = c.answer(404, Ok(1));
    assert_eq!(r, Err(HaError::HttpError(404)));
    let r: Result<u8, HaError> = c.answer(500, Err(HaError::DecodeError("bad".to_string())));
    assert_eq!(r, Err(HaError::HttpError(500)));
    let r: Result<u8, HaError> = c.answer(299, Ok(7));
    assert_eq!(r, Ok(7));
    let r: Result<u8, HaError> = c.answer(199, Ok(7));
    assert_eq!(r, Err(HaError::HttpError(199)));
}

#[test]
fn unchecked_endpoint_keeps_body() {
    let c = client().request().template(None, None, TemplateRequest { template: "t".to_string() }).unwrap();
    let r: Result<String, HaError> = c.answer(500, Ok("oops".to_string()));
    assert_eq!(r, Ok("oops".to_string()));
}

#[test]
fn history_answer_flattens_in_order() {
    let c = client().history(None, None, Some("a"), false, false, false).unwrap();
    let nested = vec![
        vec![history_record("1"), history_record("2")],
        vec![],
        vec![history_record("3")],
    ];
    let r = c.answer_history(200, Ok(nested)).unwrap();
    let states: Vec<&str> = r.iter().map(|h| h.state.as_str()).collect();
    assert_eq!(states, vec!["1", "2", "3"]);
    let flat = flatten(vec![vec![1u8], vec![2, 3], vec![]]);
    assert_eq!(flat, vec![1, 2, 3]);
    let empty: Vec<u8> = flatten(Vec::new());
    assert!(empty.is_empty());
}

#[test]
fn states_answer_is_always_a_list() {
    let c = client().states(None, None, Some("light.x")).unwrap();
    let r = c.answer_states(200, Ok(StatesBody::One(states_record("light.x")))).unwrap();
    assert_eq!(r.len(), 1);
    assert_eq!(r[0].entity_id, s("light.x"));
    let all = states_list(StatesBody::Many(vec![states_record("a"), states_record("b"), states_record("c")]));
    assert_eq!(all.len(), 3);
    let c = client().states(None, None, None).unwrap();
    assert_eq!(c.answer_states(401, Ok(StatesBody::Many(vec![]))).unwrap_err(), HaError::HttpError(401));
}

#[test]
fn state_request_flattens_attributes() {
    let mut attributes = serde_json::Map::new();
    attributes.insert("friendly_name".to_string(), serde_json::Value::String("x".to_string()));
    let request = StatesRequest { state: "123".to_string(), attributes: Some(attributes) };
    let value = request.into_value();
    assert_eq!(object_keys(&value), vec!["friendly_name".to_string(), "state".to_string()]);
    assert_eq!(value["state"], serde_json::Value::String("123".to_string()));
    assert_eq!(value["friendly_name"], serde_json::Value::String("x".to_string()));
}

#[test]
fn state_request_without_attributes() {
    let request = StatesRequest { state: "off".to_string(), attributes: None };
    assert_eq!(object_keys(&request.into_value()), vec!["state".to_string()]);
}

#[test]
fn state_post_carries_encoded_body() {
    let mut attributes = serde_json::Map::new();
    attributes.insert("friendly_name".to_string(), serde_json::Value::String("homeassistant-rs testing".to_string()));
    let request = StatesRequest { state: "123".to_string(), attributes: Some(attributes) };
    let c = client().request().state(None, None, "sensor.i_am_testing", request).unwrap();
    assert_eq!(c.method, Method::Post);
    assert_eq!(c.url, "http://fallback:8123/api/states/sensor.i_am_testing");
    let body: serde_json::Value = serde_json::from_str(c.body.as_deref().unwrap()).unwrap();
    assert_eq!(body["friendly_name"], serde_json::Value::String("homeassistant-rs testing".to_string()));
    assert_eq!(body["state"], serde_json::Value::String("123".to_string()));
}

#[test]
fn template_body_has_template_key() {
    let c = client()
        .request()
        .template(None, None, TemplateRequest { template: "It is right now {{ now() }}".to_string() })
        .unwrap();
    assert_eq!(c.url, "http://fallback:8123/api/template");
    assert_eq!(c.body.as_deref(), Some("{\"template\":\"It is right now {{ now() }}\"}"));
}

#[test]
fn config_check_posts_empty_object() {
    let c = client().request().config_check(None, None).unwrap();
    assert_eq!(c.url, "http://fallback:8123/api/config/core/check_config");
    assert_eq!(c.body.as_deref(), Some("{}"));
    assert_eq!(c.policy, StatusPolicy::Checked);
}

#[test]
fn event_and_service_paths() {
    let c = client().request().events(None, None, "tag_scanned", serde_json::Value::Null).unwrap();
    assert_eq!(c.url, "http://fallback:8123/api/events/tag_scanned");
    assert_eq!(c.body.as_deref(), Some("null"));
    let mut body = serde_json::Map::new();
    body.insert("entity_id".to_string(), serde_json::Value::String("light.bedroom_local_bedroom_local".to_string()));
    let c = client()
        .request()
        .service(None, None, "light", "turn_on", serde_json::Value::Object(body), false)
        .unwrap();
    assert_eq!(c.url, "http://fallback:8123/api/services/light/turn_on");
    assert_eq!(c.body.as_deref(), Some("{\"entity_id\":\"light.bedroom_local_bedroom_local\"}"));
    let c = client()
        .request()
        .service(None, None, "light", "turn_on", serde_json::Value::Null, true)
        .unwrap();
    assert_eq!(c.url, "http://fallback:8123/api/services/light/turn_on?return_response");
}

#[test]
fn intent_is_unchecked_text() {
    let c: Call = client().request().intent(None, None, serde_json::Value::Bool(true)).unwrap();
    assert_eq!(c.url, "http://fallback:8123/api/intent/handle");
    assert_eq!(c.policy, StatusPolicy::Unchecked);
    assert_eq!(c.shape, Shape::Text);
    assert_eq!(c.body.as_deref(), Some("true"));
}

#[test]
fn empty_encoding_sends_no_body() {
    assert_eq!(post_body(String::new()), None);
    assert_eq!(post_body("{}".to_string()), Some("{}".to_string()));
}

#[test]
fn explicit_credentials_without_fallback() {
    let c = hass().states(s("http://localhost:8123"), s("abc"), Some("light.bedroom_local_bedroom_local")).unwrap();
    assert_eq!(c.url, "http://localhost:8123/api/states/light.bedroom_local_bedroom_local");
    assert_eq!(c.token, "abc");
}

#[test]
fn states_answer_of_the_wrong_shape_is_a_decode_error() {
    let one = client().states(None, None, Some("light.x")).unwrap();
    let r = one.answer_states(200, Ok(StatesBody::Many(vec![states_record("a")])));
    assert!(matches!(r, Err(HaError::DecodeError(_))));
    let all = client().states(None, None, None).unwrap();
    let r = all.answer_states(200, Ok(StatesBody::One(states_record("a"))));
    assert!(matches!(r, Err(HaError::DecodeError(_))));
}

#[test]
fn rejects_only_failed_status_on_checked_calls() {
    let checked = client().config(None, None).unwrap();
    assert!(checked.rejects(404));
    assert!(!checked.rejects(204));
    let unchecked = client().error_log(None, None).unwrap();
    assert!(!unchecked.rejects(500));
}

#[test]
fn post_calls_are_planned_once_credentials_resolve() {
    let c = hass()
        .request()
        .events(s("http://localhost:8123"), s("tok"), "tag_scanned", serde_json::Value::Object(serde_json::Map::new()))
        .unwrap();
    assert_eq!(c.method, Method::Post);
    assert_eq!(c.url, "http://localhost:8123/api/events/tag_scanned");
    assert_eq!(c.token, "tok");
    assert_eq!(c.body.as_deref(), Some("{}"));
}
