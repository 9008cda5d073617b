use deconz::pairing::token_from_document;
use deconz::state::light_state_from_document;
use deconz::{DeconzClient, Error, HttpFailure, Reply};

fn client() -> DeconzClient {
    DeconzClient::login_with_token("http://gateway.local/", String::from("TOKEN")).unwrap()
}

fn answered(status: u16, body: &str) -> Reply {
    Reply::Answered { status, body: String::from(body) }
}

fn shape_fault(r: Result<deconz::LightState, Error>) -> String {
    match r {
        Err(Error::ResponseParseError(what)) => what,
        other => panic!("unexpected: {:?}", other),
    }
}

#[test]
fn light_state_scenario() {
    let body = r#"{"name":"Kitchen","state":{"on":true,"reachable":true,"hue":12000,"bri":200,"sat":50}}"#;
    let state = client().get_light_state(&answered(200, body)).unwrap();
    assert_eq!(state.on, true);
    assert_eq!(state.reachable, true);
    assert_eq!(state.hue, Some(12000));
    assert_eq!(state.bri, Some(200));
    assert_eq!(state.sat, Some(50));
}

#[test]
fn light_state_without_colour_attributes() {
    let body = r#"{"state":{"on":false,"reachable":true,"alert":"none"},"type":"On/Off light"}"#;
    let state = client().get_light_state(&answered(200, body)).unwrap();
    assert_eq!(state.on, false);
    assert_eq!(state.reachable, true);
    assert_eq!(state.hue, None);
    assert_eq!(state.bri, None);
    assert_eq!(state.sat, None);
}

#[test]
fn light_state_attributes_are_independent() {
    let body = r#"{"state":{"on":true,"reachable":false,"bri":0,"hue":null}}"#;
    let state = client().get_light_state(&answered(200, body)).unwrap();
    assert_eq!(state.reachable, false);
    assert_eq!(state.hue, None);
    assert_eq!(state.bri, Some(0));
    assert_eq!(state.sat, None);
}

#[test]
fn light_state_reads_the_nested_object_only() {
    let body = r#"{"on":false,"reachable":false,"hue":1,"state":{"on":true,"reachable":true,"hue":65535,"bri":255,"sat":255}}"#;
    let state = client().get_light_state(&answered(200, body)).unwrap();
    assert_eq!(state.on, true);
    assert_eq!(state.reachable, true);
    assert_eq!(state.hue, Some(65535));
    assert_eq!(state.bri, Some(255));
    assert_eq!(state.sat, Some(255));
}

#[test]
fn light_state_faults_are_described() {
    let c = client();
    assert_eq!(
        shape_fault(c.get_light_state(&answered(200, "not json"))),
        "the response body is not valid JSON"
    );
    assert_eq!(
        shape_fault(c.get_light_state(&answered(200, "[1]"))),
        "the response is not a JSON object"
    );
    assert_eq!(
        shape_fault(c.get_light_state(&answered(200, r#"{"name":"Kitchen"}"#))),
        "missing field `state`"
    );
    assert_eq!(
        shape_fault(c.get_light_state(&answered(200, r#"{"state":true}"#))),
        "field `state` is not an object"
    );
    assert_eq!(
        shape_fault(c.get_light_state(&answered(200, r#"{"state":{"on":true}}"#))),
        "`on` or `reachable` is missing or not a boolean"
    );
    assert_eq!(
        shape_fault(c.get_light_state(&answered(200, r#"{"state":{"on":1,"reachable":true}}"#))),
        "`on` or `reachable` is missing or not a boolean"
    );
}

#[test]
fn light_state_levels_out_of_range_are_faults() {
    let c = client();
    let bodies = [
        r#"{"state":{"on":true,"reachable":true,"hue":65536}}"#,
        r#"{"state":{"on":true,"reachable":true,"bri":256}}"#,
        r#"{"state":{"on":true,"reachable":true,"sat":256}}"#,
        r#"{"state":{"on":true,"reachable":true,"sat":-1}}"#,
        r#"{"state":{"on":true,"reachable":true,"hue":1.5}}"#,
        r#"{"state":{"on":true,"reachable":true,"bri":"200"}}"#,
    ];
    for body in bodies {
        assert_eq!(
            shape_fault(c.get_light_state(&answered(200, body))),
            "`hue`, `bri` or `sat` is not an integer in range",
            "body {}",
            body
        );
    }
}

#[test]
fn light_state_transport_failures() {
    let c = client();
    let r = c.get_light_state(&answered(404, r#"{"state":{"on":true,"reachable":true}}"#));
    assert!(matches!(r, Err(Error::HttpError(HttpFailure::Status(404)))));
    let r = c.get_light_state(&Reply::Failed(String::from("timed out")));
    assert!(matches!(r, Err(Error::HttpError(HttpFailure::Unreachable(_)))));
}

#[test]
fn light_state_from_a_parsed_document() {
    let doc: serde_json::Value =
        serde_json::from_str(r#"{"state":{"on":true,"reachable":false,"sat":7}}"#).unwrap();
    let state = light_state_from_document(&doc).unwrap();
    assert_eq!(state.on, true);
    assert_eq!(state.reachable, false);
    assert_eq!(state.hue, None);
    assert_eq!(state.bri, None);
    assert_eq!(state.sat, Some(7));
}

#[test]
fn token_from_a_parsed_document() {
    let doc: serde_json::Value =
        serde_json::from_str(r#"[{"success":{"username":"0123456789ABCDEF"}}]"#).unwrap();
    assert_eq!(token_from_document(&doc).unwrap(), "0123456789ABCDEF");
}

#[test]
fn writes_are_accepted_on_any_2xx() {
    let c = client();
    for status in [200u16, 201, 204, 299] {
        assert!(c.set_on_state(&answered(status, "")).is_ok());
        assert!(c.set_light_color(&answered(status, "ignored")).is_ok());
    }
}

#[test]
fn writes_fail_on_any_other_status() {
    let c = client();
    for status in [100u16, 199, 300, 304, 400, 403, 404, 500, 503] {
        let r = c.set_on_state(&answered(status, r#"[{"success":{}}]"#));
        assert!(matches!(r, Err(Error::HttpError(HttpFailure::Status(s))) if s == status));
        let r = c.set_light_color(&answered(status, ""));
        assert!(matches!(r, Err(Error::HttpError(HttpFailure::Status(s))) if s == status));
    }
    let r = c.set_on_state(&Reply::Failed(String::from("dns")));
    assert!(matches!(r, Err(Error::HttpError(HttpFailure::Unreachable(_)))));
}
