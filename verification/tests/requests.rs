use deconz::client::with_scheme;
use deconz::request::{write_color_body, write_light_path, write_on_state_body};
use deconz::{DeconzClient, Error, HttpFailure, Light, Method};

fn client() -> DeconzClient {
    DeconzClient::login_with_token("http://gateway.local:8080", String::from("TOKEN")).unwrap()
}

fn light(id: u32) -> Light {
    Light { name: String::from("Kitchen"), id }
}

fn member_names(body: &str) -> Vec<String> {
    let doc: serde_json::Value = serde_json::from_str(body).unwrap();
    doc.as_object().unwrap().keys().cloned().collect()
}

#[test]
fn colour_body_with_hue_only() {
    let request = client().light_color_request(&light(1), Some(100), None, None).unwrap();
    let body = request.body.unwrap();
    assert_eq!(body, r#"{"hue":100}"#);
    assert_eq!(member_names(&body), vec![String::from("hue")]);
    assert!(!body.contains("bri"));
    assert!(!body.contains("sat"));
    assert!(!body.contains("null"));
}

#[test]
fn colour_body_for_each_combination() {
    assert_eq!(write_color_body(None, None, None), "{}");
    assert_eq!(write_color_body(Some(0), None, None), r#"{"hue":0}"#);
    assert_eq!(write_color_body(None, Some(0), None), r#"{"bri":0}"#);
    assert_eq!(write_color_body(None, None, Some(0)), r#"{"sat":0}"#);
    assert_eq!(write_color_body(Some(65535), Some(255), None), r#"{"hue":65535,"bri":255}"#);
    assert_eq!(write_color_body(Some(1), None, Some(2)), r#"{"hue":1,"sat":2}"#);
    assert_eq!(write_color_body(None, Some(10), Some(200)), r#"{"bri":10,"sat":200}"#);
    assert_eq!(
        write_color_body(Some(12000), Some(200), Some(50)),
        r#"{"hue":12000,"bri":200,"sat":50}"#
    );
}

#[test]
fn colour_body_reads_back_as_the_given_attributes() {
    let hues = [None, Some(0u16), Some(40000)];
    let levels = [None, Some(0u8), Some(254)];
    for hue in hues {
        for bri in levels {
            for sat in levels {
                let body = write_color_body(hue, bri, sat);
                let doc: serde_json::Value = serde_json::from_str(&body).unwrap();
                let members = doc.as_object().unwrap();
                let given = hue.is_some() as usize + bri.is_some() as usize + sat.is_some() as usize;
                assert_eq!(members.len(), given);
                assert_eq!(members.get("hue").and_then(|v| v.as_u64()), hue.map(u64::from));
                assert_eq!(members.get("bri").and_then(|v| v.as_u64()), bri.map(u64::from));
                assert_eq!(members.get("sat").and_then(|v| v.as_u64()), sat.map(u64::from));
                assert_eq!(members.contains_key("hue"), hue.is_some());
                assert_eq!(members.contains_key("bri"), bri.is_some());
                assert_eq!(members.contains_key("sat"), sat.is_some());
            }
        }
    }
}

#[test]
fn on_body_holds_on_only() {
    assert_eq!(write_on_state_body(true), r#"{"on":true}"#);
    assert_eq!(write_on_state_body(false), r#"{"on":false}"#);
    let request = client().on_state_request(&light(4), true).unwrap();
    assert_eq!(member_names(&request.body.unwrap()), vec![String::from("on")]);
}

#[test]
fn requests_go_to_the_documented_paths() {
    let c = client();
    let list = c.light_list_request().unwrap();
    assert_eq!(list.method, Method::Get);
    assert_eq!(list.url.as_str(), "http://gateway.local:8080/api/TOKEN/lights");
    assert!(list.body.is_none());

    let state = c.light_state_request(&light(17)).unwrap();
    assert_eq!(state.method, Method::Get);
    assert_eq!(state.url.as_str(), "http://gateway.local:8080/api/TOKEN/lights/17");
    assert!(state.body.is_none());

    let on = c.on_state_request(&light(17), false).unwrap();
    assert_eq!(on.method, Method::Put);
    assert_eq!(on.url.as_str(), "http://gateway.local:8080/api/TOKEN/lights/17/state");
    assert_eq!(on.body.as_deref(), Some(r#"{"on":false}"#));

    let colour = c.light_color_request(&light(4294967295), None, Some(3), None).unwrap();
    assert_eq!(colour.method, Method::Put);
    assert_eq!(
        colour.url.as_str(),
        "http://gateway.local:8080/api/TOKEN/lights/4294967295/state"
    );
    assert_eq!(colour.body.as_deref(), Some(r#"{"bri":3}"#));
}

#[test]
fn paths_write_ids_in_decimal() {
    assert_eq!(write_light_path("t", 0), "api/t/lights/0");
    assert_eq!(write_light_path("t", 9), "api/t/lights/9");
    assert_eq!(write_light_path("t", 10), "api/t/lights/10");
    assert_eq!(write_light_path("t", 1000), "api/t/lights/1000");
    assert_eq!(write_light_path("t", 4294967295), "api/t/lights/4294967295");
}

#[test]
fn written_ids_read_back() {
    for id in [0u32, 1, 9, 10, 99, 100, 65535, 4294967294, 4294967295] {
        let path = write_light_path("", id);
        let text = path.strip_prefix("api//lights/").unwrap();
        assert_eq!(deconz::ident::parse_light_id(text), Ok(id));
    }
}

#[test]
fn pairing_request_posts_the_device_type() {
    let request = DeconzClient::pairing_request("http://192.168.1.2").unwrap();
    assert_eq!(request.method, Method::Post);
    assert_eq!(request.url.as_str(), "http://192.168.1.2/api");
    assert_eq!(request.body.as_deref(), Some(r#"{"devicetype":"deconz-rs"}"#));
}

#[test]
fn requests_resolve_against_the_address() {
    let c = DeconzClient::login_with_token("http://host/deconz/", String::from("a b")).unwrap();
    let list = c.light_list_request().unwrap();
    assert_eq!(list.url.as_str(), "http://host/deconz/api/a%20b/lights");
}

#[test]
fn token_login_keeps_address_and_token() {
    let c = DeconzClient::login_with_token("HTTP://Gateway.Local", String::from("secret")).unwrap();
    assert_eq!(c.url().as_str(), "http://gateway.local/");
    assert_eq!(c.token(), "secret");
    assert_eq!(c.username, "secret");
}

#[test]
fn token_login_rejects_what_is_no_address() {
    for text in ["", "gateway.local", "not a url", "mailto:someone@example.org", "data:text/plain,x"] {
        let r = DeconzClient::login_with_token(text, String::from("TOKEN"));
        assert!(
            matches!(r, Err(Error::HttpError(HttpFailure::InvalidUrl))),
            "address {:?}",
            text
        );
        let r = DeconzClient::pairing_request(text);
        assert!(matches!(r, Err(Error::HttpError(HttpFailure::InvalidUrl))));
    }
}

#[test]
fn addresses_without_a_scheme_are_taken_as_http() {
    assert_eq!(with_scheme("192.168.1.2"), "http://192.168.1.2");
    assert_eq!(with_scheme("gateway.local:8080"), "http://gateway.local:8080");
    assert_eq!(with_scheme("https://gateway.local"), "https://gateway.local");
    assert_eq!(with_scheme("://"), "://");
    assert_eq!(with_scheme("a:/"), "http://a:/");
    assert_eq!(with_scheme(""), "http://");
    assert_eq!(with_scheme("a:/b://"), "a:/b://");
}

#[test]
fn copies_keep_the_address() {
    let c = client();
    let d = c.clone();
    assert_eq!(c.url().as_str(), d.url().as_str());
    assert_eq!(c.token(), d.token());
    let request = c.light_list_request().unwrap();
    let copy = request.clone();
    assert_eq!(request.url.as_str(), copy.url.as_str());
    assert_eq!(request.method, copy.method);
}
