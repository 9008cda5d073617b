use deconz::directory::lights_from_document;
use deconz::ident::parse_light_id;
use deconz::{DeconzClient, Error, HttpFailure, IdParseFailure, Light, Reply};

fn client() -> DeconzClient {
    DeconzClient::login_with_token("http://gateway.local:8080/", String::from("TOKEN")).unwrap()
}

fn answered(status: u16, body: &str) -> Reply {
    Reply::Answered { status, body: String::from(body) }
}

fn sorted(mut lights: Vec<Light>) -> Vec<(u32, String)> {
    lights.sort_by_key(|l| l.id);
    lights.into_iter().map(|l| (l.id, l.name)).collect()
}

#[test]
fn directory_scenario_lists_both_lights() {
    let reply = answered(200, r#"{"1":{"name":"Kitchen"},"3":{"name":"Hall"}}"#);
    let lights = client().get_light_list(&reply).unwrap();
    assert_eq!(lights.len(), 2);
    assert_eq!(
        sorted(lights),
        vec![(1, String::from("Kitchen")), (3, String::from("Hall"))]
    );
}

#[test]
fn directory_gives_one_light_per_key() {
    let body = r#"{"12":{"name":"A","type":"Dimmable light"},"007":{"name":"B"},"+5":{"name":"C"},"4294967295":{"name":"D"}}"#;
    let lights = client().get_light_list(&answered(200, body)).unwrap();
    assert_eq!(
        sorted(lights),
        vec![
            (5, String::from("C")),
            (7, String::from("B")),
            (12, String::from("A")),
            (4294967295, String::from("D")),
        ]
    );
}

#[test]
fn directory_passes_colliding_ids_through() {
    let body = r#"{"1":{"name":"A"},"01":{"name":"B"}}"#;
    let lights = client().get_light_list(&answered(200, body)).unwrap();
    assert_eq!(
        sorted(lights).iter().map(|l| l.0).collect::<Vec<u32>>(),
        vec![1, 1]
    );
}

#[test]
fn empty_directory_is_an_empty_list() {
    let lights = client().get_light_list(&answered(200, "{}")).unwrap();
    assert!(lights.is_empty());
}

#[test]
fn one_bad_key_fails_the_whole_directory() {
    let body = r#"{"1":{"name":"Kitchen"},"x3":{"name":"Hall"},"4":{"name":"Attic"}}"#;
    let r = client().get_light_list(&answered(200, body));
    assert!(matches!(r, Err(Error::IdParseError(IdParseFailure::InvalidDigit))));
}

#[test]
fn negative_key_is_no_id() {
    let r = client().get_light_list(&answered(200, r#"{"-1":{"name":"Kitchen"}}"#));
    assert!(matches!(r, Err(Error::IdParseError(IdParseFailure::InvalidDigit))));
}

#[test]
fn empty_key_is_no_id() {
    let r = client().get_light_list(&answered(200, r#"{"":{"name":"Kitchen"}}"#));
    assert!(matches!(r, Err(Error::IdParseError(IdParseFailure::Empty))));
}

#[test]
fn too_large_key_is_no_id() {
    let r = client().get_light_list(&answered(200, r#"{"4294967296":{"name":"Kitchen"}}"#));
    assert!(matches!(r, Err(Error::IdParseError(IdParseFailure::PosOverflow))));
}

#[test]
fn entry_without_name_is_a_shape_fault() {
    let r = client().get_light_list(&answered(200, r#"{"1":{"name":"Kitchen"},"x":{"label":"Hall"}}"#));
    match r {
        Err(Error::ResponseParseError(what)) => {
            assert_eq!(what, "a light entry is not an object with a `name` string")
        }
        other => panic!("unexpected: {:?}", other),
    }
}

#[test]
fn directory_that_is_no_object_is_a_shape_fault() {
    let r = client().get_light_list(&answered(200, r#"[{"name":"Kitchen"}]"#));
    match r {
        Err(Error::ResponseParseError(what)) => assert_eq!(what, "the response is not a JSON object"),
        other => panic!("unexpected: {:?}", other),
    }
}

#[test]
fn directory_that_is_no_json_is_a_shape_fault() {
    let r = client().get_light_list(&answered(200, "<html>"));
    match r {
        Err(Error::ResponseParseError(what)) => assert_eq!(what, "the response body is not valid JSON"),
        other => panic!("unexpected: {:?}", other),
    }
}

#[test]
fn directory_with_error_status_is_a_transport_failure() {
    let r = client().get_light_list(&answered(403, r#"{"1":{"name":"Kitchen"}}"#));
    assert!(matches!(r, Err(Error::HttpError(HttpFailure::Status(403)))));
    let r = client().get_light_list(&answered(500, ""));
    assert!(matches!(r, Err(Error::HttpError(HttpFailure::Status(500)))));
}

#[test]
fn directory_without_answer_is_a_transport_failure() {
    let r = client().get_light_list(&Reply::Failed(String::from("connection refused")));
    match r {
        Err(Error::HttpError(HttpFailure::Unreachable(why))) => assert_eq!(why, "connection refused"),
        other => panic!("unexpected: {:?}", other),
    }
}

#[test]
fn lights_from_a_parsed_document() {
    let doc: serde_json::Value = serde_json::from_str(r#"{"9":{"name":"Desk"}}"#).unwrap();
    let lights = lights_from_document(&doc).unwrap();
    assert_eq!(lights.len(), 1);
    assert_eq!(lights[0].id, 9);
    assert_eq!(lights[0].name, "Desk");
}

#[test]
fn light_ids_parse_like_decimal_numbers() {
    assert_eq!(parse_light_id("0"), Ok(0));
    assert_eq!(parse_light_id("42"), Ok(42));
    assert_eq!(parse_light_id("+42"), Ok(42));
    assert_eq!(parse_light_id("00042"), Ok(42));
    assert_eq!(parse_light_id("4294967295"), Ok(u32::MAX));
    assert_eq!(parse_light_id("000000000004294967295"), Ok(u32::MAX));
    assert_eq!(parse_light_id(""), Err(IdParseFailure::Empty));
    assert_eq!(parse_light_id("+"), Err(IdParseFailure::InvalidDigit));
    assert_eq!(parse_light_id("-"), Err(IdParseFailure::InvalidDigit));
    assert_eq!(parse_light_id("-3"), Err(IdParseFailure::InvalidDigit));
    assert_eq!(parse_light_id("++3"), Err(IdParseFailure::InvalidDigit));
    assert_eq!(parse_light_id("3 "), Err(IdParseFailure::InvalidDigit));
    assert_eq!(parse_light_id(" 3"), Err(IdParseFailure::InvalidDigit));
    assert_eq!(parse_light_id("1_0"), Err(IdParseFailure::InvalidDigit));
    assert_eq!(parse_light_id("1.0"), Err(IdParseFailure::InvalidDigit));
    assert_eq!(parse_light_id("\u{663}"), Err(IdParseFailure::InvalidDigit));
    assert_eq!(parse_light_id("4294967296"), Err(IdParseFailure::PosOverflow));
    assert_eq!(parse_light_id("99999999999"), Err(IdParseFailure::PosOverflow));
    assert_eq!(parse_light_id("99999999999x"), Err(IdParseFailure::PosOverflow));
    assert_eq!(parse_light_id("9x9999999999"), Err(IdParseFailure::InvalidDigit));
}

#[test]
fn light_ids_parse_as_the_standard_library_parses_them() {
    let keys = [
        "", "+", "-", "0", "+0", "-0", "7", "007", "+12", "12a", "a12", "4294967295", "4294967296",
        "99999999999x", "x99999999999", "1 ", "٣", "+-1", " 1",
    ];
    for key in keys {
        let ours = parse_light_id(key).ok();
        let theirs = u32::from_str_radix(key, 10).ok();
        assert_eq!(ours, theirs, "key {:?}", key);
    }
}
