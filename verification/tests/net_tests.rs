use mun_client::model::Direction;
use mun_client::model::ErrorDetail;
use mun_client::model::ErrorType;
use mun_client::net::MunHttpClient;
use mun_client::net::MunRequest;
use mun_client::net::ResponseStep;
use mun_client::net::classify_response;
use mun_client::net::conflict_error;
use mun_client::net::value_result;

fn client() -> MunHttpClient {
    MunHttpClient::new(String::from("http://host"))
}

#[test]
fn connect_request_url() {
    match client().connect_request() {
        MunRequest::Post(url, body) => {
            assert_eq!(url, "http://host/connect");
            assert_eq!(body, "");
        }
        _ => panic!("connect must be a POST"),
    }
}

#[test]
fn look_room_request_url() {
    match client().look_room_request(&String::from("g1")) {
        MunRequest::Get(url) => assert_eq!(url, "http://host/g1/regarder"),
        _ => panic!("look room must be a GET"),
    }
}

#[test]
fn move_request_url_and_body() {
    match client().move_request(&String::from("g1"), Direction::E) {
        MunRequest::Post(url, body) => {
            assert_eq!(url, "http://host/g1/deplacement");
            assert_eq!(body, "{ \"direction\": \"E\" }");
        }
        _ => panic!("move must be a POST"),
    }
}

#[test]
fn look_entity_request_url() {
    match client().look_entity_request(&String::from("g1"), &String::from("g2")) {
        MunRequest::Get(url) => assert_eq!(url, "http://host/g1/examiner/g2"),
        _ => panic!("look entity must be a GET"),
    }
}

#[test]
fn attack_request_url() {
    match client().attack_request(&String::from("g1"), &String::from("g2")) {
        MunRequest::Post(url, body) => {
            assert_eq!(url, "http://host/g1/taper/g2");
            assert_eq!(body, "");
        }
        _ => panic!("attack must be a POST"),
    }
}

#[test]
fn transport_failure_retries_exactly_once() {
    let mut c = client();
    // First transport failure of a call: one retry is granted.
    assert!(c.on_transport_failure());
    // Second transport failure: the call gives up; two attempts ran.
    assert!(!c.on_transport_failure());
    // The retry state is per call: the next call starts fresh.
    assert!(c.on_transport_failure());
    assert!(!c.on_transport_failure());
}

#[test]
fn response_resets_retry_state() {
    let mut c = client();
    assert!(c.on_transport_failure());
    c.on_response();
    // A response, whatever its status, is never retried, and the next
    // transport failure again grants one retry.
    assert!(c.on_transport_failure());
}

#[test]
fn transport_error_value() {
    let e = mun_client::net::transport_error();
    assert_eq!(e.code, None);
    assert_eq!(e.detail.kind, None);
    assert_eq!(e.detail.message, "A network error has occured");
}

#[test]
fn classify_400() {
    match classify_response(400, true) {
        ResponseStep::Fail(e) => {
            assert_eq!(e.code, Some(400));
            assert_eq!(e.detail.message, "Bad request");
        }
        _ => panic!("400 must fail without body inspection"),
    }
}

#[test]
fn classify_404() {
    match classify_response(404, false) {
        ResponseStep::Fail(e) => {
            assert_eq!(e.code, Some(404));
            assert_eq!(e.detail.message, "URL not found");
        }
        _ => panic!("404 must fail without body inspection"),
    }
}

#[test]
fn classify_409_with_readable_body_wants_detail() {
    assert!(matches!(classify_response(409, true), ResponseStep::ParseConflict));
}

#[test]
fn classify_409_with_unreadable_body() {
    match classify_response(409, false) {
        ResponseStep::Fail(e) => {
            assert_eq!(e.code, None);
            assert_eq!(e.detail.message, "Error while parsing JSON response");
        }
        _ => panic!("an unreadable body must fail"),
    }
}

#[test]
fn classify_success_wants_value() {
    assert!(matches!(classify_response(200, true), ResponseStep::ParseValue));
    assert!(matches!(classify_response(500, true), ResponseStep::ParseValue));
}

#[test]
fn classify_success_with_unreadable_body() {
    match classify_response(200, false) {
        ResponseStep::Fail(e) => {
            assert_eq!(e.detail.message, "Error while parsing JSON response");
        }
        _ => panic!("an unreadable body must fail"),
    }
}

#[test]
fn conflict_with_valid_detail_keeps_kind_and_message() {
    let d = ErrorDetail { kind: Some(ErrorType::Wall), message: String::from("a wall") };
    let e = conflict_error(Some(d));
    assert_eq!(e.code, Some(409));
    assert_eq!(e.detail.kind, Some(ErrorType::Wall));
    assert_eq!(e.detail.message, "a wall");
}

#[test]
fn conflict_with_invalid_detail_is_decode_error() {
    let e = conflict_error(None);
    assert_eq!(e.code, None);
    assert_eq!(e.detail.kind, None);
    assert_eq!(e.detail.message, "Error while deserializing object");
}

#[test]
fn value_result_passes_value_through() {
    let r: Result<u32, mun_client::model::Error> = value_result(Some(7));
    assert_eq!(r.unwrap(), 7);
}

#[test]
fn value_result_without_value_is_decode_error() {
    let r: Result<u32, mun_client::model::Error> = value_result(None);
    match r {
        Err(e) => assert_eq!(e.detail.message, "Error while deserializing object"),
        Ok(_) => panic!("a missing value must fail"),
    }
}

#[test]
fn conflict_from_real_json_body() {
    // What the shell does with a 409 body, end to end: decode the body as
    // an ErrorDetail, then let the library classify it.
    let body = "{\"type\":\"MORT\",\"message\":\"you are dead\"}";
    let v: serde_json::Value = serde_json::from_str(body).unwrap();
    let kind = match v.get("type").and_then(|t| t.as_str()) {
        Some("MORT") => Some(ErrorType::Dead),
        Some("MUR") => Some(ErrorType::Wall),
        Some("DIFFSALLE") => Some(ErrorType::DiffRoom),
        _ => None,
    };
    let message = String::from(v.get("message").and_then(|m| m.as_str()).unwrap());
    let e = conflict_error(Some(ErrorDetail { kind, message }));
    assert_eq!(e.code, Some(409));
    assert_eq!(e.detail.kind, Some(ErrorType::Dead));
    assert_eq!(e.detail.message, "you are dead");
}

#[test]
fn conflict_from_invalid_json_body() {
    // An invalid 409 body must surface the decode error, never a
    // fabricated conflict detail and never a crash.
    let body = "not json at all";
    let parsed: Option<ErrorDetail> = match serde_json::from_str::<serde_json::Value>(body) {
        Ok(v) => {
            let message = v.get("message").and_then(|m| m.as_str()).map(String::from);
            message.map(|message| ErrorDetail { kind: None, message })
        }
        Err(_) => None,
    };
    let e = conflict_error(parsed);
    assert_eq!(e.code, None);
    assert_eq!(e.detail.message, "Error while deserializing object");
}
