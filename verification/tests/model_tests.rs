use mun_client::model::Direction;
use mun_client::model::Error;
use mun_client::model::ErrorType;
use mun_client::model::EntityType;

#[test]
fn movement_json_north() {
    assert_eq!(Direction::N.to_movement_json(), "{ \"direction\": \"N\" }");
}

#[test]
fn movement_json_east() {
    assert_eq!(Direction::E.to_movement_json(), "{ \"direction\": \"E\" }");
}

#[test]
fn movement_json_south() {
    assert_eq!(Direction::S.to_movement_json(), "{ \"direction\": \"S\" }");
}

#[test]
fn movement_json_west() {
    assert_eq!(Direction::W.to_movement_json(), "{ \"direction\": \"W\" }");
}

#[test]
fn error_type_labels() {
    assert_eq!(ErrorType::Dead.to_string(), "Death");
    assert_eq!(ErrorType::Wall.to_string(), "Wall");
    assert_eq!(ErrorType::DiffRoom.to_string(), "Different room");
}

#[test]
fn entity_type_labels() {
    assert_eq!(EntityType::Monster.to_label(), "Monster");
    assert_eq!(EntityType::Player.to_label(), "Player");
}

#[test]
fn error_from_string_has_no_code_and_no_kind() {
    let e = Error::from_error_string(String::from("boom"));
    assert_eq!(e.code, None);
    assert_eq!(e.detail.kind, None);
    assert_eq!(e.detail.message, "boom");
}

#[test]
fn deserialization_error_value() {
    let e = mun_client::model::deserialization_error();
    assert_eq!(e.code, None);
    assert_eq!(e.detail.kind, None);
    assert_eq!(e.detail.message, "Error while deserializing object");
}
