use mun_client::model::Direction;
use mun_client::model::Entity;
use mun_client::model::EntityType;
use mun_client::model::Error;
use mun_client::model::ErrorDetail;
use mun_client::model::ErrorType;
use mun_client::model::Fight;
use mun_client::model::Fighter;
use mun_client::model::Room;
use mun_client::model::Status;
use mun_client::net::MunRequest;
use mun_client::runner::EntitiesList;
use mun_client::runner::Key;
use mun_client::runner::PendingOp;
use mun_client::runner::Runner;
use mun_client::runner::u32_to_string;
use mun_client::session::Session;

fn room(description: &str, entities: &[&str]) -> Room {
    Room {
        description: String::from(description),
        paths: vec![Direction::N],
        entities: entities.iter().map(|g| String::from(*g)).collect(),
    }
}

fn connected_runner() -> Runner {
    let mut s = Session::new(String::from("http://host"));
    s.finish_connect(Ok(Status {
        guid: String::from("g1"),
        total_life: 100,
        room: room("cave", &["g1", "g2", "g3"]),
    }));
    let mut r = Runner::new(s);
    r.fill_entities_list();
    r
}

#[test]
fn u32_rendering() {
    assert_eq!(u32_to_string(0), "0");
    assert_eq!(u32_to_string(7), "7");
    assert_eq!(u32_to_string(10), "10");
    assert_eq!(u32_to_string(409), "409");
    assert_eq!(u32_to_string(4294967295), "4294967295");
}

#[test]
fn cursor_wraps_down_and_up() {
    let mut l = EntitiesList::new();
    l.entities = vec![1, 2, 3];
    // A fresh cursor lands on the first position.
    l.try_select_next();
    assert_eq!(l.selected, Some(0));
    l.try_select_next();
    assert_eq!(l.selected, Some(1));
    l.try_select_next();
    assert_eq!(l.selected, Some(2));
    // Down at the last position wraps to the first.
    l.try_select_next();
    assert_eq!(l.selected, Some(0));
    // Up at the first position wraps to the last.
    l.try_select_previous();
    assert_eq!(l.selected, Some(2));
    l.try_select_previous();
    assert_eq!(l.selected, Some(1));
}

#[test]
fn cursor_on_empty_list_is_noop() {
    let mut l = EntitiesList::new();
    l.try_select_next();
    assert_eq!(l.selected, None);
    l.try_select_previous();
    assert_eq!(l.selected, None);
    assert_eq!(l.get_selected_entity(), None);
}

#[test]
fn selected_entity_is_key_under_cursor() {
    let mut l = EntitiesList::new();
    l.entities = vec![4, 5, 6];
    assert_eq!(l.get_selected_entity(), None);
    l.try_select_next();
    assert_eq!(l.get_selected_entity(), Some(4));
    l.try_select_next();
    assert_eq!(l.get_selected_entity(), Some(5));
}

#[test]
fn stale_cursor_past_list_end_selects_nothing() {
    let mut l = EntitiesList::new();
    l.entities = vec![1];
    l.selected = Some(5);
    assert_eq!(l.get_selected_entity(), None);
}

#[test]
fn attack_selection_end_to_end() {
    // Connect as g1 in a room with g1, g2, g3: the registry maps 1 to g2
    // and 2 to g3.  Pressing 'a', then Down, then Enter attacks g2.
    let mut r = connected_runner();
    assert_eq!(r.session.get_entities_keys(), vec![1, 2]);
    assert_eq!(r.session.get_entity_guid(1), Some(String::from("g2")));
    assert_eq!(r.session.get_entity_guid(2), Some(String::from("g3")));

    assert!(r.handle_input(Key::Char('a')).is_none());
    assert!(r.popup_manager.popup_mode);
    assert!(r.popup_manager.will_attack);
    assert_eq!(r.popup_manager.title, "Attack who");

    assert!(r.handle_input(Key::Down).is_none());
    match r.handle_input(Key::Enter) {
        Some((PendingOp::Attack, MunRequest::Post(url, body))) => {
            assert_eq!(url, "http://host/g1/taper/g2");
            assert_eq!(body, "");
        }
        _ => panic!("Enter on the attack selection must begin an attack"),
    }
    assert!(!r.popup_manager.popup_mode);
    assert!(!r.popup_manager.will_attack);
    assert_eq!(r.popup_manager.entities_list.selected, None);
}

#[test]
fn look_selection_end_to_end() {
    let mut r = connected_runner();
    assert!(r.handle_input(Key::Char('e')).is_none());
    assert!(r.popup_manager.will_look);
    assert_eq!(r.popup_manager.title, "Look who");
    r.handle_input(Key::Down);
    r.handle_input(Key::Down);
    match r.handle_input(Key::Enter) {
        Some((PendingOp::LookEntity, MunRequest::Get(url))) => {
            assert_eq!(url, "http://host/g1/examiner/g3");
        }
        _ => panic!("Enter on the look selection must begin a look"),
    }
}

#[test]
fn enter_without_selection_keeps_popup_open() {
    let mut r = connected_runner();
    r.handle_input(Key::Char('a'));
    // No cursor movement: nothing is selected, so Enter fires nothing and
    // is a no-op, not a dismissal — the selection popup stays open.
    assert!(r.handle_input(Key::Enter).is_none());
    assert!(r.popup_manager.popup_mode);
    assert!(r.popup_manager.will_attack);
    assert!(r.session.error.is_none());
    // A later Enter with a selection still fires.
    r.handle_input(Key::Down);
    match r.handle_input(Key::Enter) {
        Some((PendingOp::Attack, MunRequest::Post(url, _))) => {
            assert_eq!(url, "http://host/g1/taper/g2");
        }
        _ => panic!("Enter with a selection must begin an attack"),
    }
    assert!(!r.popup_manager.popup_mode);
}

#[test]
fn enter_on_empty_selection_list_is_noop() {
    let mut s = Session::new(String::from("http://host"));
    s.finish_connect(Ok(Status {
        guid: String::from("g1"),
        total_life: 100,
        room: room("cell", &["g1"]),
    }));
    let mut r = Runner::new(s);
    r.fill_entities_list();
    r.handle_input(Key::Char('e'));
    assert!(r.popup_manager.entities_list.entities.is_empty());
    // Up, Down and Enter are all no-ops on an empty key list; the
    // selection popup remains shown.
    r.handle_input(Key::Up);
    r.handle_input(Key::Down);
    assert_eq!(r.popup_manager.entities_list.selected, None);
    assert!(r.handle_input(Key::Enter).is_none());
    assert!(r.popup_manager.popup_mode);
    assert!(r.popup_manager.will_look);
    assert!(r.session.error.is_none());
}

#[test]
fn connect_key_begins_connect() {
    let mut r = Runner::new(Session::new(String::from("http://host")));
    match r.handle_input(Key::Char('c')) {
        Some((PendingOp::Connect, MunRequest::Post(url, body))) => {
            assert_eq!(url, "http://host/connect");
            assert_eq!(body, "");
        }
        _ => panic!("'c' must begin a connect"),
    }
}

#[test]
fn disconnect_key_clears_session() {
    let mut r = connected_runner();
    assert!(r.handle_input(Key::Char('d')).is_none());
    assert!(!r.session.is_connected());
    assert!(r.session.entity_map.is_empty());
}

#[test]
fn arrows_begin_moves() {
    let mut r = connected_runner();
    match r.handle_input(Key::Up) {
        Some((PendingOp::Move, MunRequest::Post(url, body))) => {
            assert_eq!(url, "http://host/g1/deplacement");
            assert_eq!(body, "{ \"direction\": \"N\" }");
        }
        _ => panic!("Up must begin a move north"),
    }
    match r.handle_input(Key::Left) {
        Some((PendingOp::Move, MunRequest::Post(_, body))) => {
            assert_eq!(body, "{ \"direction\": \"W\" }");
        }
        _ => panic!("Left must begin a move west"),
    }
}

#[test]
fn arrow_without_status_sets_error_and_no_request() {
    let mut r = Runner::new(Session::new(String::from("http://host")));
    assert!(r.handle_input(Key::Down).is_none());
    assert_eq!(
        r.session.error.as_ref().unwrap().detail.message,
        "Error while accessing player status, status is uninitialized"
    );
}

#[test]
fn help_key_shows_keybinds() {
    let mut r = Runner::new(Session::new(String::from("http://host")));
    assert!(r.handle_input(Key::Char('h')).is_none());
    assert!(r.popup_manager.popup_mode);
    assert_eq!(r.popup_manager.title, "Keybinds");
    assert_eq!(r.popup_manager.infos.len(), 7);
    assert_eq!(r.popup_manager.infos[0], "[c]        (re)connect");
    assert_eq!(r.popup_manager.infos[6], "[q]        quit");
}

#[test]
fn enter_on_info_popup_clears_infos() {
    let mut r = connected_runner();
    r.session.error = Some(Error::from_error_string(String::from("e")));
    r.handle_errors();
    assert!(r.popup_manager.popup_mode);
    assert!(r.handle_input(Key::Enter).is_none());
    assert!(!r.popup_manager.popup_mode);
    assert!(r.session.error.is_none());
    assert!(r.session.is_connected());
}

#[test]
fn unknown_keys_do_nothing() {
    let mut r = connected_runner();
    assert!(r.handle_input(Key::Char('z')).is_none());
    assert!(r.handle_input(Key::Other).is_none());
    assert!(r.session.is_connected());
    assert!(!r.popup_manager.popup_mode);
}

#[test]
fn enter_with_stale_key_makes_no_request() {
    let mut r = connected_runner();
    r.handle_input(Key::Char('a'));
    r.handle_input(Key::Down);
    // The room empties under the popup: the selected key resolves to
    // nothing, so Enter fires nothing, records no error, and leaves the
    // selection popup standing.
    r.session.finish_room_response(Ok(room("pit", &["g1"])));
    assert!(r.handle_input(Key::Enter).is_none());
    assert!(r.session.error.is_none());
    assert!(r.popup_manager.popup_mode);
    assert!(r.popup_manager.will_attack);
}

#[test]
fn enter_with_selection_but_no_status_sets_error() {
    let mut r = connected_runner();
    r.handle_input(Key::Char('a'));
    r.handle_input(Key::Down);
    // The session drops under the popup: the key still resolves through
    // the registry, so the attack command is invoked — refused locally —
    // and the popup is dismissed; the error surfaces next iteration.
    r.session.status = None;
    assert!(r.handle_input(Key::Enter).is_none());
    assert!(!r.popup_manager.popup_mode);
    assert_eq!(
        r.session.error.as_ref().unwrap().detail.message,
        "Error while accessing player status, status is uninitialized"
    );
}

#[test]
fn fight_popup_lines() {
    let mut r = connected_runner();
    r.session.fight_info = Some(Fight {
        attacker: Fighter { guid: String::from("g1"), damage: 3, life: 97 },
        defender: Fighter { guid: String::from("g2"), damage: 12, life: 4 },
    });
    r.display_misc_info();
    assert!(r.popup_manager.popup_mode);
    assert_eq!(r.popup_manager.title, "Fight result");
    assert_eq!(
        r.popup_manager.infos,
        vec![
            String::from("You inflicted 3 DP and have 97 HP left"),
            String::from("Your enemy inflicted 12 DP and has 4 HP left"),
        ]
    );
}

#[test]
fn entity_popup_lines() {
    let mut r = connected_runner();
    r.session.entity_info = Some(Entity {
        description: String::from("an orc"),
        kind: EntityType::Monster,
        life: 5,
        total_life: 9,
    });
    r.display_misc_info();
    assert_eq!(r.popup_manager.title, "Entity info");
    assert_eq!(
        r.popup_manager.infos,
        vec![String::from("an orc"), String::from("Monster"), String::from("5/9 HP")]
    );
}

#[test]
fn error_popup_lines_with_code_and_kind() {
    let mut r = connected_runner();
    r.session.error = Some(Error {
        code: Some(409),
        detail: ErrorDetail { kind: Some(ErrorType::Wall), message: String::from("a wall") },
    });
    r.handle_errors();
    assert!(r.popup_manager.popup_mode);
    assert_eq!(r.popup_manager.title, "Error");
    assert_eq!(
        r.popup_manager.infos,
        vec![
            String::from("Code: 409"),
            String::from("Type: Wall"),
            String::from("Message: a wall"),
        ]
    );
}

#[test]
fn error_popup_lines_without_code() {
    let mut r = connected_runner();
    r.session.error = Some(Error::from_error_string(String::from("boom")));
    r.handle_errors();
    assert_eq!(r.popup_manager.infos, vec![String::from("Message: boom")]);
}

#[test]
fn no_error_leaves_popup_alone() {
    let mut r = connected_runner();
    r.handle_errors();
    r.display_misc_info();
    assert!(!r.popup_manager.popup_mode);
}

#[test]
fn fill_entities_list_tracks_registry() {
    let mut r = connected_runner();
    assert_eq!(r.popup_manager.entities_list.entities, vec![1, 2]);
    r.session.finish_room_response(Ok(room("pit", &["g1"])));
    r.fill_entities_list();
    assert!(r.popup_manager.entities_list.entities.is_empty());
}
