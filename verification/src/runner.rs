//! The interactive loop's verified half: the selection-list cursor, the
//! modal popup state machine, the popup content derived from the session,
//! and the key dispatcher that turns a key press into state changes and, for
//! the network commands, into the request the shell must perform.
//!
//! The unverified shell owns the terminal, the input/tick channel and the
//! drawing; every decision is made here.

use vstd::prelude::*;

use crate::model::{Direction, Entity, Fight, EntityView, ErrorView, FightView, FighterView};
use crate::model::{entity_type_label, error_type_label, movement_json};
use crate::net::{MunRequest, MunRequestView};
use crate::net::{attack_url, connect_url, look_entity_url, look_room_url, move_url};
use crate::session::{Session, uninitialized_error_view};

verus! {

/// The decimal digit character of `d`.
pub open spec fn dec_digit(d: nat) -> char {
    if d == 0 {
        '0'
    } else if d == 1 {
        '1'
    } else if d == 2 {
        '2'
    } else if d == 3 {
        '3'
    } else if d == 4 {
        '4'
    } else if d == 5 {
        '5'
    } else if d == 6 {
        '6'
    } else if d == 7 {
        '7'
    } else if d == 8 {
        '8'
    } else {
        '9'
    }
}

/// The decimal rendering of `n`, most significant digit first, without
/// leading zeros (a single `'0'` for zero).
pub open spec fn dec_str(n: nat) -> Seq<char>
    decreases n,
{
    if n < 10 {
        seq![dec_digit(n)]
    } else {
        dec_str(n / 10).push(dec_digit(n % 10))
    }
}

/// The decimal digit character of `d` as a one-character string.
fn digit_str(d: u32) -> (r: &'static str)
    requires
        d < 10,
    ensures
        r@ == seq![dec_digit(d as nat)],
{
    proof {
        reveal_strlit("0");
        reveal_strlit("1");
        reveal_strlit("2");
        reveal_strlit("3");
        reveal_strlit("4");
        reveal_strlit("5");
        reveal_strlit("6");
        reveal_strlit("7");
        reveal_strlit("8");
        reveal_strlit("9");
        assert("0"@ =~= seq!['0']);
        assert("1"@ =~= seq!['1']);
        assert("2"@ =~= seq!['2']);
        assert("3"@ =~= seq!['3']);
        assert("4"@ =~= seq!['4']);
        assert("5"@ =~= seq!['5']);
        assert("6"@ =~= seq!['6']);
        assert("7"@ =~= seq!['7']);
        assert("8"@ =~= seq!['8']);
        assert("9"@ =~= seq!['9']);
    }
    match d {
        0 => "0",
        1 => "1",
        2 => "2",
        3 => "3",
        4 => "4",
        5 => "5",
        6 => "6",
        7 => "7",
        8 => "8",
        _ => "9",
    }
}

/// Render `n` in decimal.
pub fn u32_to_string(n: u32) -> (r: String)
    ensures
        r@ == dec_str(n as nat),
    decreases n,
{
    if n < 10 {
        String::from_str(digit_str(n))
    } else {
        let mut s = u32_to_string(n / 10);
        let d = digit_str(n % 10);
        s.append(d);
        proof {
            assert(s@ =~= dec_str(n as nat));
        }
        s
    }
}

/// The popup line describing the player's side of a fight.
pub open spec fn fight_attacker_line(f: FighterView) -> Seq<char> {
    "You inflicted "@ + dec_str(f.damage as nat) + " DP and have "@ + dec_str(f.life as nat)
        + " HP left"@
}

/// The popup line describing the enemy's side of a fight.
pub open spec fn fight_defender_line(f: FighterView) -> Seq<char> {
    "Your enemy inflicted "@ + dec_str(f.damage as nat) + " DP and has "@ + dec_str(f.life as nat)
        + " HP left"@
}

/// The popup lines of a combat result.
pub open spec fn fight_info_lines(f: FightView) -> Seq<Seq<char>> {
    seq![fight_attacker_line(f.attacker), fight_defender_line(f.defender)]
}

/// The popup line giving an entity's life over its total life.
pub open spec fn entity_life_line(e: EntityView) -> Seq<char> {
    dec_str(e.life as nat) + "/"@ + dec_str(e.total_life as nat) + " HP"@
}

/// The popup lines of an entity snapshot.
pub open spec fn entity_info_lines(e: EntityView) -> Seq<Seq<char>> {
    seq![e.description, entity_type_label(e.kind), entity_life_line(e)]
}

/// The popup lines of an error: its code and conflict kind when present,
/// and its message.
pub open spec fn error_lines(e: ErrorView) -> Seq<Seq<char>> {
    let code_lines: Seq<Seq<char>> = match e.code {
        Some(c) => seq!["Code: "@ + dec_str(c as nat)],
        None => Seq::empty(),
    };
    let kind_lines: Seq<Seq<char>> = match e.detail.kind {
        Some(t) => seq!["Type: "@ + error_type_label(t)],
        None => Seq::empty(),
    };
    code_lines + kind_lines + seq!["Message: "@ + e.detail.message]
}

/// The popup lines of the help overlay.
pub open spec fn keybind_lines() -> Seq<Seq<char>> {
    seq![
        "[c]        (re)connect"@,
        "[d]        disconnect"@,
        "[l]        look around"@,
        "[e]        look entity"@,
        "[a]        attack"@,
        "[arrows]   move"@,
        "[q]        quit"@,
    ]
}

/// A key press, as the shell reports it to the dispatcher.
#[derive(Clone, Copy, Debug, PartialEq, Eq, Structural)]
pub enum Key {
    Char(char),
    Up,
    Down,
    Left,
    Right,
    Enter,
    Other,
}

/// Which network operation a returned request belongs to, so the shell
/// knows which result type to decode and which `finish_*` method to call.
#[derive(Clone, Copy, Debug, PartialEq, Eq, Structural)]
pub enum PendingOp {
    Connect,
    LookRoom,
    Move,
    LookEntity,
    Attack,
}

/// The cursor position after one downward step over a list of `len` keys,
/// wrapping from the last position to the first.
pub open spec fn wrapped_next(sel: Option<usize>, len: nat) -> nat {
    match sel {
        Some(i) => if i + 1 >= len {
            0
        } else {
            (i + 1) as nat
        },
        None => 0,
    }
}

/// The cursor position after one upward step over a list of `len` keys,
/// wrapping from the first position to the last.
pub open spec fn wrapped_previous(sel: Option<usize>, len: nat) -> nat {
    match sel {
        Some(i) => if i == 0 {
            (len - 1) as nat
        } else {
            (i - 1) as nat
        },
        None => 0,
    }
}

/// Law: over a non-empty key list of length `len`, a downward step at the
/// last position lands on the first, and an upward step at the first
/// position lands on the last; every step from a position of the list stays
/// within the list, as does the first step of a fresh cursor.
pub proof fn lemma_cursor_wraparound(len: nat)
    requires
        0 < len <= usize::MAX as nat,
    ensures
        wrapped_next(Some((len - 1) as usize), len) == 0,
        wrapped_previous(Some(0usize), len) == len - 1,
        forall|i: usize| i < len ==> wrapped_next(Some(i), len) < len,
        forall|i: usize| i < len ==> wrapped_previous(Some(i), len) < len,
        wrapped_next(None, len) < len,
        wrapped_previous(None, len) < len,
{
}

/// The selection list of a target-selection popup: the registry keys shown,
/// and the cursor over them (`None` until the user moves it).
#[derive(Clone, Debug)]
pub struct EntitiesList {
    pub selected: Option<usize>,
    pub entities: Vec<u32>,
}

impl EntitiesList {
    /// An empty list with no cursor.
    pub fn new() -> (r: EntitiesList)
        ensures
            r.selected is None,
            r.entities@ == Seq::<u32>::empty(),
    {
        let r = EntitiesList { selected: None, entities: Vec::new() };
        proof {
            assert(r.entities@ =~= Seq::<u32>::empty());
        }
        r
    }

    /// Move the cursor one step down, wrapping to the top; on an empty list
    /// nothing happens.
    pub fn try_select_next(&mut self)
        ensures
            final(self).entities == old(self).entities,
            old(self).entities@.len() == 0 ==> final(self).selected == old(self).selected,
            old(self).entities@.len() > 0 ==> (final(self).selected matches Some(j) && j
                == wrapped_next(old(self).selected, old(self).entities@.len())),
    {
        if self.entities.len() == 0 {
            return ;
        }
        let i: usize = match self.selected {
            Some(i) => {
                if i >= self.entities.len() - 1 {
                    0
                } else {
                    i + 1
                }
            },
            None => 0,
        };
        self.selected = Some(i);
    }

    /// Move the cursor one step up, wrapping to the bottom; on an empty list
    /// nothing happens.
    pub fn try_select_previous(&mut self)
        ensures
            final(self).entities == old(self).entities,
            old(self).entities@.len() == 0 ==> final(self).selected == old(self).selected,
            old(self).entities@.len() > 0 ==> (final(self).selected matches Some(j) && j
                == wrapped_previous(old(self).selected, old(self).entities@.len())),
    {
        if self.entities.len() == 0 {
            return ;
        }
        let i: usize = match self.selected {
            Some(i) => {
                if i == 0 {
                    self.entities.len() - 1
                } else {
                    i - 1
                }
            },
            None => 0,
        };
        self.selected = Some(i);
    }

    /// The key under the cursor: `Some` exactly when the cursor stands on a
    /// position of the list.
    pub fn get_selected_entity(&self) -> (r: Option<u32>)
        ensures
            self.selected matches Some(i) ==> (i < self.entities@.len() ==> r == Some(
                self.entities@[i as int],
            )),
            self.selected matches Some(i) ==> (i >= self.entities@.len() ==> r is None),
            self.selected is None ==> r is None,
    {
        match self.selected {
            Some(i) => {
                if i < self.entities.len() {
                    Some(self.entities[i])
                } else {
                    None
                }
            },
            None => None,
        }
    }
}

/// The modal popup overlay: hidden, an information popup (title and lines),
/// or a target-selection popup (`will_attack` / `will_look` with its list).
#[derive(Clone, Debug)]
pub struct PopupManager {
    pub popup_mode: bool,
    pub title: String,
    pub infos: Vec<String>,
    pub will_look: bool,
    pub will_attack: bool,
    pub entities_list: EntitiesList,
}

impl PopupManager {
    /// The hidden popup.
    pub fn new() -> (r: PopupManager)
        ensures
            !r.popup_mode,
            r.title@ == Seq::<char>::empty(),
            r.infos.deep_view() == Seq::<Seq<char>>::empty(),
            !r.will_look,
            !r.will_attack,
            r.entities_list.selected is None,
            r.entities_list.entities@ == Seq::<u32>::empty(),
    {
        let r = PopupManager {
            popup_mode: false,
            infos: Vec::new(),
            title: String::new(),
            will_look: false,
            will_attack: false,
            entities_list: EntitiesList::new(),
        };
        proof {
            assert(r.infos.deep_view() =~= Seq::<Seq<char>>::empty());
        }
        r
    }
}

/// The direction a movement key maps to; `None` for keys that are no
/// movement keys.
pub open spec fn arrow_direction(e: Key) -> Option<Direction> {
    match e {
        Key::Up => Some(Direction::N),
        Key::Down => Some(Direction::S),
        Key::Right => Some(Direction::E),
        Key::Left => Some(Direction::W),
        _ => None,
    }
}

/// The guid the current selection resolves to, if the cursor stands on a
/// key and that key is assigned in the session's registry.
pub open spec fn selected_guid(popup: PopupManager, session: Session) -> Option<Seq<char>> {
    match popup.entities_list.selected {
        Some(i) => if i < popup.entities_list.entities@.len() {
            let key = popup.entities_list.entities@[i as int];
            if 1 <= key && key as int <= session@.entity_map.len() {
                Some(session@.entity_map[key as int - 1])
            } else {
                None
            }
        } else {
            None
        },
        None => None,
    }
}

/// The popup state after a dismissing Enter: hidden, with the selection
/// mode and cursor reset, and the list, title and lines kept.
pub open spec fn popup_dismissed(new: PopupManager, prior: PopupManager) -> bool {
    &&& !new.popup_mode
    &&& !new.will_look
    &&& !new.will_attack
    &&& new.entities_list.selected is None
    &&& new.entities_list.entities == prior.entities_list.entities
    &&& new.title == prior.title
    &&& new.infos == prior.infos
}

/// The interactive core: the session and the popup overlay, driven by keys.
pub struct Runner {
    pub session: Session,
    pub popup_manager: PopupManager,
}

impl Runner {
    /// A runner around a session, with the popup hidden.
    pub fn new(session: Session) -> (r: Runner)
        ensures
            r.session == session,
            !r.popup_manager.popup_mode,
            !r.popup_manager.will_look,
            !r.popup_manager.will_attack,
            r.popup_manager.entities_list.selected is None,
            r.popup_manager.entities_list.entities@ == Seq::<u32>::empty(),
    {
        Runner { session, popup_manager: PopupManager::new() }
    }

    /// Refresh the selection list from the session's registry keys.
    pub fn fill_entities_list(&mut self)
        requires
            old(self).session@.entity_map.len() <= u32::MAX as nat,
        ensures
            final(self).session == old(self).session,
            final(self).popup_manager.popup_mode == old(self).popup_manager.popup_mode,
            final(self).popup_manager.title == old(self).popup_manager.title,
            final(self).popup_manager.infos == old(self).popup_manager.infos,
            final(self).popup_manager.will_look == old(self).popup_manager.will_look,
            final(self).popup_manager.will_attack == old(self).popup_manager.will_attack,
            final(self).popup_manager.entities_list.selected == old(self).popup_manager.entities_list.selected,
            final(self).popup_manager.entities_list.entities@.len() == old(self).session@.entity_map.len(),
            forall|j: int|
                0 <= j < final(self).popup_manager.entities_list.entities@.len() ==> final(self).popup_manager.entities_list.entities@[j] == j + 1,
    {
        self.popup_manager.entities_list.entities = self.session.get_entities_keys();
    }

    /// Derive the information popup from the last combat or entity result:
    /// an entity snapshot wins over a combat result, and with neither the
    /// popup is left alone.
    pub fn display_misc_info(&mut self)
        ensures
            final(self).session == old(self).session,
            final(self).popup_manager.will_look == old(self).popup_manager.will_look,
            final(self).popup_manager.will_attack == old(self).popup_manager.will_attack,
            final(self).popup_manager.entities_list == old(self).popup_manager.entities_list,
            old(self).session@.fight_info is None && old(self).session@.entity_info is None
                ==> final(self).popup_manager == old(self).popup_manager,
            old(self).session@.entity_info matches Some(e) ==> (
                final(self).popup_manager.popup_mode && final(self).popup_manager.title@
                == "Entity info"@ && final(self).popup_manager.infos.deep_view()
                == entity_info_lines(e)),
            old(self).session@.entity_info is None ==> (old(self).session@.fight_info
                matches Some(f) ==> (final(self).popup_manager.popup_mode && final(self).popup_manager.title@ == "Fight result"@ && final(self).popup_manager.infos.deep_view()
                == fight_info_lines(f))),
    {
        match &self.session.fight_info {
            Some(fight) => {
                self.popup_manager.popup_mode = true;
                self.popup_manager.title = String::from_str("Fight result");
                self.popup_manager.infos = Runner::fight_lines(fight);
            },
            None => {},
        }
        match &self.session.entity_info {
            Some(entity) => {
                self.popup_manager.popup_mode = true;
                self.popup_manager.title = String::from_str("Entity info");
                self.popup_manager.infos = Runner::entity_lines(entity);
            },
            None => {},
        }
    }

    /// The two popup lines of a combat result.
    fn fight_lines(fight: &Fight) -> (r: Vec<String>)
        ensures
            r.deep_view() == fight_info_lines(fight@),
    {
        let mut l1 = String::from_str("You inflicted ");
        let d1 = u32_to_string(fight.attacker.damage);
        l1.append(d1.as_str());
        l1.append(" DP and have ");
        let d2 = u32_to_string(fight.attacker.life);
        l1.append(d2.as_str());
        l1.append(" HP left");
        proof {
            assert(l1@ =~= fight_attacker_line(fight@.attacker));
        }
        let mut l2 = String::from_str("Your enemy inflicted ");
        let d3 = u32_to_string(fight.defender.damage);
        l2.append(d3.as_str());
        l2.append(" DP and has ");
        let d4 = u32_to_string(fight.defender.life);
        l2.append(d4.as_str());
        l2.append(" HP left");
        proof {
            assert(l2@ =~= fight_defender_line(fight@.defender));
        }
        let mut v: Vec<String> = Vec::new();
        v.push(l1);
        v.push(l2);
        proof {
            assert(v.deep_view() =~= fight_info_lines(fight@));
        }
        v
    }

    /// The three popup lines of an entity snapshot.
    fn entity_lines(entity: &Entity) -> (r: Vec<String>)
        ensures
            r.deep_view() == entity_info_lines(entity@),
    {
        let mut l3 = u32_to_string(entity.life);
        l3.append("/");
        let d = u32_to_string(entity.total_life);
        l3.append(d.as_str());
        l3.append(" HP");
        proof {
            assert(l3@ =~= entity_life_line(entity@));
        }
        let mut v: Vec<String> = Vec::new();
        v.push(entity.description.clone());
        v.push(entity.kind.to_label());
        v.push(l3);
        proof {
            assert(v.deep_view() =~= entity_info_lines(entity@));
        }
        v
    }

    /// Derive the error popup from the last failure; with no failure the
    /// popup is left alone.
    pub fn handle_errors(&mut self)
        ensures
            final(self).session == old(self).session,
            final(self).popup_manager.will_look == old(self).popup_manager.will_look,
            final(self).popup_manager.will_attack == old(self).popup_manager.will_attack,
            final(self).popup_manager.entities_list == old(self).popup_manager.entities_list,
            old(self).session@.error is None ==> final(self).popup_manager == old(self).popup_manager,
            old(self).session@.error matches Some(err) ==> (final(self).popup_manager.popup_mode
                && final(self).popup_manager.title@ == "Error"@ && final(self).popup_manager.infos.deep_view() == error_lines(err)),
    {
        match &self.session.error {
            Some(err) => {
                self.popup_manager.popup_mode = true;
                self.popup_manager.title = String::from_str("Error");
                self.popup_manager.infos = Runner::error_info_lines(err);
            },
            None => {},
        }
    }

    /// The popup lines of an error.
    fn error_info_lines(err: &crate::model::Error) -> (r: Vec<String>)
        ensures
            r.deep_view() == error_lines(err@),
    {
        let mut v: Vec<String> = Vec::new();
        match &err.code {
            Some(code) => {
                let mut line = String::from_str("Code: ");
                let d = u32_to_string(*code as u32);
                line.append(d.as_str());
                proof {
                    assert(line@ =~= "Code: "@ + dec_str(err@.code->Some_0 as nat));
                }
                v.push(line);
            },
            None => {},
        }
        match &err.detail.kind {
            Some(kind) => {
                let mut line = String::from_str("Type: ");
                let label = kind.to_string();
                line.append(label.as_str());
                proof {
                    assert(line@ =~= "Type: "@ + error_type_label(err@.detail.kind->Some_0));
                }
                v.push(line);
            },
            None => {},
        }
        let mut msg_line = String::from_str("Message: ");
        msg_line.append(err.detail.message.as_str());
        proof {
            assert(msg_line@ =~= "Message: "@ + err@.detail.message);
        }
        v.push(msg_line);
        proof {
            assert(v.deep_view() =~= error_lines(err@));
        }
        v
    }

    /// Show the help popup.
    pub fn display_keybinds(&mut self)
        ensures
            final(self).session == old(self).session,
            final(self).popup_manager.will_look == old(self).popup_manager.will_look,
            final(self).popup_manager.will_attack == old(self).popup_manager.will_attack,
            final(self).popup_manager.entities_list == old(self).popup_manager.entities_list,
            final(self).popup_manager.popup_mode,
            final(self).popup_manager.title@ == "Keybinds"@,
            final(self).popup_manager.infos.deep_view() == keybind_lines(),
    {
        self.popup_manager.popup_mode = true;
        self.popup_manager.title = String::from_str("Keybinds");
        let mut v: Vec<String> = Vec::new();
        v.push(String::from_str("[c]        (re)connect"));
        v.push(String::from_str("[d]        disconnect"));
        v.push(String::from_str("[l]        look around"));
        v.push(String::from_str("[e]        look entity"));
        v.push(String::from_str("[a]        attack"));
        v.push(String::from_str("[arrows]   move"));
        v.push(String::from_str("[q]        quit"));
        proof {
            assert(v.deep_view() =~= keybind_lines());
        }
        self.popup_manager.infos = v;
    }

    /// Hide the popup and reset the selection mode and cursor, keeping the
    /// list, title and lines.
    fn dismiss_popup(&mut self)
        ensures
            final(self).session == old(self).session,
            popup_dismissed(final(self).popup_manager, old(self).popup_manager),
    {
        self.popup_manager.popup_mode = false;
        self.popup_manager.will_look = false;
        self.popup_manager.will_attack = false;
        self.popup_manager.entities_list.selected = None;
    }

    /// Dispatch one key press.
    ///
    /// With the popup hidden, letter keys run the session commands and the
    /// arrow keys begin a move; with it shown, Enter confirms (dismissing an
    /// information popup, or firing the selected target of a selection
    /// popup) and Up/Down move the selection cursor with wraparound.  Enter
    /// in a selection popup whose cursor names no target — an empty key
    /// list, no cursor, or a key the registry no longer holds — is a no-op,
    /// not a dismissal: the selection popup stays open and the session is
    /// untouched.  The result is the network request now owed, if any,
    /// tagged with the operation it belongs to.
    pub fn handle_input(&mut self, e: Key) -> (r: Option<(PendingOp, MunRequest)>)
        ensures
            // Enter on an attack-selection popup: with a resolvable
            // selection the attack command is invoked and the popup is
            // dismissed; without one nothing at all happens.
            old(self).popup_manager.popup_mode && e == Key::Enter && old(self).popup_manager.will_attack ==> (match selected_guid(
                old(self).popup_manager,
                old(self).session,
            ) {
                Some(g) => popup_dismissed(final(self).popup_manager, old(self).popup_manager)
                    && match old(self).session@.status {
                    Some(st) => r matches Some(p) && p.0 == PendingOp::Attack && p.1@
                        == MunRequestView::Post(
                        attack_url(old(self).session@.client.base_url, st.guid, g),
                        Seq::<char>::empty(),
                    ) && final(self).session == old(self).session,
                    None => r is None && final(self).session@.error == Some(
                        uninitialized_error_view(),
                    ) && final(self).session.status == old(self).session.status && final(self).session.entity_map == old(self).session.entity_map,
                },
                None => r is None && *final(self) == *old(self),
            }),
            // Enter on a look-selection popup, in the same way.
            old(self).popup_manager.popup_mode && e == Key::Enter && !old(self).popup_manager.will_attack && old(self).popup_manager.will_look ==> (match
                selected_guid(old(self).popup_manager, old(self).session) {
                Some(g) => popup_dismissed(final(self).popup_manager, old(self).popup_manager)
                    && match old(self).session@.status {
                    Some(st) => r matches Some(p) && p.0 == PendingOp::LookEntity && p.1@
                        == MunRequestView::Get(
                        look_entity_url(old(self).session@.client.base_url, st.guid, g),
                    ) && final(self).session == old(self).session,
                    None => r is None && final(self).session@.error == Some(
                        uninitialized_error_view(),
                    ) && final(self).session.status == old(self).session.status && final(self).session.entity_map == old(self).session.entity_map,
                },
                None => r is None && *final(self) == *old(self),
            }),
            // Enter on an information popup dismisses it and clears the
            // error and the last results.
            old(self).popup_manager.popup_mode && e == Key::Enter && !old(self).popup_manager.will_attack && !old(self).popup_manager.will_look ==> (r is None
                && popup_dismissed(final(self).popup_manager, old(self).popup_manager)
                && final(self).session.status == old(self).session.status
                && final(self).session.client == old(self).session.client
                && final(self).session.entity_map == old(self).session.entity_map
                && final(self).session.error is None
                && final(self).session.fight_info is None
                && final(self).session.entity_info is None),
            // Up in a selection popup moves the cursor with wraparound.
            old(self).popup_manager.popup_mode && e == Key::Up ==> (r is None
                && final(self).session == old(self).session
                && final(self).popup_manager.popup_mode == old(self).popup_manager.popup_mode
                && final(self).popup_manager.title == old(self).popup_manager.title
                && final(self).popup_manager.infos == old(self).popup_manager.infos
                && final(self).popup_manager.will_look == old(self).popup_manager.will_look
                && final(self).popup_manager.will_attack == old(self).popup_manager.will_attack
                && final(self).popup_manager.entities_list.entities == old(self).popup_manager.entities_list.entities
                && ((old(self).popup_manager.will_attack || old(self).popup_manager.will_look)
                    && old(self).popup_manager.entities_list.entities@.len() > 0 ==> (
                    final(self).popup_manager.entities_list.selected matches Some(j)
                    && j == wrapped_previous(
                        old(self).popup_manager.entities_list.selected,
                        old(self).popup_manager.entities_list.entities@.len(),
                    )))
                && ((old(self).popup_manager.will_attack || old(self).popup_manager.will_look)
                    && old(self).popup_manager.entities_list.entities@.len() == 0 ==> final(self).popup_manager.entities_list.selected == old(self).popup_manager.entities_list.selected)
                && (!(old(self).popup_manager.will_attack || old(self).popup_manager.will_look)
                    ==> final(self).popup_manager.entities_list.selected == old(self).popup_manager.entities_list.selected)),
            // Down in a selection popup moves the cursor with wraparound.
            old(self).popup_manager.popup_mode && e == Key::Down ==> (r is None
                && final(self).session == old(self).session
                && final(self).popup_manager.popup_mode == old(self).popup_manager.popup_mode
                && final(self).popup_manager.title == old(self).popup_manager.title
                && final(self).popup_manager.infos == old(self).popup_manager.infos
                && final(self).popup_manager.will_look == old(self).popup_manager.will_look
                && final(self).popup_manager.will_attack == old(self).popup_manager.will_attack
                && final(self).popup_manager.entities_list.entities == old(self).popup_manager.entities_list.entities
                && ((old(self).popup_manager.will_attack || old(self).popup_manager.will_look)
                    && old(self).popup_manager.entities_list.entities@.len() > 0 ==> (
                    final(self).popup_manager.entities_list.selected matches Some(j)
                    && j == wrapped_next(
                        old(self).popup_manager.entities_list.selected,
                        old(self).popup_manager.entities_list.entities@.len(),
                    )))
                && ((old(self).popup_manager.will_attack || old(self).popup_manager.will_look)
                    && old(self).popup_manager.entities_list.entities@.len() == 0 ==> final(self).popup_manager.entities_list.selected == old(self).popup_manager.entities_list.selected)
                && (!(old(self).popup_manager.will_attack || old(self).popup_manager.will_look)
                    ==> final(self).popup_manager.entities_list.selected == old(self).popup_manager.entities_list.selected)),
            // Any other key while a popup shows does nothing.
            old(self).popup_manager.popup_mode && e != Key::Enter && e != Key::Up && e != Key::Down
                ==> (*final(self) == *old(self) && r is None),
            // 'c' begins the connect command.
            !old(self).popup_manager.popup_mode && e == Key::Char('c') ==> (*final(self) == *old(self) && (r matches Some(p) && p.0 == PendingOp::Connect && p.1@ == MunRequestView::Post(
                connect_url(old(self).session@.client.base_url),
                Seq::<char>::empty(),
            ))),
            // 'd' disconnects on the spot: no request is owed.
            !old(self).popup_manager.popup_mode && e == Key::Char('d') ==> (r is None
                && final(self).popup_manager == old(self).popup_manager
                && final(self).session.status is None
                && final(self).session.client == old(self).session.client
                && final(self).session.error is None
                && final(self).session.fight_info is None
                && final(self).session.entity_info is None
                && final(self).session@.entity_map == Seq::<Seq<char>>::empty()),
            // 'l' begins the look-room command.
            !old(self).popup_manager.popup_mode && e == Key::Char('l') ==> (
                final(self).popup_manager == old(self).popup_manager
                && match old(self).session@.status {
                    Some(st) => r matches Some(p) && p.0 == PendingOp::LookRoom && p.1@
                        == MunRequestView::Get(
                        look_room_url(old(self).session@.client.base_url, st.guid),
                    ) && final(self).session == old(self).session,
                    None => r is None && final(self).session@.error == Some(
                        uninitialized_error_view(),
                    ) && final(self).session.status == old(self).session.status && final(self).session.entity_map == old(self).session.entity_map,
                }),
            // 'h' shows the help popup.
            !old(self).popup_manager.popup_mode && e == Key::Char('h') ==> (r is None
                && final(self).session == old(self).session
                && final(self).popup_manager.popup_mode
                && final(self).popup_manager.title@ == "Keybinds"@
                && final(self).popup_manager.infos.deep_view() == keybind_lines()
                && final(self).popup_manager.will_look == old(self).popup_manager.will_look
                && final(self).popup_manager.will_attack == old(self).popup_manager.will_attack
                && final(self).popup_manager.entities_list == old(self).popup_manager.entities_list),
            // 'a' opens the attack-selection popup.
            !old(self).popup_manager.popup_mode && e == Key::Char('a') ==> (r is None
                && final(self).session == old(self).session
                && final(self).popup_manager.popup_mode
                && final(self).popup_manager.title@ == "Attack who"@
                && final(self).popup_manager.will_attack
                && final(self).popup_manager.will_look == old(self).popup_manager.will_look
                && final(self).popup_manager.infos == old(self).popup_manager.infos
                && final(self).popup_manager.entities_list == old(self).popup_manager.entities_list),
            // 'e' opens the look-selection popup.
            !old(self).popup_manager.popup_mode && e == Key::Char('e') ==> (r is None
                && final(self).session == old(self).session
                && final(self).popup_manager.popup_mode
                && final(self).popup_manager.title@ == "Look who"@
                && final(self).popup_manager.will_look
                && final(self).popup_manager.will_attack == old(self).popup_manager.will_attack
                && final(self).popup_manager.infos == old(self).popup_manager.infos
                && final(self).popup_manager.entities_list == old(self).popup_manager.entities_list),
            // Any other letter does nothing.
            !old(self).popup_manager.popup_mode ==> (e matches Key::Char(c) ==> (c != 'c' && c
                != 'd' && c != 'l' && c != 'h' && c != 'a' && c != 'e' ==> (*final(self) == *old(self) && r is None))),
            // The arrow keys begin a move in their direction.
            !old(self).popup_manager.popup_mode ==> (arrow_direction(e) matches Some(dir) ==> (
                final(self).popup_manager == old(self).popup_manager
                && match old(self).session@.status {
                    Some(st) => r matches Some(p) && p.0 == PendingOp::Move && p.1@
                        == MunRequestView::Post(
                        move_url(old(self).session@.client.base_url, st.guid),
                        movement_json(dir),
                    ) && final(self).session == old(self).session,
                    None => r is None && final(self).session@.error == Some(
                        uninitialized_error_view(),
                    ) && final(self).session.status == old(self).session.status && final(self).session.entity_map == old(self).session.entity_map,
                })),
            // Enter and unrecognized keys do nothing while no popup shows.
            !old(self).popup_manager.popup_mode && (e == Key::Enter || e == Key::Other) ==> (
                *final(self) == *old(self) && r is None),
    {
        if self.popup_manager.popup_mode {
            match e {
                Key::Enter => {
                    if self.popup_manager.will_attack {
                        match self.popup_manager.entities_list.get_selected_entity() {
                            Some(id) => {
                                match self.session.get_entity_guid(id) {
                                    Some(guid) => {
                                        let r = match self.session.attack(guid) {
                                            Some(req) => Some((PendingOp::Attack, req)),
                                            None => None,
                                        };
                                        self.dismiss_popup();
                                        r
                                    },
                                    None => None,
                                }
                            },
                            None => None,
                        }
                    } else if self.popup_manager.will_look {
                        match self.popup_manager.entities_list.get_selected_entity() {
                            Some(id) => {
                                match self.session.get_entity_guid(id) {
                                    Some(guid) => {
                                        let r = match self.session.look_entity(guid) {
                                            Some(req) => Some((PendingOp::LookEntity, req)),
                                            None => None,
                                        };
                                        self.dismiss_popup();
                                        r
                                    },
                                    None => None,
                                }
                            },
                            None => None,
                        }
                    } else {
                        self.session.clear_infos();
                        self.dismiss_popup();
                        None
                    }
                },
                Key::Up => {
                    if self.popup_manager.will_attack || self.popup_manager.will_look {
                        self.popup_manager.entities_list.try_select_previous();
                    }
                    None
                },
                Key::Down => {
                    if self.popup_manager.will_attack || self.popup_manager.will_look {
                        self.popup_manager.entities_list.try_select_next();
                    }
                    None
                },
                _ => None,
            }
        } else {
            match e {
                Key::Char(c) => {
                    if c == 'c' {
                        Some((PendingOp::Connect, self.session.connect()))
                    } else if c == 'd' {
                        self.session.disconnect();
                        None
                    } else if c == 'l' {
                        match self.session.look_room() {
                            Some(req) => Some((PendingOp::LookRoom, req)),
                            None => None,
                        }
                    } else if c == 'h' {
                        self.display_keybinds();
                        None
                    } else if c == 'a' {
                        self.popup_manager.popup_mode = true;
                        self.popup_manager.title = String::from_str("Attack who");
                        self.popup_manager.will_attack = true;
                        None
                    } else if c == 'e' {
                        self.popup_manager.popup_mode = true;
                        self.popup_manager.title = String::from_str("Look who");
                        self.popup_manager.will_look = true;
                        None
                    } else {
                        None
                    }
                },
                Key::Up => {
                    match self.session.move_to(Direction::N) {
                        Some(req) => Some((PendingOp::Move, req)),
                        None => None,
                    }
                },
                Key::Down => {
                    match self.session.move_to(Direction::S) {
                        Some(req) => Some((PendingOp::Move, req)),
                        None => None,
                    }
                },
                Key::Right => {
                    match self.session.move_to(Direction::E) {
                        Some(req) => Some((PendingOp::Move, req)),
                        None => None,
                    }
                },
                Key::Left => {
                    match self.session.move_to(Direction::W) {
                        Some(req) => Some((PendingOp::Move, req)),
                        None => None,
                    }
                },
                _ => None,
            }
        }
    }
}

} // verus!
