//! The data model of the game: directions, rooms, entities, fights and the
//! error values shared by every component.
//!
//! Each executable type comes with a mathematical view; contracts throughout
//! the crate are stated over these views.

use vstd::prelude::*;

verus! {

/// A direction the player can move in.
#[derive(Clone, Copy, Debug, PartialEq, Eq, Structural)]
pub enum Direction {
    N,
    E,
    S,
    W,
}

/// The single-letter wire code of a direction.
pub open spec fn direction_letter(d: Direction) -> Seq<char> {
    match d {
        Direction::N => "N"@,
        Direction::E => "E"@,
        Direction::S => "S"@,
        Direction::W => "W"@,
    }
}

/// The JSON body sent with a movement request for direction `d`.
pub open spec fn movement_json(d: Direction) -> Seq<char> {
    "{ \"direction\": \""@ + direction_letter(d) + "\" }"@
}

impl Direction {
    /// Render the JSON body of a movement request for this direction.
    pub fn to_movement_json(&self) -> (r: String)
        ensures
            r@ == movement_json(*self),
    {
        let mut s = String::from_str("{ \"direction\": \"");
        match self {
            Direction::N => s.append("N"),
            Direction::E => s.append("E"),
            Direction::S => s.append("S"),
            Direction::W => s.append("W"),
        }
        s.append("\" }");
        proof {
            assert(s@ =~= movement_json(*self));
        }
        s
    }
}

/// What kind of being an entity is.
#[derive(Clone, Copy, Debug, PartialEq, Eq, Structural)]
pub enum EntityType {
    Monster,
    Player,
}

/// The label shown for an entity kind.
pub open spec fn entity_type_label(t: EntityType) -> Seq<char> {
    match t {
        EntityType::Monster => "Monster"@,
        EntityType::Player => "Player"@,
    }
}

impl EntityType {
    /// Render the label shown for this entity kind.
    pub fn to_label(&self) -> (r: String)
        ensures
            r@ == entity_type_label(*self),
    {
        match self {
            EntityType::Monster => String::from_str("Monster"),
            EntityType::Player => String::from_str("Player"),
        }
    }
}

/// The kind of a conflict reported by the server.
#[derive(Clone, Copy, Debug, PartialEq, Eq, Structural)]
pub enum ErrorType {
    Dead,
    Wall,
    DiffRoom,
}

/// The label shown for a conflict kind.
pub open spec fn error_type_label(t: ErrorType) -> Seq<char> {
    match t {
        ErrorType::Dead => "Death"@,
        ErrorType::Wall => "Wall"@,
        ErrorType::DiffRoom => "Different room"@,
    }
}

impl ErrorType {
    /// Render the label shown for this conflict kind.
    pub fn to_string(&self) -> (r: String)
        ensures
            r@ == error_type_label(*self),
    {
        match self {
            ErrorType::Dead => String::from_str("Death"),
            ErrorType::Wall => String::from_str("Wall"),
            ErrorType::DiffRoom => String::from_str("Different room"),
        }
    }
}

/// A server-reported snapshot of the player's current location.
#[derive(Clone, Debug)]
pub struct Room {
    pub description: String,
    pub paths: Vec<Direction>,
    pub entities: Vec<String>,
}

/// The mathematical value of a [`Room`].
#[verifier::ext_equal]
pub ghost struct RoomView {
    pub description: Seq<char>,
    pub paths: Seq<Direction>,
    pub entities: Seq<Seq<char>>,
}

impl View for Room {
    type V = RoomView;

    open spec fn view(&self) -> RoomView {
        RoomView {
            description: self.description@,
            paths: self.paths@,
            entities: self.entities.deep_view(),
        }
    }
}

/// The player's session identity and location, held while connected.
#[derive(Clone, Debug)]
pub struct Status {
    pub guid: String,
    pub total_life: u32,
    pub room: Room,
}

/// The mathematical value of a [`Status`].
#[verifier::ext_equal]
pub ghost struct StatusView {
    pub guid: Seq<char>,
    pub total_life: u32,
    pub room: RoomView,
}

impl View for Status {
    type V = StatusView;

    open spec fn view(&self) -> StatusView {
        StatusView { guid: self.guid@, total_life: self.total_life, room: self.room@ }
    }
}

/// A read-only snapshot of another being in the dungeon.
#[derive(Clone, Debug)]
pub struct Entity {
    pub description: String,
    pub kind: EntityType,
    pub life: u32,
    pub total_life: u32,
}

/// The mathematical value of an [`Entity`].
#[verifier::ext_equal]
pub ghost struct EntityView {
    pub description: Seq<char>,
    pub kind: EntityType,
    pub life: u32,
    pub total_life: u32,
}

impl View for Entity {
    type V = EntityView;

    open spec fn view(&self) -> EntityView {
        EntityView {
            description: self.description@,
            kind: self.kind,
            life: self.life,
            total_life: self.total_life,
        }
    }
}

/// One side of a combat result.
#[derive(Clone, Debug)]
pub struct Fighter {
    pub guid: String,
    pub damage: u32,
    pub life: u32,
}

/// The mathematical value of a [`Fighter`].
#[verifier::ext_equal]
pub ghost struct FighterView {
    pub guid: Seq<char>,
    pub damage: u32,
    pub life: u32,
}

impl View for Fighter {
    type V = FighterView;

    open spec fn view(&self) -> FighterView {
        FighterView { guid: self.guid@, damage: self.damage, life: self.life }
    }
}

/// The last combat result: the player and the being it struck.
#[derive(Clone, Debug)]
pub struct Fight {
    pub attacker: Fighter,
    pub defender: Fighter,
}

/// The mathematical value of a [`Fight`].
#[verifier::ext_equal]
pub ghost struct FightView {
    pub attacker: FighterView,
    pub defender: FighterView,
}

impl View for Fight {
    type V = FightView;

    open spec fn view(&self) -> FightView {
        FightView { attacker: self.attacker@, defender: self.defender@ }
    }
}

/// The body of a conflict response: an optional kind and a message.
#[derive(Clone, Debug)]
pub struct ErrorDetail {
    pub kind: Option<ErrorType>,
    pub message: String,
}

/// The mathematical value of an [`ErrorDetail`].
#[verifier::ext_equal]
pub ghost struct ErrorDetailView {
    pub kind: Option<ErrorType>,
    pub message: Seq<char>,
}

impl View for ErrorDetail {
    type V = ErrorDetailView;

    open spec fn view(&self) -> ErrorDetailView {
        ErrorDetailView { kind: self.kind, message: self.message@ }
    }
}

/// The last failure: an optional HTTP status code and a detail.
#[derive(Clone, Debug)]
pub struct Error {
    pub code: Option<u16>,
    pub detail: ErrorDetail,
}

/// The mathematical value of an [`Error`].
#[verifier::ext_equal]
pub ghost struct ErrorView {
    pub code: Option<u16>,
    pub detail: ErrorDetailView,
}

impl View for Error {
    type V = ErrorView;

    open spec fn view(&self) -> ErrorView {
        ErrorView { code: self.code, detail: self.detail@ }
    }
}

/// An error that carries only a message: no status code, no conflict kind.
pub open spec fn message_error(message: Seq<char>) -> ErrorView {
    ErrorView { code: None, detail: ErrorDetailView { kind: None, message } }
}

impl Error {
    /// Wrap a bare message as an [`Error`] with no code and no kind.
    pub fn from_error_string(error_string: String) -> (r: Error)
        ensures
            r@ == message_error(error_string@),
    {
        Error { code: None, detail: ErrorDetail { kind: None, message: error_string } }
    }
}

/// The error surfaced when a domain payload fails to decode.
pub open spec fn deserialization_error_view() -> ErrorView {
    message_error("Error while deserializing object"@)
}

/// Build the decode-failure error.
pub fn deserialization_error() -> (e: Error)
    ensures
        e@ == deserialization_error_view(),
{
    Error::from_error_string(String::from_str("Error while deserializing object"))
}

} // verus!
