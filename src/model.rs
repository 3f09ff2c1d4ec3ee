//! The in-memory game that the encoder reads. Floating-point fields hold the
//! IEEE-754 bit pattern of their `f32` value; optional fields are present
//! only from the format version that introduced them.
use vstd::prelude::*;
use crate::version::Version;

verus! {

/// The number of controller ports.
pub const NUM_PORTS: usize = 4;

/// The number of player slots in the session-start event.
pub const MAX_PLAYERS: usize = 6;

/// The index of the first frame of every game.
pub const FIRST_FRAME_INDEX: i32 = -123;

/// A controller port.
#[derive(Clone, Copy, Debug, PartialEq, Eq, Structural)]
pub enum Port {
    First,
    Second,
    Third,
    Fourth,
}

/// The byte that stands for "no port".
pub const NO_PORT: u8 = 255;

impl Port {
    /// The port's number on the wire, from 0.
    pub open spec fn spec_index(self) -> u8 {
        match self {
            Port::First => 0,
            Port::Second => 1,
            Port::Third => 2,
            Port::Fourth => 3,
        }
    }

    /// The port's number on the wire, from 0.
    #[verifier::when_used_as_spec(spec_index)]
    pub fn index(self) -> (r: u8)
        ensures
            r == self.spec_index(),
    {
        match self {
            Port::First => 0,
            Port::Second => 1,
            Port::Third => 2,
            Port::Fourth => 3,
        }
    }
}

/// The byte for an optional port: its number, or `NO_PORT`.
pub open spec fn port_byte(p: Option<Port>) -> u8 {
    match p {
        Some(p) => p.spec_index(),
        None => NO_PORT,
    }
}

/// The way an entity faces.
#[derive(Clone, Copy, Debug, PartialEq, Eq, Structural)]
pub enum Direction {
    Left,
    Right,
}

/// The bit pattern of the `f32` value -1.0.
pub const MINUS_ONE_BITS: u32 = 0xbf80_0000;

/// The bit pattern of the `f32` value 1.0.
pub const ONE_BITS: u32 = 0x3f80_0000;

impl Direction {
    /// The direction as the bit pattern of -1.0 (left) or 1.0 (right).
    pub open spec fn spec_bits(self) -> u32 {
        match self {
            Direction::Left => MINUS_ONE_BITS,
            Direction::Right => ONE_BITS,
        }
    }

    /// The direction as the bit pattern of -1.0 (left) or 1.0 (right).
    #[verifier::when_used_as_spec(spec_bits)]
    pub fn bits(self) -> (r: u32)
        ensures
            r == self.spec_bits(),
    {
        match self {
            Direction::Left => MINUS_ONE_BITS,
            Direction::Right => ONE_BITS,
        }
    }
}

/// A pair of `f32` bit patterns.
#[derive(Clone, Copy, Debug, PartialEq, Eq, Structural)]
pub struct Point {
    pub x: u32,
    pub y: u32,
}

/// A player's team: its color and shade.
#[derive(Clone, Copy, Debug, PartialEq, Eq, Structural)]
pub struct Team {
    pub color: u8,
    pub shade: u8,
}

/// A player's UCF (controller fix) settings.
#[derive(Clone, Copy, Debug, PartialEq, Eq, Structural)]
pub struct Ucf {
    pub dash_back: Option<u32>,
    pub shield_drop: Option<u32>,
}

/// A player's netplay identity.
#[derive(Clone, Debug)]
pub struct Netplay {
    pub name: String,
    pub code: String,
}

/// One player's configuration.
#[derive(Clone, Debug)]
pub struct Player {
    pub character: u8,
    pub player_type: u8,
    pub stocks: u8,
    pub costume: u8,
    pub team: Option<Team>,
    pub handicap: u8,
    pub bitfield: u8,
    pub cpu_level: Option<u8>,
    pub offense_ratio: u32,
    pub defense_ratio: u32,
    pub model_scale: u32,
    /// The bytes of the player's block that no field above describes.
    pub unmapped: [u8; 15],
    /// From 1.0.
    pub ucf: Option<Ucf>,
    /// From 1.3.
    pub name_tag: Option<String>,
    /// From 3.9.
    pub netplay: Option<Netplay>,
}

/// The scene a game was played in.
#[derive(Clone, Copy, Debug, PartialEq, Eq, Structural)]
pub struct Scene {
    pub minor: u8,
    pub major: u8,
}

/// The session-start record.
#[derive(Clone, Debug)]
pub struct Start {
    pub version: Version,
    pub bitfield: [u8; 4],
    pub is_raining_bombs: bool,
    pub is_teams: bool,
    pub item_spawn_frequency: i8,
    pub self_destruct_score: i8,
    pub stage: u16,
    pub timer: u32,
    pub item_spawn_bitfield: [u8; 5],
    pub damage_ratio: u32,
    pub players: Vec<Player>,
    pub random_seed: u32,
    /// The bytes of the start block that no field above describes.
    pub unmapped: [u8; 73],
    /// From 1.5.
    pub is_pal: Option<bool>,
    /// From 2.0.
    pub is_frozen_ps: Option<bool>,
    /// From 3.7.
    pub scene: Option<Scene>,
    /// The session-start payload as it was captured, replayed as it stands
    /// when the verbatim strategy is chosen.
    pub raw_bytes: Vec<u8>,
}

/// The session-end record.
#[derive(Clone, Copy, Debug, PartialEq, Eq, Structural)]
pub struct End {
    pub method: u8,
    /// From 2.0: the port that ended the game by LRAS, if any.
    pub lras_initiator: Option<Option<Port>>,
}

/// The frame-start record (from 2.2).
#[derive(Clone, Copy, Debug, PartialEq, Eq, Structural)]
pub struct FrameStart {
    pub random_seed: u32,
}

/// The frame-end record (from 3.0).
#[derive(Clone, Copy, Debug, PartialEq, Eq, Structural)]
pub struct FrameEnd {
    /// From 3.7.
    pub latest_finalized_frame: Option<i32>,
}

/// An entity's inputs and state before a frame is simulated.
#[derive(Clone, Copy, Debug, PartialEq, Eq, Structural)]
pub struct Pre {
    pub random_seed: u32,
    pub state: u16,
    pub position: Point,
    pub direction: Direction,
    pub joystick: Point,
    pub cstick: Point,
    pub triggers_logical: u32,
    pub buttons_logical: u32,
    pub buttons_physical: u16,
    pub triggers_physical_l: u32,
    pub triggers_physical_r: u32,
    /// From 1.2.
    pub raw_analog_x: Option<u8>,
    /// From 1.4.
    pub damage: Option<u32>,
}

/// An entity's velocities: its own and the one from knockback.
#[derive(Clone, Copy, Debug, PartialEq, Eq, Structural)]
pub struct Velocities {
    pub autogenous: Point,
    pub knockback: Point,
}

/// An entity's state after a frame is simulated.
#[derive(Clone, Copy, Debug, PartialEq, Eq, Structural)]
pub struct Post {
    pub character: u8,
    pub state: u16,
    pub position: Point,
    pub direction: Direction,
    pub damage: u32,
    pub shield: u32,
    pub last_attack_landed: Option<u8>,
    pub combo_count: u8,
    pub last_hit_by: Option<Port>,
    pub stocks: u8,
    /// From 0.2.
    pub state_age: Option<u32>,
    /// From 2.0.
    pub flags: Option<u64>,
    /// From 2.0.
    pub misc_as: Option<u32>,
    /// From 2.0.
    pub airborne: Option<bool>,
    /// From 2.0.
    pub ground: Option<u16>,
    /// From 2.0.
    pub jumps: Option<u8>,
    /// From 2.0: `Some(true)` for a successful L-cancel, `Some(false)` for a
    /// missed one, `None` where none applies.
    pub l_cancel: Option<Option<bool>>,
    /// From 2.1.
    pub hurtbox_state: Option<u8>,
    /// From 3.5.
    pub velocities: Option<Velocities>,
    /// From 3.8.
    pub hitlag: Option<u32>,
}

/// One entity's records for a frame.
#[derive(Clone, Copy, Debug, PartialEq, Eq, Structural)]
pub struct Data {
    pub pre: Pre,
    pub post: Post,
}

/// One port's entities for a frame: the leader and, for some characters, a
/// follower.
#[derive(Clone, Copy, Debug, PartialEq, Eq, Structural)]
pub struct PortData {
    pub leader: Data,
    pub follower: Option<Data>,
}

/// A spawned item's state for a frame (from 3.0).
#[derive(Clone, Copy, Debug, PartialEq, Eq)]
pub struct Item {
    pub item_type: u16,
    pub state: u8,
    pub direction: Option<Direction>,
    pub velocity: Point,
    pub position: Point,
    pub damage: u16,
    pub timer: u32,
    pub id: u32,
    /// From 3.2.
    pub misc: Option<[u8; 4]>,
    /// From 3.6: the port that owns the item, if any.
    pub owner: Option<Option<Port>>,
}

/// One simulation tick.
#[derive(Clone, Debug)]
pub struct Frame {
    /// From 2.2.
    pub start: Option<FrameStart>,
    /// One entry per port, in port order.
    pub ports: Vec<PortData>,
    /// From 3.0.
    pub items: Option<Vec<Item>>,
    /// From 3.0.
    pub end: Option<FrameEnd>,
}

/// A value of the metadata tree.
#[derive(Debug)]
pub enum MetaValue {
    Null,
    Bool(bool),
    Int(i64),
    /// The bit pattern of an `f64`.
    Float(u64),
    Str(String),
    Array(Vec<MetaValue>),
    Object(Vec<(String, MetaValue)>),
}

/// A whole recorded game.
#[derive(Debug)]
pub struct Game {
    pub start: Start,
    pub end: End,
    /// The number of ports that every frame holds, from 1 to `NUM_PORTS`.
    pub port_count: usize,
    pub frames: Vec<Frame>,
    /// The metadata object's entries, in order.
    pub metadata: Vec<(String, MetaValue)>,
}

} // verus!
