//! Wire protocol: the closed set of request and response message shapes
//! exchanged with the external game engine.
//!
//! Every request maps to exactly one response of the matching family; a
//! transport that returns a shape outside that family is a protocol
//! violation, not a domain error. The `state` field of a `GameResponse` is
//! an opaque encoded blob that the core never inspects: it is only carried
//! back, whole, in the next request.

use vstd::prelude::*;

verus! {

/// A grammar describing the legal command syntax available to one player in
/// the current state. The core never interprets it: it is handed, opaque, to
/// the command-token generator.
#[derive(Debug)]
pub enum CommandSpec {
    /// An integer argument, optionally bounded on either side.
    Int { min: Option<i64>, max: Option<i64> },
    /// A fixed keyword.
    Token(String),
    /// One value out of a closed list.
    Enum { values: Vec<String> },
    /// Any one of the alternatives.
    OneOf(Vec<CommandSpec>),
    /// Each part in order.
    Chain(Vec<CommandSpec>),
    /// A part repeated, optionally bounded.
    Many { spec: Box<CommandSpec>, min: Option<usize>, max: Option<usize> },
    /// A part that may be left out.
    Opt(Box<CommandSpec>),
    /// The name of one of the players.
    Player,
    /// Whitespace between parts.
    Space,
}

/// A request to the engine. Exactly one is sent per engine process.
#[derive(Clone, Debug)]
pub enum Request {
    /// Ask for the legal player counts.
    PlayerCounts,
    /// Start a new game for `players` players.
    New { players: usize },
    /// Ask for the game and renders behind an opaque state.
    Status { game: String },
    /// Submit one command for `player`; `game` is the opaque state returned
    /// by the engine most recently.
    Play { player: usize, command: String, names: Vec<String>, game: String },
    /// Ask for the public render of a state.
    PubRender { game: String },
    /// Ask for one player's render of a state.
    PlayerRender { player: usize, game: String },
}

/// One log entry reported by the engine alongside a response. The core
/// never reads logs; they are carried for the caller. `at` holds the
/// engine's serialized timestamp, opaque to the core.
#[derive(Clone, Debug)]
pub struct CliLog {
    pub content: String,
    pub at: String,
    pub public: bool,
    pub to: Vec<usize>,
}

/// Whether the game is still running, and if so whose turn it is.
#[derive(Clone, Debug)]
pub enum Status {
    /// The game goes on; the players in `whose_turn` may act.
    Active { whose_turn: Vec<usize> },
    /// The game is over; `placings` ranks the players.
    Finished { placings: Vec<usize> },
}

/// The engine's account of a game: an opaque serialized `state`, one score
/// per player in `points` (each an IEEE 754 single bit pattern, which the
/// core never interprets), and the game's `status`.
#[derive(Clone, Debug)]
pub struct GameResponse {
    pub state: String,
    pub points: Vec<u32>,
    pub status: Status,
}

/// The public projection of a game's state.
#[derive(Clone, Debug)]
pub struct PubRender {
    pub pub_state: String,
    pub render: String,
}

/// One player's projection of a game's state. `command_spec` is present
/// exactly when that player can act.
#[derive(Debug)]
pub struct PlayerRender {
    pub player_state: String,
    pub render: String,
    pub command_spec: Option<CommandSpec>,
}

/// A response from the engine: one shape per request family, plus the two
/// error shapes, which may answer any request.
#[derive(Debug)]
pub enum Response {
    PlayerCounts { player_counts: Vec<usize> },
    New {
        game: GameResponse,
        logs: Vec<CliLog>,
        public_render: PubRender,
        player_renders: Vec<PlayerRender>,
    },
    Status { game: GameResponse, public_render: PubRender, player_renders: Vec<PlayerRender> },
    Play {
        game: GameResponse,
        logs: Vec<CliLog>,
        can_undo: bool,
        remaining_input: String,
        public_render: PubRender,
        player_renders: Vec<PlayerRender>,
    },
    PubRender { render: PubRender },
    PlayerRender { render: PlayerRender },
    /// The engine rejected the command; the game did not advance.
    UserError { message: String },
    /// The engine failed internally.
    SystemError { message: String },
}

/// A copy of a vector of strings, elementwise equal to the original.
pub fn copy_strings(v: &Vec<String>) -> (c: Vec<String>)
    ensures
        c@ =~= v@,
{
    let mut c: Vec<String> = Vec::new();
    let mut i: usize = 0;
    while i < v.len()
        invariant
            i <= v@.len(),
            c@.len() == i,
            forall|j: int| 0 <= j < i ==> c@[j] == v@[j],
        decreases v@.len() - i,
    {
        c.push(v[i].clone());
        i += 1;
    }
    c
}

} // verus!
