//! The exploration engine: a stateful driver that repeatedly creates games
//! on an external engine and advances them with randomly generated commands,
//! classifying every outcome as one step of an endless sequence.

use vstd::prelude::*;

use crate::api::CommandSpec;
use crate::api::GameResponse;
use crate::api::PlayerRender;
use crate::api::Request;
use crate::api::Response;
use crate::api::Status;
use crate::requester::Requester;
use crate::rng::EngineRng;
use crate::rng::rand_index;
use crate::rng::seeded_rng;
use crate::text::blank;
use crate::text::decimal_chars;
use crate::text::is_blank;

verus! {

/// Relies on Rc::clone, which returns another pointer to the same value.
#[verifier::external_body]
fn rc_clone(v: &std::rc::Rc<FuzzGame>) -> (res: std::rc::Rc<FuzzGame>)
    ensures
        res == *v,
{
    std::rc::Rc::clone(v)
}

/// The engine's last known account of the current game, paired with the full
/// list of per-player renders: the only state retained across iterations
/// besides configuration.
#[derive(Debug)]
pub struct FuzzGame {
    pub game: GameResponse,
    pub player_renders: Vec<PlayerRender>,
}

/// The classification of one answered `Play` request.
pub enum CommandResponse {
    /// The engine consumed the whole command; here is the game it left.
    Accepted(FuzzGame),
    /// The engine rejected the command; the game did not advance.
    UserError { message: String },
}

/// The outcome of one iteration of the exploration loop.
#[derive(Debug)]
pub enum FuzzStep {
    /// A new game was created.
    Created,
    /// A command was accepted and the game goes on.
    CommandOk,
    /// A command was rejected; the same game will be retried.
    UserError,
    /// A command was accepted and ended the game.
    Finished,
    /// A transport failure, a protocol violation, an engine-reported internal
    /// error, or a harness-detected invariant violation.
    Error { game: Option<std::rc::Rc<FuzzGame>>, command: Option<String>, error: String },
}

/// The message reported when a step is attempted with no current game.
pub open spec fn msg_no_game() -> Seq<char> {
    "there isn't a game"@
}

/// The message reported when the stored game is already finished.
pub open spec fn msg_finished() -> Seq<char> {
    "the game is already finished"@
}

/// The message reported when `whose_turn` is empty.
pub open spec fn msg_no_active_player() -> Seq<char> {
    "unable to pick active turn player"@
}

/// The message reported when the cached player-count list is empty.
pub open spec fn msg_no_player_counts() -> Seq<char> {
    "could not get player counts"@
}

/// The message reported when a response to `PlayerCounts` has the wrong shape.
pub open spec fn msg_bad_player_counts_response() -> Seq<char> {
    "invalid response to player counts request"@
}

/// The message reported when a response to `New` has the wrong shape.
pub open spec fn msg_bad_new_response() -> Seq<char> {
    "invalid response for new game"@
}

/// The message reported when a response to `Play` has the wrong shape.
pub open spec fn msg_bad_play_response() -> Seq<char> {
    "invalid response to play request"@
}

/// The message reported when the engine left part of the command unparsed.
pub open spec fn msg_unparsed_input() -> Seq<char> {
    "did not parse all input"@
}

/// The message reported when the engine answers with its own internal
/// failure: the engine's text is kept whole, since it is the primary way a
/// genuine engine bug surfaces.
pub open spec fn msg_system_error(m: Seq<char>) -> Seq<char> {
    "engine system error: "@ + m
}

/// The message reported when the engine rejects a request, other than a
/// play, as a user error.
pub open spec fn msg_engine_user_error(m: Seq<char>) -> Seq<char> {
    "engine user error: "@ + m
}

fn system_error_message(m: &String) -> (s: String)
    ensures
        s@ == msg_system_error(m@),
{
    String::from_str("engine system error: ").concat(m.as_str())
}

fn engine_user_error_message(m: &String) -> (s: String)
    ensures
        s@ == msg_engine_user_error(m@),
{
    String::from_str("engine user error: ").concat(m.as_str())
}

/// The message reported when `player` has no render in the response.
pub open spec fn msg_no_render(player: int) -> Seq<char> {
    "there is no player_render for player "@ + decimal_chars(player as nat)
}

/// The message reported when `player`'s render carries no command spec.
pub open spec fn msg_missing_spec(player: int) -> Seq<char> {
    "player "@ + decimal_chars(player as nat) + "'s command_spec is None"@
}

fn no_render_message(player: usize) -> (s: String)
    ensures
        s@ == msg_no_render(player as int),
{
    let n = crate::text::usize_to_decimal(player);
    String::from_str("there is no player_render for player ").concat(n.as_str())
}

fn missing_spec_message(player: usize) -> (s: String)
    ensures
        s@ == msg_missing_spec(player as int),
{
    let n = crate::text::usize_to_decimal(player);
    let s = String::from_str("player ").concat(n.as_str()).concat("'s command_spec is None");
    proof {
        assert(s@ =~= msg_missing_spec(player as int));
    }
    s
}

/// The deterministic placeholder name for the seat with index `i`.
pub open spec fn player_name(i: int) -> Seq<char> {
    "player"@ + decimal_chars(i as nat)
}

/// The placeholder names for `players` seats: "player0", "player1", ...
pub fn names(players: usize) -> (r: Vec<String>)
    ensures
        r@.len() == players,
        forall|i: int| 0 <= i < players ==> #[trigger] r@[i]@ == player_name(i),
{
    let mut r: Vec<String> = Vec::new();
    let mut p: usize = 0;
    while p < players
        invariant
            p <= players,
            r@.len() == p,
            forall|i: int| 0 <= i < p ==> #[trigger] r@[i]@ == player_name(i),
        decreases players - p,
    {
        let digits = crate::text::usize_to_decimal(p);
        let name = String::from_str("player").concat(digits.as_str());
        r.push(name);
        p += 1;
    }
    r
}

/// Reads the cached player counts out of a `PlayerCounts` response; any other
/// shape is a protocol violation.
pub fn player_counts_from_response(resp: Response) -> (r: Result<Vec<usize>, String>)
    ensures
        match resp {
            Response::PlayerCounts { player_counts } => r matches Ok(c) && c == player_counts,
            Response::SystemError { message } => r matches Err(e) && e@ == msg_system_error(
                message@,
            ),
            Response::UserError { message } => r matches Err(e) && e@ == msg_engine_user_error(
                message@,
            ),
            _ => r matches Err(e) && e@ == msg_bad_player_counts_response(),
        },
{
    match resp {
        Response::PlayerCounts { player_counts } => Ok(player_counts),
        Response::SystemError { message } => Err(system_error_message(&message)),
        Response::UserError { message } => Err(engine_user_error_message(&message)),
        _ => Err(String::from_str("invalid response to player counts request")),
    }
}

/// Reads the created game and its renders out of a `New` response; any other
/// shape is a protocol violation.
///
/// A created game that is active with an empty turn set is a reported
/// defect, not a game: no player could ever act on it, so it is refused
/// here and never stored.
pub fn game_from_new_response(resp: Response) -> (r: Result<FuzzGame, String>)
    ensures
        match resp {
            Response::New { game, player_renders, .. } => {
                if game.status matches Status::Active { whose_turn } && whose_turn@.len() == 0 {
                    r matches Err(e) && e@ == msg_no_active_player()
                } else {
                    r matches Ok(fg) && fg.game == game && fg.player_renders == player_renders
                }
            },
            Response::SystemError { message } => r matches Err(e) && e@ == msg_system_error(
                message@,
            ),
            Response::UserError { message } => r matches Err(e) && e@ == msg_engine_user_error(
                message@,
            ),
            _ => r matches Err(e) && e@ == msg_bad_new_response(),
        },
{
    match resp {
        Response::New { game, player_renders, .. } => {
            let empty_turn = match &game.status {
                Status::Active { whose_turn } => whose_turn.len() == 0,
                Status::Finished { .. } => false,
            };
            if empty_turn {
                Err(String::from_str("unable to pick active turn player"))
            } else {
                Ok(FuzzGame { game, player_renders })
            }
        },
        Response::SystemError { message } => Err(system_error_message(&message)),
        Response::UserError { message } => Err(engine_user_error_message(&message)),
        _ => Err(String::from_str("invalid response for new game")),
    }
}

/// Classifies the engine's answer to a `Play` request.
///
/// A `Play` response whose `remaining_input` is non-blank after trimming is a
/// rejected command — the engine did not consume the whole command — and
/// counts as a user error, never as a successful move. A blank
/// `remaining_input` means the move stands, and the response's game replaces
/// the stored one. An explicit `UserError` is handed through. Any other shape
/// is a protocol violation.
pub fn classify_play_response(resp: Response) -> (r: Result<CommandResponse, String>)
    ensures
        match resp {
            Response::Play { game, remaining_input, player_renders, .. } => {
                if blank(remaining_input@) {
                    r matches Ok(CommandResponse::Accepted(fg)) && fg.game == game && fg.player_renders
                        == player_renders
                } else {
                    r matches Ok(CommandResponse::UserError { message }) && message@
                        == msg_unparsed_input()
                }
            },
            Response::UserError { message } => r matches Ok(
                CommandResponse::UserError { message: m },
            ) && m == message,
            Response::SystemError { message } => r matches Err(e) && e@ == msg_system_error(
                message@,
            ),
            _ => r matches Err(e) && e@ == msg_bad_play_response(),
        },
{
    match resp {
        Response::Play { game, remaining_input, player_renders, .. } => {
            if !is_blank(remaining_input.as_str()) {
                Ok(CommandResponse::UserError { message: String::from_str("did not parse all input") })
            } else {
                Ok(CommandResponse::Accepted(FuzzGame { game, player_renders }))
            }
        },
        Response::UserError { message } => Ok(CommandResponse::UserError { message }),
        Response::SystemError { message } => Err(system_error_message(&message)),
        _ => Err(String::from_str("invalid response to play request")),
    }
}

/// The concatenation of the views of `ts`, in order.
pub open spec fn joined(ts: Seq<String>) -> Seq<char>
    decreases ts.len(),
{
    if ts.len() == 0 {
        Seq::empty()
    } else {
        joined(ts.drop_last()) + ts.last()@
    }
}

/// Concatenates the generated tokens into one candidate command text.
pub fn join_tokens(tokens: &Vec<String>) -> (s: String)
    ensures
        s@ == joined(tokens@),
{
    let mut s = String::new();
    let mut i: usize = 0;
    while i < tokens.len()
        invariant
            i <= tokens@.len(),
            s@ == joined(tokens@.take(i as int)),
        decreases tokens@.len() - i,
    {
        s.append(tokens[i].as_str());
        proof {
            assert(tokens@.take(i + 1).drop_last() =~= tokens@.take(i as int));
            assert(tokens@.take(i + 1).last() == tokens@[i as int]);
        }
        i += 1;
    }
    proof {
        assert(tokens@.take(tokens@.len() as int) =~= tokens@);
    }
    s
}

/// Builds the `Play` request for one candidate command.
///
/// The opaque `game` state placed into the request is the very state most
/// recently received from the engine, byte for byte: the core never edits
/// it, only carries it.
pub fn play_request(fg: &FuzzGame, player: usize, command: String, names: &Vec<String>) -> (req:
    Request)
    ensures
        req matches Request::Play { player: p, command: c, names: n, game: g } && p == player && c
            == command && g == fg.game.state && n@ =~= names@,
{
    Request::Play {
        player,
        command: command,
        names: crate::api::copy_strings(names),
        game: fg.game.state.clone(),
    }
}

/// Produces the textual tokens of one candidate command, given the grammar
/// the engine published for the chosen player, the player names, and the
/// engine's shared random source. An external collaborator of the core: it
/// should bias toward grammatically plausible commands, but the exploration
/// engine classifies every outcome whatever text comes back.
pub trait TokenGenerator {
    fn tokens(&mut self, spec: &CommandSpec, names: &Vec<String>, rng: &mut EngineRng) -> Vec<
        String,
    >;
}

/// Whether `ns` is the standard placeholder name list for `count` seats.
pub open spec fn names_for(ns: Seq<String>, count: int) -> bool {
    ns.len() == count && (forall|i: int| 0 <= i < count ==> #[trigger] ns[i]@ == player_name(i))
}

/// What one attempted command against `fg`, addressed at `player`, may leave
/// behind: each of the two harness-detected defects is reported with its
/// exact message and no command is attempted; past those checks the outcome
/// depends on the engine's response, of which nothing is assumed.
pub open spec fn attempt_outcome(
    fg: FuzzGame,
    player: int,
    r: Result<CommandResponse, String>,
) -> bool {
    if player >= fg.player_renders@.len() {
        r matches Err(e) && e@ == msg_no_render(player)
    } else if fg.player_renders@[player].command_spec is None {
        r matches Err(e) && e@ == msg_missing_spec(player)
    } else {
        true
    }
}

/// The exploration engine. It owns the transport, the token generator, the
/// random source, the player counts cached at construction, the current
/// player names, and the engine's last known game, and yields a lazy,
/// endless sequence of classified steps: it never halts on its own, and
/// bounding the number of iterations is entirely the caller's business.
pub struct Fuzzer<R: Requester, G: TokenGenerator> {
    pub client: R,
    pub generator: G,
    pub rng: EngineRng,
    pub player_counts: Vec<usize>,
    pub names: Vec<String>,
    pub game: Option<std::rc::Rc<FuzzGame>>,
}

impl<R: Requester, G: TokenGenerator> Fuzzer<R, G> {
    /// Builds an exploration engine by asking the engine once for its legal
    /// player counts; the cached list is read-only for the engine's
    /// lifetime, and the random source starts in the state `seed`
    /// determines, so a run can be replayed. Construction fails on a
    /// transport error or on a response of the wrong shape.
    pub fn new(client: R, generator: G, seed: u64) -> (r: Result<Self, String>)
        ensures
            r matches Ok(f) ==> f.game is None && f.names@.len() == 0 && f.rng.state == seed | 1,
    {
        let mut client = client;
        match client.request(&Request::PlayerCounts) {
            Err(e) => Err(e),
            Ok(resp) => match player_counts_from_response(resp) {
                Err(e) => Err(e),
                Ok(player_counts) => Ok(
                    Fuzzer {
                        client,
                        generator,
                        rng: seeded_rng(seed),
                        player_counts,
                        names: Vec::new(),
                        game: None,
                    },
                ),
            },
        }
    }

    /// A shared snapshot of the stored game, equal to it.
    fn snapshot(&self) -> (g: Option<std::rc::Rc<FuzzGame>>)
        ensures
            g == self.game,
    {
        match &self.game {
            None => None,
            Some(rc) => Some(rc_clone(rc)),
        }
    }

    /// Starts a new game: picks a player count at random from the cached
    /// set, derives the placeholder names for that many seats, and asks the
    /// engine for a game. On success the game and its renders are stored;
    /// on any failure — an empty count list, a transport error, a wrong
    /// shape, a game nobody may act on — the stored game is left alone and
    /// the error is returned.
    fn new_game(&mut self) -> (r: Result<(), String>)
        ensures
            final(self).player_counts == old(self).player_counts,
            r is Err ==> final(self).game == old(self).game,
            old(self).player_counts@.len() == 0 ==> (r matches Err(e) && e@
                == msg_no_player_counts() && final(self).names == old(self).names),
            old(self).player_counts@.len() > 0 ==> exists|i: int|
                0 <= i < old(self).player_counts@.len() && names_for(
                    final(self).names@,
                    #[trigger] old(self).player_counts@[i] as int,
                ),
            r is Ok ==> (final(self).game matches Some(rc) && !((*rc).game.status
                matches Status::Active { whose_turn } && whose_turn@.len() == 0)),
    {
        if self.player_counts.len() == 0 {
            return Err(String::from_str("could not get player counts"));
        }
        let idx = rand_index(&mut self.rng, self.player_counts.len());
        let players = self.player_counts[idx];
        self.names = names(players);
        match self.client.request(&Request::New { players }) {
            Err(e) => Err(e),
            Ok(resp) => match game_from_new_response(resp) {
                Err(e) => Err(e),
                Ok(fg) => {
                    self.game = Some(std::rc::Rc::new(fg));
                    Ok(())
                },
            },
        }
    }

    /// What `command` promises of its result given the state before the
    /// call: each harness-detected defect — no game, a game already
    /// finished, an empty turn set, a missing render, a missing command
    /// spec — is reported with its exact message; with the checks passed, a
    /// command is sent and the result is the classification of whatever the
    /// engine answered.
    pub open spec fn command_outcome(self, r: Result<CommandResponse, String>) -> bool {
        match self.game {
            None => r matches Err(e) && e@ == msg_no_game(),
            Some(rc) => match (*rc).game.status {
                Status::Finished { .. } => r matches Err(e) && e@ == msg_finished(),
                Status::Active { whose_turn } => if whose_turn@.len() == 0 {
                    r matches Err(e) && e@ == msg_no_active_player()
                } else {
                    exists|k: int|
                        0 <= k < whose_turn@.len() && attempt_outcome(
                            *rc,
                            #[trigger] whose_turn@[k] as int,
                            r,
                        )
                },
            },
        }
    }

    /// Attempts one randomly generated command against the stored game: a
    /// player is drawn from `whose_turn`, the command text is generated
    /// from that player's published grammar, and the engine's answer is
    /// classified. The stored game is never changed here.
    fn command(&mut self) -> (r: Result<CommandResponse, String>)
        ensures
            final(self).game == old(self).game,
            final(self).names == old(self).names,
            final(self).player_counts == old(self).player_counts,
            old(self).command_outcome(r),
    {
        let fg: std::rc::Rc<FuzzGame> = match &self.game {
            None => {
                return Err(String::from_str("there isn't a game"));
            },
            Some(rc) => rc_clone(rc),
        };
        match &fg.game.status {
            Status::Finished { .. } => Err(String::from_str("the game is already finished")),
            Status::Active { whose_turn } => {
                if whose_turn.len() == 0 {
                    return Err(String::from_str("unable to pick active turn player"));
                }
                let k = rand_index(&mut self.rng, whose_turn.len());
                let player = whose_turn[k];
                if player >= fg.player_renders.len() {
                    return Err(no_render_message(player));
                }
                match &fg.player_renders[player].command_spec {
                    None => Err(missing_spec_message(player)),
                    Some(spec) => {
                        let tokens = self.generator.tokens(spec, &self.names, &mut self.rng);
                        let command = join_tokens(&tokens);
                        let req = play_request(&fg, player, command, &self.names);
                        match self.client.request(&req) {
                            Err(e) => Err(e),
                            Ok(resp) => classify_play_response(resp),
                        }
                    },
                }
            },
        }
    }

    /// What `next` promises of one step, given the state before (`self`)
    /// and after (`post`) the call. The cached player counts never change;
    /// a stored game is replaced only by a successful command, cleared only
    /// by a finished game, and otherwise left byte-identical, so the next
    /// step retries the same state; every defect the harness detects is
    /// reported as an error step with its exact message. A command-classified
    /// step — accepted, finished, or rejected — can only come from a game in
    /// which some drawable player's render carries a command spec: a game in
    /// which none does is never passed off as a rejected command.
    pub open spec fn next_outcome(self, post: Self, step: FuzzStep) -> bool {
        match self.game {
            None => {
                &&& (step is Created || step matches FuzzStep::Error {
                    game: None,
                    command: None,
                    error: _,
                })
                &&& (step is Created ==> (post.game matches Some(rc) && !((*rc).game.status
                    matches Status::Active { whose_turn } && whose_turn@.len() == 0)))
                &&& (step is Error ==> post.game is None)
                &&& (self.player_counts@.len() == 0 ==> (step matches FuzzStep::Error {
                    game: _,
                    command: _,
                    error,
                } && error@ == msg_no_player_counts() && post.names == self.names))
                &&& (self.player_counts@.len() > 0 ==> exists|i: int|
                    0 <= i < self.player_counts@.len() && names_for(
                        post.names@,
                        #[trigger] self.player_counts@[i] as int,
                    ))
            },
            Some(rc) => {
                &&& !(step is Created)
                &&& post.names == self.names
                &&& (step is CommandOk ==> (post.game matches Some(g) && !((*g).game.status
                    is Finished)))
                &&& (step is Finished ==> post.game is None)
                &&& (step is UserError ==> post.game == self.game)
                &&& ((step is CommandOk || step is Finished || step is UserError) ==> (
                (*rc).game.status matches Status::Active { whose_turn } && exists|k: int|
                    0 <= k < whose_turn@.len() && #[trigger] whose_turn@[k]
                        < (*rc).player_renders@.len()
                        && (*rc).player_renders@[whose_turn@[k] as int].command_spec is Some))
                &&& (step matches FuzzStep::Error { game, command, error } ==> (post.game
                    == self.game && game == self.game && command is None && self.command_outcome(
                    Err(error),
                )))
            },
        }
    }

    /// One iteration of the exploration loop. With no stored game it starts
    /// one; with a stored game it attempts one random command; every
    /// outcome, good or bad, is exactly one classified step, and the
    /// sequence never ends on its own.
    pub fn next(&mut self) -> (step: FuzzStep)
        ensures
            final(self).player_counts == old(self).player_counts,
            old(self).next_outcome(*final(self), step),
    {
        if self.game.is_some() {
            match self.command() {
                Ok(CommandResponse::Accepted(fg)) => {
                    let finished = match &fg.game.status {
                        Status::Finished { .. } => true,
                        Status::Active { .. } => false,
                    };
                    if finished {
                        self.game = None;
                        FuzzStep::Finished
                    } else {
                        self.game = Some(std::rc::Rc::new(fg));
                        FuzzStep::CommandOk
                    }
                },
                Ok(CommandResponse::UserError { .. }) => FuzzStep::UserError,
                Err(e) => FuzzStep::Error { game: self.snapshot(), command: None, error: e },
            }
        } else {
            match self.new_game() {
                Ok(()) => FuzzStep::Created,
                Err(e) => FuzzStep::Error { game: None, command: None, error: e },
            }
        }
    }

    /// Requests `n` steps. However many errors intervene, asking for `n`
    /// steps yields exactly `n`: the sequence never short-circuits.
    pub fn steps(&mut self, n: usize) -> (r: Vec<FuzzStep>)
        ensures
            r@.len() == n,
            final(self).player_counts == old(self).player_counts,
    {
        let mut r: Vec<FuzzStep> = Vec::new();
        let mut i: usize = 0;
        while i < n
            invariant
                i <= n,
                r@.len() == i,
                self.player_counts == old(self).player_counts,
            decreases n - i,
        {
            let step = self.next();
            r.push(step);
            i += 1;
        }
        r
    }
}

} // verus!
