use brdgme_fuzz::api::GameResponse;
use brdgme_fuzz::api::PlayerRender;
use brdgme_fuzz::api::PubRender;
use brdgme_fuzz::api::Request;
use brdgme_fuzz::api::Response;
use brdgme_fuzz::api::Status;
use brdgme_fuzz::api::copy_strings;
use brdgme_fuzz::fuzz::CommandResponse;
use brdgme_fuzz::fuzz::FuzzGame;
use brdgme_fuzz::fuzz::classify_play_response;
use brdgme_fuzz::fuzz::game_from_new_response;
use brdgme_fuzz::fuzz::join_tokens;
use brdgme_fuzz::fuzz::play_request;
use brdgme_fuzz::fuzz::player_counts_from_response;

fn game(state: &str, status: Status) -> GameResponse {
    GameResponse { state: state.to_string(), points: vec![], status }
}

fn pub_render() -> PubRender {
    PubRender { pub_state: String::new(), render: String::new() }
}

fn play_response(state: &str, remaining: &str) -> Response {
    Response::Play {
        game: game(state, Status::Active { whose_turn: vec![0] }),
        logs: vec![],
        can_undo: false,
        remaining_input: remaining.to_string(),
        public_render: pub_render(),
        player_renders: vec![],
    }
}

#[test]
fn play_with_blank_remaining_is_accepted() {
    match classify_play_response(play_response("s1", "")) {
        Ok(CommandResponse::Accepted(fg)) => assert_eq!(fg.game.state, "s1"),
        _ => panic!("expected the command to be accepted"),
    }
}

#[test]
fn play_with_whitespace_remaining_is_accepted() {
    match classify_play_response(play_response("s1", " \t ")) {
        Ok(CommandResponse::Accepted(_)) => {}
        _ => panic!("expected the command to be accepted"),
    }
}

#[test]
fn play_with_unparsed_remaining_is_a_user_error() {
    match classify_play_response(play_response("s1", " garbage")) {
        Ok(CommandResponse::UserError { message }) => {
            assert_eq!(message, "did not parse all input")
        }
        _ => panic!("expected a user error"),
    }
}

#[test]
fn explicit_user_error_is_handed_through() {
    let resp = Response::UserError { message: "bad move".to_string() };
    match classify_play_response(resp) {
        Ok(CommandResponse::UserError { message }) => assert_eq!(message, "bad move"),
        _ => panic!("expected a user error"),
    }
}

#[test]
fn wrong_shape_play_response_is_a_protocol_violation() {
    let resp = Response::PlayerCounts { player_counts: vec![2] };
    match classify_play_response(resp) {
        Err(e) => assert_eq!(e, "invalid response to play request"),
        _ => panic!("expected a protocol violation"),
    }
}

#[test]
fn system_error_on_play_surfaces_the_engine_text() {
    let resp = Response::SystemError { message: "engine exploded".to_string() };
    match classify_play_response(resp) {
        Err(e) => assert_eq!(e, "engine system error: engine exploded"),
        _ => panic!("expected an error"),
    }
}

#[test]
fn system_error_on_new_surfaces_the_engine_text() {
    let resp = Response::SystemError { message: "out of memory".to_string() };
    match game_from_new_response(resp) {
        Err(e) => assert_eq!(e, "engine system error: out of memory"),
        _ => panic!("expected an error"),
    }
}

#[test]
fn user_error_on_new_surfaces_the_engine_text() {
    let resp = Response::UserError { message: "3 players required".to_string() };
    match game_from_new_response(resp) {
        Err(e) => assert_eq!(e, "engine user error: 3 players required"),
        _ => panic!("expected an error"),
    }
}

#[test]
fn player_counts_are_read_from_the_matching_shape() {
    let resp = Response::PlayerCounts { player_counts: vec![2, 3, 4] };
    assert_eq!(player_counts_from_response(resp).unwrap(), vec![2, 3, 4]);
}

#[test]
fn player_counts_reject_any_other_shape() {
    let resp = Response::PubRender {
        render: PubRender { pub_state: String::new(), render: String::new() },
    };
    match player_counts_from_response(resp) {
        Err(e) => assert_eq!(e, "invalid response to player counts request"),
        _ => panic!("expected an error"),
    }
}

#[test]
fn system_error_on_player_counts_surfaces_the_engine_text() {
    let resp = Response::SystemError { message: "boot failed".to_string() };
    match player_counts_from_response(resp) {
        Err(e) => assert_eq!(e, "engine system error: boot failed"),
        _ => panic!("expected an error"),
    }
}

#[test]
fn new_game_is_read_from_the_matching_shape() {
    let resp = Response::New {
        game: game("fresh", Status::Active { whose_turn: vec![0, 1] }),
        logs: vec![],
        public_render: pub_render(),
        player_renders: vec![],
    };
    let fg = game_from_new_response(resp).unwrap();
    assert_eq!(fg.game.state, "fresh");
}

#[test]
fn new_game_rejects_any_other_shape() {
    let resp = Response::PlayerCounts { player_counts: vec![2] };
    match game_from_new_response(resp) {
        Err(e) => assert_eq!(e, "invalid response for new game"),
        _ => panic!("expected an error"),
    }
}

#[test]
fn joined_tokens_form_the_command_text() {
    let tokens = vec!["play".to_string(), " ".to_string(), "3".to_string()];
    assert_eq!(join_tokens(&tokens), "play 3");
}

#[test]
fn joined_tokens_of_nothing_is_empty() {
    let tokens: Vec<String> = vec![];
    assert_eq!(join_tokens(&tokens), "");
}

#[test]
fn play_request_carries_the_state_byte_for_byte() {
    let fg = FuzzGame {
        game: game("opaque \u{1F3B2} state", Status::Active { whose_turn: vec![0] }),
        player_renders: vec![],
    };
    let names = vec!["player0".to_string(), "player1".to_string()];
    match play_request(&fg, 1, "roll".to_string(), &names) {
        Request::Play { player, command, names: sent_names, game } => {
            assert_eq!(player, 1);
            assert_eq!(command, "roll");
            assert_eq!(sent_names, names);
            assert_eq!(game, "opaque \u{1F3B2} state");
        }
        _ => panic!("expected a play request"),
    }
    assert_eq!(fg.game.state, "opaque \u{1F3B2} state");
}

#[test]
fn copied_strings_equal_the_originals() {
    let v = vec!["a".to_string(), "bc".to_string()];
    assert_eq!(copy_strings(&v), v);
}

#[test]
fn render_without_spec_means_the_player_cannot_act() {
    let r = PlayerRender {
        player_state: String::new(),
        render: String::new(),
        command_spec: None,
    };
    assert!(r.command_spec.is_none());
}
