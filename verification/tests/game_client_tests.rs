use go_client::board::{parse_color, refresh_board, stone_texture, FreePlaces, BOARD_SIZE};
use go_client::dto::{
    GameScore, GameState, GameStateDto, StepDto, UserSessionDto, UserSessionRequestDto,
    UserSessionStepDto, UserStatusDto, UserStepRequestDto, UserTokenDto,
};
use go_client::game_data::{stone_color_name, GameData, NO_USER_ID};
use go_client::game_request::{GameRequest, SessionId};
use go_client::game_step::{PlayerColor, PlayerStep, X, Y};
use go_client::hud::{
    check_login, check_pass, player_entry, player_line, presence, session_entry, session_line,
    session_of_line, InvalidData, Sign,
};
use go_client::text::decimal;
use go_client::util::{format_time_at, get_format_time, time_format};
use std::collections::HashMap;

fn user(login: &str, is_online: bool) -> UserStatusDto {
    UserStatusDto { login: login.to_string(), is_online }
}

fn token(user_id: i64, login: &str) -> UserTokenDto {
    UserTokenDto { user_id, login: login.to_string(), token: "t0k3n".to_string() }
}

fn session(creator: &str, joined: Option<&str>) -> UserSessionDto {
    UserSessionDto {
        user1: user(creator, true),
        user2: joined.map(|login| user(login, false)),
        session_id: "8e2db1b1-6b1a-48ae-b44b-10fe5f47ffcd".to_string(),
    }
}

fn data(user_id: i64, login: &str, creator: &str, joined: Option<&str>) -> GameData {
    let mut data = GameData::new();
    data.init_game_data(Some(session(creator, joined)), Some(token(user_id, login)));
    data
}

#[test]
fn player_color_names() {
    assert_eq!(PlayerColor::from(true).to_string(), "black");
    assert_eq!(PlayerColor::from(false).to_string(), "white");
    assert!(bool::from(PlayerColor::from(true)));
    assert!(!bool::from(PlayerColor::from(false)));
    assert_eq!(PlayerColor::from(true), PlayerColor::from(true));
    assert_ne!(PlayerColor::from(true), PlayerColor::from(false));
}

#[test]
fn coordinates_keep_their_value() {
    assert_eq!(i32::from(X::from(10)), 10);
    assert_eq!(i32::from(Y::from(-3)), -3);
    assert_eq!(X::from(7), X::from(7));
    assert_ne!(Y::from(7), Y::from(8));
}

#[test]
fn builder_example() {
    let player_step = PlayerStep { x: X::from(10), y: Y::from(20), color: PlayerColor::from(true) };
    let game_request = GameRequest::builder().player_step(player_step).build();
    assert_eq!(10, i32::from(game_request.player_step.x));
    assert_eq!(20, i32::from(game_request.player_step.y));
    assert_eq!(true, bool::from(game_request.player_step.color));
}

#[test]
fn builder_takes_the_last_step_and_the_given_session() {
    let first = PlayerStep { x: X::from(1), y: Y::from(2), color: PlayerColor::from(false) };
    let second = PlayerStep { x: X::from(3), y: Y::from(4), color: PlayerColor::from(true) };
    let id = SessionId::default();
    let text = id.as_str().to_string();
    let request = GameRequest::builder().player_step(first).session(id).player_step(second).build();
    assert_eq!(request.session.as_str(), text);
    assert_eq!(
        request.player_step,
        PlayerStep { x: X::from(3), y: Y::from(4), color: PlayerColor::from(true) }
    );
}

#[test]
fn fresh_sessions_differ() {
    let a = GameRequest::builder()
        .player_step(PlayerStep { x: X::from(0), y: Y::from(0), color: PlayerColor::from(true) })
        .build();
    let b = GameRequest::builder()
        .player_step(PlayerStep { x: X::from(0), y: Y::from(0), color: PlayerColor::from(true) })
        .build();
    assert_ne!(a.session, b.session);
    assert_ne!(a, b);
    assert_eq!(a, a);
    assert_ne!(SessionId::default(), SessionId::default());
}

#[test]
fn records_hold_what_they_are_given() {
    let mut colors = HashMap::new();
    colors.insert(7i64, true);
    let state = GameStateDto {
        game_state_id: 1,
        user_session_id: "s".to_string(),
        active_user_id: 7,
        game_state: GameState {
            score: GameScore { black: 3, white: 4 },
            board: vec![vec![Some(true), None], vec![Some(false), None]],
            colors,
        },
        is_active: true,
    };
    let copy = state.clone();
    assert_eq!(copy.game_state.score.black, 3);
    assert_eq!(copy.game_state.colors.get(&7), Some(&true));
    assert_eq!(copy.game_state.board[1][0], Some(false));
    let request = UserStepRequestDto {
        session: UserSessionStepDto { session_id: "s".to_string(), user_id: 7 },
        step: StepDto { row: 1, col: 2 },
    };
    assert_eq!(request.clone().step.col, 2);
    let asked = UserSessionRequestDto { user_id: 7, session_id: None };
    assert!(asked.clone().session_id.is_none());
}

#[test]
fn decimal_numbers() {
    assert_eq!(decimal(0), "0");
    assert_eq!(decimal(7), "7");
    assert_eq!(decimal(10), "10");
    assert_eq!(decimal(-1), "-1");
    assert_eq!(decimal(1203), "1203");
    assert_eq!(decimal(i32::MAX), "2147483647");
    assert_eq!(decimal(i32::MIN), "-2147483648");
    for value in [-100, -99, -10, -9, 9, 99, 100, 101, 65535] {
        assert_eq!(decimal(value), value.to_string());
    }
}

#[test]
fn user_and_session_ids() {
    let empty = GameData::new();
    assert_eq!(empty.get_user_id(), -1);
    assert_eq!(NO_USER_ID, -1);
    assert_eq!(empty.get_session_id(), None);
    let data = data(2, "ann", "ann", None);
    assert_eq!(data.get_user_id(), 2);
    assert_eq!(data.get_session_id(), Some("8e2db1b1-6b1a-48ae-b44b-10fe5f47ffcd".to_string()));
    assert_eq!(data.get_nick(), "ann");
}

#[test]
fn opponent_of_the_creator_and_of_the_one_who_joined() {
    assert_eq!(data(2, "ann", "ann", None).get_opponent_nick(), "Wait...");
    assert_eq!(data(2, "ann", "ann", Some("bob")).get_opponent_nick(), "bob");
    assert_eq!(data(3, "bob", "ann", Some("bob")).get_opponent_nick(), "ann");
}

#[test]
fn score_labels_follow_the_colours() {
    let mut data = data(2, "ann", "ann", Some("bob"));
    assert_eq!(data.get_black_score_label_text(5), "Wait...: 5");
    assert_eq!(data.get_white_score_label_text(-2), "Wait...: -2");
    let mut colors = HashMap::new();
    colors.insert(2i64, true);
    colors.insert(3i64, false);
    data.refresh_colors(&colors);
    assert_eq!(data.user_color, Some(true));
    assert_eq!(data.get_black_score_label_text(12), "ann: 12");
    assert_eq!(data.get_white_score_label_text(0), "bob: 0");
    colors.insert(2i64, false);
    data.refresh_colors(&colors);
    assert_eq!(data.get_black_score_label_text(12), "bob: 12");
    assert_eq!(data.get_white_score_label_text(0), "ann: 0");
}

#[test]
fn session_request_is_made_of_user_and_session() {
    let mut data = data(2, "ann", "ann", None);
    data.prepare_session_request();
    let request = data.session_request.clone().unwrap();
    assert_eq!(request.user_id, 2);
    assert_eq!(request.session_id, Some("8e2db1b1-6b1a-48ae-b44b-10fe5f47ffcd".to_string()));
    let mut empty = GameData::new();
    empty.prepare_session_request();
    let request = empty.session_request.clone().unwrap();
    assert_eq!(request.user_id, -1);
    assert_eq!(request.session_id, None);
}

#[test]
fn user_step_names_session_user_and_point() {
    let data = data(2, "ann", "ann", None);
    let request = data.user_step(3, 16);
    assert_eq!(request.session.session_id, "8e2db1b1-6b1a-48ae-b44b-10fe5f47ffcd");
    assert_eq!(request.session.user_id, 2);
    assert_eq!(request.step.row, 3);
    assert_eq!(request.step.col, 16);
}

#[test]
fn opponent_joins() {
    let mut data = data(2, "ann", "ann", None);
    assert!(!data.join_opponent(session("someone", None)));
    assert!(data.session.as_ref().unwrap().user2.is_none());
    assert!(data.join_opponent(session("someone", Some("bob"))));
    let session = data.session.as_ref().unwrap();
    assert_eq!(session.user1.login, "ann");
    assert_eq!(session.user2.as_ref().unwrap().login, "bob");
    assert_eq!(data.get_opponent_nick(), "bob");
}

#[test]
fn stone_names() {
    assert_eq!(stone_color_name(Some(true)), "black");
    assert_eq!(stone_color_name(Some(false)), "white");
    assert_eq!(stone_color_name(None), "none");
}

#[test]
fn board_is_shown_row_by_row() {
    let board = vec![vec![Some(true), None, Some(false)], vec![], vec![None, Some(true)]];
    assert_eq!(
        refresh_board(&board),
        vec![
            (0, 0, "black"),
            (0, 1, "none"),
            (0, 2, "white"),
            (2, 0, "none"),
            (2, 1, "black"),
        ]
    );
    assert!(refresh_board(&vec![]).is_empty());
}

#[test]
fn colours_by_name() {
    assert_eq!(parse_color("black"), Some(true));
    assert_eq!(parse_color("white"), Some(false));
    assert_eq!(parse_color("none"), None);
    assert_eq!(parse_color("Black"), None);
    assert_eq!(parse_color(""), None);
    assert_eq!(stone_texture(true), "res://content/materials/black_stone.svg");
    assert_eq!(stone_texture(false), "res://content/materials/white_stone.svg");
}

#[test]
fn every_point_is_free_at_first() {
    let places = FreePlaces::new();
    assert_eq!(BOARD_SIZE, 19);
    for row in -1..20 {
        for col in -1..20 {
            let on_board = (0..19).contains(&row) && (0..19).contains(&col);
            assert_eq!(places.is_free(row, col), on_board);
        }
    }
}

#[test]
fn a_stone_takes_its_point_once() {
    let mut places = FreePlaces::new();
    assert_eq!(places.put_stone(3, 4, "none"), None);
    assert!(places.is_free(3, 4));
    assert_eq!(places.put_stone(3, 4, "black"), Some(true));
    assert!(!places.is_free(3, 4));
    assert!(places.is_free(4, 3));
    assert!(places.is_free(3, 5));
    assert_eq!(places.put_stone(3, 4, "white"), None);
    assert_eq!(places.put_stone(18, 18, "white"), Some(false));
    assert_eq!(places.put_stone(19, 0, "white"), None);
    assert_eq!(places.put_stone(0, -1, "black"), None);
    let free = (0..19).flat_map(|r| (0..19).map(move |c| (r, c))).filter(|(r, c)| places.is_free(*r, *c)).count();
    assert_eq!(free, 359);
}

#[test]
fn credentials_have_a_least_length() {
    assert_eq!(check_login("ab".to_string()), Err(InvalidData::Login));
    assert_eq!(check_login("".to_string()), Err(InvalidData::Login));
    assert_eq!(check_login("abc".to_string()), Ok("abc".to_string()));
    assert_eq!(check_pass("abc".to_string()), Err(InvalidData::Password));
    assert_eq!(check_pass("abcd".to_string()), Ok("abcd".to_string()));
    // The length is counted in bytes.
    assert_eq!(check_login("\u{e9}a".to_string()), Ok("\u{e9}a".to_string()));
    assert_eq!(InvalidData::Login.hint(), "Login length must be >= 3");
    assert_eq!(InvalidData::Password.hint(), "Password length must be >= 4");
}

#[test]
fn sign_texts() {
    assert_eq!(Sign::Up.uri(), "signup");
    assert_eq!(Sign::In.uri(), "signin");
    assert_eq!(
        Sign::Up.refusal_text("409 Conflict"),
        "Failed to signup. Try another credentials. Status: 409 Conflict"
    );
    assert_eq!(
        Sign::In.refusal_text("401 Unauthorized \n"),
        "Failed to signin. Try another credentials. Status: 401 Unauthorized \n"
    );
    assert_eq!(
        Sign::In.refusal_line("401 Unauthorized \n"),
        "Failed to signin. Try another credentials. Status: 401 Unauthorized"
    );
    assert_eq!(
        Sign::Up.refusal_line(""),
        "Failed to signup. Try another credentials. Status:"
    );
    assert_eq!(Sign::Up.failure_text(), "Failed to signup. Try another credentials.");
    assert_eq!(Sign::In.failure_text(), "Failed to sign in. Try another credentials.");
}

#[test]
fn list_entries() {
    assert_eq!(presence(true), "online");
    assert_eq!(presence(false), "offline");
    assert_eq!(player_entry(&user("ann", true)), "ann => online");
    assert_eq!(player_entry(&user(" bob", false)), " bob => offline");
    assert_eq!(player_line(&user(" bob", false)), "bob => offline");
    assert_eq!(player_line(&user("ann", true)), "ann => online");
    let s = session("ann", None);
    assert_eq!(session_entry(&s), "ann=>online=>8e2db1b1-6b1a-48ae-b44b-10fe5f47ffcd");
    assert_eq!(session_line(&s), "ann=>online=>8e2db1b1-6b1a-48ae-b44b-10fe5f47ffcd");
    let mut padded = session("\tann", None);
    padded.session_id = "id \n".to_string();
    assert_eq!(session_entry(&padded), "\tann=>online=>id \n");
    assert_eq!(session_line(&padded), "ann=>online=>id");
}

#[test]
fn session_of_a_list_entry() {
    assert_eq!(
        session_of_line("ann=>online=>8e2db1b1-6b1a-48ae-b44b-10fe5f47ffcd"),
        Some("8e2db1b1-6b1a-48ae-b44b-10fe5f47ffcd".to_string())
    );
    assert_eq!(session_of_line("ann=>online"), None);
    assert_eq!(session_of_line("ann"), None);
    assert_eq!(session_of_line(""), None);
    assert_eq!(session_of_line("a=>b=>"), Some("".to_string()));
    assert_eq!(session_of_line("=>=>x"), Some("x".to_string()));
    assert_eq!(session_of_line("a=>b=>c=>d"), Some("c".to_string()));
    assert_eq!(session_of_line("a==>b=>c"), Some("c".to_string()));
    assert_eq!(session_of_line("a=>b=c>=>d"), Some("d".to_string()));
    assert_eq!(session_of_line("\u{e9}=>\u{fc}=>\u{f8}x"), Some("\u{f8}x".to_string()));
    for entry in ["a=>b=>c", "=>", "=>=>", "x=>=>=>y", "a=b>c", "=>a=>=>"] {
        let expected = entry.split("=>").nth(2).map(|s| s.to_string());
        assert_eq!(session_of_line(entry), expected, "{}", entry);
    }
}

#[test]
fn time_formats() {
    assert_eq!(time_format(None), "%d/%m/%Y'T'%T");
    assert_eq!(time_format(Some("%T")), "%T");
    assert_eq!(format_time_at(0, 0, None), Some("01/01/1970'T'00:00:00".to_string()));
    assert_eq!(format_time_at(86_400 + 3_661, 5, Some("%T")), Some("01:01:01".to_string()));
    assert_eq!(
        format_time_at(1_700_000_000, 0, Some("%Y-%m-%d %H:%M")),
        Some("2023-11-14 22:13".to_string())
    );
    assert_eq!(format_time_at(0, 0, Some("%")), None);
    assert_eq!(format_time_at(i64::MAX, 0, None), None);
}

#[test]
fn current_time_is_written_in_the_format() {
    let text = get_format_time(Some("%T")).unwrap();
    assert_eq!(text.len(), 8);
    assert_eq!(text.as_bytes()[2], b':');
    assert_eq!(text.as_bytes()[5], b':');
    let text = get_format_time(None).unwrap();
    assert_eq!(text.len(), 21);
    assert_eq!(&text[10..13], "'T'");
    assert_eq!(get_format_time(Some("%")), None);
}
