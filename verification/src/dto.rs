//! The records that the game client exchanges with the backend.

use std::collections::HashMap;
use vstd::prelude::*;

verus! {

/// A user and whether they are connected.
#[derive(Debug, Clone)]
pub struct UserStatusDto {
    pub login: String,
    pub is_online: bool,
}

/// What the backend hands out after signing up or in.
#[derive(Debug, Clone)]
pub struct UserTokenDto {
    pub user_id: i64,
    pub login: String,
    pub token: String,
}

/// A game session: its creator and, once someone joined, the opponent.
#[derive(Debug, Clone)]
pub struct UserSessionDto {
    pub user1: UserStatusDto,
    pub user2: Option<UserStatusDto>,
    pub session_id: String,
}

/// Asks to create a session (no identifier) or to join or query one.
#[derive(Debug, Clone)]
pub struct UserSessionRequestDto {
    pub user_id: i64,
    pub session_id: Option<String>,
}

/// The state of a game as the backend reports it.
#[derive(Debug, Clone)]
pub struct GameStateDto {
    pub game_state_id: i64,
    pub user_session_id: String,
    pub active_user_id: i64,
    pub game_state: GameState,
    pub is_active: bool,
}

/// Score, board and the colour of each player, keyed by user id.
#[derive(Debug, Clone)]
pub struct GameState {
    pub score: GameScore,
    pub board: Vec<Vec<Option<bool>>>,
    pub colors: HashMap<i64, bool>,
}

/// Points of each colour.
#[derive(Debug, Clone)]
pub struct GameScore {
    pub black: i32,
    pub white: i32,
}

/// A move of a user within a session.
#[derive(Debug, Clone)]
pub struct UserStepRequestDto {
    pub session: UserSessionStepDto,
    pub step: StepDto,
}

/// The session and the user that a move belongs to.
#[derive(Debug, Clone)]
pub struct UserSessionStepDto {
    pub session_id: String,
    pub user_id: i64,
}

/// A point of the board.
#[derive(Debug, Clone)]
pub struct StepDto {
    pub row: i32,
    pub col: i32,
}

} // verus!
