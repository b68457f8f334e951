//! What the game scene knows of the player, the session and the colours,
//! and what it derives from that.

use crate::dto::{
    StepDto, UserSessionDto, UserSessionRequestDto, UserSessionStepDto, UserStepRequestDto,
    UserTokenDto,
};
use crate::text::{decimal, decimal_text};
use std::collections::HashMap;
use vstd::prelude::*;
use vstd::string::*;

verus! {

broadcast use vstd::std_specs::hash::group_hash_axioms;

/// The user id that stands for "nobody signed in".
pub const NO_USER_ID: i64 = -1;

/// The name shown for a player who has not arrived yet.
pub open spec fn waiting_name() -> Seq<char> {
    seq!['W', 'a', 'i', 't', '.', '.', '.']
}

/// A score label: the name, a colon, a space and the score in decimal.
pub open spec fn score_label(name: Seq<char>, score: i32) -> Seq<char> {
    name + seq![':', ' '] + decimal_text(score as int)
}

/// The name of the colour of a point of the board: "black", "white", or
/// "none" for a point without a stone.
pub open spec fn stone_name(cell: Option<bool>) -> Seq<char> {
    match cell {
        Some(true) => "black"@,
        Some(false) => "white"@,
        None => "none"@,
    }
}

/// The name of the colour of a point of the board.
pub fn stone_color_name(cell: Option<bool>) -> (name: &'static str)
    ensures
        name@ == stone_name(cell),
{
    match cell {
        Some(true) => "black",
        Some(false) => "white",
        None => "none",
    }
}

/// The player's token, the session, the request that asks for the game's
/// state, and the player's colour once it is known.
pub struct GameData {
    pub session: Option<UserSessionDto>,
    pub token: Option<UserTokenDto>,
    pub session_request: Option<UserSessionRequestDto>,
    pub user_color: Option<bool>,
}

impl GameData {
    /// The id of the player, or -1 where nobody is signed in.
    pub open spec fn user_id(self) -> i64 {
        match self.token {
            Some(token) => token.user_id,
            None => NO_USER_ID,
        }
    }

    /// The text of the session's identifier, if there is a session.
    pub open spec fn session_text(self) -> Option<Seq<char>> {
        match self.session {
            Some(session) => Some(session.session_id@),
            None => None,
        }
    }

    /// The name of the other player of the session: for the session's
    /// creator the one who joined, or the waiting name as long as nobody
    /// did; for anyone else the creator.
    pub open spec fn opponent(self) -> Seq<char>
        recommends
            self.token is Some,
            self.session is Some,
    {
        let session = self.session->0;
        if self.token->0.login@ == session.user1.login@ {
            match session.user2 {
                Some(other) => other.login@,
                None => waiting_name(),
            }
        } else {
            session.user1.login@
        }
    }

    /// The name that stands on the label of the colour `black`: the
    /// player's own on the label of their colour, the opponent's on the
    /// other, and the waiting name as long as the colours are not known.
    pub open spec fn label_name(self, black: bool) -> Seq<char> {
        match self.user_color {
            Some(color) => if color == black {
                self.token->0.login@
            } else {
                self.opponent()
            },
            None => waiting_name(),
        }
    }

    /// Whether the names for the score labels can be told: once the
    /// colours are known, a token must be there, and a session for the
    /// opponent's name.
    pub open spec fn can_label(self, black: bool) -> bool {
        match self.user_color {
            Some(color) => self.token is Some && (color != black ==> self.session is Some),
            None => true,
        }
    }

    /// Game data of a scene that knows nothing yet.
    pub fn new() -> (data: GameData)
        ensures
            data.session is None,
            data.token is None,
            data.session_request is None,
            data.user_color is None,
    {
        GameData { session: None, token: None, session_request: None, user_color: None }
    }

    /// Takes over the session and the token.
    pub fn init_game_data(
        &mut self,
        user_session: Option<UserSessionDto>,
        token: Option<UserTokenDto>,
    )
        ensures
            final(self).session == user_session,
            final(self).token == token,
            final(self).session_request == old(self).session_request,
            final(self).user_color == old(self).user_color,
    {
        self.session = user_session;
        self.token = token;
    }

    /// The id of the player, or -1 where nobody is signed in.
    pub fn get_user_id(&self) -> (id: i64)
        ensures
            id == self.user_id(),
    {
        match &self.token {
            Some(token) => token.user_id,
            None => NO_USER_ID,
        }
    }

    /// The session's identifier, if there is a session.
    pub fn get_session_id(&self) -> (id: Option<String>)
        ensures
            match id {
                Some(text) => self.session_text() == Some(text@),
                None => self.session_text() is None,
            },
    {
        match &self.session {
            Some(session) => Some(session.session_id.clone()),
            None => None,
        }
    }

    /// The player's name.
    pub fn get_nick(&self) -> (nick: String)
        requires
            self.token is Some,
        ensures
            nick@ == self.token->0.login@,
    {
        match &self.token {
            Some(token) => token.login.clone(),
            None => String::new(),
        }
    }

    /// The name of the other player of the session.
    pub fn get_opponent_nick(&self) -> (nick: String)
        requires
            self.token is Some,
            self.session is Some,
        ensures
            nick@ == self.opponent(),
    {
        match (&self.token, &self.session) {
            (Some(token), Some(session)) => {
                if token.login == session.user1.login {
                    match &session.user2 {
                        Some(other) => other.login.clone(),
                        None => {
                            proof {
                                reveal_strlit("Wait...");
                            }
                            let name = "Wait...".to_owned();
                            assert(name@ =~= waiting_name());
                            name
                        },
                    }
                } else {
                    session.user1.login.clone()
                }
            },
            _ => String::new(),
        }
    }

    /// The request that asks for the state of the player's game: it is
    /// made of the player's id and the session's identifier, and kept.
    pub fn prepare_session_request(&mut self)
        ensures
            final(self).session == old(self).session,
            final(self).token == old(self).token,
            final(self).user_color == old(self).user_color,
            final(self).session_request matches Some(request) && request.user_id == old(
                self,
            ).user_id() && (match request.session_id {
                Some(text) => old(self).session_text() == Some(text@),
                None => old(self).session_text() is None,
            }),
    {
        let user_id = self.get_user_id();
        let session_id = self.get_session_id();
        self.session_request = Some(UserSessionRequestDto { user_id, session_id });
    }

    /// The request that reports a stone put at `row` and `col`.
    pub fn user_step(&self, row: i32, col: i32) -> (request: UserStepRequestDto)
        requires
            self.session is Some,
        ensures
            Some(request.session.session_id@) == self.session_text(),
            request.session.user_id == self.user_id(),
            request.step.row == row,
            request.step.col == col,
    {
        let session_id = match &self.session {
            Some(session) => session.session_id.clone(),
            None => String::new(),
        };
        let session = UserSessionStepDto { session_id, user_id: self.get_user_id() };
        UserStepRequestDto { session, step: StepDto { row, col } }
    }

    /// Takes over who joined the session from what the backend reports of
    /// it, and tells whether somebody did: the game can start then.
    pub fn join_opponent(&mut self, reported: UserSessionDto) -> (joined: bool)
        requires
            old(self).session is Some,
        ensures
            joined == reported.user2 is Some,
            final(self).session matches Some(session) && session.user2 == reported.user2
                && session.user1 == old(self).session->0.user1 && session.session_id == old(
                self,
            ).session->0.session_id,
            final(self).token == old(self).token,
            final(self).session_request == old(self).session_request,
            final(self).user_color == old(self).user_color,
    {
        let joined = reported.user2.is_some();
        match self.session.take() {
            Some(session) => {
                self.session = Some(
                    UserSessionDto {
                        user1: session.user1,
                        user2: reported.user2,
                        session_id: session.session_id,
                    },
                );
            },
            None => {},
        }
        joined
    }

    /// Takes the player's colour from the colours of the game.
    pub fn refresh_colors(&mut self, colors: &HashMap<i64, bool>)
        requires
            colors@.contains_key(old(self).user_id()),
        ensures
            final(self).user_color == Some(colors@[old(self).user_id()]),
            final(self).session == old(self).session,
            final(self).token == old(self).token,
            final(self).session_request == old(self).session_request,
    {
        let user_id = self.get_user_id();
        match colors.get(&user_id) {
            Some(color) => {
                self.user_color = Some(*color);
            },
            None => {},
        }
    }

    /// The text of the label that shows black's score.
    pub fn get_black_score_label_text(&self, score: i32) -> (text: String)
        requires
            self.can_label(true),
        ensures
            text@ == score_label(self.label_name(true), score),
    {
        self.label_text(true, score)
    }

    /// The text of the label that shows white's score.
    pub fn get_white_score_label_text(&self, score: i32) -> (text: String)
        requires
            self.can_label(false),
        ensures
            text@ == score_label(self.label_name(false), score),
    {
        self.label_text(false, score)
    }

    /// The text of the score label of a colour.
    fn label_text(&self, black: bool, score: i32) -> (text: String)
        requires
            self.can_label(black),
        ensures
            text@ == score_label(self.label_name(black), score),
    {
        let mut text = match self.user_color {
            Some(color) => if color == black {
                self.get_nick()
            } else {
                self.get_opponent_nick()
            },
            None => {
                proof {
                    reveal_strlit("Wait...");
                }
                let name = "Wait...".to_owned();
                assert(name@ =~= waiting_name());
                name
            },
        };
        proof {
            reveal_strlit(": ");
        }
        text.append(": ");
        let digits = decimal(score);
        text.append(digits.as_str());
        assert(text@ =~= score_label(self.label_name(black), score));
        text
    }
}

} // verus!
