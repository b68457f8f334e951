//! A game request: one move, sent under a session identifier.

use crate::game_step::PlayerStep;
use vstd::prelude::*;

verus! {

/// Whether `c` is a decimal digit or one of the letters `a` to `f`.
pub open spec fn is_lower_hex(c: char) -> bool {
    ('0' <= c && c <= '9') || ('a' <= c && c <= 'f')
}

/// Whether `c` may stand at position `i` of an identifier's text: a hyphen
/// after each group, a hexadecimal digit elsewhere.
pub open spec fn fits_session_text(i: int, c: char) -> bool {
    if i == 8 || i == 13 || i == 18 || i == 23 {
        c == '-'
    } else {
        is_lower_hex(c)
    }
}

/// The textual form of a random (version 4) UUID: 36 characters, lower-case
/// hexadecimal digits in groups of 8, 4, 4, 4 and 12 with hyphens between
/// them, the third group starting with `4` and the fourth with `8`, `9`, `a`
/// or `b`.
pub open spec fn is_session_text(text: Seq<char>) -> bool {
    &&& text.len() == 36
    &&& forall|i: int| 0 <= i < 36 ==> fits_session_text(i, #[trigger] text[i])
    &&& text[14] == '4'
    &&& (text[19] == '8' || text[19] == '9' || text[19] == 'a' || text[19] == 'b')
}

/// Text of a fresh random identifier, from `uuid::Uuid::new_v4` and its
/// `Display` form. Every outcome is the hyphenated lower-case form of a
/// version 4 UUID; which one is left open. `new_v4` panics where the
/// operating system gives no random bytes.
#[verifier::external_body]
fn fresh_uuid_text() -> (text: String)
    ensures
        is_session_text(text@),
{
    uuid::Uuid::new_v4().to_string()
}

/// Identifies a game session.
#[derive(Debug)]
pub struct SessionId(String);

impl View for SessionId {
    type V = Seq<char>;

    closed spec fn view(&self) -> Seq<char> {
        self.0@
    }
}

impl SessionId {
    /// Every identifier is the text of a version 4 UUID.
    #[verifier::type_invariant]
    spec fn wf(self) -> bool {
        is_session_text(self.0@)
    }

    /// The identifier's text.
    pub fn as_str(&self) -> (text: &str)
        ensures
            text@ == self@,
            is_session_text(text@),
    {
        proof {
            use_type_invariant(self);
        }
        self.0.as_str()
    }
}

impl Default for SessionId {
    /// A fresh random identifier.
    fn default() -> (id: Self)
        ensures
            is_session_text(id@),
    {
        Self(fresh_uuid_text())
    }
}

impl PartialEq for SessionId {
    fn eq(&self, other: &Self) -> (equal: bool) {
        self.0 == other.0
    }
}

impl vstd::std_specs::cmp::PartialEqSpecImpl for SessionId {
    open spec fn obeys_eq_spec() -> bool {
        true
    }

    open spec fn eq_spec(&self, other: &Self) -> bool {
        self@ == other@
    }
}

/// A move together with the session it belongs to.
#[derive(Debug)]
pub struct GameRequest {
    pub player_step: PlayerStep,
    pub session: SessionId,
}

impl PartialEq for GameRequest {
    fn eq(&self, other: &Self) -> (equal: bool) {
        self.player_step == other.player_step && self.session == other.session
    }
}

impl vstd::std_specs::cmp::PartialEqSpecImpl for GameRequest {
    open spec fn obeys_eq_spec() -> bool {
        true
    }

    open spec fn eq_spec(&self, other: &Self) -> bool {
        self.player_step == other.player_step && self.session@ == other.session@
    }
}

impl GameRequest {
    /// A builder with no move yet and a fresh session identifier.
    pub fn builder() -> (builder: RequestBuilder)
        ensures
            builder.step() is None,
            is_session_text(builder.session_text()),
    {
        RequestBuilder::default()
    }
}

/// Collects the parts of a [`GameRequest`].
pub struct RequestBuilder {
    player_step: Option<PlayerStep>,
    session: SessionId,
}

impl Default for RequestBuilder {
    fn default() -> (builder: Self)
        ensures
            builder.step() is None,
            is_session_text(builder.session_text()),
    {
        RequestBuilder { player_step: None, session: SessionId::default() }
    }
}

impl RequestBuilder {
    /// The move that was set, if any.
    pub closed spec fn step(self) -> Option<PlayerStep> {
        self.player_step
    }

    /// The text of the session identifier that the request will carry.
    pub closed spec fn session_text(self) -> Seq<char> {
        self.session@
    }

    /// Sets the move; a move set before is replaced.
    pub fn player_step(self, player_step: PlayerStep) -> (builder: RequestBuilder)
        ensures
            builder.step() == Some(player_step),
            builder.session_text() == self.session_text(),
    {
        RequestBuilder { player_step: Some(player_step), session: self.session }
    }

    /// Sets the session identifier in place of the fresh one.
    pub fn session(self, session: SessionId) -> (builder: RequestBuilder)
        ensures
            builder.step() == self.step(),
            builder.session_text() == session@,
    {
        RequestBuilder { player_step: self.player_step, session }
    }

    /// The request made of the move and the session identifier. A move must
    /// have been set.
    pub fn build(self) -> (request: GameRequest)
        requires
            self.step() is Some,
        ensures
            Some(request.player_step) == self.step(),
            request.session@ == self.session_text(),
    {
        GameRequest { player_step: self.player_step.unwrap(), session: self.session }
    }
}

} // verus!
