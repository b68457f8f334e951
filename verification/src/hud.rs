//! What the sign-in and lobby panels decide: which credentials pass, what a
//! list entry says, and which session an entry stands for.

use crate::dto::{UserSessionDto, UserStatusDto};
use vstd::prelude::*;
use vstd::string::*;

verus! {

/// The least length of a login, in bytes.
pub const MIN_LOGIN_LEN: usize = 3;

/// The least length of a password, in bytes.
pub const MIN_PASS_LEN: usize = 4;

/// A credential was refused as too short.
#[derive(Clone, Copy, Debug, PartialEq, Eq, Structural)]
pub enum InvalidData {
    Login,
    Password,
}

impl InvalidData {
    /// What is asked of the credential that was refused.
    pub open spec fn hint_text(self) -> Seq<char> {
        match self {
            InvalidData::Login => "Login length must be >= 3"@,
            InvalidData::Password => "Password length must be >= 4"@,
        }
    }

    /// What is asked of the credential that was refused, to show in its
    /// place.
    pub fn hint(&self) -> (text: &'static str)
        ensures
            text@ == self.hint_text(),
    {
        match self {
            InvalidData::Login => "Login length must be >= 3",
            InvalidData::Password => "Password length must be >= 4",
        }
    }
}

/// The length of a text in bytes, as UTF-8.
pub open spec fn byte_len(text: Seq<char>) -> nat {
    vstd::utf8::encode_utf8(text).len()
}

/// Takes a login of at least three bytes and refuses a shorter one.
pub fn check_login(login: String) -> (checked: Result<String, InvalidData>)
    ensures
        match checked {
            Ok(taken) => taken == login && byte_len(login@) >= MIN_LOGIN_LEN,
            Err(refused) => byte_len(login@) < MIN_LOGIN_LEN && refused
                == InvalidData::Login,
        },
{
    if login.as_str().as_bytes().len() < MIN_LOGIN_LEN {
        Err(InvalidData::Login)
    } else {
        Ok(login)
    }
}

/// Takes a password of at least four bytes and refuses a shorter one.
pub fn check_pass(pass: String) -> (checked: Result<String, InvalidData>)
    ensures
        match checked {
            Ok(taken) => taken == pass && byte_len(pass@) >= MIN_PASS_LEN,
            Err(refused) => byte_len(pass@) < MIN_PASS_LEN && refused
                == InvalidData::Password,
        },
{
    if pass.as_str().as_bytes().len() < MIN_PASS_LEN {
        Err(InvalidData::Password)
    } else {
        Ok(pass)
    }
}

/// What a user asked for at the sign-in panel.
#[derive(Clone, Copy, Debug, PartialEq, Eq, Structural)]
pub enum Sign {
    Up,
    In,
}

impl Sign {
    /// The path of the backend that serves the request.
    pub open spec fn path(self) -> Seq<char> {
        match self {
            Sign::Up => "signup"@,
            Sign::In => "signin"@,
        }
    }

    /// What is shown when the backend answers with a status other than
    /// success, up to the status itself.
    pub open spec fn refusal(self) -> Seq<char> {
        match self {
            Sign::Up => "Failed to signup. Try another credentials. Status: "@,
            Sign::In => "Failed to signin. Try another credentials. Status: "@,
        }
    }

    /// What is shown when the backend cannot be reached.
    pub open spec fn failure(self) -> Seq<char> {
        match self {
            Sign::Up => "Failed to signup. Try another credentials."@,
            Sign::In => "Failed to sign in. Try another credentials."@,
        }
    }

    /// The path of the backend that serves the request.
    pub fn uri(&self) -> (path: &'static str)
        ensures
            path@ == self.path(),
    {
        match self {
            Sign::Up => "signup",
            Sign::In => "signin",
        }
    }

    /// What is shown when the backend cannot be reached.
    pub fn failure_text(&self) -> (text: &'static str)
        ensures
            text@ == self.failure(),
    {
        match self {
            Sign::Up => "Failed to signup. Try another credentials.",
            Sign::In => "Failed to sign in. Try another credentials.",
        }
    }

    /// What is shown when the backend answers with `status`, before it is
    /// trimmed.
    pub fn refusal_text(&self, status: &str) -> (text: String)
        ensures
            text@ == self.refusal() + status@,
    {
        let mut text = match self {
            Sign::Up => "Failed to signup. Try another credentials. Status: ".to_owned(),
            Sign::In => "Failed to signin. Try another credentials. Status: ".to_owned(),
        };
        text.append(status);
        text
    }

    /// What is shown when the backend answers with `status`.
    pub fn refusal_line(&self, status: &str) -> (text: String)
        ensures
            text@ == trimmed(self.refusal() + status@),
    {
        let text = self.refusal_text(status);
        trim(text.as_str())
    }
}

/// How a user's presence is shown.
pub open spec fn presence_text(is_online: bool) -> Seq<char> {
    if is_online {
        "online"@
    } else {
        "offline"@
    }
}

/// How a user's presence is shown: "online" or "offline".
pub fn presence(is_online: bool) -> (text: &'static str)
    ensures
        text@ == presence_text(is_online),
{
    if is_online {
        "online"
    } else {
        "offline"
    }
}

/// The entry of a user in the list of players: the login, an arrow between
/// spaces and the presence.
pub open spec fn player_text(login: Seq<char>, is_online: bool) -> Seq<char> {
    login + seq![' ', '=', '>', ' '] + presence_text(is_online)
}

/// The entry of a session in the list of sessions: the creator's login, the
/// creator's presence and the session's identifier, with an arrow between
/// each two.
pub open spec fn session_text(login: Seq<char>, is_online: bool, session_id: Seq<char>) -> Seq<
    char,
> {
    login + seq!['=', '>'] + presence_text(is_online) + seq!['=', '>'] + session_id
}

/// The entry of a user in the list of players, before it is trimmed.
pub fn player_entry(player: &UserStatusDto) -> (text: String)
    ensures
        text@ == player_text(player.login@, player.is_online),
{
    let mut text = player.login.clone();
    proof {
        reveal_strlit(" => ");
    }
    text.append(" => ");
    text.append(presence(player.is_online));
    assert(text@ =~= player_text(player.login@, player.is_online));
    text
}

/// The entry of a session in the list of sessions, before it is trimmed.
pub fn session_entry(session: &UserSessionDto) -> (text: String)
    ensures
        text@ == session_text(session.user1.login@, session.user1.is_online, session.session_id@),
{
    let mut text = session.user1.login.clone();
    proof {
        reveal_strlit("=>");
    }
    text.append("=>");
    text.append(presence(session.user1.is_online));
    text.append("=>");
    text.append(session.session_id.as_str());
    assert(text@ =~= session_text(
        session.user1.login@,
        session.user1.is_online,
        session.session_id@,
    ));
    text
}

/// What is left of a text when the white space at its start and at its end
/// is taken away.
pub uninterp spec fn trimmed(text: Seq<char>) -> Seq<char>;

/// A text without the white space at its start and at its end, from
/// `str::trim`. The result is the one that the name `trimmed` stands for.
#[verifier::external_body]
fn trim(text: &str) -> (rest: String)
    ensures
        rest@ == trimmed(text@),
{
    text.trim().to_string()
}

/// The entry of a user in the list of players.
pub fn player_line(player: &UserStatusDto) -> (text: String)
    ensures
        text@ == trimmed(player_text(player.login@, player.is_online)),
{
    let entry = player_entry(player);
    trim(entry.as_str())
}

/// The entry of a session in the list of sessions.
pub fn session_line(session: &UserSessionDto) -> (text: String)
    ensures
        text@ == trimmed(
            session_text(session.user1.login@, session.user1.is_online, session.session_id@),
        ),
{
    let entry = session_entry(session);
    trim(entry.as_str())
}

/// Whether an arrow, `=>`, starts at position `i` of `text`.
pub open spec fn arrow_at(text: Seq<char>, i: int) -> bool {
    0 <= i && i + 1 < text.len() && text[i] == '=' && text[i + 1] == '>'
}

/// Where the first arrow at or after position `from` starts, or the length
/// of `text` if there is none.
pub open spec fn next_arrow(text: Seq<char>, from: int) -> int
    decreases text.len() - from,
{
    if from < 0 || from >= text.len() {
        text.len() as int
    } else if arrow_at(text, from) {
        from
    } else {
        next_arrow(text, from + 1)
    }
}

/// The field number `index`, counted from 0, of the fields that the arrows
/// part `text` into from position `from` on; `None` if there are not so
/// many fields. A field may be empty.
pub open spec fn field_from(text: Seq<char>, from: int, index: nat) -> Option<Seq<char>>
    decreases index,
{
    let end = next_arrow(text, from);
    if from < 0 || from > text.len() {
        None
    } else if index == 0 {
        Some(text.subrange(from, end))
    } else if end >= text.len() {
        None
    } else {
        field_from(text, end + 2, (index - 1) as nat)
    }
}

/// The session identifier in an entry of the list of sessions: its third
/// field.
pub open spec fn session_of(entry: Seq<char>) -> Option<Seq<char>> {
    field_from(entry, 0, 2)
}

/// Where the first arrow at or after `from` starts, or the length of the
/// text if there is none.
fn find_arrow(text: &str, from: usize, len: usize) -> (at: usize)
    requires
        len == text@.len(),
        from <= len,
    ensures
        at == next_arrow(text@, from as int),
        from <= at <= len,
        at < len ==> at + 2 <= len,
{
    let mut i = from;
    while i < len
        invariant
            from <= i <= len,
            len == text@.len(),
            next_arrow(text@, from as int) == next_arrow(text@, i as int),
        decreases len - i,
    {
        if i + 1 < len && text.get_char(i) == '=' && text.get_char(i + 1) == '>' {
            return i;
        }
        i = i + 1;
    }
    i
}

/// The session identifier in an entry of the list of sessions, or `None`
/// where the entry has fewer than three fields.
pub fn session_of_line(entry: &str) -> (session: Option<String>)
    ensures
        match session {
            Some(text) => session_of(entry@) == Some(text@),
            None => session_of(entry@) is None,
        },
{
    proof {
        reveal_with_fuel(field_from, 3);
    }
    let len = entry.unicode_len();
    let first = find_arrow(entry, 0, len);
    if first >= len {
        return None;
    }
    let second = find_arrow(entry, first + 2, len);
    if second >= len {
        return None;
    }
    let third = find_arrow(entry, second + 2, len);
    Some(entry.substring_char(second + 2, third).to_owned())
}

} // verus!
