//! The main API side: who a session cookie belongs to, and the record of a
//! linked Discord account.

use vstd::prelude::*;
use vstd::string::*;
use crate::config::Config;
use crate::config::ConfigView;
use crate::http::is_success;
use crate::http::pairs_view;
use crate::http::status_is_success;
use crate::http::Body;
use crate::http::BodyView;
use crate::http::Method;
use crate::http::Outbound;
use crate::http::OutboundView;
use crate::http::Pair;
use crate::http::Payload;
use crate::http::PayloadView;
use crate::http::Reply;
use crate::http::ReplyView;
use crate::http::Shape;
use crate::json::object_text;
use crate::json::render_object;

verus! {

/// Why a call to the main API gave no result.
#[derive(Clone, Copy, Debug, PartialEq, Eq, Structural)]
pub enum SessionError {
    /// The session cookie is empty; no call was made.
    MissingSession,
    /// The call could not be completed.
    VerificationFailed,
    /// The main API answered with a status outside the success class.
    BadStatus(u16),
    /// The main API answered with success, but not with the expected body.
    ParseError,
}

/// The call that asks the main API whom a session cookie belongs to.
pub open spec fn session_request(config: ConfigView, cookie: Seq<char>) -> OutboundView {
    OutboundView {
        method: Method::Get,
        url: config.main_api_url + "/internal/auth/session"@,
        headers: seq![("Cookie"@, "session="@ + cookie)],
        payload: PayloadView::Empty,
        expects: Shape::Session,
    }
}

/// Describes the call that verifies a session cookie, or refuses an empty
/// cookie before any call is made.
pub fn verify_session(config: &Config, cookie: &str) -> (r: Result<Outbound, SessionError>)
    ensures
        match r {
            Ok(request) => cookie@.len() > 0 && request@ == session_request(config@, cookie@),
            Err(e) => cookie@.len() == 0 && e == SessionError::MissingSession,
        },
{
    if cookie.is_empty() {
        return Err(SessionError::MissingSession);
    }
    let mut url = config.main_api_url.clone();
    url.append("/internal/auth/session");
    let mut value = String::from_str("session=");
    value.append(cookie);
    let mut headers: Vec<Pair> = Vec::new();
    headers.push(Pair::new("Cookie", value.as_str()));
    let request = Outbound {
        method: Method::Get,
        url,
        headers,
        payload: Payload::Empty,
        expects: Shape::Session,
    };
    proof {
        assert(pairs_view(headers@) =~= session_request(config@, cookie@).headers);
    }
    Ok(request)
}

/// What the answer to a session verification amounts to.
pub open spec fn session_of(reply: ReplyView) -> Result<Seq<char>, SessionError> {
    match reply {
        ReplyView::Unreachable => Err(SessionError::VerificationFailed),
        ReplyView::Answered { status, body } => if !is_success(status) {
            Err(SessionError::BadStatus(status))
        } else {
            match body {
                Some(BodyView::Session { user_id }) => Ok(user_id),
                _ => Err(SessionError::ParseError),
            }
        },
    }
}

/// Reads the user id out of the answer to a session verification.
pub fn read_session(reply: Reply) -> (r: Result<String, SessionError>)
    ensures
        match r {
            Ok(user_id) => session_of(reply@) == Ok::<Seq<char>, SessionError>(user_id@),
            Err(e) => session_of(reply@) == Err::<Seq<char>, SessionError>(e),
        },
{
    match reply {
        Reply::Unreachable => Err(SessionError::VerificationFailed),
        Reply::Answered { status, body } => {
            if !status_is_success(status) {
                Err(SessionError::BadStatus(status))
            } else {
                match body {
                    Some(Body::Session { user_id }) => Ok(user_id),
                    _ => Err(SessionError::ParseError),
                }
            }
        },
    }
}

/// The call that records a Discord account for a user: a JSON document
/// posted to the link path of that user.
pub open spec fn link_request(
    config: ConfigView,
    user_id: Seq<char>,
    discord_id: Seq<char>,
    discord_username: Seq<char>,
) -> OutboundView {
    OutboundView {
        method: Method::Post,
        url: config.main_api_url + "/internal/user/discord-link/"@ + user_id,
        headers: Seq::empty(),
        payload: PayloadView::Json(
            object_text(
                seq![("discord_id"@, discord_id), ("discord_username"@, discord_username)],
            ),
        ),
        expects: Shape::Nothing,
    }
}

/// Describes the call that records a Discord account for a user.
pub fn link_discord(
    config: &Config,
    user_id: &str,
    discord_id: &str,
    discord_username: &str,
) -> (request: Outbound)
    ensures
        request@ == link_request(config@, user_id@, discord_id@, discord_username@),
{
    let mut url = config.main_api_url.clone();
    url.append("/internal/user/discord-link/");
    url.append(user_id);
    let mut members: Vec<Pair> = Vec::new();
    members.push(Pair::new("discord_id", discord_id));
    members.push(Pair::new("discord_username", discord_username));
    let document = render_object(&members);
    let headers: Vec<Pair> = Vec::new();
    let request = Outbound {
        method: Method::Post,
        url,
        headers,
        payload: Payload::Json(document),
        expects: Shape::Nothing,
    };
    proof {
        assert(pairs_view(headers@) =~= Seq::empty());
        assert(pairs_view(members@) =~= seq![
            ("discord_id"@, discord_id@),
            ("discord_username"@, discord_username@),
        ]);
    }
    request
}

/// What the answer to a link call amounts to.
pub open spec fn link_of(reply: ReplyView) -> Result<(), SessionError> {
    match reply {
        ReplyView::Unreachable => Err(SessionError::VerificationFailed),
        ReplyView::Answered { status, body } => if !is_success(status) {
            Err(SessionError::BadStatus(status))
        } else {
            Ok(())
        },
    }
}

/// Reads the answer to a link call: a status in the success class is all
/// that is asked for.
pub fn read_link(reply: Reply) -> (r: Result<(), SessionError>)
    ensures
        r == link_of(reply@),
{
    match reply {
        Reply::Unreachable => Err(SessionError::VerificationFailed),
        Reply::Answered { status, body } => {
            if !status_is_success(status) {
                Err(SessionError::BadStatus(status))
            } else {
                Ok(())
            }
        },
    }
}

} // verus!
