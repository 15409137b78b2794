//! The two endpoints of the service: the redirect to Discord, and the
//! callback that verifies the session, exchanges the code, fetches the
//! profile and records the link.
//!
//! The callback is a sequence of four outbound calls, each of which may end
//! it. [`discord_callback`] opens it and [`advance`] takes it one answer
//! further; both return a [`Step`] that either names the next call or holds
//! the response.

use vstd::prelude::*;
use vstd::string::*;
use crate::config::Config;
use crate::config::ConfigView;
use crate::discord::authorization_url;
use crate::discord::build_oauth_url;
use crate::discord::exchange_code;
use crate::discord::get_user_info;
use crate::discord::profile_of;
use crate::discord::profile_request;
use crate::discord::read_profile;
use crate::discord::read_token;
use crate::discord::token_of;
use crate::discord::token_request;
use crate::discord::ProviderError;
use crate::encoding::is_unreserved_char;
use crate::encoding::is_unreserved_text;
use crate::encoding::percent_encode_text;
use crate::encoding::unreserved_text_is_kept;
use crate::http::pairs_view;
use crate::http::Content;
use crate::http::ContentView;
use crate::http::Outbound;
use crate::http::OutboundView;
use crate::http::Pair;
use crate::http::Reply;
use crate::http::ReplyView;
use crate::http::Response;
use crate::http::ResponseView;
use crate::json::object_text;
use crate::json::render_object;
use crate::session::link_discord;
use crate::session::link_of;
use crate::session::link_request;
use crate::session::read_link;
use crate::session::read_session;
use crate::session::session_of;
use crate::session::session_request;
use crate::session::verify_session;
use crate::session::SessionError;

verus! {

/// Why a callback did not end in a link.
#[derive(Clone, Copy, Debug, PartialEq, Eq, Structural)]
pub enum CallbackError {
    /// The request has no `code` parameter.
    MissingCode,
    /// The session cookie is absent, empty or not accepted by the main API.
    Session(SessionError),
    /// Discord did not exchange the code for a token.
    Token(ProviderError),
    /// Discord did not return the profile.
    Profile(ProviderError),
    /// The main API did not record the link.
    Link(SessionError),
}

impl CallbackError {
    /// The status that the caller is answered with.
    pub open spec fn status_spec(self) -> u16 {
        match self {
            CallbackError::MissingCode => 400,
            CallbackError::Session(_) => 401,
            CallbackError::Token(_) => 502,
            CallbackError::Profile(_) => 502,
            CallbackError::Link(_) => 500,
        }
    }

    /// The text that the caller is answered with. It names the step, never
    /// the upstream failure.
    pub open spec fn message_spec(self) -> Seq<char> {
        match self {
            CallbackError::MissingCode => "Missing code"@,
            CallbackError::Session(_) => "Invalid session"@,
            CallbackError::Token(_) => "Failed to get Discord token"@,
            CallbackError::Profile(_) => "Failed to fetch Discord user"@,
            CallbackError::Link(_) => "Failed to link Discord account"@,
        }
    }

    /// The status that the caller is answered with.
    pub fn status(self) -> (status: u16)
        ensures
            status == self.status_spec(),
    {
        match self {
            CallbackError::MissingCode => 400,
            CallbackError::Session(_) => 401,
            CallbackError::Token(_) => 502,
            CallbackError::Profile(_) => 502,
            CallbackError::Link(_) => 500,
        }
    }

    /// The text that the caller is answered with.
    pub fn message(self) -> (text: &'static str)
        ensures
            text@ == self.message_spec(),
    {
        match self {
            CallbackError::MissingCode => "Missing code",
            CallbackError::Session(_) => "Invalid session",
            CallbackError::Token(_) => "Failed to get Discord token",
            CallbackError::Profile(_) => "Failed to fetch Discord user",
            CallbackError::Link(_) => "Failed to link Discord account",
        }
    }
}

/// A Discord account and the user it is linked to.
#[derive(Clone, Debug, PartialEq, Eq)]
pub struct Linked {
    pub user_id: String,
    pub discord_id: String,
    /// The display tag of the account.
    pub discord_username: String,
}

pub struct LinkedView {
    pub user_id: Seq<char>,
    pub discord_id: Seq<char>,
    pub discord_username: Seq<char>,
}

impl View for Linked {
    type V = LinkedView;

    open spec fn view(&self) -> LinkedView {
        LinkedView {
            user_id: self.user_id@,
            discord_id: self.discord_id@,
            discord_username: self.discord_username@,
        }
    }
}

/// The response to a callback that failed.
pub open spec fn failure_response(error: CallbackError) -> ResponseView {
    ResponseView {
        status: error.status_spec(),
        location: None,
        content: ContentView::Text(error.message_spec()),
    }
}

/// The response to a callback that linked an account: status 200 and a JSON
/// object with the members `user_id`, `discord_id` and `discord_username`.
pub open spec fn success_response(linked: LinkedView) -> ResponseView {
    ResponseView {
        status: 200,
        location: None,
        content: ContentView::Json(
            object_text(
                seq![
                    ("user_id"@, linked.user_id),
                    ("discord_id"@, linked.discord_id),
                    ("discord_username"@, linked.discord_username),
                ],
            ),
        ),
    }
}

/// The response that sends the browser to a URL: status 302, no body.
pub open spec fn redirect_response(url: Seq<char>) -> ResponseView {
    ResponseView { status: 302, location: Some(url), content: ContentView::Empty }
}

/// Renders the response to a callback that failed.
pub fn respond_failure(error: CallbackError) -> (response: Response)
    ensures
        response@ == failure_response(error),
{
    Response {
        status: error.status(),
        location: None,
        content: Content::Text(String::from_str(error.message())),
    }
}

/// Renders the response to a callback that linked an account.
pub fn respond_linked(linked: &Linked) -> (response: Response)
    ensures
        response@ == success_response(linked@),
{
    let mut members: Vec<Pair> = Vec::new();
    members.push(Pair::new("user_id", linked.user_id.as_str()));
    members.push(Pair::new("discord_id", linked.discord_id.as_str()));
    members.push(Pair::new("discord_username", linked.discord_username.as_str()));
    let document = render_object(&members);
    proof {
        assert(pairs_view(members@) =~= seq![
            ("user_id"@, linked@.user_id),
            ("discord_id"@, linked@.discord_id),
            ("discord_username"@, linked@.discord_username),
        ]);
    }
    Response { status: 200, location: None, content: Content::Json(document) }
}

/// The text of a state token: a version 4 UUID in its hyphenated lower-case
/// form.
pub open spec fn is_state_token(text: Seq<char>) -> bool {
    &&& text.len() == 36
    &&& forall|i: int|
        0 <= i < 36 ==> if i == 8 || i == 13 || i == 18 || i == 23 {
            #[trigger] text[i] == '-'
        } else {
            is_lower_hex(text[i])
        }
    &&& text[14] == '4'
    &&& (text[19] == '8' || text[19] == '9' || text[19] == 'a' || text[19] == 'b')
}

/// A hexadecimal digit in lower case.
pub open spec fn is_lower_hex(c: char) -> bool {
    ('0' <= c <= '9') || ('a' <= c <= 'f')
}

/// A state token is made of unreserved characters: percent-encoding leaves
/// it as it is.
pub proof fn state_token_is_unreserved(text: Seq<char>)
    requires
        is_state_token(text),
    ensures
        is_unreserved_text(text),
        percent_encode_text(text) == text,
{
    assert forall|i: int| 0 <= i < text.len() implies is_unreserved_char(#[trigger] text[i]) by {
        if i == 8 || i == 13 || i == 18 || i == 23 {
            assert(text[i] == '-');
        } else {
            assert(is_lower_hex(text[i]));
        }
    }
    unreserved_text_is_kept(text);
}

/// Draws a random identifier with `uuid::Uuid::new_v4` and writes it out
/// with its `Display`.
///
/// Trusted: whatever was drawn, the text is 36 characters long, has hyphens
/// at the positions 8, 13, 18 and 23 and lower-case hexadecimal digits
/// elsewhere, the version digit 4 at position 14 and the variant digit 8, 9,
/// a or b at position 19. Nothing is said of which identifier comes out.
#[verifier::external_body]
fn fresh_state() -> (state: String)
    ensures
        is_state_token(state@),
{
    uuid::Uuid::new_v4().to_string()
}

/// The redirect to Discord's authorization page for a given state.
pub fn authorization_redirect(config: &Config, state: &str) -> (response: Response)
    ensures
        response@ == redirect_response(
            authorization_url(config@.discord_client_id, config@.discord_redirect_uri, state@),
        ),
{
    Response {
        status: 302,
        location: Some(build_oauth_url(config, state)),
        content: Content::Empty,
    }
}

/// Answers the start endpoint: a redirect to Discord's authorization page
/// under a fresh state token.
pub fn discord_oauth(config: &Config) -> (response: Response)
    ensures
        exists|state: Seq<char>|
            #[trigger] is_state_token(state) && response@ == redirect_response(
                authorization_url(
                    config@.discord_client_id,
                    config@.discord_redirect_uri,
                    state,
                ),
            ),
{
    let state = fresh_state();
    authorization_redirect(config, state.as_str())
}

/// Where a callback stands while one of its calls is under way.
#[derive(Clone, Debug, PartialEq, Eq)]
pub enum Stage {
    /// The session is being verified; the code waits.
    Session { code: String },
    /// The code is being exchanged for the user whom the session belongs to.
    Token { user_id: String },
    /// The profile is being fetched.
    Profile { user_id: String },
    /// The link is being recorded.
    Link { linked: Linked },
}

pub enum StageView {
    Session { code: Seq<char> },
    Token { user_id: Seq<char> },
    Profile { user_id: Seq<char> },
    Link { linked: LinkedView },
}

impl View for Stage {
    type V = StageView;

    open spec fn view(&self) -> StageView {
        match self {
            Stage::Session { code } => StageView::Session { code: code@ },
            Stage::Token { user_id } => StageView::Token { user_id: user_id@ },
            Stage::Profile { user_id } => StageView::Profile { user_id: user_id@ },
            Stage::Link { linked } => StageView::Link { linked: linked@ },
        }
    }
}

/// What the handler has to do next.
#[derive(Clone, Debug, PartialEq, Eq)]
pub enum Step {
    /// Make the call and come back with its answer and with `then`.
    Call { request: Outbound, then: Stage },
    /// Answer the caller. `failure` holds the reason where the callback
    /// failed; it is for the log, not for the caller.
    Respond { response: Response, failure: Option<CallbackError> },
}

pub enum StepView {
    Call { request: OutboundView, then: StageView },
    Respond { response: ResponseView, failure: Option<CallbackError> },
}

impl View for Step {
    type V = StepView;

    open spec fn view(&self) -> StepView {
        match self {
            Step::Call { request, then } => StepView::Call { request: request@, then: then@ },
            Step::Respond { response, failure } => StepView::Respond {
                response: response@,
                failure: *failure,
            },
        }
    }
}

/// The step that ends a callback in failure.
pub open spec fn failed(error: CallbackError) -> StepView {
    StepView::Respond { response: failure_response(error), failure: Some(error) }
}

/// The first step of a callback. A request without a code is refused, then
/// one without a session cookie or with an empty one; otherwise the session
/// is verified.
pub open spec fn start(
    config: ConfigView,
    code: Option<Seq<char>>,
    session: Option<Seq<char>>,
) -> StepView {
    match code {
        None => failed(CallbackError::MissingCode),
        Some(code) => match session {
            None => failed(CallbackError::Session(SessionError::MissingSession)),
            Some(cookie) => if cookie.len() == 0 {
                failed(CallbackError::Session(SessionError::MissingSession))
            } else {
                StepView::Call {
                    request: session_request(config, cookie),
                    then: StageView::Session { code },
                }
            },
        },
    }
}

/// The step that follows the answer to the call of a stage.
pub open spec fn next(config: ConfigView, stage: StageView, reply: ReplyView) -> StepView {
    match stage {
        StageView::Session { code } => match session_of(reply) {
            Err(e) => failed(CallbackError::Session(e)),
            Ok(user_id) => StepView::Call {
                request: token_request(config, code),
                then: StageView::Token { user_id },
            },
        },
        StageView::Token { user_id } => match token_of(reply) {
            Err(e) => failed(CallbackError::Token(e)),
            Ok(token) => StepView::Call {
                request: profile_request(token),
                then: StageView::Profile { user_id },
            },
        },
        StageView::Profile { user_id } => match profile_of(reply) {
            Err(e) => failed(CallbackError::Profile(e)),
            Ok(user) => StepView::Call {
                request: link_request(config, user_id, user.id, user.tag()),
                then: StageView::Link {
                    linked: LinkedView {
                        user_id,
                        discord_id: user.id,
                        discord_username: user.tag(),
                    },
                },
            },
        },
        StageView::Link { linked } => match link_of(reply) {
            Err(e) => failed(CallbackError::Link(e)),
            Ok(_) => StepView::Respond { response: success_response(linked), failure: None },
        },
    }
}

/// The view of a text that may be absent.
pub open spec fn text_view(text: Option<&str>) -> Option<Seq<char>> {
    match text {
        Some(t) => Some(t@),
        None => None,
    }
}

fn fail(error: CallbackError) -> (step: Step)
    ensures
        step@ == failed(error),
{
    Step::Respond { response: respond_failure(error), failure: Some(error) }
}

/// Opens a callback: `code` is the query parameter of that name, `session`
/// the value of the cookie of that name, each `None` where it is absent.
pub fn discord_callback(config: &Config, code: Option<&str>, session: Option<&str>) -> (step: Step)
    ensures
        step@ == start(config@, text_view(code), text_view(session)),
{
    let code = match code {
        Some(code) => code,
        None => return fail(CallbackError::MissingCode),
    };
    let cookie = match session {
        Some(cookie) => cookie,
        None => return fail(CallbackError::Session(SessionError::MissingSession)),
    };
    match verify_session(config, cookie) {
        Ok(request) => Step::Call { request, then: Stage::Session { code: String::from_str(code) } },
        Err(e) => fail(CallbackError::Session(e)),
    }
}

/// Takes a callback one answer further: `reply` is what came back from the
/// call that `stage` was waiting for.
pub fn advance(config: &Config, stage: Stage, reply: Reply) -> (step: Step)
    ensures
        step@ == next(config@, stage@, reply@),
{
    match stage {
        Stage::Session { code } => match read_session(reply) {
            Ok(user_id) => Step::Call {
                request: exchange_code(config, code.as_str()),
                then: Stage::Token { user_id },
            },
            Err(e) => fail(CallbackError::Session(e)),
        },
        Stage::Token { user_id } => match read_token(reply) {
            Ok(token) => Step::Call {
                request: get_user_info(token.as_str()),
                then: Stage::Profile { user_id },
            },
            Err(e) => fail(CallbackError::Token(e)),
        },
        Stage::Profile { user_id } => match read_profile(reply) {
            Ok(user) => {
                let tag = user.tag();
                let request = link_discord(
                    config,
                    user_id.as_str(),
                    user.id.as_str(),
                    tag.as_str(),
                );
                let linked = Linked { user_id, discord_id: user.id, discord_username: tag };
                Step::Call { request, then: Stage::Link { linked } }
            },
            Err(e) => fail(CallbackError::Profile(e)),
        },
        Stage::Link { linked } => match read_link(reply) {
            Ok(_) => Step::Respond { response: respond_linked(&linked), failure: None },
            Err(e) => fail(CallbackError::Link(e)),
        },
    }
}

} // verus!
