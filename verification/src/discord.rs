//! The Discord side: the authorization URL, the token exchange and the
//! profile of the authorized user.

use vstd::prelude::*;
use vstd::string::*;
use crate::config::Config;
use crate::config::ConfigView;
use vstd::utf8::*;
use crate::encoding::encode;
use crate::encoding::encoding_is_query_safe;
use crate::encoding::encoding_is_reversible;
use crate::encoding::is_query_safe;
use crate::encoding::is_unreserved_text;
use crate::encoding::percent_decode;
use crate::encoding::percent_encode_text;
use crate::encoding::unreserved_text_is_kept;
use crate::http::is_success;
use crate::http::pairs_view;
use crate::http::status_is_success;
use crate::http::Body;
use crate::http::BodyView;
use crate::http::Method;
use crate::http::Outbound;
use crate::http::OutboundView;
use crate::http::Pair;
use crate::http::Payload;
use crate::http::PayloadView;
use crate::http::Reply;
use crate::http::ReplyView;
use crate::http::Shape;

verus! {

/// The profile that Discord returns for the authorized user.
#[derive(Clone, Debug, PartialEq, Eq)]
pub struct DiscordUser {
    pub id: String,
    pub username: String,
    pub discriminator: String,
}

pub struct DiscordUserView {
    pub id: Seq<char>,
    pub username: Seq<char>,
    pub discriminator: Seq<char>,
}

impl View for DiscordUser {
    type V = DiscordUserView;

    open spec fn view(&self) -> DiscordUserView {
        DiscordUserView {
            id: self.id@,
            username: self.username@,
            discriminator: self.discriminator@,
        }
    }
}

impl DiscordUserView {
    /// The display tag: user name, `#`, discriminator.
    pub open spec fn tag(self) -> Seq<char> {
        self.username + "#"@ + self.discriminator
    }
}

impl DiscordUser {
    /// The display tag: user name, `#`, discriminator.
    pub fn tag(&self) -> (tag: String)
        ensures
            tag@ == self@.tag(),
    {
        let mut tag = self.username.clone();
        tag.append("#");
        tag.append(self.discriminator.as_str());
        tag
    }
}

/// Why a call to Discord gave no result.
#[derive(Clone, Copy, Debug, PartialEq, Eq, Structural)]
pub enum ProviderError {
    /// The call could not be completed.
    RequestFailed,
    /// Discord answered with a status outside the success class.
    BadStatus(u16),
    /// Discord answered with success, but not with the expected body.
    ParseError,
}

/// The authorization endpoint of Discord.
pub open spec fn authorization_endpoint() -> Seq<char> {
    "https://discord.com/api/oauth2/authorize"@
}

/// The URL that the browser is sent to: the authorization endpoint with the
/// client id as it is, the redirect URI and the state percent-encoded, and
/// the scope `identify`.
pub open spec fn authorization_url(
    client_id: Seq<char>,
    redirect_uri: Seq<char>,
    state: Seq<char>,
) -> Seq<char> {
    authorization_endpoint() + "?client_id="@ + client_id + "&redirect_uri="@
        + percent_encode_text(redirect_uri) + "&response_type=code&scope=identify&state="@
        + percent_encode_text(state)
}

/// Whether a text begins with another.
pub open spec fn starts_with(text: Seq<char>, head: Seq<char>) -> bool {
    head.len() <= text.len() && text.subrange(0, head.len() as int) == head
}

/// Whether a text ends with another.
pub open spec fn ends_with(text: Seq<char>, tail: Seq<char>) -> bool {
    tail.len() <= text.len() && text.subrange(text.len() - tail.len(), text.len() as int) == tail
}

/// Every authorization URL points at the authorization endpoint and carries
/// the redirect URI in an encoding that is safe inside a query and decodes
/// to the URI's own bytes. A state of unreserved characters stands at the
/// end of the URL as it is.
pub proof fn authorization_url_is_well_formed(
    client_id: Seq<char>,
    redirect_uri: Seq<char>,
    state: Seq<char>,
)
    ensures
        starts_with(
            authorization_url(client_id, redirect_uri, state),
            authorization_endpoint() + "?client_id="@ + client_id + "&redirect_uri="@
                + percent_encode_text(redirect_uri),
        ),
        starts_with(authorization_url(client_id, redirect_uri, state), authorization_endpoint()),
        forall|i: int|
            0 <= i < percent_encode_text(redirect_uri).len() ==> is_query_safe(
                #[trigger] percent_encode_text(redirect_uri)[i],
            ),
        percent_decode(percent_encode_text(redirect_uri)) == encode_utf8(redirect_uri),
        is_unreserved_text(state) ==> ends_with(
            authorization_url(client_id, redirect_uri, state),
            "&state="@ + state,
        ),
{
    let url = authorization_url(client_id, redirect_uri, state);
    let head = authorization_endpoint() + "?client_id="@ + client_id + "&redirect_uri="@
        + percent_encode_text(redirect_uri);
    assert(url.subrange(0, head.len() as int) =~= head);
    assert(url.subrange(0, authorization_endpoint().len() as int) =~= authorization_endpoint());
    encoding_is_query_safe(encode_utf8(redirect_uri));
    encoding_is_reversible(encode_utf8(redirect_uri));
    if is_unreserved_text(state) {
        unreserved_text_is_kept(state);
        reveal_strlit("&response_type=code&scope=identify&state=");
        reveal_strlit("&state=");
        let middle = "&response_type=code&scope=identify&state="@;
        let tail = "&state="@ + state;
        assert(middle.subrange(34, 41) =~= "&state="@);
        assert(url.subrange(url.len() - tail.len(), url.len() as int) =~= tail);
    }
}

/// Builds the authorization URL for one redirect.
pub fn build_oauth_url(config: &Config, state: &str) -> (url: String)
    ensures
        url@ == authorization_url(
            config@.discord_client_id,
            config@.discord_redirect_uri,
            state@,
        ),
{
    let redirect_uri = encode(config.discord_redirect_uri.as_str());
    let state = encode(state);
    let mut url = String::from_str("https://discord.com/api/oauth2/authorize");
    url.append("?client_id=");
    url.append(config.discord_client_id.as_str());
    url.append("&redirect_uri=");
    url.append(redirect_uri.as_str());
    url.append("&response_type=code&scope=identify&state=");
    url.append(state.as_str());
    url
}

/// The call that exchanges an authorization code for an access token: a
/// form posted to the token endpoint.
pub open spec fn token_request(config: ConfigView, code: Seq<char>) -> OutboundView {
    OutboundView {
        method: Method::Post,
        url: "https://discord.com/api/oauth2/token"@,
        headers: Seq::empty(),
        payload: PayloadView::Form(
            seq![
                ("client_id"@, config.discord_client_id),
                ("client_secret"@, config.discord_client_secret),
                ("grant_type"@, "authorization_code"@),
                ("code"@, code),
                ("redirect_uri"@, config.discord_redirect_uri),
            ],
        ),
        expects: Shape::Token,
    }
}

/// Describes the call that exchanges an authorization code for an access
/// token.
pub fn exchange_code(config: &Config, code: &str) -> (request: Outbound)
    ensures
        request@ == token_request(config@, code@),
{
    let mut fields: Vec<Pair> = Vec::new();
    fields.push(Pair::new("client_id", config.discord_client_id.as_str()));
    fields.push(Pair::new("client_secret", config.discord_client_secret.as_str()));
    fields.push(Pair::new("grant_type", "authorization_code"));
    fields.push(Pair::new("code", code));
    fields.push(Pair::new("redirect_uri", config.discord_redirect_uri.as_str()));
    let headers: Vec<Pair> = Vec::new();
    let request = Outbound {
        method: Method::Post,
        url: String::from_str("https://discord.com/api/oauth2/token"),
        headers,
        payload: Payload::Form(fields),
        expects: Shape::Token,
    };
    proof {
        assert(pairs_view(headers@) =~= Seq::empty());
        assert(pairs_view(fields@) =~= token_request(config@, code@).payload->Form_0);
        assert(request@.payload == token_request(config@, code@).payload);
    }
    request
}

/// What the answer to a token exchange amounts to.
pub open spec fn token_of(reply: ReplyView) -> Result<Seq<char>, ProviderError> {
    match reply {
        ReplyView::Unreachable => Err(ProviderError::RequestFailed),
        ReplyView::Answered { status, body } => if !is_success(status) {
            Err(ProviderError::BadStatus(status))
        } else {
            match body {
                Some(BodyView::Token { access_token }) => Ok(access_token),
                _ => Err(ProviderError::ParseError),
            }
        },
    }
}

/// Reads the access token out of the answer to a token exchange.
pub fn read_token(reply: Reply) -> (r: Result<String, ProviderError>)
    ensures
        match r {
            Ok(token) => token_of(reply@) == Ok::<Seq<char>, ProviderError>(token@),
            Err(e) => token_of(reply@) == Err::<Seq<char>, ProviderError>(e),
        },
{
    match reply {
        Reply::Unreachable => Err(ProviderError::RequestFailed),
        Reply::Answered { status, body } => {
            if !status_is_success(status) {
                Err(ProviderError::BadStatus(status))
            } else {
                match body {
                    Some(Body::Token { access_token }) => Ok(access_token),
                    _ => Err(ProviderError::ParseError),
                }
            }
        },
    }
}

/// The call that fetches the profile of the user a token belongs to.
pub open spec fn profile_request(token: Seq<char>) -> OutboundView {
    OutboundView {
        method: Method::Get,
        url: "https://discord.com/api/users/@me"@,
        headers: seq![("Authorization"@, "Bearer "@ + token)],
        payload: PayloadView::Empty,
        expects: Shape::Profile,
    }
}

/// Describes the call that fetches the profile of the user a token belongs
/// to.
pub fn get_user_info(token: &str) -> (request: Outbound)
    ensures
        request@ == profile_request(token@),
{
    let mut bearer = String::from_str("Bearer ");
    bearer.append(token);
    let mut headers: Vec<Pair> = Vec::new();
    headers.push(Pair::new("Authorization", bearer.as_str()));
    let request = Outbound {
        method: Method::Get,
        url: String::from_str("https://discord.com/api/users/@me"),
        headers,
        payload: Payload::Empty,
        expects: Shape::Profile,
    };
    proof {
        assert(pairs_view(headers@) =~= profile_request(token@).headers);
    }
    request
}

/// What the answer to a profile fetch amounts to.
pub open spec fn profile_of(reply: ReplyView) -> Result<DiscordUserView, ProviderError> {
    match reply {
        ReplyView::Unreachable => Err(ProviderError::RequestFailed),
        ReplyView::Answered { status, body } => if !is_success(status) {
            Err(ProviderError::BadStatus(status))
        } else {
            match body {
                Some(BodyView::Profile(user)) => Ok(user),
                _ => Err(ProviderError::ParseError),
            }
        },
    }
}

/// Reads the profile out of the answer to a profile fetch.
pub fn read_profile(reply: Reply) -> (r: Result<DiscordUser, ProviderError>)
    ensures
        match r {
            Ok(user) => profile_of(reply@) == Ok::<DiscordUserView, ProviderError>(user@),
            Err(e) => profile_of(reply@) == Err::<DiscordUserView, ProviderError>(e),
        },
{
    match reply {
        Reply::Unreachable => Err(ProviderError::RequestFailed),
        Reply::Answered { status, body } => {
            if !status_is_success(status) {
                Err(ProviderError::BadStatus(status))
            } else {
                match body {
                    Some(Body::Profile(user)) => Ok(user),
                    _ => Err(ProviderError::ParseError),
                }
            }
        },
    }
}

} // verus!
