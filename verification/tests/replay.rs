use discord_link::config::Config;
use discord_link::discord::DiscordUser;
use discord_link::discord::ProviderError;
use discord_link::http::Body;
use discord_link::http::Content;
use discord_link::http::Method;
use discord_link::http::Outbound;
use discord_link::http::Pair;
use discord_link::http::Payload;
use discord_link::http::Reply;
use discord_link::http::Response;
use discord_link::http::Shape;
use discord_link::replay::replay;
use discord_link::replay::Transcript;
use discord_link::routes::CallbackError;
use discord_link::session::SessionError;

fn config() -> Config {
    Config {
        discord_client_id: "123".to_string(),
        discord_client_secret: "client-secret-value".to_string(),
        discord_redirect_uri: "http://localhost:8080/discord/callback".to_string(),
        main_api_url: "http://api.internal".to_string(),
        log_level: "info".to_string(),
    }
}

fn session_ok() -> Reply {
    Reply::Answered { status: 200, body: Some(Body::Session { user_id: "u1".to_string() }) }
}

fn token_ok() -> Reply {
    Reply::Answered { status: 200, body: Some(Body::Token { access_token: "t1".to_string() }) }
}

fn profile_ok() -> Reply {
    Reply::Answered {
        status: 200,
        body: Some(Body::Profile(DiscordUser {
            id: "d1".to_string(),
            username: "alice".to_string(),
            discriminator: "0001".to_string(),
        })),
    }
}

fn link_ok() -> Reply {
    Reply::Answered { status: 200, body: None }
}

fn session_call() -> Outbound {
    Outbound {
        method: Method::Get,
        url: "http://api.internal/internal/auth/session".to_string(),
        headers: vec![Pair::new("Cookie", "session=abc")],
        payload: Payload::Empty,
        expects: Shape::Session,
    }
}

fn token_call() -> Outbound {
    Outbound {
        method: Method::Post,
        url: "https://discord.com/api/oauth2/token".to_string(),
        headers: vec![],
        payload: Payload::Form(vec![
            Pair::new("client_id", "123"),
            Pair::new("client_secret", "client-secret-value"),
            Pair::new("grant_type", "authorization_code"),
            Pair::new("code", "c0de"),
            Pair::new("redirect_uri", "http://localhost:8080/discord/callback"),
        ]),
        expects: Shape::Token,
    }
}

fn profile_call() -> Outbound {
    Outbound {
        method: Method::Get,
        url: "https://discord.com/api/users/@me".to_string(),
        headers: vec![Pair::new("Authorization", "Bearer t1")],
        payload: Payload::Empty,
        expects: Shape::Profile,
    }
}

fn link_call() -> Outbound {
    Outbound {
        method: Method::Post,
        url: "http://api.internal/internal/user/discord-link/u1".to_string(),
        headers: vec![],
        payload: Payload::Json(
            "{\"discord_id\":\"d1\",\"discord_username\":\"alice#0001\"}".to_string(),
        ),
        expects: Shape::Nothing,
    }
}

fn text(status: u16, body: &str) -> Option<Response> {
    Some(Response { status, location: None, content: Content::Text(body.to_string()) })
}

fn all_ok() -> Vec<Reply> {
    vec![session_ok(), token_ok(), profile_ok(), link_ok()]
}

#[test]
fn empty_cookie_makes_no_call() {
    let transcript = replay(&config(), Some("c0de"), Some(""), all_ok());
    assert_eq!(transcript.calls.len(), 0);
    assert_eq!(transcript.response, text(401, "Invalid session"));
    assert_eq!(
        transcript.failure,
        Some(CallbackError::Session(SessionError::MissingSession))
    );
}

#[test]
fn absent_cookie_makes_no_call() {
    let transcript = replay(&config(), Some("c0de"), None, all_ok());
    assert_eq!(transcript.calls.len(), 0);
    assert_eq!(transcript.response, text(401, "Invalid session"));
}

#[test]
fn absent_code_makes_no_call() {
    let transcript = replay(&config(), None, Some("abc"), all_ok());
    assert_eq!(transcript.calls.len(), 0);
    assert_eq!(transcript.response, text(400, "Missing code"));
    assert_eq!(transcript.failure, Some(CallbackError::MissingCode));
}

#[test]
fn absent_code_comes_before_absent_cookie() {
    let transcript = replay(&config(), None, None, all_ok());
    assert_eq!(transcript.calls.len(), 0);
    assert_eq!(transcript.response, text(400, "Missing code"));
}

#[test]
fn failed_session_stops_before_the_token_exchange() {
    let replies = vec![Reply::Unreachable, token_ok(), profile_ok(), link_ok()];
    let transcript = replay(&config(), Some("c0de"), Some("abc"), replies);
    assert_eq!(transcript.calls, vec![session_call()]);
    assert_eq!(transcript.response, text(401, "Invalid session"));
    assert_eq!(
        transcript.failure,
        Some(CallbackError::Session(SessionError::VerificationFailed))
    );
}

#[test]
fn failed_exchange_stops_before_the_profile_fetch() {
    let replies = vec![
        session_ok(),
        Reply::Answered { status: 400, body: None },
        profile_ok(),
        link_ok(),
    ];
    let transcript = replay(&config(), Some("c0de"), Some("abc"), replies);
    assert_eq!(transcript.calls, vec![session_call(), token_call()]);
    assert_eq!(transcript.response, text(502, "Failed to get Discord token"));
    assert_eq!(transcript.failure, Some(CallbackError::Token(ProviderError::BadStatus(400))));
}

#[test]
fn failed_profile_stops_before_the_link() {
    let replies = vec![
        session_ok(),
        token_ok(),
        Reply::Answered { status: 200, body: None },
        link_ok(),
    ];
    let transcript = replay(&config(), Some("c0de"), Some("abc"), replies);
    assert_eq!(transcript.calls, vec![session_call(), token_call(), profile_call()]);
    assert_eq!(transcript.response, text(502, "Failed to fetch Discord user"));
    assert_eq!(transcript.failure, Some(CallbackError::Profile(ProviderError::ParseError)));
}

#[test]
fn failed_link_is_reported_after_all_calls() {
    let replies = vec![
        session_ok(),
        token_ok(),
        profile_ok(),
        Reply::Answered { status: 500, body: None },
    ];
    let transcript = replay(&config(), Some("c0de"), Some("abc"), replies);
    assert_eq!(
        transcript.calls,
        vec![session_call(), token_call(), profile_call(), link_call()]
    );
    assert_eq!(transcript.response, text(500, "Failed to link Discord account"));
    assert_eq!(transcript.failure, Some(CallbackError::Link(SessionError::BadStatus(500))));
}

#[test]
fn whole_callback_links_the_account() {
    let transcript = replay(&config(), Some("c0de"), Some("abc"), all_ok());
    assert_eq!(
        transcript,
        Transcript {
            calls: vec![session_call(), token_call(), profile_call(), link_call()],
            response: Some(Response {
                status: 200,
                location: None,
                content: Content::Json(
                    "{\"user_id\":\"u1\",\"discord_id\":\"d1\",\"discord_username\":\"alice#0001\"}"
                        .to_string()
                ),
            }),
            failure: None,
        }
    );
}

#[test]
fn whole_callback_answers_with_the_three_members() {
    let transcript = replay(&config(), Some("c0de"), Some("abc"), all_ok());
    let response = transcript.response.unwrap();
    let body = match response.content {
        Content::Json(body) => body,
        other => panic!("not a JSON body: {:?}", other),
    };
    let value: serde_json::Value = serde_json::from_str(&body).unwrap();
    let object = value.as_object().unwrap();
    assert_eq!(object.len(), 3);
    assert_eq!(object.get("user_id").unwrap().as_str(), Some("u1"));
    assert_eq!(object.get("discord_id").unwrap().as_str(), Some("d1"));
    assert_eq!(object.get("discord_username").unwrap().as_str(), Some("alice#0001"));
}

#[test]
fn same_code_twice_links_twice() {
    let first = replay(&config(), Some("c0de"), Some("abc"), all_ok());
    let second = replay(&config(), Some("c0de"), Some("abc"), all_ok());
    assert_eq!(first, second);
    assert_eq!(first.calls.last(), Some(&link_call()));
    assert_eq!(second.calls.last(), Some(&link_call()));
}

#[test]
fn answers_that_run_out_leave_the_callback_open() {
    let transcript = replay(&config(), Some("c0de"), Some("abc"), vec![session_ok()]);
    assert_eq!(transcript.calls, vec![session_call(), token_call()]);
    assert_eq!(transcript.response, None);
    assert_eq!(transcript.failure, None);
    let nothing = replay(&config(), Some("c0de"), Some("abc"), vec![]);
    assert_eq!(nothing.calls, vec![session_call()]);
    assert_eq!(nothing.response, None);
}

#[test]
fn answers_left_over_are_not_looked_at() {
    let mut replies = all_ok();
    replies.push(Reply::Unreachable);
    replies.push(Reply::Unreachable);
    let transcript = replay(&config(), Some("c0de"), Some("abc"), replies);
    assert_eq!(transcript.calls.len(), 4);
    assert_eq!(transcript.response.unwrap().status, 200);
}
