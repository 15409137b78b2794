use discord_link::config::Config;
use discord_link::http::Body;
use discord_link::http::Method;
use discord_link::http::Pair;
use discord_link::http::Payload;
use discord_link::http::Reply;
use discord_link::http::Shape;
use discord_link::session::link_discord;
use discord_link::session::read_link;
use discord_link::session::read_session;
use discord_link::session::verify_session;
use discord_link::session::SessionError;

fn config() -> Config {
    Config {
        discord_client_id: "123".to_string(),
        discord_client_secret: "client-secret-value".to_string(),
        discord_redirect_uri: "http://localhost:8080/discord/callback".to_string(),
        main_api_url: "http://api.internal".to_string(),
        log_level: "info".to_string(),
    }
}

fn session_body(user_id: &str) -> Option<Body> {
    Some(Body::Session { user_id: user_id.to_string() })
}

#[test]
fn verify_session_refuses_an_empty_cookie() {
    assert_eq!(verify_session(&config(), ""), Err(SessionError::MissingSession));
}

#[test]
fn verify_session_forwards_the_cookie() {
    let request = verify_session(&config(), "abc").unwrap();
    assert_eq!(request.method, Method::Get);
    assert_eq!(request.url, "http://api.internal/internal/auth/session");
    assert_eq!(request.headers, vec![Pair::new("Cookie", "session=abc")]);
    assert_eq!(request.payload, Payload::Empty);
    assert_eq!(request.expects, Shape::Session);
}

#[test]
fn verify_session_takes_a_blank_cookie_as_given() {
    let request = verify_session(&config(), " ").unwrap();
    assert_eq!(request.headers, vec![Pair::new("Cookie", "session= ")]);
}

#[test]
fn read_session_takes_the_user_id() {
    let reply = Reply::Answered { status: 200, body: session_body("u1") };
    assert_eq!(read_session(reply), Ok("u1".to_string()));
}

#[test]
fn read_session_reports_each_failure() {
    assert_eq!(read_session(Reply::Unreachable), Err(SessionError::VerificationFailed));
    assert_eq!(
        read_session(Reply::Answered { status: 401, body: session_body("u1") }),
        Err(SessionError::BadStatus(401))
    );
    assert_eq!(
        read_session(Reply::Answered { status: 302, body: None }),
        Err(SessionError::BadStatus(302))
    );
    assert_eq!(
        read_session(Reply::Answered { status: 200, body: None }),
        Err(SessionError::ParseError)
    );
    assert_eq!(
        read_session(Reply::Answered {
            status: 200,
            body: Some(Body::Token { access_token: "t1".to_string() }),
        }),
        Err(SessionError::ParseError)
    );
}

#[test]
fn link_discord_posts_the_account_to_the_path_of_the_user() {
    let request = link_discord(&config(), "u1", "d1", "alice#0001");
    assert_eq!(request.method, Method::Post);
    assert_eq!(request.url, "http://api.internal/internal/user/discord-link/u1");
    assert!(request.headers.is_empty());
    assert_eq!(
        request.payload,
        Payload::Json("{\"discord_id\":\"d1\",\"discord_username\":\"alice#0001\"}".to_string())
    );
    assert_eq!(request.expects, Shape::Nothing);
}

#[test]
fn link_discord_escapes_the_display_tag() {
    let request = link_discord(&config(), "u1", "d1", "al\"ice\\\n#0001");
    assert_eq!(
        request.payload,
        Payload::Json(
            "{\"discord_id\":\"d1\",\"discord_username\":\"al\\\"ice\\\\\\n#0001\"}".to_string()
        )
    );
}

#[test]
fn read_link_asks_for_success_only() {
    assert_eq!(read_link(Reply::Answered { status: 200, body: None }), Ok(()));
    assert_eq!(read_link(Reply::Answered { status: 204, body: None }), Ok(()));
    assert_eq!(read_link(Reply::Answered { status: 201, body: session_body("u1") }), Ok(()));
}

#[test]
fn read_link_reports_each_failure() {
    assert_eq!(read_link(Reply::Unreachable), Err(SessionError::VerificationFailed));
    assert_eq!(
        read_link(Reply::Answered { status: 500, body: None }),
        Err(SessionError::BadStatus(500))
    );
    assert_eq!(
        read_link(Reply::Answered { status: 404, body: None }),
        Err(SessionError::BadStatus(404))
    );
}
