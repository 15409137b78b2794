//! Plain descriptions of HTTP traffic.
//!
//! The library never touches the network. An [`Outbound`] says which call
//! has to be made, a [`Reply`] says what came back, and a [`Response`] is
//! what the service answers to its own caller.

use vstd::prelude::*;
use vstd::string::*;
use crate::discord::DiscordUser;
use crate::discord::DiscordUserView;

verus! {

/// The request method of an outbound call.
#[derive(Clone, Copy, Debug, PartialEq, Eq, Structural)]
pub enum Method {
    Get,
    Post,
}

/// The body that an outbound call is expected to answer with.
#[derive(Clone, Copy, Debug, PartialEq, Eq, Structural)]
pub enum Shape {
    /// `{"user_id": ..}`
    Session,
    /// `{"access_token": ..}`
    Token,
    /// `{"id": .., "username": .., "discriminator": ..}`
    Profile,
    /// Only the status counts.
    Nothing,
}

/// A name and a value: a header, or a field of a form.
#[derive(Clone, Debug, PartialEq, Eq)]
pub struct Pair {
    pub name: String,
    pub value: String,
}

impl View for Pair {
    type V = (Seq<char>, Seq<char>);

    open spec fn view(&self) -> (Seq<char>, Seq<char>) {
        (self.name@, self.value@)
    }
}

impl Pair {
    /// A pair of owned copies of a name and a value.
    pub fn new(name: &str, value: &str) -> (pair: Pair)
        ensures
            pair@ == (name@, value@),
    {
        Pair { name: String::from_str(name), value: String::from_str(value) }
    }
}

/// The views of a list of pairs, in order.
pub open spec fn pairs_view(pairs: Seq<Pair>) -> Seq<(Seq<char>, Seq<char>)> {
    pairs.map_values(|p: Pair| p@)
}

/// What an outbound call carries.
#[derive(Clone, Debug, PartialEq, Eq)]
pub enum Payload {
    Empty,
    /// Fields to be sent form-encoded.
    Form(Vec<Pair>),
    /// A JSON document, already rendered.
    Json(String),
}

pub enum PayloadView {
    Empty,
    Form(Seq<(Seq<char>, Seq<char>)>),
    Json(Seq<char>),
}

impl View for Payload {
    type V = PayloadView;

    open spec fn view(&self) -> PayloadView {
        match self {
            Payload::Empty => PayloadView::Empty,
            Payload::Form(fields) => PayloadView::Form(pairs_view(fields@)),
            Payload::Json(text) => PayloadView::Json(text@),
        }
    }
}

/// One call to a collaborator, to be performed by the caller of the library.
#[derive(Clone, Debug, PartialEq, Eq)]
pub struct Outbound {
    pub method: Method,
    pub url: String,
    pub headers: Vec<Pair>,
    pub payload: Payload,
    pub expects: Shape,
}

pub struct OutboundView {
    pub method: Method,
    pub url: Seq<char>,
    pub headers: Seq<(Seq<char>, Seq<char>)>,
    pub payload: PayloadView,
    pub expects: Shape,
}

impl View for Outbound {
    type V = OutboundView;

    open spec fn view(&self) -> OutboundView {
        OutboundView {
            method: self.method,
            url: self.url@,
            headers: pairs_view(self.headers@),
            payload: self.payload@,
            expects: self.expects,
        }
    }
}

/// A decoded answer body.
#[derive(Clone, Debug, PartialEq, Eq)]
pub enum Body {
    Session { user_id: String },
    Token { access_token: String },
    Profile(DiscordUser),
}

pub enum BodyView {
    Session { user_id: Seq<char> },
    Token { access_token: Seq<char> },
    Profile(DiscordUserView),
}

impl View for Body {
    type V = BodyView;

    open spec fn view(&self) -> BodyView {
        match self {
            Body::Session { user_id } => BodyView::Session { user_id: user_id@ },
            Body::Token { access_token } => BodyView::Token { access_token: access_token@ },
            Body::Profile(user) => BodyView::Profile(user@),
        }
    }
}

/// What came back from an outbound call.
#[derive(Clone, Debug, PartialEq, Eq)]
pub enum Reply {
    /// The call could not be completed.
    Unreachable,
    /// The collaborator answered. `body` is `None` where the answer's body
    /// could not be decoded, or was not looked at.
    Answered { status: u16, body: Option<Body> },
}

pub enum ReplyView {
    Unreachable,
    Answered { status: u16, body: Option<BodyView> },
}

impl View for Reply {
    type V = ReplyView;

    open spec fn view(&self) -> ReplyView {
        match self {
            Reply::Unreachable => ReplyView::Unreachable,
            Reply::Answered { status, body } => ReplyView::Answered {
                status: *status,
                body: match body {
                    Some(b) => Some(b@),
                    None => None,
                },
            },
        }
    }
}

/// A status in the success class, 200 to 299.
pub open spec fn is_success(status: u16) -> bool {
    200 <= status < 300
}

/// Tells whether a status is in the success class.
pub fn status_is_success(status: u16) -> (r: bool)
    ensures
        r == is_success(status),
{
    200 <= status && status < 300
}

/// The body of a response.
#[derive(Clone, Debug, PartialEq, Eq)]
pub enum Content {
    Empty,
    Text(String),
    Json(String),
}

pub enum ContentView {
    Empty,
    Text(Seq<char>),
    Json(Seq<char>),
}

impl View for Content {
    type V = ContentView;

    open spec fn view(&self) -> ContentView {
        match self {
            Content::Empty => ContentView::Empty,
            Content::Text(text) => ContentView::Text(text@),
            Content::Json(text) => ContentView::Json(text@),
        }
    }
}

/// The answer of the service to its own caller.
#[derive(Clone, Debug, PartialEq, Eq)]
pub struct Response {
    pub status: u16,
    /// The `Location` header, where there is one.
    pub location: Option<String>,
    pub content: Content,
}

pub struct ResponseView {
    pub status: u16,
    pub location: Option<Seq<char>>,
    pub content: ContentView,
}

impl View for Response {
    type V = ResponseView;

    open spec fn view(&self) -> ResponseView {
        ResponseView {
            status: self.status,
            location: match self.location {
                Some(url) => Some(url@),
                None => None,
            },
            content: self.content@,
        }
    }
}

} // verus!
