//! Whole callbacks, played against a list of answers.
//!
//! [`replay`] drives a callback from its first step to its response, taking
//! the answer to each call from a list instead of the network. [`run`] is
//! its meaning, and the lemmas below say what every run looks like.

use vstd::prelude::*;
use crate::config::Config;
use crate::config::ConfigView;
use crate::discord::profile_of;
use crate::discord::profile_request;
use crate::discord::token_of;
use crate::discord::token_request;
use crate::http::Outbound;
use crate::http::OutboundView;
use crate::http::Reply;
use crate::http::ReplyView;
use crate::http::Response;
use crate::http::ResponseView;
use crate::routes::advance;
use crate::routes::discord_callback;
use crate::routes::failure_response;
use crate::routes::next;
use crate::routes::start;
use crate::routes::success_response;
use crate::routes::text_view;
use crate::routes::CallbackError;
use crate::routes::LinkedView;
use crate::routes::Step;
use crate::routes::StepView;
use crate::session::link_of;
use crate::session::link_request;
use crate::session::session_of;
use crate::session::session_request;
use crate::session::SessionError;

verus! {

/// What happened in one callback: the calls that were made, in order, and
/// the response. `response` is `None` where the answers ran out before the
/// callback ended.
#[derive(Clone, Debug, PartialEq, Eq)]
pub struct Transcript {
    pub calls: Vec<Outbound>,
    pub response: Option<Response>,
    pub failure: Option<CallbackError>,
}

pub struct TranscriptView {
    pub calls: Seq<OutboundView>,
    pub response: Option<ResponseView>,
    pub failure: Option<CallbackError>,
}

/// The views of a list of calls, in order.
pub open spec fn calls_view(calls: Seq<Outbound>) -> Seq<OutboundView> {
    calls.map_values(|c: Outbound| c@)
}

/// The views of a list of answers, in order.
pub open spec fn replies_view(replies: Seq<Reply>) -> Seq<ReplyView> {
    replies.map_values(|r: Reply| r@)
}

impl View for Transcript {
    type V = TranscriptView;

    open spec fn view(&self) -> TranscriptView {
        TranscriptView {
            calls: calls_view(self.calls@),
            response: match self.response {
                Some(response) => Some(response@),
                None => None,
            },
            failure: self.failure,
        }
    }
}

impl TranscriptView {
    /// The transcript with some earlier calls put in front.
    pub open spec fn after(self, earlier: Seq<OutboundView>) -> TranscriptView {
        TranscriptView {
            calls: earlier + self.calls,
            response: self.response,
            failure: self.failure,
        }
    }
}

/// The rest of a callback from a given step on: each call is answered by the
/// next of `replies`, until a step responds or the answers run out. Answers
/// that are left over are not looked at.
pub open spec fn play(config: ConfigView, step: StepView, replies: Seq<ReplyView>) -> TranscriptView
    decreases replies.len(),
{
    match step {
        StepView::Respond { response, failure } => TranscriptView {
            calls: Seq::empty(),
            response: Some(response),
            failure,
        },
        StepView::Call { request, then } => if replies.len() == 0 {
            TranscriptView { calls: seq![request], response: None, failure: None }
        } else {
            play(config, next(config, then, replies.first()), replies.drop_first()).after(
                seq![request],
            )
        },
    }
}

/// A whole callback, from the request on.
pub open spec fn run(
    config: ConfigView,
    code: Option<Seq<char>>,
    session: Option<Seq<char>>,
    replies: Seq<ReplyView>,
) -> TranscriptView {
    play(config, start(config, code, session), replies)
}

/// Plays a whole callback: the request is opened, and each call it asks for
/// is answered by the next of `replies`.
pub fn replay(
    config: &Config,
    code: Option<&str>,
    session: Option<&str>,
    replies: Vec<Reply>,
) -> (transcript: Transcript)
    ensures
        transcript@ == run(
            config@,
            text_view(code),
            text_view(session),
            replies_view(replies@),
        ),
{
    let ghost whole = run(config@, text_view(code), text_view(session), replies_view(replies@));
    let mut pending = replies;
    let mut calls: Vec<Outbound> = Vec::new();
    let mut step = discord_callback(config, code, session);
    proof {
        assert(calls_view(calls@) =~= Seq::empty());
        assert(play(config@, step@, replies_view(pending@)).after(calls_view(calls@)).calls
            =~= whole.calls);
    }
    loop
        invariant
            whole == run(config@, text_view(code), text_view(session), replies_view(replies@)),
            play(config@, step@, replies_view(pending@)).after(calls_view(calls@)) == whole,
        decreases pending.len(),
    {
        let ghost rest = replies_view(pending@);
        let ghost made = calls_view(calls@);
        match step {
            Step::Respond { response, failure } => {
                let transcript = Transcript { calls, response: Some(response), failure };
                proof {
                    assert(transcript@.calls =~= whole.calls);
                }
                return transcript;
            },
            Step::Call { request, then } => {
                calls.push(request);
                proof {
                    assert(calls_view(calls@) =~= made + seq![request@]);
                }
                if pending.len() == 0 {
                    let transcript = Transcript { calls, response: None, failure: None };
                    proof {
                        assert(transcript@.calls =~= whole.calls);
                    }
                    return transcript;
                }
                let reply = pending.remove(0);
                proof {
                    assert(rest.first() == reply@);
                    assert(replies_view(pending@) =~= rest.drop_first());
                }
                step = advance(config, then, reply);
                proof {
                    let tail = play(config@, step@, replies_view(pending@));
                    assert(tail.after(calls_view(calls@)).calls =~= tail.after(
                        seq![request@],
                    ).after(made).calls);
                }
            },
        }
    }
}

/// A request without a code is answered with 400 and no call is made,
/// whatever the session cookie is.
pub proof fn run_without_code(
    config: ConfigView,
    session: Option<Seq<char>>,
    replies: Seq<ReplyView>,
)
    ensures
        run(config, None, session, replies).calls.len() == 0,
        run(config, None, session, replies).response == Some(
            failure_response(CallbackError::MissingCode),
        ),
        run(config, None, session, replies).response->0.status == 400,
        run(config, None, session, replies).failure == Some(CallbackError::MissingCode),
{
}

/// A request with a code but without a session cookie, or with an empty
/// one, is answered with 401 and no call is made.
pub proof fn run_without_session(
    config: ConfigView,
    code: Seq<char>,
    session: Option<Seq<char>>,
    replies: Seq<ReplyView>,
)
    requires
        session is None || session->0.len() == 0,
    ensures
        run(config, Some(code), session, replies).calls.len() == 0,
        run(config, Some(code), session, replies).response == Some(
            failure_response(CallbackError::Session(SessionError::MissingSession)),
        ),
        run(config, Some(code), session, replies).response->0.status == 401,
        run(config, Some(code), session, replies).failure == Some(
            CallbackError::Session(SessionError::MissingSession),
        ),
{
}

/// Where the session is not verified, the callback is answered with 401
/// and the session call is the only one made.
pub proof fn run_session_refused(
    config: ConfigView,
    code: Seq<char>,
    cookie: Seq<char>,
    replies: Seq<ReplyView>,
)
    requires
        cookie.len() > 0,
        replies.len() >= 1,
        session_of(replies[0]) is Err,
    ensures
        run(config, Some(code), Some(cookie), replies).calls == seq![
            session_request(config, cookie),
        ],
        run(config, Some(code), Some(cookie), replies).response == Some(
            failure_response(CallbackError::Session(session_of(replies[0])->Err_0)),
        ),
        run(config, Some(code), Some(cookie), replies).response->0.status == 401,
        run(config, Some(code), Some(cookie), replies).failure == Some(
            CallbackError::Session(session_of(replies[0])->Err_0),
        ),
{
    reveal_with_fuel(play, 2);
    let t = run(config, Some(code), Some(cookie), replies);
    assert(t.calls =~= seq![session_request(config, cookie)]);
}

/// Where the session is verified and the code is not exchanged, the
/// callback is answered with 502 and no call follows the token call.
pub proof fn run_token_refused(
    config: ConfigView,
    code: Seq<char>,
    cookie: Seq<char>,
    replies: Seq<ReplyView>,
)
    requires
        cookie.len() > 0,
        replies.len() >= 2,
        session_of(replies[0]) is Ok,
        token_of(replies[1]) is Err,
    ensures
        run(config, Some(code), Some(cookie), replies).calls == seq![
            session_request(config, cookie),
            token_request(config, code),
        ],
        run(config, Some(code), Some(cookie), replies).response == Some(
            failure_response(CallbackError::Token(token_of(replies[1])->Err_0)),
        ),
        run(config, Some(code), Some(cookie), replies).response->0.status == 502,
        run(config, Some(code), Some(cookie), replies).failure == Some(
            CallbackError::Token(token_of(replies[1])->Err_0),
        ),
{
    reveal_with_fuel(play, 3);
    let t = run(config, Some(code), Some(cookie), replies);
    assert(replies.drop_first().first() == replies[1]);
    assert(t.calls =~= seq![session_request(config, cookie), token_request(config, code)]);
}

/// Where the code is exchanged and the profile is not fetched, the callback
/// is answered with 502 and no call follows the profile call.
pub proof fn run_profile_refused(
    config: ConfigView,
    code: Seq<char>,
    cookie: Seq<char>,
    replies: Seq<ReplyView>,
)
    requires
        cookie.len() > 0,
        replies.len() >= 3,
        session_of(replies[0]) is Ok,
        token_of(replies[1]) is Ok,
        profile_of(replies[2]) is Err,
    ensures
        run(config, Some(code), Some(cookie), replies).calls == seq![
            session_request(config, cookie),
            token_request(config, code),
            profile_request(token_of(replies[1])->Ok_0),
        ],
        run(config, Some(code), Some(cookie), replies).response == Some(
            failure_response(CallbackError::Profile(profile_of(replies[2])->Err_0)),
        ),
        run(config, Some(code), Some(cookie), replies).response->0.status == 502,
        run(config, Some(code), Some(cookie), replies).failure == Some(
            CallbackError::Profile(profile_of(replies[2])->Err_0),
        ),
{
    reveal_with_fuel(play, 4);
    let t = run(config, Some(code), Some(cookie), replies);
    assert(replies.drop_first().first() == replies[1]);
    assert(replies.drop_first().drop_first().first() == replies[2]);
    assert(t.calls =~= seq![
        session_request(config, cookie),
        token_request(config, code),
        profile_request(token_of(replies[1])->Ok_0),
    ]);
}

/// The four calls of a callback in which the first three are answered with
/// success: the session of the cookie, the exchange of the code, the
/// profile of the token that came back, and the link of the user that the
/// session belongs to with the account of the profile.
pub open spec fn all_calls(
    config: ConfigView,
    code: Seq<char>,
    cookie: Seq<char>,
    replies: Seq<ReplyView>,
) -> Seq<OutboundView>
    recommends
        replies.len() >= 3,
        session_of(replies[0]) is Ok,
        token_of(replies[1]) is Ok,
        profile_of(replies[2]) is Ok,
{
    seq![
        session_request(config, cookie),
        token_request(config, code),
        profile_request(token_of(replies[1])->Ok_0),
        link_request(
            config,
            session_of(replies[0])->Ok_0,
            (profile_of(replies[2])->Ok_0).id,
            (profile_of(replies[2])->Ok_0).tag(),
        ),
    ]
}

/// Where every step before it succeeds and the link is not recorded, the
/// callback is answered with 500, after all four calls.
pub proof fn run_link_refused(
    config: ConfigView,
    code: Seq<char>,
    cookie: Seq<char>,
    replies: Seq<ReplyView>,
)
    requires
        cookie.len() > 0,
        replies.len() >= 4,
        session_of(replies[0]) is Ok,
        token_of(replies[1]) is Ok,
        profile_of(replies[2]) is Ok,
        link_of(replies[3]) is Err,
    ensures
        run(config, Some(code), Some(cookie), replies).calls == all_calls(
            config,
            code,
            cookie,
            replies,
        ),
        run(config, Some(code), Some(cookie), replies).response == Some(
            failure_response(CallbackError::Link(link_of(replies[3])->Err_0)),
        ),
        run(config, Some(code), Some(cookie), replies).response->0.status == 500,
        run(config, Some(code), Some(cookie), replies).failure == Some(
            CallbackError::Link(link_of(replies[3])->Err_0),
        ),
{
    reveal_with_fuel(play, 5);
    let t = run(config, Some(code), Some(cookie), replies);
    assert(replies.drop_first().first() == replies[1]);
    assert(replies.drop_first().drop_first().first() == replies[2]);
    assert(replies.drop_first().drop_first().drop_first().first() == replies[3]);
    assert(t.calls =~= all_calls(config, code, cookie, replies));
}

/// Where all four calls are answered with success, the callback is answered
/// with 200 and the JSON object of the user id, the Discord id and the
/// display tag, and the link call carries those same three.
pub proof fn run_linked(
    config: ConfigView,
    code: Seq<char>,
    cookie: Seq<char>,
    replies: Seq<ReplyView>,
)
    requires
        cookie.len() > 0,
        replies.len() >= 4,
        session_of(replies[0]) is Ok,
        token_of(replies[1]) is Ok,
        profile_of(replies[2]) is Ok,
        link_of(replies[3]) is Ok,
    ensures
        run(config, Some(code), Some(cookie), replies).calls == all_calls(
            config,
            code,
            cookie,
            replies,
        ),
        run(config, Some(code), Some(cookie), replies).response == Some(
            success_response(
                LinkedView {
                    user_id: session_of(replies[0])->Ok_0,
                    discord_id: (profile_of(replies[2])->Ok_0).id,
                    discord_username: (profile_of(replies[2])->Ok_0).tag(),
                },
            ),
        ),
        run(config, Some(code), Some(cookie), replies).response->0.status == 200,
        run(config, Some(code), Some(cookie), replies).failure is None,
{
    reveal_with_fuel(play, 5);
    let t = run(config, Some(code), Some(cookie), replies);
    assert(replies.drop_first().first() == replies[1]);
    assert(replies.drop_first().drop_first().first() == replies[2]);
    assert(replies.drop_first().drop_first().drop_first().first() == replies[3]);
    assert(t.calls =~= all_calls(config, code, cookie, replies));
}

/// Every callback is one pass: at most four calls are made, four answers
/// always suffice to end it, and it ends with one of the statuses 200, 400,
/// 401, 500 and 502, with 200 only after all four calls and with a failure
/// named in every other case.
pub proof fn run_is_one_pass(
    config: ConfigView,
    code: Option<Seq<char>>,
    session: Option<Seq<char>>,
    replies: Seq<ReplyView>,
)
    ensures
        run(config, code, session, replies).calls.len() <= 4,
        replies.len() >= 4 ==> run(config, code, session, replies).response is Some,
        run(config, code, session, replies).calls.len() <= replies.len() + 1,
        run(config, code, session, replies).response matches Some(response) ==> {
            &&& response.status == 200 || response.status == 400 || response.status == 401
                || response.status == 500 || response.status == 502
            &&& response.status == 200 <==> run(config, code, session, replies).failure is None
            &&& response.status == 200 ==> run(config, code, session, replies).calls.len() == 4
            &&& run(config, code, session, replies).failure matches Some(error)
                ==> response == failure_response(error)
        },
        run(config, code, session, replies).response is None ==> run(
            config,
            code,
            session,
            replies,
        ).failure is None,
{
    reveal_with_fuel(play, 5);
}

} // verus!
