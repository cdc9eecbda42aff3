//! Signing in at the single-sign-on gateway.
//!
//! Signing in takes up to three requests, each of which depends on the
//! answer to the one before. The decisions are made here, one answer at a
//! time; sending the requests, and keeping the cookies that the gateway
//! sets, is the caller's part.

use crate::error::{login_outcome_view, AuthError, AuthErrorView, ErrorKind};
use crate::http::{
    form_view, get_of, may_answer, post_of, reply_view, Method, Request, RequestView,
};
use crate::pattern::{find_first, regex_first_match};
use crate::text::{contains, contains_text, joined, replace_text, replaced};
use vstd::prelude::*;

verus! {

/// Where signing in starts: the portal's page that leads to the gateway.
pub const LOGIN_PAGE_URL: &'static str =
    "https://tube.tugraz.at/Shibboleth.sso/Login?target=/paella/ui/index.html";

/// The gateway, to which the credentials go.
pub const GATEWAY_ORIGIN: &'static str = "https://sso.tugraz.at";

/// The shape of the address that the gateway's page names for the
/// credentials, as a regular expression.
pub const LOGIN_PATTERN: &'static str =
    "/idp/profile/SAML2/Redirect/SSO;jsessionid=.*?execution=e1s1";

/// What the portal greets a signed-in user with.
pub const WELCOME_MARKER: &'static str = "Welcome to TU Graz TUbe";

/// What to sign in with. The one-time password may be empty.
#[derive(Debug, PartialEq, Eq)]
pub struct Credentials {
    pub username: String,
    pub password: String,
    pub otp_token: String,
}

pub struct CredentialsView {
    pub username: Seq<char>,
    pub password: Seq<char>,
    pub otp_token: Seq<char>,
}

impl View for Credentials {
    type V = CredentialsView;

    open spec fn view(&self) -> CredentialsView {
        CredentialsView {
            username: self.username@,
            password: self.password@,
            otp_token: self.otp_token@,
        }
    }
}

/// The credentials made of the three texts.
pub open spec fn credentials_of(
    username: Seq<char>,
    password: Seq<char>,
    otp_token: Seq<char>,
) -> CredentialsView {
    CredentialsView { username, password, otp_token }
}

/// How far signing in has come: which answer is awaited.
#[derive(Debug, PartialEq, Eq)]
pub enum LoginState {
    /// The gateway's page is awaited.
    AwaitingPage,
    /// The answer to the credentials is awaited. `fragment` is the address
    /// that the page named for them.
    AwaitingVerdict { fragment: String },
    /// The answer to the one-time password is awaited.
    AwaitingOtpVerdict,
}

pub enum LoginStateView {
    AwaitingPage,
    AwaitingVerdict { fragment: Seq<char> },
    AwaitingOtpVerdict,
}

impl View for LoginState {
    type V = LoginStateView;

    open spec fn view(&self) -> LoginStateView {
        match self {
            LoginState::AwaitingPage => LoginStateView::AwaitingPage,
            LoginState::AwaitingVerdict { fragment } => LoginStateView::AwaitingVerdict {
                fragment: fragment@,
            },
            LoginState::AwaitingOtpVerdict => LoginStateView::AwaitingOtpVerdict,
        }
    }
}

/// What to do next: send a request and come back with the answer, or stop.
#[derive(Debug, PartialEq, Eq)]
pub enum LoginStep {
    /// Send `request`; its answer belongs to `state`.
    Continue { state: LoginState, request: Request },
    /// Signing in is over, with this outcome.
    Done(Result<(), AuthError>),
}

pub enum LoginStepView {
    Continue { state: LoginStateView, request: RequestView },
    Done(Result<(), AuthErrorView>),
}

impl View for LoginStep {
    type V = LoginStepView;

    open spec fn view(&self) -> LoginStepView {
        match self {
            LoginStep::Continue { state, request } => LoginStepView::Continue {
                state: state@,
                request: request@,
            },
            LoginStep::Done(Ok(())) => LoginStepView::Done(Ok(())),
            LoginStep::Done(Err(e)) => LoginStepView::Done(Err(e@)),
        }
    }
}

/// The form that carries the credentials.
pub open spec fn credentials_form(credentials: CredentialsView) -> Seq<(Seq<char>, Seq<char>)> {
    seq![
        ("j_username"@, credentials.username),
        ("j_password"@, credentials.password),
        ("lang"@, "de"@),
        ("_eventId_proceed"@, ""@),
    ]
}

/// The form that carries the one-time password.
pub open spec fn otp_form(credentials: CredentialsView) -> Seq<(Seq<char>, Seq<char>)> {
    seq![
        ("lang"@, "de"@),
        ("j_tokenNumber"@, credentials.otp_token),
        ("_eventId_proceed"@, ""@),
    ]
}

/// The address for the one-time password: that for the credentials, with
/// the first step of the gateway's flow turned into the second.
pub open spec fn otp_fragment(fragment: Seq<char>) -> Seq<char> {
    replaced(fragment, "e1s1"@, "e1s2"@)
}

/// The first step: ask for the gateway's page.
pub open spec fn first_step() -> LoginStepView {
    LoginStepView::Continue {
        state: LoginStateView::AwaitingPage,
        request: get_of(LOGIN_PAGE_URL@),
    }
}

/// The step that follows when `reply` answers the request that `state`
/// awaits the answer to. A reply is the body of the answer, or the
/// transport's words on why there is none.
///
/// A failed request ends signing in at once. The page must name an address
/// for the credentials. An answer that greets the user ends signing in with
/// success; after the credentials anything else calls for the one-time
/// password, and after the one-time password anything else is a rejection.
pub open spec fn next_step(
    credentials: CredentialsView,
    state: LoginStateView,
    reply: Result<Seq<char>, Seq<char>>,
) -> LoginStepView {
    match reply {
        Err(detail) => LoginStepView::Done(Err(AuthErrorView::Transport(detail))),
        Ok(body) => match state {
            LoginStateView::AwaitingPage => match regex_first_match(LOGIN_PATTERN@, body) {
                None => LoginStepView::Done(Err(AuthErrorView::NoLoginUrl)),
                Some(fragment) => LoginStepView::Continue {
                    state: LoginStateView::AwaitingVerdict { fragment },
                    request: post_of(GATEWAY_ORIGIN@ + fragment, credentials_form(credentials)),
                },
            },
            LoginStateView::AwaitingVerdict { fragment } => if contains(body, WELCOME_MARKER@) {
                LoginStepView::Done(Ok(()))
            } else {
                LoginStepView::Continue {
                    state: LoginStateView::AwaitingOtpVerdict,
                    request: post_of(
                        GATEWAY_ORIGIN@ + otp_fragment(fragment),
                        otp_form(credentials),
                    ),
                }
            },
            LoginStateView::AwaitingOtpVerdict => if contains(body, WELCOME_MARKER@) {
                LoginStepView::Done(Ok(()))
            } else {
                LoginStepView::Done(Err(AuthErrorView::LoginFailed(body)))
            },
        },
    }
}

/// What signing in comes to against a gateway whose answers are known
/// beforehand: the requests that are sent, in order, and the outcome, if the
/// answers suffice to reach one.
pub struct LoginTrace {
    pub requests: Seq<RequestView>,
    pub outcome: Option<Result<(), AuthErrorView>>,
}

/// The trace from `step` on, where the requests are answered by `replies` in
/// order. Replies that are left when signing in is over are not looked at.
pub open spec fn trace_from(
    credentials: CredentialsView,
    step: LoginStepView,
    replies: Seq<Result<Seq<char>, Seq<char>>>,
) -> LoginTrace
    decreases replies.len(),
{
    match step {
        LoginStepView::Done(outcome) => LoginTrace {
            requests: Seq::empty(),
            outcome: Some(outcome),
        },
        LoginStepView::Continue { state, request } => if replies.len() == 0 {
            LoginTrace { requests: seq![request], outcome: None }
        } else {
            let rest = trace_from(
                credentials,
                next_step(credentials, state, replies[0]),
                replies.skip(1),
            );
            LoginTrace { requests: seq![request] + rest.requests, outcome: rest.outcome }
        },
    }
}

/// The trace of signing in from the start.
pub open spec fn login_trace(
    credentials: CredentialsView,
    replies: Seq<Result<Seq<char>, Seq<char>>>,
) -> LoginTrace {
    trace_from(credentials, first_step(), replies)
}

/// How many of `requests` are `POST`s.
pub open spec fn post_count(requests: Seq<RequestView>) -> nat
    decreases requests.len(),
{
    if requests.len() == 0 {
        0
    } else {
        post_count(requests.drop_last()) + if requests.last().method == Method::PostForm {
            1nat
        } else {
            0nat
        }
    }
}

/// Where the gateway greets the user in its answer to the credentials,
/// signing in succeeds with that one `POST`: the one-time password is never
/// sent, whatever the gateway would have answered to it.
pub proof fn lemma_welcome_after_credentials(
    credentials: CredentialsView,
    page: Seq<char>,
    fragment: Seq<char>,
    answer: Seq<char>,
    unread: Seq<Result<Seq<char>, Seq<char>>>,
)
    requires
        regex_first_match(LOGIN_PATTERN@, page) == Some(fragment),
        contains(answer, WELCOME_MARKER@),
    ensures
        login_trace(credentials, seq![Ok(page), Ok(answer)] + unread).outcome == Some(
            Ok::<(), AuthErrorView>(()),
        ),
        login_trace(credentials, seq![Ok(page), Ok(answer)] + unread).requests == seq![
            get_of(LOGIN_PAGE_URL@),
            post_of(GATEWAY_ORIGIN@ + fragment, credentials_form(credentials)),
        ],
        post_count(login_trace(credentials, seq![Ok(page), Ok(answer)] + unread).requests) == 1,
{
    let replies = seq![Ok::<Seq<char>, Seq<char>>(page), Ok(answer)] + unread;
    let get = get_of(LOGIN_PAGE_URL@);
    let post = post_of(GATEWAY_ORIGIN@ + fragment, credentials_form(credentials));
    let after_page = next_step(credentials, LoginStateView::AwaitingPage, replies[0]);
    let after_answer = next_step(
        credentials,
        LoginStateView::AwaitingVerdict { fragment },
        replies.skip(1)[0],
    );
    assert(after_answer == LoginStepView::Done(Ok(())));
    let last = trace_from(credentials, after_answer, replies.skip(1).skip(1));
    assert(last.requests == Seq::<RequestView>::empty());
    let middle = trace_from(credentials, after_page, replies.skip(1));
    assert(middle.requests == seq![post] + last.requests);
    let whole = login_trace(credentials, replies);
    assert(whole.requests == seq![get] + middle.requests);
    assert(whole.requests == seq![get, post]);
    lemma_post_count_of_two(get, post);
}

/// Where the gateway does not greet the user in its answer to the
/// credentials but does so in its answer to the one-time password, signing
/// in succeeds with exactly two `POST`s, and the second goes to the address
/// of the first with `e1s1` replaced by `e1s2`.
pub proof fn lemma_welcome_after_otp(
    credentials: CredentialsView,
    page: Seq<char>,
    fragment: Seq<char>,
    first_answer: Seq<char>,
    second_answer: Seq<char>,
    unread: Seq<Result<Seq<char>, Seq<char>>>,
)
    requires
        regex_first_match(LOGIN_PATTERN@, page) == Some(fragment),
        !contains(first_answer, WELCOME_MARKER@),
        contains(second_answer, WELCOME_MARKER@),
    ensures
        login_trace(
            credentials,
            seq![Ok(page), Ok(first_answer), Ok(second_answer)] + unread,
        ).outcome == Some(Ok::<(), AuthErrorView>(())),
        login_trace(
            credentials,
            seq![Ok(page), Ok(first_answer), Ok(second_answer)] + unread,
        ).requests == seq![
            get_of(LOGIN_PAGE_URL@),
            post_of(GATEWAY_ORIGIN@ + fragment, credentials_form(credentials)),
            post_of(
                GATEWAY_ORIGIN@ + replaced(fragment, "e1s1"@, "e1s2"@),
                otp_form(credentials),
            ),
        ],
        post_count(
            login_trace(
                credentials,
                seq![Ok(page), Ok(first_answer), Ok(second_answer)] + unread,
            ).requests,
        ) == 2,
{
    let replies = seq![Ok::<Seq<char>, Seq<char>>(page), Ok(first_answer), Ok(second_answer)]
        + unread;
    let get = get_of(LOGIN_PAGE_URL@);
    let post = post_of(GATEWAY_ORIGIN@ + fragment, credentials_form(credentials));
    let otp = post_of(GATEWAY_ORIGIN@ + otp_fragment(fragment), otp_form(credentials));
    let r1 = replies.skip(1);
    let r2 = r1.skip(1);
    let r3 = r2.skip(1);
    let after_page = next_step(credentials, LoginStateView::AwaitingPage, replies[0]);
    let after_first = next_step(credentials, LoginStateView::AwaitingVerdict { fragment }, r1[0]);
    let after_second = next_step(credentials, LoginStateView::AwaitingOtpVerdict, r2[0]);
    assert(after_second == LoginStepView::Done(Ok(())));
    let t3 = trace_from(credentials, after_second, r3);
    assert(t3.requests == Seq::<RequestView>::empty());
    let t2 = trace_from(credentials, after_first, r2);
    assert(t2.requests == seq![otp] + t3.requests);
    let t1 = trace_from(credentials, after_page, r1);
    assert(t1.requests == seq![post] + t2.requests);
    let whole = login_trace(credentials, replies);
    assert(whole.requests == seq![get] + t1.requests);
    assert(whole.requests == seq![get, post, otp]);
    lemma_post_count_of_two(get, post);
    assert(seq![get, post, otp].drop_last() == seq![get, post]);
}

/// Where the gateway's page names no address for the credentials, signing in
/// fails because the page has not the expected shape, and nothing is posted.
pub proof fn lemma_no_login_url(
    credentials: CredentialsView,
    page: Seq<char>,
    unread: Seq<Result<Seq<char>, Seq<char>>>,
)
    requires
        regex_first_match(LOGIN_PATTERN@, page) is None,
    ensures
        login_trace(credentials, seq![Ok(page)] + unread).outcome == Some(
            Err::<(), AuthErrorView>(AuthErrorView::NoLoginUrl),
        ),
        AuthErrorView::NoLoginUrl.kind() == ErrorKind::ProtocolShapeMismatch,
        login_trace(credentials, seq![Ok(page)] + unread).requests == seq![
            get_of(LOGIN_PAGE_URL@),
        ],
        post_count(login_trace(credentials, seq![Ok(page)] + unread).requests) == 0,
{
    let replies = seq![Ok::<Seq<char>, Seq<char>>(page)] + unread;
    let get = get_of(LOGIN_PAGE_URL@);
    let after_page = next_step(credentials, LoginStateView::AwaitingPage, replies[0]);
    let rest = trace_from(credentials, after_page, replies.skip(1));
    assert(rest.requests == Seq::<RequestView>::empty());
    let whole = login_trace(credentials, replies);
    assert(whole.requests == seq![get] + rest.requests);
    assert(whole.requests == seq![get]);
    assert(seq![get].drop_last() == Seq::<RequestView>::empty());
    assert(post_count(Seq::<RequestView>::empty()) == 0);
}

/// A `GET` followed by a `POST` holds one `POST`.
proof fn lemma_post_count_of_two(get: RequestView, post: RequestView)
    requires
        get.method == Method::Get,
        post.method == Method::PostForm,
    ensures
        post_count(seq![get, post]) == 1,
{
    assert(seq![get, post].drop_last() == seq![get]);
    assert(seq![get].drop_last() == Seq::<RequestView>::empty());
    assert(post_count(Seq::<RequestView>::empty()) == 0);
    assert(post_count(seq![get]) == 0);
}

/// The address that the gateway's page names for the credentials, if it
/// names one.
pub fn login_fragment(page: &str) -> (fragment: Option<String>)
    ensures
        match fragment {
            Some(text) => regex_first_match(LOGIN_PATTERN@, page@) == Some(text@),
            None => regex_first_match(LOGIN_PATTERN@, page@) is None,
        },
{
    find_first(LOGIN_PATTERN, page)
}

/// Whether `body` greets a signed-in user.
pub fn is_welcome(body: &str) -> (welcome: bool)
    ensures
        welcome == contains(body@, WELCOME_MARKER@),
{
    contains_text(body, WELCOME_MARKER)
}

/// The request that carries the credentials to the address `fragment`.
pub fn credentials_request(credentials: &Credentials, fragment: &str) -> (request: Request)
    ensures
        request@ == post_of(GATEWAY_ORIGIN@ + fragment@, credentials_form(credentials@)),
{
    let mut form: Vec<(String, String)> = Vec::new();
    form.push(("j_username".to_owned(), credentials.username.clone()));
    form.push(("j_password".to_owned(), credentials.password.clone()));
    form.push(("lang".to_owned(), "de".to_owned()));
    form.push(("_eventId_proceed".to_owned(), "".to_owned()));
    assert(form_view(form@) =~= credentials_form(credentials@));
    Request::post_form(joined(GATEWAY_ORIGIN, fragment), form)
}

/// The request that carries the one-time password, where `fragment` is the
/// address that the credentials went to.
pub fn otp_request(credentials: &Credentials, fragment: &str) -> (request: Request)
    ensures
        request@ == post_of(GATEWAY_ORIGIN@ + otp_fragment(fragment@), otp_form(credentials@)),
{
    let mut form: Vec<(String, String)> = Vec::new();
    form.push(("lang".to_owned(), "de".to_owned()));
    form.push(("j_tokenNumber".to_owned(), credentials.otp_token.clone()));
    form.push(("_eventId_proceed".to_owned(), "".to_owned()));
    assert(form_view(form@) =~= otp_form(credentials@));
    let address = replace_text(fragment, "e1s1", "e1s2");
    Request::post_form(joined(GATEWAY_ORIGIN, address.as_str()), form)
}

/// Starts signing in: the first request to send.
pub fn begin_login() -> (step: LoginStep)
    ensures
        step@ == first_step(),
{
    LoginStep::Continue {
        state: LoginState::AwaitingPage,
        request: Request::get(LOGIN_PAGE_URL.to_owned()),
    }
}

/// Takes signing in one step further: `reply` answers the request that
/// `state` awaits the answer to.
pub fn continue_login(
    credentials: &Credentials,
    state: LoginState,
    reply: Result<String, String>,
) -> (step: LoginStep)
    ensures
        step@ == next_step(credentials@, state@, reply_view(reply)),
{
    let body = match reply {
        Err(detail) => {
            return LoginStep::Done(Err(AuthError::Transport(detail)));
        },
        Ok(body) => body,
    };
    match state {
        LoginState::AwaitingPage => match login_fragment(body.as_str()) {
            None => LoginStep::Done(Err(AuthError::NoLoginUrl)),
            Some(fragment) => {
                let request = credentials_request(credentials, fragment.as_str());
                LoginStep::Continue { state: LoginState::AwaitingVerdict { fragment }, request }
            },
        },
        LoginState::AwaitingVerdict { fragment } => {
            if is_welcome(body.as_str()) {
                LoginStep::Done(Ok(()))
            } else {
                LoginStep::Continue {
                    state: LoginState::AwaitingOtpVerdict,
                    request: otp_request(credentials, fragment.as_str()),
                }
            }
        },
        LoginState::AwaitingOtpVerdict => {
            if is_welcome(body.as_str()) {
                LoginStep::Done(Ok(()))
            } else {
                LoginStep::Done(Err(AuthError::LoginFailed(body)))
            }
        },
    }
}

/// Whether `replies` are answers that `send` may give, one after the other,
/// to the requests that signing in makes when it is answered so: one reply
/// for every request, and every reply one that `send` may give to its
/// request.
pub open spec fn answered_by<S: Fn(&Request) -> Result<String, String>>(
    send: S,
    credentials: CredentialsView,
    replies: Seq<Result<Seq<char>, Seq<char>>>,
) -> bool {
    let trace = login_trace(credentials, replies);
    &&& trace.requests.len() == replies.len()
    &&& forall|i: int|
        0 <= i < replies.len() ==> may_answer(send, #[trigger] trace.requests[i], replies[i])
}

/// Signs in, sending each request through `send`, which gives the body of
/// the answer or the transport's words on why there is none. Whoever stands
/// behind `send` keeps the cookies that the gateway sets.
///
/// The outcome is the one that [`login_trace`] gives for the answers that
/// `send` gave: up to three requests are sent, one after the other, and
/// none after the outcome is known.
pub fn login<S: Fn(&Request) -> Result<String, String>>(
    send: S,
    username: &str,
    password: &str,
    otp_token: &str,
) -> (outcome: Result<(), AuthError>)
    requires
        forall|request: &Request| call_requires(send, (request,)),
    ensures
        exists|replies: Seq<Result<Seq<char>, Seq<char>>>|
            {
                &&& #[trigger] answered_by(
                    send,
                    credentials_of(username@, password@, otp_token@),
                    replies,
                )
                &&& login_trace(
                    credentials_of(username@, password@, otp_token@),
                    replies,
                ).outcome == Some(login_outcome_view(outcome))
            },
{
    let credentials = Credentials {
        username: username.to_owned(),
        password: password.to_owned(),
        otp_token: otp_token.to_owned(),
    };
    let ghost c = credentials_of(username@, password@, otp_token@);
    assert(credentials@ == c);
    let (state, request) = match begin_login() {
        LoginStep::Continue { state, request } => (state, request),
        LoginStep::Done(outcome) => {
            return outcome;
        },
    };
    let ghost get = request@;
    let first = send(&request);
    let ghost r1 = reply_view(first);
    assert(may_answer(send, get, r1));
    let ghost step1 = next_step(c, LoginStateView::AwaitingPage, r1);
    let (state, request) = match continue_login(&credentials, state, first) {
        LoginStep::Continue { state, request } => (state, request),
        LoginStep::Done(outcome) => {
            proof {
                let replies = seq![r1];
                assert(replies.skip(1) == Seq::<Result<Seq<char>, Seq<char>>>::empty());
                let rest = trace_from(c, step1, replies.skip(1));
                assert(rest.requests == Seq::<RequestView>::empty());
                let whole = login_trace(c, replies);
                assert(whole.requests == seq![get] + rest.requests);
                assert(whole.requests == seq![get]);
                assert(answered_by(send, c, replies));
            }
            return outcome;
        },
    };
    let ghost post = request@;
    let ghost s1 = state@;
    let second = send(&request);
    let ghost r2 = reply_view(second);
    assert(may_answer(send, post, r2));
    let ghost step2 = next_step(c, s1, r2);
    let (state, request) = match continue_login(&credentials, state, second) {
        LoginStep::Continue { state, request } => (state, request),
        LoginStep::Done(outcome) => {
            proof {
                let replies = seq![r1, r2];
                assert(replies.skip(1) == seq![r2]);
                assert(replies.skip(1).skip(1) == Seq::<Result<Seq<char>, Seq<char>>>::empty());
                let last = trace_from(c, step2, replies.skip(1).skip(1));
                assert(last.requests == Seq::<RequestView>::empty());
                let middle = trace_from(c, step1, replies.skip(1));
                assert(middle.requests == seq![post] + last.requests);
                let whole = login_trace(c, replies);
                assert(whole.requests == seq![get] + middle.requests);
                assert(whole.requests == seq![get, post]);
                assert(answered_by(send, c, replies));
            }
            return outcome;
        },
    };
    let ghost otp = request@;
    let ghost s2 = state@;
    let third = send(&request);
    let ghost r3 = reply_view(third);
    assert(may_answer(send, otp, r3));
    let ghost step3 = next_step(c, s2, r3);
    match continue_login(&credentials, state, third) {
        // The answer to the one-time password is the last: this arm is never
        // taken.
        LoginStep::Continue { state, request } => Err(AuthError::LoginFailed(String::new())),
        LoginStep::Done(outcome) => {
            proof {
                let replies = seq![r1, r2, r3];
                let t1 = replies.skip(1);
                let t2 = t1.skip(1);
                let t3 = t2.skip(1);
                assert(t1 == seq![r2, r3]);
                assert(t2 == seq![r3]);
                assert(t3 == Seq::<Result<Seq<char>, Seq<char>>>::empty());
                let last = trace_from(c, step3, t3);
                assert(last.requests == Seq::<RequestView>::empty());
                let late = trace_from(c, step2, t2);
                assert(late.requests == seq![otp] + last.requests);
                let middle = trace_from(c, step1, t1);
                assert(middle.requests == seq![post] + late.requests);
                let whole = login_trace(c, replies);
                assert(whole.requests == seq![get] + middle.requests);
                assert(whole.requests == seq![get, post, otp]);
                assert(answered_by(send, c, replies));
            }
            outcome
        },
    }
}

} // verus!
