use tube_client::auth::{
    begin_login, continue_login, credentials_request, is_welcome, login_fragment, otp_request,
    Credentials, LoginState, LoginStep, GATEWAY_ORIGIN, LOGIN_PAGE_URL,
};
use tube_client::error::{AuthError, ErrorKind};
use tube_client::http::{Method, Request};

const PAGE: &str = "<html><body>\n<form action=\"/idp/profile/SAML2/Redirect/SSO;jsessionid=0A1B2C?execution=e1s1\" method=\"post\">\n<input name=\"j_username\"/></form>\n<a href=\"/idp/other?execution=e1s1\">x</a></body></html>";
const FRAGMENT: &str = "/idp/profile/SAML2/Redirect/SSO;jsessionid=0A1B2C?execution=e1s1";
const WELCOME: &str = "<html><title>Welcome to TU Graz TUbe</title></html>";
const ASK_OTP: &str = "<html>Please enter your token</html>";

fn credentials(otp: &str) -> Credentials {
    Credentials {
        username: "ada".to_owned(),
        password: "s3cret&more".to_owned(),
        otp_token: otp.to_owned(),
    }
}

fn pair(name: &str, value: &str) -> (String, String) {
    (name.to_owned(), value.to_owned())
}

/// Signs in against a gateway that answers with `replies`, in order, and
/// gives the requests that were sent and the outcome, if one was reached.
fn sign_in(
    credentials: &Credentials,
    replies: Vec<Result<&str, &str>>,
) -> (Vec<Request>, Option<Result<(), AuthError>>) {
    let mut sent = Vec::new();
    let mut step = begin_login();
    let mut replies = replies.into_iter();
    loop {
        match step {
            LoginStep::Done(outcome) => return (sent, Some(outcome)),
            LoginStep::Continue { state, request } => {
                sent.push(request);
                match replies.next() {
                    None => return (sent, None),
                    Some(reply) => {
                        let reply = reply.map(|b| b.to_owned()).map_err(|e| e.to_owned());
                        step = continue_login(credentials, state, reply);
                    }
                }
            }
        }
    }
}

fn posts(sent: &[Request]) -> usize {
    sent.iter().filter(|r| r.method == Method::PostForm).count()
}

#[test]
fn signing_in_starts_with_the_portals_login_page() {
    match begin_login() {
        LoginStep::Continue { state, request } => {
            assert_eq!(state, LoginState::AwaitingPage);
            assert_eq!(request.method, Method::Get);
            assert_eq!(
                request.url,
                "https://tube.tugraz.at/Shibboleth.sso/Login?target=/paella/ui/index.html"
            );
            assert_eq!(request.url, LOGIN_PAGE_URL);
            assert!(request.form.is_empty());
        }
        LoginStep::Done(_) => panic!("signing in cannot be over before it began"),
    }
}

#[test]
fn the_fragment_is_the_first_and_shortest_match() {
    assert_eq!(login_fragment(PAGE), Some(FRAGMENT.to_owned()));
    let twice = "a /idp/profile/SAML2/Redirect/SSO;jsessionid=X?execution=e1s1&y=execution=e1s1 b";
    assert_eq!(
        login_fragment(twice),
        Some("/idp/profile/SAML2/Redirect/SSO;jsessionid=X?execution=e1s1".to_owned())
    );
    assert_eq!(
        login_fragment("/idp/profile/SAML2/Redirect/SSO;jsessionid=execution=e1s1"),
        Some("/idp/profile/SAML2/Redirect/SSO;jsessionid=execution=e1s1".to_owned())
    );
}

#[test]
fn there_is_no_fragment_without_the_whole_shape() {
    assert_eq!(login_fragment(""), None);
    assert_eq!(login_fragment("<html>maintenance</html>"), None);
    assert_eq!(login_fragment("/idp/profile/SAML2/Redirect/SSO;jsessionid=X?execution=e2s1"), None);
    assert_eq!(
        login_fragment("/idp/profile/SAML2/Redirect/SSO;jsessionid=X\n?execution=e1s1"),
        None
    );
    assert_eq!(login_fragment(WELCOME), None);
}

#[test]
fn the_marker_must_be_there_letter_for_letter() {
    assert!(is_welcome(WELCOME));
    assert!(is_welcome("Welcome to TU Graz TUbe"));
    assert!(!is_welcome("welcome to tu graz tube"));
    assert!(!is_welcome("Welcome to TU Graz"));
    assert!(!is_welcome(""));
}

#[test]
fn the_credentials_go_to_the_gateway_as_a_form() {
    let request = credentials_request(&credentials(""), FRAGMENT);
    assert_eq!(request.method, Method::PostForm);
    assert_eq!(request.url, format!("https://sso.tugraz.at{}", FRAGMENT));
    assert_eq!(
        request.form,
        vec![
            pair("j_username", "ada"),
            pair("j_password", "s3cret&more"),
            pair("lang", "de"),
            pair("_eventId_proceed", ""),
        ]
    );
}

#[test]
fn the_one_time_password_goes_to_the_second_step() {
    let request = otp_request(&credentials("123456"), FRAGMENT);
    assert_eq!(request.method, Method::PostForm);
    assert_eq!(
        request.url,
        "https://sso.tugraz.at/idp/profile/SAML2/Redirect/SSO;jsessionid=0A1B2C?execution=e1s2"
    );
    assert_eq!(
        request.form,
        vec![pair("lang", "de"), pair("j_tokenNumber", "123456"), pair("_eventId_proceed", "")]
    );
}

#[test]
fn success_after_the_first_post_sends_no_one_time_password() {
    let (sent, outcome) =
        sign_in(&credentials("123456"), vec![Ok(PAGE), Ok(WELCOME), Ok(WELCOME), Ok(WELCOME)]);
    assert_eq!(outcome, Some(Ok(())));
    assert_eq!(sent.len(), 2);
    assert_eq!(posts(&sent), 1);
    assert_eq!(sent[0].method, Method::Get);
    assert_eq!(sent[1], credentials_request(&credentials("123456"), FRAGMENT));
    assert!(sent.iter().all(|r| r.form.iter().all(|f| f.0 != "j_tokenNumber")));
}

#[test]
fn success_after_the_second_post_takes_exactly_two_posts() {
    let (sent, outcome) = sign_in(&credentials("123456"), vec![Ok(PAGE), Ok(ASK_OTP), Ok(WELCOME)]);
    assert_eq!(outcome, Some(Ok(())));
    assert_eq!(sent.len(), 3);
    assert_eq!(posts(&sent), 2);
    let first = sent[1].url.strip_prefix(GATEWAY_ORIGIN).unwrap();
    let second = sent[2].url.strip_prefix(GATEWAY_ORIGIN).unwrap();
    assert_eq!(first, FRAGMENT);
    assert_eq!(second, first.replace("e1s1", "e1s2"));
    assert_eq!(sent[2], otp_request(&credentials("123456"), FRAGMENT));
}

#[test]
fn a_page_without_the_fragment_ends_signing_in_before_any_post() {
    let (sent, outcome) = sign_in(&credentials(""), vec![Ok("<html>maintenance</html>"), Ok(WELCOME)]);
    assert_eq!(outcome, Some(Err(AuthError::NoLoginUrl)));
    assert_eq!(AuthError::NoLoginUrl.kind(), ErrorKind::ProtocolShapeMismatch);
    assert_eq!(sent.len(), 1);
    assert_eq!(posts(&sent), 0);
}

#[test]
fn two_answers_without_the_marker_are_a_rejection_with_the_last_answer() {
    let (sent, outcome) = sign_in(&credentials("000000"), vec![Ok(PAGE), Ok(ASK_OTP), Ok("<html>wrong token</html>")]);
    assert_eq!(outcome, Some(Err(AuthError::LoginFailed("<html>wrong token</html>".to_owned()))));
    assert_eq!(posts(&sent), 2);
    match outcome {
        Some(Err(e)) => {
            assert_eq!(e.kind(), ErrorKind::AuthenticationRejected);
            assert_eq!(e.message(), "Login failed");
        }
        _ => unreachable!(),
    }
}

#[test]
fn an_empty_one_time_password_is_sent_all_the_same() {
    let (sent, outcome) = sign_in(&credentials(""), vec![Ok(PAGE), Ok(ASK_OTP), Ok(ASK_OTP)]);
    assert_eq!(outcome, Some(Err(AuthError::LoginFailed(ASK_OTP.to_owned()))));
    assert_eq!(sent.len(), 3);
    assert_eq!(sent[2].form[1], pair("j_tokenNumber", ""));
}

#[test]
fn a_failed_request_ends_signing_in_at_any_step() {
    let (sent, outcome) = sign_in(&credentials(""), vec![Err("connection refused")]);
    assert_eq!(outcome, Some(Err(AuthError::Transport("connection refused".to_owned()))));
    assert_eq!(sent.len(), 1);
    let (sent, outcome) = sign_in(&credentials(""), vec![Ok(PAGE), Err("timed out")]);
    assert_eq!(outcome, Some(Err(AuthError::Transport("timed out".to_owned()))));
    assert_eq!(sent.len(), 2);
    let (sent, outcome) = sign_in(&credentials(""), vec![Ok(PAGE), Ok(ASK_OTP), Err("tls")]);
    assert_eq!(outcome, Some(Err(AuthError::Transport("tls".to_owned()))));
    assert_eq!(sent.len(), 3);
    match outcome {
        Some(Err(e)) => assert_eq!(e.kind(), ErrorKind::Transport),
        _ => unreachable!(),
    }
}

#[test]
fn signing_in_waits_while_answers_are_missing() {
    let (sent, outcome) = sign_in(&credentials(""), vec![]);
    assert_eq!(outcome, None);
    assert_eq!(sent.len(), 1);
    let (sent, outcome) = sign_in(&credentials(""), vec![Ok(PAGE)]);
    assert_eq!(outcome, None);
    assert_eq!(sent.len(), 2);
}

#[test]
fn signing_in_again_asks_everything_anew() {
    let first = sign_in(&credentials("1"), vec![Ok(PAGE), Ok(ASK_OTP), Ok(ASK_OTP)]);
    let second = sign_in(&credentials("1"), vec![Ok(PAGE), Ok(ASK_OTP), Ok(WELCOME)]);
    assert_eq!(first.0, second.0);
    assert_eq!(second.1, Some(Ok(())));
}

#[test]
fn each_state_steps_as_its_answer_says() {
    let c = credentials("9");
    assert_eq!(
        continue_login(&c, LoginState::AwaitingPage, Ok(PAGE.to_owned())),
        LoginStep::Continue {
            state: LoginState::AwaitingVerdict { fragment: FRAGMENT.to_owned() },
            request: credentials_request(&c, FRAGMENT),
        }
    );
    assert_eq!(
        continue_login(
            &c,
            LoginState::AwaitingVerdict { fragment: FRAGMENT.to_owned() },
            Ok(ASK_OTP.to_owned())
        ),
        LoginStep::Continue {
            state: LoginState::AwaitingOtpVerdict,
            request: otp_request(&c, FRAGMENT),
        }
    );
    assert_eq!(
        continue_login(&c, LoginState::AwaitingOtpVerdict, Ok(WELCOME.to_owned())),
        LoginStep::Done(Ok(()))
    );
}
