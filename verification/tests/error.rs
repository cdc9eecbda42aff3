use tube_client::error::{AuthError, ErrorKind, QueryError};

#[test]
fn auth_errors_have_their_kind() {
    assert_eq!(AuthError::Transport("timeout".to_owned()).kind(), ErrorKind::Transport);
    assert_eq!(AuthError::NoLoginUrl.kind(), ErrorKind::ProtocolShapeMismatch);
    assert_eq!(
        AuthError::LoginFailed("<html/>".to_owned()).kind(),
        ErrorKind::AuthenticationRejected
    );
}

#[test]
fn auth_errors_have_their_message() {
    assert_eq!(AuthError::Transport("connection refused".to_owned()).message(), "connection refused");
    assert_eq!(AuthError::NoLoginUrl.message(), "No login url in response");
    assert_eq!(AuthError::LoginFailed("<html/>".to_owned()).message(), "Login failed");
}

#[test]
fn query_errors_have_their_kind_and_message() {
    let transport = QueryError::Transport("timeout".to_owned());
    assert_eq!(transport.kind(), ErrorKind::Transport);
    assert_eq!(transport.message(), "timeout");
    let parse = QueryError::Parse("EOF while parsing".to_owned());
    assert_eq!(parse.kind(), ErrorKind::ProtocolShapeMismatch);
    assert_eq!(parse.message(), "EOF while parsing");
}
