//! The failures that signing in and querying can end in.

use vstd::prelude::*;

verus! {

/// The three kinds of failure.
#[derive(Clone, Copy, Debug, PartialEq, Eq, Structural)]
pub enum ErrorKind {
    /// The network failed; nothing is known of the other side.
    Transport,
    /// The other side answered, but not in the shape that was expected.
    ProtocolShapeMismatch,
    /// The gateway did not accept the credentials or the one-time password.
    AuthenticationRejected,
}

/// Why signing in failed.
#[derive(Debug, PartialEq, Eq)]
pub enum AuthError {
    /// A request could not be carried out; the transport's own words.
    Transport(String),
    /// The gateway's page holds no address to send the credentials to.
    NoLoginUrl,
    /// Neither the credentials nor the one-time password were accepted; the
    /// gateway's last answer.
    LoginFailed(String),
}

/// The mathematical value of an [`AuthError`].
pub enum AuthErrorView {
    Transport(Seq<char>),
    NoLoginUrl,
    LoginFailed(Seq<char>),
}

/// Why a query failed.
#[derive(Debug, PartialEq, Eq)]
pub enum QueryError {
    /// The request could not be carried out; the transport's own words.
    Transport(String),
    /// The answer is no JSON document, or not one of the expected shape.
    Parse(String),
}

/// The mathematical value of a [`QueryError`].
pub enum QueryErrorView {
    Transport(Seq<char>),
    Parse(Seq<char>),
}

impl AuthErrorView {
    pub open spec fn kind(self) -> ErrorKind {
        match self {
            AuthErrorView::Transport(_) => ErrorKind::Transport,
            AuthErrorView::NoLoginUrl => ErrorKind::ProtocolShapeMismatch,
            AuthErrorView::LoginFailed(_) => ErrorKind::AuthenticationRejected,
        }
    }

    pub open spec fn message(self) -> Seq<char> {
        match self {
            AuthErrorView::Transport(detail) => detail,
            AuthErrorView::NoLoginUrl => "No login url in response"@,
            AuthErrorView::LoginFailed(_) => "Login failed"@,
        }
    }
}

impl QueryErrorView {
    pub open spec fn kind(self) -> ErrorKind {
        match self {
            QueryErrorView::Transport(_) => ErrorKind::Transport,
            QueryErrorView::Parse(_) => ErrorKind::ProtocolShapeMismatch,
        }
    }

    pub open spec fn message(self) -> Seq<char> {
        match self {
            QueryErrorView::Transport(detail) => detail,
            QueryErrorView::Parse(detail) => detail,
        }
    }
}

impl View for AuthError {
    type V = AuthErrorView;

    open spec fn view(&self) -> AuthErrorView {
        match self {
            AuthError::Transport(detail) => AuthErrorView::Transport(detail@),
            AuthError::NoLoginUrl => AuthErrorView::NoLoginUrl,
            AuthError::LoginFailed(answer) => AuthErrorView::LoginFailed(answer@),
        }
    }
}

impl View for QueryError {
    type V = QueryErrorView;

    open spec fn view(&self) -> QueryErrorView {
        match self {
            QueryError::Transport(detail) => QueryErrorView::Transport(detail@),
            QueryError::Parse(detail) => QueryErrorView::Parse(detail@),
        }
    }
}

/// The view of how signing in ended.
pub open spec fn login_outcome_view(outcome: Result<(), AuthError>) -> Result<(), AuthErrorView> {
    match outcome {
        Ok(()) => Ok(()),
        Err(e) => Err(e@),
    }
}

impl AuthError {
    /// The kind of failure this is.
    pub fn kind(&self) -> (kind: ErrorKind)
        ensures
            kind == self@.kind(),
    {
        match self {
            AuthError::Transport(_) => ErrorKind::Transport,
            AuthError::NoLoginUrl => ErrorKind::ProtocolShapeMismatch,
            AuthError::LoginFailed(_) => ErrorKind::AuthenticationRejected,
        }
    }

    /// The failure in words fit to show to the user. The gateway's answer
    /// that a rejection carries is not part of them.
    pub fn message(&self) -> (text: String)
        ensures
            text@ == self@.message(),
    {
        match self {
            AuthError::Transport(detail) => detail.clone(),
            AuthError::NoLoginUrl => "No login url in response".to_owned(),
            AuthError::LoginFailed(_) => "Login failed".to_owned(),
        }
    }
}

impl QueryError {
    /// The kind of failure this is.
    pub fn kind(&self) -> (kind: ErrorKind)
        ensures
            kind == self@.kind(),
    {
        match self {
            QueryError::Transport(_) => ErrorKind::Transport,
            QueryError::Parse(_) => ErrorKind::ProtocolShapeMismatch,
        }
    }

    /// The failure in words fit to show to the user.
    pub fn message(&self) -> (text: String)
        ensures
            text@ == self@.message(),
    {
        match self {
            QueryError::Transport(detail) => detail.clone(),
            QueryError::Parse(detail) => detail.clone(),
        }
    }
}

} // verus!
