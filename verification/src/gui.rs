//! What the window shows, and how that changes when signing in or a query
//! has ended. Drawing the window and sending the requests is the caller's
//! part.

use crate::auth::{Credentials, CredentialsView};
use crate::error::{login_outcome_view, AuthError, AuthErrorView, QueryError, QueryErrorView};
use crate::model::{
    view_of_option, SearchRequest, SearchRequestView, SeriesRequest, SeriesRequestView,
};
use crate::query::outcome_view;
use vstd::prelude::*;
use vstd::string::StringExecFns;

verus! {

/// What follows every failure to sign in.
pub const RESTART_HINT: &'static str = "\nSome errors require a restart of the application";

/// The state of the window.
#[derive(Debug, PartialEq, Eq)]
pub struct TubeApp {
    /// Whether the user is signed in. The form for signing in is shown
    /// until then.
    pub logged: bool,
    pub username: String,
    pub password: String,
    /// Why signing in failed the last time; empty before that.
    pub login_error: String,
    pub search_term: String,
    /// The series that the last search found, while they are shown.
    pub search_results: Option<SearchRequest>,
    /// The episodes that were loaded last, while they are shown.
    pub episodes: Option<SeriesRequest>,
    /// Why a query failed the last time; empty before that.
    pub search_error: String,
    pub otp_token: String,
}

pub struct TubeAppView {
    pub logged: bool,
    pub username: Seq<char>,
    pub password: Seq<char>,
    pub login_error: Seq<char>,
    pub search_term: Seq<char>,
    pub search_results: Option<SearchRequestView>,
    pub episodes: Option<SeriesRequestView>,
    pub search_error: Seq<char>,
    pub otp_token: Seq<char>,
}

impl View for TubeApp {
    type V = TubeAppView;

    open spec fn view(&self) -> TubeAppView {
        TubeAppView {
            logged: self.logged,
            username: self.username@,
            password: self.password@,
            login_error: self.login_error@,
            search_term: self.search_term@,
            search_results: view_of_option(self.search_results),
            episodes: view_of_option(self.episodes),
            search_error: self.search_error@,
            otp_token: self.otp_token@,
        }
    }
}

impl TubeAppView {
    /// The window as it opens: nobody signed in, every field empty, nothing
    /// to show.
    pub open spec fn initial() -> TubeAppView {
        TubeAppView {
            logged: false,
            username: Seq::empty(),
            password: Seq::empty(),
            login_error: Seq::empty(),
            search_term: Seq::empty(),
            search_results: None,
            episodes: None,
            search_error: Seq::empty(),
            otp_token: Seq::empty(),
        }
    }

    /// What the form for signing in holds.
    pub open spec fn credentials(self) -> CredentialsView {
        CredentialsView {
            username: self.username,
            password: self.password,
            otp_token: self.otp_token,
        }
    }

    /// The window after signing in has ended with `outcome`: signed in, or
    /// with the failure and the hint to show.
    pub open spec fn after_login(self, outcome: Result<(), AuthErrorView>) -> TubeAppView {
        match outcome {
            Ok(()) => TubeAppView { logged: true, ..self },
            Err(e) => TubeAppView { login_error: e.message() + RESTART_HINT@, ..self },
        }
    }

    /// The window after a search has ended with `outcome`: the series found
    /// take the place of whatever was shown, or the failure is shown and
    /// the rest stays.
    pub open spec fn after_search(
        self,
        outcome: Result<SearchRequestView, QueryErrorView>,
    ) -> TubeAppView {
        match outcome {
            Ok(found) => TubeAppView { search_results: Some(found), episodes: None, ..self },
            Err(e) => TubeAppView { search_error: e.message(), ..self },
        }
    }

    /// The window after the episodes of a series were asked for, with
    /// `outcome`: the episodes take the place of the series, or the failure
    /// is shown and the rest stays.
    pub open spec fn after_episodes(
        self,
        outcome: Result<SeriesRequestView, QueryErrorView>,
    ) -> TubeAppView {
        match outcome {
            Ok(found) => TubeAppView { episodes: Some(found), search_results: None, ..self },
            Err(e) => TubeAppView { search_error: e.message(), ..self },
        }
    }
}

impl TubeApp {
    /// The window as it opens.
    pub fn new() -> (app: TubeApp)
        ensures
            app@ == TubeAppView::initial(),
    {
        TubeApp {
            logged: false,
            username: String::new(),
            password: String::new(),
            login_error: String::new(),
            search_term: String::new(),
            search_results: None,
            search_error: String::new(),
            episodes: None,
            otp_token: String::new(),
        }
    }

    /// What the form for signing in holds.
    pub fn credentials(&self) -> (credentials: Credentials)
        ensures
            credentials@ == self@.credentials(),
    {
        Credentials {
            username: self.username.clone(),
            password: self.password.clone(),
            otp_token: self.otp_token.clone(),
        }
    }

    /// Whether there is a term to search for: a search for nothing is not
    /// made.
    pub fn wants_search(&self) -> (wanted: bool)
        ensures
            wanted == (self@.search_term.len() > 0),
    {
        !self.search_term.as_str().is_empty()
    }

    /// Takes in how signing in ended.
    pub fn login_finished(&mut self, outcome: Result<(), AuthError>)
        ensures
            final(self)@ == old(self)@.after_login(login_outcome_view(outcome)),
    {
        match outcome {
            Ok(()) => {
                self.logged = true;
            },
            Err(e) => {
                let mut text = e.message();
                text.append(RESTART_HINT);
                self.login_error = text;
            },
        }
    }

    /// Takes in how a search ended.
    pub fn search_finished(&mut self, outcome: Result<SearchRequest, QueryError>)
        ensures
            final(self)@ == old(self)@.after_search(outcome_view(outcome)),
    {
        match outcome {
            Ok(found) => {
                self.search_results = Some(found);
                self.episodes = None;
            },
            Err(e) => {
                self.search_error = e.message();
            },
        }
    }

    /// Takes in how asking for the episodes of a series ended.
    pub fn episodes_finished(&mut self, outcome: Result<SeriesRequest, QueryError>)
        ensures
            final(self)@ == old(self)@.after_episodes(outcome_view(outcome)),
    {
        match outcome {
            Ok(found) => {
                self.episodes = Some(found);
                self.search_results = None;
            },
            Err(e) => {
                self.search_error = e.message();
            },
        }
    }
}

} // verus!
