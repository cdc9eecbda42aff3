//! The command line: what the arguments ask for, and the lines that answer
//! them.

use crate::auth::{Credentials, CredentialsView};
use crate::model::{
    links_view, video_links, view_of_option, views, QueryResult, QueryResultView, SeriesRequest,
    SeriesSummary, SeriesSummaryView,
};
use vstd::prelude::*;
use vstd::string::StringExecFns;

verus! {

/// The arguments of one invocation, each absent unless it was given.
#[derive(Debug, PartialEq, Eq)]
pub struct Cli {
    /// A term to search the series for.
    pub search: Option<String>,
    /// The identifier of a series whose episodes are wanted.
    pub id: Option<String>,
    /// The user name to sign in with.
    pub username: Option<String>,
    /// The password to sign in with.
    pub password: Option<String>,
    /// The one-time password, where a second factor is enabled.
    pub otp_token: Option<String>,
}

pub struct CliView {
    pub search: Option<Seq<char>>,
    pub id: Option<Seq<char>>,
    pub username: Option<Seq<char>>,
    pub password: Option<Seq<char>>,
    pub otp_token: Option<Seq<char>>,
}

impl View for Cli {
    type V = CliView;

    open spec fn view(&self) -> CliView {
        CliView {
            search: view_of_option(self.search),
            id: view_of_option(self.id),
            username: view_of_option(self.username),
            password: view_of_option(self.password),
            otp_token: view_of_option(self.otp_token),
        }
    }
}

/// The one query that an invocation makes.
#[derive(Debug, PartialEq, Eq)]
pub enum CliQuery {
    /// Search the series for this term.
    Search(String),
    /// List the episodes of the series with this identifier.
    Episodes(String),
    /// Nothing was asked for.
    Nothing,
}

pub enum CliQueryView {
    Search(Seq<char>),
    Episodes(Seq<char>),
    Nothing,
}

impl View for CliQuery {
    type V = CliQueryView;

    open spec fn view(&self) -> CliQueryView {
        match self {
            CliQuery::Search(term) => CliQueryView::Search(term@),
            CliQuery::Episodes(id) => CliQueryView::Episodes(id@),
            CliQuery::Nothing => CliQueryView::Nothing,
        }
    }
}

/// What an invocation comes to: whether to sign in first, and with what,
/// and which query to make.
#[derive(Debug, PartialEq, Eq)]
pub struct CliPlan {
    pub login: Option<Credentials>,
    pub query: CliQuery,
}

pub struct CliPlanView {
    pub login: Option<CredentialsView>,
    pub query: CliQueryView,
}

impl View for CliPlan {
    type V = CliPlanView;

    open spec fn view(&self) -> CliPlanView {
        CliPlanView { login: view_of_option(self.login), query: self.query@ }
    }
}

/// Why the arguments cannot be acted on.
#[derive(Clone, Copy, Debug, PartialEq, Eq, Structural)]
pub enum CliError {
    /// A user name was given without a password.
    MissingPassword,
}

/// What the arguments come to. A user name asks for signing in and needs a
/// password; without a one-time password an empty one is used. A search
/// term takes precedence over a series.
pub open spec fn planned(cli: CliView) -> Result<CliPlanView, CliError> {
    if cli.username is Some && cli.password is None {
        Err(CliError::MissingPassword)
    } else {
        Ok(
            CliPlanView {
                login: match cli.username {
                    Some(username) => Some(
                        CredentialsView {
                            username,
                            password: cli.password->0,
                            otp_token: match cli.otp_token {
                                Some(token) => token,
                                None => ""@,
                            },
                        },
                    ),
                    None => None,
                },
                query: match cli.search {
                    Some(term) => CliQueryView::Search(term),
                    None => match cli.id {
                        Some(id) => CliQueryView::Episodes(id),
                        None => CliQueryView::Nothing,
                    },
                },
            },
        )
    }
}

/// A creator, or the word that stands for none.
pub open spec fn creator_or_null(creator: Option<Seq<char>>) -> Seq<char> {
    match creator {
        Some(name) => name,
        None => "null"@,
    }
}

/// The line for a series: identifier, title and creator.
pub open spec fn series_line(series: SeriesSummaryView) -> Seq<char> {
    series.identifier + ": "@ + series.title + " - "@ + creator_or_null(series.creator)
}

/// The first line for an episode: title, date and creator.
pub open spec fn episode_headline(episode: QueryResultView) -> Seq<char> {
    episode.title + ": "@ + episode.created + " - "@ + creator_or_null(episode.creator)
}

/// The line for a link: indented, the label and the address.
pub open spec fn link_line(link: (Seq<char>, Seq<char>)) -> Seq<char> {
    "\t"@ + link.0 + ": "@ + link.1
}

/// The lines for an episode: its headline, then one line for each of its
/// picture streams.
pub open spec fn episode_lines(episode: QueryResultView) -> Seq<Seq<char>> {
    seq![episode_headline(episode)] + video_links(episode.mediapackage.media.track).map_values(
        |link: (Seq<char>, Seq<char>)| link_line(link),
    )
}

/// The lines for a list of episodes: those of each episode, in order.
pub open spec fn listing(episodes: Seq<QueryResultView>) -> Seq<Seq<char>>
    decreases episodes.len(),
{
    if episodes.len() == 0 {
        Seq::empty()
    } else {
        listing(episodes.drop_last()) + episode_lines(episodes.last())
    }
}

/// The line that reports a failure.
pub open spec fn error_line(message: Seq<char>) -> Seq<char> {
    "Error: "@ + message
}

impl CliError {
    /// The failure in words fit to show to the user.
    pub fn message(&self) -> (text: String)
        ensures
            text@ == "Please provide password"@,
    {
        "Please provide password".to_owned()
    }
}

/// Whether the invocation asks for command-line work rather than for the
/// window: it does as soon as a search term, a series, a user name or a
/// password is given. A one-time password alone does not count.
pub fn are_args_provided(cli: &Cli) -> (provided: bool)
    ensures
        provided == (cli@.search is Some || cli@.id is Some || cli@.username is Some
            || cli@.password is Some),
{
    cli.search.is_some() || cli.id.is_some() || cli.username.is_some() || cli.password.is_some()
}

/// What the arguments come to.
pub fn plan(cli: &Cli) -> (outcome: Result<CliPlan, CliError>)
    ensures
        match outcome {
            Ok(plan) => planned(cli@) == Ok::<CliPlanView, CliError>(plan@),
            Err(e) => planned(cli@) == Err::<CliPlanView, CliError>(e),
        },
{
    let login = match &cli.username {
        Some(username) => {
            let password = match &cli.password {
                Some(password) => password.clone(),
                None => {
                    return Err(CliError::MissingPassword);
                },
            };
            let otp_token = match &cli.otp_token {
                Some(token) => token.clone(),
                None => "".to_owned(),
            };
            Some(Credentials { username: username.clone(), password, otp_token })
        },
        None => None,
    };
    let query = match &cli.search {
        Some(term) => CliQuery::Search(term.clone()),
        None => match &cli.id {
            Some(id) => CliQuery::Episodes(id.clone()),
            None => CliQuery::Nothing,
        },
    };
    Ok(CliPlan { login, query })
}

/// A creator, or the word that stands for none.
fn creator_text(creator: &Option<String>) -> (text: &str)
    ensures
        text@ == creator_or_null(view_of_option(*creator)),
{
    match creator {
        Some(name) => name.as_str(),
        None => "null",
    }
}

/// The line for a series.
pub fn series_line_of(series: &SeriesSummary) -> (line: String)
    ensures
        line@ == series_line(series@),
{
    let mut line = series.identifier.clone();
    line.append(": ");
    line.append(series.title.as_str());
    line.append(" - ");
    line.append(creator_text(&series.creator));
    line
}

/// The line for a link.
fn link_line_of(label: &str, url: &str) -> (line: String)
    ensures
        line@ == link_line((label@, url@)),
{
    let mut line = "\t".to_owned();
    line.append(label);
    line.append(": ");
    line.append(url);
    line
}

/// The lines for an episode.
pub fn episode_lines_of(episode: &QueryResult) -> (lines: Vec<String>)
    ensures
        views(lines@) == episode_lines(episode@),
{
    let mut headline = episode.title.clone();
    headline.append(": ");
    headline.append(episode.created.as_str());
    headline.append(" - ");
    headline.append(creator_text(&episode.creator));
    let links = episode.video_links();
    let ghost wanted = video_links(episode@.mediapackage.media.track);
    let mut lines: Vec<String> = Vec::new();
    lines.push(headline);
    let mut i: usize = 0;
    while i < links.len()
        invariant
            i <= links.len(),
            lines@.len() == i + 1,
            lines@[0]@ == episode_headline(episode@),
            links_view(links@) == wanted,
            forall|k: int| 0 <= k < i ==> (#[trigger] lines@[k + 1])@ == link_line(wanted[k]),
        decreases links.len() - i,
    {
        assert(wanted[i as int] == (links@[i as int].0@, links@[i as int].1@));
        lines.push(link_line_of(links[i].0.as_str(), links[i].1.as_str()));
        i += 1;
    }
    assert(wanted.len() == links@.len());
    assert forall|j: int| 0 <= j < lines@.len() implies views(lines@)[j] == episode_lines(
        episode@,
    )[j] by {
        if j > 0 {
            assert(lines@[(j - 1) + 1]@ == link_line(wanted[j - 1]));
        }
    }
    assert(views(lines@) =~= episode_lines(episode@));
    lines
}

/// The lines for the episodes of a series.
pub fn listing_of(found: &SeriesRequest) -> (lines: Vec<String>)
    ensures
        views(lines@) == listing(found@.search_results.results),
{
    let episodes = &found.search_results.results;
    let ghost all = found@.search_results.results;
    let mut lines: Vec<String> = Vec::new();
    let mut i: usize = 0;
    assert(views(lines@) =~= listing(all.take(0)));
    while i < episodes.len()
        invariant
            i <= episodes.len(),
            all == views(episodes@),
            views(lines@) == listing(all.take(i as int)),
        decreases episodes.len() - i,
    {
        let ghost before = lines@;
        assert(all.take(i + 1).drop_last() == all.take(i as int));
        assert(all.take(i + 1).last() == episodes@[i as int]@);
        let mut more = episode_lines_of(&episodes[i]);
        let ghost added = more@;
        lines.append(&mut more);
        assert(views(lines@) =~= views(before) + views(added));
        i += 1;
    }
    assert(all.take(i as int) == all);
    lines
}

/// The line that reports a failure.
pub fn error_line_of(message: &str) -> (line: String)
    ensures
        line@ == error_line(message@),
{
    let mut line = "Error: ".to_owned();
    line.append(message);
    line
}

} // verus!
