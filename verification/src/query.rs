//! The portal's two queries: the search for series and the episodes of one
//! series.
//!
//! Each query is one `GET` and the reading of its answer. Both halves are
//! here; sending the request is the caller's part.

use crate::decode::FromJson;
use crate::error::{QueryError, QueryErrorView};
use crate::escape::{escaped, lemma_unescape_escaped, percent_encode, unescaped};
use crate::http::{get_of, may_answer, reply_view, Request};
use crate::json::{json_document, Json, JsonView};
use crate::model::{SearchRequest, SeriesRequest};
use crate::text::joined;
use vstd::prelude::*;

verus! {

/// The search for series, sorted by title, twenty to a page; the term
/// follows.
pub const SEARCH_URL: &'static str =
    "https://tube.tugraz.at/series/series.json?sort=TITLE&count=20&q=";

/// The episodes of a series; its identifier follows.
pub const EPISODES_URL: &'static str = "https://tube.tugraz.at/search/episode.json?sid=";

/// What is said of a JSON document that does not spell the record asked for.
pub const SHAPE_MISMATCH: &'static str = "the answer has not the expected shape";

/// The view of a query's outcome.
pub open spec fn outcome_view<T: View>(outcome: Result<T, QueryError>) -> Result<
    T::V,
    QueryErrorView,
> {
    match outcome {
        Ok(record) => Ok(record@),
        Err(e) => Err(e@),
    }
}

/// The view of what reading a text as JSON came to.
pub open spec fn document_view(document: Result<Json, String>) -> Result<JsonView, Seq<char>> {
    match document {
        Ok(tree) => Ok(tree@),
        Err(detail) => Err(detail@),
    }
}

/// The record in what reading a text as JSON came to. A text that is no JSON
/// document is a parse error in the reader's words; a document that does not
/// spell the record is a parse error too.
pub open spec fn record_in<T: FromJson>(document: Result<JsonView, Seq<char>>) -> Result<
    T::V,
    QueryErrorView,
> {
    match document {
        Err(detail) => Err(QueryErrorView::Parse(detail)),
        Ok(tree) => match T::decoded(tree) {
            Some(record) => Ok(record),
            None => Err(QueryErrorView::Parse(SHAPE_MISMATCH@)),
        },
    }
}

/// The outcome of a query whose request was answered by `reply`. A failed
/// request is a transport error in the transport's words.
pub open spec fn answer_in<T: FromJson>(reply: Result<Seq<char>, Seq<char>>) -> Result<
    T::V,
    QueryErrorView,
> {
    match reply {
        Err(detail) => Err(QueryErrorView::Transport(detail)),
        Ok(body) => record_in::<T>(json_document(body)),
    }
}

/// A body that is no JSON document is a parse error, whatever the record.
pub proof fn lemma_malformed_body_is_parse_error<T: FromJson>(body: Seq<char>)
    requires
        json_document(body) is Err,
    ensures
        answer_in::<T>(Ok(body)) == Err::<T::V, QueryErrorView>(
            QueryErrorView::Parse(json_document(body)->Err_0),
        ),
{
}

/// Reads the record out of what reading a text as JSON came to.
pub fn read_record<T: FromJson>(document: Result<Json, String>) -> (outcome: Result<
    T,
    QueryError,
>)
    ensures
        outcome_view(outcome) == record_in::<T>(document_view(document)),
{
    match document {
        Err(detail) => Err(QueryError::Parse(detail)),
        Ok(tree) => match T::from_json(&tree) {
            Some(record) => Ok(record),
            None => Err(QueryError::Parse(SHAPE_MISMATCH.to_owned())),
        },
    }
}

/// Reads the answer to a query.
pub fn read_reply<T: FromJson>(reply: Result<String, String>) -> (outcome: Result<T, QueryError>)
    ensures
        outcome_view(outcome) == answer_in::<T>(reply_view(reply)),
{
    match reply {
        Err(detail) => Err(QueryError::Transport(detail)),
        Ok(body) => read_record(Json::parse(body.as_str())),
    }
}

/// The request that searches the series for `search_term`. The term is
/// escaped, so that it may hold any character.
pub fn search_series_request(search_term: &str) -> (request: Request)
    ensures
        request@ == get_of(SEARCH_URL@ + escaped(search_term@)),
        unescaped(request@.url.skip(SEARCH_URL@.len() as int)) == Some(search_term@),
{
    let term = percent_encode(search_term);
    let request = Request::get(joined(SEARCH_URL, term.as_str()));
    assert(request@.url.skip(SEARCH_URL@.len() as int) == escaped(search_term@));
    proof {
        lemma_unescape_escaped(search_term@);
    }
    request
}

/// Reads the answer to a search for series.
pub fn search_series_reply(reply: Result<String, String>) -> (outcome: Result<
    SearchRequest,
    QueryError,
>)
    ensures
        outcome_view(outcome) == answer_in::<SearchRequest>(reply_view(reply)),
{
    read_reply(reply)
}

/// The request for the episodes of the series `series_id`. The identifier
/// goes into the address as it is.
pub fn get_series_request(series_id: &str) -> (request: Request)
    ensures
        request@ == get_of(EPISODES_URL@ + series_id@),
{
    Request::get(joined(EPISODES_URL, series_id))
}

/// Reads the answer to a request for the episodes of a series.
pub fn get_series_reply(reply: Result<String, String>) -> (outcome: Result<
    SeriesRequest,
    QueryError,
>)
    ensures
        outcome_view(outcome) == answer_in::<SeriesRequest>(reply_view(reply)),
{
    read_reply(reply)
}

/// Searches the series for `search_term`, sending the request through
/// `send`, which gives the body of the answer or the transport's words on
/// why there is none.
pub fn search_series<S: Fn(&Request) -> Result<String, String>>(
    send: S,
    search_term: &str,
) -> (outcome: Result<SearchRequest, QueryError>)
    requires
        forall|request: &Request| call_requires(send, (request,)),
    ensures
        exists|reply: Result<Seq<char>, Seq<char>>|
            {
                &&& #[trigger] may_answer(
                    send,
                    get_of(SEARCH_URL@ + escaped(search_term@)),
                    reply,
                )
                &&& outcome_view(outcome) == answer_in::<SearchRequest>(reply)
            },
{
    let request = search_series_request(search_term);
    let reply = send(&request);
    assert(may_answer(send, request@, reply_view(reply)));
    search_series_reply(reply)
}

/// Asks for the episodes of the series `series_id`, sending the request
/// through `send`, which gives the body of the answer or the transport's
/// words on why there is none.
pub fn get_series<S: Fn(&Request) -> Result<String, String>>(send: S, series_id: &str) -> (outcome:
    Result<SeriesRequest, QueryError>)
    requires
        forall|request: &Request| call_requires(send, (request,)),
    ensures
        exists|reply: Result<Seq<char>, Seq<char>>|
            {
                &&& #[trigger] may_answer(send, get_of(EPISODES_URL@ + series_id@), reply)
                &&& outcome_view(outcome) == answer_in::<SeriesRequest>(reply)
            },
{
    let request = get_series_request(series_id);
    let reply = send(&request);
    assert(may_answer(send, request@, reply_view(reply)));
    get_series_reply(reply)
}

} // verus!
