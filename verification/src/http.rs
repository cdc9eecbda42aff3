//! Requests as values: what is to be sent, for whoever holds the connection
//! and its cookies. What comes back is a reply: the body of the answer as
//! text, or the transport's words on why there is none.

use vstd::prelude::*;

verus! {

/// How a request is sent.
#[derive(Clone, Copy, Debug, PartialEq, Eq, Structural)]
pub enum Method {
    /// A plain `GET`.
    Get,
    /// A `POST` whose body is the URL-encoded form.
    PostForm,
}

/// One request.
#[derive(Debug, PartialEq, Eq)]
pub struct Request {
    pub method: Method,
    pub url: String,
    /// The fields of the form, each a name and a value; empty for a `GET`.
    pub form: Vec<(String, String)>,
}

/// The mathematical value of a [`Request`].
pub struct RequestView {
    pub method: Method,
    pub url: Seq<char>,
    pub form: Seq<(Seq<char>, Seq<char>)>,
}

/// The fields of a form as pairs of sequences.
pub open spec fn form_view(form: Seq<(String, String)>) -> Seq<(Seq<char>, Seq<char>)> {
    form.map_values(|field: (String, String)| (field.0@, field.1@))
}

impl View for Request {
    type V = RequestView;

    open spec fn view(&self) -> RequestView {
        RequestView { method: self.method, url: self.url@, form: form_view(self.form@) }
    }
}

/// The `GET` of `url`.
pub open spec fn get_of(url: Seq<char>) -> RequestView {
    RequestView { method: Method::Get, url, form: Seq::empty() }
}

/// The `POST` of `form` to `url`.
pub open spec fn post_of(url: Seq<char>, form: Seq<(Seq<char>, Seq<char>)>) -> RequestView {
    RequestView { method: Method::PostForm, url, form }
}

/// The view of a reply: the body of the answer, or the transport's words on
/// why there is none.
pub open spec fn reply_view(reply: Result<String, String>) -> Result<Seq<char>, Seq<char>> {
    match reply {
        Ok(body) => Ok(body@),
        Err(detail) => Err(detail@),
    }
}

/// Whether `send` may answer `request` with `reply`.
pub open spec fn may_answer<S: Fn(&Request) -> Result<String, String>>(
    send: S,
    request: RequestView,
    reply: Result<Seq<char>, Seq<char>>,
) -> bool {
    exists|sent: Request, answer: Result<String, String>|
        sent@ == request && reply_view(answer) == reply && call_ensures(send, (&sent,), answer)
}

impl Request {
    /// The `GET` of `url`.
    pub fn get(url: String) -> (request: Request)
        ensures
            request@ == get_of(url@),
    {
        let request = Request { method: Method::Get, url, form: Vec::new() };
        assert(request@.form =~= Seq::empty());
        request
    }

    /// The `POST` of `form` to `url`.
    pub fn post_form(url: String, form: Vec<(String, String)>) -> (request: Request)
        ensures
            request@ == post_of(url@, form_view(form@)),
    {
        Request { method: Method::PostForm, url, form }
    }
}

} // verus!
