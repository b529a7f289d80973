//! A request to the server.
use vstd::prelude::*;

verus! {

/// The method of a request.
#[derive(Debug, Clone, Copy, PartialEq, Eq, Structural)]
pub enum Method {
    /// Asks for something.
    Get,
    /// Hands something over.
    Post,
}

/// A request to the server.
#[derive(Debug)]
pub struct Request {
    /// The method.
    pub method: Method,
    /// The path at the server, with which the request is logged.
    pub path: String,
    /// The whole URL, without the query.
    pub url: String,
    /// The bytes that are handed over.
    pub body: Vec<u8>,
    /// The names and values of the query.
    pub query: Vec<(String, String)>,
}

impl Request {
    /// Whether this asks the server at `base` for `path`.
    pub open spec fn is_get(self, base: Seq<char>, path: Seq<char>) -> bool {
        &&& self.method == Method::Get
        &&& self.path@ == path
        &&& self.url@ == base + path
        &&& self.body@.len() == 0
        &&& self.query@.len() == 0
    }

    /// Whether this hands `body` over to `path` at the server at `base`.
    pub open spec fn is_post(
        self,
        base: Seq<char>,
        path: Seq<char>,
        body: Seq<u8>,
        query: Seq<(Seq<char>, Seq<char>)>,
    ) -> bool {
        &&& self.method == Method::Post
        &&& self.path@ == path
        &&& self.url@ == base + path
        &&& self.body@ == body
        &&& query_texts(self.query@) == query
    }
}

/// The names and values of a query, as text.
pub open spec fn query_texts(query: Seq<(String, String)>) -> Seq<(Seq<char>, Seq<char>)> {
    query.map_values(|q: (String, String)| (q.0@, q.1@))
}

/// Puts `middle` between `before` and `after`.
pub fn surround(before: &str, middle: &str, after: &str) -> (s: String)
    ensures
        s@ == before@ + middle@ + after@,
{
    let mut s = before.to_owned();
    s.append(middle);
    s.append(after);
    s
}

/// Asks the server at `base` for `path`.
pub fn get(base: &str, path: String) -> (request: Request)
    ensures
        request.is_get(base@, path@),
        request.method == Method::Get,
        request.path@ == path@,
        request.url@ == base@ + path@,
        request.body@.len() == 0,
        request.query@.len() == 0,
{
    let mut url = base.to_owned();
    url.append(path.as_str());
    Request { method: Method::Get, path, url, body: Vec::new(), query: Vec::new() }
}

/// Hands `body` over to `path` at the server at `base`, with a query.
pub fn post(base: &str, path: &str, body: Vec<u8>, query: Vec<(String, String)>) -> (request: Request)
    ensures
        request.is_post(base@, path@, body@, query_texts(query@)),
        request.method == Method::Post,
        request.path@ == path@,
        request.url@ == base@ + path@,
        request.body@ == body@,
        request.query@ == query@,
{
    let mut url = base.to_owned();
    url.append(path);
    Request { method: Method::Post, path: path.to_owned(), url, body, query }
}

/// A request that asks for a path: its URL is the one of the server with the
/// path behind it, it is logged under the path, and it carries nothing else.
pub proof fn law_get_asks_for_the_path(request: Request, base: Seq<char>, path: Seq<char>)
    requires
        request.is_get(base, path),
    ensures
        request.method == Method::Get,
        request.path@ == path,
        request.url@.len() == base.len() + path.len(),
        request.url@.take(base.len() as int) == base,
        request.url@.skip(base.len() as int) == path,
        request.body@.len() == 0,
        request.query@.len() == 0,
{
    assert((base + path).take(base.len() as int) =~= base);
    assert((base + path).skip(base.len() as int) =~= path);
}

/// A request that hands something over: its URL is the one of the server with
/// the path behind it, it carries all of the body and nothing else, and each
/// name and value of the query in its place.
pub proof fn law_post_hands_over_the_body(
    request: Request,
    base: Seq<char>,
    path: Seq<char>,
    body: Seq<u8>,
    query: Seq<(Seq<char>, Seq<char>)>,
)
    requires
        request.is_post(base, path, body, query),
    ensures
        request.method == Method::Post,
        request.path@ == path,
        request.url@.len() == base.len() + path.len(),
        request.url@.take(base.len() as int) == base,
        request.url@.skip(base.len() as int) == path,
        request.body@ == body,
        request.query@.len() == query.len(),
        forall|i: int|
            0 <= i < query.len() ==> (#[trigger] request.query@[i]).0@ == query[i].0
                && request.query@[i].1@ == query[i].1,
{
    assert((base + path).take(base.len() as int) =~= base);
    assert((base + path).skip(base.len() as int) =~= path);
    assert forall|i: int| 0 <= i < query.len() implies (#[trigger] request.query@[i]).0@
        == query[i].0 && request.query@[i].1@ == query[i].1 by {
        assert(query_texts(request.query@)[i] == query[i]);
    }
}

} // verus!
