//! A fully described HTTP call: method, endpoint URL and merged query parameters.
use vstd::prelude::*;
use crate::params::{query_spec, Params};

verus! {

/// HTTP methods the service uses.
#[derive(Clone, Copy, Debug, PartialEq, Eq, Structural)]
pub enum Method {
    Get,
    Post,
    Put,
    Delete,
}

/// What the dispatcher sends: the bearer token is attached when it is issued.
pub struct Request {
    pub method: Method,
    pub url: String,
    pub params: Params,
}

/// The URL with its query string, when there is one.
pub open spec fn full_url_spec(url: Seq<char>, query: Seq<char>) -> Seq<char> {
    if query.len() == 0 {
        url
    } else {
        url + seq!['?'] + query
    }
}

impl Request {
    /// The wire form of the parameters.
    pub fn query(&self) -> (r: String)
        ensures
            r@ == query_spec(self.params@),
    {
        self.params.to_query()
    }

    /// Endpoint URL followed by '?' and the query string; the bare URL when the query is empty.
    pub fn full_url(&self) -> (r: String)
        ensures
            r@ == full_url_spec(self.url@, query_spec(self.params@)),
    {
        let q = self.params.to_query();
        let mut r = self.url.clone();
        if q.as_str().unicode_len() > 0 {
            proof { reveal_strlit("?"); }
            r.append("?");
            r.append(q.as_str());
        }
        r
    }
}

} // verus!
