//! The GET request of one call.

use vstd::prelude::*;
use vstd::string::StringExecFns;

use crate::newsdata_io::auth::Auth;
use crate::query::{pairs_of, Pair, QueryMap};

verus! {

/// One GET request, ready for a transport to send: the address, the query
/// parameters in the order in which they are attached, and the headers.
#[derive(Debug)]
pub struct Request {
    pub url: String,
    pub query: Vec<(String, String)>,
    pub headers: Vec<(String, String)>,
}

/// A request as text.
pub struct RequestModel {
    pub url: Seq<char>,
    pub query: Seq<Pair>,
    pub headers: Seq<Pair>,
}

impl View for Request {
    type V = RequestModel;

    open spec fn view(&self) -> RequestModel {
        RequestModel {
            url: self.url@,
            query: pairs_of(self.query@),
            headers: pairs_of(self.headers@),
        }
    }
}

/// The request for the endpoint `sub_url`: its address under the base of the
/// upstream API, the credential as the parameter `apikey`, then the
/// parameters given, and the one header that announces JSON.
pub open spec fn request_of(api_key: Seq<char>, sub_url: Seq<char>, query: Seq<Pair>)
    -> RequestModel {
    RequestModel {
        url: "https://newsdata.io/api/1/"@ + sub_url,
        query: seq![("apikey"@, api_key)] + query,
        headers: seq![("Content-Type"@, "application/json"@)],
    }
}

/// The parameters of a call, none where no query map is given.
pub open spec fn parameters(query_params: Option<QueryMap>) -> Seq<Pair> {
    match query_params {
        Some(query) => query.pairs(),
        None => Seq::empty(),
    }
}

impl Request {
    /// Composes the GET request for the endpoint `sub_url` with the
    /// credential of `auth` and the parameters of `query_params`.
    pub fn get(auth: &Auth, sub_url: &str, query_params: Option<QueryMap>) -> (request: Request)
        ensures
            request@ == request_of(auth.key(), sub_url@, parameters(query_params)),
    {
        let ghost given = parameters(query_params);
        let url = "https://newsdata.io/api/1/".to_owned().concat(sub_url);
        let mut query = match query_params {
            Some(map) => map.into_entries(),
            None => Vec::new(),
        };
        assert(pairs_of(query@) == given);
        query.insert(0, ("apikey".to_owned(), auth.get_api_key()));
        let mut headers: Vec<(String, String)> = Vec::new();
        headers.push(("Content-Type".to_owned(), "application/json".to_owned()));
        let request = Request { url, query, headers };
        proof {
            let model = request_of(auth.key(), sub_url@, given);
            assert(request@.query =~= model.query);
            assert(request@.headers =~= model.headers);
        }
        request
    }
}

} // verus!
