//! The client value and the requests it prepares: every request goes to the
//! client's base URL followed by an endpoint path, with the shared secret
//! appended under the reserved name `key` as the last query parameter.
use vstd::prelude::*;
use vstd::string::StringExecFns;

verus! {

/// A request ready to be sent: the full URL and its query parameters, in
/// order.
#[derive(Debug, Clone)]
pub struct Request {
    pub url: String,
    pub query: Vec<(String, String)>,
}

/// The query parameters as pairs of character sequences.
pub open spec fn query_view(q: Seq<(String, String)>) -> Seq<(Seq<char>, Seq<char>)> {
    q.map_values(|p: (String, String)| (p.0@, p.1@))
}

/// What can prepare authenticated GET requests against a fixed base URL.
pub trait HttpClient: Sized {
    /// The base URL that every endpoint path is appended to.
    spec fn base(&self) -> Seq<char>;

    /// The shared secret sent with every request.
    spec fn secret(&self) -> Seq<char>;

    fn build(base_url: String, secret: String) -> (r: Self)
        ensures
            r.base() == base_url@,
            r.secret() == secret@,
    ;

    /// Appends the shared secret to `params` under the name `key` and
    /// returns the URL of `endpoint`.
    fn get(&self, endpoint: String, params: &mut Vec<(String, String)>) -> (r: String)
        ensures
            r@ == self.base() + endpoint@,
            query_view(final(params)@) == query_view(old(params)@).push(("key"@, self.secret())),
    ;
}

/// The client of the remote API: an immutable base URL and shared secret.
#[derive(Debug, Clone)]
pub struct SteamClient {
    base_url: String,
    secret: String,
}

impl HttpClient for SteamClient {
    closed spec fn base(&self) -> Seq<char> {
        self.base_url@
    }

    closed spec fn secret(&self) -> Seq<char> {
        self.secret@
    }

    fn build(base_url: String, secret: String) -> (r: SteamClient) {
        SteamClient { base_url, secret }
    }

    fn get(&self, endpoint: String, params: &mut Vec<(String, String)>) -> (r: String) {
        let ghost before = params@;
        params.push((String::from_str("key"), self.secret.clone()));
        proof {
            assert(query_view(params@) =~= query_view(before).push(("key"@, self.secret@)));
        }
        self.base_url.clone().concat(endpoint.as_str())
    }
}

} // verus!
