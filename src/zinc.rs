//! Where records are published for search, and how that service is addressed.
use vstd::prelude::*;
use vstd::string::*;

verus! {

/// The search service's ingestion endpoint for one index, with its credentials.
#[derive(Debug)]
pub struct Zinc {
    url: String,
    token: String,
}

/// The JSON ingestion endpoint of `indice` on the host `base_url`.
pub open spec fn ingest_url(base_url: Seq<char>, indice: Seq<char>) -> Seq<char> {
    "https://"@ + base_url + "/api/default/"@ + indice + "/_json"@
}

impl View for Zinc {
    type V = (Seq<char>, Seq<char>);

    /// The endpoint and the token.
    closed spec fn view(&self) -> (Seq<char>, Seq<char>) {
        (self.url@, self.token@)
    }
}

impl Zinc {
    pub fn new(base_url: &str, indice: &str, token: &str) -> (r: Zinc)
        ensures
            r@ == (ingest_url(base_url@, indice@), token@),
    {
        let url = String::from_str("https://").concat(base_url).concat("/api/default/").concat(
            indice,
        ).concat("/_json");
        Zinc { url, token: token.to_owned() }
    }

    /// Where `publish` posts.
    pub fn url(&self) -> (r: &str)
        ensures
            r@ == self@.0,
    {
        self.url.as_str()
    }

    /// The authorization header value: `Basic ` and the token.
    pub fn authorization(&self) -> (r: String)
        ensures
            r@ == "Basic "@ + self@.1,
    {
        String::from_str("Basic ").concat(self.token.as_str())
    }

    /// Whether a publish answered with this HTTP status succeeded: only 200 does.
    pub fn accepts(status: u16) -> (r: bool)
        ensures
            r == (status == 200),
    {
        status == 200
    }
}

} // verus!
