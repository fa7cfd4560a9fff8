//! The remote catalog's requests, and what becomes of their answers.
//!
//! Requests are described here and performed by the caller; the caller
//! hands back the transport outcome and, where the body was JSON of the
//! expected shape, the decoded response.
use vstd::prelude::*;
use crate::models::{Card, ScryfallSearchResponse};

verus! {

/// The search endpoint; the query text follows it untransformed.
pub const SEARCH_ENDPOINT: &'static str = "https://api.scryfall.com/cards/search?&q=";

/// Timeout of every request, in seconds.
pub const REQUEST_TIMEOUT_SECS: u64 = 3;

/// Value of the `User-Agent` header sent with every request.
pub const USER_AGENT_VALUE: &'static str = "text/html,application/xhtml+xml,application/xml;q=0.9,*/*;q=0.8";

/// Value of the `Accept` header sent with every request.
pub const ACCEPT_VALUE: &'static str = "application/json";

/// Value of the `Accept-Encoding` header sent with every request.
pub const ACCEPT_ENCODING_VALUE: &'static str = "gzip, deflate, br, zstd";

/// Message of the error given for a printings body that does not decode.
pub const MALFORMED_PRINTINGS: &'static str = "malformed printings response";

/// A GET request to perform: its URL and timeout. The headers are the
/// fixed ones above.
pub struct Request {
    pub url: String,
    pub timeout_secs: u64,
}

/// Why a catalog request gave no result.
pub enum CatalogError {
    /// Connection, TLS or timeout failure, with the transport's message.
    Transport(String),
    /// A body that did not decode, with a message.
    Decode(String),
}

impl CatalogError {
    /// A status line for display.
    pub fn message(&self) -> (r: String)
        ensures
            r@ == match self {
                CatalogError::Transport(m) => "network error: "@ + m@,
                CatalogError::Decode(m) => "decode error: "@ + m@,
            },
    {
        match self {
            CatalogError::Transport(m) => {
                let mut r = String::from_str("network error: ");
                r.append(m.as_str());
                r
            },
            CatalogError::Decode(m) => {
                let mut r = String::from_str("decode error: ");
                r.append(m.as_str());
                r
            },
        }
    }
}

/// The URL of a search for `query`.
pub open spec fn search_url(query: Seq<char>) -> Seq<char> {
    SEARCH_ENDPOINT@ + query
}

/// The request of a search for `query`.
pub fn search_request(query: &str) -> (r: Request)
    ensures
        r.url@ == search_url(query@),
        r.timeout_secs == REQUEST_TIMEOUT_SECS,
{
    let mut url = String::from_str(SEARCH_ENDPOINT);
    url.append(query);
    Request { url, timeout_secs: REQUEST_TIMEOUT_SECS }
}

/// The request that looks up every printing of `card`.
pub fn printings_request(card: &Card) -> (r: Request)
    ensures
        r.url == card.prints_search_uri,
        r.timeout_secs == REQUEST_TIMEOUT_SECS,
{
    Request { url: card.prints_search_uri.clone(), timeout_secs: REQUEST_TIMEOUT_SECS }
}

/// The request that downloads one image.
pub fn image_request(uri: &str) -> (r: Request)
    ensures
        r.url@ == uri@,
        r.timeout_secs == REQUEST_TIMEOUT_SECS,
{
    Request { url: String::from_str(uri), timeout_secs: REQUEST_TIMEOUT_SECS }
}

/// The card list a search gives, from what the transport and the decoder
/// gave: a transport error stands; a body that did not decode counts as an
/// empty list.
pub open spec fn search_list(fetched: Result<Option<ScryfallSearchResponse>, CatalogError>) -> Result<
    Seq<Card>,
    CatalogError,
> {
    match fetched {
        Err(e) => Err(e),
        Ok(Some(d)) => Ok(d.data@),
        Ok(None) => Ok(Seq::empty()),
    }
}

/// Searching twice for the same text, with the catalog answering the same
/// both times, gives the same request and the same list, in the same order.
pub proof fn lemma_repeated_search_agrees(
    q1: Seq<char>,
    q2: Seq<char>,
    f1: Result<Option<ScryfallSearchResponse>, CatalogError>,
    f2: Result<Option<ScryfallSearchResponse>, CatalogError>,
)
    requires
        q1 == q2,
        f1 == f2,
    ensures
        search_url(q1) == search_url(q2),
        search_list(f1) == search_list(f2),
{
}

/// Ends a search: a transport error is returned as it is; a decoded
/// response is the result; a body that did not decode gives an empty
/// response rather than an error.
pub fn finish_search(fetched: Result<Option<ScryfallSearchResponse>, CatalogError>) -> (r: Result<
    ScryfallSearchResponse,
    CatalogError,
>)
    ensures
        match fetched {
            Err(e) => r == Err::<ScryfallSearchResponse, CatalogError>(e),
            Ok(Some(d)) => r == Ok::<ScryfallSearchResponse, CatalogError>(d),
            Ok(None) => r matches Ok(d) && d.data@.len() == 0 && d.total_cards is None,
        },
        match r {
            Ok(d) => search_list(fetched) == Ok::<Seq<Card>, CatalogError>(d.data@),
            Err(e) => search_list(fetched) == Err::<Seq<Card>, CatalogError>(e),
        },
{
    match fetched {
        Err(e) => Err(e),
        Ok(Some(d)) => Ok(d),
        Ok(None) => {
            let d = ScryfallSearchResponse::default();
            assert(d.data@ =~= Seq::<Card>::empty());
            Ok(d)
        },
    }
}

/// Ends a printings lookup: a transport error is returned as it is; a
/// body that did not decode is a decode error; else the printings, in
/// catalog order.
pub fn finish_printings(fetched: Result<Option<ScryfallSearchResponse>, CatalogError>) -> (r: Result<
    Vec<Card>,
    CatalogError,
>)
    ensures
        match fetched {
            Err(e) => r == Err::<Vec<Card>, CatalogError>(e),
            Ok(Some(d)) => r matches Ok(v) && v@ == d.data@,
            Ok(None) => r matches Err(CatalogError::Decode(m)) && m@ == MALFORMED_PRINTINGS@,
        },
{
    match fetched {
        Err(e) => Err(e),
        Ok(Some(d)) => Ok(d.data),
        Ok(None) => Err(CatalogError::Decode(String::from_str(MALFORMED_PRINTINGS))),
    }
}

} // verus!
