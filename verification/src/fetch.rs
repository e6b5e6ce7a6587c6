//! One reply of the API: reading the body, telling an error envelope from a
//! payload, and the addresses that requests go to.

use crate::json::{json_of_text, parse, Json};
use crate::text::{contains, decimal, decimal_text, is_infix};
use vstd::prelude::*;
use vstd::string::*;

verus! {

/// Why a request gave no payload.
#[derive(Clone, Copy, Debug, PartialEq, Eq, Structural, Hash)]
pub enum FetchError {
    /// The API asked the caller to slow down: repeat after a cool-down,
    /// without counting the attempt.
    RateLimited,
    /// The transport failed: repeat, counting the attempt.
    Transient,
    /// The resource is not there: final, and an answer rather than a failure.
    NotFound,
    /// Access to the resource is denied: final.
    Forbidden,
    /// The reply has no shape that the caller can use: final.
    Malformed,
}

/// The sentence by which the API announces a rate limit.
pub open spec fn rate_limit_notice() -> Seq<char> {
    "API rate limit exceeded"@
}

/// The error that a document announces, going by the envelope that GitHub
/// wraps its errors in: a `message` that names the rate limit, else the
/// `status` code `404` or `403`, else any other document with a `message`.
/// `None` for a document that is no envelope.
pub open spec fn envelope_error(doc: Json) -> Option<FetchError> {
    if doc.field_text("message"@) is Some && is_infix(
        doc.field_text("message"@)->0,
        rate_limit_notice(),
    ) {
        Some(FetchError::RateLimited)
    } else if doc.field_text("status"@) == Some("404"@) {
        Some(FetchError::NotFound)
    } else if doc.field_text("status"@) == Some("403"@) {
        Some(FetchError::Forbidden)
    } else if doc.field_text("message"@) is Some {
        Some(FetchError::Malformed)
    } else {
        None
    }
}

/// What a reply amounts to before anyone looks into the document: no body at
/// all is a transport failure, a body that is no JSON is malformed.
pub open spec fn reply_of(body: Option<Seq<char>>) -> Result<Json, FetchError> {
    match body {
        None => Err(FetchError::Transient),
        Some(text) => match json_of_text(text) {
            Some(doc) => Ok(doc),
            None => Err(FetchError::Malformed),
        },
    }
}

/// The characters of an optional string slice.
pub open spec fn body_text(body: Option<&str>) -> Option<Seq<char>> {
    match body {
        Some(s) => Some(s@),
        None => None,
    }
}

/// Tells an error envelope from a payload.
pub fn classify(doc: &Json) -> (r: Option<FetchError>)
    ensures
        r == envelope_error(*doc),
{
    let limited = match doc.get_str("message") {
        Some(m) => contains(m, "API rate limit exceeded"),
        None => false,
    };
    if limited {
        Some(FetchError::RateLimited)
    } else if doc.has_text("status", "404") {
        Some(FetchError::NotFound)
    } else if doc.has_text("status", "403") {
        Some(FetchError::Forbidden)
    } else if doc.get_str("message").is_some() {
        Some(FetchError::Malformed)
    } else {
        None
    }
}

/// Reads the reply to one request. `body` is `None` where the transport
/// failed before a body could be read.
pub fn read_reply(body: Option<&str>) -> (r: Result<Json, FetchError>)
    ensures
        r == reply_of(body_text(body)),
{
    match body {
        None => Err(FetchError::Transient),
        Some(text) => match parse(text) {
            Some(doc) => Ok(doc),
            None => Err(FetchError::Malformed),
        },
    }
}

/// A reply with the error envelope told from the payload: a document that
/// announces an error stands for that error, every other document for
/// itself.
pub open spec fn classified(reply: Result<Json, FetchError>) -> Result<Json, FetchError> {
    match reply {
        Err(e) => Err(e),
        Ok(doc) => match envelope_error(doc) {
            Some(e) => Err(e),
            None => Ok(doc),
        },
    }
}

/// Reads the reply to one request and tells an error envelope from a
/// payload: the document, or the reason why there is none. No body is a
/// transport failure, a body that is no JSON is malformed, and an envelope
/// gives the error that it announces.
pub fn fetch_outcome(body: Option<&str>) -> (r: Result<Json, FetchError>)
    ensures
        r == classified(reply_of(body_text(body))),
{
    match read_reply(body) {
        Err(e) => Err(e),
        Ok(doc) => match classify(&doc) {
            Some(e) => Err(e),
            None => Ok(doc),
        },
    }
}

/// Telling the envelope from the payload a second time changes nothing.
pub proof fn lemma_classified_once(reply: Result<Json, FetchError>)
    ensures
        classified(classified(reply)) == classified(reply),
{
}

/// A listing to fetch page by page.
#[derive(Debug)]
pub struct Listing {
    /// The path on the API host, from the first slash.
    pub path: String,
    /// How many items to ask for on a page.
    pub page_size: u8,
    /// How many attempts a page gets while the transport fails.
    pub retries: u8,
    /// Further query parameters, written as they go into the address.
    pub params: Option<String>,
}

/// The host that every request goes to.
pub open spec fn api_host() -> Seq<char> {
    "https://api.github.com"@
}

/// The query that follows the path of a single request.
pub open spec fn item_query(params: Option<Seq<char>>) -> Seq<char> {
    match params {
        Some(p) => "?"@ + p,
        None => Seq::empty(),
    }
}

/// The parameters that follow the page number of a listing request.
pub open spec fn page_suffix(params: Option<Seq<char>>) -> Seq<char> {
    match params {
        Some(p) => "&"@ + p,
        None => Seq::empty(),
    }
}

/// The address of a single request.
pub open spec fn item_address(path: Seq<char>, params: Option<Seq<char>>) -> Seq<char> {
    api_host() + path + item_query(params)
}

/// The address of one page of a listing.
pub open spec fn page_address(
    path: Seq<char>,
    page_size: nat,
    page: nat,
    params: Option<Seq<char>>,
) -> Seq<char> {
    api_host() + path + "?per_page="@ + decimal_text(page_size) + "&page="@ + decimal_text(page)
        + page_suffix(params)
}

/// The address of a single request.
pub fn item_url(path: &str, params: Option<&str>) -> (r: String)
    ensures
        r@ == item_address(path@, body_text(params)),
{
    let mut s = "https://api.github.com".to_owned();
    s.append(path);
    match params {
        Some(p) => {
            let mut q = "?".to_owned();
            q.append(p);
            s.append(q.as_str());
        },
        None => {
            assert(s@ + Seq::<char>::empty() =~= s@);
        },
    }
    s
}

impl Listing {
    /// The parameters of the listing as characters.
    pub open spec fn params_text(self) -> Option<Seq<char>> {
        match self.params {
            Some(p) => Some(p@),
            None => None,
        }
    }

    /// The address of page `page` of the listing.
    pub fn page_url(&self, page: u64) -> (r: String)
        ensures
            r@ == page_address(
                self.path@,
                self.page_size as nat,
                page as nat,
                self.params_text(),
            ),
    {
        let mut s = "https://api.github.com".to_owned();
        s.append(self.path.as_str());
        s.append("?per_page=");
        s.append(decimal(self.page_size as u64).as_str());
        s.append("&page=");
        s.append(decimal(page).as_str());
        match &self.params {
            Some(p) => {
                let mut q = "&".to_owned();
                q.append(p.as_str());
                s.append(q.as_str());
            },
            None => {
                assert(s@ + Seq::<char>::empty() =~= s@);
            },
        }
        s
    }
}

} // verus!
