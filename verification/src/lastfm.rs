use vstd::prelude::*;

verus! {

/// The kind of rate limiting the Last.fm client detected.
#[derive(Debug, Clone, PartialEq)]
pub enum RateLimitType {
    Http429,
    Http403,
    Http503,
    ResponsePattern,
}

/// How the derived `Debug` of the client's rate-limit kind renders each variant: its name.
pub open spec fn rate_limit_type_name(t: RateLimitType) -> Seq<char> {
    match t {
        RateLimitType::Http429 => "Http429"@,
        RateLimitType::Http403 => "Http403"@,
        RateLimitType::Http503 => "Http503"@,
        RateLimitType::ResponsePattern => "ResponsePattern"@,
    }
}

impl RateLimitType {
    /// The variant's name, as the client's `Debug` output shows it.
    pub fn debug_name(&self) -> (r: &'static str)
        ensures
            r@ == rate_limit_type_name(*self),
    {
        match self {
            RateLimitType::Http429 => "Http429",
            RateLimitType::Http403 => "Http403",
            RateLimitType::Http503 => "Http503",
            RateLimitType::ResponsePattern => "ResponsePattern",
        }
    }
}

/// A request the Last.fm client made, as plain values.
#[derive(Debug, Clone, PartialEq)]
pub struct RequestInfo {
    pub method: String,
    pub uri: String,
    pub query_params: Vec<(String, String)>,
    pub path: String,
}

/// Query parameters taken by their text.
pub open spec fn params_view(v: Seq<(String, String)>) -> Seq<(Seq<char>, Seq<char>)> {
    v.map_values(|p: (String, String)| (p.0@, p.1@))
}

/// `key=value`
pub open spec fn param_text(p: (Seq<char>, Seq<char>)) -> Seq<char> {
    p.0 + "="@ + p.1
}

/// A request in a few words: the method and the path, then the query parameters, all of them
/// joined by `&` when there are at most two, else the first one followed by `...`.
pub open spec fn request_short_description(
    method: Seq<char>,
    path: Seq<char>,
    params: Seq<(Seq<char>, Seq<char>)>,
) -> Seq<char> {
    method + " "@ + path + if params.len() == 0 {
        Seq::<char>::empty()
    } else if params.len() == 1 {
        "?"@ + param_text(params[0])
    } else if params.len() == 2 {
        "?"@ + param_text(params[0]) + "&"@ + param_text(params[1])
    } else {
        "?"@ + param_text(params[0]) + "..."@
    }
}

/// Calls `lastfm_edit::RequestInfo::short_description` on the same request; claims the text
/// that its source builds: `method path`, then `?k=v` for one parameter, `?k=v&k=v` for two,
/// `?k=v...` (the first only) for more.
#[verifier::external_body]
pub(crate) fn short_description(req: &RequestInfo) -> (r: String)
    ensures
        r@ == request_short_description(req.method@, req.path@, params_view(req.query_params@)),
{
    lastfm_edit::RequestInfo {
        method: req.method.clone(),
        uri: req.uri.clone(),
        query_params: req.query_params.clone(),
        path: req.path.clone(),
    }.short_description()
}

/// What the Last.fm client reported, as far as the library reads it.
#[allow(inconsistent_fields)]
#[derive(Debug, Clone, PartialEq)]
pub enum ClientEventKind {
    RateLimited {
        delay_seconds: u64,
        request: Option<RequestInfo>,
        rate_limit_type: RateLimitType,
        rate_limit_timestamp: u64,
    },
    RateLimitEnded {
        request: RequestInfo,
        rate_limit_type: RateLimitType,
        total_rate_limit_duration_seconds: u64,
    },
    Other,
}

/// A client event together with its `Debug` text.
#[derive(Debug, Clone, PartialEq)]
pub struct ClientEvent {
    pub kind: ClientEventKind,
    pub debug_text: String,
}

} // verus!
