//! The decisions of the HTTP transport: which API tokens are acceptable,
//! which base URLs may be used, and how the URL of an account endpoint is
//! built from the base URL, the account ID and the path segments.
use crate::errors::APIError;
use crate::text::{copy_string, str_eq, trim, trim_ws, views};
use crate::url::Url;
use vstd::prelude::*;
use vstd::string::StringSliceAdditionalSpecFns;

verus! {

/// Base URL for the OANDA live/production trading environment.
pub const FX_TRADE_URL: &'static str = "https://api-fxtrade.oanda.com";

/// Base URL for the OANDA practice (paper trading) environment.
pub const FX_TRADE_PRACTICE_URL: &'static str = "https://api-fxpractice.oanda.com";

/// Base URL for the OANDA live streaming environment.
pub const FX_TRADE_STREAMING_URL: &'static str = "https://stream-fxtrade.oanda.com";

/// Base URL for the OANDA practice streaming environment.
pub const FX_TRADE_PRACTICE_STREAMING_URL: &'static str = "https://stream-fxpractice.oanda.com";

/// `Accept` header value of the REST client.
pub const ACCEPT_JSON: &'static str = "application/json";

/// `Accept` header value of the streaming client.
pub const ACCEPT_STREAM: &'static str = "application/octet-stream";

/// ASCII whitespace (`u8::is_ascii_whitespace`).
pub open spec fn is_ascii_whitespace_byte(b: u8) -> bool {
    b == 32 || b == 9 || b == 10 || b == 12 || b == 13
}

/// ASCII control bytes (`u8::is_ascii_control`).
pub open spec fn is_ascii_control_byte(b: u8) -> bool {
    b < 32 || b == 127
}

/// An API token is acceptable when it is not empty and none of its bytes is
/// ASCII whitespace or an ASCII control character.
pub open spec fn token_acceptable(token: Seq<u8>) -> bool {
    &&& token.len() > 0
    &&& forall|i: int|
        0 <= i < token.len() ==> !is_ascii_whitespace_byte(#[trigger] token[i])
            && !is_ascii_control_byte(token[i])
}

/// A token is acceptable exactly when it is not empty and every byte of it
/// is above the space and is not DEL, whatever its length: every nonempty
/// token of printable ASCII without spaces is accepted (and so are the
/// bytes of non-ASCII characters), and one empty or holding a space, tab,
/// line break or other control byte is refused.
pub proof fn lemma_token_acceptable_bytes(token: Seq<u8>)
    ensures
        token_acceptable(token) <==> (token.len() > 0 && forall|i: int|
            0 <= i < token.len() ==> 32 < #[trigger] token[i] && token[i] != 127),
{
}

/// The message of an invalid request.
pub open spec fn invalid_request_message(e: APIError) -> Option<Seq<char>> {
    match e {
        APIError::InvalidRequest(m) => Some(m@),
        _ => None,
    }
}

/// An `APIError::InvalidRequest` with the given message.
pub fn invalid_request(message: &str) -> (e: APIError)
    ensures
        invalid_request_message(e) == Some(message@),
{
    APIError::InvalidRequest(String::from_str(message))
}

/// Checks an API token before a client is built with it.
pub fn validate_api_token(api_key: &str) -> (r: Result<(), APIError>)
    ensures
        r is Ok <==> token_acceptable(api_key.spec_bytes()),
        r matches Err(e) ==> invalid_request_message(e) == Some(
            "API token must be nonempty and contain no whitespace or control characters"@,
        ),
{
    let bytes = api_key.as_bytes();
    let mut ok = bytes.len() > 0;
    let mut i: usize = 0;
    while i < bytes.len()
        invariant
            i <= bytes@.len(),
            bytes@ == api_key.spec_bytes(),
            ok == (bytes@.len() > 0 && forall|j: int|
                0 <= j < i ==> !is_ascii_whitespace_byte(#[trigger] bytes@[j])
                    && !is_ascii_control_byte(bytes@[j])),
        decreases bytes.len() - i,
    {
        let b = bytes[i];
        if b == 32 || b == 9 || b == 10 || b == 12 || b == 13 || b < 32 || b == 127 {
            ok = false;
        }
        i = i + 1;
    }
    if ok {
        Ok(())
    } else {
        Err(
            invalid_request(
                "API token must be nonempty and contain no whitespace or control characters",
            ),
        )
    }
}

/// The `Authorization` header value of an API token, `Bearer` and the
/// token, once the token is checked with [`validate_api_token`].
pub fn authorization_value(api_key: &str) -> (r: Result<String, APIError>)
    ensures
        r is Ok <==> token_acceptable(api_key.spec_bytes()),
        r matches Ok(v) ==> v@ == "Bearer "@ + api_key@,
        r matches Err(e) ==> invalid_request_message(e) == Some(
            "API token must be nonempty and contain no whitespace or control characters"@,
        ),
{
    validate_api_token(api_key)?;
    Ok(crate::text::concat("Bearer ", api_key))
}

/// A base URL is acceptable when it is an HTTP(S) URL with a host and
/// without credentials, query or fragment.
pub open spec fn base_url_acceptable(url: Url) -> bool {
    &&& (url@.base.scheme == "http"@ || url@.base.scheme == "https"@)
    &&& url@.base.host is Some
    &&& url@.base.username.len() == 0
    &&& url@.base.password is None
    &&& url@.base.query is None
    &&& url@.pairs.len() == 0
    &&& url@.base.fragment is None
}

/// Checks a base URL before it replaces a client's endpoint.
pub fn validate_base_url(url: &Url) -> (r: Result<(), APIError>)
    ensures
        r is Ok <==> base_url_acceptable(*url),
        r matches Err(e) ==> invalid_request_message(e) == Some(
            "Base URL must be an HTTP(S) URL without credentials, query, or fragment"@,
        ),
{
    let scheme = url.scheme();
    let http_scheme = str_eq(scheme, "http") || str_eq(scheme, "https");
    if !http_scheme || !url.has_host() || url.username().unicode_len() != 0 || url.has_password()
        || url.has_query() || url.has_fragment() {
        Err(
            invalid_request(
                "Base URL must be an HTTP(S) URL without credentials, query, or fragment",
            ),
        )
    } else {
        Ok(())
    }
}

/// The path segments `""`, `"."` and `".."`, which cannot stand for an ID
/// in a URL path.
pub open spec fn is_reserved_segment(s: Seq<char>) -> bool {
    s.len() == 0 || (s.len() == 1 && s[0] == '.') || (s.len() == 2 && s[0] == '.' && s[1] == '.')
}

/// Whether `segment` is `""`, `"."` or `".."`.
pub fn reserved_segment(segment: &str) -> (b: bool)
    ensures
        b == is_reserved_segment(segment@),
{
    let n = segment.unicode_len();
    n == 0 || (n == 1 && segment.get_char(0) == '.') || (n == 2 && segment.get_char(0) == '.'
        && segment.get_char(1) == '.')
}

/// The first reserved segment, if any.
pub open spec fn first_reserved(segments: Seq<Seq<char>>) -> Option<int> {
    if exists|i: int| 0 <= i < segments.len() && is_reserved_segment(#[trigger] segments[i]) {
        Some(
            choose|i: int|
                0 <= i < segments.len() && is_reserved_segment(#[trigger] segments[i]) && forall|
                    j: int,
                | 0 <= j < i ==> !is_reserved_segment(#[trigger] segments[j]),
        )
    } else {
        None
    }
}

/// What `api_url` gives for a base URL and path segments: the error message
/// when it refuses them, or the value of the URL it builds.
pub open spec fn api_url_outcome(base: Url, segments: Seq<Seq<char>>) -> Result<
    (Seq<Seq<char>>, Seq<(Seq<char>, Seq<char>)>),
    Seq<char>,
> {
    if exists|i: int| 0 <= i < segments.len() && is_reserved_segment(#[trigger] segments[i]) {
        Err("Invalid URL path segment \""@ + segments[first_reserved(segments)->0] + "\""@)
    } else if base@.base.cannot_be_a_base {
        Err("Base URL cannot have a path"@)
    } else {
        Ok((base@.segments + segments, base@.pairs))
    }
}

/// The contract of the URL builders: `r` is what `api_url_outcome` says,
/// and a built URL keeps the base's parts.
pub open spec fn url_matches(r: Result<Url, APIError>, base: Url, outcome: Result<
    (Seq<Seq<char>>, Seq<(Seq<char>, Seq<char>)>),
    Seq<char>,
>) -> bool {
    match outcome {
        Ok((segments, pairs)) => match r {
            Ok(u) => u@.base == base@.base && u@.segments == segments && u@.pairs == pairs,
            Err(_) => false,
        },
        Err(m) => match r {
            Ok(_) => false,
            Err(e) => invalid_request_message(e) == Some(m),
        },
    }
}

proof fn lemma_first_reserved(segments: Seq<Seq<char>>, i: int)
    requires
        0 <= i < segments.len(),
        is_reserved_segment(segments[i]),
        forall|j: int| 0 <= j < i ==> !is_reserved_segment(#[trigger] segments[j]),
    ensures
        first_reserved(segments) == Some(i),
{
    let k = first_reserved(segments)->0;
    assert(0 <= k < segments.len() && is_reserved_segment(segments[k]) && forall|j: int|
        0 <= j < k ==> !is_reserved_segment(#[trigger] segments[j]));
    if k < i {
        assert(!is_reserved_segment(segments[k]));
    } else if i < k {
        assert(!is_reserved_segment(segments[i]));
    }
}

/// Appends path segments to `base`, keeping any path prefix already on
/// `base` (for example a gateway mounted at `https://host/oanda/`).
///
/// Refuses an empty, `.` or `..` segment, which the `url` crate would drop
/// or turn into `//`, and a base URL that cannot have a path.
pub fn api_url(base: &Url, segments: &Vec<String>) -> (r: Result<Url, APIError>)
    ensures
        url_matches(r, *base, api_url_outcome(*base, views(segments@))),
{
    let ghost segs = views(segments@);
    let mut i: usize = 0;
    while i < segments.len()
        invariant
            i <= segments.len(),
            segs == views(segments@),
            forall|j: int| 0 <= j < i ==> !is_reserved_segment(#[trigger] segs[j]),
        decreases segments.len() - i,
    {
        if reserved_segment(segments[i].as_str()) {
            proof {
                lemma_first_reserved(segs, i as int);
            }
            let mut message = String::from_str("Invalid URL path segment \"");
            message.append(segments[i].as_str());
            message.append("\"");
            return Err(APIError::InvalidRequest(message));
        }
        i = i + 1;
    }
    if base.cannot_be_a_base() {
        return Err(invalid_request("Base URL cannot have a path"));
    }
    Ok(base.with_segments(segments))
}

/// The segments of an account endpoint: `v3`, `accounts`, the account ID
/// with surrounding whitespace removed, then `suffix`.
pub open spec fn account_segments(account_id: Seq<char>, suffix: Seq<Seq<char>>) -> Seq<Seq<char>> {
    seq!["v3"@, "accounts"@, trim_ws(account_id)] + suffix
}

/// What `account_url` gives: a missing or blank account ID is refused, and
/// otherwise the outcome is that of `api_url` on the account segments.
pub open spec fn account_url_outcome(base: Url, account: Option<Seq<char>>, suffix: Seq<Seq<char>>) -> Result<
    (Seq<Seq<char>>, Seq<(Seq<char>, Seq<char>)>),
    Seq<char>,
> {
    match account {
        Some(id) if trim_ws(id).len() > 0 => api_url_outcome(base, account_segments(id, suffix)),
        _ => Err("Missing account_id"@),
    }
}

/// Builds a URL rooted at `/v3/accounts/{accountID}` below `base`, appending
/// each element of `suffix` as a path segment of its own.
///
/// The account ID is trimmed of surrounding whitespace; a missing or blank
/// one is refused with [`APIError::InvalidRequest`].
pub fn account_url(base: &Url, account: Option<&String>, suffix: &Vec<String>) -> (r: Result<
    Url,
    APIError,
>)
    ensures
        url_matches(
            r,
            *base,
            account_url_outcome(
                *base,
                match account {
                    Some(a) => Some(a@),
                    None => None,
                },
                views(suffix@),
            ),
        ),
{
    let id = match account {
        Some(a) => trim(a.as_str()),
        None => {
            return Err(invalid_request("Missing account_id"));
        },
    };
    if id.as_str().unicode_len() == 0 {
        return Err(invalid_request("Missing account_id"));
    }
    let mut segments: Vec<String> = Vec::new();
    segments.push(String::from_str("v3"));
    segments.push(String::from_str("accounts"));
    segments.push(id);
    let ghost head = views(segments@);
    let mut i: usize = 0;
    while i < suffix.len()
        invariant
            i <= suffix.len(),
            views(segments@) == head + views(suffix@).take(i as int),
        decreases suffix.len() - i,
    {
        let ghost before = segments@;
        segments.push(copy_string(&suffix[i]));
        proof {
            assert(views(segments@) =~= views(before).push(suffix@[i as int]@));
            assert(views(suffix@).take(i + 1) =~= views(suffix@).take(i as int).push(
                suffix@[i as int]@,
            ));
        }
        i = i + 1;
    }
    proof {
        assert(views(suffix@).take(suffix.len() as int) =~= views(suffix@));
        let account_view = match account {
            Some(a) => a@,
            None => Seq::<char>::empty(),
        };
        assert(head =~= seq!["v3"@, "accounts"@, trim_ws(account_view)]);
    }
    api_url(base, &segments)
}

/// The endpoint and default account shared by the REST and streaming
/// clients.
pub struct Connection {
    /// The URL that every request path is appended to.
    pub base_url: Url,
    /// The default account of the endpoints that need one.
    pub account_id: Option<String>,
}

impl Connection {
    /// A connection to `base_url` without a default account.
    pub fn new(base_url: Url) -> (c: Connection)
        ensures
            c.base_url@ == base_url@,
            c.account_id is None,
    {
        Connection { base_url, account_id: None }
    }

    /// Replaces the base URL, after checking it with [`validate_base_url`].
    /// A refused URL leaves the connection unchanged.
    pub fn set_base_url(&mut self, url: Url) -> (r: Result<(), APIError>)
        ensures
            r is Ok <==> base_url_acceptable(url),
            r is Ok ==> final(self).base_url@ == url@,
            r is Err ==> final(self).base_url@ == old(self).base_url@,
            r matches Err(e) ==> invalid_request_message(e) == Some(
                "Base URL must be an HTTP(S) URL without credentials, query, or fragment"@,
            ),
            final(self).account_id.deep_view() == old(self).account_id.deep_view(),
    {
        validate_base_url(&url)?;
        self.base_url = url;
        Ok(())
    }

    /// Sets the default account.
    pub fn set_account_id(&mut self, account_id: String)
        ensures
            final(self).base_url@ == old(self).base_url@,
            final(self).account_id.deep_view() == Some(account_id@),
    {
        self.account_id = Some(account_id);
    }

    /// The URL of an endpoint of the default account: `suffix` below
    /// `/v3/accounts/{accountID}`.
    pub fn account_url(&self, suffix: &Vec<String>) -> (r: Result<Url, APIError>)
        ensures
            url_matches(
                r,
                self.base_url,
                account_url_outcome(self.base_url, self.account_id.deep_view(), views(suffix@)),
            ),
    {
        account_url(&self.base_url, self.account_id.as_ref(), suffix)
    }
}


/// An account endpoint is refused, whatever the base URL and the path
/// after the account, when no account ID is set or the one set is blank.
pub proof fn lemma_missing_account_is_refused(
    base: Url,
    account: Option<Seq<char>>,
    suffix: Seq<Seq<char>>,
)
    requires
        account is None || trim_ws(account->0).len() == 0,
    ensures
        account_url_outcome(base, account, suffix) == Err::<
            (Seq<Seq<char>>, Seq<(Seq<char>, Seq<char>)>),
            Seq<char>,
        >("Missing account_id"@),
{
}

/// A built account URL keeps the base URL's own path, and then holds
/// `v3`, `accounts`, the trimmed account ID and each element of `suffix`,
/// every one as a single path segment.
pub proof fn lemma_account_path_segments(
    base: Url,
    account: Seq<char>,
    suffix: Seq<Seq<char>>,
)
    requires
        trim_ws(account).len() > 0,
        !base@.base.cannot_be_a_base,
        forall|i: int| 0 <= i < suffix.len() ==> !is_reserved_segment(#[trigger] suffix[i]),
        !is_reserved_segment(trim_ws(account)),
    ensures
        account_url_outcome(base, Some(account), suffix) matches Ok((segments, pairs)) && segments
            == base@.segments + seq!["v3"@, "accounts"@, trim_ws(account)] + suffix && pairs
            == base@.pairs,
{
    reveal_strlit("v3");
    reveal_strlit("accounts");
    let segs = account_segments(account, suffix);
    assert forall|i: int| 0 <= i < segs.len() implies !is_reserved_segment(#[trigger] segs[i]) by {
        if i >= 3 {
            assert(segs[i] == suffix[i - 3]);
        }
    }
    assert(base@.segments + segs =~= base@.segments + seq!["v3"@, "accounts"@, trim_ws(account)]
        + suffix);
}

} // verus!
