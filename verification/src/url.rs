//! URLs of API requests.
//!
//! A [`Url`] is a base URL that the `url` crate parsed, plus the path
//! segments and query pairs that the client appends to it. The client's own
//! decisions (which segments, which pairs, which base URLs are acceptable)
//! are made on these plain values; turning them into text, with the
//! percent-encoding that involves, is left to the `url` crate.
use crate::text::{copy_opt_string, copy_string, copy_strings, views};
use vstd::prelude::*;

verus! {

/// `url::ParseError`, carried through unchanged.
#[verifier::external_type_specification]
#[verifier::external_body]
pub struct ExUrlParseError(url::ParseError);

/// What the `url` crate reports of a parsed URL.
pub struct UrlParts {
    /// The serialization (`Url::as_str`).
    pub text: Seq<char>,
    /// The scheme, such as `https`.
    pub scheme: Seq<char>,
    /// The user name; empty when there is none.
    pub username: Seq<char>,
    /// The password, if any.
    pub password: Option<Seq<char>>,
    /// The host, if any (`Url::host_str`).
    pub host: Option<Seq<char>>,
    /// The query, if any, without the `?`.
    pub query: Option<Seq<char>>,
    /// The fragment, if any, without the `#`.
    pub fragment: Option<Seq<char>>,
    /// Whether the URL has an opaque path that segments cannot be added to.
    pub cannot_be_a_base: bool,
}

/// What the `url` crate gives for `url::Url::parse(input)`: the parts of
/// the URL, or `None` when it refuses the input.
pub uninterp spec fn url_parsed(input: Seq<char>) -> Option<UrlParts>;

/// The serialization that the `url` crate gives after parsing `text` and
/// appending `segments` to its path (`path_segments_mut().pop_if_empty().extend(..)`),
/// or `None` when it cannot.
pub uninterp spec fn url_path_extended(text: Seq<char>, segments: Seq<Seq<char>>) -> Option<
    Seq<char>,
>;

/// The serialization that the `url` crate gives after parsing `text` and
/// appending `pairs` to its query (`query_pairs_mut().extend_pairs(..)`), or
/// `None` when it cannot parse `text`.
pub uninterp spec fn url_pairs_appended(text: Seq<char>, pairs: Seq<(Seq<char>, Seq<char>)>) -> Option<
    Seq<char>,
>;

/// The path (`Url::path`) of the URL whose serialization is `text`.
pub uninterp spec fn url_path_of(text: Seq<char>) -> Option<Seq<char>>;

/// The query (`Url::query`) of the URL whose serialization is `text`.
pub uninterp spec fn url_query_of(text: Seq<char>) -> Option<Option<Seq<char>>>;

/// The decoded query pairs (`Url::query_pairs`) of the URL whose
/// serialization is `text`.
pub uninterp spec fn url_query_pairs_of(text: Seq<char>) -> Option<Seq<(Seq<char>, Seq<char>)>>;

/// The parts of a URL as the `url` crate parsed them.
pub struct UrlBase {
    text: String,
    scheme: String,
    username: String,
    password: Option<String>,
    host: Option<String>,
    query: Option<String>,
    fragment: Option<String>,
    cannot_be_a_base: bool,
}

impl View for UrlBase {
    type V = UrlParts;

    closed spec fn view(&self) -> UrlParts {
        UrlParts {
            text: self.text@,
            scheme: self.scheme@,
            username: self.username@,
            password: self.password.deep_view(),
            host: self.host.deep_view(),
            query: self.query.deep_view(),
            fragment: self.fragment.deep_view(),
            cannot_be_a_base: self.cannot_be_a_base,
        }
    }
}

impl UrlBase {
    fn copy(&self) -> (c: UrlBase)
        ensures
            c@ == self@,
    {
        UrlBase {
            text: copy_string(&self.text),
            scheme: copy_string(&self.scheme),
            username: copy_string(&self.username),
            password: copy_opt_string(&self.password),
            host: copy_opt_string(&self.host),
            query: copy_opt_string(&self.query),
            fragment: copy_opt_string(&self.fragment),
            cannot_be_a_base: self.cannot_be_a_base,
        }
    }
}

/// Calls `url::Url::parse` and reads the parts of the result with its
/// accessors (`as_str`, `scheme`, `username`, `password`, `host_str`,
/// `query`, `fragment`, `cannot_be_a_base`). The parts are `url_parsed` of
/// the input.
#[verifier::external_body]
fn parse_url_base(input: &str) -> (r: Result<UrlBase, url::ParseError>)
    ensures
        r is Ok <==> url_parsed(input@) is Some,
        r matches Ok(b) ==> url_parsed(input@) == Some(b@),
{
    match url::Url::parse(input) {
        Ok(u) => Ok(UrlBase {
            text: u.as_str().to_string(),
            scheme: u.scheme().to_string(),
            username: u.username().to_string(),
            password: u.password().map(str::to_string),
            host: u.host_str().map(str::to_string),
            query: u.query().map(str::to_string),
            fragment: u.fragment().map(str::to_string),
            cannot_be_a_base: u.cannot_be_a_base(),
        }),
        Err(e) => Err(e),
    }
}

/// Calls `url::Url::parse(text)`, then `path_segments_mut()`,
/// `pop_if_empty()` and `extend(segments)`, and returns the serialization;
/// the result is `url_path_extended` of the arguments.
#[verifier::external_body]
fn extend_url_path(text: &str, segments: &Vec<String>) -> (r: Option<String>)
    ensures
        r.deep_view() == url_path_extended(text@, views(segments@)),
{
    let mut u = match url::Url::parse(text) {
        Ok(u) => u,
        Err(_) => return None,
    };
    match u.path_segments_mut() {
        Ok(mut path) => {
            path.pop_if_empty().extend(segments.iter());
        },
        Err(()) => return None,
    }
    Some(u.as_str().to_string())
}

/// The views of a vector of string pairs.
pub open spec fn pair_views(v: Seq<(String, String)>) -> Seq<(Seq<char>, Seq<char>)> {
    Seq::new(v.len(), |i: int| (v[i].0@, v[i].1@))
}

/// Calls `url::Url::parse(text)`, then `query_pairs_mut().extend_pairs(pairs)`,
/// and returns the serialization; the result is `url_pairs_appended` of the
/// arguments.
#[verifier::external_body]
fn append_url_pairs(text: &str, pairs: &Vec<(String, String)>) -> (r: Option<String>)
    ensures
        r.deep_view() == url_pairs_appended(text@, pair_views(pairs@)),
{
    let mut u = match url::Url::parse(text) {
        Ok(u) => u,
        Err(_) => return None,
    };
    u.query_pairs_mut().extend_pairs(pairs.iter());
    Some(u.as_str().to_string())
}

/// Calls `url::Url::parse(text)` and then `path()`; the result is
/// `url_path_of` of the text.
#[verifier::external_body]
fn read_url_path(text: &str) -> (r: Option<String>)
    ensures
        r.deep_view() == url_path_of(text@),
{
    match url::Url::parse(text) {
        Ok(u) => Some(u.path().to_string()),
        Err(_) => None,
    }
}

/// Calls `url::Url::parse(text)` and then `query()`; the result is
/// `url_query_of` of the text.
#[verifier::external_body]
fn read_url_query(text: &str) -> (r: Option<Option<String>>)
    ensures
        r.deep_view() == url_query_of(text@),
{
    match url::Url::parse(text) {
        Ok(u) => Some(u.query().map(str::to_string)),
        Err(_) => None,
    }
}

/// Calls `url::Url::parse(text)` and collects `query_pairs()`; the result
/// is `url_query_pairs_of` of the text.
#[verifier::external_body]
fn read_url_query_pairs(text: &str) -> (r: Option<Vec<(String, String)>>)
    ensures
        match r {
            Some(v) => url_query_pairs_of(text@) == Some(pair_views(v@)),
            None => url_query_pairs_of(text@) is None,
        },
{
    match url::Url::parse(text) {
        Ok(u) => Some(u.query_pairs().into_owned().collect()),
        Err(_) => None,
    }
}

/// The serialization of a URL with `segments` appended to the path of the
/// base `text` and then `pairs` appended to its query; `None` when the `url`
/// crate cannot do so.
pub open spec fn rendered(text: Seq<char>, segments: Seq<Seq<char>>, pairs: Seq<(Seq<char>, Seq<char>)>) -> Option<
    Seq<char>,
> {
    let with_path = if segments.len() > 0 {
        url_path_extended(text, segments)
    } else {
        Some(text)
    };
    match with_path {
        Some(t) => if pairs.len() > 0 {
            url_pairs_appended(t, pairs)
        } else {
            Some(t)
        },
        None => None,
    }
}

/// A URL: a base that the `url` crate parsed, the path segments appended to
/// it and the query pairs appended to it, in order.
pub struct Url {
    base: UrlBase,
    segments: Vec<String>,
    pairs: Vec<(String, String)>,
}

/// The value of a [`Url`]: the parts of its base, then the appended path
/// segments and query pairs, unencoded.
pub struct UrlView {
    /// The parts of the base URL.
    pub base: UrlParts,
    /// Path segments appended to the base, in order.
    pub segments: Seq<Seq<char>>,
    /// Query pairs appended to the base, in order.
    pub pairs: Seq<(Seq<char>, Seq<char>)>,
}

impl View for Url {
    type V = UrlView;

    closed spec fn view(&self) -> UrlView {
        UrlView {
            base: self.base@,
            segments: views(self.segments@),
            pairs: pair_views(self.pairs@),
        }
    }
}

impl Url {
    /// Parses `input` with the `url` crate.
    pub fn parse(input: &str) -> (r: Result<Url, url::ParseError>)
        ensures
            r is Ok <==> url_parsed(input@) is Some,
            r matches Ok(u) ==> url_parsed(input@) == Some(u@.base) && u@.segments
                == Seq::<Seq<char>>::empty() && u@.pairs == Seq::<(Seq<char>, Seq<char>)>::empty(),
    {
        match parse_url_base(input) {
            Ok(base) => {
                let u = Url { base, segments: Vec::new(), pairs: Vec::new() };
                proof {
                    assert(u@.segments =~= Seq::<Seq<char>>::empty());
                    assert(u@.pairs =~= Seq::<(Seq<char>, Seq<char>)>::empty());
                }
                Ok(u)
            },
            Err(e) => Err(e),
        }
    }

    /// The scheme of the base URL.
    pub fn scheme(&self) -> (s: &str)
        ensures
            s@ == self@.base.scheme,
    {
        self.base.scheme.as_str()
    }

    /// The user name of the base URL; empty when there is none.
    pub fn username(&self) -> (s: &str)
        ensures
            s@ == self@.base.username,
    {
        self.base.username.as_str()
    }

    /// Whether the base URL has a password.
    pub fn has_password(&self) -> (b: bool)
        ensures
            b == self@.base.password is Some,
    {
        self.base.password.is_some()
    }

    /// Whether the base URL has a host.
    pub fn has_host(&self) -> (b: bool)
        ensures
            b == self@.base.host is Some,
    {
        self.base.host.is_some()
    }

    /// Whether the URL has a query: one in the base, or appended pairs.
    pub fn has_query(&self) -> (b: bool)
        ensures
            b == (self@.base.query is Some || self@.pairs.len() > 0),
    {
        self.base.query.is_some() || self.pairs.len() > 0
    }

    /// Whether the base URL has a fragment.
    pub fn has_fragment(&self) -> (b: bool)
        ensures
            b == self@.base.fragment is Some,
    {
        self.base.fragment.is_some()
    }

    /// Whether path segments cannot be appended to the base URL.
    pub fn cannot_be_a_base(&self) -> (b: bool)
        ensures
            b == self@.base.cannot_be_a_base,
    {
        self.base.cannot_be_a_base
    }

    /// A copy of the URL.
    pub fn copy(&self) -> (c: Url)
        ensures
            c@ == self@,
    {
        let mut pairs: Vec<(String, String)> = Vec::new();
        let mut i: usize = 0;
        while i < self.pairs.len()
            invariant
                i <= self.pairs.len(),
                pairs@.len() == i,
                forall|j: int|
                    0 <= j < i ==> (#[trigger] pairs@[j]).0@ == self.pairs@[j].0@ && pairs@[j].1@
                        == self.pairs@[j].1@,
            decreases self.pairs.len() - i,
        {
            let pair = (copy_string(&self.pairs[i].0), copy_string(&self.pairs[i].1));
            pairs.push(pair);
            i = i + 1;
        }
        let c = Url { base: self.base.copy(), segments: copy_strings(&self.segments), pairs };
        proof {
            assert(pair_views(pairs@) =~= pair_views(self.pairs@));
        }
        c
    }

    /// The URL with `extra` appended to its path segments.
    pub fn with_segments(&self, extra: &Vec<String>) -> (u: Url)
        ensures
            u@.base == self@.base,
            u@.segments == self@.segments + views(extra@),
            u@.pairs == self@.pairs,
    {
        let mut u = self.copy();
        let mut i: usize = 0;
        let ghost start = u.segments@;
        while i < extra.len()
            invariant
                i <= extra.len(),
                u.base@ == self@.base,
                pair_views(u.pairs@) == self@.pairs,
                views(u.segments@) == self@.segments + views(extra@).take(i as int),
            decreases extra.len() - i,
        {
            let ghost before = u.segments@;
            let s = copy_string(&extra[i]);
            u.segments.push(s);
            proof {
                assert(views(u.segments@) =~= views(before).push(extra@[i as int]@));
                assert(views(extra@).take(i + 1) =~= views(extra@).take(i as int).push(
                    extra@[i as int]@,
                ));
            }
            i = i + 1;
        }
        proof {
            assert(views(extra@).take(extra.len() as int) =~= views(extra@));
        }
        u
    }

    /// Appends the pair `key`, `value` to the query (as
    /// `query_pairs_mut().append_pair` does).
    pub fn append_pair(&mut self, key: &str, value: &str)
        ensures
            final(self)@.base == old(self)@.base,
            final(self)@.segments == old(self)@.segments,
            final(self)@.pairs == old(self)@.pairs.push((key@, value@)),
    {
        let ghost before = self.pairs@;
        self.pairs.push((String::from_str(key), String::from_str(value)));
        proof {
            assert(pair_views(self.pairs@) =~= pair_views(before).push((key@, value@)));
        }
    }

    /// The text of the URL, as the `url` crate writes it; `None` when it
    /// cannot re-read the base or append the segments.
    pub fn as_string(&self) -> (text: Option<String>)
        ensures
            text.deep_view() == rendered(self@.base.text, self@.segments, self@.pairs),
    {
        let with_path = if self.segments.len() > 0 {
            extend_url_path(self.base.text.as_str(), &self.segments)
        } else {
            Some(copy_string(&self.base.text))
        };
        match with_path {
            Some(t) => if self.pairs.len() > 0 {
                append_url_pairs(t.as_str(), &self.pairs)
            } else {
                Some(t)
            },
            None => None,
        }
    }

    /// The path of the URL (`Url::path`), percent-encoded.
    pub fn path(&self) -> (p: Option<String>)
        ensures
            p.deep_view() == match rendered(self@.base.text, self@.segments, self@.pairs) {
                Some(t) => url_path_of(t),
                None => None,
            },
    {
        match self.as_string() {
            Some(t) => read_url_path(t.as_str()),
            None => None,
        }
    }

    /// The query of the URL (`Url::query`), encoded.
    pub fn query(&self) -> (q: Option<Option<String>>)
        ensures
            q.deep_view() == match rendered(self@.base.text, self@.segments, self@.pairs) {
                Some(t) => url_query_of(t),
                None => None,
            },
    {
        match self.as_string() {
            Some(t) => read_url_query(t.as_str()),
            None => None,
        }
    }

    /// The decoded query pairs of the URL (`Url::query_pairs`).
    pub fn query_pairs(&self) -> (q: Option<Vec<(String, String)>>)
        ensures
            match rendered(self@.base.text, self@.segments, self@.pairs) {
                Some(t) => match q {
                    Some(v) => url_query_pairs_of(t) == Some(pair_views(v@)),
                    None => url_query_pairs_of(t) is None,
                },
                None => q is None,
            },
    {
        match self.as_string() {
            Some(t) => read_url_query_pairs(t.as_str()),
            None => None,
        }
    }
}


/// A query pair with `key` and the value, when there is one; nothing
/// otherwise.
pub open spec fn optional_pair(key: Seq<char>, value: Option<Seq<char>>) -> Seq<(Seq<char>, Seq<char>)> {
    match value {
        Some(v) => seq![(key, v)],
        None => Seq::<(Seq<char>, Seq<char>)>::empty(),
    }
}

/// A pair of either of two lists of pairs is a pair of the two joined.
pub proof fn lemma_joined_pairs_contain(
    a: Seq<(Seq<char>, Seq<char>)>,
    b: Seq<(Seq<char>, Seq<char>)>,
    x: (Seq<char>, Seq<char>),
)
    ensures
        a.contains(x) ==> (a + b).contains(x),
        b.contains(x) ==> (a + b).contains(x),
{
    if a.contains(x) {
        let i = choose|i: int| 0 <= i < a.len() && a[i] == x;
        assert((a + b)[i] == x);
    }
    if b.contains(x) {
        let i = choose|i: int| 0 <= i < b.len() && b[i] == x;
        assert((a + b)[a.len() + i] == x);
    }
}

/// Whether a query pair has the key `key`.
pub open spec fn key_is(key: Seq<char>) -> spec_fn((Seq<char>, Seq<char>)) -> bool {
    |p: (Seq<char>, Seq<char>)| p.0 == key
}

/// The pairs of `pairs` whose key is `key`, in their order.
pub open spec fn pairs_under(pairs: Seq<(Seq<char>, Seq<char>)>, key: Seq<char>) -> Seq<
    (Seq<char>, Seq<char>),
> {
    pairs.filter(key_is(key))
}

/// Taking the pairs under a key commutes with joining two lists of pairs.
pub proof fn lemma_pairs_under_concat(a: Seq<(Seq<char>, Seq<char>)>, b: Seq<(Seq<char>, Seq<char>)>)
    ensures
        forall|key: Seq<char>|
            #[trigger] pairs_under(a + b, key) == pairs_under(a, key) + pairs_under(b, key),
{
    assert forall|key: Seq<char>|
        #[trigger] pairs_under(a + b, key) == pairs_under(a, key) + pairs_under(b, key) by {
        Seq::filter_distributes_over_add(a, b, key_is(key));
    }
}

/// An optional pair is under `key` exactly when its own key is `key`.
pub proof fn lemma_pairs_under_optional(k: Seq<char>, v: Option<Seq<char>>)
    ensures
        forall|key: Seq<char>|
            #[trigger] pairs_under(optional_pair(k, v), key) == if k == key {
                optional_pair(k, v)
            } else {
                Seq::<(Seq<char>, Seq<char>)>::empty()
            },
{
    reveal_with_fuel(Seq::filter, 2);
    if v is Some {
        let s = optional_pair(k, v);
        assert(s.drop_last() =~= Seq::<(Seq<char>, Seq<char>)>::empty());
    }
}

impl Url {
    /// Appends the pair `key`, `value` when `value` is present.
    pub fn append_optional_pair(&mut self, key: &str, value: Option<&str>)
        ensures
            final(self)@.base == old(self)@.base,
            final(self)@.segments == old(self)@.segments,
            final(self)@.pairs == old(self)@.pairs + optional_pair(
                key@,
                match value {
                    Some(v) => Some(v@),
                    None => None,
                },
            ),
    {
        match value {
            Some(v) => {
                let ghost before = self@.pairs;
                self.append_pair(key, v);
                proof {
                    assert(self@.pairs =~= before + seq![(key@, v@)]);
                }
            },
            None => {
                proof {
                    assert(self@.pairs =~= self@.pairs + Seq::<(Seq<char>, Seq<char>)>::empty());
                }
            },
        }
    }
}

} // verus!
