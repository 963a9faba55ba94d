//! Framing of the newline-delimited JSON streams (pricing and transactions).
//!
//! Both streaming endpoints deliver one JSON message per line. The framer
//! below turns arbitrary byte chunks into whole messages: a message is a
//! newline-separated piece of the stream with surrounding ASCII whitespace
//! removed, and blank pieces are skipped. A final message that is not
//! followed by a newline is delivered when the stream ends. A single piece
//! longer than [`MAX_MESSAGE_LEN`] bytes stops the stream instead of being
//! buffered without limit.
use crate::endpoint::{
    checked_outcome, endpoint_at, endpoint_matches, path2, Endpoint, Method, RejectRule,
};
use crate::errors::APIError;
use crate::http::{account_url_outcome, Connection};
use crate::pricing::{
    instruments_acceptable, instruments_message, instruments_param, instruments_value,
};
use crate::text::views;
use vstd::prelude::*;

verus! {

/// The largest number of bytes one stream message may occupy (1 MiB).
pub const MAX_MESSAGE_LEN: usize = 1048576;

/// The byte that ends a stream message.
pub const NEWLINE: u8 = 10;

/// ASCII whitespace as `u8::is_ascii_whitespace` defines it: space, tab,
/// line feed, form feed and carriage return.
pub open spec fn is_ascii_ws(b: u8) -> bool {
    b == 32 || b == 9 || b == 10 || b == 12 || b == 13
}

/// `s` without its leading ASCII whitespace.
pub open spec fn trim_start(s: Seq<u8>) -> Seq<u8>
    decreases s.len(),
{
    if s.len() > 0 && is_ascii_ws(s[0]) {
        trim_start(s.drop_first())
    } else {
        s
    }
}

/// `s` without its trailing ASCII whitespace.
pub open spec fn trim_end(s: Seq<u8>) -> Seq<u8>
    decreases s.len(),
{
    if s.len() > 0 && is_ascii_ws(s.last()) {
        trim_end(s.drop_last())
    } else {
        s
    }
}

/// `s` without leading and trailing ASCII whitespace (`<[u8]>::trim_ascii`).
pub open spec fn trim_ascii(s: Seq<u8>) -> Seq<u8> {
    trim_end(trim_start(s))
}

/// The pieces of `s` between newlines, in order. There is always at least
/// one piece: the last one is the (possibly empty) text after the last
/// newline.
pub open spec fn split_lines(s: Seq<u8>) -> Seq<Seq<u8>>
    decreases s.len(),
{
    if s.len() == 0 {
        seq![Seq::<u8>::empty()]
    } else {
        let p = split_lines(s.drop_last());
        if s.last() == NEWLINE {
            p.push(Seq::<u8>::empty())
        } else {
            p.update(p.len() - 1, p.last().push(s.last()))
        }
    }
}

/// The messages carried by a sequence of pieces: each piece trimmed, the
/// blank ones left out, the order kept.
pub open spec fn messages_of(pieces: Seq<Seq<u8>>) -> Seq<Seq<u8>>
    decreases pieces.len(),
{
    if pieces.len() == 0 {
        Seq::<Seq<u8>>::empty()
    } else {
        let t = trim_ascii(pieces.last());
        if t.len() > 0 {
            messages_of(pieces.drop_last()).push(t)
        } else {
            messages_of(pieces.drop_last())
        }
    }
}

/// Whether some piece is longer than the message limit.
pub open spec fn has_oversize(pieces: Seq<Seq<u8>>) -> bool {
    exists|i: int| 0 <= i < pieces.len() && #[trigger] pieces[i].len() > MAX_MESSAGE_LEN
}

/// `k` is the position of the first piece that is longer than the limit.
pub open spec fn is_first_oversize(pieces: Seq<Seq<u8>>, k: int) -> bool {
    &&& 0 <= k < pieces.len()
    &&& pieces[k].len() > MAX_MESSAGE_LEN
    &&& forall|j: int| 0 <= j < k ==> #[trigger] pieces[j].len() <= MAX_MESSAGE_LEN
}

/// The position of the first piece that is longer than the limit.
pub open spec fn first_oversize(pieces: Seq<Seq<u8>>) -> int {
    choose|k: int| is_first_oversize(pieces, k)
}

/// Whether a stream that has delivered the bytes `s` has stopped on an
/// over-long message.
pub open spec fn stream_overflowed(s: Seq<u8>) -> bool {
    has_oversize(split_lines(s))
}

/// The messages handed out once the bytes `s` have arrived: every piece
/// that is closed by a newline, up to the first over-long piece if there is
/// one.
pub open spec fn delivered(s: Seq<u8>) -> Seq<Seq<u8>> {
    let pieces = split_lines(s);
    if has_oversize(pieces) {
        messages_of(pieces.take(first_oversize(pieces)))
    } else {
        messages_of(pieces.drop_last())
    }
}

/// The message still held when a stream that delivered `s` ends: the text
/// after the last newline, if it is not blank and the stream did not stop.
pub open spec fn final_message(s: Seq<u8>) -> Option<Seq<u8>> {
    let pieces = split_lines(s);
    if has_oversize(pieces) {
        None
    } else if trim_ascii(pieces.last()).len() > 0 {
        Some(trim_ascii(pieces.last()))
    } else {
        None
    }
}

/// Every message of a finished stream, `delivered` then the final one.
pub open spec fn all_messages(s: Seq<u8>) -> Seq<Seq<u8>> {
    match final_message(s) {
        Some(m) => delivered(s).push(m),
        None => delivered(s),
    }
}

proof fn lemma_split_lines_nonempty(s: Seq<u8>)
    ensures
        split_lines(s).len() >= 1,
    decreases s.len(),
{
    if s.len() > 0 {
        lemma_split_lines_nonempty(s.drop_last());
    }
}

proof fn lemma_split_lines_push(s: Seq<u8>, b: u8)
    ensures
        split_lines(s).len() >= 1,
        b == NEWLINE ==> split_lines(s.push(b)) == split_lines(s).push(Seq::<u8>::empty()),
        b != NEWLINE ==> split_lines(s.push(b)) == split_lines(s).update(
            split_lines(s).len() - 1,
            split_lines(s).last().push(b),
        ),
{
    lemma_split_lines_nonempty(s);
    assert(s.push(b).drop_last() =~= s);
}

proof fn lemma_first_oversize_unique(pieces: Seq<Seq<u8>>, k: int)
    requires
        is_first_oversize(pieces, k),
    ensures
        has_oversize(pieces),
        first_oversize(pieces) == k,
{
    assert(pieces[k].len() > MAX_MESSAGE_LEN);
    let c = first_oversize(pieces);
    assert(is_first_oversize(pieces, c));
    if c < k {
        assert(pieces[c].len() <= MAX_MESSAGE_LEN);
    } else if k < c {
        assert(pieces[k].len() <= MAX_MESSAGE_LEN);
    }
}

proof fn lemma_first_oversize_exists(pieces: Seq<Seq<u8>>) -> (k: int)
    requires
        has_oversize(pieces),
    ensures
        is_first_oversize(pieces, k),
        first_oversize(pieces) == k,
    decreases pieces.len(),
{
    let i = choose|i: int| 0 <= i < pieces.len() && #[trigger] pieces[i].len() > MAX_MESSAGE_LEN;
    if exists|j: int| 0 <= j < i && #[trigger] pieces[j].len() > MAX_MESSAGE_LEN {
        let j = choose|j: int| 0 <= j < i && #[trigger] pieces[j].len() > MAX_MESSAGE_LEN;
        let shorter = pieces.take(i);
        assert(shorter[j].len() > MAX_MESSAGE_LEN);
        let k = lemma_first_oversize_exists(shorter);
        assert forall|m: int| 0 <= m < k implies #[trigger] pieces[m].len() <= MAX_MESSAGE_LEN by {
            assert(shorter[m] == pieces[m]);
        }
        assert(shorter[k] == pieces[k]);
        lemma_first_oversize_unique(pieces, k);
        k
    } else {
        lemma_first_oversize_unique(pieces, i);
        i
    }
}

/// Pushing one more byte keeps an existing first over-long piece first.
proof fn lemma_oversize_stable(s: Seq<u8>, b: u8)
    requires
        stream_overflowed(s),
    ensures
        stream_overflowed(s.push(b)),
        first_oversize(split_lines(s.push(b))) == first_oversize(split_lines(s)),
        split_lines(s.push(b)).take(first_oversize(split_lines(s))) == split_lines(s).take(
            first_oversize(split_lines(s)),
        ),
{
    let p = split_lines(s);
    let q = split_lines(s.push(b));
    lemma_split_lines_push(s, b);
    let k = lemma_first_oversize_exists(p);
    assert(q[k].len() >= p[k].len());
    assert forall|j: int| 0 <= j < k implies #[trigger] q[j].len() <= MAX_MESSAGE_LEN by {
        assert(q[j] == p[j]);
    }
    lemma_first_oversize_unique(q, k);
    assert(q.take(k) =~= p.take(k));
}

/// Splits `bytes` into whole messages across arbitrary chunk boundaries.
pub struct StreamFramer {
    buffer: Vec<u8>,
    overflowed: bool,
    consumed: Ghost<Seq<u8>>,
}

/// What one chunk of stream bytes produced.
pub struct FrameOutcome {
    /// The messages completed by the chunk, in order.
    pub messages: Vec<Vec<u8>>,
    /// The stream holds a message longer than [`MAX_MESSAGE_LEN`]; nothing
    /// after it is delivered.
    pub overflow: bool,
}

impl StreamFramer {
    #[verifier::type_invariant]
    spec fn inv(self) -> bool {
        let pieces = split_lines(self.consumed@);
        &&& self.overflowed == has_oversize(pieces)
        &&& !self.overflowed ==> self.buffer@ == pieces.last()
        &&& self.buffer@.len() <= MAX_MESSAGE_LEN + 1
    }

    /// The number of bytes the framer holds: the piece after the last
    /// newline while it is no longer than the limit, and never more than
    /// one byte past the limit.
    pub closed spec fn held(self) -> nat {
        self.buffer@.len()
    }

    /// The bytes that have arrived so far.
    pub closed spec fn consumed(self) -> Seq<u8> {
        self.consumed@
    }

    /// A framer that has seen no bytes.
    pub fn new() -> (f: StreamFramer)
        ensures
            f.consumed() == Seq::<u8>::empty(),
            f.held() == 0,
    {
        let f = StreamFramer { buffer: Vec::new(), overflowed: false, consumed: Ghost(Seq::empty()) };
        proof {
            assert(split_lines(Seq::<u8>::empty()) == seq![Seq::<u8>::empty()]);
            assert(!has_oversize(split_lines(Seq::<u8>::empty())));
            assert(f.buffer@ =~= Seq::<u8>::empty());
        }
        f
    }

    /// Feeds the next chunk of the stream and returns the messages it
    /// completes.
    pub fn push_chunk(&mut self, chunk: &[u8]) -> (out: FrameOutcome)
        ensures
            final(self).consumed() == old(self).consumed() + chunk@,
            delivered(old(self).consumed()) + out.messages.deep_view() == delivered(
                final(self).consumed(),
            ),
            out.overflow == stream_overflowed(final(self).consumed()),
            final(self).held() <= MAX_MESSAGE_LEN + 1,
            !out.overflow ==> final(self).held() == split_lines(final(self).consumed()).last().len(),
    {
        proof {
            use_type_invariant(&*self);
        }
        let ghost start = self.consumed@;
        let mut taken = StreamFramer::new();
        std::mem::swap(self, &mut taken);
        proof {
            use_type_invariant(&taken);
        }
        let StreamFramer { buffer: mut buffer, overflowed: mut overflowed, consumed: _ } = taken;
        let mut messages: Vec<Vec<u8>> = Vec::new();
        let ghost mut seen: Seq<u8> = start;
        let mut i: usize = 0;
        while i < chunk.len()
            invariant
                i <= chunk.len(),
                seen == start + chunk@.take(i as int),
                overflowed == has_oversize(split_lines(seen)),
                !overflowed ==> buffer@ == split_lines(seen).last(),
                buffer@.len() <= MAX_MESSAGE_LEN + 1,
                delivered(start) + messages.deep_view() == delivered(seen),
            decreases chunk.len() - i,
        {
            let b = chunk[i];
            let ghost before = seen;
            proof {
                lemma_split_lines_push(before, b);
                seen = before.push(b);
                assert(start + chunk@.take(i + 1) =~= before.push(b));
            }
            if overflowed {
                proof {
                    lemma_oversize_stable(before, b);
                }
            } else {
                let p = Ghost(split_lines(before));
                if b == NEWLINE {
                    let t = trim_ascii_vec(&buffer);
                    proof {
                        let q = split_lines(seen);
                        assert(q.drop_last() =~= p@);
                        assert forall|j: int| 0 <= j < q.len() implies #[trigger] q[j].len()
                            <= MAX_MESSAGE_LEN by {
                            if j < p@.len() {
                                assert(q[j] == p@[j]);
                            }
                        }
                        assert(p@ =~= p@.drop_last().push(p@.last()));
                    }
                    if t.len() > 0 {
                        let ghost old_messages = messages.deep_view();
                        let ghost tv = t@;
                        proof {
                            assert(t.deep_view() =~= tv);
                        }
                        messages.push(t);
                        proof {
                            assert(messages.deep_view() =~= old_messages.push(tv));
                        }
                    }
                    buffer.clear();
                    proof {
                        assert(buffer@ =~= Seq::<u8>::empty());
                    }
                } else {
                    proof {
                        lemma_split_lines_nonempty(before);
                        let last = p@.len() - 1;
                        if p@[last].len() > MAX_MESSAGE_LEN {
                            assert(has_oversize(p@));
                        }
                    }
                    buffer.push(b);
                    proof {
                        let q = split_lines(seen);
                        let last = (q.len() - 1) as int;
                        assert(q.drop_last() =~= p@.drop_last());
                        if buffer.len() > MAX_MESSAGE_LEN {
                            assert forall|j: int| 0 <= j < last implies #[trigger] q[j].len()
                                <= MAX_MESSAGE_LEN by {
                                assert(q[j] == p@[j]);
                            }
                            lemma_first_oversize_unique(q, last);
                            assert(q.take(last) =~= p@.drop_last());
                        } else {
                            assert forall|j: int| 0 <= j < q.len() implies #[trigger] q[j].len()
                                <= MAX_MESSAGE_LEN by {
                                if j < last {
                                    assert(q[j] == p@[j]);
                                }
                            }
                        }
                    }
                    if buffer.len() > MAX_MESSAGE_LEN {
                        overflowed = true;
                    }
                }
            }
            i = i + 1;
        }
        proof {
            assert(chunk@.take(chunk@.len() as int) =~= chunk@);
        }
        *self = StreamFramer { buffer, overflowed, consumed: Ghost(seen) };
        FrameOutcome { messages, overflow: overflowed }
    }

    /// Ends the stream and returns the message held after the last newline,
    /// if any.
    pub fn finish(self) -> (last: Option<Vec<u8>>)
        ensures
            last.deep_view() == final_message(self.consumed()),
            all_messages(self.consumed()) == match last {
                Some(m) => delivered(self.consumed()).push(m@),
                None => delivered(self.consumed()),
            },
    {
        proof {
            use_type_invariant(&self);
        }
        if self.overflowed {
            None
        } else {
            let t = trim_ascii_vec(&self.buffer);
            proof {
                assert(t.deep_view() =~= t@);
            }
            if t.len() > 0 {
                Some(t)
            } else {
                None
            }
        }
    }
}

proof fn lemma_trim_start_skip(s: Seq<u8>, i: int)
    requires
        0 <= i <= s.len(),
        forall|j: int| 0 <= j < i ==> is_ascii_ws(#[trigger] s[j]),
    ensures
        trim_start(s) == trim_start(s.subrange(i, s.len() as int)),
    decreases i,
{
    if i > 0 {
        assert(s.drop_first() =~= s.subrange(1, s.len() as int));
        let t = s.drop_first();
        assert forall|j: int| 0 <= j < i - 1 implies is_ascii_ws(#[trigger] t[j]) by {
            assert(t[j] == s[j + 1]);
        }
        lemma_trim_start_skip(t, i - 1);
        assert(t.subrange(i - 1, t.len() as int) =~= s.subrange(i, s.len() as int));
    } else {
        assert(s.subrange(0, s.len() as int) =~= s);
    }
}

proof fn lemma_trim_end_cut(s: Seq<u8>, e: int)
    requires
        0 <= e <= s.len(),
        forall|j: int| e <= j < s.len() ==> is_ascii_ws(#[trigger] s[j]),
    ensures
        trim_end(s) == trim_end(s.subrange(0, e)),
    decreases s.len() - e,
{
    if e < s.len() {
        let t = s.drop_last();
        assert forall|j: int| e <= j < t.len() implies is_ascii_ws(#[trigger] t[j]) by {
            assert(t[j] == s[j]);
        }
        lemma_trim_end_cut(t, e);
        assert(t.subrange(0, e) =~= s.subrange(0, e));
    } else {
        assert(s.subrange(0, e) =~= s);
    }
}

/// `bytes` without leading and trailing ASCII whitespace.
pub fn trim_ascii_vec(bytes: &Vec<u8>) -> (t: Vec<u8>)
    ensures
        t@ == trim_ascii(bytes@),
{
    let n = bytes.len();
    let mut start: usize = 0;
    while start < n && (bytes[start] == 32 || bytes[start] == 9 || bytes[start] == 10
        || bytes[start] == 12 || bytes[start] == 13)
        invariant
            start <= n,
            n == bytes@.len(),
            forall|j: int| 0 <= j < start ==> is_ascii_ws(#[trigger] bytes@[j]),
        decreases n - start,
    {
        start = start + 1;
    }
    let ghost rest = bytes@.subrange(start as int, n as int);
    proof {
        lemma_trim_start_skip(bytes@, start as int);
        if rest.len() > 0 {
            assert(rest[0] == bytes@[start as int]);
        }
        assert(trim_start(rest) == rest);
    }
    let mut end: usize = n;
    while end > start && (bytes[end - 1] == 32 || bytes[end - 1] == 9 || bytes[end - 1] == 10
        || bytes[end - 1] == 12 || bytes[end - 1] == 13)
        invariant
            start <= end <= n,
            n == bytes@.len(),
            rest == bytes@.subrange(start as int, n as int),
            forall|j: int| end <= j < n ==> is_ascii_ws(#[trigger] bytes@[j]),
        decreases end - start,
    {
        end = end - 1;
    }
    proof {
        let e = end - start;
        assert forall|j: int| e <= j < rest.len() implies is_ascii_ws(#[trigger] rest[j]) by {
            assert(rest[j] == bytes@[j + start]);
        }
        lemma_trim_end_cut(rest, e);
        let kept = rest.subrange(0, e);
        if kept.len() > 0 {
            assert(kept.last() == bytes@[end - 1]);
        }
        assert(trim_end(kept) == kept);
        assert(kept =~= bytes@.subrange(start as int, end as int));
    }
    let mut t: Vec<u8> = Vec::new();
    let mut k = start;
    while k < end
        invariant
            start <= k <= end <= n,
            n == bytes@.len(),
            t@ =~= bytes@.subrange(start as int, k as int),
        decreases end - k,
    {
        t.push(bytes[k]);
        k = k + 1;
    }
    t
}

/// Messages already handed out stay handed out: whatever bytes `b` follow
/// `a`, the messages delivered for `a` are the first messages delivered for
/// `a + b`. With the contract of `StreamFramer::push_chunk`, this makes the
/// messages independent of where the chunk boundaries fall.
pub proof fn lemma_delivery_is_chunking_independent(a: Seq<u8>, b: Seq<u8>)
    ensures
        delivered(a).len() <= delivered(a + b).len(),
        delivered(a) == delivered(a + b).take(delivered(a).len() as int),
    decreases b.len(),
{
    if b.len() == 0 {
        assert(a + b =~= a);
        assert(delivered(a) =~= delivered(a).take(delivered(a).len() as int));
    } else {
        let a2 = a + b.drop_last();
        lemma_delivery_is_chunking_independent(a, b.drop_last());
        assert(a + b =~= a2.push(b.last()));
        lemma_delivered_step(a2, b.last());
        assert(delivered(a) =~= delivered(a + b).take(delivered(a).len() as int));
    }
}

/// Receiving one more byte never takes back a delivered message.
proof fn lemma_delivered_step(s: Seq<u8>, b: u8)
    ensures
        delivered(s).len() <= delivered(s.push(b)).len(),
        delivered(s) == delivered(s.push(b)).take(delivered(s).len() as int),
{
    let p = split_lines(s);
    let q = split_lines(s.push(b));
    lemma_split_lines_push(s, b);
    if has_oversize(p) {
        lemma_oversize_stable(s, b);
    } else if b == NEWLINE {
        assert(q.drop_last() =~= p);
        assert forall|j: int| 0 <= j < q.len() implies #[trigger] q[j].len() <= MAX_MESSAGE_LEN by {
            if j < p.len() {
                assert(q[j] == p[j]);
            }
        }
        assert(p =~= p.drop_last().push(p.last()));
    } else {
        let last = (q.len() - 1) as int;
        assert(q.drop_last() =~= p.drop_last());
        if q[last].len() > MAX_MESSAGE_LEN {
            assert forall|j: int| 0 <= j < last implies #[trigger] q[j].len() <= MAX_MESSAGE_LEN by {
                assert(q[j] == p[j]);
            }
            lemma_first_oversize_unique(q, last);
            assert(q.take(last) =~= p.drop_last());
        } else {
            assert forall|j: int| 0 <= j < q.len() implies #[trigger] q[j].len()
                <= MAX_MESSAGE_LEN by {
                if j < last {
                    assert(q[j] == p[j]);
                }
            }
        }
    }
    assert(delivered(s) =~= delivered(s.push(b)).take(delivered(s).len() as int));
}


/// The request that opens the transaction stream of the connection's
/// default account: `GET /v3/accounts/{accountID}/transactions/stream`.
pub fn transaction_stream_endpoint(connection: &Connection) -> (r: Result<Endpoint, APIError>)
    ensures
        endpoint_matches(
            r,
            connection.base_url,
            account_url_outcome(
                connection.base_url,
                connection.account_id.deep_view(),
                seq!["transactions"@, "stream"@],
            ),
            Seq::empty(),
            Method::Get,
            200,
            RejectRule::NoReject,
        ),
{
    let url = connection.account_url(&path2("transactions", "stream"));
    endpoint_at(url, Method::Get, 200, RejectRule::NoReject)
}

/// The request that opens the pricing stream of `instruments` on the
/// connection's default account:
/// `GET /v3/accounts/{accountID}/pricing/stream?instruments=...`, with the
/// trimmed names joined with commas. A blank list (empty, or of blank
/// names only) is refused once the account is known.
pub fn pricing_stream_endpoint(connection: &Connection, instruments: &Vec<String>) -> (r: Result<
    Endpoint,
    APIError,
>)
    ensures
        endpoint_matches(
            r,
            connection.base_url,
            checked_outcome(
                account_url_outcome(
                    connection.base_url,
                    connection.account_id.deep_view(),
                    seq!["pricing"@, "stream"@],
                ),
                instruments_acceptable(views(instruments@)),
                instruments_message(),
            ),
            seq![("instruments"@, instruments_value(views(instruments@)))],
            Method::Get,
            200,
            RejectRule::NoReject,
        ),
{
    match connection.account_url(&path2("pricing", "stream")) {
        Ok(u) => {
            let value = match instruments_param(instruments) {
                Ok(v) => v,
                Err(e) => {
                    return Err(e);
                },
            };
            let mut url = u;
            let ghost before = url@.pairs;
            url.append_pair("instruments", value.as_str());
            proof {
                assert(url@.pairs =~= before + seq![("instruments"@, value@)]);
            }
            Ok(Endpoint { method: Method::Get, url, success: 200, reject: RejectRule::NoReject })
        },
        Err(e) => Err(e),
    }
}


/// When a stream that did not overflow ends, the messages handed out are
/// exactly its newline-separated pieces, each trimmed of ASCII whitespace,
/// the blank ones left out, in order; the final piece counts whether or
/// not a newline follows it.
pub proof fn lemma_finished_stream_messages(s: Seq<u8>)
    requires
        !stream_overflowed(s),
    ensures
        all_messages(s) == messages_of(split_lines(s)),
{
    lemma_split_lines_nonempty(s);
}


/// Once a stream holds an over-long message, nothing after it is ever
/// handed out: whatever bytes `b` follow, the delivered messages stay
/// those delivered before, and the stream stays stopped.
pub proof fn lemma_nothing_delivered_after_overflow(a: Seq<u8>, b: Seq<u8>)
    requires
        stream_overflowed(a),
    ensures
        stream_overflowed(a + b),
        delivered(a + b) == delivered(a),
        final_message(a + b) is None,
    decreases b.len(),
{
    if b.len() == 0 {
        assert(a + b =~= a);
    } else {
        let a2 = a + b.drop_last();
        lemma_nothing_delivered_after_overflow(a, b.drop_last());
        assert(a + b =~= a2.push(b.last()));
        lemma_oversize_stable(a2, b.last());
    }
}


/// Calls `serde::de::Error::custom` for `serde_json::Error` with `message`.
/// The error is opaque here; nothing is stated of what it holds.
#[verifier::external_body]
fn json_error(message: &str) -> (e: serde_json::Error) {
    <serde_json::Error as serde::de::Error>::custom(message)
}

/// The error that ends a stream once it holds a message longer than
/// [`MAX_MESSAGE_LEN`]: a JSON error, as a message that cannot be read.
pub fn overflow_error() -> (e: APIError)
    ensures
        e is JSONError,
{
    APIError::JSONError(json_error("stream message longer than 1 MiB"))
}

} // verus!
