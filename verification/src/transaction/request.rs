//! Query builders of the transaction endpoints.
use crate::primitives::Timestamp;
use crate::text::{decimal, decimal_string, join, join_with, views};
use crate::transaction::types::{TransactionFilter, TransactionID};
use crate::url::{
    lemma_pairs_under_concat, lemma_pairs_under_optional, optional_pair, pairs_under, Url,
};
use vstd::prelude::*;

verus! {

/// Request parameters for `GET /v3/accounts/{accountID}/transactions`.
///
/// All fields are optional. Call builder methods to set filters before passing
/// to [`TransactionService::list`].
#[derive(Debug)]
pub struct ListTransactionsRequest {
    /// Return only transactions at or after this timestamp.
    pub from: Option<Timestamp>,
    /// Return only transactions at or before this timestamp.
    pub to: Option<Timestamp>,
    /// Maximum number of transactions per page (server default applies when `None`).
    pub page_size: Option<u16>,
    /// Restrict results to these transaction filters. Empty = all types.
    pub transaction_type: Vec<TransactionFilter>,
}

/// Request parameters for
/// `GET /v3/accounts/{accountID}/transactions/idrange`.
///
/// Returns transactions with IDs in the inclusive range `[from, to]`.
#[derive(Debug)]
pub struct GetTransactionsByIDRangeRequest {
    from: TransactionID,
    to: TransactionID,
    filter: Vec<TransactionFilter>,
}

/// Request parameters for
/// `GET /v3/accounts/{accountID}/transactions/sinceid`.
///
/// Returns all transactions with IDs greater than `id`.
#[derive(Debug)]
pub struct GetTransactionsBySinceIDRequest {
    id: TransactionID,
    filter: Vec<TransactionFilter>,
}


/// The OANDA names of a list of transaction filters.
pub open spec fn filter_names(filters: Seq<TransactionFilter>) -> Seq<Seq<char>> {
    Seq::new(filters.len(), |i: int| filters[i].wire_name())
}

/// The `type` query pair of a list of filters: their names joined with
/// commas, or nothing when the list is empty.
pub open spec fn type_pair(filters: Seq<TransactionFilter>) -> Seq<(Seq<char>, Seq<char>)> {
    optional_pair(
        "type"@,
        if filters.len() > 0 {
            Some(join_with(filter_names(filters), ","@))
        } else {
            None
        },
    )
}

/// The names of `filters` joined with commas.
fn filter_list(filters: &Vec<TransactionFilter>) -> (s: String)
    ensures
        s@ == join_with(filter_names(filters@), ","@),
{
    let mut names: Vec<String> = Vec::new();
    let mut i: usize = 0;
    while i < filters.len()
        invariant
            i <= filters.len(),
            names@.len() == i,
            forall|j: int| 0 <= j < i ==> (#[trigger] names@[j])@ == filters@[j].wire_name(),
        decreases filters.len() - i,
    {
        names.push(filters[i].to_string());
        i = i + 1;
    }
    proof {
        assert(views(names@) =~= filter_names(filters@));
    }
    join(&names, ",")
}

/// Appends the `type` pair of `filters` to `url`.
fn append_type_pair(url: &mut Url, filters: &Vec<TransactionFilter>)
    ensures
        final(url)@.base == old(url)@.base,
        final(url)@.segments == old(url)@.segments,
        final(url)@.pairs == old(url)@.pairs + type_pair(filters@),
{
    let list = if filters.len() > 0 {
        Some(filter_list(filters))
    } else {
        None
    };
    url.append_optional_pair(
        "type",
        match &list {
            Some(s) => Some(s.as_str()),
            None => None,
        },
    );
}

/// The text of an optional instant, when there is one.
fn optional_rfc3339(t: Option<Timestamp>) -> (s: Option<String>)
    ensures
        s.deep_view() == match t {
            Some(t) => Some(t.rfc3339_text()),
            None => None,
        },
{
    match t {
        Some(t) => Some(t.to_rfc3339()),
        None => None,
    }
}

/// The query pairs of a list-transactions request: `from` and `to` in
/// RFC 3339, `pageSize`, and `type`, each only when set.
pub open spec fn list_transactions_pairs(r: ListTransactionsRequest) -> Seq<(Seq<char>, Seq<char>)> {
    optional_pair(
        "from"@,
        match r.from {
            Some(t) => Some(t.rfc3339_text()),
            None => None,
        },
    ) + optional_pair(
        "to"@,
        match r.to {
            Some(t) => Some(t.rfc3339_text()),
            None => None,
        },
    ) + optional_pair(
        "pageSize"@,
        match r.page_size {
            Some(n) => Some(decimal(n as nat)),
            None => None,
        },
    ) + type_pair(r.transaction_type@)
}

impl ListTransactionsRequest {
    /// Creates a new request with no filters applied.
    pub fn new() -> (r: Self)
        ensures
            r.from is None,
            r.to is None,
            r.page_size is None,
            r.transaction_type@.len() == 0,
    {
        ListTransactionsRequest { from: None, to: None, page_size: None, transaction_type: Vec::new() }
    }

    /// Sets the earliest timestamp for transactions to include.
    pub fn from_time(self, from: Timestamp) -> (r: Self)
        ensures
            r.from == Some(from),
            r.to == self.to,
            r.page_size == self.page_size,
            r.transaction_type@ == self.transaction_type@,
    {
        let mut r = self;
        r.from = Some(from);
        r
    }

    /// Sets the latest timestamp for transactions to include.
    pub fn to(self, to: Timestamp) -> (r: Self)
        ensures
            r.from == self.from,
            r.to == Some(to),
            r.page_size == self.page_size,
            r.transaction_type@ == self.transaction_type@,
    {
        let mut r = self;
        r.to = Some(to);
        r
    }

    /// Sets the number of transactions per page.
    pub fn page_size(self, page_size: u16) -> (r: Self)
        ensures
            r.from == self.from,
            r.to == self.to,
            r.page_size == Some(page_size),
            r.transaction_type@ == self.transaction_type@,
    {
        let mut r = self;
        r.page_size = Some(page_size);
        r
    }

    /// Adds a filter; transactions matching any of the filters are returned.
    pub fn transaction_type(self, transaction_type: TransactionFilter) -> (r: Self)
        ensures
            r.from == self.from,
            r.to == self.to,
            r.page_size == self.page_size,
            r.transaction_type@ == self.transaction_type@.push(transaction_type),
    {
        let mut r = self;
        r.transaction_type.push(transaction_type);
        r
    }

    /// Appends the configured query parameters to `url`.
    pub fn set_params(&self, url: &mut Url)
        ensures
            final(url)@.base == old(url)@.base,
            final(url)@.segments == old(url)@.segments,
            final(url)@.pairs == old(url)@.pairs + list_transactions_pairs(*self),
    {
        let ghost start = url@.pairs;
        let from = optional_rfc3339(self.from);
        url.append_optional_pair(
            "from",
            match &from {
                Some(s) => Some(s.as_str()),
                None => None,
            },
        );
        let to = optional_rfc3339(self.to);
        url.append_optional_pair(
            "to",
            match &to {
                Some(s) => Some(s.as_str()),
                None => None,
            },
        );
        let page_size = match self.page_size {
            Some(n) => Some(decimal_string(n as u64)),
            None => None,
        };
        url.append_optional_pair(
            "pageSize",
            match &page_size {
                Some(s) => Some(s.as_str()),
                None => None,
            },
        );
        append_type_pair(url, &self.transaction_type);
        proof {
            assert(url@.pairs =~= start + list_transactions_pairs(*self));
        }
    }
}

impl Default for ListTransactionsRequest {
    fn default() -> (r: Self)
        ensures
            r.from is None,
            r.to is None,
            r.page_size is None,
            r.transaction_type@.len() == 0,
    {
        ListTransactionsRequest::new()
    }
}

/// The parameters of a [`GetTransactionsByIDRangeRequest`].
pub struct IdRangeQuery {
    /// The first transaction ID of the range.
    pub from: Seq<char>,
    /// The last transaction ID of the range.
    pub to: Seq<char>,
    /// The filters, in the order they were added.
    pub filter: Seq<TransactionFilter>,
}

impl View for GetTransactionsByIDRangeRequest {
    type V = IdRangeQuery;

    closed spec fn view(&self) -> IdRangeQuery {
        IdRangeQuery { from: self.from@, to: self.to@, filter: self.filter@ }
    }
}

/// The query pairs of an ID-range request: `from`, `to`, then `type`
/// when there are filters.
pub open spec fn id_range_pairs(q: IdRangeQuery) -> Seq<(Seq<char>, Seq<char>)> {
    seq![("from"@, q.from), ("to"@, q.to)] + type_pair(q.filter)
}

impl GetTransactionsByIDRangeRequest {
    /// Creates a new request for the inclusive ID range `[from, to]`.
    pub fn new(from: TransactionID, to: TransactionID) -> (r: Self)
        ensures
            r@.from == from@,
            r@.to == to@,
            r@.filter.len() == 0,
    {
        GetTransactionsByIDRangeRequest { from, to, filter: Vec::new() }
    }

    /// Restricts the results to transactions matching `filter`.
    /// Call multiple times to include several filter categories.
    pub fn filter(self, filter: TransactionFilter) -> (r: Self)
        ensures
            r@ == (IdRangeQuery { filter: self@.filter.push(filter), ..self@ }),
    {
        let mut r = self;
        r.filter.push(filter);
        r
    }

    /// Appends the query parameters to `url`.
    pub fn set_params(&self, url: &mut Url)
        ensures
            final(url)@.base == old(url)@.base,
            final(url)@.segments == old(url)@.segments,
            final(url)@.pairs == old(url)@.pairs + id_range_pairs(self@),
    {
        let ghost start = url@.pairs;
        url.append_pair("from", self.from.as_str());
        url.append_pair("to", self.to.as_str());
        append_type_pair(url, &self.filter);
        proof {
            assert(url@.pairs =~= start + id_range_pairs(self@));
        }
    }
}

/// The parameters of a [`GetTransactionsBySinceIDRequest`].
pub struct SinceIdQuery {
    /// The transaction ID after which transactions are returned.
    pub id: Seq<char>,
    /// The filters, in the order they were added.
    pub filter: Seq<TransactionFilter>,
}

impl View for GetTransactionsBySinceIDRequest {
    type V = SinceIdQuery;

    closed spec fn view(&self) -> SinceIdQuery {
        SinceIdQuery { id: self.id@, filter: self.filter@ }
    }
}

/// The query pairs of a since-ID request: `id`, then `type` when there
/// are filters.
pub open spec fn since_id_pairs(q: SinceIdQuery) -> Seq<(Seq<char>, Seq<char>)> {
    seq![("id"@, q.id)] + type_pair(q.filter)
}

impl GetTransactionsBySinceIDRequest {
    /// Creates a new request that returns transactions since (exclusive of) `id`.
    pub fn new(id: TransactionID) -> (r: Self)
        ensures
            r@.id == id@,
            r@.filter.len() == 0,
    {
        GetTransactionsBySinceIDRequest { id, filter: Vec::new() }
    }

    /// Restricts the results to transactions matching `filter`.
    /// Call multiple times to include several filter categories.
    pub fn filter(self, filter: TransactionFilter) -> (r: Self)
        ensures
            r@ == (SinceIdQuery { filter: self@.filter.push(filter), ..self@ }),
    {
        let mut r = self;
        r.filter.push(filter);
        r
    }

    /// Appends the query parameters to `url`.
    pub fn set_params(&self, url: &mut Url)
        ensures
            final(url)@.base == old(url)@.base,
            final(url)@.segments == old(url)@.segments,
            final(url)@.pairs == old(url)@.pairs + since_id_pairs(self@),
    {
        let ghost start = url@.pairs;
        url.append_pair("id", self.id.as_str());
        append_type_pair(url, &self.filter);
        proof {
            assert(url@.pairs =~= start + since_id_pairs(self@));
        }
    }
}


/// Adding a filter puts its name at the end of the `type` value: alone
/// when it is the first filter, after a comma otherwise.
pub proof fn lemma_added_filter_ends_type_value(filters: Seq<TransactionFilter>, f: TransactionFilter)
    ensures
        type_pair(filters.push(f)) == seq![
            (
                "type"@,
                if filters.len() == 0 {
                    f.wire_name()
                } else {
                    join_with(filter_names(filters), ","@) + ","@ + f.wire_name()
                },
            ),
        ],
{
    let names = filter_names(filters.push(f));
    assert(names.drop_last() =~= filter_names(filters));
    assert(names.last() == f.wire_name());
}

/// Each parameter of a list-transactions request is written on its own,
/// whatever the others are: exactly one `from` pair, holding the RFC 3339
/// text of the start, when a start is set, and none otherwise; likewise
/// `to` for the end, `pageSize` (in decimal) for the page size, and `type`
/// (the filter names joined with commas) when there are filters. No other
/// pair is written.
pub proof fn lemma_list_transactions_fields_are_independent(r: ListTransactionsRequest)
    ensures
        pairs_under(list_transactions_pairs(r), "from"@) == match r.from {
            Some(t) => seq![("from"@, t.rfc3339_text())],
            None => Seq::<(Seq<char>, Seq<char>)>::empty(),
        },
        pairs_under(list_transactions_pairs(r), "to"@) == match r.to {
            Some(t) => seq![("to"@, t.rfc3339_text())],
            None => Seq::<(Seq<char>, Seq<char>)>::empty(),
        },
        pairs_under(list_transactions_pairs(r), "pageSize"@) == match r.page_size {
            Some(n) => seq![("pageSize"@, decimal(n as nat))],
            None => Seq::<(Seq<char>, Seq<char>)>::empty(),
        },
        pairs_under(list_transactions_pairs(r), "type"@) == if r.transaction_type@.len() > 0 {
            seq![("type"@, join_with(filter_names(r.transaction_type@), ","@))]
        } else {
            Seq::<(Seq<char>, Seq<char>)>::empty()
        },
        list_transactions_pairs(r).len() == (if r.from is Some { 1int } else { 0int }) + (if r.to is Some {
            1int
        } else {
            0int
        }) + (if r.page_size is Some { 1int } else { 0int }) + (if r.transaction_type@.len() > 0 {
            1int
        } else {
            0int
        }),
{
    lemma_list_keys_distinct();
    let from_text = match r.from {
        Some(t) => Some(t.rfc3339_text()),
        None => None,
    };
    let to_text = match r.to {
        Some(t) => Some(t.rfc3339_text()),
        None => None,
    };
    let size_text = match r.page_size {
        Some(n) => Some(decimal(n as nat)),
        None => None,
    };
    let type_text = if r.transaction_type@.len() > 0 {
        Some(join_with(filter_names(r.transaction_type@), ","@))
    } else {
        None
    };
    let a = optional_pair("from"@, from_text);
    let b = optional_pair("to"@, to_text);
    let c = optional_pair("pageSize"@, size_text);
    let d = optional_pair("type"@, type_text);
    assert(list_transactions_pairs(r) == a + b + c + d);
    lemma_pairs_under_concat(a, b);
    lemma_pairs_under_concat(a + b, c);
    lemma_pairs_under_concat(a + b + c, d);
    lemma_pairs_under_optional("from"@, from_text);
    lemma_pairs_under_optional("to"@, to_text);
    lemma_pairs_under_optional("pageSize"@, size_text);
    lemma_pairs_under_optional("type"@, type_text);
    let e = Seq::<(Seq<char>, Seq<char>)>::empty();
    assert(pairs_under(a + b + c + d, "from"@) == a + e + e + e);
    assert(pairs_under(a + b + c + d, "to"@) == e + b + e + e);
    assert(pairs_under(a + b + c + d, "pageSize"@) == e + e + c + e);
    assert(pairs_under(a + b + c + d, "type"@) == e + e + e + d);
}

/// The four keys of a list-transactions query are different texts.
proof fn lemma_list_keys_distinct()
    ensures
        "from"@ != "to"@,
        "from"@ != "pageSize"@,
        "from"@ != "type"@,
        "to"@ != "pageSize"@,
        "to"@ != "type"@,
        "pageSize"@ != "type"@,
{
    reveal_strlit("from");
    reveal_strlit("to");
    reveal_strlit("pageSize");
    reveal_strlit("type");
    assert("from"@.len() == 4);
    assert("to"@.len() == 2);
    assert("pageSize"@.len() == 8);
    assert("type"@.len() == 4);
    assert("from"@[0] != "type"@[0]);
}

/// A request whose only parameter is a start time is written as the single
/// pair `from` = the RFC 3339 text of that time: the end being unset does
/// not drop it.
pub proof fn lemma_start_time_alone(r: ListTransactionsRequest)
    requires
        r.from is Some,
        r.to is None,
        r.page_size is None,
        r.transaction_type@.len() == 0,
    ensures
        list_transactions_pairs(r) == seq![("from"@, r.from->0.rfc3339_text())],
{
}

} // verus!
