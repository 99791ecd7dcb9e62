//! Querying the request log: which entries a query matches, and which of
//! the matching entries a page returns.
use vstd::prelude::*;

use crate::common::model::userinfo::{MembershipType, spec_membership_from};
use crate::text::{contains_str, has_infix, str_eq};

verus! {

/// How many entries a page holds: at most `limit` (every one when no limit
/// is given) of those after the first `offset` (none skipped when no offset
/// is given) of `total`.
pub open spec fn page_len(total: nat, offset: Option<usize>, limit: Option<usize>) -> nat {
    let o: nat = match offset {
        Some(o) => o as nat,
        None => 0,
    };
    let rest: nat = if o <= total {
        (total - o) as nat
    } else {
        0
    };
    match limit {
        Some(l) => if (l as nat) < rest {
            l as nat
        } else {
            rest
        },
        None => rest,
    }
}

/// The positions, among `total` matching entries in log order, of those
/// that a page holds, in the order it holds them: the entries are taken
/// newest first when `reverse` is set, `offset` of them are skipped and at
/// most `limit` taken.
pub open spec fn page_positions(total: nat, reverse: bool, offset: Option<usize>, limit: Option<usize>) -> Seq<int> {
    let o: int = match offset {
        Some(o) => o as int,
        None => 0,
    };
    Seq::new(
        page_len(total, offset, limit),
        |j: int|
            if reverse {
                total - 1 - (o + j)
            } else {
                o + j
            },
    )
}

/// The positions of the entries that a page of the log holds (see
/// `page_positions`).
pub fn page_indices(total: usize, reverse: bool, offset: Option<usize>, limit: Option<usize>) -> (r: Vec<usize>)
    ensures
        r@.len() == page_len(total as nat, offset, limit),
        forall|j: int| 0 <= j < r@.len() ==> #[trigger] r@[j] as int == page_positions(total as nat, reverse, offset, limit)[j],
        forall|j: int| 0 <= j < r@.len() ==> #[trigger] r@[j] < total,
{
    let o: usize = match offset {
        Some(o) => o,
        None => 0,
    };
    let rest: usize = if o <= total {
        total - o
    } else {
        0
    };
    let n: usize = match limit {
        Some(l) => if l < rest {
            l
        } else {
            rest
        },
        None => rest,
    };
    let mut r: Vec<usize> = Vec::new();
    let mut j: usize = 0;
    while j < n
        invariant
            n == page_len(total as nat, offset, limit),
            n <= rest,
            rest == (if o <= total { total - o } else { 0 }),
            o as int == (match offset {
                Some(x) => x as int,
                None => 0,
            }),
            j <= n,
            r@.len() == j,
            forall|k: int| 0 <= k < j ==> #[trigger] r@[k] as int == page_positions(total as nat, reverse, offset, limit)[k],
            forall|k: int| 0 <= k < j ==> #[trigger] r@[k] < total,
        decreases n - j,
    {
        let p = if reverse {
            total - 1 - (o + j)
        } else {
            o + j
        };
        r.push(p);
        j = j + 1;
    }
    r
}

/// What the log query reads of an entry of the request log.
pub struct LogRecord {
    /// When the request came (Unix milliseconds).
    pub timestamp: i64,
    /// The key of the token the request used.
    pub token_key: u128,
    /// The user id of that token's subject.
    pub user_id: u128,
    /// The e-mail of the token's user, when known.
    pub email: Option<String>,
    /// The membership of the token's account, when known.
    pub membership: Option<MembershipType>,
    /// The name of the request's status.
    pub status: String,
    /// The model asked for.
    pub model: String,
    /// Whether the answer was streamed.
    pub stream: bool,
    /// Whether the entry holds a chain (prompt, usage, reasoning).
    pub has_chain: bool,
    /// The error text, when the request failed.
    pub error: Option<String>,
    /// Input plus output tokens, when the chain holds usage figures.
    pub tokens: Option<i64>,
}

/// The filters of a log query; each one that is given must hold.
pub struct LogQuery {
    pub from_date: Option<i64>,
    pub to_date: Option<i64>,
    pub user_id: Option<u128>,
    pub email: Option<String>,
    pub membership: Option<MembershipType>,
    pub status: Option<String>,
    pub model: Option<String>,
    pub include_models: Option<Vec<String>>,
    pub exclude_models: Option<Vec<String>>,
    pub stream: Option<bool>,
    pub has_chain: Option<bool>,
    pub has_error: Option<bool>,
    pub error: Option<String>,
    pub min_tokens: Option<i64>,
    pub max_tokens: Option<i64>,
}

/// Whether `m` is one of `names`.
pub open spec fn listed_name(names: Seq<String>, m: Seq<char>) -> bool {
    exists|k: int| 0 <= k < names.len() && #[trigger] names[k]@ == m
}

/// Whether the entry `l` is shown to `caller` and matches the query: a
/// caller with a token key (anyone but the admin) sees only the entries of
/// that key; then each filter given must hold: the time range (inclusive),
/// the user id, an e-mail containing the text, the membership, the status
/// name, a model name containing the text, a model among those included
/// and none of those excluded, streaming, a chain, an error, an error
/// containing the text, and the token count range (entries without usage
/// figures fail a token bound).
pub open spec fn log_matches(l: LogRecord, q: LogQuery, caller: Option<u128>) -> bool {
    &&& (caller matches Some(k) ==> l.token_key == k)
    &&& (q.from_date matches Some(f) ==> l.timestamp >= f)
    &&& (q.to_date matches Some(t) ==> l.timestamp <= t)
    &&& (q.user_id matches Some(u) ==> l.user_id == u)
    &&& (q.email matches Some(e) ==> (l.email matches Some(le) && has_infix(le@, e@)))
    &&& (q.membership matches Some(m) ==> l.membership == Some(m))
    &&& (q.status matches Some(st) ==> l.status@ == st@)
    &&& (q.model matches Some(m) ==> has_infix(l.model@, m@))
    &&& (q.include_models matches Some(ms) ==> listed_name(ms@, l.model@))
    &&& (q.exclude_models matches Some(ms) ==> !listed_name(ms@, l.model@))
    &&& (q.stream matches Some(b) ==> l.stream == b)
    &&& (q.has_chain matches Some(b) ==> l.has_chain == b)
    &&& (q.has_error matches Some(b) ==> (l.error is Some) == b)
    &&& (q.error matches Some(e) ==> (l.error matches Some(le) && has_infix(le@, e@)))
    &&& (q.min_tokens matches Some(n) ==> (l.tokens matches Some(t) && t >= n))
    &&& (q.max_tokens matches Some(n) ==> (l.tokens matches Some(t) && t <= n))
}

/// The positions, in log order, of the entries that match.
pub open spec fn matching_positions(logs: Seq<LogRecord>, q: LogQuery, caller: Option<u128>) -> Seq<int>
    decreases logs.len(),
{
    if logs.len() == 0 {
        Seq::empty()
    } else {
        let rest = matching_positions(logs.drop_last(), q, caller);
        if log_matches(logs.last(), q, caller) {
            rest.push(logs.len() - 1)
        } else {
            rest
        }
    }
}

/// Whether `m` is one of `names`.
fn is_listed_name(names: &Vec<String>, m: &str) -> (r: bool)
    ensures
        r == listed_name(names@, m@),
{
    let mut i: usize = 0;
    while i < names.len()
        invariant
            i <= names.len(),
            forall|k: int| 0 <= k < i ==> names@[k]@ != m@,
        decreases names.len() - i,
    {
        if str_eq(names[i].as_str(), m) {
            return true;
        }
        i = i + 1;
    }
    false
}

/// Whether `o` holds a text containing `p`.
fn opt_contains(o: &Option<String>, p: &str) -> (r: bool)
    ensures
        r == (o matches Some(s) && has_infix(s@, p@)),
{
    match o {
        Some(s) => contains_str(s.as_str(), p),
        None => false,
    }
}

/// Whether an entry matches (see `log_matches`).
pub fn log_entry_matches(l: &LogRecord, q: &LogQuery, caller: Option<u128>) -> (r: bool)
    ensures
        r == log_matches(*l, *q, caller),
{
    if let Some(k) = caller {
        if l.token_key != k {
            return false;
        }
    }
    if let Some(f) = q.from_date {
        if l.timestamp < f {
            return false;
        }
    }
    if let Some(t) = q.to_date {
        if l.timestamp > t {
            return false;
        }
    }
    if let Some(u) = q.user_id {
        if l.user_id != u {
            return false;
        }
    }
    if let Some(e) = &q.email {
        if !opt_contains(&l.email, e.as_str()) {
            return false;
        }
    }
    if let Some(m) = q.membership {
        match l.membership {
            Some(lm) => {
                if lm != m {
                    return false;
                }
            },
            None => return false,
        }
    }
    if let Some(st) = &q.status {
        if !str_eq(l.status.as_str(), st.as_str()) {
            return false;
        }
    }
    if let Some(m) = &q.model {
        if !contains_str(l.model.as_str(), m.as_str()) {
            return false;
        }
    }
    if let Some(ms) = &q.include_models {
        if !is_listed_name(ms, l.model.as_str()) {
            return false;
        }
    }
    if let Some(ms) = &q.exclude_models {
        if is_listed_name(ms, l.model.as_str()) {
            return false;
        }
    }
    if let Some(b) = q.stream {
        if l.stream != b {
            return false;
        }
    }
    if let Some(b) = q.has_chain {
        if l.has_chain != b {
            return false;
        }
    }
    if let Some(b) = q.has_error {
        if l.error.is_some() != b {
            return false;
        }
    }
    if let Some(e) = &q.error {
        if !opt_contains(&l.error, e.as_str()) {
            return false;
        }
    }
    if let Some(n) = q.min_tokens {
        match l.tokens {
            Some(t) => {
                if t < n {
                    return false;
                }
            },
            None => return false,
        }
    }
    if let Some(n) = q.max_tokens {
        match l.tokens {
            Some(t) => {
                if t > n {
                    return false;
                }
            },
            None => return false,
        }
    }
    true
}

/// The positions, in log order, of the entries that match (see
/// `matching_positions`).
pub fn filter_logs(logs: &Vec<LogRecord>, q: &LogQuery, caller: Option<u128>) -> (r: Vec<usize>)
    ensures
        r@.map_values(|i: usize| i as int) == matching_positions(logs@, *q, caller),
{
    let mut r: Vec<usize> = Vec::new();
    let mut i: usize = 0;
    while i < logs.len()
        invariant
            i <= logs.len(),
            r@.map_values(|j: usize| j as int) == matching_positions(logs@.take(i as int), *q, caller),
        decreases logs.len() - i,
    {
        let ghost prev = r@;
        assert(logs@.take(i as int + 1).drop_last() =~= logs@.take(i as int));
        assert(logs@.take(i as int + 1).last() == logs@[i as int]);
        if log_entry_matches(&logs[i], q, caller) {
            r.push(i);
            assert(r@.map_values(|j: usize| j as int) =~= prev.map_values(|j: usize| j as int).push(i as int));
        }
        i = i + 1;
    }
    assert(logs@.take(logs.len() as int) =~= logs@);
    r
}

/// What a log query's early checks decide.
#[derive(Debug, PartialEq, Eq, Structural)]
pub enum LogsPrecheck {
    /// Answer at once with an empty, successful result.
    Empty,
    /// Answer at once with 400 (a user id that does not read).
    BadRequest,
    /// Go on to filter, with the membership asked for, if any.
    Proceed(Option<MembershipType>),
}

/// The early checks of a log query: a status that names no log status, or
/// a membership that names no tier, gives an empty result (the status first);
/// then a user id that does not read gives 400. `status_known` says whether
/// the status given (if any) names a log status, and `user_id_ok` whether
/// the user id given (if any) reads.
pub open spec fn spec_logs_precheck(
    status: Option<Seq<char>>,
    status_known: bool,
    membership: Option<Seq<char>>,
    user_id: Option<Seq<char>>,
    user_id_ok: bool,
) -> LogsPrecheck {
    if status is Some && !status_known {
        LogsPrecheck::Empty
    } else if membership matches Some(m) && spec_membership_from(m) is None {
        LogsPrecheck::Empty
    } else if user_id is Some && !user_id_ok {
        LogsPrecheck::BadRequest
    } else {
        LogsPrecheck::Proceed(
            match membership {
                Some(m) => spec_membership_from(m),
                None => None,
            },
        )
    }
}

/// The text of an optional string.
pub open spec fn opt_str_view(s: Option<&str>) -> Option<Seq<char>> {
    match s {
        Some(x) => Some(x@),
        None => None,
    }
}

/// The early checks of a log query (see `spec_logs_precheck`).
pub fn logs_precheck(
    status: Option<&str>,
    status_known: bool,
    membership: Option<&str>,
    user_id: Option<&str>,
    user_id_ok: bool,
) -> (r: LogsPrecheck)
    ensures
        r == spec_logs_precheck(opt_str_view(status), status_known, opt_str_view(membership), opt_str_view(user_id), user_id_ok),
{
    if status.is_some() && !status_known {
        return LogsPrecheck::Empty;
    }
    let m = match membership {
        Some(text) => match MembershipType::from_str(text) {
            Some(m) => Some(m),
            None => return LogsPrecheck::Empty,
        },
        None => None,
    };
    if user_id.is_some() && !user_id_ok {
        return LogsPrecheck::BadRequest;
    }
    LogsPrecheck::Proceed(m)
}

} // verus!
