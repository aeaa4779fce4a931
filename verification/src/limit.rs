//! The counted limit/offset query wrapper.
//!
//! Wrapping a query `q` yields the query
//! `SELECT *, COUNT(*) OVER () FROM (<q>) AS x LIMIT $m OFFSET $n`:
//! every returned row carries all of `q`'s columns plus one trailing column
//! holding the total number of rows `q` would have produced without the
//! limit, computed by the window function over the full inner result before
//! `LIMIT`/`OFFSET` cuts the page out.

use vstd::math::{max, min};
use vstd::prelude::*;

use crate::sql::{placeholder, QueryFragment, SqlBuffer};

verus! {

/// A query that returns at most `limit` rows of `query`, starting at `offset`,
/// each paired with the total row count of the unlimited `query`.
///
/// Immutable once built: `limit` and `offset` replace one field each and
/// return a new wrapper value.
pub struct CountedLimitQuery<T> {
    pub query: T,
    pub limit: i64,
    pub offset: i64,
}

/// The wrapper that `counted_limit(query, limit)` builds: `offset` defaults
/// to zero.
pub open spec fn spec_counted_limit<T>(query: T, limit: i64) -> CountedLimitQuery<T> {
    CountedLimitQuery { query, limit, offset: 0 }
}

/// `q` with its limit replaced and everything else untouched.
pub open spec fn with_limit<T>(q: CountedLimitQuery<T>, limit: i64) -> CountedLimitQuery<T> {
    CountedLimitQuery { query: q.query, limit, offset: q.offset }
}

/// `q` with its offset replaced and everything else untouched.
pub open spec fn with_offset<T>(q: CountedLimitQuery<T>, offset: i64) -> CountedLimitQuery<T> {
    CountedLimitQuery { query: q.query, limit: q.limit, offset }
}

impl<T> CountedLimitQuery<T> {
    /// Returns a new wrapper whose offset is `offset`; the inner query and the
    /// limit are untouched.
    pub fn offset(self, offset: i64) -> (r: CountedLimitQuery<T>)
        ensures
            r == with_offset(self, offset),
    {
        CountedLimitQuery { offset, ..self }
    }

    /// Returns a new wrapper whose limit is `limit`; the inner query and the
    /// offset are untouched.
    pub fn limit(self, limit: i64) -> (r: CountedLimitQuery<T>)
        ensures
            r == with_limit(self, limit),
    {
        CountedLimitQuery { limit, ..self }
    }
}

/// Wraps any query into a [`CountedLimitQuery`] with the given limit and an
/// offset of zero.
pub trait CountedLimitDsl: Sized {
    fn counted_limit(self, limit: i64) -> (r: CountedLimitQuery<Self>)
        ensures
            r == spec_counted_limit(self, limit),
    ;
}

impl<T> CountedLimitDsl for T {
    fn counted_limit(self, limit: i64) -> (r: CountedLimitQuery<T>) {
        CountedLimitQuery { query: self, limit, offset: 0 }
    }
}

/// The literal text before the inner query.
pub open spec fn counted_prefix() -> Seq<char> {
    "SELECT *, COUNT(*) OVER () FROM ("@
}

/// The literal text between the inner query and the limit placeholder.
pub open spec fn counted_infix() -> Seq<char> {
    ") AS x LIMIT "@
}

/// The literal text between the limit and offset placeholders.
pub open spec fn counted_offset_sep() -> Seq<char> {
    " OFFSET "@
}

impl<T: QueryFragment> QueryFragment for CountedLimitQuery<T> {
    open spec fn sql_text(&self, prior_binds: nat) -> Seq<char> {
        counted_prefix() + self.query.sql_text(prior_binds) + counted_infix()
            + placeholder(prior_binds + self.query.binds_model().len() + 1) + counted_offset_sep()
            + placeholder(prior_binds + self.query.binds_model().len() + 2)
    }

    open spec fn binds_model(&self) -> Seq<i64> {
        self.query.binds_model() + seq![self.limit, self.offset]
    }

    fn walk_ast(&self, out: &mut SqlBuffer) {
        out.push_sql("SELECT *, COUNT(*) OVER () FROM (");
        self.query.walk_ast(out);
        out.push_sql(") AS x LIMIT ");
        out.push_bind_i64(self.limit);
        out.push_sql(" OFFSET ");
        out.push_bind_i64(self.offset);
        proof {
            assert(out.sql@ =~= old(out).sql@ + self.sql_text(old(out).binds@.len()));
            assert(out.binds@ =~= old(out).binds@ + self.binds_model());
        }
    }
}

/// The decoded output of a counted query: the page of rows, in the order the
/// database returned them, and the total row count of the unlimited query.
pub struct CountedLimitResult<T> {
    pub results: Vec<T>,
    pub count: i64,
}

/// The record parts of a decoded row sequence, in order.
pub open spec fn firsts<T>(rows: Seq<(T, i64)>) -> Seq<T> {
    rows.map_values(|p: (T, i64)| p.0)
}

/// The total count read off a decoded row sequence: the count column of the
/// first row, or zero when no row came back.
pub open spec fn total_of<T>(rows: Seq<(T, i64)>) -> i64 {
    if rows.len() == 0 {
        0
    } else {
        rows[0].1
    }
}

impl<T> CountedLimitResult<T> {
    /// Decodes the rows a counted query returned: strips the count column from
    /// each row, keeping the order, and takes the total from the first row
    /// (zero when the page is empty).
    pub fn from_rows(rows: Vec<(T, i64)>) -> (r: CountedLimitResult<T>)
        ensures
            r.results@ == firsts(rows@),
            r.count == total_of(rows@),
    {
        let count: i64 = if rows.len() == 0 {
            0
        } else {
            rows[0].1
        };
        let ghost all = rows@;
        let mut remaining = rows;
        let mut results: Vec<T> = Vec::new();
        proof {
            assert(results@ + firsts(remaining@) =~= firsts(all));
        }
        while remaining.len() > 0
            invariant
                results@ + firsts(remaining@) == firsts(all),
            decreases remaining.len(),
        {
            let p = remaining.remove(0);
            results.push(p.0);
            proof {
                assert(results@ + firsts(remaining@) =~= firsts(all));
            }
        }
        proof {
            assert(results@ =~= firsts(all));
        }
        CountedLimitResult { results, count }
    }
}

/// What the database returns for a counted query whose inner query produces
/// `rows`: the window function counts the full inner result, then
/// `LIMIT`/`OFFSET` cut the page out, so every returned row is paired with the
/// total row count.
pub open spec fn counted_rows<T>(rows: Seq<T>, limit: int, offset: int) -> Seq<(T, i64)>
    recommends
        0 <= limit,
        0 <= offset,
        rows.len() <= i64::MAX,
{
    let total = rows.len() as int;
    let lo = min(offset, total);
    let hi = min(offset + limit, total);
    if 0 <= lo && lo <= hi {
        rows.subrange(lo, hi).map_values(|t: T| (t, total as i64))
    } else {
        Seq::empty()
    }
}

/// For every non-negative limit and offset, the page a counted query returns
/// over an inner query producing `rows` has `min(limit, max(0, N - offset))`
/// rows, where `N` is the full inner row count.
pub proof fn lemma_counted_page_len<T>(rows: Seq<T>, limit: int, offset: int)
    requires
        0 <= limit,
        0 <= offset,
        rows.len() <= i64::MAX,
    ensures
        firsts(counted_rows(rows, limit, offset)).len() == min(limit, max(0, rows.len() - offset)),
{
}

/// The decoded total equals `N`, the full row count of the inner query — as
/// long as the page is not empty while rows exist. With `N > 0` but
/// `offset >= N` or `limit == 0`, no row comes back to carry the count and the
/// decoded total falls back to zero, a limitation inherent to reading the
/// count off the first returned row.
pub proof fn lemma_counted_total<T>(rows: Seq<T>, limit: int, offset: int)
    requires
        0 <= limit,
        0 <= offset,
        rows.len() <= i64::MAX,
        rows.len() == 0 || (offset < rows.len() && 0 < limit),
    ensures
        total_of(counted_rows(rows, limit, offset)) == rows.len() as i64,
{
    let page = counted_rows(rows, limit, offset);
    if rows.len() > 0 {
        let total = rows.len() as int;
        let hi = min(offset + limit, total);
        assert(offset < hi);
        assert(page[0] == (rows[offset], total as i64));
    }
}

/// An inner query that matches zero rows yields an empty page and a total
/// count of zero, whatever the limit and offset.
pub proof fn lemma_empty_inner_query<T>(limit: int, offset: int)
    requires
        0 <= limit,
        0 <= offset,
    ensures
        firsts(counted_rows(Seq::<T>::empty(), limit, offset)) == Seq::<T>::empty(),
        total_of(counted_rows(Seq::<T>::empty(), limit, offset)) == 0,
{
    assert(firsts(counted_rows(Seq::<T>::empty(), limit, offset)) =~= Seq::<T>::empty());
}

/// Setting the limit twice is the same as setting it once to the second
/// value: the last write wins, nothing accumulates.
pub proof fn lemma_limit_last_write_wins<T>(q: CountedLimitQuery<T>, a: i64, b: i64)
    ensures
        with_limit(with_limit(q, a), b) == with_limit(q, b),
{
}

/// Setting the offset twice is the same as setting it once to the second
/// value.
pub proof fn lemma_offset_last_write_wins<T>(q: CountedLimitQuery<T>, a: i64, b: i64)
    ensures
        with_offset(with_offset(q, a), b) == with_offset(q, b),
{
}

/// `counted_limit(q, limit)` is exactly `counted_limit(q, limit)` with the
/// offset then set to zero: leaving the offset out means zero.
pub proof fn lemma_default_offset<T>(q: T, limit: i64)
    ensures
        with_offset(spec_counted_limit(q, limit), 0) == spec_counted_limit(q, limit),
{
}

/// The limit and offset values never reach the SQL text: two wrappers around
/// the same inner query render to identical text whatever their limits and
/// offsets — only the bound parameter values differ.
pub proof fn lemma_values_never_alter_sql<T: QueryFragment>(
    q1: CountedLimitQuery<T>,
    q2: CountedLimitQuery<T>,
    prior_binds: nat,
)
    requires
        q1.query == q2.query,
    ensures
        q1.sql_text(prior_binds) == q2.sql_text(prior_binds),
{
}

} // verus!
