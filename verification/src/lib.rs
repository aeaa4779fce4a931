//! Counted limit/offset queries: wrap an arbitrary `SELECT` so that a single
//! round trip returns both a page of rows (`LIMIT`/`OFFSET`) and the total
//! number of rows the unlimited query would have produced, via the
//! `COUNT(*) OVER ()` window function.

pub mod limit;
pub mod sql;
