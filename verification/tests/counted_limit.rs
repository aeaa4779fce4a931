use diesel_postgres::limit::{CountedLimitDsl, CountedLimitQuery, CountedLimitResult};
use diesel_postgres::sql::{QueryFragment, RawSql, SqlBuffer};

fn render<T: QueryFragment>(q: &T) -> (String, Vec<i64>) {
    let mut out = SqlBuffer::new();
    q.walk_ast(&mut out);
    (out.sql, out.binds)
}

/// What the database returns for a counted query over these inner rows: the
/// page after limit/offset, each row paired with the full count.
fn database_rows(rows: Vec<u32>, limit: i64, offset: i64) -> Vec<(u32, i64)> {
    let total = rows.len() as i64;
    rows.into_iter()
        .skip(offset as usize)
        .take(limit as usize)
        .map(|r| (r, total))
        .collect()
}

#[test]
fn renders_exact_sql_with_bound_parameters() {
    let q = RawSql::new(String::from("SELECT id FROM t"));
    let wrapped = q.counted_limit(10).offset(5);
    let (sql, binds) = render(&wrapped);
    assert_eq!(
        sql,
        "SELECT *, COUNT(*) OVER () FROM (SELECT id FROM t) AS x LIMIT $1 OFFSET $2"
    );
    assert_eq!(binds, vec![10, 5]);
}

#[test]
fn values_never_alter_sql_text() {
    let baseline = render(&RawSql::new(String::from("SELECT id FROM t")).counted_limit(10).offset(5)).0;
    let cases: Vec<(i64, i64)> = vec![
        (-1, -7),
        (i64::MAX, i64::MAX),
        (i64::MIN, 0),
        (0, i64::MAX),
    ];
    for (limit, offset) in cases {
        let q = RawSql::new(String::from("SELECT id FROM t")).counted_limit(limit).offset(offset);
        let (sql, binds) = render(&q);
        assert_eq!(sql, baseline);
        assert_eq!(binds, vec![limit, offset]);
    }
}

#[test]
fn nested_wrappers_number_placeholders_in_order() {
    let inner = RawSql::new(String::from("SELECT id FROM t")).counted_limit(3).offset(1);
    let outer = inner.counted_limit(7).offset(2);
    let (sql, binds) = render(&outer);
    assert_eq!(
        sql,
        "SELECT *, COUNT(*) OVER () FROM (SELECT *, COUNT(*) OVER () FROM (SELECT id FROM t) AS x LIMIT $1 OFFSET $2) AS x LIMIT $3 OFFSET $4"
    );
    assert_eq!(binds, vec![3, 1, 7, 2]);
}

#[test]
fn placeholders_go_past_nine_in_decimal() {
    let mut out = SqlBuffer::new();
    for i in 0..12 {
        out.push_bind_i64(i);
    }
    assert_eq!(out.sql, "$1$2$3$4$5$6$7$8$9$10$11$12");
    assert_eq!(out.binds, (0..12).collect::<Vec<i64>>());
}

#[test]
fn limit_last_write_wins() {
    let a = RawSql::new(String::from("SELECT id FROM t")).counted_limit(4).limit(9);
    let b = RawSql::new(String::from("SELECT id FROM t")).counted_limit(9);
    assert_eq!(a.limit, b.limit);
    assert_eq!(a.offset, b.offset);
    assert_eq!(a.query.sql, b.query.sql);
}

#[test]
fn offset_defaults_to_zero() {
    let a = RawSql::new(String::from("SELECT id FROM t")).counted_limit(4);
    let b = RawSql::new(String::from("SELECT id FROM t")).counted_limit(4).offset(0);
    assert_eq!(a.limit, b.limit);
    assert_eq!(a.offset, 0);
    assert_eq!(b.offset, 0);
    assert_eq!(render(&a), render(&b));
}

#[test]
fn builders_replace_one_field_each() {
    let q: CountedLimitQuery<RawSql> =
        RawSql::new(String::from("SELECT id FROM t")).counted_limit(4).offset(6).offset(11).limit(2);
    assert_eq!(q.limit, 2);
    assert_eq!(q.offset, 11);
    assert_eq!(q.query.sql, "SELECT id FROM t");
}

#[test]
fn empty_result_decodes_to_empty_page_and_zero_total() {
    let r: CountedLimitResult<u32> = CountedLimitResult::from_rows(Vec::new());
    assert!(r.results.is_empty());
    assert_eq!(r.count, 0);
}

#[test]
fn decode_strips_count_and_keeps_order() {
    let rows: Vec<(u32, i64)> = vec![(30, 3), (10, 3), (20, 3)];
    let r = CountedLimitResult::from_rows(rows);
    assert_eq!(r.results, vec![30, 10, 20]);
    assert_eq!(r.count, 3);
}

#[test]
fn page_in_the_middle_of_the_result() {
    let rows: Vec<u32> = (0..25).collect();
    let r = CountedLimitResult::from_rows(database_rows(rows, 10, 5));
    assert_eq!(r.results, (5..15).collect::<Vec<u32>>());
    assert_eq!(r.count, 25);
}

#[test]
fn twenty_five_rows_limit_ten_offset_twenty() {
    let rows: Vec<u32> = (0..25).collect();
    let r = CountedLimitResult::from_rows(database_rows(rows, 10, 20));
    assert_eq!(r.results.len(), 5);
    assert_eq!(r.results, (20..25).collect::<Vec<u32>>());
    assert_eq!(r.count, 25);
}

#[test]
fn offset_past_the_end_loses_the_total() {
    let rows: Vec<u32> = (0..4).collect();
    let r = CountedLimitResult::from_rows(database_rows(rows, 10, 9));
    assert!(r.results.is_empty());
    assert_eq!(r.count, 0);
}
