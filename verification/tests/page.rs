use school_db::page::{total, PagedList, Param, Uuid};

fn list() -> PagedList {
    PagedList::new("note WHERE user_id = $1", "ORDER BY id DESC").bind(Param::from(Uuid(0)))
}

/// The window has to be SQL: a `Vec` slice would leave the scan unbounded.
#[test]
fn a_paged_read_windows_and_counts_in_sql() {
    let (sql, count) = list().statements(Some(10), 20);
    assert!(sql.contains("ORDER BY id DESC LIMIT $2 OFFSET $3"));
    assert_eq!(
        count.as_deref(),
        Some("SELECT count(*) FROM note WHERE user_id = $1")
    );
}

/// A whole-table read counts the bare table.
#[test]
fn an_unfiltered_list_counts_the_bare_table() {
    let (sql, count) = PagedList::new("term", "ORDER BY starts_at DESC").statements(Some(5), 0);
    assert!(sql.contains("LIMIT $1 OFFSET $2"));
    assert_eq!(count.as_deref(), Some("SELECT count(*) FROM term"));
}

/// Unpaged from row zero: the rows in hand are the total, so no count runs.
#[test]
fn an_unpaged_read_stays_one_statement() {
    let (sql, count) = list().statements(None, 0);
    assert_eq!(sql, "SELECT * FROM note WHERE user_id = $1 ORDER BY id DESC");
    assert_eq!(count, None);
    // An offset without a limit still hides rows, so it needs the count.
    let (sql, count) = list().statements(None, 3);
    assert!(sql.contains("OFFSET $2"));
    assert!(!sql.contains("LIMIT"));
    assert!(count.is_some());
}

/// The window's placeholders continue the caller's numbering, in emission
/// order.
#[test]
fn window_placeholders_continue_the_where_numbering() {
    let (sql, count) = PagedList::new(
        "note WHERE user_id = $1 AND archived_at IS NULL",
        "ORDER BY id",
    )
    .bind(Param::from(Uuid(0)))
    .statements(Some(2), 4);
    assert!(sql.contains("LIMIT $2 OFFSET $3"));
    assert_eq!(
        count.as_deref(),
        Some("SELECT count(*) FROM note WHERE user_id = $1 AND archived_at IS NULL")
    );
}

/// The page binds the window after the `WHERE`, the count only the `WHERE`.
#[test]
fn the_count_binds_what_the_page_binds_before_its_window() {
    let (page, count) = list().run(Some(10), 20);
    assert_eq!(
        page.sql,
        "SELECT * FROM note WHERE user_id = $1 ORDER BY id DESC LIMIT $2 OFFSET $3"
    );
    assert_eq!(
        format!("{:?}", page.binds),
        "[Uuid(Uuid(0)), I64(10), I64(20)]"
    );
    let count = count.unwrap();
    assert_eq!(count.sql, "SELECT count(*) FROM note WHERE user_id = $1");
    assert_eq!(format!("{:?}", count.binds), "[Uuid(Uuid(0))]");
}

/// The total is the count where one ran, and the rows in hand otherwise.
#[test]
fn the_total_is_the_count_or_the_rows_in_hand() {
    assert_eq!(total(3, Some(41)), 41);
    assert_eq!(total(3, None), 3);
}

/// More than nine placeholders are numbered in decimal.
#[test]
fn placeholders_are_decimal() {
    let mut list = PagedList::new("t", "ORDER BY id");
    for i in 0..9 {
        list = list.bind(Param::from(i as i64));
    }
    let (sql, _) = list.statements(Some(1), 0);
    assert_eq!(sql, "SELECT * FROM t ORDER BY id LIMIT $10 OFFSET $11");
}

/// The rows a window lets through.
fn window(rows: &[i64], page: &str, binds: &[Param]) -> Vec<i64> {
    let mut numbers = binds.iter().filter_map(|bind| match bind {
        Param::I64(value) => Some(*value as usize),
        _ => None,
    });
    let limit = if page.contains("LIMIT") { numbers.next() } else { None };
    let offset = if page.contains("OFFSET") { numbers.next() } else { None };
    rows.iter()
        .copied()
        .skip(offset.unwrap_or(0))
        .take(limit.unwrap_or(rows.len()))
        .collect()
}

/// A page is a slice of the whole list, and its total is the whole list's
/// length whatever the window hides.
#[test]
fn a_page_is_a_slice_and_its_total_is_the_whole() {
    let rows: Vec<i64> = (1..=7).collect();
    for (limit, offset, shown) in [
        (None, 0, vec![1, 2, 3, 4, 5, 6, 7]),
        (None, 5, vec![6, 7]),
        (Some(2), 0, vec![1, 2]),
        (Some(2), 6, vec![7]),
        (Some(0), 0, vec![]),
        (Some(9), 9, vec![]),
    ] {
        let (page, count) = list().run(limit, offset);
        let read = window(&rows, &page.sql, &page.binds);
        assert_eq!(read, shown);
        let counted = count.map(|_| rows.len() as i64);
        assert_eq!(total(read.len(), counted), 7);
    }
}
