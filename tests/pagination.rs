use ctrunner::pagination::{
    assemble, paginate_rows, plan, plan_filter, total_pages, Fragment, PageRequest, Pagination,
    DEFAULT_PAGE_SIZE,
};

fn request(page: i64, page_size: i64) -> Pagination {
    Pagination { page: Some(page), page_size: Some(page_size) }
}

fn rows(n: i64) -> Vec<i64> {
    (1..=n).collect()
}

#[test]
fn page_never_exceeds_page_size() {
    for size in 1..6 {
        for page in 1..8 {
            let r = paginate_rows(rows(13), &request(page, size));
            assert!(r.data.len() as i64 <= r.page_size);
        }
    }
    let r = assemble(PageRequest { page: 1, page_size: 2 }, 9, vec![1, 2, 3, 4]);
    assert_eq!(r.data, vec![1, 2]);
    assert_eq!(r.total_count, 9);
    assert_eq!(r.total_pages, 5);
}

#[test]
fn total_pages_is_ceiling() {
    assert_eq!(total_pages(5, 2), 3);
    assert_eq!(total_pages(4, 2), 2);
    assert_eq!(total_pages(1, 20), 1);
    assert_eq!(total_pages(20, 20), 1);
    assert_eq!(total_pages(21, 20), 2);
    assert_eq!(total_pages(0, 20), 0);
    assert_eq!(total_pages(u64::MAX, 1), u64::MAX);
    assert_eq!(total_pages(u64::MAX, 2), u64::MAX / 2 + 1);
}

#[test]
fn page_past_the_last_is_empty() {
    let r = paginate_rows(rows(5), &request(4, 2));
    assert!(r.data.is_empty());
    assert_eq!(r.total_count, 5);
    assert_eq!(r.total_pages, 3);
    assert_eq!(r.page, 4);
    let far = paginate_rows(rows(5), &request(i64::MAX, i64::MAX));
    assert!(far.data.is_empty());
    assert_eq!(far.total_count, 5);
}

#[test]
fn out_of_range_values_use_defaults() {
    let cases = [
        Pagination { page: Some(0), page_size: Some(0) },
        Pagination { page: Some(-4), page_size: Some(-1) },
        Pagination { page: None, page_size: None },
        Pagination::default(),
    ];
    for p in cases.iter() {
        assert_eq!(p.normalize(), PageRequest { page: 1, page_size: DEFAULT_PAGE_SIZE });
    }
    assert_eq!(request(3, 7).normalize(), PageRequest { page: 3, page_size: 7 });
    let r = paginate_rows(rows(30), &Pagination { page: Some(0), page_size: Some(-2) });
    assert_eq!(r.page, 1);
    assert_eq!(r.page_size, 20);
    assert_eq!(r.data, rows(20));
}

#[test]
fn repeated_requests_give_identical_responses() {
    let first = paginate_rows(rows(9), &request(2, 4));
    let second = paginate_rows(rows(9), &request(2, 4));
    assert_eq!(first.data, second.data);
    assert_eq!(first.total_count, second.total_count);
    assert_eq!(first.total_pages, second.total_pages);
    let a = plan_filter("t", &request(2, 4), Some(Fragment { text: "x = ?" }), vec!["1".to_string()]);
    let b = plan_filter("t", &request(2, 4), Some(Fragment { text: "x = ?" }), vec!["1".to_string()]);
    assert_eq!(a.count_sql, b.count_sql);
    assert_eq!(a.data_sql, b.data_sql);
    assert_eq!(a.binds, b.binds);
    assert_eq!((a.limit, a.offset), (b.limit, b.offset));
}

#[test]
fn five_rows_two_to_a_page() {
    let first = paginate_rows(rows(5), &request(1, 2));
    assert_eq!(first.data, vec![1, 2]);
    assert_eq!(first.total_pages, 3);
    assert_eq!(first.total_count, 5);
    let third = paginate_rows(rows(5), &request(3, 2));
    assert_eq!(third.data, vec![5]);
    assert_eq!(third.total_pages, 3);
}

#[test]
fn empty_table_gives_empty_response() {
    let r = paginate_rows(Vec::<i64>::new(), &Pagination::default());
    assert!(r.data.is_empty());
    assert_eq!(r.total_count, 0);
    assert_eq!(r.total_pages, 0);
    let a = assemble(PageRequest { page: 1, page_size: 20 }, 0, Vec::<i64>::new());
    assert!(a.data.is_empty());
    assert_eq!(a.total_pages, 0);
}

#[test]
fn plan_builds_statements() {
    let p = plan("races_view", &request(3, 20));
    assert_eq!(p.count_sql, "SELECT COUNT(*) FROM races_view WHERE TRUE");
    assert_eq!(p.data_sql, "SELECT * FROM races_view WHERE TRUE LIMIT ? OFFSET ?");
    assert!(p.binds.is_empty());
    assert_eq!(p.limit, 20);
    assert_eq!(p.offset, 40);
    let f = plan_filter(
        "users_view",
        &Pagination::default(),
        Some(Fragment { text: "name LIKE ? ORDER BY name" }),
        vec!["a%".to_string()],
    );
    assert_eq!(f.count_sql, "SELECT COUNT(*) FROM users_view WHERE name LIKE ? ORDER BY name");
    assert_eq!(
        f.data_sql,
        "SELECT * FROM users_view WHERE name LIKE ? ORDER BY name LIMIT ? OFFSET ?"
    );
    assert_eq!(f.binds, vec!["a%".to_string()]);
    assert_eq!(f.offset, 0);
    let huge = plan("t", &request(i64::MAX, i64::MAX));
    assert_eq!(huge.offset, i64::MAX);
}
