use ctrunner::pagination::{assemble, plan_filter, Fragment, PaginatedResponse, Pagination, QueryPlan};
use sqlx::sqlite::SqliteConnection;
use sqlx::Connection;

async fn run(conn: &mut SqliteConnection, plan: &QueryPlan) -> PaginatedResponse<String> {
    let mut count = sqlx::query_scalar::<_, i64>(&plan.count_sql);
    for b in &plan.binds {
        count = count.bind(b.clone());
    }
    let total = count.fetch_one(&mut *conn).await.unwrap();
    let mut data = sqlx::query_scalar::<_, String>(&plan.data_sql);
    for b in &plan.binds {
        data = data.bind(b.clone());
    }
    let rows = data.bind(plan.limit).bind(plan.offset).fetch_all(&mut *conn).await.unwrap();
    assemble(plan.request, total as u64, rows)
}

fn with_table<F>(names: &[&str], check: F)
where
    F: FnOnce(&mut SqliteConnection) -> std::pin::Pin<Box<dyn std::future::Future<Output = ()> + '_>>,
{
    let rt = tokio::runtime::Builder::new_current_thread().enable_all().build().unwrap();
    rt.block_on(async {
        let mut conn = SqliteConnection::connect("sqlite::memory:").await.unwrap();
        sqlx::query("CREATE TABLE fruits (name TEXT NOT NULL)").execute(&mut conn).await.unwrap();
        for n in names {
            sqlx::query("INSERT INTO fruits (name) VALUES (?)")
                .bind(n.to_string())
                .execute(&mut conn)
                .await
                .unwrap();
        }
        check(&mut conn).await;
    });
}

fn filter_plan() -> QueryPlan {
    plan_filter(
        "fruits",
        &Pagination::default(),
        Some(Fragment { text: "LOWER(name) LIKE ? ORDER BY name" }),
        vec!["ap%".to_string()],
    )
}

#[test]
fn filter_matches_case_insensitively() {
    for order in [["Apple", "apricot", "Banana"], ["Banana", "apricot", "Apple"]] {
        with_table(&order, |conn| {
            Box::pin(async move {
                let r = run(conn, &filter_plan()).await;
                let mut names = r.data.clone();
                names.sort();
                assert_eq!(names, vec!["Apple".to_string(), "apricot".to_string()]);
                assert_eq!(r.total_count, 2);
                assert_eq!(r.total_pages, 1);
            })
        });
    }
}

#[test]
fn sqlite_pages_and_empty_table() {
    with_table(&["a", "b", "c", "d", "e"], |conn| {
        Box::pin(async move {
            let p = |page| {
                plan_filter(
                    "fruits",
                    &Pagination { page: Some(page), page_size: Some(2) },
                    Some(Fragment { text: "TRUE ORDER BY name" }),
                    vec![],
                )
            };
            let first = run(conn, &p(1)).await;
            assert_eq!(first.data, vec!["a".to_string(), "b".to_string()]);
            assert_eq!(first.total_pages, 3);
            let third = run(conn, &p(3)).await;
            assert_eq!(third.data, vec!["e".to_string()]);
            let past = run(conn, &p(7)).await;
            assert!(past.data.is_empty());
            assert_eq!(past.total_count, 5);
        })
    });
    with_table(&[], |conn| {
        Box::pin(async move {
            let r = run(conn, &filter_plan()).await;
            assert!(r.data.is_empty());
            assert_eq!(r.total_count, 0);
            assert_eq!(r.total_pages, 0);
        })
    });
}
