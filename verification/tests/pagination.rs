use todo_api::todo::filter_pagination::FilterPaginationQuery;

fn query() -> FilterPaginationQuery {
    FilterPaginationQuery {
        page: None,
        limit: None,
        search_field: None,
        search_value: None,
        completed: None,
        sort_field: None,
        sort_order: None,
    }
}

#[test]
fn normalize_uses_defaults() {
    assert_eq!(query().normalize(), (1, 10));
}

#[test]
fn normalize_clamps_page_and_limit() {
    let mut q = query();
    q.page = Some(-4);
    q.limit = Some(500);
    assert_eq!(q.normalize(), (1, 100));
    q.page = Some(0);
    q.limit = Some(0);
    assert_eq!(q.normalize(), (1, 1));
    q.page = Some(7);
    q.limit = Some(25);
    assert_eq!(q.normalize(), (7, 25));
}

#[test]
fn parse_completed_absent() {
    assert_eq!(query().parse_completed(), None);
}

#[test]
fn parse_completed_keeps_booleans_in_order() {
    let mut q = query();
    q.completed = Some("true,false,maybe,true".to_string());
    assert_eq!(q.parse_completed(), Some(vec![true, false, true]));
}

#[test]
fn parse_completed_is_exact_about_words() {
    let mut q = query();
    q.completed = Some("TRUE, false,,false".to_string());
    assert_eq!(q.parse_completed(), Some(vec![false]));
    q.completed = Some(String::new());
    assert_eq!(q.parse_completed(), Some(vec![]));
    q.completed = Some(",".to_string());
    assert_eq!(q.parse_completed(), Some(vec![]));
}

#[test]
fn sort_field_known_columns() {
    let mut q = query();
    assert_eq!(q.sort_field(), "created_at");
    for f in ["title", "description", "completed", "created_at"] {
        q.sort_field = Some(f.to_string());
        assert_eq!(q.sort_field(), f);
    }
    q.sort_field = Some("id; DROP TABLE todos".to_string());
    assert_eq!(q.sort_field(), "created_at");
    q.sort_field = Some("Title".to_string());
    assert_eq!(q.sort_field(), "created_at");
}

#[test]
fn sort_order_values() {
    let mut q = query();
    assert_eq!(q.sort_order(), "DESC");
    q.sort_order = Some("asc".to_string());
    assert_eq!(q.sort_order(), "ASC");
    q.sort_order = Some("desc".to_string());
    assert_eq!(q.sort_order(), "DESC");
    q.sort_order = Some("ASC".to_string());
    assert_eq!(q.sort_order(), "DESC");
}

#[test]
fn offset_fits_checks_overflow() {
    let mut q = query();
    assert!(q.offset_fits());
    q.page = Some(i64::MAX);
    q.limit = Some(100);
    assert!(!q.offset_fits());
    q.limit = Some(1);
    assert!(q.offset_fits());
}

#[test]
fn completed_list_reads_back_what_was_written() {
    for list in [vec![], vec![true], vec![false, false], vec![true, false, true, true]] {
        let text: Vec<&str> = list.iter().map(|b| if *b { "true" } else { "false" }).collect();
        let mut q = query();
        q.completed = Some(text.join(","));
        assert_eq!(q.parse_completed(), Some(list));
    }
}
