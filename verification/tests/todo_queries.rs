use todo_api::error::{AppError, DbError};
use todo_api::sql::SqlValue;
use todo_api::todo::filter_pagination::FilterPaginationQuery;
use todo_api::todo::repository::TodoRepository;
use todo_api::todo::service::TodoService;

fn texts(binds: &[SqlValue]) -> Vec<String> {
    binds
        .iter()
        .map(|b| match b {
            SqlValue::Uuid(u) => format!("uuid:{u}"),
            SqlValue::Text(t) => format!("text:{t}"),
            SqlValue::OptionalText(t) => format!("opttext:{t:?}"),
            SqlValue::Bool(b) => format!("bool:{b}"),
            SqlValue::OptionalBool(b) => format!("optbool:{b:?}"),
            SqlValue::BigInt(i) => format!("int:{i}"),
            SqlValue::Time(t) => format!("time:{}.{}", t.secs, t.nanos),
        })
        .collect()
}

#[test]
fn paginated_with_title_search_and_one_completed_value() {
    let s = TodoRepository::find_paginated(
        7,
        3,
        10,
        Some("title".to_string()),
        Some("milk".to_string()),
        Some(vec![true]),
        "title",
        "ASC",
    );
    assert_eq!(
        s.select.sql,
        "SELECT * FROM todos WHERE user_id = $1 AND title ILIKE $2 AND completed = $3 ORDER BY title ASC  LIMIT $4 OFFSET $5"
    );
    assert_eq!(
        texts(&s.select.binds),
        vec!["uuid:7", "text:%milk%", "bool:true", "int:10", "int:20"]
    );
    assert_eq!(
        s.count.sql,
        "SELECT COUNT(*) FROM todos WHERE user_id = $1 AND title ILIKE $2 AND completed = $3"
    );
    assert_eq!(texts(&s.count.binds), vec!["uuid:7", "text:%milk%", "bool:true"]);
}

#[test]
fn paginated_without_filters() {
    let s = TodoRepository::find_paginated(1, 1, 10, None, None, None, "created_at", "DESC");
    assert_eq!(
        s.select.sql,
        "SELECT * FROM todos WHERE user_id = $1 ORDER BY created_at DESC  LIMIT $2 OFFSET $3"
    );
    assert_eq!(texts(&s.select.binds), vec!["uuid:1", "int:10", "int:0"]);
    assert_eq!(s.count.sql, "SELECT COUNT(*) FROM todos WHERE user_id = $1");
}

#[test]
fn paginated_ignores_unknown_field_and_many_completed_values() {
    let s = TodoRepository::find_paginated(
        1,
        2,
        5,
        Some("owner".to_string()),
        Some("x".to_string()),
        Some(vec![true, false]),
        "created_at",
        "DESC",
    );
    assert_eq!(
        s.select.sql,
        "SELECT * FROM todos WHERE user_id = $1 ORDER BY created_at DESC  LIMIT $2 OFFSET $3"
    );
    assert_eq!(texts(&s.select.binds), vec!["uuid:1", "int:5", "int:5"]);
}

#[test]
fn paginated_description_search_without_value_is_ignored() {
    let s = TodoRepository::find_paginated(
        1,
        1,
        10,
        Some("description".to_string()),
        None,
        Some(vec![false]),
        "created_at",
        "DESC",
    );
    assert_eq!(
        s.count.sql,
        "SELECT COUNT(*) FROM todos WHERE user_id = $1 AND completed = $2"
    );
    assert_eq!(texts(&s.count.binds), vec!["uuid:1", "bool:false"]);
}

#[test]
fn search_value_only_travels_as_bound_value() {
    let evil = "'; DROP TABLE todos; --".to_string();
    let s = TodoRepository::find_paginated(
        1,
        1,
        10,
        Some("description".to_string()),
        Some(evil.clone()),
        None,
        "created_at",
        "DESC",
    );
    assert!(!s.select.sql.contains("DROP"));
    assert!(!s.count.sql.contains("DROP"));
    assert_eq!(texts(&s.select.binds)[1], format!("text:%{evil}%"));
}

#[test]
fn list_paginated_uses_normalized_query() {
    let q = FilterPaginationQuery {
        page: Some(0),
        limit: Some(1000),
        search_field: None,
        search_value: None,
        completed: Some("false".to_string()),
        sort_field: Some("completed".to_string()),
        sort_order: Some("asc".to_string()),
    };
    let plan = TodoService::list_paginated(9, q);
    assert_eq!(plan.page, 1);
    assert_eq!(plan.limit, 100);
    assert_eq!(
        plan.statements.select.sql,
        "SELECT * FROM todos WHERE user_id = $1 AND completed = $2 ORDER BY completed ASC  LIMIT $3 OFFSET $4"
    );
    assert_eq!(
        texts(&plan.statements.select.binds),
        vec!["uuid:9", "bool:false", "int:100", "int:0"]
    );
}

#[test]
fn list_finish_counts_pages() {
    let q = FilterPaginationQuery {
        page: Some(2),
        limit: Some(10),
        search_field: None,
        search_value: None,
        completed: None,
        sort_field: None,
        sort_order: None,
    };
    let plan = TodoService::list_paginated(1, q);
    let (rows, meta) = plan.finish(Ok((vec!["a", "b"], 25))).ok().unwrap();
    assert_eq!(rows, vec!["a", "b"]);
    assert_eq!((meta.page, meta.limit, meta.total_records, meta.total_pages), (2, 10, 25, 3));
}

#[test]
fn total_pages_edges() {
    for (total, limit, pages) in [(0, 10, 0), (30, 10, 3), (31, 10, 4), (1, 100, 1), (99, 1, 99)] {
        let q = FilterPaginationQuery {
            page: None,
            limit: Some(limit),
            search_field: None,
            search_value: None,
            completed: None,
            sort_field: None,
            sort_order: None,
        };
        let plan = TodoService::list_paginated(1, q);
        let (_, meta) = plan.finish(Ok((Vec::<u8>::new(), total))).ok().unwrap();
        assert_eq!(meta.total_pages, pages);
    }
}

#[test]
fn list_finish_database_error() {
    let q = FilterPaginationQuery {
        page: None,
        limit: None,
        search_field: None,
        search_value: None,
        completed: None,
        sort_field: None,
        sort_order: None,
    };
    let plan = TodoService::list_paginated(1, q);
    let r = plan.finish(Err::<(Vec<u8>, i64), _>(DbError));
    assert_eq!(r.err().unwrap().status_code(), 500);
}

#[test]
fn single_todo_statements() {
    let s = TodoRepository::find_by_id(1, 2);
    assert_eq!(s.sql, "SELECT * FROM todos WHERE id = $1 AND user_id = $2");
    assert_eq!(texts(&s.binds), vec!["uuid:2", "uuid:1"]);
    let s = TodoRepository::create(1, "Buy milk", Some("2 litres"));
    assert!(s.sql.starts_with("INSERT INTO todos (user_id, title, description)"));
    assert!(s.sql.ends_with("RETURNING *"));
    assert_eq!(
        texts(&s.binds),
        vec!["uuid:1", "text:Buy milk", "opttext:Some(\"2 litres\")"]
    );
    let s = TodoRepository::update(1, 2, None, Some("d"), Some(true));
    assert!(s.sql.contains("title = COALESCE($3, title)"));
    assert_eq!(
        texts(&s.binds),
        vec!["uuid:2", "uuid:1", "opttext:None", "opttext:Some(\"d\")", "optbool:Some(true)"]
    );
    let s = TodoRepository::delete(1, 2);
    assert_eq!(s.sql, "DELETE FROM todos WHERE id = $1 AND user_id = $2");
    assert_eq!(texts(&s.binds), vec!["uuid:2", "uuid:1"]);
}

#[test]
fn service_maps_lookups() {
    assert_eq!(TodoService::get(Ok(Some(5))).ok(), Some(5));
    match TodoService::get::<u8>(Ok(None)) {
        Err(AppError::NotFound(m)) => assert_eq!(m, "Todo not found"),
        _ => panic!("expected not found"),
    }
    assert!(matches!(TodoService::get::<u8>(Err(DbError)), Err(AppError::InternalServerError)));
    assert_eq!(TodoService::create(Ok(3)).ok(), Some(3));
    assert!(matches!(TodoService::create::<u8>(Err(DbError)), Err(AppError::InternalServerError)));
    assert!(matches!(TodoService::update::<u8>(Ok(None)), Err(AppError::NotFound(_))));
    assert!(TodoService::delete(Ok(1)).is_ok());
    assert!(matches!(TodoService::delete(Ok(0)), Err(AppError::NotFound(_))));
    assert!(matches!(TodoService::delete(Err(DbError)), Err(AppError::InternalServerError)));
}

#[test]
fn inapplicable_filters_match_unfiltered_listing() {
    let plain = TodoRepository::find_paginated(4, 2, 3, None, None, None, "title", "ASC");
    let cases: Vec<(Option<String>, Option<String>, Option<Vec<bool>>)> = vec![
        (Some("Title".to_string()), Some("a".to_string()), Some(vec![])),
        (Some("title".to_string()), None, Some(vec![true, true])),
        (None, Some("a".to_string()), None),
        (Some("description ".to_string()), Some("a".to_string()), Some(vec![false, true, false])),
    ];
    for (field, value, completed) in cases {
        let s = TodoRepository::find_paginated(4, 2, 3, field, value, completed, "title", "ASC");
        assert_eq!(s.select.sql, plain.select.sql);
        assert_eq!(texts(&s.select.binds), texts(&plain.select.binds));
        assert_eq!(s.count.sql, plain.count.sql);
        assert_eq!(texts(&s.count.binds), texts(&plain.count.binds));
    }
}

#[test]
fn description_search_binds_wrapped_value_first() {
    let s = TodoRepository::find_paginated(
        2,
        1,
        10,
        Some("description".to_string()),
        Some("a_b".to_string()),
        None,
        "updated_at",
        "ASC",
    );
    assert_eq!(
        s.select.sql,
        "SELECT * FROM todos WHERE user_id = $1 AND description ILIKE $2 ORDER BY updated_at ASC  LIMIT $3 OFFSET $4"
    );
    assert_eq!(texts(&s.select.binds), vec!["uuid:2", "text:%a_b%", "int:10", "int:0"]);
}
