use vstd::prelude::*;

use crate::sql::{args_of, placeholder, push_placeholder, SqlArg, SqlStatement, SqlValue};
use crate::text::holds_text;

verus! {

/// Builds the statements that read and write the `todos` table.
pub struct TodoRepository;

/// The two statements of a paginated listing: the page itself and the count of all matches.
pub struct PagedStatements {
    pub select: SqlStatement,
    pub count: SqlStatement,
}

/// `%value%`: a pattern matching any text that holds `value`.
pub open spec fn like_pattern(v: Seq<char>) -> Seq<char> {
    seq!['%'] + v + seq!['%']
}

/// The text search that applies: on `title` or `description` when both a known field and a
/// value are given, with the value wrapped in `%`.
pub open spec fn search_filter(field: Option<String>, value: Option<String>) -> Option<
    (Seq<char>, Seq<char>),
> {
    match field {
        Some(f) => match value {
            Some(v) => if f@ == "title"@ {
                Some(("title"@, like_pattern(v@)))
            } else if f@ == "description"@ {
                Some(("description"@, like_pattern(v@)))
            } else {
                None
            },
            None => None,
        },
        None => None,
    }
}

/// The completion filter that applies: only when exactly one value was given.
pub open spec fn completed_value(completed: Option<Vec<bool>>) -> Option<bool> {
    match completed {
        Some(v) => if v@.len() == 1 {
            Some(v@[0])
        } else {
            None
        },
        None => None,
    }
}

/// The filter conditions after the user condition, parameters numbered from 2.
pub open spec fn filter_sql(search: Option<(Seq<char>, Seq<char>)>, done: Option<bool>) -> Seq<
    char,
> {
    let s = match search {
        Some((col, _)) => " AND "@ + col + " ILIKE "@ + placeholder(2),
        None => Seq::<char>::empty(),
    };
    let n: nat = if search is Some {
        3
    } else {
        2
    };
    let c = match done {
        Some(_) => " AND completed = "@ + placeholder(n),
        None => Seq::<char>::empty(),
    };
    s + c
}

/// The values bound to the filter conditions, in order.
pub open spec fn filter_args(search: Option<(Seq<char>, Seq<char>)>, done: Option<bool>) -> Seq<
    SqlArg,
> {
    let s = match search {
        Some((_, p)) => seq![SqlArg::Text(p)],
        None => Seq::<SqlArg>::empty(),
    };
    let c = match done {
        Some(b) => seq![SqlArg::Bool(b)],
        None => Seq::<SqlArg>::empty(),
    };
    s + c
}

/// The text of the page query.
pub open spec fn paged_select_sql(
    search: Option<(Seq<char>, Seq<char>)>,
    done: Option<bool>,
    column: Seq<char>,
    direction: Seq<char>,
) -> Seq<char> {
    let k = 2 + filter_args(search, done).len();
    "SELECT * FROM todos WHERE user_id = "@ + placeholder(1) + filter_sql(search, done)
        + " ORDER BY "@ + column + " "@ + direction + " "@ + " LIMIT "@ + placeholder(k)
        + " OFFSET "@ + placeholder(k + 1)
}

/// The text of the count query.
pub open spec fn paged_count_sql(search: Option<(Seq<char>, Seq<char>)>, done: Option<bool>) -> Seq<
    char,
> {
    "SELECT COUNT(*) FROM todos WHERE user_id = "@ + placeholder(1) + filter_sql(search, done)
}

/// The rows skipped before the page: `(page - 1) * limit`.
pub open spec fn page_offset(page: int, limit: int) -> int {
    (page - 1) * limit
}

/// Whether the offset of a page fits in an `i64`.
pub open spec fn offset_fits(page: int, limit: int) -> bool {
    i64::MIN <= page - 1 && i64::MIN <= page_offset(page, limit) <= i64::MAX
}

/// The characters of an optional search, as the specification speaks of them.
pub open spec fn search_view(s: Option<(&'static str, String)>) -> Option<(Seq<char>, Seq<char>)> {
    match s {
        Some((c, p)) => Some((c@, p@)),
        None => None,
    }
}

fn search_of(field: &Option<String>, value: &Option<String>) -> (r: Option<(&'static str, String)>)
    ensures
        search_view(r) == search_filter(*field, *value),
{
    match value {
        None => None,
        Some(v) => {
            let col: &'static str = if holds_text(field, "title") {
                "title"
            } else if holds_text(field, "description") {
                "description"
            } else {
                return None;
            };
            let mut pattern = String::from_str("%");
            pattern.append(v.as_str());
            pattern.append("%");
            proof {
                reveal_strlit("%");
                assert(pattern@ =~= like_pattern(v@));
            }
            Some((col, pattern))
        },
    }
}

fn completed_of(completed: &Option<Vec<bool>>) -> (r: Option<bool>)
    ensures
        r == completed_value(*completed),
{
    match completed {
        Some(v) => if v.len() == 1 {
            Some(v[0])
        } else {
            None
        },
        None => None,
    }
}

fn push_filters(
    sql: &mut String,
    binds: &mut Vec<SqlValue>,
    search: &Option<(&'static str, String)>,
    done: Option<bool>,
)
    ensures
        final(sql)@ == old(sql)@ + filter_sql(search_view(*search), done),
        args_of(final(binds)@) == args_of(old(binds)@) + filter_args(search_view(*search), done),
{
    let ghost s0 = sql@;
    let ghost b0 = binds@;
    let mut next: u64 = 2;
    match search {
        Some((col, pattern)) => {
            sql.append(" AND ");
            sql.append(col);
            sql.append(" ILIKE ");
            push_placeholder(sql, 2);
            binds.push(SqlValue::Text(pattern.clone()));
            next = 3;
        },
        None => {},
    }
    match done {
        Some(b) => {
            sql.append(" AND completed = ");
            push_placeholder(sql, next);
            binds.push(SqlValue::Bool(b));
        },
        None => {},
    }
    assert(sql@ =~= s0 + filter_sql(search_view(*search), done));
    assert(args_of(binds@) =~= args_of(b0) + filter_args(search_view(*search), done));
}

fn user_condition(prefix: &str, user_id: u128) -> (r: (String, Vec<SqlValue>))
    ensures
        r.0@ == prefix@ + placeholder(1),
        args_of(r.1@) == seq![SqlArg::Uuid(user_id)],
{
    let mut sql = String::from_str(prefix);
    push_placeholder(&mut sql, 1);
    let mut binds: Vec<SqlValue> = Vec::new();
    binds.push(SqlValue::Uuid(user_id));
    assert(args_of(binds@) =~= seq![SqlArg::Uuid(user_id)]);
    (sql, binds)
}

impl TodoRepository {
    /// The page of a user's todos and the count of all that match: filtered by the search
    /// and completion filter that apply, ordered by the given column and direction, `limit`
    /// rows after skipping `(page - 1) * limit`.
    pub fn find_paginated(
        user_id: u128,
        page: i64,
        limit: i64,
        search_field: Option<String>,
        search_value: Option<String>,
        completed: Option<Vec<bool>>,
        sort_field: &str,
        sort_order: &str,
    ) -> (r: PagedStatements)
        requires
            offset_fits(page as int, limit as int),
        ensures
            r.select.text() == paged_select_sql(
                search_filter(search_field, search_value),
                completed_value(completed),
                sort_field@,
                sort_order@,
            ),
            r.select.args() == seq![SqlArg::Uuid(user_id)] + filter_args(
                search_filter(search_field, search_value),
                completed_value(completed),
            ) + seq![SqlArg::BigInt(limit), SqlArg::BigInt(((page - 1) * limit) as i64)],
            r.count.text() == paged_count_sql(
                search_filter(search_field, search_value),
                completed_value(completed),
            ),
            r.count.args() == seq![SqlArg::Uuid(user_id)] + filter_args(
                search_filter(search_field, search_value),
                completed_value(completed),
            ),
    {
        let offset = (page - 1) * limit;
        let search = search_of(&search_field, &search_value);
        let done = completed_of(&completed);
        let ghost sv = search_view(search);

        let (mut sql, mut binds) = user_condition("SELECT * FROM todos WHERE user_id = ", user_id);
        push_filters(&mut sql, &mut binds, &search, done);
        let k: u64 = binds.len() as u64 + 1;
        proof {
            assert(args_of(binds@).len() == binds@.len());
            assert(k == 2 + filter_args(sv, done).len());
        }
        sql.append(" ORDER BY ");
        sql.append(sort_field);
        sql.append(" ");
        sql.append(sort_order);
        sql.append(" ");
        sql.append(" LIMIT ");
        push_placeholder(&mut sql, k);
        binds.push(SqlValue::BigInt(limit));
        sql.append(" OFFSET ");
        push_placeholder(&mut sql, k + 1);
        binds.push(SqlValue::BigInt(offset));
        let select = SqlStatement { sql, binds };

        let (mut csql, mut cbinds) = user_condition(
            "SELECT COUNT(*) FROM todos WHERE user_id = ",
            user_id,
        );
        push_filters(&mut csql, &mut cbinds, &search, done);
        let count = SqlStatement { sql: csql, binds: cbinds };
        proof {
            assert(select.text() =~= paged_select_sql(sv, done, sort_field@, sort_order@));
            assert(select.args() =~= seq![SqlArg::Uuid(user_id)] + filter_args(sv, done) + seq![
                SqlArg::BigInt(limit),
                SqlArg::BigInt(offset),
            ]);
        }
        PagedStatements { select, count }
    }
}


/// Law: the search value never enters the statement texts; it only travels as a bound
/// value, so any two values give the same texts.
pub proof fn law_search_value_stays_out_of_sql(
    field: Option<String>,
    v1: String,
    v2: String,
    done: Option<bool>,
    column: Seq<char>,
    direction: Seq<char>,
)
    ensures
        paged_select_sql(search_filter(field, Some(v1)), done, column, direction)
            == paged_select_sql(search_filter(field, Some(v2)), done, column, direction),
        paged_count_sql(search_filter(field, Some(v1)), done) == paged_count_sql(
            search_filter(field, Some(v2)),
            done,
        ),
        search_filter(field, Some(v1)) matches Some((_, p)) ==> p == like_pattern(v1@),
{
}

/// Law: the completion filter is ignored unless exactly one value was given: with no value,
/// or with several, both statements and their bound values are those of an unfiltered
/// listing, whatever the search, column and direction; with exactly one value `b`, the
/// filter adds `AND completed = $n` and binds `b` after the other filters.
pub proof fn law_completed_filter_needs_one_value(
    search: Option<(Seq<char>, Seq<char>)>,
    completed: Option<Vec<bool>>,
    column: Seq<char>,
    direction: Seq<char>,
)
    ensures
        !(completed matches Some(v) && v@.len() == 1) ==> {
            &&& completed_value(completed) is None
            &&& paged_select_sql(search, completed_value(completed), column, direction)
                == paged_select_sql(search, None, column, direction)
            &&& paged_count_sql(search, completed_value(completed)) == paged_count_sql(search, None)
            &&& filter_args(search, completed_value(completed)) == filter_args(search, None)
        },
        completed matches Some(v) ==> v@.len() == 1 ==> {
            &&& completed_value(completed) == Some(v@[0])
            &&& filter_sql(search, completed_value(completed)) == filter_sql(search, None)
                + " AND completed = "@ + placeholder(2 + filter_args(search, None).len())
            &&& filter_args(search, completed_value(completed)) == filter_args(search, None)
                + seq![SqlArg::Bool(v@[0])]
        },
{
    assert(filter_sql(search, None) + Seq::<char>::empty() =~= filter_sql(search, None));
    assert(filter_args(search, None) + Seq::<SqlArg>::empty() =~= filter_args(search, None));
}

/// Law: the text search is ignored unless the field is exactly `title` or `description` and
/// a value is given: then both statements and their bound values are those of a listing
/// without search, whatever the completion filter, column and direction. Otherwise it
/// searches that column with `ILIKE`, bound first to the value wrapped in `%`.
pub proof fn law_search_needs_known_field_and_value(
    field: Option<String>,
    value: Option<String>,
    done: Option<bool>,
    column: Seq<char>,
    direction: Seq<char>,
)
    ensures
        !(value is Some && field is Some && (field->0@ == "title"@ || field->0@
            == "description"@)) ==> {
            &&& search_filter(field, value) is None
            &&& paged_select_sql(search_filter(field, value), done, column, direction)
                == paged_select_sql(None, done, column, direction)
            &&& paged_count_sql(search_filter(field, value), done) == paged_count_sql(None, done)
            &&& filter_args(search_filter(field, value), done) == filter_args(None, done)
        },
        value matches Some(v) ==> field matches Some(f) ==> (f@ == "title"@ || f@
            == "description"@) ==> {
            &&& search_filter(field, value) == Some((f@, like_pattern(v@)))
            &&& filter_args(search_filter(field, value), done)[0] == SqlArg::Text(like_pattern(v@))
        },
{
}

/// Law: the count statement binds exactly the values the page statement binds before its
/// limit and offset, so it counts the rows the page is cut from.
pub proof fn law_count_binds_page_filters(
    user_id: u128,
    search: Option<(Seq<char>, Seq<char>)>,
    done: Option<bool>,
    limit: i64,
    offset: i64,
)
    ensures
        ({
            let count = seq![SqlArg::Uuid(user_id)] + filter_args(search, done);
            let page = count + seq![SqlArg::BigInt(limit), SqlArg::BigInt(offset)];
            page.take(count.len() as int) == count && page.len() == count.len() + 2
        }),
{
    let count = seq![SqlArg::Uuid(user_id)] + filter_args(search, done);
    let page = count + seq![SqlArg::BigInt(limit), SqlArg::BigInt(offset)];
    assert(page.take(count.len() as int) =~= count);
}

/// The text that reads one todo of a user.
pub open spec fn find_by_id_sql() -> Seq<char> {
    "SELECT * FROM todos WHERE id = $1 AND user_id = $2"@
}

/// The text that inserts a todo and returns the new row.
pub open spec fn create_sql() -> Seq<char> {
    "INSERT INTO todos (user_id, title, description)\n             VALUES ($1, $2, $3)\n             RETURNING *"@
}

/// The text that updates the given fields of a user's todo, keeps the others, stamps
/// `updated_at` and returns the row.
pub open spec fn update_sql() -> Seq<char> {
    "\n            UPDATE todos\n            SET\n              title = COALESCE($3, title),\n              description = COALESCE($4, description),\n              completed = COALESCE($5, completed),\n              updated_at = now()\n            WHERE id = $1 AND user_id = $2\n            RETURNING *\n            "@
}

/// The text that deletes a user's todo.
pub open spec fn delete_sql() -> Seq<char> {
    "DELETE FROM todos WHERE id = $1 AND user_id = $2"@
}

/// The characters of an optional string.
pub open spec fn opt_text(s: Option<&str>) -> Option<Seq<char>> {
    match s {
        Some(t) => Some(t@),
        None => None,
    }
}

fn owned_opt(s: Option<&str>) -> (r: Option<String>)
    ensures
        match r {
            Some(t) => opt_text(s) == Some(t@),
            None => s is None,
        },
{
    match s {
        Some(t) => Some(t.to_owned()),
        None => None,
    }
}

impl TodoRepository {
    /// The statement that reads the todo `todo_id` of `user_id`.
    pub fn find_by_id(user_id: u128, todo_id: u128) -> (r: SqlStatement)
        ensures
            r.text() == find_by_id_sql(),
            r.args() == seq![SqlArg::Uuid(todo_id), SqlArg::Uuid(user_id)],
    {
        let mut binds: Vec<SqlValue> = Vec::new();
        binds.push(SqlValue::Uuid(todo_id));
        binds.push(SqlValue::Uuid(user_id));
        let r = SqlStatement {
            sql: String::from_str("SELECT * FROM todos WHERE id = $1 AND user_id = $2"),
            binds,
        };
        assert(r.args() =~= seq![SqlArg::Uuid(todo_id), SqlArg::Uuid(user_id)]);
        r
    }

    /// The statement that inserts a todo of `user_id` with a title and an optional description.
    pub fn create(user_id: u128, title: &str, description: Option<&str>) -> (r: SqlStatement)
        ensures
            r.text() == create_sql(),
            r.args() == seq![
                SqlArg::Uuid(user_id),
                SqlArg::Text(title@),
                SqlArg::OptionalText(opt_text(description)),
            ],
    {
        let mut binds: Vec<SqlValue> = Vec::new();
        binds.push(SqlValue::Uuid(user_id));
        binds.push(SqlValue::Text(title.to_owned()));
        binds.push(SqlValue::OptionalText(owned_opt(description)));
        let r = SqlStatement {
            sql: String::from_str(
                "INSERT INTO todos (user_id, title, description)\n             VALUES ($1, $2, $3)\n             RETURNING *",
            ),
            binds,
        };
        assert(r.args() =~= seq![
            SqlArg::Uuid(user_id),
            SqlArg::Text(title@),
            SqlArg::OptionalText(opt_text(description)),
        ]);
        r
    }

    /// The statement that sets the given fields of the todo `todo_id` of `user_id`, keeping
    /// those that are absent.
    pub fn update(
        user_id: u128,
        todo_id: u128,
        title: Option<&str>,
        description: Option<&str>,
        completed: Option<bool>,
    ) -> (r: SqlStatement)
        ensures
            r.text() == update_sql(),
            r.args() == seq![
                SqlArg::Uuid(todo_id),
                SqlArg::Uuid(user_id),
                SqlArg::OptionalText(opt_text(title)),
                SqlArg::OptionalText(opt_text(description)),
                SqlArg::OptionalBool(completed),
            ],
    {
        let mut binds: Vec<SqlValue> = Vec::new();
        binds.push(SqlValue::Uuid(todo_id));
        binds.push(SqlValue::Uuid(user_id));
        binds.push(SqlValue::OptionalText(owned_opt(title)));
        binds.push(SqlValue::OptionalText(owned_opt(description)));
        binds.push(SqlValue::OptionalBool(completed));
        let r = SqlStatement {
            sql: String::from_str(
                "\n            UPDATE todos\n            SET\n              title = COALESCE($3, title),\n              description = COALESCE($4, description),\n              completed = COALESCE($5, completed),\n              updated_at = now()\n            WHERE id = $1 AND user_id = $2\n            RETURNING *\n            ",
            ),
            binds,
        };
        assert(r.args() =~= seq![
            SqlArg::Uuid(todo_id),
            SqlArg::Uuid(user_id),
            SqlArg::OptionalText(opt_text(title)),
            SqlArg::OptionalText(opt_text(description)),
            SqlArg::OptionalBool(completed),
        ]);
        r
    }

    /// The statement that deletes the todo `todo_id` of `user_id`.
    pub fn delete(user_id: u128, todo_id: u128) -> (r: SqlStatement)
        ensures
            r.text() == delete_sql(),
            r.args() == seq![SqlArg::Uuid(todo_id), SqlArg::Uuid(user_id)],
    {
        let mut binds: Vec<SqlValue> = Vec::new();
        binds.push(SqlValue::Uuid(todo_id));
        binds.push(SqlValue::Uuid(user_id));
        let r = SqlStatement {
            sql: String::from_str("DELETE FROM todos WHERE id = $1 AND user_id = $2"),
            binds,
        };
        assert(r.args() =~= seq![SqlArg::Uuid(todo_id), SqlArg::Uuid(user_id)]);
        r
    }
}

} // verus!
