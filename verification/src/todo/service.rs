use vstd::prelude::*;

use crate::error::{AppError, DbError, Failure};
use crate::todo::filter_pagination::{
    completed_filter, normalized_limit, normalized_page, sort_column, sort_direction,
    FilterPaginationQuery, PaginationMeta,
};
use crate::todo::repository::{
    completed_value, filter_args, offset_fits, paged_count_sql, paged_select_sql, search_filter,
    PagedStatements, TodoRepository,
};
use crate::sql::SqlArg;

verus! {

/// The todo use cases: what each answers for what the database gave back.
pub struct TodoService;

/// A listing in progress: its two statements and the page and size they were built for.
pub struct ListPlan {
    pub statements: PagedStatements,
    pub page: i64,
    pub limit: i64,
}

/// The least whole number of pages of `limit` rows that hold `total` rows.
pub open spec fn pages_for(total: int, limit: int) -> int {
    if total >= 0 {
        (total + limit - 1) / limit
    } else {
        -((-total) / limit)
    }
}

/// The completion filter a query asks for, before deciding whether it applies.
pub open spec fn query_completed(q: FilterPaginationQuery) -> Option<Seq<bool>> {
    match q.completed {
        Some(c) => Some(completed_filter(c@)),
        None => None,
    }
}

/// The completion value that a query's filter applies: only when it names exactly one boolean.
pub open spec fn query_completed_value(q: FilterPaginationQuery) -> Option<bool> {
    match query_completed(q) {
        Some(v) => if v.len() == 1 {
            Some(v[0])
        } else {
            None
        },
        None => None,
    }
}

/// Whether the offset of the page a query asks for fits in an `i64`.
pub open spec fn query_offset_fits(q: FilterPaginationQuery) -> bool {
    offset_fits(normalized_page(q.page) as int, normalized_limit(q.limit) as int)
}

/// Law: the number of pages is the ceiling of `total / limit`: enough pages of `limit` rows to
/// hold all rows, and one fewer would not be.
pub proof fn law_pages_cover_total(total: int, limit: int)
    requires
        limit >= 1,
    ensures
        pages_for(total, limit) * limit >= total,
        (pages_for(total, limit) - 1) * limit < total,
        total >= 0 ==> 0 <= pages_for(total, limit) <= total,
        total < 0 ==> total <= pages_for(total, limit) <= 0,
{
    if total >= 0 {
        let k = (total + limit - 1) / limit;
        assert(k * limit <= total + limit - 1 && total + limit - 1 < k * limit + limit)
            by (nonlinear_arith)
            requires
                limit >= 1,
                total + limit - 1 >= 0,
                k == (total + limit - 1) / limit,
        ;
        assert(0 <= k <= total) by (nonlinear_arith)
            requires
                limit >= 1,
                total >= 0,
                k == (total + limit - 1) / limit,
        ;
        assert(k * limit >= total && (k - 1) * limit < total) by (nonlinear_arith)
            requires
                k * limit <= total + limit - 1,
                total + limit - 1 < k * limit + limit,
        ;
    } else {
        let m = (-total) / limit;
        assert(m * limit <= -total && -total < m * limit + limit) by (nonlinear_arith)
            requires
                limit >= 1,
                -total >= 0,
                m == (-total) / limit,
        ;
        assert(0 <= m <= -total) by (nonlinear_arith)
            requires
                limit >= 1,
                -total >= 0,
                m == (-total) / limit,
        ;
        assert((-m) * limit >= total && (-m - 1) * limit < total) by (nonlinear_arith)
            requires
                m * limit <= -total,
                -total < m * limit + limit,
        ;
    }
}

/// Maps a failed database call to an internal error.
fn internal<T>(r: Result<T, DbError>) -> (out: Result<T, AppError>)
    ensures
        match r {
            Ok(v) => out == Ok::<T, AppError>(v),
            Err(_) => out matches Err(e) && e@ == Failure::InternalServerError,
        },
{
    match r {
        Ok(v) => Ok(v),
        Err(_) => Err(AppError::InternalServerError),
    }
}

/// The exact ceiling of `total / limit`.
fn ceil_pages(total: i64, limit: i64) -> (r: i64)
    requires
        limit >= 1,
    ensures
        r == pages_for(total as int, limit as int),
        r * limit >= total,
        (r - 1) * limit < total,
{
    let t = total as i128;
    let l = limit as i128;
    let q: i128 = if t >= 0 {
        (t + l - 1) / l
    } else {
        0 - (0 - t) / l
    };
    proof {
        law_pages_cover_total(total as int, limit as int);
    }
    q as i64
}

impl FilterPaginationQuery {
    /// Whether the page this query asks for can be listed: its offset, `(page - 1) * limit`
    /// after normalizing, fits in an `i64`.
    pub fn offset_fits(&self) -> (r: bool)
        ensures
            r == query_offset_fits(*self),
    {
        let (page, limit) = self.normalize();
        let prev = page - 1;
        match prev.checked_mul(limit) {
            Some(_) => true,
            None => false,
        }
    }
}

impl TodoService {
    /// Plans the listing of a user's todos: the normalized page and size, the completion
    /// filter, the sort column and direction, and the two statements built from them.
    pub fn list_paginated(user_id: u128, query: FilterPaginationQuery) -> (r: ListPlan)
        requires
            query_offset_fits(query),
        ensures
            r.page == normalized_page(query.page),
            r.limit == normalized_limit(query.limit),
            1 <= r.limit <= 100,
            r.statements.select.text() == paged_select_sql(
                search_filter(query.search_field, query.search_value),
                query_completed_value(query),
                sort_column(query.sort_field),
                sort_direction(query.sort_order),
            ),
            r.statements.select.args() == seq![SqlArg::Uuid(user_id)] + filter_args(
                search_filter(query.search_field, query.search_value),
                query_completed_value(query),
            ) + seq![
                SqlArg::BigInt(r.limit),
                SqlArg::BigInt(((r.page - 1) * r.limit) as i64),
            ],
            r.statements.count.text() == paged_count_sql(
                search_filter(query.search_field, query.search_value),
                query_completed_value(query),
            ),
            r.statements.count.args() == seq![SqlArg::Uuid(user_id)] + filter_args(
                search_filter(query.search_field, query.search_value),
                query_completed_value(query),
            ),
    {
        let (page, limit) = query.normalize();
        let completed = query.parse_completed();
        let sort_field = query.sort_field();
        let sort_order = query.sort_order();
        assert(completed_value(completed) == query_completed_value(query));
        let statements = TodoRepository::find_paginated(
            user_id,
            page,
            limit,
            query.search_field,
            query.search_value,
            completed,
            sort_field,
            sort_order,
        );
        ListPlan { statements, page, limit }
    }

    /// A todo that was looked up: 404 "Todo not found" when there is none, 500 when the
    /// database failed.
    pub fn get<T>(found: Result<Option<T>, DbError>) -> (r: Result<T, AppError>)
        ensures
            match found {
                Ok(Some(t)) => r == Ok::<T, AppError>(t),
                Ok(None) => r matches Err(e) && e@ == Failure::NotFound("Todo not found"@),
                Err(_) => r matches Err(e) && e@ == Failure::InternalServerError,
            },
    {
        match internal(found)? {
            Some(t) => Ok(t),
            None => Err(AppError::not_found("Todo not found")),
        }
    }

    /// A todo that was inserted: 500 when the database failed.
    pub fn create<T>(created: Result<T, DbError>) -> (r: Result<T, AppError>)
        ensures
            match created {
                Ok(t) => r == Ok::<T, AppError>(t),
                Err(_) => r matches Err(e) && e@ == Failure::InternalServerError,
            },
    {
        internal(created)
    }

    /// A todo that was updated: 404 "Todo not found" when no row of the user matched, 500 when
    /// the database failed.
    pub fn update<T>(updated: Result<Option<T>, DbError>) -> (r: Result<T, AppError>)
        ensures
            match updated {
                Ok(Some(t)) => r == Ok::<T, AppError>(t),
                Ok(None) => r matches Err(e) && e@ == Failure::NotFound("Todo not found"@),
                Err(_) => r matches Err(e) && e@ == Failure::InternalServerError,
            },
    {
        match internal(updated)? {
            Some(t) => Ok(t),
            None => Err(AppError::not_found("Todo not found")),
        }
    }

    /// A delete, given the rows it removed: 404 "Todo not found" when none, 500 when the
    /// database failed.
    pub fn delete(rows_affected: Result<u64, DbError>) -> (r: Result<(), AppError>)
        ensures
            match rows_affected {
                Ok(n) => if n > 0 {
                    r is Ok
                } else {
                    r matches Err(e) && e@ == Failure::NotFound("Todo not found"@)
                },
                Err(_) => r matches Err(e) && e@ == Failure::InternalServerError,
            },
    {
        let deleted = internal(rows_affected)? > 0;
        if !deleted {
            return Err(AppError::not_found("Todo not found"));
        }
        Ok(())
    }
}

impl ListPlan {
    /// The page of todos and its paging information, given what the two statements returned:
    /// the total number of pages is the least that holds all matching rows.
    pub fn finish<T>(self, fetched: Result<(Vec<T>, i64), DbError>) -> (r: Result<
        (Vec<T>, PaginationMeta),
        AppError,
    >)
        requires
            self.limit >= 1,
        ensures
            match fetched {
                Ok((todos, total)) => r matches Ok((t, meta)) && t == todos && meta.page
                    == self.page && meta.limit == self.limit && meta.total_records == total
                    && meta.total_pages == pages_for(total as int, self.limit as int),
                Err(_) => r matches Err(e) && e@ == Failure::InternalServerError,
            },
    {
        let (todos, total_records) = internal(fetched)?;
        let total_pages = ceil_pages(total_records, self.limit);
        Ok((todos, PaginationMeta { page: self.page, limit: self.limit, total_records, total_pages }))
    }
}

} // verus!
