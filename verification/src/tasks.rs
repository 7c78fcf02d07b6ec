//! Task handling: listing queries and their pages, creation, update,
//! lookup and deletion decisions.
use vstd::prelude::*;
use vstd::string::*;

use crate::models::{
    status_db_value, CreateTaskRequest, Task, TaskStatus, UpdateTaskRequest,
};
use crate::text::{concat_text, decimal, has_prefix, is_blank, is_blank_spec, push_decimal};

verus! {

/// Why a task request failed.
#[derive(Clone, Copy, Debug, PartialEq, Eq, Structural)]
pub enum TaskError {
    /// The input is not acceptable (a blank title).
    BadRequest,
    /// No such task belongs to the user.
    NotFound,
    /// The database failed.
    Internal,
}

/// The HTTP status of each task failure.
pub open spec fn task_error_status(e: TaskError) -> u16 {
    match e {
        TaskError::BadRequest => 400,
        TaskError::NotFound => 404,
        TaskError::Internal => 500,
    }
}

impl TaskError {
    /// The HTTP status code to answer with.
    pub fn status_code(&self) -> (r: u16)
        ensures
            r == task_error_status(*self),
    {
        match self {
            TaskError::BadRequest => 400,
            TaskError::NotFound => 404,
            TaskError::Internal => 500,
        }
    }
}

/// Query parameters of a task listing.
#[derive(Clone, Debug, PartialEq, Eq)]
pub struct TaskQuery {
    pub status: Option<TaskStatus>,
    pub search: Option<String>,
    pub page: Option<u32>,
    pub limit: Option<u32>,
}

/// The page asked for: 1 when absent, and never below 1.
pub open spec fn requested_page(page: Option<u32>) -> u32 {
    match page {
        Some(p) => if p >= 1 {
            p
        } else {
            1
        },
        None => 1,
    }
}

/// The page size asked for: 10 when absent, and never above 100.
pub open spec fn requested_limit(limit: Option<u32>) -> u32 {
    match limit {
        Some(l) => if l <= 100 {
            l
        } else {
            100
        },
        None => 10,
    }
}

/// Which rows a page covers.
#[derive(Clone, Copy, Debug, PartialEq, Eq, Structural)]
pub struct Pagination {
    pub page: u32,
    pub limit: u32,
    pub offset: u32,
}

/// The page, page size and row offset of a request, or `None` when the
/// offset `(page - 1) * limit` does not fit in a `u32`.
pub open spec fn pagination_spec(page: Option<u32>, limit: Option<u32>) -> Option<Pagination> {
    let p = requested_page(page);
    let l = requested_limit(limit);
    let offset = (p - 1) * l;
    if offset <= u32::MAX {
        Some(Pagination { page: p, limit: l, offset: offset as u32 })
    } else {
        None
    }
}

/// Works out the page, page size and row offset of a listing request.
pub fn paginate(page: Option<u32>, limit: Option<u32>) -> (r: Option<Pagination>)
    ensures
        r == pagination_spec(page, limit),
        r matches Some(g) ==> {
            &&& (page matches Some(p) ==> g.page == (if p == 0 {
                1
            } else {
                p
            }))
            &&& (page is None ==> g.page == 1)
            &&& (limit matches Some(l) ==> g.limit == (if l > 100 {
                100
            } else {
                l
            }))
            &&& (limit is None ==> g.limit == 10)
            &&& g.offset == (g.page - 1) * g.limit
        },
{
    let p: u32 = match page {
        Some(p) => if p >= 1 {
            p
        } else {
            1
        },
        None => 1,
    };
    let l: u32 = match limit {
        Some(l) => if l <= 100 {
            l
        } else {
            100
        },
        None => 10,
    };
    let pm1: u64 = p as u64 - 1;
    assert(pm1 * (l as u64) <= 0xffff_ffff * 100) by (nonlinear_arith)
        requires
            pm1 <= 0xffff_ffff,
            l <= 100,
    ;
    let offset: u64 = pm1 * (l as u64);
    assert(offset == (p - 1) * l) by (nonlinear_arith)
        requires
            offset == pm1 * (l as u64),
            pm1 == p - 1,
            p >= 1,
    ;
    if offset <= u32::MAX as u64 {
        Some(Pagination { page: p, limit: l, offset: offset as u32 })
    } else {
        None
    }
}

/// The conditions of a listing: always the owner, then the status and the
/// title search when asked for, joined with ` AND `.
pub open spec fn where_clause_spec(has_status: bool, has_search: bool) -> Seq<char> {
    "user_id = ?"@ + (if has_status {
        " AND status = ?"@
    } else {
        Seq::empty()
    }) + (if has_search {
        " AND title LIKE ?"@
    } else {
        Seq::empty()
    })
}

/// The LIKE pattern of a title search: the text anywhere in the title.
pub open spec fn search_pattern(search: Seq<char>) -> Seq<char> {
    "%"@ + search + "%"@
}

/// The values bound to the conditions' placeholders, in order.
pub open spec fn filter_params(
    user_id: Seq<char>,
    status: Option<TaskStatus>,
    search: Option<String>,
) -> Seq<Seq<char>> {
    seq![user_id] + (match status {
        Some(s) => seq![status_db_value(s)],
        None => Seq::empty(),
    }) + (match search {
        Some(t) => seq![search_pattern(t@)],
        None => Seq::empty(),
    })
}

/// The texts of a list of strings.
pub open spec fn texts(v: Seq<String>) -> Seq<Seq<char>> {
    v.map_values(|s: String| s@)
}

/// The query counting the matching tasks.
pub open spec fn count_sql_spec(where_clause: Seq<char>) -> Seq<char> {
    "SELECT COUNT(*) as count FROM tasks WHERE "@ + where_clause
}

/// The query fetching one page of matching tasks, newest first.
pub open spec fn list_sql_spec(where_clause: Seq<char>, limit: u32, offset: u32) -> Seq<char> {
    "SELECT * FROM tasks WHERE "@ + where_clause + " ORDER BY created_at DESC LIMIT "@ + decimal(
        limit as nat,
    ) + " OFFSET "@ + decimal(offset as nat)
}

/// Everything the database is asked for one listing request.
#[derive(Clone, Debug, PartialEq, Eq)]
pub struct TaskListing {
    pub page: u32,
    pub limit: u32,
    pub offset: u32,
    /// Bound, in order, to the placeholders of both queries.
    pub params: Vec<String>,
    pub count_sql: String,
    pub list_sql: String,
}

/// Plans the listing of `user_id`'s tasks for a query: the page, the two
/// queries and their parameters. `None` when the row offset overflows.
pub fn plan_task_listing(user_id: &str, query: &TaskQuery) -> (r: Option<TaskListing>)
    ensures
        pagination_spec(query.page, query.limit) is None ==> r is None,
        pagination_spec(query.page, query.limit) matches Some(g) ==> (r matches Some(t) && ({
            let w = where_clause_spec(query.status is Some, query.search is Some);
            &&& t.page == g.page
            &&& t.limit == g.limit
            &&& t.offset == g.offset
            &&& texts(t.params@) == filter_params(user_id@, query.status, query.search)
            &&& texts(t.params@).len() == 1 + (if query.status is Some {
                1int
            } else {
                0
            }) + (if query.search is Some {
                1int
            } else {
                0
            })
            &&& texts(t.params@)[0] == user_id@
            &&& (query.status matches Some(s) ==> texts(t.params@)[1] == status_db_value(s))
            &&& (query.search matches Some(x) ==> texts(t.params@).last() == "%"@ + x@ + "%"@)
            &&& t.count_sql@ == count_sql_spec(w)
            &&& t.list_sql@ == list_sql_spec(w, g.limit, g.offset)
        })),
{
    let g = match paginate(query.page, query.limit) {
        Some(g) => g,
        None => return None,
    };
    let mut where_clause = String::from_str("user_id = ?");
    let mut params: Vec<String> = Vec::new();
    params.push(String::from_str(user_id));
    let ghost expected = filter_params(user_id@, query.status, query.search);
    match query.status {
        Some(s) => {
            where_clause.append(" AND status = ?");
            params.push(s.db_value());
        },
        None => {},
    }
    match &query.search {
        Some(t) => {
            where_clause.append(" AND title LIKE ?");
            let pattern = concat_text(concat_text("%", t.as_str()).as_str(), "%");
            params.push(pattern);
        },
        None => {},
    }
    assert(where_clause@ =~= where_clause_spec(query.status is Some, query.search is Some));
    assert(texts(params@) =~= expected);
    let count_sql = concat_text("SELECT COUNT(*) as count FROM tasks WHERE ", where_clause.as_str());
    let mut list_sql = concat_text("SELECT * FROM tasks WHERE ", where_clause.as_str());
    list_sql.append(" ORDER BY created_at DESC LIMIT ");
    push_decimal(&mut list_sql, g.limit);
    list_sql.append(" OFFSET ");
    push_decimal(&mut list_sql, g.offset);
    assert(list_sql@ =~= list_sql_spec(where_clause@, g.limit, g.offset));
    Some(
        TaskListing {
            page: g.page,
            limit: g.limit,
            offset: g.offset,
            params,
            count_sql,
            list_sql,
        },
    )
}


/// The number of pages of `limit` rows needed for `total` rows, held within
/// a `u32`: none for no rows, the largest `u32` when rows exist but pages
/// hold none.
pub open spec fn total_pages_spec(total: int, limit: int) -> int {
    if total <= 0 {
        0
    } else if limit == 0 {
        u32::MAX as int
    } else {
        let pages = (total + limit - 1) / limit;
        if pages > u32::MAX {
            u32::MAX as int
        } else {
            pages
        }
    }
}

/// The page summary that accompanies a listing.
#[derive(Clone, Copy, Debug, PartialEq, Eq, Structural)]
pub struct PageInfo {
    pub page: u32,
    pub limit: u32,
    pub total: i64,
    pub total_pages: u32,
}

/// Summarises a page: `total` is the number of matching tasks.
pub fn page_info(page: u32, limit: u32, total: i64) -> (r: PageInfo)
    ensures
        r.page == page,
        r.limit == limit,
        r.total == total,
        r.total_pages == total_pages_spec(total as int, limit as int),
        total <= 0 ==> r.total_pages == 0,
        total > 0 && limit == 0 ==> r.total_pages == u32::MAX,
        total > 0 && limit > 0 && r.total_pages < u32::MAX ==> (r.total_pages - 1) * (limit as int)
            < total <= r.total_pages * (limit as int),
        total > 0 && limit > 0 ==> r.total_pages >= 1,
{
    let total_pages: u32 = if total <= 0 {
        0
    } else if limit == 0 {
        u32::MAX
    } else {
        let t = total as u64;
        let l = limit as u64;
        let q = t / l;
        assert(q <= t) by (nonlinear_arith)
            requires
                q == t / l,
                l > 0,
        ;
        let pages: u64 = if t % l == 0 {
            q
        } else {
            q + 1
        };
        assert(pages == (total + limit - 1) / (limit as int)) by (nonlinear_arith)
            requires
                t == total,
                l == limit,
                l > 0,
                t > 0,
                q == t / l,
                t % l == 0 ==> pages == q,
                t % l != 0 ==> pages == q + 1,
        ;
        if pages > u32::MAX as u64 {
            u32::MAX
        } else {
            pages as u32
        }
    };
    proof {
        if total > 0 && limit > 0 && total_pages < u32::MAX {
            lemma_total_pages_cover(total as int, limit as int);
        }
        if total > 0 && limit > 0 {
            assert((total + limit - 1) / (limit as int) >= 1) by (nonlinear_arith)
                requires
                    total > 0,
                    limit > 0,
            ;
        }
    }
    PageInfo { page, limit, total, total_pages }
}

/// A new task of `user_id`, to do; refused when the title is blank.
pub fn new_task(id: String, user_id: String, req: CreateTaskRequest, created_at: String) -> (r:
    Result<Task, TaskError>)
    ensures
        is_blank_spec(req.title@) ==> r == Err::<Task, TaskError>(TaskError::BadRequest),
        !is_blank_spec(req.title@) ==> r == Ok::<Task, TaskError>(
            Task {
                id,
                user_id,
                title: req.title,
                description: req.description,
                status: TaskStatus::Todo,
                created_at,
            },
        ),
{
    if is_blank(req.title.as_str()) {
        return Err(TaskError::BadRequest);
    }
    Ok(
        Task {
            id,
            user_id,
            title: req.title,
            description: req.description,
            status: TaskStatus::Todo,
            created_at,
        },
    )
}

/// A task with the fields an update gives replaced; absent fields stay.
pub open spec fn merged_task(existing: Task, req: UpdateTaskRequest) -> Task {
    Task {
        title: match req.title {
            Some(t) => t,
            None => existing.title,
        },
        description: match req.description {
            Some(d) => d,
            None => existing.description,
        },
        status: match req.status {
            Some(s) => s,
            None => existing.status,
        },
        ..existing
    }
}

/// The update rule: the merged task, unless its title is blank.
pub open spec fn update_decision(existing: Task, req: UpdateTaskRequest) -> Result<Task, TaskError> {
    let merged = merged_task(existing, req);
    if is_blank_spec(merged.title@) {
        Err(TaskError::BadRequest)
    } else {
        Ok(merged)
    }
}

/// Applies an update to a stored task; the result is what gets written.
pub fn apply_update(existing: Task, req: UpdateTaskRequest) -> (r: Result<Task, TaskError>)
    ensures
        r == update_decision(existing, req),
        r is Ok <==> !is_blank_spec(
            match req.title {
                Some(x) => x@,
                None => existing.title@,
            },
        ),
        r is Err ==> r == Err::<Task, TaskError>(TaskError::BadRequest),
        r matches Ok(t) ==> {
            &&& t.id == existing.id
            &&& t.user_id == existing.user_id
            &&& t.created_at == existing.created_at
            &&& (req.title matches Some(x) ==> t.title == x)
            &&& (req.title is None ==> t.title == existing.title)
            &&& (req.description matches Some(d) ==> t.description == d)
            &&& (req.description is None ==> t.description == existing.description)
            &&& (req.status matches Some(s) ==> t.status == s)
            &&& (req.status is None ==> t.status == existing.status)
        },
{
    let title = match req.title {
        Some(t) => t,
        None => existing.title,
    };
    let description = match req.description {
        Some(d) => d,
        None => existing.description,
    };
    let status = match req.status {
        Some(s) => s,
        None => existing.status,
    };
    if is_blank(title.as_str()) {
        return Err(TaskError::BadRequest);
    }
    Ok(
        Task {
            id: existing.id,
            user_id: existing.user_id,
            title,
            description,
            status,
            created_at: existing.created_at,
        },
    )
}

/// A lookup among the user's own tasks: what was found, or not found.
pub fn found_or_not_found<T>(found: Option<T>) -> (r: Result<T, TaskError>)
    ensures
        match found {
            Some(t) => r == Ok::<T, TaskError>(t),
            None => r == Err::<T, TaskError>(TaskError::NotFound),
        },
{
    match found {
        Some(t) => Ok(t),
        None => Err(TaskError::NotFound),
    }
}

/// A deletion that removed no row removed nothing of the user's.
pub fn deletion_outcome(rows_affected: u64) -> (r: Result<(), TaskError>)
    ensures
        rows_affected == 0 ==> r == Err::<(), TaskError>(TaskError::NotFound),
        rows_affected > 0 ==> r == Ok::<(), TaskError>(()),
{
    if rows_affected == 0 {
        Err(TaskError::NotFound)
    } else {
        Ok(())
    }
}


/// Pages start at 1 and hold at most 100 tasks; without parameters a
/// listing shows page 1 of 10 tasks; the offset skips the earlier pages.
pub proof fn lemma_pagination_bounds(page: Option<u32>, limit: Option<u32>)
    ensures
        pagination_spec(page, limit) matches Some(g) ==> {
            &&& 1 <= g.page
            &&& g.limit <= 100
            &&& g.offset == (g.page - 1) * g.limit
            &&& page is None ==> g.page == 1
            &&& limit is None ==> g.limit == 10
        },
        pagination_spec(None, None) == Some(Pagination { page: 1, limit: 10, offset: 0 }),
{
    assert((1 - 1) * 10int == 0);
}

/// Every listing is confined to the requesting user: its first condition
/// is on the owner and its first parameter is the user's id; the other
/// conditions only narrow it.
pub proof fn lemma_listing_scoped_to_owner(
    user_id: Seq<char>,
    status: Option<TaskStatus>,
    search: Option<String>,
)
    ensures
        filter_params(user_id, status, search)[0] == user_id,
        has_prefix(where_clause_spec(status is Some, search is Some), "user_id = ?"@),
        filter_params(user_id, status, search).len() == 1 + (if status is Some {
            1int
        } else {
            0
        }) + (if search is Some {
            1int
        } else {
            0
        }),
{
    let w = where_clause_spec(status is Some, search is Some);
    let rest = (if status is Some {
        " AND status = ?"@
    } else {
        Seq::<char>::empty()
    }) + (if search is Some {
        " AND title LIKE ?"@
    } else {
        Seq::<char>::empty()
    });
    assert(w =~= "user_id = ?"@ + rest);
    assert(w.subrange(0, "user_id = ?"@.len() as int) =~= "user_id = ?"@);
}

/// The number of `?` placeholders in a query text.
pub open spec fn placeholders(s: Seq<char>) -> nat
    decreases s.len(),
{
    if s.len() == 0 {
        0
    } else {
        placeholders(s.drop_last()) + if s.last() == '?' {
            1nat
        } else {
            0nat
        }
    }
}

proof fn lemma_placeholders_concat(a: Seq<char>, b: Seq<char>)
    ensures
        placeholders(a + b) == placeholders(a) + placeholders(b),
    decreases b.len(),
{
    if b.len() == 0 {
        assert(a + b =~= a);
    } else {
        lemma_placeholders_concat(a, b.drop_last());
        assert((a + b).drop_last() =~= a + b.drop_last());
    }
}

proof fn lemma_placeholders_literals()
    ensures
        placeholders("user_id = ?"@) == 1,
        placeholders(" AND status = ?"@) == 1,
        placeholders(" AND title LIKE ?"@) == 1,
{
    reveal_strlit("user_id = ?");
    reveal_strlit(" AND status = ?");
    reveal_strlit(" AND title LIKE ?");
    reveal_with_fuel(placeholders, 20);
}

/// Each condition of a listing has exactly one placeholder, so the
/// conditions take exactly as many values as the listing binds.
pub proof fn lemma_listing_binds_every_placeholder(
    user_id: Seq<char>,
    status: Option<TaskStatus>,
    search: Option<String>,
)
    ensures
        placeholders(where_clause_spec(status is Some, search is Some)) == filter_params(
            user_id,
            status,
            search,
        ).len(),
{
    lemma_placeholders_literals();
    let a = "user_id = ?"@;
    let b = if status is Some {
        " AND status = ?"@
    } else {
        Seq::<char>::empty()
    };
    let c = if search is Some {
        " AND title LIKE ?"@
    } else {
        Seq::<char>::empty()
    };
    lemma_placeholders_concat(a, b);
    lemma_placeholders_concat(a + b, c);
    assert(placeholders(Seq::<char>::empty()) == 0);
}

/// When the page count is exact (pages hold rows and the count fits), the
/// pages hold all `total` rows and one page fewer would not.
pub proof fn lemma_total_pages_cover(total: int, limit: int)
    requires
        total > 0,
        limit > 0,
        total_pages_spec(total, limit) < u32::MAX,
    ensures
        ({
            let n = total_pages_spec(total, limit);
            &&& total <= n * limit
            &&& (n - 1) * limit < total
        }),
{
    let n = (total + limit - 1) / limit;
    assert(total <= n * limit && (n - 1) * limit < total) by (nonlinear_arith)
        requires
            total > 0,
            limit > 0,
            n == (total + limit - 1) / limit,
    ;
}

/// An update that gives no field leaves a task with a non-blank title as
/// it was.
pub proof fn lemma_empty_update_keeps_task(existing: Task)
    requires
        !is_blank_spec(existing.title@),
    ensures
        update_decision(existing, UpdateTaskRequest { title: None, description: None, status: None })
            == Ok::<Task, TaskError>(existing),
{
}

/// Applying the same update twice is the same as applying it once.
pub proof fn lemma_update_idempotent(existing: Task, req: UpdateTaskRequest)
    ensures
        update_decision(existing, req) matches Ok(t) ==> update_decision(t, req) == Ok::<
            Task,
            TaskError,
        >(t),
{
}


/// Update rule for a looked-up task: a task that is not the user's is not
/// found, whatever the update says; otherwise the update rule applies.
pub fn plan_update(found: Option<Task>, req: UpdateTaskRequest) -> (r: Result<Task, TaskError>)
    ensures
        match found {
            None => r == Err::<Task, TaskError>(TaskError::NotFound),
            Some(t) => r == update_decision(t, req),
        },
{
    match found {
        None => Err(TaskError::NotFound),
        Some(t) => apply_update(t, req),
    }
}

/// A query with the values bound to its placeholders, in order.
#[derive(Clone, Debug, PartialEq, Eq)]
pub struct Statement {
    pub sql: String,
    pub params: Vec<String>,
}

/// A statement that only reaches the user's own row: it ends with the
/// owner condition, binds the user's id last, and binds one value per
/// placeholder.
pub open spec fn scoped_to_owner(sql: Seq<char>, params: Seq<Seq<char>>, user_id: Seq<char>) -> bool {
    &&& sql.len() >= " AND user_id = ?"@.len()
    &&& sql.subrange(sql.len() - " AND user_id = ?"@.len(), sql.len() as int) == " AND user_id = ?"@
    &&& params.len() > 0
    &&& params.last() == user_id
    &&& placeholders(sql) == params.len()
}

proof fn lemma_owner_statements()
    ensures
        scoped_to_owner(
            "SELECT * FROM tasks WHERE id = ? AND user_id = ?"@,
            seq![Seq::<char>::empty(), Seq::<char>::empty()],
            Seq::<char>::empty(),
        ),
        scoped_to_owner(
            "SELECT 1 FROM tasks WHERE id = ? AND user_id = ?"@,
            seq![Seq::<char>::empty(), Seq::<char>::empty()],
            Seq::<char>::empty(),
        ),
        scoped_to_owner(
            "DELETE FROM tasks WHERE id = ? AND user_id = ?"@,
            seq![Seq::<char>::empty(), Seq::<char>::empty()],
            Seq::<char>::empty(),
        ),
        scoped_to_owner(
            "UPDATE tasks SET title = ?, description = ?, status = ? WHERE id = ? AND user_id = ?"@,
            seq![
                Seq::<char>::empty(),
                Seq::<char>::empty(),
                Seq::<char>::empty(),
                Seq::<char>::empty(),
                Seq::<char>::empty(),
            ],
            Seq::<char>::empty(),
        ),
{
    reveal_strlit("SELECT * FROM tasks WHERE id = ? AND user_id = ?");
    reveal_strlit("SELECT 1 FROM tasks WHERE id = ? AND user_id = ?");
    reveal_strlit("DELETE FROM tasks WHERE id = ? AND user_id = ?");
    reveal_strlit(
        "UPDATE tasks SET title = ?, description = ?, status = ? WHERE id = ? AND user_id = ?",
    );
    reveal_strlit(" AND user_id = ?");
    reveal_with_fuel(placeholders, 50);
    let u = "UPDATE tasks SET title = ?, description = ?, status = ? WHERE id = ? AND user_id = ?"@;
    let p1 = "UPDATE tasks SET title = ?"@;
    let p2 = ", description = ?"@;
    let p3 = ", status = ?"@;
    let p4 = " WHERE id = ?"@;
    let p5 = " AND user_id = ?"@;
    reveal_strlit("UPDATE tasks SET title = ?");
    reveal_strlit(", description = ?");
    reveal_strlit(", status = ?");
    reveal_strlit(" WHERE id = ?");
    assert(placeholders(p1) == 1);
    assert(placeholders(p2) == 1);
    assert(placeholders(p3) == 1);
    assert(placeholders(p4) == 1);
    assert(placeholders(p5) == 1);
    assert(u =~= p1 + p2 + p3 + p4 + p5);
    lemma_placeholders_concat(p1, p2);
    lemma_placeholders_concat(p1 + p2, p3);
    lemma_placeholders_concat(p1 + p2 + p3, p4);
    lemma_placeholders_concat(p1 + p2 + p3 + p4, p5);
    assert("SELECT * FROM tasks WHERE id = ? AND user_id = ?"@.subrange(32, 48)
        =~= " AND user_id = ?"@);
    assert("SELECT 1 FROM tasks WHERE id = ? AND user_id = ?"@.subrange(32, 48)
        =~= " AND user_id = ?"@);
    assert("DELETE FROM tasks WHERE id = ? AND user_id = ?"@.subrange(30, 46)
        =~= " AND user_id = ?"@);
    assert("UPDATE tasks SET title = ?, description = ?, status = ? WHERE id = ? AND user_id = ?"@.subrange(
        68,
        84,
    ) =~= " AND user_id = ?"@);
}

fn id_and_owner(id: &str, user_id: &str) -> (r: Vec<String>)
    ensures
        texts(r@) == seq![id@, user_id@],
{
    let mut r: Vec<String> = Vec::new();
    r.push(String::from_str(id));
    r.push(String::from_str(user_id));
    assert(texts(r@) =~= seq![id@, user_id@]);
    r
}

/// Fetches task `id` only if it belongs to `user_id`.
pub fn select_own_task(id: &str, user_id: &str) -> (r: Statement)
    ensures
        r.sql@ == "SELECT * FROM tasks WHERE id = ? AND user_id = ?"@,
        texts(r.params@) == seq![id@, user_id@],
        scoped_to_owner(r.sql@, texts(r.params@), user_id@),
{
    proof {
        lemma_owner_statements();
    }
    Statement {
        sql: String::from_str("SELECT * FROM tasks WHERE id = ? AND user_id = ?"),
        params: id_and_owner(id, user_id),
    }
}

/// Tells whether task `id` exists and belongs to `user_id`.
pub fn own_task_exists(id: &str, user_id: &str) -> (r: Statement)
    ensures
        r.sql@ == "SELECT 1 FROM tasks WHERE id = ? AND user_id = ?"@,
        texts(r.params@) == seq![id@, user_id@],
        scoped_to_owner(r.sql@, texts(r.params@), user_id@),
{
    proof {
        lemma_owner_statements();
    }
    Statement {
        sql: String::from_str("SELECT 1 FROM tasks WHERE id = ? AND user_id = ?"),
        params: id_and_owner(id, user_id),
    }
}

/// Deletes task `id` only if it belongs to `user_id`.
pub fn delete_own_task(id: &str, user_id: &str) -> (r: Statement)
    ensures
        r.sql@ == "DELETE FROM tasks WHERE id = ? AND user_id = ?"@,
        texts(r.params@) == seq![id@, user_id@],
        scoped_to_owner(r.sql@, texts(r.params@), user_id@),
{
    proof {
        lemma_owner_statements();
    }
    Statement {
        sql: String::from_str("DELETE FROM tasks WHERE id = ? AND user_id = ?"),
        params: id_and_owner(id, user_id),
    }
}

/// Writes the title, description and status of `task` to row `id`, only
/// if that row belongs to `user_id`.
pub fn update_own_task(task: &Task, id: &str, user_id: &str) -> (r: Statement)
    ensures
        r.sql@
            == "UPDATE tasks SET title = ?, description = ?, status = ? WHERE id = ? AND user_id = ?"@,
        texts(r.params@) == seq![
            task.title@,
            task.description@,
            status_db_value(task.status),
            id@,
            user_id@,
        ],
        scoped_to_owner(r.sql@, texts(r.params@), user_id@),
{
    proof {
        lemma_owner_statements();
    }
    let mut params: Vec<String> = Vec::new();
    params.push(String::from_str(task.title.as_str()));
    params.push(String::from_str(task.description.as_str()));
    params.push(task.status.db_value());
    params.push(String::from_str(id));
    params.push(String::from_str(user_id));
    assert(texts(params@) =~= seq![
        task.title@,
        task.description@,
        status_db_value(task.status),
        id@,
        user_id@,
    ]);
    Statement {
        sql: String::from_str(
            "UPDATE tasks SET title = ?, description = ?, status = ? WHERE id = ? AND user_id = ?",
        ),
        params,
    }
}


/// An update sets every field it gives and keeps every field it leaves
/// out, whatever the given value (an empty description included); it is
/// refused exactly when the resulting title is blank, and never touches the
/// task's id, owner or creation time. A task that is not the user's is not
/// found, whatever the update.
pub proof fn lemma_update_sets_given_fields(existing: Task, req: UpdateTaskRequest)
    ensures
        update_decision(existing, req) is Ok <==> !is_blank_spec(
            match req.title {
                Some(x) => x@,
                None => existing.title@,
            },
        ),
        update_decision(existing, req) matches Ok(t) ==> {
            &&& t.id == existing.id
            &&& t.user_id == existing.user_id
            &&& t.created_at == existing.created_at
            &&& (req.title matches Some(x) ==> t.title == x)
            &&& (req.title is None ==> t.title == existing.title)
            &&& (req.description matches Some(d) ==> t.description == d)
            &&& (req.description is None ==> t.description == existing.description)
            &&& (req.status matches Some(s) ==> t.status == s)
            &&& (req.status is None ==> t.status == existing.status)
        },
        update_decision(existing, req) matches Err(e) ==> e == TaskError::BadRequest,
{
}

/// The values a listing binds are, in order and independently of one
/// another: the user's id; the stored text of the requested status, if
/// any; the title text wrapped in `%`, if a search is given.
pub proof fn lemma_listing_params(
    user_id: Seq<char>,
    status: Option<TaskStatus>,
    search: Option<String>,
)
    ensures
        filter_params(user_id, status, search)[0] == user_id,
        status matches Some(s) ==> filter_params(user_id, status, search)[1] == status_db_value(s),
        search matches Some(x) ==> filter_params(user_id, status, search).last() == "%"@ + x@
            + "%"@,
        filter_params(user_id, status, search).len() == 1 + (if status is Some {
            1int
        } else {
            0
        }) + (if search is Some {
            1int
        } else {
            0
        }),
{
}


/// The page asked for is kept unless it is 0 (then 1); the page size asked
/// for is kept up to 100; absent, they are 1 and 10; the offset skips the
/// earlier pages, and only an offset beyond `u32` refuses the request.
pub proof fn lemma_pagination_rule(page: Option<u32>, limit: Option<u32>)
    ensures
        ({
            let p: int = match page {
                Some(x) => if x == 0 {
                    1
                } else {
                    x as int
                },
                None => 1,
            };
            let l: int = match limit {
                Some(x) => if x > 100 {
                    100
                } else {
                    x as int
                },
                None => 10,
            };
            &&& pagination_spec(page, limit) is None <==> (p - 1) * l > u32::MAX
            &&& pagination_spec(page, limit) matches Some(g) ==> g.page == p && g.limit == l
                && g.offset == (p - 1) * l
        }),
{
}

/// The exact text of the listing queries: the owner condition first, the
/// optional status and title conditions joined with ` AND `, newest tasks
/// first, one page.
pub proof fn lemma_listing_query_text(has_status: bool, has_search: bool, limit: u32, offset: u32)
    ensures
        where_clause_spec(has_status, has_search) == "user_id = ?"@ + (if has_status {
            " AND status = ?"@
        } else {
            ""@
        }) + (if has_search {
            " AND title LIKE ?"@
        } else {
            ""@
        }),
        count_sql_spec(where_clause_spec(has_status, has_search))
            == "SELECT COUNT(*) as count FROM tasks WHERE "@ + where_clause_spec(has_status, has_search),
        list_sql_spec(where_clause_spec(has_status, has_search), limit, offset)
            == "SELECT * FROM tasks WHERE "@ + where_clause_spec(has_status, has_search)
            + " ORDER BY created_at DESC LIMIT "@ + decimal(limit as nat) + " OFFSET "@ + decimal(
            offset as nat,
        ),
{
    reveal_strlit("");
    assert(""@ =~= Seq::<char>::empty());
}

} // verus!
