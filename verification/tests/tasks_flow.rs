use task_manager::middleware::{authorize_request, guard_outcome, Admission, AuthDecision};
use task_manager::models::{
    CreateTaskRequest, Task, TaskResponse, TaskStatus, UpdateTaskRequest,
};
use task_manager::tasks::{
    apply_update, delete_own_task, deletion_outcome, found_or_not_found, new_task,
    own_task_exists, page_info, paginate, plan_task_listing, plan_update, select_own_task,
    update_own_task, Pagination, TaskError, TaskQuery,
};

fn task() -> Task {
    Task {
        id: "t-1".to_string(),
        user_id: "u-1".to_string(),
        title: "Write report".to_string(),
        description: "quarterly".to_string(),
        status: TaskStatus::Todo,
        created_at: "2024-01-01T00:00:00Z".to_string(),
    }
}

#[test]
fn status_values_round_trip() {
    for s in [TaskStatus::Todo, TaskStatus::InProgress, TaskStatus::Done] {
        assert_eq!(TaskStatus::from_db_value(&s.db_value()), Some(s));
    }
    assert_eq!(TaskStatus::InProgress.db_value(), "inprogress");
    assert_eq!(TaskStatus::from_db_value("in_progress"), None);
    assert_eq!(TaskStatus::from_db_value("Todo"), None);
}

#[test]
fn pagination_defaults_and_clamps() {
    assert_eq!(paginate(None, None), Some(Pagination { page: 1, limit: 10, offset: 0 }));
    assert_eq!(paginate(Some(0), Some(500)), Some(Pagination { page: 1, limit: 100, offset: 0 }));
    assert_eq!(paginate(Some(3), Some(20)), Some(Pagination { page: 3, limit: 20, offset: 40 }));
    assert_eq!(paginate(Some(7), Some(0)), Some(Pagination { page: 7, limit: 0, offset: 0 }));
    assert_eq!(paginate(Some(u32::MAX), Some(100)), None);
    assert_eq!(paginate(Some(u32::MAX), Some(1)), Some(Pagination { page: u32::MAX, limit: 1, offset: u32::MAX - 1 }));
}

#[test]
fn listing_without_filters() {
    let q = TaskQuery { status: None, search: None, page: None, limit: None };
    let plan = plan_task_listing("u-1", &q).unwrap();
    assert_eq!(plan.params, vec!["u-1".to_string()]);
    assert_eq!(plan.count_sql, "SELECT COUNT(*) as count FROM tasks WHERE user_id = ?");
    assert_eq!(
        plan.list_sql,
        "SELECT * FROM tasks WHERE user_id = ? ORDER BY created_at DESC LIMIT 10 OFFSET 0"
    );
}

#[test]
fn listing_with_status_and_search() {
    let q = TaskQuery {
        status: Some(TaskStatus::Done),
        search: Some("rep".to_string()),
        page: Some(2),
        limit: Some(5),
    };
    let plan = plan_task_listing("u-9", &q).unwrap();
    assert_eq!((plan.page, plan.limit, plan.offset), (2, 5, 5));
    assert_eq!(plan.params, vec!["u-9".to_string(), "done".to_string(), "%rep%".to_string()]);
    assert_eq!(
        plan.count_sql,
        "SELECT COUNT(*) as count FROM tasks WHERE user_id = ? AND status = ? AND title LIKE ?"
    );
    assert_eq!(
        plan.list_sql,
        "SELECT * FROM tasks WHERE user_id = ? AND status = ? AND title LIKE ? ORDER BY created_at DESC LIMIT 5 OFFSET 5"
    );
    assert_eq!(plan.list_sql.matches('?').count(), plan.params.len());
}

#[test]
fn listing_with_search_only() {
    let q = TaskQuery { status: None, search: Some(String::new()), page: Some(1), limit: Some(100) };
    let plan = plan_task_listing("u", &q).unwrap();
    assert_eq!(plan.params, vec!["u".to_string(), "%%".to_string()]);
    assert!(plan.count_sql.ends_with("WHERE user_id = ? AND title LIKE ?"));
}

#[test]
fn listing_offset_overflow_is_refused() {
    let q = TaskQuery { status: None, search: None, page: Some(u32::MAX), limit: Some(50) };
    assert!(plan_task_listing("u", &q).is_none());
}

#[test]
fn page_counts() {
    assert_eq!(page_info(1, 10, 0).total_pages, 0);
    assert_eq!(page_info(1, 10, 25).total_pages, 3);
    assert_eq!(page_info(1, 10, 30).total_pages, 3);
    assert_eq!(page_info(1, 10, 1).total_pages, 1);
    assert_eq!(page_info(1, 0, 5).total_pages, u32::MAX);
    assert_eq!(page_info(1, 0, 0).total_pages, 0);
    let info = page_info(2, 7, 15);
    assert_eq!((info.page, info.limit, info.total, info.total_pages), (2, 7, 15, 3));
    // agrees with the float computation for small totals
    for total in 0..300i64 {
        for limit in 1..=12u32 {
            let f = (total as f64 / limit as f64).ceil() as u32;
            assert_eq!(page_info(1, limit, total).total_pages, f);
        }
    }
}

#[test]
fn created_task_is_todo_for_its_owner() {
    let req = CreateTaskRequest { title: "Plan".to_string(), description: "".to_string() };
    let t = new_task("t-2".to_string(), "u-3".to_string(), req, "now".to_string()).unwrap();
    assert_eq!(t.status, TaskStatus::Todo);
    assert_eq!(t.user_id, "u-3");
    assert_eq!(t.title, "Plan");
    let blank = CreateTaskRequest { title: "   ".to_string(), description: "x".to_string() };
    assert_eq!(
        new_task("t".to_string(), "u".to_string(), blank, "now".to_string()),
        Err(TaskError::BadRequest)
    );
}

#[test]
fn update_merges_given_fields() {
    let req = UpdateTaskRequest { title: None, description: Some("new".to_string()), status: Some(TaskStatus::InProgress) };
    let t = apply_update(task(), req).unwrap();
    assert_eq!(t.title, "Write report");
    assert_eq!(t.description, "new");
    assert_eq!(t.status, TaskStatus::InProgress);
    assert_eq!(t.id, "t-1");
    assert_eq!(t.user_id, "u-1");
}

#[test]
fn empty_update_keeps_task() {
    let req = UpdateTaskRequest { title: None, description: None, status: None };
    assert_eq!(apply_update(task(), req), Ok(task()));
}

#[test]
fn update_twice_same_as_once() {
    let req = UpdateTaskRequest { title: Some("T".to_string()), description: None, status: Some(TaskStatus::Done) };
    let once = apply_update(task(), req.clone()).unwrap();
    assert_eq!(apply_update(once.clone(), req), Ok(once));
}

#[test]
fn update_to_blank_title_is_refused() {
    let req = UpdateTaskRequest { title: Some(" ".to_string()), description: None, status: None };
    assert_eq!(apply_update(task(), req), Err(TaskError::BadRequest));
}

#[test]
fn lookups_and_deletions() {
    assert_eq!(found_or_not_found(Some(3)), Ok(3));
    assert_eq!(found_or_not_found::<u8>(None), Err(TaskError::NotFound));
    assert_eq!(deletion_outcome(0), Err(TaskError::NotFound));
    assert_eq!(deletion_outcome(1), Ok(()));
    assert_eq!(TaskError::BadRequest.status_code(), 400);
    assert_eq!(TaskError::NotFound.status_code(), 404);
    assert_eq!(TaskError::Internal.status_code(), 500);
}

#[test]
fn task_response_shows_task_fields() {
    let r = TaskResponse::from_task(task());
    assert_eq!(r.id, "t-1");
    assert_eq!(r.title, "Write report");
    assert_eq!(r.description, "quarterly");
    assert_eq!(r.status, TaskStatus::Todo);
    assert_eq!(r.created_at, "2024-01-01T00:00:00Z");
}

#[test]
fn public_paths_need_no_token() {
    assert_eq!(authorize_request("/api/register", None), AuthDecision::Public);
    assert_eq!(authorize_request("/api/login", Some("junk")), AuthDecision::Public);
    assert_eq!(authorize_request("/health", None), AuthDecision::Public);
    assert_eq!(authorize_request("/healthz", None), AuthDecision::Public);
}

#[test]
fn private_paths_need_a_bearer_token() {
    assert_eq!(authorize_request("/api/tasks", None), AuthDecision::Reject);
    assert_eq!(authorize_request("/api/tasks", Some("Basic abc")), AuthDecision::Reject);
    assert_eq!(authorize_request("/api/tasks", Some("bearer abc")), AuthDecision::Reject);
    assert_eq!(
        authorize_request("/api/tasks/1", Some("Bearer abc.def")),
        AuthDecision::Verify("abc.def".to_string())
    );
    assert_eq!(authorize_request("/api/tasks", Some("Bearer ")), AuthDecision::Verify(String::new()));
}

#[test]
fn guard_outcomes() {
    assert_eq!(guard_outcome(AuthDecision::Public, None), Admission::Anonymous);
    assert_eq!(guard_outcome(AuthDecision::Reject, Some("u".to_string())), Admission::Unauthorized);
    assert_eq!(guard_outcome(AuthDecision::Verify("t".to_string()), None), Admission::Unauthorized);
    assert_eq!(
        guard_outcome(AuthDecision::Verify("t".to_string()), Some("u-1".to_string())),
        Admission::Authenticated("u-1".to_string())
    );
}

#[test]
fn missing_task_is_not_found_before_title_check() {
    let blank = UpdateTaskRequest { title: Some(" ".to_string()), description: None, status: None };
    assert_eq!(plan_update(None, blank.clone()), Err(TaskError::NotFound));
    assert_eq!(plan_update(Some(task()), blank), Err(TaskError::BadRequest));
    let req = UpdateTaskRequest { title: Some("New".to_string()), description: None, status: None };
    assert_eq!(plan_update(Some(task()), req).unwrap().title, "New");
}

#[test]
fn single_task_statements_are_owner_scoped() {
    let s = select_own_task("t-1", "u-1");
    assert_eq!(s.sql, "SELECT * FROM tasks WHERE id = ? AND user_id = ?");
    assert_eq!(s.params, vec!["t-1".to_string(), "u-1".to_string()]);
    let e = own_task_exists("t-1", "u-1");
    assert_eq!(e.sql, "SELECT 1 FROM tasks WHERE id = ? AND user_id = ?");
    assert_eq!(e.params, vec!["t-1".to_string(), "u-1".to_string()]);
    let d = delete_own_task("t-1", "u-1");
    assert_eq!(d.sql, "DELETE FROM tasks WHERE id = ? AND user_id = ?");
    assert_eq!(d.params, vec!["t-1".to_string(), "u-1".to_string()]);
    let mut t = task();
    t.status = TaskStatus::InProgress;
    let u = update_own_task(&t, "t-1", "u-1");
    assert_eq!(
        u.sql,
        "UPDATE tasks SET title = ?, description = ?, status = ? WHERE id = ? AND user_id = ?"
    );
    assert_eq!(
        u.params,
        vec!["Write report", "quarterly", "inprogress", "t-1", "u-1"]
            .into_iter()
            .map(String::from)
            .collect::<Vec<_>>()
    );
    for st in [&s, &e, &d, &u] {
        assert_eq!(st.sql.matches('?').count(), st.params.len());
        assert_eq!(st.params.last().unwrap(), "u-1");
    }
}
