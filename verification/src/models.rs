//! The records the service stores and answers with.
use vstd::prelude::*;
use vstd::string::*;

verus! {

/// Where a task stands on the board.
#[derive(Clone, Copy, Debug, PartialEq, Eq, Structural)]
pub enum TaskStatus {
    Todo,
    InProgress,
    Done,
}

/// The text a status is stored as: its variant name in lower case.
pub open spec fn status_db_value(s: TaskStatus) -> Seq<char> {
    match s {
        TaskStatus::Todo => "todo"@,
        TaskStatus::InProgress => "inprogress"@,
        TaskStatus::Done => "done"@,
    }
}

/// The status a stored text stands for, if any.
pub open spec fn status_from_db_value(v: Seq<char>) -> Option<TaskStatus> {
    if v == "todo"@ {
        Some(TaskStatus::Todo)
    } else if v == "inprogress"@ {
        Some(TaskStatus::InProgress)
    } else if v == "done"@ {
        Some(TaskStatus::Done)
    } else {
        None
    }
}

impl TaskStatus {
    /// The text under which the status is written to the database and
    /// compared in filters.
    pub fn db_value(&self) -> (r: String)
        ensures
            r@ == status_db_value(*self),
    {
        match self {
            TaskStatus::Todo => String::from_str("todo"),
            TaskStatus::InProgress => String::from_str("inprogress"),
            TaskStatus::Done => String::from_str("done"),
        }
    }

    /// Reads a stored status back.
    pub fn from_db_value(v: &str) -> (r: Option<TaskStatus>)
        ensures
            r == status_from_db_value(v@),
    {
        if crate::text::str_eq(v, "todo") {
            Some(TaskStatus::Todo)
        } else if crate::text::str_eq(v, "inprogress") {
            Some(TaskStatus::InProgress)
        } else if crate::text::str_eq(v, "done") {
            Some(TaskStatus::Done)
        } else {
            None
        }
    }
}

/// A status written to the database reads back as the same status.
pub proof fn lemma_status_db_value_round_trip(s: TaskStatus)
    ensures
        status_from_db_value(status_db_value(s)) == Some(s),
{
    reveal_strlit("todo");
    reveal_strlit("inprogress");
    reveal_strlit("done");
    assert("todo"@.len() != "inprogress"@.len());
    assert("todo"@[0] != "done"@[0]);
    assert("inprogress"@.len() != "done"@.len());
}

/// Statuses are stored as their variant names in lower case.
pub proof fn lemma_status_db_values()
    ensures
        status_db_value(TaskStatus::Todo) == "todo"@,
        status_db_value(TaskStatus::InProgress) == "inprogress"@,
        status_db_value(TaskStatus::Done) == "done"@,
{
}

/// Only the three stored texts read back as a status, each as the status
/// that is stored under it.
pub proof fn lemma_status_from_db_value_inverse(v: Seq<char>)
    ensures
        status_from_db_value(v) matches Some(s) ==> v == status_db_value(s),
        status_from_db_value(v) is None ==> (v != "todo"@ && v != "inprogress"@ && v != "done"@),
{
}

/// A stored task. `created_at` is the creation time as text.
#[derive(Clone, Debug, PartialEq, Eq)]
pub struct Task {
    pub id: String,
    pub user_id: String,
    pub title: String,
    pub description: String,
    pub status: TaskStatus,
    pub created_at: String,
}

/// What the API shows of a task.
#[derive(Clone, Debug, PartialEq, Eq)]
pub struct TaskResponse {
    pub id: String,
    pub title: String,
    pub description: String,
    pub status: TaskStatus,
    pub created_at: String,
}

impl TaskResponse {
    /// The public view of `task`.
    pub fn from_task(task: Task) -> (r: TaskResponse)
        ensures
            r.id == task.id,
            r.title == task.title,
            r.description == task.description,
            r.status == task.status,
            r.created_at == task.created_at,
    {
        TaskResponse {
            id: task.id,
            title: task.title,
            description: task.description,
            status: task.status,
            created_at: task.created_at,
        }
    }
}

/// A registered user with the bcrypt hash of the password.
#[derive(Clone, Debug, PartialEq, Eq)]
pub struct User {
    pub id: String,
    pub username: String,
    pub password_hash: String,
    pub created_at: String,
}

impl User {
    /// A user record from its parts.
    pub fn new(id: String, username: String, password_hash: String, created_at: String) -> (r: User)
        ensures
            r.id == id,
            r.username == username,
            r.password_hash == password_hash,
            r.created_at == created_at,
    {
        User { id, username, password_hash, created_at }
    }
}

/// What the API shows of a user: never the password hash.
#[derive(Clone, Debug, PartialEq, Eq)]
pub struct UserResponse {
    pub id: String,
    pub username: String,
    pub created_at: String,
}

impl UserResponse {
    /// The public view of `user`.
    pub fn from_user(user: User) -> (r: UserResponse)
        ensures
            r.id == user.id,
            r.username == user.username,
            r.created_at == user.created_at,
    {
        UserResponse { id: user.id, username: user.username, created_at: user.created_at }
    }
}

/// The answer to a successful registration or login.
#[derive(Clone, Debug, PartialEq, Eq)]
pub struct AuthResponse {
    pub token: String,
    pub user: UserResponse,
}

/// Body of a registration request.
#[derive(Clone, Debug, PartialEq, Eq)]
pub struct RegisterRequest {
    pub username: String,
    pub password: String,
}

/// Body of a login request.
#[derive(Clone, Debug, PartialEq, Eq)]
pub struct LoginRequest {
    pub username: String,
    pub password: String,
}

/// Body of a task creation request.
#[derive(Clone, Debug, PartialEq, Eq)]
pub struct CreateTaskRequest {
    pub title: String,
    pub description: String,
}

/// Body of a task update: absent fields keep their value.
#[derive(Clone, Debug, PartialEq, Eq)]
pub struct UpdateTaskRequest {
    pub title: Option<String>,
    pub description: Option<String>,
    pub status: Option<TaskStatus>,
}

/// Body of a status change.
#[derive(Clone, Debug, PartialEq, Eq)]
pub struct UpdateTaskStatusRequest {
    pub status: TaskStatus,
}

/// The body of an error answer.
#[derive(Clone, Debug, PartialEq, Eq)]
pub struct ErrorMessage {
    pub error: String,
}

} // verus!
