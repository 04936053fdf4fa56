use vstd::prelude::*;
use crate::errors::AppError;
use crate::models::{AddTaskBody, DeleteTaskBody, UpdateTaskBody};
use crate::table::Op;

verus! {

pub open spec fn is_lower_hex(c: char) -> bool {
    ('0' <= c && c <= '9') || ('a' <= c && c <= 'f')
}

/// The hyphenated lower-case text of a random (version 4, RFC 4122 variant) UUID.
pub open spec fn is_uuid_v4_text(s: Seq<char>) -> bool {
    &&& s.len() == 36
    &&& forall|i: int|
        0 <= i < 36 ==> if i == 8 || i == 13 || i == 18 || i == 23 {
            #[trigger] s[i] == '-'
        } else {
            is_lower_hex(s[i])
        }
    &&& s[14] == '4'
    &&& s[19] == '8' || s[19] == '9' || s[19] == 'a' || s[19] == 'b'
}

/// Relies on uuid's `Uuid::new_v4` and its `Display`: a random UUID with the
/// version and variant bits set, written as 8-4-4-4-12 lower-case hex digits.
/// Nothing is promised of the random digits, so two calls may agree.
#[verifier::external_body]
fn new_task_id() -> (r: String)
    ensures
        is_uuid_v4_text(r@),
{
    uuid::Uuid::new_v4().to_string()
}

/// A validated request, ready for the repository to turn into SQL.
#[derive(Debug, Clone, PartialEq, Eq)]
pub enum Command {
    Insert { id: String, description: String, completed: i32 },
    FetchAll,
    Update { id: String, body: UpdateTaskBody },
    Delete { id: String },
}

impl View for Command {
    type V = Op;

    open spec fn view(&self) -> Op {
        match self {
            Command::Insert { id, description, completed } => Op::Insert {
                id: id@,
                description: description@,
                completed: *completed as int,
            },
            Command::FetchAll => Op::FetchAll,
            Command::Update { id, body } => Op::Update {
                id: id@,
                description: body.description_view(),
                completed: body.completed_view(),
            },
            Command::Delete { id } => Op::Delete { id: id@ },
        }
    }
}

/// Request-level validation and id assignment.
pub struct TaskService;

impl TaskService {
    /// Empty text is refused; otherwise the task gets a fresh random id and
    /// starts open.
    pub fn create_task(body: AddTaskBody) -> (r: Result<Command, AppError>)
        ensures
            body.task@.len() == 0 <==> (r matches Err(AppError::InvalidTask)),
            body.task@.len() != 0 ==> (r matches Ok(c) && ({
                &&& c@ is Insert
                &&& c@->Insert_description == body.task@
                &&& c@->Insert_completed == 0
                &&& is_uuid_v4_text(c@->Insert_id)
            })),
    {
        if body.task.as_str().is_empty() {
            return Err(AppError::InvalidTask);
        }
        let id = new_task_id();
        Ok(Command::Insert { id, description: body.task, completed: 0 })
    }

    /// Listing needs no validation.
    pub fn list_tasks() -> (r: Command)
        ensures
            r@ == Op::FetchAll,
    {
        Command::FetchAll
    }

    /// An update that supplies neither field is refused; otherwise it is
    /// passed on as it is.
    pub fn update_task(id: &str, body: UpdateTaskBody) -> (r: Result<Command, AppError>)
        ensures
            (body.description is None && body.completed is None) <==> (r matches Err(
                AppError::InvalidUpdate,
            )),
            !(body.description is None && body.completed is None) ==> (r matches Ok(c) && c@
                == (Op::Update {
                id: id@,
                description: body.description_view(),
                completed: body.completed_view(),
            })),
    {
        if body.description.is_none() && body.completed.is_none() {
            return Err(AppError::InvalidUpdate);
        }
        Ok(Command::Update { id: String::from_str(id), body })
    }

    /// A delete that names no id is refused.
    pub fn delete_tasks(body: DeleteTaskBody) -> (r: Result<Command, AppError>)
        ensures
            body.id@.len() == 0 <==> (r matches Err(AppError::InvalidId)),
            body.id@.len() != 0 ==> (r matches Ok(c) && c@ == (Op::Delete { id: body.id@ })),
    {
        if body.id.as_str().is_empty() {
            return Err(AppError::InvalidId);
        }
        Ok(Command::Delete { id: body.id })
    }
}

} // verus!
