//! The decisions of the database-backed todo repository. Each operation is a
//! state machine: the caller runs the query that a step asks for, hands back
//! what the database answered, and gets the next step, until the operation
//! finishes with its result. Creating and updating run in a transaction and
//! end by reading the todo back.
use vstd::prelude::*;

use crate::error::{error_for_failure, repository_error_for, DbFailure, OperationError, RepositoryError};
use crate::todo::{
    entity_from_row, fold_entities, updated_completed, updated_text, CreateTodo, TodoEntity,
    TodoFromRow, TodoWithLabelFromRow, UpdateTodo,
};

verus! {

/// An operation asked of the todo repository.
pub enum TodoTask {
    Create(CreateTodo),
    Find(i32),
    All,
    Update(i32, UpdateTodo),
    Delete(i32),
}

/// A statement for the database.
#[derive(Debug, PartialEq, Eq)]
pub enum TodoQuery {
    /// Open a transaction.
    Begin,
    /// Insert a todo with this text, not completed, and return the new row.
    InsertTodo { text: String },
    /// Attach each of the labels to the todo.
    LinkLabels { todo_id: i32, label_ids: Vec<i32> },
    /// Commit the transaction.
    Commit,
    /// The rows of the todo joined with its labels.
    SelectTodo { id: i32 },
    /// Every todo, by descending id.
    SelectAll,
    /// Set the text and completion of the todo, returning the row.
    UpdateRow { id: i32, text: String, completed: bool },
    /// Detach every label from the todo.
    UnlinkLabels { todo_id: i32 },
    /// Delete the todo.
    DeleteTodo { id: i32 },
}

/// What the database answered.
pub enum TodoReply {
    /// A statement that returns nothing the operation reads went through.
    Executed,
    /// The row that `InsertTodo` returned.
    Inserted(TodoFromRow),
    /// The rows that `SelectTodo` or `SelectAll` returned.
    Rows(Vec<TodoWithLabelFromRow>),
    /// The statement failed.
    Failed(DbFailure),
}

/// Where an operation stands: which answer it waits for, with what it still needs.
#[derive(Debug, PartialEq, Eq)]
pub enum TodoPhase {
    CreateBegun { text: String, labels: Vec<i32> },
    CreateInserting { labels: Vec<i32> },
    Linking { id: i32 },
    Committing { id: i32 },
    Fetching { id: i32 },
    Listing,
    UpdateBegun { id: i32, change: UpdateTodo },
    UpdateLoading { id: i32, change: UpdateTodo },
    UpdateWriting { id: i32, relabel: Option<Vec<i32>> },
    UpdateUnlinking { id: i32, labels: Vec<i32> },
    DeleteBegun { id: i32 },
    DeleteUnlinking { id: i32 },
    DeleteRemoving { id: i32 },
    DeleteCommitting,
}

/// What a finished operation gives back.
#[derive(Debug, PartialEq, Eq)]
pub enum TodoOutcome {
    One(TodoEntity),
    Many(Vec<TodoEntity>),
    Removed,
}

/// The next step: run a query and come back in the phase given, or finish.
pub enum TodoStep {
    Run(TodoPhase, TodoQuery),
    Finish(Result<TodoOutcome, OperationError>),
}

/// The first step of each operation: reads go straight to their query, the
/// others open a transaction.
pub open spec fn todo_first_step(task: TodoTask) -> TodoStep {
    match task {
        TodoTask::Create(payload) => TodoStep::Run(
            TodoPhase::CreateBegun { text: payload.text, labels: payload.labels },
            TodoQuery::Begin,
        ),
        TodoTask::Find(id) => TodoStep::Run(TodoPhase::Fetching { id }, TodoQuery::SelectTodo { id }),
        TodoTask::All => TodoStep::Run(TodoPhase::Listing, TodoQuery::SelectAll),
        TodoTask::Update(id, change) => TodoStep::Run(TodoPhase::UpdateBegun { id, change }, TodoQuery::Begin),
        TodoTask::Delete(id) => TodoStep::Run(TodoPhase::DeleteBegun { id }, TodoQuery::Begin),
    }
}

/// The answer is one the phase can get: a failure, or the kind of answer
/// that the query which led to the phase gives.
pub open spec fn todo_reply_fits(phase: TodoPhase, reply: TodoReply) -> bool {
    match reply {
        TodoReply::Failed(_) => true,
        TodoReply::Inserted(_) => phase is CreateInserting,
        TodoReply::Rows(_) => phase is Fetching || phase is Listing || phase is UpdateLoading,
        TodoReply::Executed => !(phase is CreateInserting || phase is Fetching || phase is Listing
            || phase is UpdateLoading),
    }
}

/// How a failed query ends the operation: reading a todo back, and the two
/// deletions, report the repository's error about that id; any other failure
/// is passed on as it is.
pub open spec fn todo_failure(phase: TodoPhase, failure: DbFailure) -> OperationError {
    match phase {
        TodoPhase::Fetching { id } => OperationError::Repository(error_for_failure(id, failure)),
        TodoPhase::UpdateLoading { id, .. } => OperationError::Repository(error_for_failure(id, failure)),
        TodoPhase::DeleteUnlinking { id } => OperationError::Repository(error_for_failure(id, failure)),
        TodoPhase::DeleteRemoving { id } => OperationError::Repository(error_for_failure(id, failure)),
        _ => OperationError::Database(failure),
    }
}

/// `step` is what follows the answer `reply` in `phase`.
pub open spec fn todo_step_follows(phase: TodoPhase, reply: TodoReply, step: TodoStep) -> bool {
    match reply {
        TodoReply::Failed(f) => step == TodoStep::Finish(Err(todo_failure(phase, f))),
        TodoReply::Inserted(row) => match phase {
            TodoPhase::CreateInserting { labels } => step == TodoStep::Run(
                TodoPhase::Linking { id: row.id },
                TodoQuery::LinkLabels { todo_id: row.id, label_ids: labels },
            ),
            _ => false,
        },
        TodoReply::Rows(rows) => match phase {
            TodoPhase::Fetching { id } => if rows.len() == 0 {
                step == TodoStep::Finish(Err(OperationError::Repository(RepositoryError::NotFound(id))))
            } else {
                step matches TodoStep::Finish(Ok(TodoOutcome::One(todo))) && entity_from_row(todo, rows[0])
            },
            TodoPhase::Listing => step matches TodoStep::Finish(Ok(TodoOutcome::Many(todos))) && {
                &&& todos.len() == rows.len()
                &&& forall|i: int| 0 <= i < rows.len() ==> entity_from_row(#[trigger] todos[i], rows[i])
            },
            TodoPhase::UpdateLoading { id, change } => if rows.len() == 0 {
                step == TodoStep::Finish(Err(OperationError::Repository(RepositoryError::NotFound(id))))
            } else {
                step matches TodoStep::Run(
                    TodoPhase::UpdateWriting { id: phase_id, relabel },
                    TodoQuery::UpdateRow { id: row_id, text, completed },
                ) && {
                    &&& phase_id == id
                    &&& row_id == id
                    &&& relabel == change.labels
                    &&& text@ == updated_text(change.text, rows[0].text@)
                    &&& completed == updated_completed(change.completed, rows[0].completed)
                }
            },
            _ => false,
        },
        TodoReply::Executed => match phase {
            TodoPhase::CreateBegun { text, labels } => step == TodoStep::Run(
                TodoPhase::CreateInserting { labels },
                TodoQuery::InsertTodo { text },
            ),
            TodoPhase::Linking { id } => step == TodoStep::Run(TodoPhase::Committing { id }, TodoQuery::Commit),
            TodoPhase::Committing { id } => step == TodoStep::Run(TodoPhase::Fetching { id }, TodoQuery::SelectTodo { id }),
            TodoPhase::UpdateBegun { id, change } => step == TodoStep::Run(
                TodoPhase::UpdateLoading { id, change },
                TodoQuery::SelectTodo { id },
            ),
            TodoPhase::UpdateWriting { id, relabel } => match relabel {
                Some(label_ids) => step == TodoStep::Run(
                    TodoPhase::UpdateUnlinking { id, labels: label_ids },
                    TodoQuery::UnlinkLabels { todo_id: id },
                ),
                None => step == TodoStep::Run(TodoPhase::Committing { id }, TodoQuery::Commit),
            },
            TodoPhase::UpdateUnlinking { id, labels } => step == TodoStep::Run(
                TodoPhase::Linking { id },
                TodoQuery::LinkLabels { todo_id: id, label_ids: labels },
            ),
            TodoPhase::DeleteBegun { id } => step == TodoStep::Run(
                TodoPhase::DeleteUnlinking { id },
                TodoQuery::UnlinkLabels { todo_id: id },
            ),
            TodoPhase::DeleteUnlinking { id } => step == TodoStep::Run(
                TodoPhase::DeleteRemoving { id },
                TodoQuery::DeleteTodo { id },
            ),
            TodoPhase::DeleteRemoving { id } => step == TodoStep::Run(TodoPhase::DeleteCommitting, TodoQuery::Commit),
            TodoPhase::DeleteCommitting => step == TodoStep::Finish(Ok(TodoOutcome::Removed)),
            _ => false,
        },
    }
}

/// Starts an operation.
pub fn todo_start(task: TodoTask) -> (step: TodoStep)
    ensures
        step == todo_first_step(task),
        (task matches TodoTask::Find(id) ==> step == (TodoStep::Run(TodoPhase::Fetching { id }, TodoQuery::SelectTodo { id }))),
        (task is All ==> step == TodoStep::Run(TodoPhase::Listing, TodoQuery::SelectAll)),
{
    match task {
        TodoTask::Create(payload) => TodoStep::Run(
            TodoPhase::CreateBegun { text: payload.text, labels: payload.labels },
            TodoQuery::Begin,
        ),
        TodoTask::Find(id) => TodoStep::Run(TodoPhase::Fetching { id }, TodoQuery::SelectTodo { id }),
        TodoTask::All => TodoStep::Run(TodoPhase::Listing, TodoQuery::SelectAll),
        TodoTask::Update(id, change) => TodoStep::Run(TodoPhase::UpdateBegun { id, change }, TodoQuery::Begin),
        TodoTask::Delete(id) => TodoStep::Run(TodoPhase::DeleteBegun { id }, TodoQuery::Begin),
    }
}

/// The todo read back: the first entity of the rows, or `NotFound(id)` where there is none.
fn first_entity(id: i32, rows: Vec<TodoWithLabelFromRow>) -> (r: Result<TodoEntity, OperationError>)
    ensures
        rows@.len() == 0 ==> r == Err::<TodoEntity, OperationError>(OperationError::Repository(RepositoryError::NotFound(id))),
        rows@.len() > 0 ==> (r matches Ok(todo) && entity_from_row(todo, rows@[0])),
        rows@.len() > 0 ==> (r matches Ok(todo) && todo.id == rows@[0].id && todo.text@ == rows@[0].text@
            && todo.completed == rows@[0].completed && todo.labels@.len() == 0),
{
    let todos = fold_entities(rows);
    if todos.len() == 0 {
        Err(OperationError::Repository(RepositoryError::NotFound(id)))
    } else {
        Ok(todos[0].clone())
    }
}

/// Takes an operation one step further with the database's answer.
pub fn todo_resume(phase: TodoPhase, reply: TodoReply) -> (step: TodoStep)
    requires
        todo_reply_fits(phase, reply),
    ensures
        todo_step_follows(phase, reply, step),
{
    match reply {
        TodoReply::Failed(f) => {
            let e = match phase {
                TodoPhase::Fetching { id } => OperationError::Repository(repository_error_for(id, f)),
                TodoPhase::UpdateLoading { id, .. } => OperationError::Repository(repository_error_for(id, f)),
                TodoPhase::DeleteUnlinking { id } => OperationError::Repository(repository_error_for(id, f)),
                TodoPhase::DeleteRemoving { id } => OperationError::Repository(repository_error_for(id, f)),
                _ => OperationError::Database(f),
            };
            TodoStep::Finish(Err(e))
        },
        TodoReply::Inserted(row) => match phase {
            TodoPhase::CreateInserting { labels } => TodoStep::Run(
                TodoPhase::Linking { id: row.id },
                TodoQuery::LinkLabels { todo_id: row.id, label_ids: labels },
            ),
            // another phase cannot get this answer
            _ => TodoStep::Finish(Ok(TodoOutcome::Removed)),
        },
        TodoReply::Rows(rows) => match phase {
            TodoPhase::Fetching { id } => match first_entity(id, rows) {
                Ok(todo) => TodoStep::Finish(Ok(TodoOutcome::One(todo))),
                Err(e) => TodoStep::Finish(Err(e)),
            },
            TodoPhase::UpdateLoading { id, change } => match first_entity(id, rows) {
                Ok(old_todo) => {
                    let text = match change.text {
                        Some(t) => t,
                        None => old_todo.text,
                    };
                    let completed = match change.completed {
                        Some(c) => c,
                        None => old_todo.completed,
                    };
                    TodoStep::Run(
                        TodoPhase::UpdateWriting { id, relabel: change.labels },
                        TodoQuery::UpdateRow { id, text, completed },
                    )
                },
                Err(e) => TodoStep::Finish(Err(e)),
            },
            // the listing; no other phase gets rows
            _ => TodoStep::Finish(Ok(TodoOutcome::Many(fold_entities(rows)))),
        },
        TodoReply::Executed => match phase {
            TodoPhase::CreateBegun { text, labels } => TodoStep::Run(
                TodoPhase::CreateInserting { labels },
                TodoQuery::InsertTodo { text },
            ),
            TodoPhase::Linking { id } => TodoStep::Run(TodoPhase::Committing { id }, TodoQuery::Commit),
            TodoPhase::Committing { id } => TodoStep::Run(TodoPhase::Fetching { id }, TodoQuery::SelectTodo { id }),
            TodoPhase::UpdateBegun { id, change } => TodoStep::Run(
                TodoPhase::UpdateLoading { id, change },
                TodoQuery::SelectTodo { id },
            ),
            TodoPhase::UpdateWriting { id, relabel } => match relabel {
                Some(label_ids) => TodoStep::Run(
                    TodoPhase::UpdateUnlinking { id, labels: label_ids },
                    TodoQuery::UnlinkLabels { todo_id: id },
                ),
                None => TodoStep::Run(TodoPhase::Committing { id }, TodoQuery::Commit),
            },
            TodoPhase::UpdateUnlinking { id, labels } => TodoStep::Run(
                TodoPhase::Linking { id },
                TodoQuery::LinkLabels { todo_id: id, label_ids: labels },
            ),
            TodoPhase::DeleteBegun { id } => TodoStep::Run(
                TodoPhase::DeleteUnlinking { id },
                TodoQuery::UnlinkLabels { todo_id: id },
            ),
            TodoPhase::DeleteUnlinking { id } => TodoStep::Run(
                TodoPhase::DeleteRemoving { id },
                TodoQuery::DeleteTodo { id },
            ),
            TodoPhase::DeleteRemoving { id } => TodoStep::Run(TodoPhase::DeleteCommitting, TodoQuery::Commit),
            // committing a deletion; no other phase is left
            _ => TodoStep::Finish(Ok(TodoOutcome::Removed)),
        },
    }
}

} // verus!
