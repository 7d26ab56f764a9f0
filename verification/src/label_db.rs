//! The decisions of the database-backed label repository. Each operation is a
//! state machine: the caller runs the query that a step asks for, hands back
//! what the database answered, and gets the next step, until the operation
//! finishes with its result.
use vstd::prelude::*;

use crate::error::{error_for_failure, repository_error_for, DbFailure, OperationError, RepositoryError};
use crate::label::Label;

verus! {

/// An operation asked of the label repository.
pub enum LabelTask {
    Create(String),
    All,
    Delete(i32),
}

/// A query on the labels table.
#[derive(Debug, PartialEq, Eq)]
pub enum LabelQuery {
    /// The label with this name, if there is one.
    SelectByName { name: String },
    /// Insert a label with this name and return the new row.
    Insert { name: String },
    /// Every label, by ascending id.
    SelectAll,
    /// Delete the label with this id.
    Delete { id: i32 },
}

/// What the database answered to a label query.
pub enum LabelReply {
    /// The answer to `SelectByName`.
    Found(Option<Label>),
    /// The answer to `Insert`.
    Inserted(Label),
    /// The answer to `SelectAll`.
    Listed(Vec<Label>),
    /// The answer to `Delete`.
    Executed,
    /// The query failed.
    Failed(DbFailure),
}

/// Where an operation stands: which answer it waits for.
#[derive(Debug, PartialEq, Eq)]
pub enum LabelPhase {
    LookingUp { name: String },
    Inserting,
    Listing,
    Deleting { id: i32 },
}

/// What a finished operation gives back.
#[derive(Debug, PartialEq, Eq)]
pub enum LabelOutcome {
    Created(Label),
    Listed(Vec<Label>),
    Deleted,
}

/// The next step: run a query and come back in the phase given, or finish.
pub enum LabelStep {
    Run(LabelPhase, LabelQuery),
    Finish(Result<LabelOutcome, OperationError>),
}

/// The first step of each operation.
pub open spec fn label_first_step(task: LabelTask) -> LabelStep {
    match task {
        LabelTask::Create(name) => LabelStep::Run(LabelPhase::LookingUp { name }, LabelQuery::SelectByName { name }),
        LabelTask::All => LabelStep::Run(LabelPhase::Listing, LabelQuery::SelectAll),
        LabelTask::Delete(id) => LabelStep::Run(LabelPhase::Deleting { id }, LabelQuery::Delete { id }),
    }
}

/// The answer is one the phase can get: a failure, or the answer to the query
/// that led to the phase.
pub open spec fn label_reply_fits(phase: LabelPhase, reply: LabelReply) -> bool {
    match reply {
        LabelReply::Failed(_) => true,
        LabelReply::Found(_) => phase is LookingUp,
        LabelReply::Inserted(_) => phase is Inserting,
        LabelReply::Listed(_) => phase is Listing,
        LabelReply::Executed => phase is Deleting,
    }
}

/// The step that follows an answer. A failed delete is reported as the
/// repository's error about that id; any other failed query is passed on. A
/// name already taken ends the creation with `Duplicate` and the id of the
/// label that has it.
pub open spec fn label_next_step(phase: LabelPhase, reply: LabelReply) -> LabelStep {
    match (phase, reply) {
        (LabelPhase::Deleting { id }, LabelReply::Failed(f)) =>
            LabelStep::Finish(Err(OperationError::Repository(error_for_failure(id, f)))),
        (_, LabelReply::Failed(f)) => LabelStep::Finish(Err(OperationError::Database(f))),
        (LabelPhase::LookingUp { name }, LabelReply::Found(found)) => match found {
            Some(label) => LabelStep::Finish(Err(OperationError::Repository(RepositoryError::Duplicate(label.id)))),
            None => LabelStep::Run(LabelPhase::Inserting, LabelQuery::Insert { name }),
        },
        (_, LabelReply::Inserted(label)) => LabelStep::Finish(Ok(LabelOutcome::Created(label))),
        (_, LabelReply::Listed(labels)) => LabelStep::Finish(Ok(LabelOutcome::Listed(labels))),
        (_, _) => LabelStep::Finish(Ok(LabelOutcome::Deleted)),
    }
}

/// Starts an operation.
pub fn label_start(task: LabelTask) -> (step: LabelStep)
    ensures
        step == label_first_step(task),
{
    match task {
        LabelTask::Create(name) => {
            let lookup = name.clone();
            LabelStep::Run(LabelPhase::LookingUp { name }, LabelQuery::SelectByName { name: lookup })
        },
        LabelTask::All => LabelStep::Run(LabelPhase::Listing, LabelQuery::SelectAll),
        LabelTask::Delete(id) => LabelStep::Run(LabelPhase::Deleting { id }, LabelQuery::Delete { id }),
    }
}

/// Takes an operation one step further with the database's answer.
pub fn label_resume(phase: LabelPhase, reply: LabelReply) -> (step: LabelStep)
    requires
        label_reply_fits(phase, reply),
    ensures
        step == label_next_step(phase, reply),
        reply matches LabelReply::Inserted(l) ==> step == LabelStep::Finish(Ok(LabelOutcome::Created(l))),
        reply matches LabelReply::Listed(v) ==> step == LabelStep::Finish(Ok(LabelOutcome::Listed(v))),
        reply matches LabelReply::Found(Some(x)) ==> step == LabelStep::Finish(
            Err(OperationError::Repository(RepositoryError::Duplicate(x.id))),
        ),
{
    match reply {
        LabelReply::Failed(f) => match phase {
            LabelPhase::Deleting { id } => LabelStep::Finish(Err(OperationError::Repository(repository_error_for(id, f)))),
            _ => LabelStep::Finish(Err(OperationError::Database(f))),
        },
        LabelReply::Found(found) => match found {
            Some(label) => LabelStep::Finish(Err(OperationError::Repository(RepositoryError::Duplicate(label.id)))),
            None => match phase {
                LabelPhase::LookingUp { name } => LabelStep::Run(LabelPhase::Inserting, LabelQuery::Insert { name }),
                // another phase cannot get this answer
                _ => LabelStep::Finish(Ok(LabelOutcome::Deleted)),
            },
        },
        LabelReply::Inserted(label) => LabelStep::Finish(Ok(LabelOutcome::Created(label))),
        LabelReply::Listed(labels) => LabelStep::Finish(Ok(LabelOutcome::Listed(labels))),
        LabelReply::Executed => LabelStep::Finish(Ok(LabelOutcome::Deleted)),
    }
}

} // verus!
