//! Properties that relate the operations of the repositories to each other.
use vstd::prelude::*;

use crate::error::{DbFailure, OperationError};
use crate::ids::next_id;
use crate::label::lists_labels;
use crate::label::Label;
use crate::label_db::{
    label_first_step, label_next_step, label_reply_fits, LabelOutcome, LabelPhase, LabelQuery, LabelReply, LabelStep,
    LabelTask,
};
use crate::todo::{lists_todos, update_verdict, updated_completed, updated_text, TodoRecord};
use crate::todo::{CreateTodo, TodoFromRow, TodoWithLabelFromRow, UpdateTodo};
use crate::validation::{text_verdict, TextLengthViolation};
use crate::error::RepositoryError;
use crate::todo_db::{todo_first_step, todo_reply_fits, todo_step_follows, TodoOutcome, TodoPhase, TodoQuery, TodoReply, TodoStep, TodoTask};

verus! {

/// Reading after writing: once a store holds `record` under `id` (as `create`
/// and `update` leave it), `find(id)` succeeds and gives `record` back.
pub proof fn law_find_after_write(before: Map<i32, TodoRecord>, id: i32, record: TodoRecord)
    ensures
        before.insert(id, record).contains_key(id),
        before.insert(id, record)[id] == record,
{
}

/// Writing one todo leaves every other todo as it was.
pub proof fn law_write_keeps_others(before: Map<i32, TodoRecord>, id: i32, record: TodoRecord, other: i32)
    requires
        other != id,
    ensures
        before.insert(id, record).contains_key(other) == before.contains_key(other),
        before.contains_key(other) ==> before.insert(id, record)[other] == before[other],
{
}

/// After a delete, the todo is gone: `find` and a second `delete` of the same
/// id fail with `NotFound`, and the other todos are as they were.
pub proof fn law_gone_after_delete(before: Map<i32, TodoRecord>, id: i32, other: i32)
    requires
        other != id,
    ensures
        !before.remove(id).contains_key(id),
        before.remove(id).contains_key(other) == before.contains_key(other),
        before.contains_key(other) ==> before.remove(id)[other] == before[other],
{
}

/// An update sets what it gives and keeps what it does not: a completion
/// given becomes the todo's completion whatever it was, a text given becomes
/// its text, and each field not given stays as it was.
pub proof fn law_update_applies_given_fields(
    new_text: Option<String>,
    old_text: Seq<char>,
    new_completed: Option<bool>,
    old_completed: bool,
)
    ensures
        new_completed matches Some(c) ==> updated_completed(new_completed, old_completed) == c,
        new_completed is None ==> updated_completed(new_completed, old_completed) == old_completed,
        new_text matches Some(t) ==> updated_text(new_text, old_text) == t@,
        new_text is None ==> updated_text(new_text, old_text) == old_text,
{
}

/// A text is accepted exactly when it has between 1 and 100 characters; an
/// empty one is refused as empty and a longer one as too long.
pub proof fn law_text_length_rule(text: Seq<char>)
    ensures
        text_verdict(text) is Ok <==> 1 <= text.len() <= 100,
        text.len() == 0 ==> text_verdict(text) == Err::<(), TextLengthViolation>(TextLengthViolation::Empty),
        text.len() > 100 ==> text_verdict(text) == Err::<(), TextLengthViolation>(TextLengthViolation::TooLong),
{
}

/// An update that gives a text is held to the same length rule as a new
/// todo; one that gives none passes.
pub proof fn law_update_text_rule(text: Option<String>)
    ensures
        text is None ==> update_verdict(text) is Ok,
        text matches Some(t) ==> update_verdict(text) == text_verdict(t@),
        text matches Some(t) ==> (update_verdict(text) is Ok <==> 1 <= t@.len() <= 100),
        text matches Some(t) ==> (t@.len() == 0 ==> update_verdict(text) == Err::<(), TextLengthViolation>(TextLengthViolation::Empty)),
        text matches Some(t) ==> (t@.len() > 100 ==> update_verdict(text) == Err::<(), TextLengthViolation>(TextLengthViolation::TooLong)),
{
}

/// Listing after writing: a listing of a store that holds `record` under `id`
/// has exactly one entry with that id, and it carries `record`.
pub proof fn law_listed_after_write(
    before: Map<i32, TodoRecord>,
    id: i32,
    record: TodoRecord,
    listing: Seq<crate::todo::TodoEntity>,
)
    requires
        lists_todos(listing, before.insert(id, record)),
    ensures
        exists|i: int| 0 <= i < listing.len() && #[trigger] listing[i].id == id && listing[i]@ == record,
        forall|i: int, j: int| 0 <= i < j < listing.len() && #[trigger] listing[i].id == id ==> #[trigger] listing[j].id != id,
{
    let m = before.insert(id, record);
    assert(m.contains_key(id));
    let i = choose|i: int| 0 <= i < listing.len() && #[trigger] listing[i].id == id;
    assert(listing[i]@ == m[listing[i].id]);
}

/// A label just created shows up in the listing of all labels, with its name.
pub proof fn law_label_listed_after_create(
    before: Map<i32, Seq<char>>,
    id: i32,
    name: Seq<char>,
    listing: Seq<crate::label::Label>,
)
    requires
        lists_labels(listing, before.insert(id, name)),
    ensures
        exists|i: int| 0 <= i < listing.len() && #[trigger] listing[i].id == id && listing[i].name@ == name,
{
    let m = before.insert(id, name);
    assert(m.contains_key(id));
    let i = choose|i: int| 0 <= i < listing.len() && #[trigger] listing[i].id == id;
    assert(listing[i].name@ == m[listing[i].id]);
}

/// The ids that the in-memory stores hand out are fresh as long as nothing was
/// deleted: when the ids held are exactly 1 to n, the next one, n + 1, is not
/// among them.
pub proof fn law_next_id_fresh_without_deletes<V>(held: Map<i32, V>)
    requires
        held.dom().finite(),
        held.len() < i32::MAX,
        forall|k: i32| held.contains_key(k) <==> 1 <= k <= held.len(),
    ensures
        !held.contains_key(next_id(held.len())),
        next_id(held.len()) == held.len() + 1,
{
}

/// How many more answers an operation on todos can take from `phase` on.
pub open spec fn todo_answers_left(phase: TodoPhase) -> nat {
    match phase {
        TodoPhase::UpdateBegun { .. } => 7,
        TodoPhase::UpdateLoading { .. } => 6,
        TodoPhase::CreateBegun { .. } => 5,
        TodoPhase::UpdateWriting { .. } => 5,
        TodoPhase::CreateInserting { .. } => 4,
        TodoPhase::UpdateUnlinking { .. } => 4,
        TodoPhase::DeleteBegun { .. } => 4,
        TodoPhase::Linking { .. } => 3,
        TodoPhase::DeleteUnlinking { .. } => 3,
        TodoPhase::Committing { .. } => 2,
        TodoPhase::DeleteRemoving { .. } => 2,
        TodoPhase::Fetching { .. } => 1,
        TodoPhase::Listing => 1,
        TodoPhase::DeleteCommitting => 1,
    }
}

/// Every operation on todos comes to an end: each answer either finishes it
/// or leads to a phase with fewer answers left.
pub proof fn law_todo_operations_end(phase: TodoPhase, reply: TodoReply, step: TodoStep)
    requires
        todo_reply_fits(phase, reply),
        todo_step_follows(phase, reply, step),
    ensures
        step matches TodoStep::Run(next, _) ==> todo_answers_left(next) < todo_answers_left(phase),
{
}

/// A failed statement ends an operation on todos with an error, whatever the phase.
pub proof fn law_todo_failure_ends(phase: TodoPhase, failure: DbFailure, step: TodoStep)
    requires
        todo_step_follows(phase, TodoReply::Failed(failure), step),
    ensures
        step matches TodoStep::Finish(Err(_)),
{
}

/// How many more answers an operation on labels can take from `phase` on.
pub open spec fn label_answers_left(phase: LabelPhase) -> nat {
    match phase {
        LabelPhase::LookingUp { .. } => 2,
        _ => 1,
    }
}

/// Every operation on labels comes to an end, and a failed query ends it with an error.
pub proof fn law_label_operations_end(phase: LabelPhase, reply: LabelReply)
    requires
        label_reply_fits(phase, reply),
    ensures
        label_next_step(phase, reply) matches LabelStep::Run(next, _) ==> label_answers_left(next)
            < label_answers_left(phase),
        reply is Failed ==> label_next_step(phase, reply) matches LabelStep::Finish(Err(_)),
{
}

/// A name that is taken is never inserted again: the creation ends with
/// `Duplicate` and the id of the label that holds the name.
pub proof fn law_taken_name_refused(name: String, existing: crate::label::Label)
    ensures
        label_next_step(LabelPhase::LookingUp { name }, LabelReply::Found(Some(existing)))
            == LabelStep::Finish(Err(OperationError::Repository(crate::error::RepositoryError::Duplicate(existing.id)))),
{
}

/// The phase a step comes back in (any phase for a finished step).
pub open spec fn phase_of(step: TodoStep) -> TodoPhase {
    match step {
        TodoStep::Run(phase, _) => phase,
        TodoStep::Finish(_) => TodoPhase::DeleteCommitting,
    }
}

/// Creating a todo, when every statement goes through: it opens a
/// transaction, inserts the text, attaches the labels asked for to the new
/// row's id, commits, and reads that todo back; the result is the first row
/// read, or `NotFound` with the new id where none is read.
pub proof fn law_todo_create_run(
    payload: CreateTodo,
    inserted: TodoFromRow,
    fetched: Vec<TodoWithLabelFromRow>,
    s2: TodoStep,
    s3: TodoStep,
    s4: TodoStep,
    s5: TodoStep,
    s6: TodoStep,
)
    requires
        todo_step_follows(phase_of(todo_first_step(TodoTask::Create(payload))), TodoReply::Executed, s2),
        todo_step_follows(phase_of(s2), TodoReply::Inserted(inserted), s3),
        todo_step_follows(phase_of(s3), TodoReply::Executed, s4),
        todo_step_follows(phase_of(s4), TodoReply::Executed, s5),
        todo_step_follows(phase_of(s5), TodoReply::Rows(fetched), s6),
    ensures
        (todo_first_step(TodoTask::Create(payload)) matches TodoStep::Run(_, TodoQuery::Begin)),
        (s2 matches TodoStep::Run(_, q) && q == (TodoQuery::InsertTodo { text: payload.text })),
        (s3 matches TodoStep::Run(_, q) && q == (TodoQuery::LinkLabels { todo_id: inserted.id, label_ids: payload.labels })),
        (s4 matches TodoStep::Run(_, TodoQuery::Commit)),
        (s5 matches TodoStep::Run(_, q) && q == (TodoQuery::SelectTodo { id: inserted.id })),
        fetched@.len() > 0 ==> (s6 matches TodoStep::Finish(Ok(TodoOutcome::One(todo))) && todo.id == fetched@[0].id
            && todo.text@ == fetched@[0].text@ && todo.completed == fetched@[0].completed && todo.labels@.len() == 0),
        fetched@.len() == 0 ==> s6 == TodoStep::Finish(Err(OperationError::Repository(RepositoryError::NotFound(inserted.id)))),
{
}

/// Updating a todo, when every statement goes through and the todo is
/// there: it opens a transaction, reads the todo, writes the text and
/// completion (the new ones where given, else those read), replaces the
/// labels where new ones are given, commits, and reads the todo back.
pub proof fn law_todo_update_run(
    id: i32,
    change: UpdateTodo,
    current: Vec<TodoWithLabelFromRow>,
    fetched: Vec<TodoWithLabelFromRow>,
    s2: TodoStep,
    s3: TodoStep,
    s4: TodoStep,
    s5: TodoStep,
    s6: TodoStep,
    s7: TodoStep,
    s8: TodoStep,
)
    requires
        current@.len() > 0,
        todo_step_follows(phase_of(todo_first_step(TodoTask::Update(id, change))), TodoReply::Executed, s2),
        todo_step_follows(phase_of(s2), TodoReply::Rows(current), s3),
        todo_step_follows(phase_of(s3), TodoReply::Executed, s4),
        change.labels is Some ==> todo_step_follows(phase_of(s4), TodoReply::Executed, s5),
        change.labels is Some ==> todo_step_follows(phase_of(s5), TodoReply::Executed, s6),
        change.labels is None ==> s6 == s4,
        todo_step_follows(phase_of(s6), TodoReply::Executed, s7),
        todo_step_follows(phase_of(s7), TodoReply::Rows(fetched), s8),
    ensures
        (todo_first_step(TodoTask::Update(id, change)) matches TodoStep::Run(_, TodoQuery::Begin)),
        (s2 matches TodoStep::Run(_, q) && q == (TodoQuery::SelectTodo { id })),
        (s3 matches TodoStep::Run(_, TodoQuery::UpdateRow { id: row_id, text, completed }) && row_id == id
            && (change.text matches Some(t) ==> text@ == t@)
            && (change.text is None ==> text@ == current@[0].text@)
            && (change.completed matches Some(c) ==> completed == c)
            && (change.completed is None ==> completed == current@[0].completed)),
        (change.labels matches Some(label_ids) ==> (s4 matches TodoStep::Run(_, q) && q == (TodoQuery::UnlinkLabels { todo_id: id }))
            && (s5 matches TodoStep::Run(_, q) && q == (TodoQuery::LinkLabels { todo_id: id, label_ids }))),
        (s6 matches TodoStep::Run(_, TodoQuery::Commit)),
        (s7 matches TodoStep::Run(_, q) && q == (TodoQuery::SelectTodo { id })),
        fetched@.len() > 0 ==> (s8 matches TodoStep::Finish(Ok(TodoOutcome::One(todo))) && todo.id == fetched@[0].id
            && todo.text@ == fetched@[0].text@ && todo.completed == fetched@[0].completed && todo.labels@.len() == 0),
{
}

/// Deleting a todo, when every statement goes through: it opens a
/// transaction, detaches the todo's labels, deletes the todo and commits.
pub proof fn law_todo_delete_run(id: i32, s2: TodoStep, s3: TodoStep, s4: TodoStep, s5: TodoStep)
    requires
        todo_step_follows(phase_of(todo_first_step(TodoTask::Delete(id))), TodoReply::Executed, s2),
        todo_step_follows(phase_of(s2), TodoReply::Executed, s3),
        todo_step_follows(phase_of(s3), TodoReply::Executed, s4),
        todo_step_follows(phase_of(s4), TodoReply::Executed, s5),
    ensures
        (todo_first_step(TodoTask::Delete(id)) matches TodoStep::Run(_, TodoQuery::Begin)),
        (s2 matches TodoStep::Run(_, q) && q == (TodoQuery::UnlinkLabels { todo_id: id })),
        (s3 matches TodoStep::Run(_, q) && q == (TodoQuery::DeleteTodo { id })),
        (s4 matches TodoStep::Run(_, TodoQuery::Commit)),
        s5 == TodoStep::Finish(Ok(TodoOutcome::Removed)),
{
}

/// Finding a todo only reads it: the one statement is the read of that id,
/// and the todo found is the first row read (its id, text and completion,
/// no labels), or `NotFound(id)` where no row is read. A failed read is
/// `NotFound(id)` for a missing row and `Unexpected` with the driver's
/// description otherwise.
pub proof fn law_todo_find_run(
    id: i32,
    rows: Vec<TodoWithLabelFromRow>,
    failure: DbFailure,
    s2: TodoStep,
    s3: TodoStep,
)
    requires
        todo_step_follows(phase_of(todo_first_step(TodoTask::Find(id))), TodoReply::Rows(rows), s2),
        todo_step_follows(phase_of(todo_first_step(TodoTask::Find(id))), TodoReply::Failed(failure), s3),
    ensures
        (todo_first_step(TodoTask::Find(id)) matches TodoStep::Run(_, q) && q == (TodoQuery::SelectTodo { id })),
        rows@.len() > 0 ==> (s2 matches TodoStep::Finish(Ok(TodoOutcome::One(todo))) && todo.id == rows@[0].id
            && todo.text@ == rows@[0].text@ && todo.completed == rows@[0].completed && todo.labels@.len() == 0),
        rows@.len() == 0 ==> s2 == TodoStep::Finish(Err(OperationError::Repository(RepositoryError::NotFound(id)))),
        failure == DbFailure::RowNotFound ==> s3 == TodoStep::Finish(Err(OperationError::Repository(RepositoryError::NotFound(id)))),
        failure matches DbFailure::Other(m) ==> s3 == TodoStep::Finish(Err(OperationError::Repository(RepositoryError::Unexpected(m)))),
{
}

/// Listing todos reads every todo and gives one entity per row read, in the
/// order read; a failed read is passed on as it is.
pub proof fn law_todo_all_run(rows: Vec<TodoWithLabelFromRow>, failure: DbFailure, s2: TodoStep, s3: TodoStep)
    requires
        todo_step_follows(phase_of(todo_first_step(TodoTask::All)), TodoReply::Rows(rows), s2),
        todo_step_follows(phase_of(todo_first_step(TodoTask::All)), TodoReply::Failed(failure), s3),
    ensures
        (todo_first_step(TodoTask::All) matches TodoStep::Run(_, TodoQuery::SelectAll)),
        (s2 matches TodoStep::Finish(Ok(TodoOutcome::Many(todos))) && todos@.len() == rows@.len()
            && forall|i: int| 0 <= i < rows@.len() ==> (#[trigger] todos@[i]).id == rows@[i].id
                && todos@[i].text@ == rows@[i].text@ && todos@[i].completed == rows@[i].completed
                && todos@[i].labels@.len() == 0),
        s3 == TodoStep::Finish(Err(OperationError::Database(failure))),
{
}

/// How a failed statement ends an operation on todos: a failed read of a
/// todo (on its own or before an update) and a failed deletion step give
/// `NotFound(id)` for a missing row and `Unexpected` with the driver's
/// description otherwise; every other failure is passed on as it is.
pub proof fn law_todo_failure_reported(phase: TodoPhase, failure: DbFailure, step: TodoStep)
    requires
        todo_step_follows(phase, TodoReply::Failed(failure), step),
    ensures
        (phase matches TodoPhase::Fetching { id } ==> step == TodoStep::Finish(Err(OperationError::Repository(
            if failure is RowNotFound { RepositoryError::NotFound(id) } else { RepositoryError::Unexpected(failure->Other_0) },
        )))),
        (phase matches TodoPhase::UpdateLoading { id, .. } ==> step == TodoStep::Finish(Err(OperationError::Repository(
            if failure is RowNotFound { RepositoryError::NotFound(id) } else { RepositoryError::Unexpected(failure->Other_0) },
        )))),
        (phase matches TodoPhase::DeleteUnlinking { id } ==> step == TodoStep::Finish(Err(OperationError::Repository(
            if failure is RowNotFound { RepositoryError::NotFound(id) } else { RepositoryError::Unexpected(failure->Other_0) },
        )))),
        (phase matches TodoPhase::DeleteRemoving { id } ==> step == TodoStep::Finish(Err(OperationError::Repository(
            if failure is RowNotFound { RepositoryError::NotFound(id) } else { RepositoryError::Unexpected(failure->Other_0) },
        )))),
        !(phase is Fetching || phase is UpdateLoading || phase is DeleteUnlinking || phase is DeleteRemoving)
            ==> step == TodoStep::Finish(Err(OperationError::Database(failure))),
{
}

/// The phase a label step comes back in (any phase for a finished step).
pub open spec fn label_phase_of(step: LabelStep) -> LabelPhase {
    match step {
        LabelStep::Run(phase, _) => phase,
        LabelStep::Finish(_) => LabelPhase::Listing,
    }
}

/// Creating a label: it looks the name up; a name that some label holds
/// ends with `Duplicate` and that label's id; a free name is inserted, and
/// the label returned is exactly the row the insert gave back. A failed
/// query is passed on as it is.
pub proof fn law_label_create_run(name: String, holder: Label, inserted: Label, failure: DbFailure)
    ensures
        (label_first_step(LabelTask::Create(name)) matches LabelStep::Run(_, q) && q == (LabelQuery::SelectByName { name })),
        label_next_step(label_phase_of(label_first_step(LabelTask::Create(name))), LabelReply::Found(Some(holder)))
            == LabelStep::Finish(Err(OperationError::Repository(RepositoryError::Duplicate(holder.id)))),
        (label_next_step(label_phase_of(label_first_step(LabelTask::Create(name))), LabelReply::Found(None))
            matches LabelStep::Run(_, q) && q == (LabelQuery::Insert { name })),
        label_next_step(
            label_phase_of(label_next_step(label_phase_of(label_first_step(LabelTask::Create(name))), LabelReply::Found(None))),
            LabelReply::Inserted(inserted),
        ) == LabelStep::Finish(Ok(LabelOutcome::Created(inserted))),
        label_next_step(label_phase_of(label_first_step(LabelTask::Create(name))), LabelReply::Failed(failure))
            == LabelStep::Finish(Err(OperationError::Database(failure))),
        label_next_step(
            label_phase_of(label_next_step(label_phase_of(label_first_step(LabelTask::Create(name))), LabelReply::Found(None))),
            LabelReply::Failed(failure),
        ) == LabelStep::Finish(Err(OperationError::Database(failure))),
{
}

/// Listing labels reads them all and returns exactly the rows read, however
/// many; a failed read is passed on as it is.
pub proof fn law_label_all_run(listed: Vec<Label>, failure: DbFailure)
    ensures
        (label_first_step(LabelTask::All) matches LabelStep::Run(_, LabelQuery::SelectAll)),
        label_next_step(label_phase_of(label_first_step(LabelTask::All)), LabelReply::Listed(listed))
            == LabelStep::Finish(Ok(LabelOutcome::Listed(listed))),
        label_next_step(label_phase_of(label_first_step(LabelTask::All)), LabelReply::Failed(failure))
            == LabelStep::Finish(Err(OperationError::Database(failure))),
{
}

/// Deleting a label runs the delete of that id and reports success once it
/// went through; a failure is `NotFound(id)` for a missing row and
/// `Unexpected` with the driver's description otherwise.
pub proof fn law_label_delete_run(id: i32, failure: DbFailure)
    ensures
        (label_first_step(LabelTask::Delete(id)) matches LabelStep::Run(_, q) && q == (LabelQuery::Delete { id })),
        label_next_step(label_phase_of(label_first_step(LabelTask::Delete(id))), LabelReply::Executed)
            == LabelStep::Finish(Ok(LabelOutcome::Deleted)),
        failure == DbFailure::RowNotFound ==> label_next_step(
            label_phase_of(label_first_step(LabelTask::Delete(id))),
            LabelReply::Failed(failure),
        ) == LabelStep::Finish(Err(OperationError::Repository(RepositoryError::NotFound(id)))),
        failure matches DbFailure::Other(m) ==> label_next_step(
            label_phase_of(label_first_step(LabelTask::Delete(id))),
            LabelReply::Failed(failure),
        ) == LabelStep::Finish(Err(OperationError::Repository(RepositoryError::Unexpected(m)))),
{
}

} // verus!
