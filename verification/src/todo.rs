use std::collections::HashMap;
use vstd::prelude::*;
use vstd::std_specs::iter::IteratorSpec;

use crate::error::RepositoryError;
use crate::ids::{id_after, lemma_i32_keys_bound, lemma_values_listed_once, next_id};
use crate::label::Label;
use crate::validation::{check_text_length, text_verdict, TextLengthViolation};

verus! {

broadcast use vstd::std_specs::hash::group_hash_axioms;

/// A todo as the repositories hand it out.
#[derive(Debug, PartialEq, Eq)]
pub struct TodoEntity {
    pub id: i32,
    pub text: String,
    pub completed: bool,
    pub labels: Vec<Label>,
}

/// What a store holds about a todo under its id.
pub struct TodoRecord {
    pub text: Seq<char>,
    pub completed: bool,
    pub labels: Seq<Label>,
}

impl View for TodoEntity {
    type V = TodoRecord;

    open spec fn view(&self) -> TodoRecord {
        TodoRecord { text: self.text@, completed: self.completed, labels: self.labels@ }
    }
}

impl TodoEntity {
    /// A todo that is not completed and has no labels.
    pub fn new(id: i32, text: String) -> (todo: TodoEntity)
        ensures
            todo.id == id,
            todo.text == text,
            !todo.completed,
            todo.labels@ == Seq::<Label>::empty(),
    {
        TodoEntity { id, text, completed: false, labels: Vec::new() }
    }
}

impl Clone for TodoEntity {
    fn clone(&self) -> (copy: Self)
        ensures
            copy.id == self.id,
            copy.text == self.text,
            copy.completed == self.completed,
            copy@ == self@,
    {
        let labels = self.labels.clone();
        assert(labels@ =~= self.labels@);
        TodoEntity { id: self.id, text: self.text.clone(), completed: self.completed, labels }
    }
}

/// A row of the query that joins a todo with one of its labels.
#[derive(Debug, PartialEq, Eq)]
pub struct TodoWithLabelFromRow {
    pub id: i32,
    pub text: String,
    pub completed: bool,
    pub label_id: Option<i32>,
    pub label_name: Option<String>,
}

/// A row of the todos table.
#[derive(Debug, PartialEq, Eq)]
pub struct TodoFromRow {
    pub id: i32,
    pub text: String,
    pub completed: bool,
}

/// `todo` is the entity made of `row`: its id, text and completion, and no labels.
pub open spec fn entity_from_row(todo: TodoEntity, row: TodoWithLabelFromRow) -> bool {
    &&& todo.id == row.id
    &&& todo.text@ == row.text@
    &&& todo.completed == row.completed
    &&& todo.labels@ == Seq::<Label>::empty()
}

/// One entity per row, in the order of the rows; the label columns are not read.
pub fn fold_entities(rows: Vec<TodoWithLabelFromRow>) -> (todos: Vec<TodoEntity>)
    ensures
        todos@.len() == rows@.len(),
        forall|i: int| 0 <= i < rows@.len() ==> entity_from_row(#[trigger] todos@[i], rows@[i]),
        forall|i: int| 0 <= i < rows@.len() ==> {
            &&& (#[trigger] todos@[i]).id == rows@[i].id
            &&& todos@[i].text@ == rows@[i].text@
            &&& todos@[i].completed == rows@[i].completed
            &&& todos@[i].labels@.len() == 0
        },
{
    let mut accum: Vec<TodoEntity> = Vec::new();
    let n = rows.len();
    for i in 0..n
        invariant
            n == rows@.len(),
            accum@.len() == i,
            forall|j: int| 0 <= j < i ==> entity_from_row(#[trigger] accum@[j], rows@[j]),
    {
        let current = &rows[i];
        accum.push(
            TodoEntity {
                id: current.id,
                text: current.text.clone(),
                completed: current.completed,
                labels: Vec::new(),
            },
        );
    }
    accum
}

/// The request body that asks for a new todo.
#[derive(Debug, PartialEq, Eq)]
pub struct CreateTodo {
    pub text: String,
    pub labels: Vec<i32>,
}

impl CreateTodo {
    pub fn new(text: String, labels: Vec<i32>) -> (req: CreateTodo)
        ensures
            req.text == text,
            req.labels == labels,
    {
        CreateTodo { text, labels }
    }

    /// The text must have between 1 and 100 characters.
    pub fn validate(&self) -> (r: Result<(), TextLengthViolation>)
        ensures
            r == text_verdict(self.text@),
            r is Ok <==> 1 <= self.text@.len() <= 100,
            self.text@.len() == 0 ==> r == Err::<(), TextLengthViolation>(TextLengthViolation::Empty),
            self.text@.len() > 100 ==> r == Err::<(), TextLengthViolation>(TextLengthViolation::TooLong),
    {
        check_text_length(&self.text)
    }
}

/// The request body that asks to change a todo; what is `None` stays as it is.
#[derive(Debug, PartialEq, Eq)]
pub struct UpdateTodo {
    pub text: Option<String>,
    pub completed: Option<bool>,
    pub labels: Option<Vec<i32>>,
}

/// The verdict on an update: a new text, where one is given, must have
/// between 1 and 100 characters.
pub open spec fn update_verdict(text: Option<String>) -> Result<(), TextLengthViolation> {
    match text {
        Some(t) => text_verdict(t@),
        None => Ok(()),
    }
}

impl UpdateTodo {
    pub fn validate(&self) -> (r: Result<(), TextLengthViolation>)
        ensures
            r == update_verdict(self.text),
            self.text is None ==> r is Ok,
            self.text matches Some(t) ==> (r is Ok <==> 1 <= t@.len() <= 100),
            self.text matches Some(t) ==> (t@.len() == 0 ==> r == Err::<(), TextLengthViolation>(TextLengthViolation::Empty)),
            self.text matches Some(t) ==> (t@.len() > 100 ==> r == Err::<(), TextLengthViolation>(TextLengthViolation::TooLong)),
    {
        match &self.text {
            Some(t) => check_text_length(t),
            None => Ok(()),
        }
    }
}

/// The text after an update: the new one where one is given, else the old one.
pub open spec fn updated_text(new_text: Option<String>, old_text: Seq<char>) -> Seq<char> {
    match new_text {
        Some(t) => t@,
        None => old_text,
    }
}

/// The completion after an update: the new one where one is given, else the old one.
pub open spec fn updated_completed(new_completed: Option<bool>, old_completed: bool) -> bool {
    match new_completed {
        Some(c) => c,
        None => old_completed,
    }
}

/// `v` lists the todos of `m`, each one once, in some order.
pub open spec fn lists_todos(v: Seq<TodoEntity>, m: Map<i32, TodoRecord>) -> bool {
    &&& v.len() == m.len()
    &&& forall|i: int| 0 <= i < v.len() ==> m.contains_key(#[trigger] v[i].id) && m[v[i].id] == v[i]@
    &&& forall|i: int, j: int| 0 <= i < j < v.len() ==> #[trigger] v[i].id != #[trigger] v[j].id
    &&& forall|k: i32| #[trigger] m.contains_key(k) ==> exists|i: int| 0 <= i < v.len() && #[trigger] v[i].id == k
}

/// A store of todos, keyed by id.
pub trait TodoRepository: Sized {
    /// The todos held, each id with what is held under it.
    spec fn todos(&self) -> Map<i32, TodoRecord>;

    /// Adds a todo with the text given, not completed, and returns it.
    fn create(&mut self, payload: CreateTodo) -> (r: Result<TodoEntity, RepositoryError>)
        ensures
            match r {
                Ok(todo) => {
                    &&& todo.text@ == payload.text@
                    &&& !todo.completed
                    &&& final(self).todos() == old(self).todos().insert(todo.id, todo@)
                },
                Err(_) => final(self).todos() == old(self).todos(),
            },
    ;

    /// The todo `id`; fails with `NotFound(id)` where there is none.
    fn find(&self, id: i32) -> (r: Result<TodoEntity, RepositoryError>)
        ensures
            r is Ok <==> self.todos().contains_key(id),
            r matches Ok(todo) ==> todo.id == id && todo@ == self.todos()[id],
            r matches Err(e) ==> e == RepositoryError::NotFound(id),
    ;

    /// Every todo held.
    fn all(&self) -> (r: Result<Vec<TodoEntity>, RepositoryError>)
        ensures
            r matches Ok(v) ==> lists_todos(v@, self.todos()),
    ;

    /// Changes the text and completion of the todo `id` where the payload gives
    /// them; fails with `NotFound(id)` where there is no such todo.
    fn update(&mut self, id: i32, payload: UpdateTodo) -> (r: Result<TodoEntity, RepositoryError>)
        ensures
            r is Ok <==> old(self).todos().contains_key(id),
            r matches Ok(todo) ==> {
                &&& todo.id == id
                &&& todo.text@ == updated_text(payload.text, old(self).todos()[id].text)
                &&& todo.completed == updated_completed(payload.completed, old(self).todos()[id].completed)
                &&& payload.completed matches Some(c) ==> todo.completed == c
                &&& payload.completed is None ==> todo.completed == old(self).todos()[id].completed
                &&& payload.text matches Some(t) ==> todo.text@ == t@
                &&& payload.text is None ==> todo.text@ == old(self).todos()[id].text
                &&& final(self).todos() == old(self).todos().insert(id, todo@)
            },
            r matches Err(e) ==> e == RepositoryError::NotFound(id) && final(self).todos() == old(self).todos(),
    ;

    /// Removes the todo `id`; fails with `NotFound(id)` where there is none.
    fn delete(&mut self, id: i32) -> (r: Result<(), RepositoryError>)
        ensures
            r is Ok <==> old(self).todos().contains_key(id),
            r is Ok ==> final(self).todos() == old(self).todos().remove(id),
            r matches Err(e) ==> e == RepositoryError::NotFound(id) && final(self).todos() == old(self).todos(),
    ;
}

/// Todos held in memory, in a hash map from id to todo.
pub struct TodoRepositoryForMemory {
    store: HashMap<i32, TodoEntity>,
}

impl TodoRepositoryForMemory {
    /// Every todo is stored under its own id.
    #[verifier::type_invariant]
    spec fn ids_match_keys(self) -> bool {
        forall|k: i32| #[trigger] self.store@.contains_key(k) ==> self.store@[k].id == k
    }

    /// An empty store.
    pub fn new() -> (repo: Self)
        ensures
            repo.todos() == Map::<i32, TodoRecord>::empty(),
    {
        let repo = TodoRepositoryForMemory { store: HashMap::new() };
        assert(repo.todos() =~= Map::<i32, TodoRecord>::empty());
        repo
    }
}

impl TodoRepository for TodoRepositoryForMemory {
    closed spec fn todos(&self) -> Map<i32, TodoRecord> {
        self.store@.map_values(|t: TodoEntity| t@)
    }

    /// The new todo's id is the number of todos held plus one (cut to 32
    /// bits); a todo already stored under that id is replaced. The labels of
    /// the payload are not kept. Never fails.
    fn create(&mut self, payload: CreateTodo) -> (r: Result<TodoEntity, RepositoryError>)
        ensures
            r matches Ok(todo) && todo.id == next_id(old(self).todos().len()) && todo.labels@ == Seq::<Label>::empty(),
    {
        proof {
            use_type_invariant(&*self);
            lemma_i32_keys_bound(self.store@);
        }
        let count = self.store.len();
        assert(self.todos().dom() =~= self.store@.dom());
        let id = id_after(count);
        let todo = TodoEntity::new(id, payload.text.clone());
        let mut store = HashMap::new();
        std::mem::swap(&mut store, &mut self.store);
        store.insert(id, todo.clone());
        self.store = store;
        assert(self.todos() =~= old(self).todos().insert(id, todo@));
        Ok(todo)
    }

    fn find(&self, id: i32) -> (r: Result<TodoEntity, RepositoryError>) {
        proof {
            use_type_invariant(self);
        }
        match self.store.get(&id) {
            Some(todo) => Ok(todo.clone()),
            None => Err(RepositoryError::NotFound(id)),
        }
    }

    /// Never fails.
    fn all(&self) -> (r: Result<Vec<TodoEntity>, RepositoryError>)
        ensures
            r is Ok,
    {
        proof {
            use_type_invariant(self);
        }
        let mut out: Vec<TodoEntity> = Vec::new();
        let ghost listed = vstd::std_specs::hash::spec_values_iter(&self.store).remaining();
        for todo in it: self.store.values()
            invariant
                it.seq() == listed,
                out@.len() == it.index(),
                forall|j: int| 0 <= j < out@.len() ==> (#[trigger] out@[j]).id == (*listed[j]).id && out@[j]@ == (*listed[j])@,
        {
            out.push(todo.clone());
        }
        proof {
            let held = self.store@;
            let seen = listed.unref();
            lemma_values_listed_once(seen, held, |t: TodoEntity| t.id);
            let records = self.todos();
            assert forall|i: int| 0 <= i < out@.len() implies records.contains_key(#[trigger] out@[i].id)
                && records[out@[i].id] == out@[i]@ by {
                assert(held.contains_key((|t: TodoEntity| t.id)(seen[i])));
            }
            assert forall|i: int, j: int| 0 <= i < j < out@.len() implies #[trigger] out@[i].id != #[trigger] out@[j].id by {
                assert((|t: TodoEntity| t.id)(seen[i]) != (|t: TodoEntity| t.id)(seen[j]));
            }
            assert forall|k: i32| #[trigger] records.contains_key(k) implies exists|i: int| 0 <= i < out@.len() && #[trigger] out@[i].id == k by {
                assert(held.contains_key(k));
                let i = choose|i: int| 0 <= i < seen.len() && (|t: TodoEntity| t.id)(#[trigger] seen[i]) == k;
                assert(out@[i].id == k);
            }
            assert(records.dom() =~= held.dom());
        }
        Ok(out)
    }

    /// The todo's labels are emptied, whatever the payload holds.
    fn update(&mut self, id: i32, payload: UpdateTodo) -> (r: Result<TodoEntity, RepositoryError>)
        ensures
            r matches Ok(todo) ==> todo.labels@ == Seq::<Label>::empty(),
    {
        proof {
            use_type_invariant(&*self);
        }
        let (text, completed) = match self.store.get(&id) {
            Some(current) => {
                let text = match payload.text {
                    Some(t) => t,
                    None => current.text.clone(),
                };
                let completed = match payload.completed {
                    Some(c) => c,
                    None => current.completed,
                };
                (text, completed)
            },
            None => {
                return Err(RepositoryError::NotFound(id));
            },
        };
        let todo = TodoEntity { id, text, completed, labels: Vec::new() };
        let mut store = HashMap::new();
        std::mem::swap(&mut store, &mut self.store);
        store.insert(id, todo.clone());
        self.store = store;
        assert(self.todos() =~= old(self).todos().insert(id, todo@));
        Ok(todo)
    }

    fn delete(&mut self, id: i32) -> (r: Result<(), RepositoryError>) {
        proof {
            use_type_invariant(&*self);
        }
        let mut store = HashMap::new();
        std::mem::swap(&mut store, &mut self.store);
        let removed = store.remove(&id);
        self.store = store;
        match removed {
            Some(_) => {
                assert(self.todos() =~= old(self).todos().remove(id));
                Ok(())
            },
            None => {
                assert(self.todos() =~= old(self).todos());
                Err(RepositoryError::NotFound(id))
            },
        }
    }
}

} // verus!
