use todo_repository::error::{DbFailure, OperationError, RepositoryError};
use todo_repository::label::Label;
use todo_repository::label_db::{label_resume, label_start, LabelOutcome, LabelQuery, LabelReply, LabelStep, LabelTask};
use todo_repository::todo::{CreateTodo, TodoEntity, TodoFromRow, TodoWithLabelFromRow, UpdateTodo};
use todo_repository::todo_db::{todo_resume, todo_start, TodoOutcome, TodoQuery, TodoReply, TodoStep, TodoTask};

/// Tables kept in memory that answer the queries as the database would.
#[derive(Default)]
struct Tables {
    labels: Vec<Label>,
    next_label: i32,
    todos: Vec<(i32, String, bool)>,
    next_todo: i32,
    links: Vec<(i32, i32)>,
    log: Vec<String>,
}

impl Tables {
    fn answer_label(&mut self, query: LabelQuery) -> LabelReply {
        match query {
            LabelQuery::SelectByName { name } => {
                LabelReply::Found(self.labels.iter().find(|l| l.name == name).cloned())
            }
            LabelQuery::Insert { name } => {
                self.next_label += 1;
                let label = Label::new(self.next_label, name);
                self.labels.push(label.clone());
                LabelReply::Inserted(label)
            }
            LabelQuery::SelectAll => {
                let mut all = self.labels.clone();
                all.sort_by_key(|l| l.id);
                LabelReply::Listed(all)
            }
            LabelQuery::Delete { id } => {
                self.labels.retain(|l| l.id != id);
                LabelReply::Executed
            }
        }
    }

    fn rows_of(&self, id: i32, text: &str, completed: bool) -> Vec<TodoWithLabelFromRow> {
        let linked: Vec<&Label> = self
            .links
            .iter()
            .filter(|(t, _)| *t == id)
            .filter_map(|(_, l)| self.labels.iter().find(|x| x.id == *l))
            .collect();
        if linked.is_empty() {
            return vec![TodoWithLabelFromRow {
                id,
                text: text.to_string(),
                completed,
                label_id: None,
                label_name: None,
            }];
        }
        linked
            .into_iter()
            .map(|l| TodoWithLabelFromRow {
                id,
                text: text.to_string(),
                completed,
                label_id: Some(l.id),
                label_name: Some(l.name.clone()),
            })
            .collect()
    }

    fn answer_todo(&mut self, query: TodoQuery) -> TodoReply {
        self.log.push(format!("{:?}", query));
        match query {
            TodoQuery::Begin | TodoQuery::Commit => TodoReply::Executed,
            TodoQuery::InsertTodo { text } => {
                self.next_todo += 1;
                self.todos.push((self.next_todo, text.clone(), false));
                TodoReply::Inserted(TodoFromRow { id: self.next_todo, text, completed: false })
            }
            TodoQuery::LinkLabels { todo_id, label_ids } => {
                for l in label_ids {
                    self.links.push((todo_id, l));
                }
                TodoReply::Executed
            }
            TodoQuery::SelectTodo { id } => {
                let found = self.todos.iter().find(|t| t.0 == id).cloned();
                match found {
                    Some((id, text, completed)) => TodoReply::Rows(self.rows_of(id, &text, completed)),
                    None => TodoReply::Rows(vec![]),
                }
            }
            TodoQuery::SelectAll => {
                let mut todos = self.todos.clone();
                todos.sort_by_key(|t| -t.0);
                TodoReply::Rows(
                    todos
                        .into_iter()
                        .map(|(id, text, completed)| TodoWithLabelFromRow {
                            id,
                            text,
                            completed,
                            label_id: None,
                            label_name: None,
                        })
                        .collect(),
                )
            }
            TodoQuery::UpdateRow { id, text, completed } => match self.todos.iter_mut().find(|t| t.0 == id) {
                Some(t) => {
                    t.1 = text;
                    t.2 = completed;
                    TodoReply::Executed
                }
                None => TodoReply::Failed(DbFailure::RowNotFound),
            },
            TodoQuery::UnlinkLabels { todo_id } => {
                self.links.retain(|(t, _)| *t != todo_id);
                TodoReply::Executed
            }
            TodoQuery::DeleteTodo { id } => {
                self.todos.retain(|t| t.0 != id);
                TodoReply::Executed
            }
        }
    }
}

fn run_label(tables: &mut Tables, task: LabelTask) -> Result<LabelOutcome, OperationError> {
    let mut step = label_start(task);
    loop {
        match step {
            LabelStep::Run(phase, query) => {
                let reply = tables.answer_label(query);
                step = label_resume(phase, reply);
            }
            LabelStep::Finish(result) => return result,
        }
    }
}

fn run_todo(tables: &mut Tables, task: TodoTask) -> Result<TodoOutcome, OperationError> {
    let mut step = todo_start(task);
    loop {
        match step {
            TodoStep::Run(phase, query) => {
                let reply = tables.answer_todo(query);
                step = todo_resume(phase, reply);
            }
            TodoStep::Finish(result) => return result,
        }
    }
}

fn one(outcome: Result<TodoOutcome, OperationError>) -> TodoEntity {
    match outcome {
        Ok(TodoOutcome::One(todo)) => todo,
        other => panic!("expected one todo, got {:?}", other),
    }
}

#[test]
fn label_crud_scenario() {
    let mut tables = Tables::default();
    let label_text = "test_label";

    let label = match run_label(&mut tables, LabelTask::Create(label_text.to_string())) {
        Ok(LabelOutcome::Created(label)) => label,
        other => panic!("[create] returned {:?}", other),
    };
    assert_eq!(label.name, label_text);

    let labels = match run_label(&mut tables, LabelTask::All) {
        Ok(LabelOutcome::Listed(labels)) => labels,
        other => panic!("[all] returned {:?}", other),
    };
    let label = labels.last().unwrap();
    assert_eq!(label.name, label_text);

    assert_eq!(run_label(&mut tables, LabelTask::Delete(label.id)), Ok(LabelOutcome::Deleted));
}

#[test]
fn label_create_refuses_a_taken_name() {
    let mut tables = Tables::default();
    run_label(&mut tables, LabelTask::Create("urgent".to_string())).unwrap();
    assert_eq!(
        run_label(&mut tables, LabelTask::Create("urgent".to_string())),
        Err(OperationError::Repository(RepositoryError::Duplicate(1)))
    );
    assert_eq!(tables.labels.len(), 1);
}

#[test]
fn label_failures_are_reported() {
    let step = label_start(LabelTask::Delete(9));
    let phase = match step {
        LabelStep::Run(phase, LabelQuery::Delete { id: 9 }) => phase,
        _ => panic!("delete must run its query"),
    };
    match label_resume(phase, LabelReply::Failed(DbFailure::RowNotFound)) {
        LabelStep::Finish(result) => {
            assert_eq!(result, Err(OperationError::Repository(RepositoryError::NotFound(9))))
        }
        LabelStep::Run(..) => panic!("a failure ends the operation"),
    }
    let phase = match label_start(LabelTask::Delete(9)) {
        LabelStep::Run(phase, _) => phase,
        _ => panic!(),
    };
    match label_resume(phase, LabelReply::Failed(DbFailure::Other("boom".to_string()))) {
        LabelStep::Finish(result) => assert_eq!(
            result,
            Err(OperationError::Repository(RepositoryError::Unexpected("boom".to_string())))
        ),
        LabelStep::Run(..) => panic!("a failure ends the operation"),
    }
    let phase = match label_start(LabelTask::All) {
        LabelStep::Run(phase, LabelQuery::SelectAll) => phase,
        _ => panic!(),
    };
    match label_resume(phase, LabelReply::Failed(DbFailure::RowNotFound)) {
        LabelStep::Finish(result) => assert_eq!(result, Err(OperationError::Database(DbFailure::RowNotFound))),
        LabelStep::Run(..) => panic!("a failure ends the operation"),
    }
}

#[test]
fn todo_db_crud_scenario() {
    let mut tables = Tables::default();
    let todo_text = "[crud_scenario] text";

    let created = one(run_todo(&mut tables, TodoTask::Create(CreateTodo::new(todo_text.to_string(), vec![]))));
    assert_eq!(created.text, todo_text);
    assert!(!created.completed);

    let todo = one(run_todo(&mut tables, TodoTask::Find(created.id)));
    assert_eq!(created, todo);

    let todos = match run_todo(&mut tables, TodoTask::All) {
        Ok(TodoOutcome::Many(todos)) => todos,
        other => panic!("[all] returned {:?}", other),
    };
    assert_eq!(created, *todos.first().unwrap());

    let updated_text = "[crud_scenario] updated text";
    let todo = one(run_todo(
        &mut tables,
        TodoTask::Update(
            created.id,
            UpdateTodo { text: Some(updated_text.to_string()), completed: Some(true), labels: Some(vec![]) },
        ),
    ));
    assert_eq!(created.id, todo.id);
    assert_eq!(todo.text, updated_text);
    assert!(todo.completed);
    assert!(todo.labels.len() == 0);

    assert_eq!(run_todo(&mut tables, TodoTask::Delete(todo.id)), Ok(TodoOutcome::Removed));
    assert_eq!(
        run_todo(&mut tables, TodoTask::Find(created.id)),
        Err(OperationError::Repository(RepositoryError::NotFound(created.id)))
    );
    assert!(tables.todos.is_empty());
    assert!(tables.links.is_empty());
}

#[test]
fn todo_db_create_runs_its_statements_in_order() {
    let mut tables = Tables::default();
    run_todo(&mut tables, TodoTask::Create(CreateTodo::new("t".to_string(), vec![3, 4]))).unwrap();
    assert_eq!(
        tables.log,
        vec![
            "Begin".to_string(),
            "InsertTodo { text: \"t\" }".to_string(),
            "LinkLabels { todo_id: 1, label_ids: [3, 4] }".to_string(),
            "Commit".to_string(),
            "SelectTodo { id: 1 }".to_string(),
        ]
    );
    assert_eq!(tables.links, vec![(1, 3), (1, 4)]);
}

#[test]
fn todo_db_update_keeps_unchanged_fields_and_relabels() {
    let mut tables = Tables::default();
    run_todo(&mut tables, TodoTask::Create(CreateTodo::new("t".to_string(), vec![3]))).unwrap();
    tables.log.clear();
    let todo = one(run_todo(
        &mut tables,
        TodoTask::Update(1, UpdateTodo { text: None, completed: Some(true), labels: Some(vec![5]) }),
    ));
    assert_eq!(todo.text, "t");
    assert!(todo.completed);
    assert_eq!(tables.links, vec![(1, 5)]);
    assert_eq!(
        tables.log,
        vec![
            "Begin".to_string(),
            "SelectTodo { id: 1 }".to_string(),
            "UpdateRow { id: 1, text: \"t\", completed: true }".to_string(),
            "UnlinkLabels { todo_id: 1 }".to_string(),
            "LinkLabels { todo_id: 1, label_ids: [5] }".to_string(),
            "Commit".to_string(),
            "SelectTodo { id: 1 }".to_string(),
        ]
    );
    tables.log.clear();
    run_todo(&mut tables, TodoTask::Update(1, UpdateTodo { text: Some("u".to_string()), completed: None, labels: None }))
        .unwrap();
    assert_eq!(tables.links, vec![(1, 5)]);
    assert!(!tables.log.iter().any(|q| q.starts_with("UnlinkLabels")));
}

#[test]
fn todo_db_missing_todo_is_not_found() {
    let mut tables = Tables::default();
    assert_eq!(
        run_todo(&mut tables, TodoTask::Update(8, UpdateTodo { text: None, completed: None, labels: None })),
        Err(OperationError::Repository(RepositoryError::NotFound(8)))
    );
    assert_eq!(
        run_todo(&mut tables, TodoTask::Find(8)),
        Err(OperationError::Repository(RepositoryError::NotFound(8)))
    );
}

#[test]
fn todo_db_failures_end_the_operation() {
    let step = todo_start(TodoTask::Create(CreateTodo::new("t".to_string(), vec![])));
    let phase = match step {
        TodoStep::Run(phase, TodoQuery::Begin) => phase,
        _ => panic!("create opens a transaction first"),
    };
    match todo_resume(phase, TodoReply::Failed(DbFailure::Other("down".to_string()))) {
        TodoStep::Finish(result) => {
            assert_eq!(result, Err(OperationError::Database(DbFailure::Other("down".to_string()))))
        }
        TodoStep::Run(..) => panic!("a failure ends the operation"),
    }
    let phase = match todo_start(TodoTask::Find(2)) {
        TodoStep::Run(phase, TodoQuery::SelectTodo { id: 2 }) => phase,
        _ => panic!(),
    };
    match todo_resume(phase, TodoReply::Failed(DbFailure::Other("lost".to_string()))) {
        TodoStep::Finish(result) => assert_eq!(
            result,
            Err(OperationError::Repository(RepositoryError::Unexpected("lost".to_string())))
        ),
        TodoStep::Run(..) => panic!("a failure ends the operation"),
    }
}
