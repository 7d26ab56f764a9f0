use todo_repository::error::RepositoryError;
use todo_repository::label::{Label, LabelRepository, LabelRepositoryForMemory};
use todo_repository::todo::{CreateTodo, TodoEntity, TodoRepository, TodoRepositoryForMemory, UpdateTodo};

#[test]
fn todo_crud_scenario() {
    let text = "todo text".to_string();
    let id = 1;
    let expected = TodoEntity::new(id, text.clone());

    let labels = vec![];
    let mut repository = TodoRepositoryForMemory::new();
    let todo = repository
        .create(CreateTodo { text, labels })
        .expect("failed create todo");
    assert_eq!(expected, todo);

    let todo = repository.find(id).unwrap();
    assert_eq!(expected, todo);

    let todo = repository.all().expect("failed get all todo");
    assert_eq!(vec![expected], todo);

    let text = "update todo text".to_string();
    let todo = repository
        .update(
            1,
            UpdateTodo {
                text: Some(text.clone()),
                completed: Some(true),
                labels: Some(vec![]),
            },
        )
        .expect("failed update todo.");
    assert_eq!(
        TodoEntity {
            id,
            text,
            completed: true,
            labels: vec![]
        },
        todo
    );

    let res = repository.delete(id);
    assert!(res.is_ok());
}

#[test]
fn memory_todo_ids_count_up() {
    let mut repository = TodoRepositoryForMemory::new();
    let first = repository.create(CreateTodo::new("a".to_string(), vec![])).unwrap();
    let second = repository.create(CreateTodo::new("b".to_string(), vec![7])).unwrap();
    assert_eq!(first.id, 1);
    assert_eq!(second.id, 2);
    assert!(second.labels.is_empty());
    assert!(!second.completed);
}

#[test]
fn memory_todo_create_after_delete_reuses_an_id() {
    let mut repository = TodoRepositoryForMemory::new();
    repository.create(CreateTodo::new("a".to_string(), vec![])).unwrap();
    repository.create(CreateTodo::new("b".to_string(), vec![])).unwrap();
    repository.delete(1).unwrap();
    let third = repository.create(CreateTodo::new("c".to_string(), vec![])).unwrap();
    assert_eq!(third.id, 2);
    assert_eq!(repository.find(2).unwrap().text, "c");
    assert_eq!(repository.all().unwrap().len(), 1);
}

#[test]
fn memory_todo_missing_ids_are_not_found() {
    let mut repository = TodoRepositoryForMemory::new();
    assert_eq!(repository.find(5), Err(RepositoryError::NotFound(5)));
    let change = UpdateTodo { text: None, completed: Some(true), labels: None };
    assert_eq!(repository.update(5, change), Err(RepositoryError::NotFound(5)));
    assert_eq!(repository.delete(5), Err(RepositoryError::NotFound(5)));
    assert!(repository.all().unwrap().is_empty());
}

#[test]
fn memory_todo_update_keeps_what_is_not_given() {
    let mut repository = TodoRepositoryForMemory::new();
    repository.create(CreateTodo::new("keep me".to_string(), vec![])).unwrap();
    let done = repository
        .update(1, UpdateTodo { text: None, completed: Some(true), labels: None })
        .unwrap();
    assert_eq!(done.text, "keep me");
    assert!(done.completed);
    let renamed = repository
        .update(1, UpdateTodo { text: Some("new".to_string()), completed: None, labels: None })
        .unwrap();
    assert_eq!(renamed.text, "new");
    assert!(renamed.completed);
    assert_eq!(repository.find(1).unwrap(), renamed);
}

#[test]
fn memory_todo_delete_twice_fails_the_second_time() {
    let mut repository = TodoRepositoryForMemory::new();
    repository.create(CreateTodo::new("x".to_string(), vec![])).unwrap();
    assert_eq!(repository.delete(1), Ok(()));
    assert_eq!(repository.delete(1), Err(RepositoryError::NotFound(1)));
    assert_eq!(repository.find(1), Err(RepositoryError::NotFound(1)));
}

#[test]
fn memory_todo_all_lists_each_once() {
    let mut repository = TodoRepositoryForMemory::new();
    for text in ["a", "b", "c"] {
        repository.create(CreateTodo::new(text.to_string(), vec![])).unwrap();
    }
    let mut ids: Vec<i32> = repository.all().unwrap().iter().map(|t| t.id).collect();
    ids.sort();
    assert_eq!(ids, vec![1, 2, 3]);
}

#[test]
fn todo_clone_is_equal() {
    let todo = TodoEntity {
        id: 4,
        text: "t".to_string(),
        completed: true,
        labels: vec![Label::new(1, "l".to_string())],
    };
    assert_eq!(todo.clone(), todo);
}

#[test]
fn label_memory_scenario() {
    let mut repository = LabelRepositoryForMemory::new();
    let label = repository.create("test_label".to_string()).expect("[create] returned Err");
    assert_eq!(label, Label::new(1, "test_label".to_string()));
    let labels = repository.all().expect("[all] returned Err");
    assert_eq!(labels.last().unwrap().name, "test_label");
    repository.delete(label.id).expect("[delete] returned Err");
    assert!(repository.all().unwrap().is_empty());
    assert_eq!(repository.delete(label.id), Err(RepositoryError::NotFound(1)));
}

#[test]
fn label_memory_all_lists_each_once() {
    let mut repository = LabelRepositoryForMemory::new();
    repository.create("a".to_string()).unwrap();
    repository.create("b".to_string()).unwrap();
    let mut names: Vec<String> = repository.all().unwrap().into_iter().map(|l| l.name).collect();
    names.sort();
    assert_eq!(names, vec!["a".to_string(), "b".to_string()]);
}
