use std::collections::HashSet;
use task_backend::errors::AppError;
use task_backend::models::{AddTaskBody, AddTaskResponse, DeleteTaskBody, DeleteTaskResponse, UpdateTaskBody};
use task_backend::repository::{SqlValue, TaskRepository};
use task_backend::service::{Command, TaskService};

fn create(text: &str) -> Result<Command, AppError> {
    TaskService::create_task(AddTaskBody { task: text.to_string() })
}

fn assert_uuid_v4(id: &str) {
    let chars: Vec<char> = id.chars().collect();
    assert_eq!(chars.len(), 36);
    for (i, c) in chars.iter().enumerate() {
        if i == 8 || i == 13 || i == 18 || i == 23 {
            assert_eq!(*c, '-');
        } else {
            assert!(c.is_ascii_digit() || ('a'..='f').contains(c));
        }
    }
    assert_eq!(chars[14], '4');
    assert!(matches!(chars[19], '8' | '9' | 'a' | 'b'));
}

#[test]
fn create_with_text_inserts_open_task_with_fresh_id() {
    match create("buy milk") {
        Ok(Command::Insert { id, description, completed }) => {
            assert_uuid_v4(&id);
            assert_eq!(description, "buy milk");
            assert_eq!(completed, 0);
        }
        other => panic!("unexpected {:?}", other),
    }
}

#[test]
fn create_with_empty_text_is_invalid_task() {
    assert_eq!(create(""), Err(AppError::InvalidTask));
}

#[test]
fn create_does_not_trim_whitespace() {
    assert!(matches!(create(" "), Ok(Command::Insert { .. })));
}

#[test]
fn creates_give_distinct_ids() {
    let n = 50;
    let mut ids = HashSet::new();
    for i in 0..n {
        match create(&format!("task {}", i)) {
            Ok(Command::Insert { id, .. }) => {
                ids.insert(id);
            }
            other => panic!("unexpected {:?}", other),
        }
    }
    assert_eq!(ids.len(), n);
}

#[test]
fn list_fetches_all() {
    assert_eq!(TaskService::list_tasks(), Command::FetchAll);
    let s = TaskRepository::fetch_tasks();
    assert_eq!(s.sql, "SELECT id, description, completed, created_at FROM tasks");
    assert!(s.binds.is_empty());
}

#[test]
fn update_without_fields_is_invalid_update() {
    let body = UpdateTaskBody { description: None, completed: None };
    assert_eq!(TaskService::update_task("abc", body.clone()), Err(AppError::InvalidUpdate));
    assert_eq!(TaskRepository::update_task("abc", &body), Err(AppError::InvalidUpdate));
}

#[test]
fn update_only_completed_sets_only_completed() {
    let body = UpdateTaskBody { description: None, completed: Some(1) };
    assert_eq!(
        TaskService::update_task("abc", body.clone()),
        Ok(Command::Update { id: "abc".to_string(), body: body.clone() })
    );
    let s = TaskRepository::update_task("abc", &body).unwrap();
    assert_eq!(s.update.sql, "UPDATE tasks SET completed = ? WHERE id = ?");
    assert_eq!(s.update.binds, vec![SqlValue::Int(1), SqlValue::Text("abc".to_string())]);
    assert_eq!(s.reread.sql, "SELECT id, description, completed, created_at FROM tasks WHERE id = ?");
    assert_eq!(s.reread.binds, vec![SqlValue::Text("abc".to_string())]);
}

#[test]
fn update_only_description_sets_only_description() {
    let body = UpdateTaskBody { description: Some("new".to_string()), completed: None };
    let s = TaskRepository::update_task("abc", &body).unwrap();
    assert_eq!(s.update.sql, "UPDATE tasks SET description = ? WHERE id = ?");
    assert_eq!(
        s.update.binds,
        vec![SqlValue::Text("new".to_string()), SqlValue::Text("abc".to_string())]
    );
}

#[test]
fn update_both_binds_in_clause_order() {
    let body = UpdateTaskBody { description: Some("d".to_string()), completed: Some(0) };
    let s = TaskRepository::update_task("k", &body).unwrap();
    assert_eq!(s.update.sql, "UPDATE tasks SET description = ?, completed = ? WHERE id = ?");
    assert_eq!(
        s.update.binds,
        vec![SqlValue::Text("d".to_string()), SqlValue::Int(0), SqlValue::Text("k".to_string())]
    );
    assert_eq!(s.update.sql.matches('?').count(), s.update.binds.len());
}

#[test]
fn delete_with_empty_id_is_invalid_id() {
    let r = TaskService::delete_tasks(DeleteTaskBody { id: String::new() });
    assert_eq!(r, Err(AppError::InvalidId));
}

#[test]
fn delete_with_id_deletes_that_row() {
    let r = TaskService::delete_tasks(DeleteTaskBody { id: "gone".to_string() });
    assert_eq!(r, Ok(Command::Delete { id: "gone".to_string() }));
    let s = TaskRepository::delete_task("gone".to_string());
    assert_eq!(s.sql, "DELETE FROM tasks WHERE id = ?");
    assert_eq!(s.binds, vec![SqlValue::Text("gone".to_string())]);
    assert_eq!(DeleteTaskResponse::deleted().message, "Task deleted successfully");
}

#[test]
fn insert_statement_binds_id_description_completed() {
    let s = TaskRepository::insert_task("i", "buy milk", 0);
    assert_eq!(s.sql, "INSERT INTO tasks (id, description, completed) VALUES (?, ?, ?)");
    assert_eq!(
        s.binds,
        vec![
            SqlValue::Text("i".to_string()),
            SqlValue::Text("buy milk".to_string()),
            SqlValue::Int(0)
        ]
    );
}

#[test]
fn round_trip_buy_milk() {
    let (id, description, completed) = match create("buy milk") {
        Ok(Command::Insert { id, description, completed }) => (id, description, completed),
        other => panic!("unexpected {:?}", other),
    };
    let insert = TaskRepository::insert_task(&id, &description, completed);
    assert_eq!(insert.binds[1], SqlValue::Text("buy milk".to_string()));
    assert_eq!(insert.binds[2], SqlValue::Int(0));

    let body = UpdateTaskBody { description: None, completed: Some(1) };
    let cmd = TaskService::update_task(&id, body.clone()).unwrap();
    assert_eq!(cmd, Command::Update { id: id.clone(), body: body.clone() });
    let s = TaskRepository::update_task(&id, &body).unwrap();
    assert_eq!(s.update.sql, "UPDATE tasks SET completed = ? WHERE id = ?");
    assert_eq!(s.update.binds, vec![SqlValue::Int(1), SqlValue::Text(id.clone())]);

    let cmd = TaskService::delete_tasks(DeleteTaskBody { id: id.clone() }).unwrap();
    assert_eq!(cmd, Command::Delete { id: id.clone() });
    assert_eq!(TaskRepository::delete_task(id.clone()).binds, vec![SqlValue::Text(id)]);
}

#[test]
fn add_task_scenario_messages() {
    assert!(create("x").is_ok());
    assert_eq!(AddTaskResponse::added().message, "Task added successfully");
    let err = create("").unwrap_err();
    assert_eq!(err.into_response(), (400, "Invalid task description".to_string()));
}
