use mcp_todo_task::{Priority, Task, TaskCollection, TaskStatus};

fn sample_task() -> Task {
    Task {
        id: "t-1".to_string(),
        title: "Write report".to_string(),
        description: "Quarterly numbers".to_string(),
        status: TaskStatus::InProgress,
        priority: Priority::High,
        created_at: "2024-01-01T00:00:00Z".to_string(),
        updated_at: "2024-01-02T00:00:00Z".to_string(),
        tags: vec!["work".to_string(), "work".to_string(), "q1".to_string()],
        assignee: Some("ana".to_string()),
        due_date: None,
    }
}

#[test]
fn status_labels_are_canonical() {
    assert_eq!(TaskStatus::Pending.as_label(), "pending");
    assert_eq!(TaskStatus::InProgress.as_label(), "in_progress");
    assert_eq!(TaskStatus::Completed.as_label(), "completed");
    assert_eq!(TaskStatus::Cancelled.as_label(), "cancelled");
}

#[test]
fn priority_labels_are_canonical() {
    assert_eq!(Priority::Low.as_label(), "low");
    assert_eq!(Priority::Medium.as_label(), "medium");
    assert_eq!(Priority::High.as_label(), "high");
    assert_eq!(Priority::Critical.as_label(), "critical");
}

#[test]
fn variant_names_are_as_declared() {
    assert_eq!(TaskStatus::Pending.as_name(), "Pending");
    assert_eq!(TaskStatus::InProgress.as_name(), "InProgress");
    assert_eq!(TaskStatus::Completed.as_name(), "Completed");
    assert_eq!(TaskStatus::Cancelled.as_name(), "Cancelled");
    assert_eq!(Priority::Low.as_name(), "Low");
    assert_eq!(Priority::Medium.as_name(), "Medium");
    assert_eq!(Priority::High.as_name(), "High");
    assert_eq!(Priority::Critical.as_name(), "Critical");
}

#[test]
fn every_status_is_read_back_from_its_label() {
    for status in [
        TaskStatus::Pending,
        TaskStatus::InProgress,
        TaskStatus::Completed,
        TaskStatus::Cancelled,
    ] {
        assert_eq!(TaskStatus::from_label(status.as_label()), Some(status));
    }
}

#[test]
fn every_priority_is_read_back_from_its_label() {
    for priority in [Priority::Low, Priority::Medium, Priority::High, Priority::Critical] {
        assert_eq!(Priority::from_label(priority.as_label()), Some(priority));
    }
}

#[test]
fn labels_are_matched_exactly() {
    assert_eq!(TaskStatus::from_label("Pending"), None);
    assert_eq!(TaskStatus::from_label("PENDING"), None);
    assert_eq!(TaskStatus::from_label(" pending"), None);
    assert_eq!(TaskStatus::from_label("pending "), None);
    assert_eq!(TaskStatus::from_label("in-progress"), None);
    assert_eq!(TaskStatus::from_label("InProgress"), None);
    assert_eq!(TaskStatus::from_label("archived"), None);
    assert_eq!(TaskStatus::from_label(""), None);
    assert_eq!(Priority::from_label("High"), None);
    assert_eq!(Priority::from_label("urgent"), None);
    assert_eq!(Priority::from_label(""), None);
}

#[test]
fn a_label_of_one_kind_is_no_label_of_the_other() {
    assert_eq!(TaskStatus::from_label("low"), None);
    assert_eq!(Priority::from_label("pending"), None);
}

#[test]
fn new_collection_is_empty_with_default_version() {
    let collection = TaskCollection::new();
    assert!(collection.tasks.is_empty());
    assert_eq!(collection.version, "1.0");
}

#[test]
fn default_collection_equals_new() {
    let collection = TaskCollection::default();
    assert_eq!(collection.tasks.len(), 0);
    assert_eq!(collection.version, "1.0");
}

#[test]
fn task_clone_keeps_every_field() {
    let task = sample_task();
    let copy = task.clone();
    assert_eq!(copy.id, "t-1");
    assert_eq!(copy.title, "Write report");
    assert_eq!(copy.description, "Quarterly numbers");
    assert_eq!(copy.status, TaskStatus::InProgress);
    assert_eq!(copy.priority, Priority::High);
    assert_eq!(copy.created_at, "2024-01-01T00:00:00Z");
    assert_eq!(copy.updated_at, "2024-01-02T00:00:00Z");
    assert_eq!(copy.tags, vec!["work".to_string(), "work".to_string(), "q1".to_string()]);
    assert_eq!(copy.assignee, Some("ana".to_string()));
    assert_eq!(copy.due_date, None);
}

#[test]
fn collection_clone_keeps_tasks_in_order() {
    let mut second = sample_task();
    second.id = "t-2".to_string();
    second.due_date = Some("2024-03-01".to_string());
    let collection =
        TaskCollection { tasks: vec![sample_task(), second], version: "2.5".to_string() };
    let copy = collection.clone();
    assert_eq!(copy.version, "2.5");
    assert_eq!(copy.tasks.len(), 2);
    assert_eq!(copy.tasks[0].id, "t-1");
    assert_eq!(copy.tasks[1].id, "t-2");
    assert_eq!(copy.tasks[1].due_date, Some("2024-03-01".to_string()));
}
