use mcp_todo_task::{
    Priority, StringMap, Task, TaskCollection, TaskService, TaskStatistics, TaskStatus,
    TaskStorage,
};
use std::path::PathBuf;

fn counted(id: &str, status: TaskStatus, priority: Priority) -> Task {
    Task {
        id: id.to_string(),
        title: String::new(),
        description: String::new(),
        status,
        priority,
        created_at: String::new(),
        updated_at: String::new(),
        tags: Vec::new(),
        assignee: None,
        due_date: None,
    }
}

fn sum_of(counts: &StringMap<usize>) -> usize {
    let mut sum: usize = 0;
    for i in 0..counts.len() {
        sum += *counts.value_at(i);
    }
    sum
}

#[test]
fn statistics_of_no_tasks() {
    let stats = TaskStatistics::from_tasks(&[]);
    assert_eq!(stats.total_tasks, 0);
    assert_eq!(stats.status_counts.len(), 0);
    assert_eq!(stats.priority_counts.len(), 0);
}

#[test]
fn statistics_count_by_canonical_label() {
    let tasks = vec![
        counted("A", TaskStatus::Pending, Priority::High),
        counted("B", TaskStatus::Completed, Priority::Low),
        counted("C", TaskStatus::Pending, Priority::High),
    ];
    let stats = TaskStatistics::from_tasks(&tasks);
    assert_eq!(stats.total_tasks, 3);
    assert_eq!(stats.status_counts.len(), 2);
    assert_eq!(stats.status_counts.get("pending"), Some(&2));
    assert_eq!(stats.status_counts.get("completed"), Some(&1));
    assert_eq!(stats.priority_counts.len(), 2);
    assert_eq!(stats.priority_counts.get("high"), Some(&2));
    assert_eq!(stats.priority_counts.get("low"), Some(&1));
}

#[test]
fn absent_labels_are_absent_not_zero() {
    let tasks = vec![counted("A", TaskStatus::InProgress, Priority::Critical)];
    let stats = TaskStatistics::from_tasks(&tasks);
    assert_eq!(stats.status_counts.get("in_progress"), Some(&1));
    assert_eq!(stats.status_counts.get("pending"), None);
    assert_eq!(stats.status_counts.get("completed"), None);
    assert_eq!(stats.status_counts.get("cancelled"), None);
    assert_eq!(stats.priority_counts.get("critical"), Some(&1));
    assert_eq!(stats.priority_counts.get("low"), None);
    assert_eq!(stats.priority_counts.get("medium"), None);
    assert_eq!(stats.priority_counts.get("high"), None);
}

#[test]
fn keys_are_not_the_variant_names() {
    let tasks = vec![counted("A", TaskStatus::InProgress, Priority::Critical)];
    let stats = TaskStatistics::from_tasks(&tasks);
    assert_eq!(stats.status_counts.get("InProgress"), None);
    assert_eq!(stats.priority_counts.get("Critical"), None);
}

#[test]
fn counts_add_up_to_the_total() {
    let statuses = [
        TaskStatus::Pending,
        TaskStatus::InProgress,
        TaskStatus::Completed,
        TaskStatus::Cancelled,
    ];
    let priorities = [Priority::Low, Priority::Medium, Priority::High, Priority::Critical];
    let mut tasks: Vec<Task> = Vec::new();
    for i in 0..23usize {
        tasks.push(counted("t", statuses[(i * 7) % 4], priorities[(i * i) % 4]));
    }
    let stats = TaskStatistics::from_tasks(&tasks);
    assert_eq!(stats.total_tasks, 23);
    assert_eq!(sum_of(&stats.status_counts), 23);
    assert_eq!(sum_of(&stats.priority_counts), 23);
}

#[test]
fn labels_are_listed_in_order_of_first_occurrence() {
    let tasks = vec![
        counted("A", TaskStatus::Cancelled, Priority::Medium),
        counted("B", TaskStatus::Pending, Priority::Medium),
        counted("C", TaskStatus::Cancelled, Priority::Low),
        counted("D", TaskStatus::Completed, Priority::Medium),
    ];
    let stats = TaskStatistics::from_tasks(&tasks);
    assert_eq!(stats.status_counts.key_at(0), "cancelled");
    assert_eq!(stats.status_counts.key_at(1), "pending");
    assert_eq!(stats.status_counts.key_at(2), "completed");
    assert_eq!(*stats.status_counts.value_at(0), 2);
    assert_eq!(stats.priority_counts.key_at(0), "medium");
    assert_eq!(stats.priority_counts.key_at(1), "low");
    assert_eq!(*stats.priority_counts.value_at(0), 3);
}

#[test]
fn report_of_three_tasks() {
    let tasks = vec![
        counted("A", TaskStatus::Pending, Priority::High),
        counted("B", TaskStatus::Completed, Priority::Low),
        counted("C", TaskStatus::Pending, Priority::High),
    ];
    let report = TaskStatistics::from_tasks(&tasks).format_stats();
    assert_eq!(
        report,
        "## Task Statistics\n\n**Total Tasks:** 3\n\n### By Status:\n- pending: 2\n- completed: 1\n\n### By Priority:\n- high: 2\n- low: 1"
    );
}

#[test]
fn report_of_no_tasks() {
    let report = TaskStatistics::from_tasks(&[]).format_stats();
    assert_eq!(
        report,
        "## Task Statistics\n\n**Total Tasks:** 0\n\n### By Status:\n\n\n### By Priority:\n"
    );
}

#[test]
fn report_writes_counts_with_several_digits() {
    let mut tasks: Vec<Task> = Vec::new();
    for _ in 0..120 {
        tasks.push(counted("t", TaskStatus::Completed, Priority::Medium));
    }
    let report = TaskStatistics::from_tasks(&tasks).format_stats();
    assert_eq!(
        report,
        "## Task Statistics\n\n**Total Tasks:** 120\n\n### By Status:\n- completed: 120\n\n### By Priority:\n- medium: 120"
    );
}

#[test]
fn report_prints_whatever_the_statistics_hold() {
    let mut status_counts: StringMap<usize> = StringMap::new();
    status_counts.insert("custom".to_string(), 5);
    let stats = TaskStatistics {
        total_tasks: 9,
        status_counts,
        priority_counts: StringMap::new(),
    };
    assert_eq!(
        stats.format_stats(),
        "## Task Statistics\n\n**Total Tasks:** 9\n\n### By Status:\n- custom: 5\n\n### By Priority:\n"
    );
}

#[test]
fn service_statistics_are_those_of_the_collection() {
    let service = TaskService::new(TaskStorage::new(PathBuf::from("t.json")));
    let collection = TaskCollection {
        tasks: vec![
            counted("A", TaskStatus::Pending, Priority::Low),
            counted("B", TaskStatus::Pending, Priority::High),
        ],
        version: "1.0".to_string(),
    };
    let stats = service.get_task_statistics(&collection);
    assert_eq!(stats.total_tasks, 2);
    assert_eq!(stats.status_counts.get("pending"), Some(&2));
    assert_eq!(stats.priority_counts.get("low"), Some(&1));
    assert_eq!(stats.priority_counts.get("high"), Some(&1));
}
