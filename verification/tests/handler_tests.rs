use mcp_todo_task::mcp_handler::{keep_text, require_text, text_argument};
use mcp_todo_task::{
    Priority, StorageRead, StringMap, Task, TaskCollection, TaskMcpHandler, TaskService,
    TaskStatus, TaskStorage, ToolCall, ToolError, ToolReply,
};
use serde_json::Value;
use std::path::PathBuf;

fn handler() -> TaskMcpHandler {
    TaskMcpHandler::new(TaskService::new(TaskStorage::new(PathBuf::from("tasks.json"))))
}

fn entry(id: &str, status: TaskStatus, priority: Priority, tag: &str) -> Task {
    Task {
        id: id.to_string(),
        title: format!("Title {}", id),
        description: format!("Text {}", id),
        status,
        priority,
        created_at: "2024-01-01".to_string(),
        updated_at: "2024-01-02".to_string(),
        tags: vec![tag.to_string()],
        assignee: None,
        due_date: None,
    }
}

fn document() -> TaskCollection {
    TaskCollection {
        tasks: vec![
            entry("A", TaskStatus::Pending, Priority::High, "x"),
            entry("B", TaskStatus::Completed, Priority::Low, "x"),
            entry("C", TaskStatus::Pending, Priority::High, "y"),
        ],
        version: "1.0".to_string(),
    }
}

fn arguments(pairs: &[(&str, Value)]) -> serde_json::Map<String, Value> {
    let mut object = serde_json::Map::new();
    for (key, value) in pairs {
        object.insert(key.to_string(), value.clone());
    }
    object
}

fn text(value: &str) -> Value {
    Value::String(value.to_string())
}

fn list_ids(outcome: Result<ToolReply, ToolError>) -> (Vec<String>, String) {
    match outcome {
        Ok(ToolReply::TaskList { tasks, summary }) => {
            (tasks.iter().map(|t| t.id.clone()).collect(), summary)
        }
        other => panic!("not a task list: {:?}", other),
    }
}

fn call(name: &str, pairs: &[(&str, Value)], read: StorageRead) -> Result<ToolReply, ToolError> {
    let h = handler();
    let object = arguments(pairs);
    let resolved = h.resolve_call(name, Some(&object))?;
    h.call_tool(&resolved, read)
}

#[test]
fn scenario_list_pending() {
    let (ids, summary) =
        list_ids(call("list_tasks", &[("status", text("pending"))], StorageRead::Document(document())));
    assert_eq!(ids, vec!["A", "C"]);
    assert!(summary.starts_with("Found 2 task(s):\n\n"));
}

#[test]
fn scenario_list_pending_with_tag() {
    let (ids, summary) = list_ids(call(
        "list_tasks",
        &[("status", text("pending")), ("tag", text("x"))],
        StorageRead::Document(document()),
    ));
    assert_eq!(ids, vec!["A"]);
    assert_eq!(
        summary,
        "Found 1 task(s):\n\n- **Title A** (ID: A) - Status: Pending, Priority: High\n  Description: Text A\n  Tags: [x]"
    );
}

#[test]
fn scenario_list_unrecognised_status_is_an_empty_success() {
    let (ids, summary) =
        list_ids(call("list_tasks", &[("status", text("archived"))], StorageRead::Document(document())));
    assert!(ids.is_empty());
    assert_eq!(summary, "No tasks found with the specified filters.");
}

#[test]
fn scenario_task_stats() {
    match call("task_stats", &[], StorageRead::Document(document())) {
        Ok(ToolReply::Statistics { statistics, report }) => {
            assert_eq!(statistics.total_tasks, 3);
            assert_eq!(statistics.status_counts.len(), 2);
            assert_eq!(statistics.status_counts.get("pending"), Some(&2));
            assert_eq!(statistics.status_counts.get("completed"), Some(&1));
            assert_eq!(
                report,
                "## Task Statistics\n\n**Total Tasks:** 3\n\n### By Status:\n- pending: 2\n- completed: 1\n\n### By Priority:\n- high: 2\n- low: 1"
            );
        }
        other => panic!("not statistics: {:?}", other),
    }
}

#[test]
fn scenario_absent_document_lists_nothing() {
    let h = handler();
    let empty = serde_json::Map::new();
    let resolved = h.resolve_call("list_tasks", Some(&empty)).unwrap();
    let (ids, summary) = list_ids(h.call_tool(&resolved, StorageRead::Missing));
    assert_eq!(ids.len(), 0);
    assert_eq!(summary, "No tasks found with the specified filters.");
}

#[test]
fn scenario_empty_document_lists_nothing() {
    let (ids, _) = list_ids(call("list_tasks", &[], StorageRead::Document(TaskCollection::new())));
    assert_eq!(ids.len(), 0);
}

#[test]
fn scenario_absent_document_has_empty_statistics() {
    match call("task_stats", &[], StorageRead::Missing) {
        Ok(ToolReply::Statistics { statistics, report }) => {
            assert_eq!(statistics.total_tasks, 0);
            assert_eq!(statistics.status_counts.len(), 0);
            assert_eq!(statistics.priority_counts.len(), 0);
            assert_eq!(
                report,
                "## Task Statistics\n\n**Total Tasks:** 0\n\n### By Status:\n\n\n### By Priority:\n"
            );
        }
        other => panic!("not statistics: {:?}", other),
    }
}

#[test]
fn list_without_arguments_returns_all() {
    let h = handler();
    let resolved = h.resolve_call("list_tasks", None).unwrap();
    let (ids, summary) = list_ids(h.call_tool(&resolved, StorageRead::Document(document())));
    assert_eq!(ids, vec!["A", "B", "C"]);
    assert_eq!(
        summary,
        "Found 3 task(s):\n\n- **Title A** (ID: A) - Status: Pending, Priority: High\n  Description: Text A\n  Tags: [x]\n\n- **Title B** (ID: B) - Status: Completed, Priority: Low\n  Description: Text B\n  Tags: [x]\n\n- **Title C** (ID: C) - Status: Pending, Priority: High\n  Description: Text C\n  Tags: [y]"
    );
}

#[test]
fn non_text_filter_values_are_dropped() {
    let (ids, _) = list_ids(call(
        "list_tasks",
        &[
            ("status", Value::Bool(true)),
            ("priority", Value::Null),
            ("assignee", Value::from(7)),
            ("tag", Value::Array(vec![text("x")])),
        ],
        StorageRead::Document(document()),
    ));
    assert_eq!(ids, vec!["A", "B", "C"]);
}

#[test]
fn resolved_filters_hold_only_declared_text_arguments() {
    let h = handler();
    let object = arguments(&[
        ("status", text("pending")),
        ("tag", Value::from(5)),
        ("colour", text("blue")),
        ("assignee", text("")),
    ]);
    match h.resolve_call("list_tasks", Some(&object)) {
        Ok(ToolCall::ListTasks { filters }) => {
            assert_eq!(filters.len(), 2);
            assert_eq!(filters.get("status"), Some(&"pending".to_string()));
            assert_eq!(filters.get("assignee"), Some(&String::new()));
            assert_eq!(filters.get("tag"), None);
            assert_eq!(filters.get("colour"), None);
        }
        other => panic!("not a listing call: {:?}", other),
    }
}

#[test]
fn list_filters_of_no_arguments_are_empty() {
    let h = handler();
    assert_eq!(h.list_filters(None).len(), 0);
    let empty = serde_json::Map::new();
    assert_eq!(h.list_filters(Some(&empty)).len(), 0);
}

#[test]
fn get_task_returns_the_task_with_the_requested_id() {
    match call("get_task", &[("id", text("B"))], StorageRead::Document(document())) {
        Ok(ToolReply::TaskDetails { task }) => {
            assert_eq!(task.id, "B");
            assert_eq!(task.title, "Title B");
            assert_eq!(task.status, TaskStatus::Completed);
            assert_eq!(task.priority, Priority::Low);
            assert_eq!(task.tags, vec!["x".to_string()]);
        }
        other => panic!("not a task: {:?}", other),
    }
}

#[test]
fn get_task_with_absent_id_is_not_found() {
    let outcome = call("get_task", &[("id", text("Z"))], StorageRead::Document(document()));
    let error = outcome.unwrap_err();
    assert_eq!(error, ToolError::NotFound("Z".to_string()));
    assert_eq!(error.message(), "Task not found: Z");
}

#[test]
fn get_task_on_absent_document_is_not_found() {
    let outcome = call("get_task", &[("id", text("A"))], StorageRead::Missing);
    assert_eq!(outcome.unwrap_err(), ToolError::NotFound("A".to_string()));
}

#[test]
fn get_task_matches_the_id_exactly() {
    let outcome = call("get_task", &[("id", text("a"))], StorageRead::Document(document()));
    assert_eq!(outcome.unwrap_err(), ToolError::NotFound("a".to_string()));
}

#[test]
fn get_task_without_id_is_invalid() {
    let h = handler();
    let error = h.resolve_call("get_task", None).unwrap_err();
    assert_eq!(error, ToolError::InvalidArguments("id".to_string()));
    assert_eq!(error.message(), "Missing required parameter: id");
    let empty = serde_json::Map::new();
    assert_eq!(
        h.resolve_call("get_task", Some(&empty)).unwrap_err(),
        ToolError::InvalidArguments("id".to_string())
    );
    let other = arguments(&[("ID", text("A")), ("name", text("A"))]);
    assert_eq!(
        h.resolve_call("get_task", Some(&other)).unwrap_err(),
        ToolError::InvalidArguments("id".to_string())
    );
}

#[test]
fn get_task_with_non_text_id_is_invalid() {
    let h = handler();
    for value in [Value::from(42), Value::Null, Value::Bool(false), Value::Array(Vec::new())] {
        let object = arguments(&[("id", value)]);
        assert_eq!(
            h.resolve_call("get_task", Some(&object)).unwrap_err(),
            ToolError::InvalidArguments("id".to_string())
        );
    }
}

#[test]
fn get_task_resolves_to_the_given_id() {
    let h = handler();
    let object = arguments(&[("id", text("task-17")), ("extra", text("ignored"))]);
    match h.resolve_call("get_task", Some(&object)) {
        Ok(ToolCall::GetTask { id }) => assert_eq!(id, "task-17"),
        other => panic!("not a lookup call: {:?}", other),
    }
}

#[test]
fn task_stats_consults_no_argument() {
    let h = handler();
    let object = arguments(&[("id", Value::from(1)), ("status", text("pending"))]);
    assert!(matches!(h.resolve_call("task_stats", Some(&object)), Ok(ToolCall::TaskStats)));
    assert!(matches!(h.resolve_call("task_stats", None), Ok(ToolCall::TaskStats)));
}

#[test]
fn unknown_tool_is_an_unknown_operation() {
    let h = handler();
    for name in ["delete_task", "", "List_Tasks", "list_tasks ", "get_tasks"] {
        let error = h.resolve_call(name, None).unwrap_err();
        assert_eq!(error, ToolError::UnknownOperation(name.to_string()));
    }
    assert_eq!(
        h.resolve_call("create_task", None).unwrap_err().message(),
        "Unknown tool: create_task"
    );
}

#[test]
fn failed_read_is_an_internal_error_with_the_cause() {
    let failed = || StorageRead::Failed("EOF while parsing a value".to_string());
    let list = call("list_tasks", &[], failed()).unwrap_err();
    assert_eq!(
        list,
        ToolError::InternalError("Failed to load tasks: EOF while parsing a value".to_string())
    );
    assert_eq!(list.message(), "Failed to load tasks: EOF while parsing a value");
    let get = call("get_task", &[("id", text("A"))], failed()).unwrap_err();
    assert_eq!(
        get,
        ToolError::InternalError("Failed to load tasks: EOF while parsing a value".to_string())
    );
    let stats = call("task_stats", &[], failed()).unwrap_err();
    assert_eq!(
        stats,
        ToolError::InternalError(
            "Failed to get task statistics: EOF while parsing a value".to_string()
        )
    );
}

#[test]
fn invalid_arguments_are_reported_before_storage_matters() {
    let outcome = call("get_task", &[], StorageRead::Failed("unreadable".to_string()));
    assert_eq!(outcome.unwrap_err(), ToolError::InvalidArguments("id".to_string()));
}

#[test]
fn repeated_calls_give_identical_replies() {
    let first =
        list_ids(call("list_tasks", &[("tag", text("x"))], StorageRead::Document(document())));
    let second =
        list_ids(call("list_tasks", &[("tag", text("x"))], StorageRead::Document(document())));
    assert_eq!(first, second);
    let report = |outcome: Result<ToolReply, ToolError>| match outcome {
        Ok(ToolReply::Statistics { report, .. }) => report,
        other => panic!("not statistics: {:?}", other),
    };
    assert_eq!(
        report(call("task_stats", &[], StorageRead::Document(document()))),
        report(call("task_stats", &[], StorageRead::Document(document())))
    );
}

#[test]
fn listing_shows_assignee_and_due_date_when_present() {
    let mut full = entry("F", TaskStatus::InProgress, Priority::Critical, "ops");
    full.tags.push("urgent".to_string());
    full.assignee = Some("kim".to_string());
    full.due_date = Some("2024-06-30".to_string());
    let mut half = entry("H", TaskStatus::Cancelled, Priority::Medium, "misc");
    half.tags.clear();
    half.due_date = Some("2024-07-01".to_string());
    let listing = handler().format_task_list(&[full, half]);
    assert_eq!(
        listing,
        "- **Title F** (ID: F) - Status: InProgress, Priority: Critical\n  Description: Text F\n  Tags: [ops, urgent]\n  Assignee: kim\n  Due: 2024-06-30\n\n- **Title H** (ID: H) - Status: Cancelled, Priority: Medium\n  Description: Text H\n  Tags: []\n  Due: 2024-07-01"
    );
}

#[test]
fn listing_of_no_tasks_is_empty() {
    assert_eq!(handler().format_task_list(&[]), "");
}

#[test]
fn summary_counts_with_several_digits() {
    let mut tasks: Vec<Task> = Vec::new();
    for i in 0..12 {
        tasks.push(entry(&format!("n{}", i), TaskStatus::Pending, Priority::Low, "bulk"));
    }
    let collection = TaskCollection { tasks, version: "1.0".to_string() };
    let reply = handler().handle_list_tasks(&collection, &StringMap::new());
    match reply {
        ToolReply::TaskList { tasks, summary } => {
            assert_eq!(tasks.len(), 12);
            assert!(summary.starts_with("Found 12 task(s):\n\n- **Title n0** (ID: n0)"));
            assert!(summary.ends_with("- **Title n11** (ID: n11) - Status: Pending, Priority: Low\n  Description: Text n11\n  Tags: [bulk]"));
        }
        other => panic!("not a task list: {:?}", other),
    }
}

#[test]
fn handle_get_task_finds_first_of_duplicates() {
    let mut collection = document();
    let mut twin = entry("A", TaskStatus::Cancelled, Priority::Low, "late");
    twin.title = "Twin".to_string();
    collection.tasks.push(twin);
    match handler().handle_get_task(&collection, "A") {
        Ok(ToolReply::TaskDetails { task }) => {
            assert_eq!(task.id, "A");
            assert_eq!(task.title, "Title A");
        }
        other => panic!("not a task: {:?}", other),
    }
}

#[test]
fn handle_task_stats_reports_the_collection() {
    match handler().handle_task_stats(&document()) {
        ToolReply::Statistics { statistics, report } => {
            assert_eq!(statistics.total_tasks, 3);
            assert_eq!(statistics.priority_counts.get("high"), Some(&2));
            assert_eq!(statistics.priority_counts.get("low"), Some(&1));
            assert!(report.contains("**Total Tasks:** 3"));
        }
        other => panic!("not statistics: {:?}", other),
    }
}

#[test]
fn task_details_are_framed_as_a_json_block() {
    let framed = handler().present_task_details(Ok("{\n  \"id\": \"A\"\n}".to_string()));
    assert_eq!(framed.unwrap(), "Task Details:\n```json\n{\n  \"id\": \"A\"\n}\n```");
}

#[test]
fn failed_serialisation_is_an_internal_error() {
    let failed = handler().present_task_details(Err("key must be a string".to_string()));
    let error = failed.unwrap_err();
    assert_eq!(
        error,
        ToolError::InternalError("Failed to serialize task: key must be a string".to_string())
    );
    assert_eq!(error.message(), "Failed to serialize task: key must be a string");
}

#[test]
fn text_argument_reads_only_json_strings() {
    let object = arguments(&[
        ("name", text("value")),
        ("empty", text("")),
        ("number", Value::from(3)),
        ("nothing", Value::Null),
        ("flag", Value::Bool(true)),
        ("nested", Value::Object(arguments(&[("name", text("inner"))]))),
    ]);
    assert_eq!(text_argument(Some(&object), "name"), Some("value"));
    assert_eq!(text_argument(Some(&object), "empty"), Some(""));
    assert_eq!(text_argument(Some(&object), "number"), None);
    assert_eq!(text_argument(Some(&object), "nothing"), None);
    assert_eq!(text_argument(Some(&object), "flag"), None);
    assert_eq!(text_argument(Some(&object), "nested"), None);
    assert_eq!(text_argument(Some(&object), "absent"), None);
    assert_eq!(text_argument(Some(&object), "Name"), None);
    assert_eq!(text_argument(None, "name"), None);
}

#[test]
fn keep_text_records_text_and_skips_nothing() {
    let mut filters: StringMap<String> = StringMap::new();
    keep_text(&mut filters, "status", Some("pending"));
    keep_text(&mut filters, "tag", None);
    keep_text(&mut filters, "status", Some("completed"));
    assert_eq!(filters.len(), 1);
    assert_eq!(filters.get("status"), Some(&"completed".to_string()));
    assert_eq!(filters.get("tag"), None);
}

#[test]
fn require_text_names_the_missing_argument() {
    assert_eq!(require_text("id", Some("A")), Ok("A".to_string()));
    assert_eq!(require_text("id", Some("")), Ok(String::new()));
    assert_eq!(require_text("id", None), Err(ToolError::InvalidArguments("id".to_string())));
    assert_eq!(
        require_text("other", None),
        Err(ToolError::InvalidArguments("other".to_string()))
    );
}

#[test]
fn handler_keeps_its_service() {
    let h = TaskMcpHandler::new(TaskService::new(TaskStorage::new(PathBuf::from("/x/y.json"))));
    assert_eq!(h.task_service().storage().file_path(), &PathBuf::from("/x/y.json"));
    let copy = h.clone();
    assert_eq!(copy.task_service().storage().file_path(), &PathBuf::from("/x/y.json"));
}
