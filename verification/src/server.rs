//! The whole stack over one document path: storage, query service and tool
//! handler, made in one step.

use vstd::prelude::*;
use std::path::PathBuf;
use crate::catalog::{descriptor_views, tool_catalog, ToolDescriptor};
use crate::mcp_handler::{
    argument_fields,
    call_model,
    outcome_model,
    outcome_view,
    resolved_view,
    TaskMcpHandler,
    ToolCall,
    ToolError,
    ToolReply,
};
use crate::models::{task_views, Task};
use crate::storage::{StorageRead, TaskStorage};
use crate::string_map::StringMap;
use crate::task_service::{filter_model, filter_view, is_subsequence, TaskService};

verus! {

/// A task server for the document at one path.
#[derive(Debug, Clone)]
pub struct TaskServer {
    handler: TaskMcpHandler,
}

impl TaskServer {
    /// The handler that answers the calls made to this server.
    pub closed spec fn spec_handler(&self) -> &TaskMcpHandler {
        &self.handler
    }

    /// A server for the document at `tasks_file_path`.
    pub fn new(tasks_file_path: PathBuf) -> (server: Self)
        ensures
            *server.tasks_file_path() == tasks_file_path,
    {
        TaskServer {
            handler: TaskMcpHandler::new(TaskService::new(TaskStorage::new(tasks_file_path))),
        }
    }

    /// The handler that answers the calls made to this server.
    #[verifier::when_used_as_spec(spec_handler)]
    pub fn handler(&self) -> (handler: &TaskMcpHandler)
        ensures
            handler == self.spec_handler(),
    {
        &self.handler
    }

    /// The path of the document.
    pub open spec fn spec_tasks_file_path(&self) -> &PathBuf {
        self.handler().task_service().storage().file_path()
    }

    /// The path of the document.
    #[verifier::when_used_as_spec(spec_tasks_file_path)]
    pub fn tasks_file_path(&self) -> (path: &PathBuf)
        ensures
            path == self.spec_tasks_file_path(),
    {
        self.handler.task_service().storage().file_path()
    }

    /// Copies of the tasks that satisfy every predicate in `filters`, in
    /// the order of `tasks`.
    pub fn filter_tasks(&self, tasks: &[Task], filters: &StringMap<String>) -> (kept: Vec<Task>)
        ensures
            task_views(kept@) == filter_model(task_views(tasks@), filter_view(filters@)),
            is_subsequence(task_views(kept@), task_views(tasks@)),
    {
        self.handler.task_service().filter_tasks(tasks, filters)
    }

    /// The catalog of tools that this server answers.
    pub fn list_tools(&self) -> (tools: Vec<ToolDescriptor>)
        ensures
            descriptor_views(tools@) == tool_catalog(),
    {
        self.handler.list_tools()
    }

    /// Checks a call before storage is read; see
    /// [`TaskMcpHandler::resolve_call`].
    pub fn resolve_call(
        &self,
        name: &str,
        arguments: Option<&serde_json::Map<String, serde_json::Value>>,
    ) -> (resolved: Result<ToolCall, ToolError>)
        ensures
            resolved_view(resolved) == call_model(name@, argument_fields(arguments)),
    {
        self.handler.resolve_call(name, arguments)
    }

    /// Answers `call` from the outcome of one read of the document; see
    /// [`TaskMcpHandler::call_tool`].
    pub fn call_tool(&self, call: &ToolCall, read: StorageRead) -> (outcome: Result<
        ToolReply,
        ToolError,
    >)
        ensures
            outcome_view(outcome) == outcome_model(call@, read@),
    {
        self.handler.call_tool(call, read)
    }
}

} // verus!
