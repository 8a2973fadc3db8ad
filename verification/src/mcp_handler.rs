//! The tool surface: the catalog of callable tools, the reading of a call's
//! arguments, and the dispatch of a call against a snapshot of the tasks.
//!
//! A call is handled in two steps with the read of the document in
//! between. [`TaskMcpHandler::resolve_call`] checks the tool name and the
//! arguments and never touches storage; [`TaskMcpHandler::call_tool`] then
//! answers the resolved call from the outcome of one read.

use vstd::prelude::*;
use vstd::string::StringExecFns;
use crate::catalog::{build_catalog, catalog_names, descriptor_views, tool_catalog, ToolDescriptor};
use crate::json::{object_get, object_texts};
use crate::models::{task_views, Task, TaskCollection, TaskView};
use crate::storage::{StorageRead, StorageReadView};
use crate::string_map::StringMap;
use crate::statistics::{statistics_model, statistics_text, TaskStatistics, TaskStatisticsView};
use crate::task_service::{
    filter_model,
    filter_view,
    holds_id,
    lemma_filter_keys_differ,
    lookup_model,
    TaskService,
};
use crate::text::{decimal, joined, push_decimal, push_joined, str_eq};

verus! {

/// Why a tool call failed.
#[derive(Debug, PartialEq, Eq)]
pub enum ToolError {
    /// A required argument is missing or is not text. Holds the name of
    /// the argument.
    InvalidArguments(String),
    /// No task carries the requested identifier. Holds the identifier.
    NotFound(String),
    /// The tool name is not in the catalog. Holds the name.
    UnknownOperation(String),
    /// The document could not be read, or a record could not be written
    /// as JSON. Holds the message, which ends with the underlying cause.
    InternalError(String),
}

/// What a [`ToolError`] holds, as mathematical values.
pub enum ToolErrorView {
    InvalidArguments(Seq<char>),
    NotFound(Seq<char>),
    UnknownOperation(Seq<char>),
    InternalError(Seq<char>),
}

impl View for ToolError {
    type V = ToolErrorView;

    open spec fn view(&self) -> ToolErrorView {
        match *self {
            ToolError::InvalidArguments(field) => ToolErrorView::InvalidArguments(field@),
            ToolError::NotFound(id) => ToolErrorView::NotFound(id@),
            ToolError::UnknownOperation(name) => ToolErrorView::UnknownOperation(name@),
            ToolError::InternalError(message) => ToolErrorView::InternalError(message@),
        }
    }
}

impl ToolErrorView {
    /// The message of the failure for the caller. It names the missing
    /// argument, echoes the identifier that was not found, echoes the
    /// unknown tool name, or gives the storage failure with its cause.
    pub open spec fn message(self) -> Seq<char> {
        match self {
            ToolErrorView::InvalidArguments(field) => "Missing required parameter: "@ + field,
            ToolErrorView::NotFound(id) => "Task not found: "@ + id,
            ToolErrorView::UnknownOperation(name) => "Unknown tool: "@ + name,
            ToolErrorView::InternalError(message) => message,
        }
    }
}

impl ToolError {
    /// The message of the failure for the caller.
    pub fn message(&self) -> (text: String)
        ensures
            text@ == self@.message(),
    {
        match self {
            ToolError::InvalidArguments(field) => "Missing required parameter: ".to_string().concat(
                field.as_str(),
            ),
            ToolError::NotFound(id) => "Task not found: ".to_string().concat(id.as_str()),
            ToolError::UnknownOperation(name) => "Unknown tool: ".to_string().concat(
                name.as_str(),
            ),
            ToolError::InternalError(message) => message.clone(),
        }
    }
}

/// A tool call whose name and arguments have been checked.
#[derive(Debug)]
pub enum ToolCall {
    /// List the tasks that satisfy `filters`.
    ListTasks { filters: StringMap<String> },
    /// Fetch the task with the identifier `id`.
    GetTask { id: String },
    /// Count the tasks.
    TaskStats,
}

/// What a [`ToolCall`] holds, as mathematical values.
pub enum ToolCallView {
    ListTasks { filters: Map<Seq<char>, Seq<char>> },
    GetTask { id: Seq<char> },
    TaskStats,
}

impl View for ToolCall {
    type V = ToolCallView;

    open spec fn view(&self) -> ToolCallView {
        match *self {
            ToolCall::ListTasks { filters } => ToolCallView::ListTasks {
                filters: filter_view(filters@),
            },
            ToolCall::GetTask { id } => ToolCallView::GetTask { id: id@ },
            ToolCall::TaskStats => ToolCallView::TaskStats,
        }
    }
}

/// The successful answer to a tool call.
#[derive(Debug)]
pub enum ToolReply {
    /// The matching tasks in stored order, and a listing of them for a
    /// reader. The number of matches is the length of `tasks`.
    TaskList { tasks: Vec<Task>, summary: String },
    /// The full record of the requested task.
    TaskDetails { task: Task },
    /// The counts, and a report of them for a reader.
    Statistics { statistics: TaskStatistics, report: String },
}

/// What a [`ToolReply`] holds, as mathematical values.
pub enum ToolReplyView {
    TaskList { tasks: Seq<TaskView>, summary: Seq<char> },
    TaskDetails { task: TaskView },
    Statistics { statistics: TaskStatisticsView, report: Seq<char> },
}

impl View for ToolReply {
    type V = ToolReplyView;

    open spec fn view(&self) -> ToolReplyView {
        match *self {
            ToolReply::TaskList { tasks, summary } => ToolReplyView::TaskList {
                tasks: task_views(tasks@),
                summary: summary@,
            },
            ToolReply::TaskDetails { task } => ToolReplyView::TaskDetails { task: task@ },
            ToolReply::Statistics { statistics, report } => ToolReplyView::Statistics {
                statistics: statistics@,
                report: report@,
            },
        }
    }
}

/// The view of the outcome of a call.
pub open spec fn outcome_view(outcome: Result<ToolReply, ToolError>) -> Result<
    ToolReplyView,
    ToolErrorView,
> {
    match outcome {
        Ok(reply) => Ok(reply@),
        Err(error) => Err(error@),
    }
}

/// The text that follows an optional field's caption in a listing, or
/// nothing if the field is absent.
pub open spec fn optional_line(caption: Seq<char>, value: Option<Seq<char>>) -> Seq<char> {
    match value {
        Some(text) => caption + text,
        None => Seq::empty(),
    }
}

/// The listing of one task: title and identifier, status and priority by
/// the names of their variants, the description, the tags, and the
/// assignee and the due date where the task has them.
pub open spec fn task_entry_text(task: TaskView) -> Seq<char> {
    "- **"@ + task.title + "** (ID: "@ + task.id + ") - Status: "@ + task.status.name()
        + ", Priority: "@ + task.priority.name() + "\n  Description: "@ + task.description
        + "\n  Tags: ["@ + joined(task.tags, ", "@) + "]"@ + optional_line(
        "\n  Assignee: "@,
        task.assignee,
    ) + optional_line("\n  Due: "@, task.due_date)
}

/// The listings of `tasks`, one per task, in order.
pub open spec fn task_entry_texts(tasks: Seq<TaskView>) -> Seq<Seq<char>> {
    tasks.map_values(|task: TaskView| task_entry_text(task))
}

/// The listing of `tasks`: the entries of the tasks, an empty line between
/// neighbours.
pub open spec fn task_list_text(tasks: Seq<TaskView>) -> Seq<char> {
    joined(task_entry_texts(tasks), "\n\n"@)
}

/// What a reader is told about the result of a listing: that nothing
/// matched, or how many tasks matched, followed by their listing.
pub open spec fn list_summary_text(tasks: Seq<TaskView>) -> Seq<char> {
    if tasks.len() == 0 {
        "No tasks found with the specified filters."@
    } else {
        "Found "@ + decimal(tasks.len()) + " task(s):\n\n"@ + task_list_text(tasks)
    }
}

/// A task's record in JSON, framed for a reader as a fenced block under a
/// caption.
pub open spec fn task_details_text(json: Seq<char>) -> Seq<char> {
    "Task Details:\n```json\n"@ + json + "\n```"@
}

/// The message of the failure to write a task as JSON.
pub open spec fn serialization_failure_text(cause: Seq<char>) -> Seq<char> {
    "Failed to serialize task: "@ + cause
}

/// The answer to `call` on a snapshot that holds `tasks`.
pub open spec fn reply_model(call: ToolCallView, tasks: Seq<TaskView>) -> Result<
    ToolReplyView,
    ToolErrorView,
> {
    match call {
        ToolCallView::ListTasks { filters } => {
            let kept = filter_model(tasks, filters);
            Ok(ToolReplyView::TaskList { tasks: kept, summary: list_summary_text(kept) })
        },
        ToolCallView::GetTask { id } => match lookup_model(tasks, id) {
            Some(task) => Ok(ToolReplyView::TaskDetails { task }),
            None => Err(ToolErrorView::NotFound(id)),
        },
        ToolCallView::TaskStats => Ok(
            ToolReplyView::Statistics {
                statistics: statistics_model(tasks),
                report: statistics_text(statistics_model(tasks)),
            },
        ),
    }
}

/// The message of the failure to load the snapshot for `call`.
pub open spec fn load_failure_text(call: ToolCallView, cause: Seq<char>) -> Seq<char> {
    match call {
        ToolCallView::TaskStats => "Failed to get task statistics: "@ + cause,
        _ => "Failed to load tasks: "@ + cause,
    }
}

/// The outcome of `call` given the outcome of reading the document. A
/// failed read is an internal error that carries the cause; a missing
/// document is answered like an empty one.
pub open spec fn outcome_model(call: ToolCallView, read: StorageReadView) -> Result<
    ToolReplyView,
    ToolErrorView,
> {
    match read {
        StorageReadView::Missing => reply_model(call, Seq::empty()),
        StorageReadView::Document(collection) => reply_model(call, collection.tasks),
        StorageReadView::Failed(cause) => Err(
            ToolErrorView::InternalError(load_failure_text(call, cause)),
        ),
    }
}

/// The text fields of a call's arguments: the keys of the argument object,
/// each with the text of its value, or with nothing where the value is not
/// a JSON string. A call without arguments has no fields.
pub open spec fn argument_fields(
    arguments: Option<&serde_json::Map<String, serde_json::Value>>,
) -> Map<Seq<char>, Option<Seq<char>>> {
    match arguments {
        Some(object) => object_texts(*object),
        None => Map::empty(),
    }
}

/// The text under `key`, if the key is present and its value is text.
pub open spec fn text_field(fields: Map<Seq<char>, Option<Seq<char>>>, key: Seq<char>) -> Option<
    Seq<char>,
> {
    if fields.contains_key(key) {
        fields[key]
    } else {
        None
    }
}

/// Whether `key` is one of the filters that a listing call declares.
pub open spec fn is_filter_key(key: Seq<char>) -> bool {
    key == "status"@ || key == "priority"@ || key == "assignee"@ || key == "tag"@
}

/// The filters of a listing call: the declared filter keys whose value is
/// text. A declared key with a value of another kind is dropped, and so is
/// every key that is not declared.
pub open spec fn declared_filters(fields: Map<Seq<char>, Option<Seq<char>>>) -> Map<
    Seq<char>,
    Seq<char>,
> {
    Map::new(
        |key: Seq<char>| is_filter_key(key) && text_field(fields, key) is Some,
        |key: Seq<char>| text_field(fields, key)->Some_0,
    )
}

/// What a call by `name` with the argument fields `fields` resolves to.
///
/// `list_tasks` always resolves, to its declared filters. `get_task`
/// resolves when `id` is present and is text, and fails otherwise with
/// invalid arguments that name `id`. `task_stats` resolves and consults no
/// argument. Any other name fails as an unknown operation.
pub open spec fn call_model(name: Seq<char>, fields: Map<Seq<char>, Option<Seq<char>>>) -> Result<
    ToolCallView,
    ToolErrorView,
> {
    if name == "list_tasks"@ {
        Ok(ToolCallView::ListTasks { filters: declared_filters(fields) })
    } else if name == "get_task"@ {
        match text_field(fields, "id"@) {
            Some(id) => Ok(ToolCallView::GetTask { id }),
            None => Err(ToolErrorView::InvalidArguments("id"@)),
        }
    } else if name == "task_stats"@ {
        Ok(ToolCallView::TaskStats)
    } else {
        Err(ToolErrorView::UnknownOperation(name))
    }
}

/// The view of a resolved call or of the failure to resolve it.
pub open spec fn resolved_view(resolved: Result<ToolCall, ToolError>) -> Result<
    ToolCallView,
    ToolErrorView,
> {
    match resolved {
        Ok(call) => Ok(call@),
        Err(error) => Err(error@),
    }
}

/// The characters of an optional string slice.
pub open spec fn option_str_view(text: Option<&str>) -> Option<Seq<char>> {
    match text {
        Some(s) => Some(s@),
        None => None,
    }
}

/// The text of the argument `key`, if the argument is there and is a JSON
/// string.
pub fn text_argument<'a>(
    arguments: Option<&'a serde_json::Map<String, serde_json::Value>>,
    key: &str,
) -> (text: Option<&'a str>)
    ensures
        option_str_view(text) == text_field(argument_fields(arguments), key@),
{
    match arguments {
        Some(object) => match object_get(object, key) {
            Some(value) => value.as_str(),
            None => None,
        },
        None => None,
    }
}

/// Records the filter `key` if the call gave it as text, and leaves
/// `filters` as it is if the call did not.
pub fn keep_text(filters: &mut StringMap<String>, key: &str, text: Option<&str>)
    ensures
        filter_view(final(filters)@) == match text {
            Some(value) => filter_view(old(filters)@).insert(key@, value@),
            None => filter_view(old(filters)@),
        },
{
    match text {
        Some(value) => {
            filters.insert(key.to_string(), value.to_string());
            assert(filter_view(filters@) =~= filter_view(old(filters)@).insert(key@, value@));
        },
        None => {},
    }
}

/// Insists on a required text argument: the text itself if the call gave
/// it, and otherwise the failure that names the argument `field`.
pub fn require_text(field: &str, text: Option<&str>) -> (required: Result<String, ToolError>)
    ensures
        match text {
            Some(value) => required matches Ok(owned) && owned@ == value@,
            None => required matches Err(ToolError::InvalidArguments(named)) && named@ == field@,
        },
{
    match text {
        Some(value) => Ok(value.to_string()),
        None => Err(ToolError::InvalidArguments(field.to_string())),
    }
}

/// Appends the listing of one task to `out`.
fn push_task_entry(out: &mut String, task: &Task)
    ensures
        final(out)@ == old(out)@ + task_entry_text(task@),
{
    out.append("- **");
    out.append(task.title.as_str());
    out.append("** (ID: ");
    out.append(task.id.as_str());
    out.append(") - Status: ");
    out.append(task.status.as_name());
    out.append(", Priority: ");
    out.append(task.priority.as_name());
    out.append("\n  Description: ");
    out.append(task.description.as_str());
    out.append("\n  Tags: [");
    push_joined(out, &task.tags, ", ");
    out.append("]");
    let ghost head = out@;
    match &task.assignee {
        Some(name) => {
            out.append("\n  Assignee: ");
            out.append(name.as_str());
        },
        None => {},
    }
    assert(out@ =~= head + optional_line("\n  Assignee: "@, task@.assignee));
    let ghost middle = out@;
    match &task.due_date {
        Some(date) => {
            out.append("\n  Due: ");
            out.append(date.as_str());
        },
        None => {},
    }
    assert(out@ =~= middle + optional_line("\n  Due: "@, task@.due_date));
    assert(out@ =~= old(out)@ + task_entry_text(task@));
}

/// The handler of tool calls, bound to the service that answers them.
#[derive(Debug, Clone)]
pub struct TaskMcpHandler {
    task_service: TaskService,
}

impl TaskMcpHandler {
    /// The service this handler was made with.
    pub closed spec fn spec_task_service(&self) -> &TaskService {
        &self.task_service
    }

    /// A handler over `task_service`.
    pub fn new(task_service: TaskService) -> (handler: Self)
        ensures
            *handler.task_service() == task_service,
    {
        TaskMcpHandler { task_service }
    }

    /// The service that answers the queries.
    #[verifier::when_used_as_spec(spec_task_service)]
    pub fn task_service(&self) -> (service: &TaskService)
        ensures
            service == self.spec_task_service(),
    {
        &self.task_service
    }

    /// The listing of `tasks` for a reader.
    pub fn format_task_list(&self, tasks: &[Task]) -> (listing: String)
        ensures
            listing@ == task_list_text(task_views(tasks@)),
    {
        let mut listing = String::new();
        let ghost entries = task_entry_texts(task_views(tasks@));
        let mut i: usize = 0;
        while i < tasks.len()
            invariant
                i <= tasks.len(),
                entries == task_entry_texts(task_views(tasks@)),
                listing@ == joined(entries.take(i as int), "\n\n"@),
            decreases tasks.len() - i,
        {
            if i > 0 {
                listing.append("\n\n");
            }
            push_task_entry(&mut listing, &tasks[i]);
            proof {
                assert(entries.take(i + 1).drop_last() =~= entries.take(i as int));
                assert(entries.take(i + 1).last() == task_entry_text(tasks@[i as int]@));
                assert(listing@ =~= joined(entries.take(i + 1), "\n\n"@));
            }
            i = i + 1;
        }
        assert(entries.take(i as int) =~= entries);
        listing
    }

    /// Presents the record of a task once it has been written as JSON.
    /// The JSON is framed for a reader; if writing it failed, the call
    /// fails as an internal error that carries the cause.
    pub fn present_task_details(&self, serialized: Result<String, String>) -> (text: Result<
        String,
        ToolError,
    >)
        ensures
            match serialized {
                Ok(json) => text matches Ok(framed) && framed@ == task_details_text(json@),
                Err(cause) => text matches Err(ToolError::InternalError(message)) && message@
                    == serialization_failure_text(cause@),
            },
    {
        match serialized {
            Ok(json) => {
                let mut framed = "Task Details:\n```json\n".to_string();
                framed.append(json.as_str());
                framed.append("\n```");
                Ok(framed)
            },
            Err(cause) => Err(
                ToolError::InternalError(
                    "Failed to serialize task: ".to_string().concat(cause.as_str()),
                ),
            ),
        }
    }

    /// Answers a listing call on `collection`: the tasks that satisfy
    /// `filters`, in stored order, with their listing. No match is a
    /// success that says so.
    pub fn handle_list_tasks(
        &self,
        collection: &TaskCollection,
        filters: &StringMap<String>,
    ) -> (reply: ToolReply)
        ensures
            reply@ == reply_model(
                (ToolCallView::ListTasks { filters: filter_view(filters@) }),
                collection@.tasks,
            )->Ok_0,
    {
        let tasks = self.task_service.filter_tasks(collection.tasks.as_slice(), filters);
        let summary = if tasks.len() == 0 {
            "No tasks found with the specified filters.".to_string()
        } else {
            let mut summary = "Found ".to_string();
            push_decimal(&mut summary, tasks.len());
            summary.append(" task(s):\n\n");
            let listing = self.format_task_list(tasks.as_slice());
            summary.append(listing.as_str());
            summary
        };
        ToolReply::TaskList { tasks, summary }
    }

    /// Answers a lookup call on `collection`: the first task in stored
    /// order whose identifier is exactly `id`. If some task carries the
    /// identifier, the reply is a task with that identifier; if none does,
    /// the call fails as not found and the failure echoes `id`.
    pub fn handle_get_task(&self, collection: &TaskCollection, id: &str) -> (outcome: Result<
        ToolReply,
        ToolError,
    >)
        ensures
            outcome_view(outcome) == reply_model(
                (ToolCallView::GetTask { id: id@ }),
                collection@.tasks,
            ),
            holds_id(collection@.tasks, id@) ==> (outcome matches Ok(
                ToolReply::TaskDetails { task },
            ) && task@.id == id@),
            !holds_id(collection@.tasks, id@) ==> (outcome matches Err(ToolError::NotFound(echo))
                && echo@ == id@),
    {
        match self.task_service.find_task_by_id(collection, id) {
            Some(task) => Ok(ToolReply::TaskDetails { task }),
            None => Err(ToolError::NotFound(id.to_string())),
        }
    }

    /// Answers a statistics call on `collection`: the counts and their
    /// report.
    pub fn handle_task_stats(&self, collection: &TaskCollection) -> (reply: ToolReply)
        ensures
            reply@ == reply_model(ToolCallView::TaskStats, collection@.tasks)->Ok_0,
    {
        let statistics = self.task_service.get_task_statistics(collection);
        let report = statistics.format_stats();
        ToolReply::Statistics { statistics, report }
    }

    /// The catalog of tools that this handler answers.
    pub fn list_tools(&self) -> (tools: Vec<ToolDescriptor>)
        ensures
            descriptor_views(tools@) == tool_catalog(),
    {
        build_catalog()
    }

    /// The filters that a listing call gives: each declared filter key
    /// whose argument is text. Arguments of another kind and undeclared
    /// keys are left out; none of them is an error.
    pub fn list_filters(
        &self,
        arguments: Option<&serde_json::Map<String, serde_json::Value>>,
    ) -> (filters: StringMap<String>)
        ensures
            filter_view(filters@) == declared_filters(argument_fields(arguments)),
    {
        let mut filters: StringMap<String> = StringMap::new();
        assert(filter_view(filters@) =~= Map::empty());
        keep_text(&mut filters, "status", text_argument(arguments, "status"));
        keep_text(&mut filters, "priority", text_argument(arguments, "priority"));
        keep_text(&mut filters, "assignee", text_argument(arguments, "assignee"));
        keep_text(&mut filters, "tag", text_argument(arguments, "tag"));
        proof {
            lemma_filter_keys_differ();
            assert(filter_view(filters@) =~= declared_filters(argument_fields(arguments)));
        }
        filters
    }

    /// Checks a call before storage is read: the tool must be in the
    /// catalog, and `get_task` must come with the text argument `id`.
    pub fn resolve_call(
        &self,
        name: &str,
        arguments: Option<&serde_json::Map<String, serde_json::Value>>,
    ) -> (resolved: Result<ToolCall, ToolError>)
        ensures
            resolved_view(resolved) == call_model(name@, argument_fields(arguments)),
    {
        if str_eq(name, "list_tasks") {
            Ok(ToolCall::ListTasks { filters: self.list_filters(arguments) })
        } else if str_eq(name, "get_task") {
            match require_text("id", text_argument(arguments, "id")) {
                Ok(id) => Ok(ToolCall::GetTask { id }),
                Err(error) => Err(error),
            }
        } else if str_eq(name, "task_stats") {
            Ok(ToolCall::TaskStats)
        } else {
            Err(ToolError::UnknownOperation(name.to_string()))
        }
    }

    /// Answers `call` from the outcome of one read of the document.
    pub fn call_tool(&self, call: &ToolCall, read: StorageRead) -> (outcome: Result<
        ToolReply,
        ToolError,
    >)
        ensures
            outcome_view(outcome) == outcome_model(call@, read@),
    {
        match self.task_service.load_tasks(read) {
            Ok(collection) => match call {
                ToolCall::ListTasks { filters } => Ok(self.handle_list_tasks(&collection, filters)),
                ToolCall::GetTask { id } => self.handle_get_task(&collection, id.as_str()),
                ToolCall::TaskStats => Ok(self.handle_task_stats(&collection)),
            },
            Err(cause) => {
                let message = match call {
                    ToolCall::TaskStats => "Failed to get task statistics: ".to_string().concat(
                        cause.as_str(),
                    ),
                    _ => "Failed to load tasks: ".to_string().concat(cause.as_str()),
                };
                Err(ToolError::InternalError(message))
            },
        }
    }
}

/// The dispatcher and the catalog agree on the tools: a call fails as an
/// unknown operation exactly when the catalog has no tool of that name,
/// whatever the arguments are.
pub proof fn lemma_catalog_names_the_tools(name: Seq<char>, fields: Map<Seq<char>, Option<Seq<char>>>)
    ensures
        catalog_names(name) <==> !(call_model(name, fields) matches Err(
            ToolErrorView::UnknownOperation(_),
        )),
{
    let catalog = tool_catalog();
    assert(catalog[0].name == "list_tasks"@);
    assert(catalog[1].name == "get_task"@);
    assert(catalog[2].name == "task_stats"@);
}

/// Resolving again gives the same call. A tool name and argument fields
/// decide what a request resolves to, so two requests that agree on both
/// resolve alike.
pub proof fn lemma_same_request_same_call(
    name: Seq<char>,
    fields: Map<Seq<char>, Option<Seq<char>>>,
    first_resolved: Result<ToolCall, ToolError>,
    second_resolved: Result<ToolCall, ToolError>,
)
    requires
        resolved_view(first_resolved) == call_model(name, fields),
        resolved_view(second_resolved) == call_model(name, fields),
    ensures
        resolved_view(first_resolved) == resolved_view(second_resolved),
{
}

/// Asking again gives the same answer. Two calls that hold the same
/// request, each answered from a read with the same outcome, end in the
/// same reply or the same failure, down to the characters of every text.
pub proof fn lemma_same_call_same_outcome(
    first_call: ToolCall,
    first_read: StorageRead,
    first_outcome: Result<ToolReply, ToolError>,
    second_call: ToolCall,
    second_read: StorageRead,
    second_outcome: Result<ToolReply, ToolError>,
)
    requires
        first_call@ == second_call@,
        first_read@ == second_read@,
        outcome_view(first_outcome) == outcome_model(first_call@, first_read@),
        outcome_view(second_outcome) == outcome_model(second_call@, second_read@),
    ensures
        outcome_view(first_outcome) == outcome_view(second_outcome),
{
}

} // verus!
