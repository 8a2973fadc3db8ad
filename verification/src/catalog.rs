//! The catalog of tools: for each tool its name, what it does, and the
//! arguments it takes. Every argument is text, and no tool accepts an
//! argument that its entry does not list.

use vstd::prelude::*;

verus! {

/// One argument of a tool.
#[derive(Debug)]
pub struct ToolParameter {
    /// The key of the argument.
    pub name: String,
    /// What the argument is for.
    pub description: String,
    /// The values the argument may take; empty where any text is taken.
    pub choices: Vec<String>,
    /// Whether a call must give the argument.
    pub required: bool,
}

/// What a [`ToolParameter`] holds, as mathematical values.
pub struct ToolParameterView {
    pub name: Seq<char>,
    pub description: Seq<char>,
    pub choices: Seq<Seq<char>>,
    pub required: bool,
}

impl View for ToolParameter {
    type V = ToolParameterView;

    open spec fn view(&self) -> ToolParameterView {
        ToolParameterView {
            name: self.name@,
            description: self.description@,
            choices: self.choices.deep_view(),
            required: self.required,
        }
    }
}

/// One tool of the catalog.
#[derive(Debug)]
pub struct ToolDescriptor {
    /// The name by which the tool is called.
    pub name: String,
    /// What the tool does.
    pub description: String,
    /// The arguments the tool takes, in the order of its schema.
    pub parameters: Vec<ToolParameter>,
}

/// What a [`ToolDescriptor`] holds, as mathematical values.
pub struct ToolDescriptorView {
    pub name: Seq<char>,
    pub description: Seq<char>,
    pub parameters: Seq<ToolParameterView>,
}

/// The views of a sequence of parameters, in the same order.
pub open spec fn parameter_views(parameters: Seq<ToolParameter>) -> Seq<ToolParameterView> {
    parameters.map_values(|parameter: ToolParameter| parameter@)
}

impl View for ToolDescriptor {
    type V = ToolDescriptorView;

    open spec fn view(&self) -> ToolDescriptorView {
        ToolDescriptorView {
            name: self.name@,
            description: self.description@,
            parameters: parameter_views(self.parameters@),
        }
    }
}

/// The views of a sequence of tools, in the same order.
pub open spec fn descriptor_views(tools: Seq<ToolDescriptor>) -> Seq<ToolDescriptorView> {
    tools.map_values(|tool: ToolDescriptor| tool@)
}

/// An optional argument that takes any text.
pub open spec fn free_text(name: Seq<char>, description: Seq<char>) -> ToolParameterView {
    ToolParameterView { name, description, choices: Seq::empty(), required: false }
}

/// The entry of the listing tool: four optional filters, two of them over
/// the canonical labels.
pub open spec fn list_tasks_tool() -> ToolDescriptorView {
    ToolDescriptorView {
        name: "list_tasks"@,
        description: "List all tasks, optionally filtered by status, priority, assignee, or tag"@,
        parameters: seq![
            ToolParameterView {
                name: "status"@,
                description: "Filter tasks by status"@,
                choices: seq!["pending"@, "in_progress"@, "completed"@, "cancelled"@],
                required: false,
            },
            ToolParameterView {
                name: "priority"@,
                description: "Filter tasks by priority"@,
                choices: seq!["low"@, "medium"@, "high"@, "critical"@],
                required: false,
            },
            free_text("assignee"@, "Filter tasks by assignee"@),
            free_text("tag"@, "Filter tasks by tag"@),
        ],
    }
}

/// The entry of the lookup tool: the identifier, which is required.
pub open spec fn get_task_tool() -> ToolDescriptorView {
    ToolDescriptorView {
        name: "get_task"@,
        description: "Get detailed information about a specific task by ID"@,
        parameters: seq![
            ToolParameterView {
                name: "id"@,
                description: "The task ID"@,
                choices: Seq::empty(),
                required: true,
            },
        ],
    }
}

/// The entry of the statistics tool, which takes no argument.
pub open spec fn task_stats_tool() -> ToolDescriptorView {
    ToolDescriptorView {
        name: "task_stats"@,
        description: "Get statistics about tasks (counts by status, priority, etc.)"@,
        parameters: Seq::empty(),
    }
}

/// The catalog: the listing tool, the lookup tool and the statistics tool,
/// in this order.
pub open spec fn tool_catalog() -> Seq<ToolDescriptorView> {
    seq![list_tasks_tool(), get_task_tool(), task_stats_tool()]
}

/// Whether the catalog has a tool called `name`.
pub open spec fn catalog_names(name: Seq<char>) -> bool {
    exists|i: int| 0 <= i < tool_catalog().len() && (#[trigger] tool_catalog()[i]).name == name
}

fn labels_of(first: &str, second: &str, third: &str, fourth: &str) -> (labels: Vec<String>)
    ensures
        labels.deep_view() == seq![first@, second@, third@, fourth@],
{
    let mut labels: Vec<String> = Vec::new();
    labels.push(first.to_string());
    labels.push(second.to_string());
    labels.push(third.to_string());
    labels.push(fourth.to_string());
    assert(labels.deep_view() =~= seq![first@, second@, third@, fourth@]);
    labels
}

fn parameter(name: &str, description: &str, choices: Vec<String>, required: bool) -> (made:
    ToolParameter)
    ensures
        made@ == (ToolParameterView {
            name: name@,
            description: description@,
            choices: choices.deep_view(),
            required,
        }),
{
    ToolParameter {
        name: name.to_string(),
        description: description.to_string(),
        choices,
        required,
    }
}

fn no_choices() -> (choices: Vec<String>)
    ensures
        choices.deep_view() == Seq::<Seq<char>>::empty(),
{
    let choices: Vec<String> = Vec::new();
    assert(choices.deep_view() =~= Seq::empty());
    choices
}

fn build_list_tasks_tool() -> (tool: ToolDescriptor)
    ensures
        tool@ == list_tasks_tool(),
{
    let mut parameters: Vec<ToolParameter> = Vec::new();
    parameters.push(
        parameter(
            "status",
            "Filter tasks by status",
            labels_of("pending", "in_progress", "completed", "cancelled"),
            false,
        ),
    );
    parameters.push(
        parameter(
            "priority",
            "Filter tasks by priority",
            labels_of("low", "medium", "high", "critical"),
            false,
        ),
    );
    parameters.push(parameter("assignee", "Filter tasks by assignee", no_choices(), false));
    parameters.push(parameter("tag", "Filter tasks by tag", no_choices(), false));
    let tool = ToolDescriptor {
        name: "list_tasks".to_string(),
        description: "List all tasks, optionally filtered by status, priority, assignee, or tag".to_string(),
        parameters,
    };
    assert(parameter_views(tool.parameters@) =~= list_tasks_tool().parameters);
    tool
}

fn build_get_task_tool() -> (tool: ToolDescriptor)
    ensures
        tool@ == get_task_tool(),
{
    let mut parameters: Vec<ToolParameter> = Vec::new();
    parameters.push(parameter("id", "The task ID", no_choices(), true));
    let tool = ToolDescriptor {
        name: "get_task".to_string(),
        description: "Get detailed information about a specific task by ID".to_string(),
        parameters,
    };
    assert(parameter_views(tool.parameters@) =~= get_task_tool().parameters);
    tool
}

fn build_task_stats_tool() -> (tool: ToolDescriptor)
    ensures
        tool@ == task_stats_tool(),
{
    let tool = ToolDescriptor {
        name: "task_stats".to_string(),
        description: "Get statistics about tasks (counts by status, priority, etc.)".to_string(),
        parameters: Vec::new(),
    };
    assert(parameter_views(tool.parameters@) =~= task_stats_tool().parameters);
    tool
}

/// Builds the catalog.
pub fn build_catalog() -> (tools: Vec<ToolDescriptor>)
    ensures
        descriptor_views(tools@) == tool_catalog(),
{
    let mut tools: Vec<ToolDescriptor> = Vec::new();
    tools.push(build_list_tasks_tool());
    tools.push(build_get_task_tool());
    tools.push(build_task_stats_tool());
    assert(descriptor_views(tools@) =~= tool_catalog());
    tools
}

} // verus!
