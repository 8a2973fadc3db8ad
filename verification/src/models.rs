//! The task model: passive records and the closed sets of labels they use.

use vstd::prelude::*;
use crate::text::str_eq;

verus! {

/// How urgent a task is.
#[derive(Debug, Clone, Copy, PartialEq, Eq, Structural)]
pub enum Priority {
    Low,
    Medium,
    High,
    Critical,
}

/// Where a task stands in its life cycle.
#[derive(Debug, Clone, Copy, PartialEq, Eq, Structural)]
pub enum TaskStatus {
    Pending,
    InProgress,
    Completed,
    Cancelled,
}

impl Priority {
    /// The canonical lower-case identifier of the priority.
    pub open spec fn label(self) -> Seq<char> {
        match self {
            Priority::Low => "low"@,
            Priority::Medium => "medium"@,
            Priority::High => "high"@,
            Priority::Critical => "critical"@,
        }
    }

    /// The variant's name as written in listings.
    pub open spec fn name(self) -> Seq<char> {
        match self {
            Priority::Low => "Low"@,
            Priority::Medium => "Medium"@,
            Priority::High => "High"@,
            Priority::Critical => "Critical"@,
        }
    }

    /// The priority that `text` names, if it is a canonical identifier.
    /// The match is exact: case matters and nothing is trimmed.
    pub open spec fn parse_label(text: Seq<char>) -> Option<Priority> {
        if text == "low"@ {
            Some(Priority::Low)
        } else if text == "medium"@ {
            Some(Priority::Medium)
        } else if text == "high"@ {
            Some(Priority::High)
        } else if text == "critical"@ {
            Some(Priority::Critical)
        } else {
            None
        }
    }

    /// The canonical identifier of the priority.
    pub fn as_label(self) -> (s: &'static str)
        ensures
            s@ == self.label(),
    {
        match self {
            Priority::Low => "low",
            Priority::Medium => "medium",
            Priority::High => "high",
            Priority::Critical => "critical",
        }
    }

    /// The name of the variant.
    pub fn as_name(self) -> (s: &'static str)
        ensures
            s@ == self.name(),
    {
        match self {
            Priority::Low => "Low",
            Priority::Medium => "Medium",
            Priority::High => "High",
            Priority::Critical => "Critical",
        }
    }

    /// Reads a priority from its canonical identifier. Any other text,
    /// also one that differs only in case, gives `None`.
    pub fn from_label(text: &str) -> (parsed: Option<Priority>)
        ensures
            parsed == Priority::parse_label(text@),
    {
        if str_eq(text, "low") {
            Some(Priority::Low)
        } else if str_eq(text, "medium") {
            Some(Priority::Medium)
        } else if str_eq(text, "high") {
            Some(Priority::High)
        } else if str_eq(text, "critical") {
            Some(Priority::Critical)
        } else {
            None
        }
    }

    /// Every priority is read back from its own label, so the four labels
    /// are pairwise different.
    pub proof fn lemma_label_round_trip(self)
        ensures
            Priority::parse_label(self.label()) == Some(self),
    {
        reveal_strlit("low");
        reveal_strlit("medium");
        reveal_strlit("high");
        reveal_strlit("critical");
        assert("low"@.len() == 3);
        assert("medium"@.len() == 6);
        assert("high"@.len() == 4);
        assert("critical"@.len() == 8);
    }
}

impl TaskStatus {
    /// The canonical snake-case identifier of the status.
    pub open spec fn label(self) -> Seq<char> {
        match self {
            TaskStatus::Pending => "pending"@,
            TaskStatus::InProgress => "in_progress"@,
            TaskStatus::Completed => "completed"@,
            TaskStatus::Cancelled => "cancelled"@,
        }
    }

    /// The variant's name as written in listings.
    pub open spec fn name(self) -> Seq<char> {
        match self {
            TaskStatus::Pending => "Pending"@,
            TaskStatus::InProgress => "InProgress"@,
            TaskStatus::Completed => "Completed"@,
            TaskStatus::Cancelled => "Cancelled"@,
        }
    }

    /// The status that `text` names, if it is a canonical identifier.
    /// The match is exact: case matters and nothing is trimmed.
    pub open spec fn parse_label(text: Seq<char>) -> Option<TaskStatus> {
        if text == "pending"@ {
            Some(TaskStatus::Pending)
        } else if text == "in_progress"@ {
            Some(TaskStatus::InProgress)
        } else if text == "completed"@ {
            Some(TaskStatus::Completed)
        } else if text == "cancelled"@ {
            Some(TaskStatus::Cancelled)
        } else {
            None
        }
    }

    /// The canonical identifier of the status.
    pub fn as_label(self) -> (s: &'static str)
        ensures
            s@ == self.label(),
    {
        match self {
            TaskStatus::Pending => "pending",
            TaskStatus::InProgress => "in_progress",
            TaskStatus::Completed => "completed",
            TaskStatus::Cancelled => "cancelled",
        }
    }

    /// The name of the variant.
    pub fn as_name(self) -> (s: &'static str)
        ensures
            s@ == self.name(),
    {
        match self {
            TaskStatus::Pending => "Pending",
            TaskStatus::InProgress => "InProgress",
            TaskStatus::Completed => "Completed",
            TaskStatus::Cancelled => "Cancelled",
        }
    }

    /// Reads a status from its canonical identifier. Any other text, also
    /// one that differs only in case, gives `None`.
    pub fn from_label(text: &str) -> (parsed: Option<TaskStatus>)
        ensures
            parsed == TaskStatus::parse_label(text@),
    {
        if str_eq(text, "pending") {
            Some(TaskStatus::Pending)
        } else if str_eq(text, "in_progress") {
            Some(TaskStatus::InProgress)
        } else if str_eq(text, "completed") {
            Some(TaskStatus::Completed)
        } else if str_eq(text, "cancelled") {
            Some(TaskStatus::Cancelled)
        } else {
            None
        }
    }

    /// Every status is read back from its own label, so the four labels are
    /// pairwise different.
    pub proof fn lemma_label_round_trip(self)
        ensures
            TaskStatus::parse_label(self.label()) == Some(self),
    {
        reveal_strlit("pending");
        reveal_strlit("in_progress");
        reveal_strlit("completed");
        reveal_strlit("cancelled");
        assert("pending"@.len() == 7);
        assert("in_progress"@.len() == 11);
        assert("completed"@.len() == 9);
        assert("cancelled"@.len() == 9);
        assert("completed"@[1] == 'o');
        assert("cancelled"@[1] == 'a');
    }
}

/// One task as stored. Identifiers are assigned outside this crate and the
/// timestamps are opaque text.
#[derive(Debug)]
pub struct Task {
    pub id: String,
    pub title: String,
    pub description: String,
    pub status: TaskStatus,
    pub priority: Priority,
    pub created_at: String,
    pub updated_at: String,
    pub tags: Vec<String>,
    pub assignee: Option<String>,
    pub due_date: Option<String>,
}

/// What a [`Task`] holds, as mathematical values.
pub struct TaskView {
    pub id: Seq<char>,
    pub title: Seq<char>,
    pub description: Seq<char>,
    pub status: TaskStatus,
    pub priority: Priority,
    pub created_at: Seq<char>,
    pub updated_at: Seq<char>,
    pub tags: Seq<Seq<char>>,
    pub assignee: Option<Seq<char>>,
    pub due_date: Option<Seq<char>>,
}

/// The characters of an optional string.
pub open spec fn option_text(text: Option<String>) -> Option<Seq<char>> {
    match text {
        Some(s) => Some(s@),
        None => None,
    }
}

impl View for Task {
    type V = TaskView;

    open spec fn view(&self) -> TaskView {
        TaskView {
            id: self.id@,
            title: self.title@,
            description: self.description@,
            status: self.status,
            priority: self.priority,
            created_at: self.created_at@,
            updated_at: self.updated_at@,
            tags: self.tags.deep_view(),
            assignee: option_text(self.assignee),
            due_date: option_text(self.due_date),
        }
    }
}

impl Clone for Task {
    fn clone(&self) -> (copy: Self)
        ensures
            copy@ == self@,
    {
        Task {
            id: self.id.clone(),
            title: self.title.clone(),
            description: self.description.clone(),
            status: self.status,
            priority: self.priority,
            created_at: self.created_at.clone(),
            updated_at: self.updated_at.clone(),
            tags: self.tags.clone(),
            assignee: self.assignee.clone(),
            due_date: self.due_date.clone(),
        }
    }
}

/// The views of a sequence of tasks, in the same order.
pub open spec fn task_views(tasks: Seq<Task>) -> Seq<TaskView> {
    tasks.map_values(|t: Task| t@)
}

/// Everything one storage document holds: the tasks in stored order and the
/// version of the document format.
#[derive(Debug)]
pub struct TaskCollection {
    pub tasks: Vec<Task>,
    pub version: String,
}

/// What a [`TaskCollection`] holds, as mathematical values.
pub struct TaskCollectionView {
    pub tasks: Seq<TaskView>,
    pub version: Seq<char>,
}

impl View for TaskCollection {
    type V = TaskCollectionView;

    open spec fn view(&self) -> TaskCollectionView {
        TaskCollectionView { tasks: task_views(self.tasks@), version: self.version@ }
    }
}

impl TaskCollectionView {
    /// The collection that stands for a document that does not exist yet:
    /// no tasks, format version `1.0`.
    pub open spec fn empty() -> TaskCollectionView {
        TaskCollectionView { tasks: Seq::empty(), version: "1.0"@ }
    }
}

impl TaskCollection {
    /// An empty collection with the default format version.
    pub fn new() -> (collection: Self)
        ensures
            collection@ == TaskCollectionView::empty(),
    {
        let collection = TaskCollection { tasks: Vec::new(), version: "1.0".to_string() };
        assert(task_views(collection.tasks@) =~= Seq::empty());
        collection
    }
}

impl Default for TaskCollection {
    fn default() -> (collection: Self)
        ensures
            collection@ == TaskCollectionView::empty(),
    {
        TaskCollection::new()
    }
}

impl Clone for TaskCollection {
    fn clone(&self) -> (copy: Self)
        ensures
            copy@ == self@,
    {
        let mut tasks: Vec<Task> = Vec::new();
        let mut i: usize = 0;
        while i < self.tasks.len()
            invariant
                i <= self.tasks.len(),
                tasks@.len() == i,
                forall|j: int| 0 <= j < i ==> tasks@[j]@ == self.tasks@[j]@,
            decreases self.tasks.len() - i,
        {
            tasks.push(self.tasks[i].clone());
            i = i + 1;
        }
        assert(task_views(tasks@) =~= task_views(self.tasks@));
        TaskCollection { tasks, version: self.version.clone() }
    }
}

} // verus!
