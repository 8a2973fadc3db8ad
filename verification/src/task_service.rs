//! The query engine: filtering a sequence of tasks by named predicates and
//! looking one task up by its identifier.

use vstd::prelude::*;
use crate::models::{
    task_views,
    Priority,
    Task,
    TaskCollection,
    TaskCollectionView,
    TaskStatus,
    TaskView,
};
use crate::statistics::{statistics_model, TaskStatistics};
use crate::storage::{StorageRead, TaskStorage};
use crate::string_map::StringMap;
use crate::text::str_eq;

verus! {

/// A filter map by the characters of its values.
pub open spec fn filter_view(filters: Map<Seq<char>, String>) -> Map<Seq<char>, Seq<char>> {
    filters.map_values(|value: String| value@)
}

/// Whether `task` satisfies every predicate that `filters` names.
///
/// Four keys are predicates. `status` and `priority` hold when the value is
/// the canonical label of the task's status or priority; a value that is no
/// label holds for no task. `assignee` holds when the task has that exact
/// assignee, and never for a task without one. `tag` holds when the value
/// is one of the task's tags. Any other key says nothing.
pub open spec fn matches_filters(task: TaskView, filters: Map<Seq<char>, Seq<char>>) -> bool {
    &&& filters.contains_key("status"@) ==> TaskStatus::parse_label(filters["status"@]) == Some(
        task.status,
    )
    &&& filters.contains_key("priority"@) ==> Priority::parse_label(filters["priority"@]) == Some(
        task.priority,
    )
    &&& filters.contains_key("assignee"@) ==> task.assignee == Some(filters["assignee"@])
    &&& filters.contains_key("tag"@) ==> task.tags.contains(filters["tag"@])
}

/// The predicate on tasks that `filters` stands for.
pub open spec fn accepts(filters: Map<Seq<char>, Seq<char>>) -> spec_fn(TaskView) -> bool {
    |task: TaskView| matches_filters(task, filters)
}

/// The tasks of `tasks` that satisfy `filters`, in the order of the input.
pub open spec fn filter_model(tasks: Seq<TaskView>, filters: Map<Seq<char>, Seq<char>>) -> Seq<
    TaskView,
> {
    tasks.filter(accepts(filters))
}

/// `picks` chooses the elements of `sub` out of `full` at strictly rising
/// positions.
pub open spec fn picks_in_order<A>(sub: Seq<A>, full: Seq<A>, picks: Seq<int>) -> bool {
    &&& picks.len() == sub.len()
    &&& forall|i: int|
        0 <= i < picks.len() ==> 0 <= #[trigger] picks[i] < full.len() && sub[i] == full[picks[i]]
    &&& forall|i: int, j: int| 0 <= i < j < picks.len() ==> picks[i] < picks[j]
}

/// `sub` can be had from `full` by leaving elements out, without
/// reordering what stays.
pub open spec fn is_subsequence<A>(sub: Seq<A>, full: Seq<A>) -> bool {
    exists|picks: Seq<int>| picks_in_order(sub, full, picks)
}

/// `i` is the first position in `tasks` whose task has the identifier `id`.
pub open spec fn first_match(tasks: Seq<TaskView>, id: Seq<char>, i: int) -> bool {
    &&& 0 <= i < tasks.len()
    &&& tasks[i].id == id
    &&& forall|j: int| 0 <= j < i ==> (#[trigger] tasks[j]).id != id
}

/// The task that a lookup by `id` finds: the first one in stored order that
/// carries the identifier, or none if no task does.
pub open spec fn lookup_model(tasks: Seq<TaskView>, id: Seq<char>) -> Option<TaskView> {
    if exists|i: int| first_match(tasks, id, i) {
        Some(tasks[choose|i: int| first_match(tasks, id, i)])
    } else {
        None
    }
}

/// Whether some task of `tasks` carries the identifier `id`.
pub open spec fn holds_id(tasks: Seq<TaskView>, id: Seq<char>) -> bool {
    exists|i: int| 0 <= i < tasks.len() && (#[trigger] tasks[i]).id == id
}

/// Whether the tags hold `value`.
fn has_tag(tags: &Vec<String>, value: &String) -> (found: bool)
    ensures
        found == tags.deep_view().contains(value@),
{
    let mut i: usize = 0;
    while i < tags.len()
        invariant
            i <= tags.len(),
            forall|j: int| 0 <= j < i ==> tags.deep_view()[j] != value@,
        decreases tags.len() - i,
    {
        if tags[i] == *value {
            assert(tags.deep_view()[i as int] == value@);
            return true;
        }
        i = i + 1;
    }
    false
}

/// Whether `task` passes the four predicates, each given by the value
/// under its key if the key is present.
fn passes(
    task: &Task,
    status: Option<&String>,
    priority: Option<&String>,
    assignee: Option<&String>,
    tag: Option<&String>,
) -> (ok: bool)
    ensures
        ok == ({
            &&& status matches Some(value) ==> TaskStatus::parse_label(value@) == Some(task.status)
            &&& priority matches Some(value) ==> Priority::parse_label(value@) == Some(
                task.priority,
            )
            &&& assignee matches Some(value) ==> task@.assignee == Some(value@)
            &&& tag matches Some(value) ==> task@.tags.contains(value@)
        }),
{
    if let Some(value) = status {
        match TaskStatus::from_label(value.as_str()) {
            Some(wanted) => {
                if wanted != task.status {
                    return false;
                }
            },
            None => {
                return false;
            },
        }
    }
    if let Some(value) = priority {
        match Priority::from_label(value.as_str()) {
            Some(wanted) => {
                if wanted != task.priority {
                    return false;
                }
            },
            None => {
                return false;
            },
        }
    }
    if let Some(value) = assignee {
        match &task.assignee {
            Some(name) => {
                if !(*name == *value) {
                    return false;
                }
            },
            None => {
                return false;
            },
        }
    }
    if let Some(value) = tag {
        if !has_tag(&task.tags, value) {
            return false;
        }
    }
    true
}

/// Service for task queries, bound to the storage its snapshots come from.
#[derive(Debug, Clone)]
pub struct TaskService {
    storage: TaskStorage,
}

impl TaskService {
    /// The storage this service was made with.
    pub closed spec fn spec_storage(&self) -> &TaskStorage {
        &self.storage
    }

    /// A service over `storage`.
    pub fn new(storage: TaskStorage) -> (service: Self)
        ensures
            *service.storage() == storage,
    {
        TaskService { storage }
    }

    /// The storage that the snapshots of this service come from.
    #[verifier::when_used_as_spec(spec_storage)]
    pub fn storage(&self) -> (storage: &TaskStorage)
        ensures
            storage == self.spec_storage(),
    {
        &self.storage
    }

    /// The snapshot that the outcome of a read stands for; see
    /// [`TaskStorage::load_tasks`].
    pub fn load_tasks(&self, read: StorageRead) -> (loaded: Result<TaskCollection, String>)
        ensures
            match read {
                StorageRead::Missing => loaded is Ok && loaded->Ok_0@
                    == TaskCollectionView::empty(),
                StorageRead::Document(collection) => loaded == Ok::<TaskCollection, String>(
                    collection,
                ),
                StorageRead::Failed(cause) => loaded == Err::<TaskCollection, String>(cause),
            },
    {
        self.storage.load_tasks(read)
    }

    /// Copies of the tasks that satisfy every predicate in `filters`, in
    /// the order of `tasks`.
    pub fn filter_tasks(&self, tasks: &[Task], filters: &StringMap<String>) -> (kept: Vec<Task>)
        ensures
            task_views(kept@) == filter_model(task_views(tasks@), filter_view(filters@)),
            is_subsequence(task_views(kept@), task_views(tasks@)),
    {
        let status = filters.get("status");
        let priority = filters.get("priority");
        let assignee = filters.get("assignee");
        let tag = filters.get("tag");
        let ghost wanted = filter_view(filters@);
        let mut kept: Vec<Task> = Vec::new();
        let mut i: usize = 0;
        assert(task_views(tasks@.take(0)) =~= Seq::empty());
        assert(task_views(kept@) =~= Seq::empty());
        proof {
            reveal(Seq::filter);
        }
        while i < tasks.len()
            invariant
                i <= tasks.len(),
                wanted == filter_view(filters@),
                status matches Some(value) ==> wanted.contains_key("status"@) && wanted["status"@]
                    == value@,
                status is None ==> !wanted.contains_key("status"@),
                priority matches Some(value) ==> wanted.contains_key("priority"@)
                    && wanted["priority"@] == value@,
                priority is None ==> !wanted.contains_key("priority"@),
                assignee matches Some(value) ==> wanted.contains_key("assignee"@)
                    && wanted["assignee"@] == value@,
                assignee is None ==> !wanted.contains_key("assignee"@),
                tag matches Some(value) ==> wanted.contains_key("tag"@) && wanted["tag"@] == value@,
                tag is None ==> !wanted.contains_key("tag"@),
                task_views(kept@) == filter_model(task_views(tasks@.take(i as int)), wanted),
            decreases tasks.len() - i,
        {
            let task = &tasks[i];
            let keep = passes(task, status, priority, assignee, tag);
            proof {
                assert(keep == matches_filters(task@, wanted));
                let seen = task_views(tasks@.take(i as int));
                assert(task_views(tasks@.take(i + 1)) =~= seen.push(task@));
                seen.lemma_filter_push(task@, accepts(wanted));
            }
            if keep {
                let ghost before = task_views(kept@);
                kept.push(task.clone());
                assert(task_views(kept@) =~= before.push(task@));
            }
            i = i + 1;
        }
        proof {
            assert(tasks@.take(i as int) =~= tasks@);
            lemma_filter_is_subsequence(task_views(tasks@), wanted);
        }
        kept
    }

    /// The first task of `collection` whose identifier is exactly
    /// `task_id`, or `None` if no task carries it.
    pub fn find_task_by_id(&self, collection: &TaskCollection, task_id: &str) -> (found: Option<
        Task,
    >)
        ensures
            task_option_view(found) == lookup_model(collection@.tasks, task_id@),
            found is Some <==> holds_id(collection@.tasks, task_id@),
            found matches Some(task) ==> task@.id == task_id@,
    {
        let ghost tasks = collection@.tasks;
        let mut i: usize = 0;
        while i < collection.tasks.len()
            invariant
                i <= collection.tasks.len(),
                tasks == collection@.tasks,
                forall|j: int| 0 <= j < i ==> (#[trigger] tasks[j]).id != task_id@,
            decreases collection.tasks.len() - i,
        {
            if str_eq(collection.tasks[i].id.as_str(), task_id) {
                proof {
                    lemma_first_match_is_unique(tasks, task_id@, i as int);
                }
                return Some(collection.tasks[i].clone());
            }
            i = i + 1;
        }
        assert(forall|k: int| !first_match(tasks, task_id@, k));
        assert(!holds_id(tasks, task_id@));
        None
    }

    /// The statistics of the tasks in `collection`.
    pub fn get_task_statistics(&self, collection: &TaskCollection) -> (stats: TaskStatistics)
        ensures
            stats@ == statistics_model(collection@.tasks),
            stats.describes(collection@.tasks),
    {
        TaskStatistics::from_tasks(collection.tasks.as_slice())
    }
}

/// The view of an optional task.
pub open spec fn task_option_view(task: Option<Task>) -> Option<TaskView> {
    match task {
        Some(task) => Some(task@),
        None => None,
    }
}

/// There is at most one first match, so a lookup is decided by the tasks
/// and the identifier alone.
pub proof fn lemma_first_match_is_unique(tasks: Seq<TaskView>, id: Seq<char>, i: int)
    requires
        first_match(tasks, id, i),
    ensures
        lookup_model(tasks, id) == Some(tasks[i]),
{
    let k = choose|k: int| first_match(tasks, id, k);
    assert(first_match(tasks, id, k));
    if k < i {
        assert(tasks[k].id != id);
    }
    if i < k {
        assert(tasks[i].id != id);
    }
}

/// Where some task carries the identifier, there is a first one that does.
proof fn lemma_some_match_has_first(tasks: Seq<TaskView>, id: Seq<char>, i: int)
    requires
        0 <= i < tasks.len(),
        tasks[i].id == id,
    ensures
        exists|k: int| first_match(tasks, id, k),
    decreases i,
{
    if exists|j: int| 0 <= j < i && (#[trigger] tasks[j]).id == id {
        let j = choose|j: int| 0 <= j < i && (#[trigger] tasks[j]).id == id;
        lemma_some_match_has_first(tasks, id, j);
    } else {
        assert(first_match(tasks, id, i));
    }
}

/// A lookup finds a task exactly when some task carries the identifier,
/// and the task it finds carries that identifier.
pub proof fn lemma_lookup_finds_what_is_there(tasks: Seq<TaskView>, id: Seq<char>)
    ensures
        lookup_model(tasks, id) is Some <==> holds_id(tasks, id),
        lookup_model(tasks, id) matches Some(task) ==> task.id == id,
{
    if holds_id(tasks, id) {
        let i = choose|i: int| 0 <= i < tasks.len() && (#[trigger] tasks[i]).id == id;
        lemma_some_match_has_first(tasks, id, i);
    }
    if exists|k: int| first_match(tasks, id, k) {
        let k = choose|k: int| first_match(tasks, id, k);
        assert(tasks[k].id == id);
    }
}

/// The four filter keys are pairwise different.
pub proof fn lemma_filter_keys_differ()
    ensures
        "status"@ != "priority"@,
        "status"@ != "assignee"@,
        "status"@ != "tag"@,
        "priority"@ != "assignee"@,
        "priority"@ != "tag"@,
        "assignee"@ != "tag"@,
{
    reveal_strlit("status");
    reveal_strlit("priority");
    reveal_strlit("assignee");
    reveal_strlit("tag");
    assert("status"@.len() == 6);
    assert("priority"@.len() == 8);
    assert("assignee"@.len() == 8);
    assert("tag"@.len() == 3);
    assert("priority"@[0] == 'p');
    assert("assignee"@[0] == 'a');
}

/// A task is in the result of filtering exactly when it is in the input
/// and satisfies the filters.
pub proof fn lemma_filter_keeps_exactly_the_matches(
    tasks: Seq<TaskView>,
    filters: Map<Seq<char>, Seq<char>>,
    task: TaskView,
)
    ensures
        filter_model(tasks, filters).contains(task) <==> (tasks.contains(task) && matches_filters(
            task,
            filters,
        )),
    decreases tasks.len(),
{
    reveal(Seq::filter);
    if tasks.len() > 0 {
        let shorter = tasks.drop_last();
        lemma_filter_keeps_exactly_the_matches(shorter, filters, task);
        let kept = filter_model(shorter, filters);
        if tasks.contains(task) {
            let i = choose|i: int| 0 <= i < tasks.len() && tasks[i] == task;
            if i < tasks.len() - 1 {
                assert(shorter[i] == task);
            }
        }
        if shorter.contains(task) {
            let i = choose|i: int| 0 <= i < shorter.len() && shorter[i] == task;
            assert(tasks[i] == task);
        }
        if matches_filters(tasks.last(), filters) {
            let longer = kept.push(tasks.last());
            assert(filter_model(tasks, filters) == longer);
            if kept.contains(task) {
                let i = choose|i: int| 0 <= i < kept.len() && kept[i] == task;
                assert(longer[i] == task);
            }
            if tasks.last() == task {
                assert(longer[kept.len() as int] == task);
                assert(tasks[tasks.len() - 1] == task);
            }
            if longer.contains(task) {
                let i = choose|i: int| 0 <= i < longer.len() && longer[i] == task;
                if i < kept.len() {
                    assert(kept[i] == task);
                }
            }
        }
    }
}

/// Without filters nothing is left out: the result is the input, the same
/// tasks in the same order.
pub proof fn lemma_no_filter_keeps_all(tasks: Seq<TaskView>)
    ensures
        filter_model(tasks, Map::empty()) == tasks,
    decreases tasks.len(),
{
    reveal(Seq::filter);
    if tasks.len() > 0 {
        lemma_no_filter_keeps_all(tasks.drop_last());
        assert(matches_filters(tasks.last(), Map::empty()));
        assert(tasks.drop_last().push(tasks.last()) =~= tasks);
    }
}

/// A status filter that names a task's own status never excludes that
/// task: whether the task is kept is decided by the other filters alone.
/// In particular a filter map with this one key keeps the task.
pub proof fn lemma_own_status_does_not_exclude(
    tasks: Seq<TaskView>,
    task: TaskView,
    filters: Map<Seq<char>, Seq<char>>,
)
    requires
        tasks.contains(task),
        filters.contains_key("status"@),
        filters["status"@] == task.status.label(),
    ensures
        filter_model(tasks, filters).contains(task) <==> matches_filters(
            task,
            filters.remove("status"@),
        ),
        filters.dom() == set!["status"@] ==> filter_model(tasks, filters).contains(task),
{
    lemma_filter_keeps_exactly_the_matches(tasks, filters, task);
    task.status.lemma_label_round_trip();
    lemma_filter_keys_differ();
    if filters.dom() == set!["status"@] {
        assert(!filters.contains_key("priority"@));
        assert(!filters.contains_key("assignee"@));
        assert(!filters.contains_key("tag"@));
    }
}

/// Filtering only leaves tasks out: what it returns is a subsequence of
/// its input, in the input's order, whatever the filters are.
pub proof fn lemma_filter_is_subsequence(tasks: Seq<TaskView>, filters: Map<Seq<char>, Seq<char>>)
    ensures
        is_subsequence(filter_model(tasks, filters), tasks),
    decreases tasks.len(),
{
    reveal(Seq::filter);
    if tasks.len() == 0 {
        assert(picks_in_order(filter_model(tasks, filters), tasks, Seq::<int>::empty()));
    } else {
        let shorter = tasks.drop_last();
        lemma_filter_is_subsequence(shorter, filters);
        let picks = choose|picks: Seq<int>|
            picks_in_order(filter_model(shorter, filters), shorter, picks);
        if matches_filters(tasks.last(), filters) {
            let longer = picks.push(tasks.len() - 1);
            assert(picks_in_order(filter_model(tasks, filters), tasks, longer));
        } else {
            assert(picks_in_order(filter_model(tasks, filters), tasks, picks));
        }
    }
}

} // verus!
