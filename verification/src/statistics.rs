//! Counting tasks by label: the total, a breakdown by status and a
//! breakdown by priority, and the report that shows them.

use vstd::prelude::*;
use vstd::string::StringExecFns;
use crate::models::{task_views, Task, TaskView};
use crate::string_map::{entry_keys, lemma_entry_in_map, lemma_key_in_map, StringMap};
use crate::text::{decimal, joined, push_decimal};

verus! {

/// The canonical status labels of `tasks`, one per task, in order.
pub open spec fn status_labels(tasks: Seq<TaskView>) -> Seq<Seq<char>> {
    tasks.map_values(|task: TaskView| task.status.label())
}

/// The canonical priority labels of `tasks`, one per task, in order.
pub open spec fn priority_labels(tasks: Seq<TaskView>) -> Seq<Seq<char>> {
    tasks.map_values(|task: TaskView| task.priority.label())
}

/// The test for being `label`.
pub open spec fn is_label(label: Seq<char>) -> spec_fn(Seq<char>) -> bool {
    |other: Seq<char>| other == label
}

/// How often `label` occurs in `labels`.
pub open spec fn occurrences(labels: Seq<Seq<char>>, label: Seq<char>) -> nat {
    labels.filter(is_label(label)).len()
}

/// `counts` is the histogram of `labels`: it holds exactly the labels that
/// occur, each with the number of its occurrences. A label that does not
/// occur is absent, not present with zero.
pub open spec fn is_histogram(counts: Map<Seq<char>, usize>, labels: Seq<Seq<char>>) -> bool {
    forall|label: Seq<char>|
        {
            &&& #[trigger] counts.contains_key(label) <==> occurrences(labels, label) > 0
            &&& counts.contains_key(label) ==> counts[label] == occurrences(labels, label)
        }
}

/// `entries` after one more occurrence of `label` has been counted: the
/// entry of a label that is already there is raised by one where it
/// stands, and a new label is added at the end with the count one.
pub open spec fn counted_one_more(entries: Seq<(Seq<char>, usize)>, label: Seq<char>) -> Seq<
    (Seq<char>, usize),
> {
    let keys = entry_keys(entries);
    if keys.contains(label) {
        let i = keys.index_of(label);
        entries.update(i, (label, (entries[i].1 + 1) as usize))
    } else {
        entries.push((label, 1usize))
    }
}

/// The labels that occur in `labels`, in the order of their first
/// occurrence, each with the number of its occurrences.
pub open spec fn counted_in_order(labels: Seq<Seq<char>>) -> Seq<(Seq<char>, usize)>
    decreases labels.len(),
{
    if labels.len() == 0 {
        Seq::empty()
    } else {
        counted_one_more(counted_in_order(labels.drop_last()), labels.last())
    }
}

/// What a [`TaskStatistics`] holds, as mathematical values. The entries of
/// each breakdown stand in the order in which a report lists them.
pub struct TaskStatisticsView {
    pub total_tasks: nat,
    pub status_counts: Seq<(Seq<char>, usize)>,
    pub priority_counts: Seq<(Seq<char>, usize)>,
}

/// The statistics of `tasks`.
pub open spec fn statistics_model(tasks: Seq<TaskView>) -> TaskStatisticsView {
    TaskStatisticsView {
        total_tasks: tasks.len(),
        status_counts: counted_in_order(status_labels(tasks)),
        priority_counts: counted_in_order(priority_labels(tasks)),
    }
}

/// The report on a set of statistics: a heading, the total, then the
/// breakdown by status and the breakdown by priority.
pub open spec fn statistics_text(stats: TaskStatisticsView) -> Seq<char> {
    "## Task Statistics\n\n**Total Tasks:** "@ + decimal(stats.total_tasks)
        + "\n\n### By Status:\n"@ + count_lines(stats.status_counts)
        + "\n\n### By Priority:\n"@ + count_lines(stats.priority_counts)
}

/// The sum of the counts of a list of entries.
pub open spec fn counts_total(entries: Seq<(Seq<char>, usize)>) -> nat
    decreases entries.len(),
{
    if entries.len() == 0 {
        0
    } else {
        counts_total(entries.drop_last()) + entries.last().1 as nat
    }
}

/// One line of a breakdown: a dash, the label, a colon and the count.
pub open spec fn count_line(entry: (Seq<char>, usize)) -> Seq<char> {
    "- "@ + entry.0 + ": "@ + decimal(entry.1 as nat)
}

/// The lines of a breakdown, one per entry, separated by line feeds.
pub open spec fn count_lines(entries: Seq<(Seq<char>, usize)>) -> Seq<char> {
    joined(entries.map_values(|entry: (Seq<char>, usize)| count_line(entry)), "\n"@)
}

/// Appending an entry adds its count to the total.
pub proof fn lemma_total_push(entries: Seq<(Seq<char>, usize)>, entry: (Seq<char>, usize))
    ensures
        counts_total(entries.push(entry)) == counts_total(entries) + entry.1,
{
    assert(entries.push(entry).drop_last() =~= entries);
}

/// Replacing an entry changes the total by the difference of the counts.
pub proof fn lemma_total_update(
    entries: Seq<(Seq<char>, usize)>,
    i: int,
    entry: (Seq<char>, usize),
)
    requires
        0 <= i < entries.len(),
    ensures
        counts_total(entries.update(i, entry)) == counts_total(entries) - entries[i].1 + entry.1,
    decreases entries.len(),
{
    let changed = entries.update(i, entry);
    if i == entries.len() - 1 {
        assert(changed.drop_last() =~= entries.drop_last());
    } else {
        assert(changed.drop_last() =~= entries.drop_last().update(i, entry));
        lemma_total_update(entries.drop_last(), i, entry);
    }
}

/// No single count exceeds the total.
pub proof fn lemma_count_within_total(entries: Seq<(Seq<char>, usize)>, i: int)
    requires
        0 <= i < entries.len(),
    ensures
        entries[i].1 <= counts_total(entries),
    decreases entries.len(),
{
    if i < entries.len() - 1 {
        lemma_count_within_total(entries.drop_last(), i);
    }
}

/// One more label adds one occurrence of that label and of no other.
pub proof fn lemma_occurrences_push(labels: Seq<Seq<char>>, added: Seq<char>, label: Seq<char>)
    ensures
        occurrences(labels.push(added), label) == occurrences(labels, label) + if added == label {
            1nat
        } else {
            0nat
        },
{
    labels.lemma_filter_push(added, is_label(label));
}

/// Counts one more occurrence of `label` in `counts`.
fn tally(counts: &mut StringMap<usize>, label: &str, Ghost(labels): Ghost<Seq<Seq<char>>>)
    requires
        is_histogram(old(counts)@, labels),
        counts_total(old(counts).entries()) == labels.len(),
        labels.len() < usize::MAX,
    ensures
        is_histogram(final(counts)@, labels.push(label@)),
        counts_total(final(counts).entries()) == labels.len() + 1,
        final(counts).entries() == counted_one_more(old(counts).entries(), label@),
{
    let ghost before = counts.entries();
    let ghost before_map = counts@;
    let seen: usize = match counts.position(label) {
        Some(i) => {
            proof {
                lemma_count_within_total(before, i as int);
                lemma_entry_in_map(before, i as int);
            }
            *counts.value_at(i)
        },
        None => 0,
    };
    assert(before_map.contains_key(label@) ==> before_map[label@] == seen);
    assert(!before_map.contains_key(label@) ==> seen == 0);
    counts.insert(label.to_string(), seen + 1);
    proof {
        if before_map.contains_key(label@) {
            let i = choose|i: int|
                0 <= i < before.len() && (#[trigger] before[i]).0 == label@ && counts.entries()
                    == before.update(i, (label@, (seen + 1) as usize));
            lemma_entry_in_map(before, i);
            lemma_total_update(before, i, (label@, (seen + 1) as usize));
            assert(entry_keys(before)[i] == label@);
            assert(entry_keys(before).index_of(label@) == i);
        } else {
            lemma_total_push(before, (label@, (seen + 1) as usize));
            lemma_key_in_map(before, label@);
        }
        assert forall|l: Seq<char>|
            {
                &&& #[trigger] counts@.contains_key(l) <==> occurrences(labels.push(label@), l) > 0
                &&& counts@.contains_key(l) ==> counts@[l] == occurrences(labels.push(label@), l)
            } by {
            lemma_occurrences_push(labels, label@, l);
            assert(before_map.contains_key(l) <==> occurrences(labels, l) > 0);
        }
    }
}

/// Counts of a set of tasks: how many there are, and how many carry each
/// status label and each priority label that occurs.
#[derive(Debug)]
pub struct TaskStatistics {
    pub total_tasks: usize,
    pub status_counts: StringMap<usize>,
    pub priority_counts: StringMap<usize>,
}

impl View for TaskStatistics {
    type V = TaskStatisticsView;

    open spec fn view(&self) -> TaskStatisticsView {
        TaskStatisticsView {
            total_tasks: self.total_tasks as nat,
            status_counts: self.status_counts.entries(),
            priority_counts: self.priority_counts.entries(),
        }
    }
}

impl TaskStatistics {
    /// These are the statistics of `tasks`: the total is their number, each
    /// breakdown is the histogram of the canonical labels, and the counts
    /// of each breakdown add up to the total.
    pub open spec fn describes(&self, tasks: Seq<TaskView>) -> bool {
        &&& self.total_tasks == tasks.len()
        &&& is_histogram(self.status_counts@, status_labels(tasks))
        &&& is_histogram(self.priority_counts@, priority_labels(tasks))
        &&& counts_total(self.status_counts.entries()) == tasks.len()
        &&& counts_total(self.priority_counts.entries()) == tasks.len()
    }

    /// Counts `tasks` in total, by status and by priority.
    pub fn from_tasks(tasks: &[Task]) -> (stats: Self)
        ensures
            stats@ == statistics_model(task_views(tasks@)),
            stats.describes(task_views(tasks@)),
    {
        let total_tasks: usize = tasks.len();
        let mut status_counts: StringMap<usize> = StringMap::new();
        let mut priority_counts: StringMap<usize> = StringMap::new();
        let ghost views = task_views(tasks@);
        let mut i: usize = 0;
        proof {
            assert(status_labels(views.take(0)) =~= Seq::empty());
            assert(priority_labels(views.take(0)) =~= Seq::empty());
            reveal(Seq::filter);
            assert(counts_total(status_counts.entries()) == 0);
        }
        while i < tasks.len()
            invariant
                i <= tasks.len(),
                views == task_views(tasks@),
                is_histogram(status_counts@, status_labels(views.take(i as int))),
                is_histogram(priority_counts@, priority_labels(views.take(i as int))),
                counts_total(status_counts.entries()) == i,
                counts_total(priority_counts.entries()) == i,
                status_counts.entries() == counted_in_order(status_labels(views.take(i as int))),
                priority_counts.entries() == counted_in_order(
                    priority_labels(views.take(i as int)),
                ),
            decreases tasks.len() - i,
        {
            let task = &tasks[i];
            proof {
                assert(views.take(i + 1) =~= views.take(i as int).push(task@));
                assert(status_labels(views.take(i + 1)) =~= status_labels(
                    views.take(i as int),
                ).push(task.status.label()));
                assert(priority_labels(views.take(i + 1)) =~= priority_labels(
                    views.take(i as int),
                ).push(task.priority.label()));
                assert(status_labels(views.take(i + 1)).drop_last() =~= status_labels(
                    views.take(i as int),
                ));
                assert(priority_labels(views.take(i + 1)).drop_last() =~= priority_labels(
                    views.take(i as int),
                ));
            }
            tally(
                &mut status_counts,
                task.status.as_label(),
                Ghost(status_labels(views.take(i as int))),
            );
            tally(
                &mut priority_counts,
                task.priority.as_label(),
                Ghost(priority_labels(views.take(i as int))),
            );
            i = i + 1;
        }
        assert(views.take(i as int) =~= views);
        TaskStatistics { total_tasks, status_counts, priority_counts }
    }

    /// The statistics as a report for a reader: the total, then one line
    /// per label of each breakdown, in the order in which the labels were
    /// first counted.
    pub fn format_stats(&self) -> (report: String)
        ensures
            report@ == statistics_text(self@),
    {
        let mut report = "## Task Statistics\n\n**Total Tasks:** ".to_string();
        push_decimal(&mut report, self.total_tasks);
        report.append("\n\n### By Status:\n");
        push_count_lines(&mut report, &self.status_counts);
        report.append("\n\n### By Priority:\n");
        push_count_lines(&mut report, &self.priority_counts);
        report
    }
}

/// Appends the lines of a breakdown to `out`.
fn push_count_lines(out: &mut String, counts: &StringMap<usize>)
    ensures
        final(out)@ == old(out)@ + count_lines(counts.entries()),
{
    let ghost lines = counts.entries().map_values(|entry: (Seq<char>, usize)| count_line(entry));
    let n: usize = counts.len();
    let mut i: usize = 0;
    while i < n
        invariant
            i <= n,
            n == counts.entries().len(),
            lines == counts.entries().map_values(|entry: (Seq<char>, usize)| count_line(entry)),
            out@ == old(out)@ + joined(lines.take(i as int), "\n"@),
        decreases n - i,
    {
        if i > 0 {
            out.append("\n");
        }
        out.append("- ");
        out.append(counts.key_at(i).as_str());
        out.append(": ");
        push_decimal(out, *counts.value_at(i));
        proof {
            assert(lines.take(i + 1).drop_last() =~= lines.take(i as int));
            assert(lines.take(i + 1).last() == count_line(counts.entries()[i as int]));
            assert(out@ =~= old(out)@ + joined(lines.take(i + 1), "\n"@));
        }
        i = i + 1;
    }
    assert(lines.take(i as int) =~= lines);
}

} // verus!
