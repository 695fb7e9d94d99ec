//! The time-frame task filter: walks every task of every selected
//! project and keeps those whose due date falls inside the requested
//! window, preserving fetch order.

use vstd::prelude::*;

use crate::data::{ProjectData, TaggedTask, Task};
use crate::text::str_eq;
use crate::timeframe::{Moment, TimeFrame};

verus! {

/// Whether the optional name filter selects this project: either no
/// name was requested, or the project's name equals it exactly.
pub open spec fn project_chosen(p: ProjectData, name: Option<Seq<char>>) -> bool {
    match name {
        None => true,
        Some(n) => p.project.name@ == n,
    }
}

/// Whether a task belongs to the window: a task with a due date is kept
/// when the date falls inside it, a task without one only under `All`.
pub open spec fn task_in_frame(t: Task, frame: TimeFrame, reference: Moment) -> bool {
    match t.due_date {
        Some(d) => frame.spec_inside(reference, d),
        None => frame is All,
    }
}

/// The references produced by the first `j` tasks of the project at
/// `project_index`, in task order.
pub open spec fn project_hits(
    tasks: Seq<Task>,
    project_index: usize,
    j: int,
    frame: TimeFrame,
    reference: Moment,
) -> Seq<TaggedTask>
    decreases j,
{
    if j <= 0 {
        Seq::empty()
    } else {
        project_hits(tasks, project_index, j - 1, frame, reference) + if task_in_frame(
            tasks[j - 1],
            frame,
            reference,
        ) {
            seq![TaggedTask { project_index, task_index: (j - 1) as usize }]
        } else {
            Seq::empty()
        }
    }
}

/// The references produced by the first `i` projects, in project order.
pub open spec fn filter_hits(
    projects: Seq<ProjectData>,
    i: int,
    frame: TimeFrame,
    reference: Moment,
    name: Option<Seq<char>>,
) -> Seq<TaggedTask>
    decreases i,
{
    if i <= 0 {
        Seq::empty()
    } else {
        filter_hits(projects, i - 1, frame, reference, name) + if project_chosen(
            projects[i - 1],
            name,
        ) {
            project_hits(
                projects[i - 1].tasks@,
                (i - 1) as usize,
                projects[i - 1].tasks@.len() as int,
                frame,
                reference,
            )
        } else {
            Seq::empty()
        }
    }
}

/// Everything the filter returns for the whole collection.
pub open spec fn spec_filter(
    projects: Seq<ProjectData>,
    frame: TimeFrame,
    reference: Moment,
    name: Option<Seq<char>>,
) -> Seq<TaggedTask> {
    filter_hits(projects, projects.len() as int, frame, reference, name)
}

/// The view of the optional project-name argument.
pub open spec fn name_view(name: Option<&String>) -> Option<Seq<char>> {
    match name {
        None => None,
        Some(n) => Some(n@),
    }
}

/// Whether a task's due date, if set, is a well-formed moment.
pub open spec fn due_wf(t: Task) -> bool {
    match t.due_date {
        Some(d) => d.wf(),
        None => true,
    }
}

/// Whether every due date in the collection is a well-formed moment.
pub open spec fn due_dates_wf(projects: Seq<ProjectData>) -> bool {
    forall|i: int, j: int|
        0 <= i < projects.len() && 0 <= j < projects[i].tasks@.len() ==> due_wf(
            #[trigger] projects[i].tasks@[j],
        )
}

/// Every reference among the hits of one project points at that
/// project, at a task index below `j`, and at a task inside the window.
pub proof fn lemma_project_hits_sound(
    tasks: Seq<Task>,
    project_index: usize,
    j: int,
    frame: TimeFrame,
    reference: Moment,
    k: int,
)
    requires
        0 <= j <= tasks.len(),
        j <= usize::MAX,
        0 <= k < project_hits(tasks, project_index, j, frame, reference).len(),
    ensures
        ({
            let t = project_hits(tasks, project_index, j, frame, reference)[k];
            &&& t.project_index == project_index
            &&& t.task_index < j
            &&& task_in_frame(tasks[t.task_index as int], frame, reference)
        }),
    decreases j,
{
    let prefix = project_hits(tasks, project_index, j - 1, frame, reference);
    if k < prefix.len() {
        lemma_project_hits_sound(tasks, project_index, j - 1, frame, reference, k);
    }
}

/// Every reference among the hits of the first `i` projects points at
/// a selected project, at one of its tasks, and at a task inside the
/// window.
pub proof fn lemma_filter_hits_sound(
    projects: Seq<ProjectData>,
    i: int,
    frame: TimeFrame,
    reference: Moment,
    name: Option<Seq<char>>,
    k: int,
)
    requires
        0 <= i <= projects.len(),
        i <= usize::MAX,
        projects.len() <= usize::MAX,
        0 <= k < filter_hits(projects, i, frame, reference, name).len(),
    ensures
        ({
            let t = filter_hits(projects, i, frame, reference, name)[k];
            &&& t.project_index < i
            &&& project_chosen(projects[t.project_index as int], name)
            &&& t.task_index < projects[t.project_index as int].tasks@.len()
            &&& task_in_frame(
                projects[t.project_index as int].tasks@[t.task_index as int],
                frame,
                reference,
            )
        }),
    decreases i,
{
    let prefix = filter_hits(projects, i - 1, frame, reference, name);
    if k < prefix.len() {
        lemma_filter_hits_sound(projects, i - 1, frame, reference, name, k);
    } else {
        let tasks = projects[i - 1].tasks@;
        assert(vstd::std_specs::vec::spec_vec_len(&projects[i - 1].tasks) == tasks.len());
        lemma_project_hits_sound(
            tasks,
            (i - 1) as usize,
            tasks.len() as int,
            frame,
            reference,
            k - prefix.len(),
        );
    }
}

/// Law of name filtering: when a project name is requested, every
/// returned reference points at an existing task, inside the window,
/// of a project whose name equals the requested one exactly.
pub proof fn lemma_filter_only_named(
    projects: Seq<ProjectData>,
    frame: TimeFrame,
    reference: Moment,
    name: Seq<char>,
    k: int,
)
    requires
        projects.len() <= usize::MAX,
        0 <= k < spec_filter(projects, frame, reference, Some(name)).len(),
    ensures
        ({
            let t = spec_filter(projects, frame, reference, Some(name))[k];
            &&& t.project_index < projects.len()
            &&& projects[t.project_index as int].project.name@ == name
            &&& t.task_index < projects[t.project_index as int].tasks@.len()
            &&& task_in_frame(
                projects[t.project_index as int].tasks@[t.task_index as int],
                frame,
                reference,
            )
        }),
{
    lemma_filter_hits_sound(projects, projects.len() as int, frame, reference, Some(name), k);
}

/// Law of name filtering, second half: a name no project bears selects
/// nothing, rather than failing.
pub proof fn lemma_filter_unmatched_empty(
    projects: Seq<ProjectData>,
    frame: TimeFrame,
    reference: Moment,
    name: Seq<char>,
)
    requires
        forall|i: int| 0 <= i < projects.len() ==> (#[trigger] projects[i].project.name@) != name,
    ensures
        spec_filter(projects, frame, reference, Some(name)) == Seq::<TaggedTask>::empty(),
{
    assert forall|i: int| 0 <= i <= projects.len() implies filter_hits(
        projects,
        i,
        frame,
        reference,
        Some(name),
    ) =~= Seq::<TaggedTask>::empty() by {
        lemma_filter_hits_unmatched(projects, i, frame, reference, name);
    }
}

/// Helper induction for [`lemma_filter_unmatched_empty`].
proof fn lemma_filter_hits_unmatched(
    projects: Seq<ProjectData>,
    i: int,
    frame: TimeFrame,
    reference: Moment,
    name: Seq<char>,
)
    requires
        i <= projects.len(),
        forall|k: int| 0 <= k < projects.len() ==> (#[trigger] projects[k].project.name@) != name,
    ensures
        filter_hits(projects, i, frame, reference, Some(name)) =~= Seq::<TaggedTask>::empty(),
    decreases i,
{
    if i > 0 {
        lemma_filter_hits_unmatched(projects, i - 1, frame, reference, name);
    }
}

/// Walks every task of every selected project, in fetch order, and
/// returns a reference to each task the window keeps.
pub fn filter(
    projects: &Vec<ProjectData>,
    frame: TimeFrame,
    reference: &Moment,
    project_name: Option<&String>,
) -> (r: Vec<TaggedTask>)
    requires
        reference.wf(),
        due_dates_wf(projects@),
    ensures
        r@ == spec_filter(projects@, frame, *reference, name_view(project_name)),
{
    let ghost nv = name_view(project_name);
    let mut r: Vec<TaggedTask> = Vec::new();
    let n: usize = projects.len();
    let mut i: usize = 0;
    while i < n
        invariant
            i <= n,
            n == projects@.len(),
            reference.wf(),
            due_dates_wf(projects@),
            nv == name_view(project_name),
            r@ == filter_hits(projects@, i as int, frame, *reference, nv),
        decreases n - i,
    {
        let chosen: bool = match project_name {
            Some(name) => str_eq(projects[i].project.name.as_str(), name.as_str()),
            None => true,
        };
        assert(chosen == project_chosen(projects@[i as int], nv));
        if chosen {
            let tasks: &Vec<Task> = &projects[i].tasks;
            let m: usize = tasks.len();
            let mut j: usize = 0;
            while j < m
                invariant
                    j <= m,
                    i < n,
                    n == projects@.len(),
                    m == tasks@.len(),
                    tasks@ == projects@[i as int].tasks@,
                    reference.wf(),
                    due_dates_wf(projects@),
                    r@ == filter_hits(projects@, i as int, frame, *reference, nv) + project_hits(
                        tasks@,
                        i,
                        j as int,
                        frame,
                        *reference,
                    ),
                decreases m - j,
            {
                let kept: bool = match &tasks[j].due_date {
                    Some(d) => {
                        assert(d.wf());
                        frame.inside(reference, d)
                    },
                    None => matches!(frame, TimeFrame::All),
                };
                assert(kept == task_in_frame(tasks@[j as int], frame, *reference));
                if kept {
                    r.push(TaggedTask { project_index: i, task_index: j });
                    proof {
                        assert(r@ =~= filter_hits(projects@, i as int, frame, *reference, nv)
                            + project_hits(tasks@, i, j as int + 1, frame, *reference));
                    }
                } else {
                    proof {
                        assert(r@ =~= filter_hits(projects@, i as int, frame, *reference, nv)
                            + project_hits(tasks@, i, j as int + 1, frame, *reference));
                    }
                }
                j = j + 1;
            }
            proof {
                assert(r@ =~= filter_hits(projects@, i as int + 1, frame, *reference, nv));
            }
        } else {
            proof {
                assert(r@ =~= filter_hits(projects@, i as int + 1, frame, *reference, nv));
            }
        }
        i = i + 1;
    }
    r
}

/// Turns the 1-based task number a user typed into an index into a
/// listing of `count` tasks: accepted exactly when it lies between 1
/// and `count`.
pub fn task_number_index(num: i64, count: usize) -> (r: Option<usize>)
    ensures
        r is Some <==> 1 <= num <= count as int,
        r matches Some(i) ==> i as int == num - 1,
{
    if num < 1 {
        None
    } else if (num as u64) > (count as u64) {
        None
    } else {
        Some((num - 1) as usize)
    }
}

} // verus!
