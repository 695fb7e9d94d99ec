use ticktask::data::{Project, ProjectData, TaggedTask, Task};
use ticktask::filter::{filter, task_number_index};
use ticktask::timeframe::{Moment, TimeFrame};

fn sample_project(name: &str, color: Option<&str>) -> Project {
    Project {
        id: format!("id-{}", name),
        name: String::from(name),
        color: color.map(String::from),
        sort_order: 0,
        closed: None,
        group_id: None,
        view_mode: None,
        permission: None,
        kind: String::from("TASK"),
    }
}

fn sample_task(title: &str, due_date: Option<Moment>) -> Task {
    Task {
        id: format!("task-{}", title),
        project_id: String::from("p"),
        title: String::from(title),
        is_all_day: false,
        completed_time: None,
        content: String::new(),
        desc: String::new(),
        due_date,
        items: None,
        priority: 0,
        reminders: None,
        repeat_flag: None,
        sort_order: 0,
        start_date: None,
        status: 0,
        time_zone: String::from("UTC"),
    }
}

fn sample_collection() -> Vec<ProjectData> {
    // Reference for these fixtures: 2024-06-10T14:00 (day 162 of 2024).
    // "Home" has A (due two hours ago) and B (due in ten days);
    // "Work" has one task due the same day.
    let a = sample_task("A", Some(Moment { unix_seconds: 1718020800, year: 2024, day_of_year: 162 }));
    let b = sample_task("B", Some(Moment { unix_seconds: 1718892000, year: 2024, day_of_year: 172 }));
    let w = sample_task("W", Some(Moment { unix_seconds: 1718030000, year: 2024, day_of_year: 162 }));
    vec![
        ProjectData { project: sample_project("Home", Some("#ff0000")), tasks: vec![a, b], columns: vec![] },
        ProjectData { project: sample_project("Work", None), tasks: vec![w], columns: vec![] },
    ]
}

fn reference_now() -> Moment {
    Moment { unix_seconds: 1718028000, year: 2024, day_of_year: 162 }
}

#[test]
fn today_keeps_only_the_overdue_task() {
    let projects = sample_collection();
    let now = reference_now();
    let hits = filter(&projects, TimeFrame::Today, &now, None);
    assert_eq!(
        hits,
        vec![
            TaggedTask { project_index: 0, task_index: 0 },
            TaggedTask { project_index: 1, task_index: 0 },
        ]
    );
}

#[test]
fn week_excludes_the_task_ten_days_out() {
    let projects = sample_collection();
    let now = reference_now();
    let name = String::from("Home");
    let hits = filter(&projects, TimeFrame::Week, &now, Some(&name));
    // B is ten days out, so only A survives.
    assert_eq!(hits, vec![TaggedTask { project_index: 0, task_index: 0 }]);
}

#[test]
fn end_to_end_home_project_scenario() {
    let projects = sample_collection();
    let now = reference_now();
    let name = String::from("Home");
    let today = filter(&projects, TimeFrame::Today, &now, Some(&name));
    assert_eq!(today, vec![TaggedTask { project_index: 0, task_index: 0 }]);
    let week = filter(&projects, TimeFrame::Week, &now, Some(&name));
    assert_eq!(week, vec![TaggedTask { project_index: 0, task_index: 0 }]);
}

#[test]
fn name_filter_keeps_only_the_named_project() {
    let projects = sample_collection();
    let now = reference_now();
    let name = String::from("Work");
    let hits = filter(&projects, TimeFrame::All, &now, Some(&name));
    assert_eq!(hits, vec![TaggedTask { project_index: 1, task_index: 0 }]);
    for hit in &hits {
        assert_eq!(projects[hit.project_index].project.name, "Work");
    }
}

#[test]
fn unmatched_name_yields_empty_not_error() {
    let projects = sample_collection();
    let now = reference_now();
    let name = String::from("Garden");
    let hits = filter(&projects, TimeFrame::All, &now, Some(&name));
    assert!(hits.is_empty());
}

#[test]
fn name_filter_is_case_sensitive() {
    let projects = sample_collection();
    let now = reference_now();
    let name = String::from("work");
    let hits = filter(&projects, TimeFrame::All, &now, Some(&name));
    assert!(hits.is_empty());
}

#[test]
fn task_without_due_date_only_under_all() {
    let projects = vec![ProjectData {
        project: sample_project("Home", None),
        tasks: vec![sample_task("loose", None)],
        columns: vec![],
    }];
    let now = reference_now();
    assert!(filter(&projects, TimeFrame::Today, &now, None).is_empty());
    assert!(filter(&projects, TimeFrame::Tomorrow, &now, None).is_empty());
    assert!(filter(&projects, TimeFrame::Week, &now, None).is_empty());
    assert_eq!(
        filter(&projects, TimeFrame::All, &now, None),
        vec![TaggedTask { project_index: 0, task_index: 0 }]
    );
}

#[test]
fn filter_preserves_fetch_order() {
    let t1 = sample_task("one", None);
    let t2 = sample_task("two", None);
    let t3 = sample_task("three", None);
    let projects = vec![
        ProjectData { project: sample_project("P1", None), tasks: vec![t1, t2], columns: vec![] },
        ProjectData { project: sample_project("P2", None), tasks: vec![t3], columns: vec![] },
    ];
    let now = reference_now();
    let hits = filter(&projects, TimeFrame::All, &now, None);
    assert_eq!(
        hits,
        vec![
            TaggedTask { project_index: 0, task_index: 0 },
            TaggedTask { project_index: 0, task_index: 1 },
            TaggedTask { project_index: 1, task_index: 0 },
        ]
    );
}

#[test]
fn task_numbers_are_one_based() {
    assert_eq!(task_number_index(1, 3), Some(0));
    assert_eq!(task_number_index(3, 3), Some(2));
    assert_eq!(task_number_index(0, 3), None);
    assert_eq!(task_number_index(4, 3), None);
    assert_eq!(task_number_index(-2, 3), None);
    assert_eq!(task_number_index(1, 0), None);
}
