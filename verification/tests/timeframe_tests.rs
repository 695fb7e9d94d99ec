use ticktask::timeframe::{days_in_year, Moment, TimeFrame};

// Reference instant of the boundary cases: 2024-06-10T00:00:00, the
// 162nd day of a leap year.
fn reference_moment() -> Moment {
    Moment { unix_seconds: 1717977600, year: 2024, day_of_year: 162 }
}

#[test]
fn today_includes_overdue_task_from_yesterday() {
    let reference = reference_moment();
    // 2024-06-09T23:00, one hour into yesterday.
    let due = Moment { unix_seconds: 1717974000, year: 2024, day_of_year: 161 };
    assert!(TimeFrame::Today.inside(&reference, &due));
}

#[test]
fn week_includes_overdue_task_from_yesterday() {
    let reference = reference_moment();
    let due = Moment { unix_seconds: 1717974000, year: 2024, day_of_year: 161 };
    assert!(TimeFrame::Week.inside(&reference, &due));
}

#[test]
fn today_includes_overdue_task_from_a_prior_year() {
    let reference = reference_moment();
    // 2023-12-31T12:00: a later day-of-year, but an earlier year.
    let due = Moment { unix_seconds: 1704024000, year: 2023, day_of_year: 365 };
    assert!(TimeFrame::Today.inside(&reference, &due));
    // Week mirrors Today's inclusion of overdue tasks.
    assert!(TimeFrame::Week.inside(&reference, &due));
}

#[test]
fn tomorrow_excludes_task_from_yesterday() {
    let reference = reference_moment();
    let due = Moment { unix_seconds: 1717974000, year: 2024, day_of_year: 161 };
    assert!(!TimeFrame::Tomorrow.inside(&reference, &due));
}

#[test]
fn tomorrow_includes_exact_calendar_tomorrow() {
    let reference = reference_moment();
    // 2024-06-11T00:00:00 exactly.
    let due = Moment { unix_seconds: 1718064000, year: 2024, day_of_year: 163 };
    assert!(TimeFrame::Tomorrow.inside(&reference, &due));
}

#[test]
fn week_includes_task_just_under_seven_days_out() {
    let reference = reference_moment();
    // 2024-06-16T23:59, 6.99 days out.
    let due = Moment { unix_seconds: 1718582340, year: 2024, day_of_year: 168 };
    assert!(TimeFrame::Week.inside(&reference, &due));
}

#[test]
fn week_excludes_task_exactly_seven_days_out() {
    let reference = reference_moment();
    // 2024-06-17T00:00, exactly 7.0 days out.
    let due = Moment { unix_seconds: 1718582400, year: 2024, day_of_year: 169 };
    assert!(!TimeFrame::Week.inside(&reference, &due));
}

#[test]
fn today_excludes_task_due_tomorrow() {
    let reference = reference_moment();
    let due = Moment { unix_seconds: 1718064000, year: 2024, day_of_year: 163 };
    assert!(!TimeFrame::Today.inside(&reference, &due));
}

#[test]
fn all_includes_everything() {
    let reference = reference_moment();
    let due = Moment { unix_seconds: 1718582400, year: 2024, day_of_year: 169 };
    assert!(TimeFrame::All.inside(&reference, &due));
}

#[test]
fn tomorrow_crosses_a_year_boundary() {
    // 2024-12-31T00:00, the 366th day of the leap year.
    let reference = Moment { unix_seconds: 1735603200, year: 2024, day_of_year: 366 };
    // 2025-01-01T06:00.
    let due = Moment { unix_seconds: 1735711200, year: 2025, day_of_year: 1 };
    assert!(TimeFrame::Tomorrow.inside(&reference, &due));
    assert!(!TimeFrame::Today.inside(&reference, &due));
}

#[test]
fn leap_year_rule() {
    assert_eq!(days_in_year(2024), 366);
    assert_eq!(days_in_year(2023), 365);
    assert_eq!(days_in_year(2000), 366);
    assert_eq!(days_in_year(1900), 365);
    assert_eq!(days_in_year(-9996), 366);
}
