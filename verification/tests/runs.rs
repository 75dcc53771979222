use chrono::{TimeZone, Utc};
use git_board::app::RunSort;
use git_board::config::DashboardLayout;
use git_board::model::{Run, Timestamp};
use git_board::runs::{
    latest_workflow_success, run_failed, run_in_progress, run_started, run_succeeded,
    run_visible_in_layout, same_workflow, same_workflow_branch, sorted_visible_run_indices,
    unresolved_failure,
};

fn run(
    database_id: u64,
    workflow_name: &str,
    head_branch: &str,
    conclusion: Option<&str>,
    status: &str,
    created_minute: u32,
) -> Run {
    let created = Utc
        .with_ymd_and_hms(2026, 6, 2, 10, created_minute, 0)
        .unwrap();
    let created_at = Timestamp {
        seconds: created.timestamp(),
        nanos: created.timestamp_subsec_nanos(),
    };
    Run {
        attempt: None,
        conclusion: conclusion.map(ToString::to_string),
        created_at,
        database_id,
        display_title: format!("run {database_id}"),
        event: "push".to_string(),
        head_branch: head_branch.to_string(),
        head_sha: None,
        name: workflow_name.to_string(),
        number: None,
        failure_data: Vec::new(),
        failure_reason: None,
        pr_number: None,
        started_at: Some(created_at),
        status: status.to_string(),
        updated_at: created_at,
        url: None,
        workflow_database_id: None,
        workflow_name: workflow_name.to_string(),
    }
}

#[test]
fn failure_is_unresolved_without_following_start_or_success() {
    let runs = vec![run(1, "verify", "main", Some("failure"), "completed", 10)];

    assert!(run_visible_in_layout(
        &runs[0],
        &runs,
        DashboardLayout::InProgress
    ));
}

#[test]
fn newer_start_resolves_same_workflow_branch_failure() {
    let runs = vec![
        run(2, "verify", "main", None, "in_progress", 12),
        run(1, "verify", "main", Some("failure"), "completed", 10),
    ];

    assert!(!unresolved_failure(&runs[1], &runs));
}

#[test]
fn newer_success_resolves_same_workflow_branch_failure() {
    let runs = vec![
        run(2, "verify", "main", Some("success"), "completed", 12),
        run(1, "verify", "main", Some("failure"), "completed", 10),
    ];

    assert!(!unresolved_failure(&runs[1], &runs));
}

#[test]
fn newer_failed_start_resolves_older_same_workflow_branch_failure() {
    let runs = vec![
        run(2, "verify", "main", Some("failure"), "completed", 12),
        run(1, "verify", "main", Some("failure"), "completed", 10),
    ];

    assert!(!unresolved_failure(&runs[1], &runs));
    assert!(unresolved_failure(&runs[0], &runs));
}

#[test]
fn in_progress_layout_shows_latest_workflow_success() {
    let runs = vec![run(1, "verify", "main", Some("success"), "completed", 10)];

    assert!(run_visible_in_layout(
        &runs[0],
        &runs,
        DashboardLayout::InProgress
    ));
}

#[test]
fn newer_workflow_entry_hides_older_success() {
    let runs = vec![
        run(2, "verify", "main", None, "in_progress", 12),
        run(1, "verify", "main", Some("success"), "completed", 10),
    ];

    assert!(!run_visible_in_layout(
        &runs[1],
        &runs,
        DashboardLayout::InProgress
    ));
}

#[test]
fn newer_workflow_entry_on_other_branch_hides_older_success() {
    let runs = vec![
        run(2, "verify", "feature", Some("failure"), "completed", 12),
        run(1, "verify", "main", Some("success"), "completed", 10),
    ];

    assert!(!run_visible_in_layout(
        &runs[1],
        &runs,
        DashboardLayout::InProgress
    ));
}

#[test]
fn in_progress_layout_sorts_successes_last() {
    let runs = vec![
        run(
            1,
            "latest-success",
            "main",
            Some("success"),
            "completed",
            14,
        ),
        run(2, "running", "main", None, "in_progress", 12),
        run(3, "failed", "main", Some("failure"), "completed", 10),
    ];

    assert_eq!(
        sorted_visible_run_indices(
            &runs,
            DashboardLayout::InProgress,
            RunSort::TimeDescSuccessesLast
        ),
        vec![1, 2, 0]
    );
}

#[test]
fn time_desc_sort_does_not_push_successes_last() {
    let runs = vec![
        run(
            1,
            "latest-success",
            "main",
            Some("success"),
            "completed",
            14,
        ),
        run(2, "running", "main", None, "in_progress", 12),
        run(3, "failed", "main", Some("failure"), "completed", 10),
    ];

    assert_eq!(
        sorted_visible_run_indices(&runs, DashboardLayout::InProgress, RunSort::TimeDesc),
        vec![0, 1, 2]
    );
}

#[test]
fn all_layout_sorts_by_time_desc() {
    let runs = vec![
        run(1, "old", "main", Some("success"), "completed", 10),
        run(2, "new", "main", Some("failure"), "completed", 12),
    ];

    assert_eq!(
        sorted_visible_run_indices(&runs, DashboardLayout::All, RunSort::TimeDescSuccessesLast),
        vec![1, 0]
    );
}

#[test]
fn different_branch_success_does_not_resolve_failure() {
    let runs = vec![
        run(2, "verify", "feature", Some("success"), "completed", 12),
        run(1, "verify", "main", Some("failure"), "completed", 10),
    ];

    assert!(unresolved_failure(&runs[1], &runs));
}

#[test]
fn status_predicates_follow_the_status_label() {
    let queued = run(1, "verify", "main", None, "queued", 10);
    let blank_conclusion = run(2, "verify", "main", Some("   "), "in_progress", 10);
    let cancelled = run(3, "verify", "main", Some("cancelled"), "completed", 10);
    let succeeded = run(4, "verify", "main", Some("success"), "completed", 10);
    let skipped = run(5, "verify", "main", Some("skipped"), "completed", 10);
    let mut waiting = run(6, "verify", "main", None, "waiting", 10);
    waiting.started_at = None;

    assert!(run_in_progress(&queued));
    assert!(run_in_progress(&blank_conclusion));
    assert!(!run_in_progress(&cancelled));
    assert!(run_failed(&cancelled));
    assert!(!run_failed(&succeeded));
    assert!(run_succeeded(&succeeded));
    assert!(!run_succeeded(&skipped));
    assert!(run_started(&queued));
    assert!(run_started(&cancelled));
    assert!(run_in_progress(&waiting));
    assert!(!run_started(&waiting));
}

#[test]
fn workflows_match_by_label_and_branch() {
    let a = run(1, "verify", "main", None, "queued", 10);
    let b = run(2, "verify", "feature", None, "queued", 11);
    let c = run(3, "lint", "main", None, "queued", 12);

    assert!(same_workflow(&a, &b));
    assert!(!same_workflow_branch(&a, &b));
    assert!(!same_workflow(&a, &c));
    assert!(same_workflow_branch(&a, &a));
}

#[test]
fn only_the_newest_success_of_a_workflow_is_latest() {
    let runs = vec![
        run(2, "verify", "main", Some("success"), "completed", 12),
        run(1, "verify", "main", Some("success"), "completed", 10),
    ];

    assert!(latest_workflow_success(&runs[0], &runs));
    assert!(!latest_workflow_success(&runs[1], &runs));
    assert!(run_visible_in_layout(&runs[1], &runs, DashboardLayout::All));
}

#[test]
fn all_layout_lists_every_run_newest_first() {
    let runs = vec![
        run(1, "a", "main", Some("success"), "completed", 10),
        run(2, "b", "main", Some("success"), "completed", 30),
        run(3, "c", "main", Some("skipped"), "completed", 20),
    ];

    assert_eq!(
        sorted_visible_run_indices(&runs, DashboardLayout::All, RunSort::TimeDesc),
        vec![1, 2, 0]
    );
    assert_eq!(
        sorted_visible_run_indices(&runs, DashboardLayout::InProgress, RunSort::TimeDesc),
        vec![1, 0]
    );
}
