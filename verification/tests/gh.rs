use git_board::config::{CursorSettings, DashboardLayout, Filters, Settings, TimeSpan};
use git_board::gh::{
    needs_run_pull_requests, open_pull_request, open_run, populate_run_pr_numbers,
    pr_list_args, repo_from_view, resolve_repo, run_list_args, run_pr_list_args, CommandRunner,
    RunPullRequest, JSON_FIELDS, PR_JSON_FIELDS, REPO_INFER_ERROR, REPO_PARSE_ERROR,
    RUN_PR_JSON_FIELDS,
};
use git_board::model::{Run, Timestamp};
use std::cell::RefCell;

struct FakeRunner {
    calls: RefCell<Vec<(String, Vec<String>)>>,
    outputs: RefCell<Vec<Result<String, String>>>,
}

impl FakeRunner {
    fn new(outputs: Vec<Result<&str, &str>>) -> Self {
        Self {
            calls: RefCell::new(Vec::new()),
            outputs: RefCell::new(
                outputs
                    .into_iter()
                    .rev()
                    .map(|out| out.map(ToString::to_string).map_err(ToString::to_string))
                    .collect(),
            ),
        }
    }
}

impl CommandRunner for FakeRunner {
    fn run(&self, program: &str, args: &[String]) -> Result<String, String> {
        self.calls
            .borrow_mut()
            .push((program.to_string(), args.to_vec()));
        self.outputs
            .borrow_mut()
            .pop()
            .unwrap_or_else(|| Err("fake runner had no output".to_string()))
    }
}

fn settings(repo: Option<&str>) -> Settings {
    Settings {
        repo: repo.map(ToString::to_string),
        interval: TimeSpan::from_secs(15),
        limit: 20,
        layout: DashboardLayout::InProgress,
        columns: Vec::new(),
        pr_columns: Vec::new(),
        filters: Filters {
            branch: None,
            workflow: None,
            status: None,
            event: None,
        },
        cursor: CursorSettings {
            auto_hide: true,
            hide_after: TimeSpan::from_secs(5),
        },
        global: false,
    }
}

fn pr_run(id: u64, event: &str, branch: &str, pr_number: Option<u64>) -> Run {
    let at = Timestamp {
        seconds: 1_780_000_000,
        nanos: 0,
    };
    Run {
        attempt: None,
        conclusion: None,
        created_at: at,
        database_id: id,
        display_title: "feat: dashboard".to_string(),
        event: event.to_string(),
        head_branch: branch.to_string(),
        head_sha: Some("abc".to_string()),
        name: "verify".to_string(),
        number: Some(1),
        failure_data: Vec::new(),
        failure_reason: None,
        pr_number,
        started_at: Some(at),
        status: "in_progress".to_string(),
        updated_at: at,
        url: None,
        workflow_database_id: Some(456),
        workflow_name: "verify".to_string(),
    }
}

#[test]
fn builds_run_list_args_with_filters() {
    let args = run_list_args(
        "owner/repo",
        30,
        &Filters {
            branch: Some("main".to_string()),
            workflow: Some("verify".to_string()),
            status: Some("success".to_string()),
            event: None,
        },
    );

    assert!(args.windows(2).any(|pair| pair == ["--repo", "owner/repo"]));
    assert!(args.windows(2).any(|pair| pair == ["--limit", "30"]));
    assert!(args.windows(2).any(|pair| pair == ["--branch", "main"]));
    assert!(args.windows(2).any(|pair| pair == ["--workflow", "verify"]));
    assert!(args.windows(2).any(|pair| pair == ["--status", "success"]));
}

#[test]
fn builds_pr_list_args_for_open_prs() {
    let args = pr_list_args("owner/repo", 25);

    assert!(args.windows(2).any(|pair| pair == ["--repo", "owner/repo"]));
    assert!(args.windows(2).any(|pair| pair == ["--state", "open"]));
    assert!(args
        .windows(2)
        .any(|pair| pair == ["--search", "sort:updated-desc"]));
    assert!(args.windows(2).any(|pair| pair == ["--limit", "25"]));
}

#[test]
fn run_list_args_are_exact() {
    let args = run_list_args(
        "o/r",
        7,
        &Filters {
            branch: None,
            workflow: None,
            status: None,
            event: Some("pull_request".to_string()),
        },
    );
    assert_eq!(
        args,
        vec![
            "run",
            "list",
            "--repo",
            "o/r",
            "--limit",
            "7",
            "--json",
            JSON_FIELDS,
            "--event",
            "pull_request"
        ]
    );
    assert_eq!(
        pr_list_args("o/r", 3),
        vec![
            "pr",
            "list",
            "--repo",
            "o/r",
            "--state",
            "open",
            "--search",
            "sort:updated-desc",
            "--limit",
            "3",
            "--json",
            PR_JSON_FIELDS
        ]
    );
}

#[test]
fn run_pull_request_lookup_asks_for_at_least_a_hundred() {
    let args = run_pr_list_args("owner/repo", 1);
    assert!(args.windows(2).any(|pair| pair == ["pr", "list"]));
    assert!(args.windows(2).any(|pair| pair == ["--state", "all"]));
    assert!(args.windows(2).any(|pair| pair == ["--limit", "100"]));
    assert!(args
        .windows(2)
        .any(|pair| pair == ["--json", RUN_PR_JSON_FIELDS]));
    let many = run_pr_list_args("owner/repo", 250);
    assert!(many.windows(2).any(|pair| pair == ["--limit", "250"]));
}

#[test]
fn populates_pr_numbers_for_pr_events() {
    let mut runs = vec![
        pr_run(123, "pull_request", "feature", None),
        pr_run(124, "push", "feature", None),
        pr_run(125, "pull_request_target", "other", None),
        pr_run(126, "pull_request", "feature", Some(7)),
    ];
    assert!(needs_run_pull_requests(&runs));
    let prs = vec![
        RunPullRequest {
            head_ref_name: "feature".to_string(),
            number: 330,
        },
        RunPullRequest {
            head_ref_name: "feature".to_string(),
            number: 329,
        },
    ];

    populate_run_pr_numbers(&mut runs, &prs);

    assert_eq!(runs[0].pr_number, Some(330));
    assert_eq!(runs[1].pr_number, None);
    assert_eq!(runs[2].pr_number, None);
    assert_eq!(runs[3].pr_number, Some(7));
}

#[test]
fn push_runs_need_no_pull_request_lookup() {
    let runs = vec![pr_run(1, "push", "main", None), pr_run(2, "schedule", "main", None)];
    assert!(!needs_run_pull_requests(&runs));
    assert!(!needs_run_pull_requests(&Vec::new()));
}

#[test]
fn opens_runs_and_pull_requests_through_gh() {
    let runner = FakeRunner::new(vec![Ok(""), Err("gh exited with status 1")]);

    assert_eq!(open_run("owner/repo", 42, &runner), Ok(()));
    assert_eq!(
        open_pull_request("owner/repo", 7, &runner),
        Err("gh exited with status 1".to_string())
    );

    let calls = runner.calls.borrow();
    assert_eq!(calls[0].0, "gh");
    assert_eq!(
        calls[0].1,
        vec!["run", "view", "42", "--repo", "owner/repo", "--web"]
    );
    assert_eq!(
        calls[1].1,
        vec!["pr", "view", "7", "--repo", "owner/repo", "--web"]
    );
}

#[test]
fn resolves_the_configured_repo_without_gh() {
    let runner = FakeRunner::new(vec![]);
    assert_eq!(
        resolve_repo(&settings(Some("owner/repo")), &runner),
        Ok("owner/repo".to_string())
    );
    assert!(runner.calls.borrow().is_empty());
}

#[test]
fn resolves_the_repo_from_gh_repo_view() {
    let runner = FakeRunner::new(vec![Ok(r#"{"nameWithOwner":"octo/cat"}"#)]);
    assert_eq!(
        resolve_repo(&settings(None), &runner),
        Ok("octo/cat".to_string())
    );
    assert_eq!(
        runner.calls.borrow()[0].1,
        vec!["repo", "view", "--json", "nameWithOwner"]
    );
}

#[test]
fn refuses_unreadable_or_blank_repo_views() {
    assert_eq!(
        repo_from_view(Ok("not json".to_string())),
        Err(REPO_PARSE_ERROR.to_string())
    );
    assert_eq!(
        repo_from_view(Ok(r#"{"nameWithOwner":"  "}"#.to_string())),
        Err(REPO_INFER_ERROR.to_string())
    );
    assert_eq!(
        repo_from_view(Err("no repo".to_string())),
        Err(format!("{REPO_INFER_ERROR}: no repo"))
    );
}
