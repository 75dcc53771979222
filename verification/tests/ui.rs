use git_board::app::{handle_key, Key, RunSort, Screen, State};
use git_board::cache::GlobalCacheStatus;
use git_board::columns::{Column, PrColumn};
use git_board::config::{CursorSettings, DashboardLayout, Filters, Settings, TimeSpan};
use git_board::model::{PullRequest, PullRequestAuthor, Run, Timestamp};
use git_board::panel::{ConfigRow, PanelKind};
use git_board::ui::{
    config_panel_scroll, config_value, destroy_massive_description, destroy_option_description,
    header_fits, panel_scroll,
    footer_hint, number_text, panel_footer_hint, pr_status_mark, pull_request_cell_text,
    pull_request_details, refresh_indicator, run_cell_text, run_details, sort_description,
    status_mark, text_field_parts, title_text, truncate_owned, StatusTone,
};

fn settings() -> Settings {
    Settings {
        repo: None,
        interval: TimeSpan::from_secs(90),
        limit: 20,
        layout: DashboardLayout::All,
        columns: vec![Column::Status, Column::Id],
        pr_columns: vec![PrColumn::Number],
        filters: Filters {
            branch: None,
            workflow: None,
            status: None,
            event: None,
        },
        cursor: CursorSettings {
            auto_hide: false,
            hide_after: TimeSpan::from_secs(5),
        },
        global: true,
    }
}

fn run(conclusion: Option<&str>, status: &str) -> Run {
    let at = Timestamp {
        seconds: 1_000,
        nanos: 0,
    };
    Run {
        attempt: None,
        conclusion: conclusion.map(ToString::to_string),
        created_at: at,
        database_id: 987,
        display_title: "a".repeat(60),
        event: "pull_request".to_string(),
        head_branch: "feature/x".to_string(),
        head_sha: None,
        name: "CI".to_string(),
        number: None,
        failure_data: Vec::new(),
        failure_reason: None,
        pr_number: Some(330),
        started_at: Some(Timestamp {
            seconds: 1_010,
            nanos: 0,
        }),
        status: status.to_string(),
        updated_at: Timestamp {
            seconds: 1_100,
            nanos: 0,
        },
        url: None,
        workflow_database_id: None,
        workflow_name: String::new(),
    }
}

#[test]
fn truncates_with_an_ellipsis() {
    assert_eq!(truncate_owned("abcdef", 4), "abc…");
    assert_eq!(truncate_owned("abcd", 4), "abcd");
    assert_eq!(truncate_owned("abcdef", 1), "a");
    assert_eq!(truncate_owned("héllo wörld", 20), "héllo wörld");
}

#[test]
fn run_cells_show_their_texts() {
    let now = Timestamp {
        seconds: 1_000 + 3 * 3600,
        nanos: 0,
    };
    let completed = run(Some("success"), "completed");
    assert_eq!(run_cell_text(Column::Status, &completed, now), "✓");
    assert_eq!(
        run_cell_text(Column::Title, &completed, now),
        format!("{}…", "a".repeat(47))
    );
    assert_eq!(run_cell_text(Column::Workflow, &completed, now), "CI");
    assert_eq!(run_cell_text(Column::Branch, &completed, now), "feature/x");
    assert_eq!(run_cell_text(Column::Event, &completed, now), "pull_request");
    assert_eq!(run_cell_text(Column::PullRequest, &completed, now), "#330");
    assert_eq!(run_cell_text(Column::Id, &completed, now), "987");
    assert_eq!(run_cell_text(Column::Elapsed, &completed, now), "1m30s");
    assert_eq!(run_cell_text(Column::Age, &completed, now), "about 3 hours ago");

    let running = run(None, "in_progress");
    assert_eq!(run_cell_text(Column::Status, &running, now), "*");
    assert_eq!(run_cell_text(Column::Elapsed, &running, now), "2h59m");
}

#[test]
fn status_marks_follow_the_label() {
    assert_eq!(
        status_mark(&run(Some("success"), "completed")),
        ("✓", StatusTone::Success)
    );
    assert_eq!(
        status_mark(&run(Some("timed_out"), "completed")),
        ("✗", StatusTone::Failure)
    );
    assert_eq!(
        status_mark(&run(None, "waiting")),
        ("*", StatusTone::Active)
    );
    assert_eq!(
        status_mark(&run(Some("neutral"), "completed")),
        ("-", StatusTone::Muted)
    );
    assert_eq!(
        status_mark(&run(Some("mystery"), "completed")),
        ("?", StatusTone::Unknown)
    );
    assert_eq!(
        status_mark(&run(Some("mystery"), "running")),
        ("*", StatusTone::Active)
    );
}

#[test]
fn pull_request_cells_show_their_texts() {
    let at = Timestamp {
        seconds: 0,
        nanos: 0,
    };
    let mut pr = PullRequest {
        author: None,
        base_ref_name: "main".to_string(),
        created_at: at,
        head_ref_name: "feature".to_string(),
        is_draft: true,
        number: 42,
        title: "Add screen".to_string(),
        updated_at: Timestamp {
            seconds: 100,
            nanos: 0,
        },
    };
    let now = Timestamp {
        seconds: 130,
        nanos: 0,
    };
    assert_eq!(pull_request_cell_text(PrColumn::Status, &pr, now), "D");
    assert_eq!(pr_status_mark(&pr), ("D", StatusTone::Active));
    assert_eq!(pull_request_cell_text(PrColumn::Author, &pr, now), "unknown");
    assert_eq!(pull_request_cell_text(PrColumn::Number, &pr, now), "#42");
    assert_eq!(
        pull_request_cell_text(PrColumn::Age, &pr, now),
        "about 2 minutes ago"
    );
    assert_eq!(
        pull_request_cell_text(PrColumn::Updated, &pr, now),
        "less than a minute ago"
    );
    pr.is_draft = false;
    pr.author = Some(PullRequestAuthor {
        login: "octocat".to_string(),
    });
    assert_eq!(pull_request_cell_text(PrColumn::Status, &pr, now), "O");
    assert_eq!(pull_request_cell_text(PrColumn::Author, &pr, now), "octocat");
    assert_eq!(pull_request_cell_text(PrColumn::Base, &pr, now), "main");
    assert_eq!(number_text(None), "");
}

#[test]
fn titles_carry_the_client_mark() {
    assert_eq!(title_text("=== GitHub Actions ===", false, None), "=== GitHub Actions === 🐺");
    assert_eq!(title_text("T", true, None), "T");
    assert_eq!(
        title_text(
            "T",
            true,
            Some(GlobalCacheStatus {
                is_owner: true,
                client_count: 1,
                cache_age: None
            })
        ),
        "T 🐓 [1 client]"
    );
    assert_eq!(
        title_text(
            "T",
            true,
            Some(GlobalCacheStatus {
                is_owner: false,
                client_count: 3,
                cache_age: Some(TimeSpan::from_secs(100))
            })
        ),
        "T 🐥 [3 clients]"
    );
}

#[test]
fn config_values_come_from_the_draft_when_open() {
    let mut state = State::new("o/r".to_string(), settings(), None);
    assert_eq!(config_value(ConfigRow::Interval, &state), "1m 30s");
    assert_eq!(config_value(ConfigRow::Layout, &state), "all");
    assert_eq!(config_value(ConfigRow::Limit, &state), "20");
    assert_eq!(
        config_value(ConfigRow::CursorAutoHide, &state),
        "auto-hide disabled"
    );
    assert_eq!(config_value(ConfigRow::CursorHideAfter, &state), "5s");
    assert_eq!(config_value(ConfigRow::Columns, &state), "status,id");
    assert_eq!(config_value(ConfigRow::PrColumns, &state), "number");

    handle_key(Key::Char('c'), &mut state);
    handle_key(Key::Left, &mut state);
    assert_eq!(config_value(ConfigRow::Interval, &state), "1m 29s");
    assert_eq!(state.settings.interval, TimeSpan::from_secs(90));
}

#[test]
fn text_fields_show_the_cursor() {
    let (before, under, after) = text_field_parts("status,id", 6);
    assert_eq!(before, "status");
    assert_eq!(under, ',');
    assert_eq!(after, format!("id{}", " ".repeat(33)));

    let (before, under, after) = text_field_parts("abc", 10);
    assert_eq!(before, "abc");
    assert_eq!(under, ' ');
    assert_eq!(after, " ".repeat(38));

    let long = "x".repeat(50);
    let (before, under, after) = text_field_parts(&long, 50);
    assert_eq!(before, "x".repeat(41));
    assert_eq!(under, ' ');
    assert_eq!(after, "");
}

#[test]
fn spinner_and_descriptions() {
    let mut state = State::new("o/r".to_string(), settings(), None);
    assert_eq!(refresh_indicator(&state), " ");
    state.loading = true;
    state.tick = 5;
    assert_eq!(refresh_indicator(&state), "/");
    state.tick = 7;
    assert_eq!(refresh_indicator(&state), "\\");
    assert_eq!(sort_description(RunSort::TimeDesc), "time desc");
    assert_eq!(destroy_option_description(1), "Do nothing and close this panel.");
    assert_eq!(
        destroy_option_description(9),
        "Open an additional confirmation before closing every git-board client."
    );
    assert_eq!(
        destroy_massive_description(0),
        "Close every registered git-board client across all repositories."
    );
    assert!(footer_hint(Screen::PullRequests).contains("open PR"));
    assert!(panel_footer_hint(PanelKind::Config).contains("accept"));
}

#[test]
fn config_scroll_keeps_the_focus_in_view() {
    let mut state = State::new("o/r".to_string(), settings(), None);
    state.config_focus = 6;
    assert_eq!(config_panel_scroll(&state, 4, 10), 3);
    assert_eq!(config_panel_scroll(&state, 4, 2), 2);
    assert_eq!(config_panel_scroll(&state, 0, 10), 0);
    assert_eq!(config_panel_scroll(&state, 10, 10), 0);
}

fn pairs(list: &[(&str, &str)]) -> Vec<(String, String)> {
    list.iter()
        .map(|(label, value)| (label.to_string(), value.to_string()))
        .collect()
}

#[test]
fn quick_look_lists_a_runs_fields() {
    let now = Timestamp {
        seconds: 1_000 + 120,
        nanos: 0,
    };
    let mut failed = run(Some("failure"), "completed");
    failed.failure_reason = Some("step test failed".to_string());
    failed.failure_data = vec!["job build".to_string(), "exit 1".to_string()];
    let title = "a".repeat(60);
    assert_eq!(
        run_details(&failed, now),
        pairs(&[
            ("status", "failure"),
            ("conclusion", "failure"),
            ("title", &title),
            ("workflow", "CI"),
            ("branch", "feature/x"),
            ("event", "pull_request"),
            ("pr", "#330"),
            ("id", "987"),
            ("created", "1970-01-01T00:16:40+00:00"),
            ("started", "1970-01-01T00:16:50+00:00"),
            ("updated", "1970-01-01T00:18:20+00:00"),
            ("elapsed", "1m30s"),
            ("age", "about 2 minutes ago"),
            ("failure", "step test failed"),
            ("", "job build"),
            ("", "exit 1"),
        ])
    );

    let mut waiting = run(None, "queued");
    waiting.started_at = None;
    waiting.failure_data = vec!["ignored".to_string()];
    let details = run_details(&waiting, now);
    assert_eq!(details.len(), 13);
    assert_eq!(details[1], ("conclusion".to_string(), String::new()));
    assert_eq!(details[9], ("started".to_string(), String::new()));
    assert_eq!(details[11], ("elapsed".to_string(), "-".to_string()));
}

#[test]
fn quick_look_lists_a_pull_requests_fields() {
    let pr = PullRequest {
        author: Some(PullRequestAuthor {
            login: "octocat".to_string(),
        }),
        base_ref_name: "main".to_string(),
        created_at: Timestamp {
            seconds: 0,
            nanos: 500_000_000,
        },
        head_ref_name: "feature".to_string(),
        is_draft: false,
        number: 42,
        title: "Add screen".to_string(),
        updated_at: Timestamp {
            seconds: 86_400,
            nanos: 0,
        },
    };
    let now = Timestamp {
        seconds: 3 * 86_400,
        nanos: 0,
    };
    assert_eq!(
        pull_request_details(&pr, now),
        pairs(&[
            ("status", "open"),
            ("draft", "no"),
            ("title", "Add screen"),
            ("author", "octocat"),
            ("branch", "feature"),
            ("base", "main"),
            ("number", "#42"),
            ("created", "1970-01-01T00:00:00.500+00:00"),
            ("updated", "1970-01-02T00:00:00+00:00"),
            ("age", "about 2 days ago"),
        ])
    );
}

#[test]
fn the_header_fits_when_its_parts_do() {
    assert!(header_fits("ab", "", "cd", "|", 9));
    assert!(!header_fits("ab", "", "cd", "|", 8));
    assert!(header_fits("é", " x", "", "", 7));
}

#[test]
fn panels_scroll_within_their_lines() {
    let mut state = State::new("o/r".to_string(), settings(), None);
    state.quick_look_scroll = 9;
    state.keys_scroll = 2;
    assert_eq!(panel_scroll(&mut state, PanelKind::QuickLook, 5, 4), 4);
    assert_eq!(state.quick_look_scroll, 4);
    assert_eq!(panel_scroll(&mut state, PanelKind::Keys, 5, 4), 2);
    assert_eq!(state.keys_scroll, 2);
    assert_eq!(panel_scroll(&mut state, PanelKind::Destroy, 5, 4), 0);
    state.config_focus = 6;
    assert_eq!(panel_scroll(&mut state, PanelKind::Config, 4, 10), 3);
    assert_eq!(state.quick_look_scroll, 4);
}
