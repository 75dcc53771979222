use git_board::app::{
    advance_tick, cursor_should_hide, handle_key, hide_cursor, login_finished, refresh_failed,
    refresh_started, refresh_succeeded, selected_run, set_error, visible_run_indices,
    ConfigDraft, Key, KeyAction, RunSort, Screen, State,
};
use git_board::columns::{Column, PrColumn};
use git_board::config::{CursorSettings, DashboardLayout, Filters, Settings, TimeSpan};
use git_board::model::{PullRequest, PullRequestAuthor, Run, Timestamp};
use git_board::panel::{Panel, PanelKind};

fn settings() -> Settings {
    Settings {
        repo: Some("owner/repo".to_string()),
        interval: TimeSpan::from_secs(15),
        limit: 20,
        layout: DashboardLayout::InProgress,
        columns: Column::default_columns(),
        pr_columns: PrColumn::default_columns(),
        filters: Filters {
            branch: None,
            workflow: None,
            status: None,
            event: None,
        },
        cursor: CursorSettings {
            auto_hide: true,
            hide_after: TimeSpan::from_secs(5),
        },
        global: true,
    }
}

fn run(id: u64, workflow: &str, conclusion: Option<&str>, status: &str, minute: i64) -> Run {
    let at = Timestamp {
        seconds: 1_780_000_000 + minute * 60,
        nanos: 0,
    };
    Run {
        attempt: None,
        conclusion: conclusion.map(ToString::to_string),
        created_at: at,
        database_id: id,
        display_title: format!("run {id}"),
        event: "push".to_string(),
        head_branch: "main".to_string(),
        head_sha: None,
        name: workflow.to_string(),
        number: None,
        failure_data: Vec::new(),
        failure_reason: None,
        pr_number: None,
        started_at: Some(at),
        status: status.to_string(),
        updated_at: at,
        url: None,
        workflow_database_id: None,
        workflow_name: workflow.to_string(),
    }
}

fn pull_request(number: u64) -> PullRequest {
    let at = Timestamp {
        seconds: 1_780_000_000,
        nanos: 0,
    };
    PullRequest {
        author: Some(PullRequestAuthor {
            login: "octocat".to_string(),
        }),
        base_ref_name: "main".to_string(),
        created_at: at,
        head_ref_name: "feature".to_string(),
        is_draft: false,
        number,
        title: "Add screen".to_string(),
        updated_at: at,
    }
}

fn loaded_state() -> State {
    let mut state = State::new("owner/repo".to_string(), settings(), None);
    refresh_succeeded(
        &mut state,
        vec![
            run(10, "lint", Some("failure"), "completed", 1),
            run(11, "verify", None, "in_progress", 3),
            run(12, "deploy", Some("success"), "completed", 5),
        ],
        vec![pull_request(42), pull_request(43)],
        Timestamp {
            seconds: 1_780_001_000,
            nanos: 0,
        },
    );
    state
}

#[test]
fn quit_keys_leave_without_a_panel() {
    let mut state = loaded_state();
    assert_eq!(handle_key(Key::Char('q'), &mut state), KeyAction::Quit);
    assert_eq!(handle_key(Key::Esc, &mut state), KeyAction::Quit);
    assert!(state.panel.is_none());
}

#[test]
fn panels_open_and_close() {
    let mut state = loaded_state();
    assert_eq!(handle_key(Key::Char('k'), &mut state), KeyAction::Nothing);
    assert_eq!(state.panel, Some(Panel::keys()));
    assert_eq!(handle_key(Key::Char('q'), &mut state), KeyAction::Nothing);
    assert!(state.panel.is_none());

    handle_key(Key::Char(' '), &mut state);
    assert_eq!(state.panel, Some(Panel::quick_look()));
    handle_key(Key::Down, &mut state);
    assert_eq!(state.quick_look_scroll, 1);
    handle_key(Key::Char(' '), &mut state);
    assert!(state.panel.is_none());
}

#[test]
fn runs_are_newest_first_with_successes_last() {
    let state = loaded_state();
    assert_eq!(visible_run_indices(&state), vec![1, 0, 2]);
    assert_eq!(selected_run(&state).map(|run| run.database_id), Some(11));
}

#[test]
fn navigation_moves_the_selection_within_the_table() {
    let mut state = loaded_state();
    assert_eq!(handle_key(Key::Down, &mut state), KeyAction::Navigated);
    assert!(state.cursor_visible);
    assert_eq!(state.selected_run, 0);
    handle_key(Key::Down, &mut state);
    handle_key(Key::Down, &mut state);
    handle_key(Key::Down, &mut state);
    assert_eq!(state.selected_run, 2);
    assert_eq!(handle_key(Key::Enter, &mut state), KeyAction::OpenRun(12));
    handle_key(Key::Up, &mut state);
    assert_eq!(state.selected_run, 1);

    assert_eq!(handle_key(Key::Tab, &mut state), KeyAction::Navigated);
    assert_eq!(state.screen, Screen::PullRequests);
    handle_key(Key::Down, &mut state);
    assert_eq!(
        handle_key(Key::Enter, &mut state),
        KeyAction::OpenPullRequest(43)
    );
}

#[test]
fn layout_and_sort_keys_cycle_and_clamp() {
    let mut state = loaded_state();
    state.cursor_visible = true;
    state.selected_run = 2;
    handle_key(Key::Char('s'), &mut state);
    assert_eq!(state.run_sort, RunSort::TimeDesc);
    assert_eq!(visible_run_indices(&state), vec![2, 1, 0]);
    handle_key(Key::Char('l'), &mut state);
    assert_eq!(state.settings.layout, DashboardLayout::All);
    handle_key(Key::Char('l'), &mut state);
    handle_key(Key::Char('s'), &mut state);
    assert_eq!(state.settings.layout, DashboardLayout::InProgress);
    assert_eq!(state.run_sort, RunSort::TimeDescSuccessesLast);
    assert!(state.selected_run < visible_run_indices(&state).len());
}

#[test]
fn refresh_and_auto_hide_keys() {
    let mut state = loaded_state();
    assert_eq!(handle_key(Key::Char('r'), &mut state), KeyAction::RefreshNow);
    state.cursor_visible = true;
    assert_eq!(handle_key(Key::Char('h'), &mut state), KeyAction::Nothing);
    assert!(!state.settings.cursor.auto_hide);
    assert_eq!(handle_key(Key::Char('h'), &mut state), KeyAction::Navigated);
    assert!(state.settings.cursor.auto_hide);
    assert!(!cursor_should_hide(&state, Some(TimeSpan::from_secs(4))));
    assert!(cursor_should_hide(&state, Some(TimeSpan::from_secs(5))));
    assert!(!cursor_should_hide(&state, None));
    hide_cursor(&mut state);
    assert!(!state.cursor_visible);
}

#[test]
fn config_panel_edits_and_accepts_a_draft() {
    let mut state = loaded_state();
    handle_key(Key::Char('c'), &mut state);
    assert_eq!(state.panel, Some(Panel::config()));
    assert_eq!(state.config_focus, 0);
    assert_eq!(handle_key(Key::Right, &mut state), KeyAction::Nothing);
    let draft: &ConfigDraft = state.config_draft.as_ref().unwrap();
    assert_eq!(draft.interval, TimeSpan::from_secs(16));

    for _ in 0..5 {
        handle_key(Key::Down, &mut state);
    }
    assert_eq!(state.config_focus, 5);
    assert_eq!(
        state.config_draft.as_ref().unwrap().columns,
        "status,title,workflow,branch,event,pr,id,elapsed,age"
    );
    assert_eq!(
        state.config_text_cursor,
        "status,title,workflow,branch,event,pr,id,elapsed,age".len()
    );
    for _ in 0..4 {
        handle_key(Key::Backspace, &mut state);
    }
    handle_key(Key::Char('x'), &mut state);
    assert_eq!(
        state.config_draft.as_ref().unwrap().columns,
        "status,title,workflow,branch,event,pr,id,elapsedx"
    );
    assert_eq!(handle_key(Key::Enter, &mut state), KeyAction::Nothing);
    assert_eq!(
        state.error.as_deref(),
        Some(
            "unknown column 'elapsedx'. Valid columns: status,title,workflow,branch,event,pr,id,elapsed,age"
        )
    );
    assert_eq!(state.panel, Some(Panel::config()));

    handle_key(Key::Backspace, &mut state);
    assert_eq!(handle_key(Key::Enter, &mut state), KeyAction::RefreshNow);
    assert!(state.panel.is_none());
    assert!(state.config_draft.is_none());
    assert_eq!(state.error, None);
    assert_eq!(state.settings.interval, TimeSpan::from_secs(16));
    assert_eq!(*state.settings.columns.last().unwrap(), Column::Elapsed);
    assert_eq!(state.settings.columns.len(), 8);
}

#[test]
fn config_panel_cancel_keeps_the_settings() {
    let mut state = loaded_state();
    handle_key(Key::Char('c'), &mut state);
    handle_key(Key::Right, &mut state);
    handle_key(Key::Esc, &mut state);
    assert!(state.panel.is_none());
    assert!(state.config_draft.is_none());
    assert_eq!(state.settings.interval, TimeSpan::from_secs(15));
}

#[test]
fn destroy_prompts_choose_what_to_close() {
    let mut state = loaded_state();
    handle_key(Key::Char('d'), &mut state);
    assert_eq!(state.panel, Some(Panel::destroy()));
    assert_eq!(state.destroy_prompt_focus, 1);
    assert_eq!(handle_key(Key::Enter, &mut state), KeyAction::Nothing);
    assert!(state.panel.is_none());

    handle_key(Key::Char('d'), &mut state);
    assert_eq!(
        handle_key(Key::Char('Y'), &mut state),
        KeyAction::DestroyRepoClients
    );
    handle_key(Key::Right, &mut state);
    handle_key(Key::Right, &mut state);
    assert_eq!(state.destroy_prompt_focus, 2);
    handle_key(Key::Enter, &mut state);
    assert_eq!(
        state.panel.map(|panel| panel.kind),
        Some(PanelKind::DestroyMassiveConfirm)
    );
    assert_eq!(state.destroy_massive_focus, 1);
    handle_key(Key::Left, &mut state);
    assert_eq!(
        handle_key(Key::Enter, &mut state),
        KeyAction::DestroyAllClients
    );
    assert_eq!(handle_key(Key::Char('n'), &mut state), KeyAction::Nothing);
    assert!(state.panel.is_none());
}

#[test]
fn failed_checks_open_the_login_prompt_once() {
    let mut state = loaded_state();
    set_error(&mut state, "HTTP 401".to_string(), false);
    assert_eq!(state.error.as_deref(), Some("HTTP 401"));
    assert_eq!(state.panel, Some(Panel::auth_login()));
    assert_eq!(handle_key(Key::Char('n'), &mut state), KeyAction::Nothing);
    assert!(state.panel.is_none());
    assert!(state.auth_prompt_dismissed);

    refresh_started(&mut state);
    assert!(state.loading);
    let now = Timestamp {
        seconds: 1_780_002_000,
        nanos: 0,
    };
    refresh_failed(&mut state, "still 401".to_string(), now, false);
    assert!(!state.loading);
    assert_eq!(state.last_check, Some(now));
    assert!(state.panel.is_none());
    assert_eq!(state.error.as_deref(), Some("still 401"));
}

#[test]
fn accepting_the_login_prompt_asks_for_a_login() {
    let mut state = loaded_state();
    set_error(&mut state, "HTTP 401".to_string(), false);
    handle_key(Key::Enter, &mut state);
    assert!(state.auth_login_requested);
    assert!(state.panel.is_none());

    assert!(!login_finished(&mut state, Some("login failed".to_string()), true));
    assert!(!state.auth_login_requested);
    assert_eq!(state.error.as_deref(), Some("login failed"));
    assert!(login_finished(&mut state, None, true));
    assert_eq!(state.error, None);
    assert!(!state.auth_prompt_dismissed);
}

#[test]
fn authenticated_errors_open_no_prompt() {
    let mut state = loaded_state();
    set_error(&mut state, "network".to_string(), true);
    assert!(state.panel.is_none());
    assert_eq!(state.error.as_deref(), Some("network"));
}

#[test]
fn the_spinner_wraps() {
    let mut state = loaded_state();
    state.tick = u64::MAX;
    advance_tick(&mut state);
    assert_eq!(state.tick, 0);
    advance_tick(&mut state);
    assert_eq!(state.tick, 1);
}

#[test]
fn refreshes_bring_the_selection_back_into_the_table() {
    let mut state = loaded_state();
    state.selected_run = 2;
    state.selected_pr = 1;
    refresh_succeeded(
        &mut state,
        vec![run(20, "verify", None, "queued", 9)],
        Vec::new(),
        Timestamp {
            seconds: 1_780_003_000,
            nanos: 0,
        },
    );
    assert_eq!(state.selected_run, 0);
    assert_eq!(state.selected_pr, 0);
    assert!(!state.loading);
}

#[test]
fn typing_then_deleting_gives_the_draft_back() {
    let mut state = loaded_state();
    handle_key(Key::Char('c'), &mut state);
    for _ in 0..6 {
        handle_key(Key::Down, &mut state);
    }
    assert_eq!(state.config_focus, 6);
    handle_key(Key::Left, &mut state);
    handle_key(Key::Left, &mut state);
    let before = state.config_draft.clone().unwrap();
    let cursor = state.config_text_cursor;
    handle_key(Key::Char('é'), &mut state);
    assert_eq!(state.config_text_cursor, cursor + 1);
    assert_ne!(state.config_draft.as_ref().unwrap().pr_columns, before.pr_columns);
    handle_key(Key::Backspace, &mut state);
    assert_eq!(state.config_text_cursor, cursor);
    assert_eq!(state.config_draft.as_ref().unwrap().pr_columns, before.pr_columns);
    assert_eq!(state.config_draft.as_ref().unwrap().columns, before.columns);
}

#[test]
fn keys_outside_the_config_panel_keep_the_error() {
    let mut state = loaded_state();
    set_error(&mut state, "network".to_string(), true);
    for key in [
        Key::Down,
        Key::Tab,
        Key::Char('l'),
        Key::Char('s'),
        Key::Char('k'),
        Key::Down,
        Key::Esc,
        Key::Char('d'),
        Key::Right,
        Key::Char('n'),
        Key::Char('h'),
    ] {
        handle_key(key, &mut state);
        assert_eq!(state.error.as_deref(), Some("network"));
    }
}
