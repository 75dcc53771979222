//! The dashboard's state and how each key press changes it.

use vstd::prelude::*;
use vstd::string::*;
use crate::cache::GlobalCacheStatus;
use crate::columns::{
    column_fault_message, column_list, columns_csv, parse_columns_csv, parse_pr_columns_csv,
    pr_column_list, pr_columns_csv, Column, PrColumn,
};
use crate::config::{CursorSettings, DashboardLayout, Settings, SettingsView, TimeSpan};
use crate::model::{PullRequest, Run, Timestamp};
use crate::panel::{ConfigRow, Panel, PanelKind};
use crate::runs::{lemma_prefix_len, sorted_visible_run_indices, spec_sorted_visible};
use crate::text::{is_control, is_control_char, join_with, split_on};

verus! {

/// The screen the dashboard shows.
#[derive(Debug, Clone, Copy, PartialEq, Eq, Structural)]
pub enum Screen {
    Runs,
    PullRequests,
}

/// The order of the runs table.
#[derive(Debug, Clone, Copy, PartialEq, Eq, Structural)]
pub enum RunSort {
    /// Newest first, with successful runs after the others in the
    /// in-progress layout.
    TimeDescSuccessesLast,
    /// Newest first.
    TimeDesc,
}

impl RunSort {
    /// The order that follows `self` when the order is cycled.
    pub open spec fn spec_next(self) -> RunSort {
        match self {
            RunSort::TimeDescSuccessesLast => RunSort::TimeDesc,
            RunSort::TimeDesc => RunSort::TimeDescSuccessesLast,
        }
    }

    /// The order that follows `self` when the order is cycled.
    pub fn next(self) -> (r: RunSort)
        ensures
            r == self.spec_next(),
    {
        match self {
            RunSort::TimeDescSuccessesLast => RunSort::TimeDesc,
            RunSort::TimeDesc => RunSort::TimeDescSuccessesLast,
        }
    }

    /// The description of the order.
    pub open spec fn spec_label(self) -> Seq<char> {
        match self {
            RunSort::TimeDescSuccessesLast => "time desc, successes last"@,
            RunSort::TimeDesc => "time desc"@,
        }
    }

    /// The description of the order.
    pub fn label(self) -> (r: &'static str)
        ensures
            r@ == self.spec_label(),
    {
        match self {
            RunSort::TimeDescSuccessesLast => "time desc, successes last",
            RunSort::TimeDesc => "time desc",
        }
    }
}

/// The settings being edited in the config panel.
#[derive(Debug, Clone)]
pub struct ConfigDraft {
    pub layout: DashboardLayout,
    pub interval: TimeSpan,
    pub limit: usize,
    pub columns: String,
    pub pr_columns: String,
    pub cursor: CursorSettings,
}

/// A draft with its texts as sequences of characters.
pub struct DraftView {
    pub layout: DashboardLayout,
    pub interval: TimeSpan,
    pub limit: usize,
    pub columns: Seq<char>,
    pub pr_columns: Seq<char>,
    pub cursor: CursorSettings,
}

impl View for ConfigDraft {
    type V = DraftView;

    open spec fn view(&self) -> DraftView {
        DraftView {
            layout: self.layout,
            interval: self.interval,
            limit: self.limit,
            columns: self.columns@,
            pr_columns: self.pr_columns@,
            cursor: self.cursor,
        }
    }
}

/// A key press, as the dashboard tells keys apart.
#[derive(Debug, Clone, Copy, PartialEq, Eq, Structural)]
pub enum Key {
    Char(char),
    Esc,
    Tab,
    Up,
    Down,
    Left,
    Right,
    Enter,
    Backspace,
    Other,
}

/// What the caller does after a key press.
#[derive(Debug, Clone, Copy, PartialEq, Eq, Structural)]
pub enum KeyAction {
    /// Nothing more.
    Nothing,
    /// Leave the dashboard.
    Quit,
    /// Note the time of navigation, for the cursor auto-hide.
    Navigated,
    /// Refresh now.
    RefreshNow,
    /// Open the run with this id in the browser.
    OpenRun(u64),
    /// Open the pull request with this number in the browser.
    OpenPullRequest(u64),
    /// Close every client of this repository; leave when that succeeds.
    DestroyRepoClients,
    /// Close every client of every repository; leave when that succeeds.
    DestroyAllClients,
}

/// The dashboard's state.
#[derive(Debug)]
pub struct State {
    pub repo: String,
    pub screen: Screen,
    pub runs: Vec<Run>,
    pub pull_requests: Vec<PullRequest>,
    pub selected_run: usize,
    pub selected_pr: usize,
    pub runs_scroll: usize,
    pub prs_scroll: usize,
    pub cursor_visible: bool,
    pub last_check: Option<Timestamp>,
    pub loading: bool,
    pub tick: u64,
    pub error: Option<String>,
    pub panel: Option<Panel>,
    pub auth_prompt_focus: usize,
    pub auth_prompt_dismissed: bool,
    pub auth_login_requested: bool,
    pub destroy_prompt_focus: usize,
    pub destroy_massive_focus: usize,
    pub config_draft: Option<ConfigDraft>,
    pub config_focus: usize,
    pub config_text_cursor: usize,
    pub quick_look_scroll: usize,
    pub keys_scroll: usize,
    pub run_sort: RunSort,
    pub settings: Settings,
    pub global_cache_status: Option<GlobalCacheStatus>,
}

/// The state with its texts as sequences of characters.
pub struct StateView {
    pub repo: Seq<char>,
    pub screen: Screen,
    pub runs: Seq<Run>,
    pub pull_requests: Seq<PullRequest>,
    pub selected_run: usize,
    pub selected_pr: usize,
    pub runs_scroll: usize,
    pub prs_scroll: usize,
    pub cursor_visible: bool,
    pub last_check: Option<Timestamp>,
    pub loading: bool,
    pub tick: u64,
    pub error: Option<Seq<char>>,
    pub panel: Option<Panel>,
    pub auth_prompt_focus: usize,
    pub auth_prompt_dismissed: bool,
    pub auth_login_requested: bool,
    pub destroy_prompt_focus: usize,
    pub destroy_massive_focus: usize,
    pub config_draft: Option<DraftView>,
    pub config_focus: usize,
    pub config_text_cursor: usize,
    pub quick_look_scroll: usize,
    pub keys_scroll: usize,
    pub run_sort: RunSort,
    pub settings: SettingsView,
    pub global_cache_status: Option<GlobalCacheStatus>,
}

/// The view of an optional draft.
pub open spec fn draft_view(d: Option<ConfigDraft>) -> Option<DraftView> {
    match d {
        Some(d) => Some(d@),
        None => None,
    }
}

/// The text of an optional string.
pub open spec fn error_view(e: Option<String>) -> Option<Seq<char>> {
    match e {
        Some(e) => Some(e@),
        None => None,
    }
}

impl View for State {
    type V = StateView;

    open spec fn view(&self) -> StateView {
        StateView {
            repo: self.repo@,
            screen: self.screen,
            runs: self.runs@,
            pull_requests: self.pull_requests@,
            selected_run: self.selected_run,
            selected_pr: self.selected_pr,
            runs_scroll: self.runs_scroll,
            prs_scroll: self.prs_scroll,
            cursor_visible: self.cursor_visible,
            last_check: self.last_check,
            loading: self.loading,
            tick: self.tick,
            error: error_view(self.error),
            panel: self.panel,
            auth_prompt_focus: self.auth_prompt_focus,
            auth_prompt_dismissed: self.auth_prompt_dismissed,
            auth_login_requested: self.auth_login_requested,
            destroy_prompt_focus: self.destroy_prompt_focus,
            destroy_massive_focus: self.destroy_massive_focus,
            config_draft: draft_view(self.config_draft),
            config_focus: self.config_focus,
            config_text_cursor: self.config_text_cursor,
            quick_look_scroll: self.quick_look_scroll,
            keys_scroll: self.keys_scroll,
            run_sort: self.run_sort,
            settings: self.settings@,
            global_cache_status: self.global_cache_status,
        }
    }
}

/// `x` less one, but not below zero.
pub open spec fn dec(x: usize) -> usize {
    if x > 0 {
        (x - 1) as usize
    } else {
        0
    }
}

/// `x` plus one, but not past the largest `usize`.
pub open spec fn inc(x: usize) -> usize {
    if x < usize::MAX {
        (x + 1) as usize
    } else {
        x
    }
}

/// `v` brought into `[lo, hi]`.
pub open spec fn clamp_int(v: int, lo: int, hi: int) -> int {
    if v < lo {
        lo
    } else if v > hi {
        hi
    } else {
        v
    }
}

/// The number of runs the table shows.
pub open spec fn visible_len(s: StateView) -> nat {
    spec_sorted_visible(s.runs, s.settings.layout, s.run_sort).len()
}

/// The state with both selections and scroll offsets brought within their
/// tables.
pub open spec fn clamp_view(s: StateView) -> StateView {
    let n = visible_len(s);
    let m = s.pull_requests.len();
    StateView {
        selected_run: if n == 0 {
            0
        } else if s.selected_run >= n {
            (n - 1) as usize
        } else {
            s.selected_run
        },
        runs_scroll: if n == 0 {
            0
        } else {
            clamp_int(s.runs_scroll as int, 0, n - 1) as usize
        },
        selected_pr: if m == 0 {
            0
        } else if s.selected_pr >= m {
            (m - 1) as usize
        } else {
            s.selected_pr
        },
        prs_scroll: if m == 0 {
            0
        } else {
            clamp_int(s.prs_scroll as int, 0, m - 1) as usize
        },
        ..s
    }
}

/// The text of the draft that the focused row edits: the columns, the pull
/// request columns, or nothing.
pub open spec fn draft_text(d: DraftView, focus: int) -> Seq<char> {
    match ConfigRow::spec_from_index(focus) {
        ConfigRow::Columns => d.columns,
        ConfigRow::PrColumns => d.pr_columns,
        _ => seq![],
    }
}

/// The length of the text that the focused row edits, zero without a draft.
pub open spec fn focused_text_len(s: StateView) -> nat {
    match s.config_draft {
        Some(d) => draft_text(d, s.config_focus as int).len(),
        None => 0,
    }
}

/// The draft that the config panel starts from.
pub open spec fn draft_of(settings: SettingsView) -> DraftView {
    DraftView {
        layout: settings.layout,
        interval: settings.interval,
        limit: settings.limit,
        columns: columns_csv(settings.columns),
        pr_columns: pr_columns_csv(settings.pr_columns),
        cursor: settings.cursor,
    }
}

/// `value` stepped by one in `direction` (down when negative), without
/// wrapping, then brought into `[min, max]`.
pub open spec fn adjusted(value: int, direction: i32, min: int, max: int, top: int) -> int {
    let next = if direction < 0 {
        if value > 0 {
            value - 1
        } else {
            0
        }
    } else {
        if value < top {
            value + 1
        } else {
            top
        }
    };
    clamp_int(next, min, max)
}

/// The draft after the focused row is stepped in `direction`.
pub open spec fn edited_draft(d: DraftView, row: ConfigRow, direction: i32) -> DraftView {
    match row {
        ConfigRow::Interval => DraftView {
            interval: TimeSpan {
                secs: adjusted(d.interval.secs as int, direction, 5, 3600, u64::MAX as int) as u64,
                nanos: 0,
            },
            ..d
        },
        ConfigRow::Layout => DraftView { layout: d.layout.spec_next(), ..d },
        ConfigRow::Limit => DraftView {
            limit: adjusted(d.limit as int, direction, 1, 200, usize::MAX as int) as usize,
            ..d
        },
        ConfigRow::CursorAutoHide => DraftView {
            cursor: CursorSettings { auto_hide: !d.cursor.auto_hide, ..d.cursor },
            ..d
        },
        ConfigRow::CursorHideAfter => DraftView {
            cursor: CursorSettings {
                hide_after: TimeSpan {
                    secs: adjusted(d.cursor.hide_after.secs as int, direction, 1, 300, u64::MAX as int) as u64,
                    nanos: 0,
                },
                ..d.cursor
            },
            ..d
        },
        _ => d,
    }
}

/// The state after the focused config row is stepped in `direction`.
pub open spec fn edit_row_view(s: StateView, direction: i32) -> StateView {
    let row = ConfigRow::spec_from_index(s.config_focus as int);
    match s.config_draft {
        None => s,
        Some(d) => StateView {
            config_draft: Some(edited_draft(d, row, direction)),
            error: if row.spec_is_text_field() {
                None
            } else {
                s.error
            },
            ..s
        },
    }
}

/// The text cursor moved onto the end of the focused text, when the focused
/// row is a text row.
pub open spec fn sync_cursor_view(s: StateView) -> StateView {
    if ConfigRow::spec_from_index(s.config_focus as int).spec_is_text_field() {
        StateView { config_text_cursor: focused_text_len(s) as usize, ..s }
    } else {
        s
    }
}

/// `value` with `ch` inserted at character `index`, or appended when the
/// index is past the end.
pub open spec fn inserted(value: Seq<char>, index: int, ch: char) -> Seq<char> {
    let p = if index < value.len() {
        index
    } else {
        value.len() as int
    };
    value.insert(p, ch)
}

/// `value` without its character at `index`, unchanged when the index is
/// past the end.
pub open spec fn removed(value: Seq<char>, index: int) -> Seq<char> {
    if 0 <= index < value.len() {
        value.remove(index)
    } else {
        value
    }
}

/// The draft with the text of `row` replaced.
pub open spec fn with_text(d: DraftView, row: ConfigRow, text: Seq<char>) -> DraftView {
    if row == ConfigRow::Columns {
        DraftView { columns: text, ..d }
    } else {
        DraftView { pr_columns: text, ..d }
    }
}

/// The state after typing `ch` into, or (for `None`) deleting backwards in,
/// the focused text row.
pub open spec fn edit_text_view(s: StateView, ch: Option<char>) -> StateView {
    let row = ConfigRow::spec_from_index(s.config_focus as int);
    match s.config_draft {
        None => s,
        Some(d) => if !row.spec_is_text_field() {
            s
        } else {
            let value = draft_text(d, s.config_focus as int);
            match ch {
                Some(c) => if !is_control(c) {
                    StateView {
                        config_draft: Some(
                            with_text(d, row, inserted(value, s.config_text_cursor as int, c)),
                        ),
                        config_text_cursor: inc(s.config_text_cursor),
                        ..s
                    }
                } else {
                    s
                },
                None => if s.config_text_cursor > 0 {
                    StateView {
                        config_draft: Some(
                            with_text(d, row, removed(value, s.config_text_cursor - 1)),
                        ),
                        config_text_cursor: (s.config_text_cursor - 1) as usize,
                        ..s
                    }
                } else {
                    s
                },
            }
        },
    }
}

/// The state after the draft is accepted, with the refresh it asks for, or
/// after it is refused with the reason shown.
pub open spec fn apply_view(s: StateView) -> (StateView, KeyAction) {
    match s.config_draft {
        None => (s, KeyAction::Nothing),
        Some(d) => match column_list(split_on(d.columns, ',')) {
            Err(f) => (StateView { error: Some(column_fault_message(f)), ..s }, KeyAction::Nothing),
            Ok(columns) => match pr_column_list(split_on(d.pr_columns, ',')) {
                Err(f) => (
                    StateView { error: Some(column_fault_message(f)), ..s },
                    KeyAction::Nothing,
                ),
                Ok(pr_columns) => (
                    StateView {
                        settings: SettingsView {
                            interval: d.interval,
                            layout: d.layout,
                            limit: d.limit,
                            columns,
                            pr_columns,
                            cursor: d.cursor,
                            ..s.settings
                        },
                        panel: None,
                        config_draft: None,
                        error: None,
                        ..s
                    },
                    KeyAction::RefreshNow,
                ),
            },
        },
    }
}

/// A key press in the config panel.
pub open spec fn config_key_view(s: StateView, key: Key) -> (StateView, KeyAction) {
    let text_row = ConfigRow::spec_from_index(s.config_focus as int).spec_is_text_field();
    if key == Key::Up {
        (sync_cursor_view(StateView { config_focus: dec(s.config_focus), ..s }), KeyAction::Nothing)
    } else if key == Key::Down {
        (
            sync_cursor_view(
                StateView {
                    config_focus: if s.config_focus + 1 < ConfigRow::spec_len() {
                        (s.config_focus + 1) as usize
                    } else {
                        s.config_focus
                    },
                    ..s
                },
            ),
            KeyAction::Nothing,
        )
    } else if key == Key::Left && text_row {
        (StateView { config_text_cursor: dec(s.config_text_cursor), ..s }, KeyAction::Nothing)
    } else if key == Key::Right && text_row {
        (
            StateView {
                config_text_cursor: if s.config_text_cursor < focused_text_len(s) {
                    (s.config_text_cursor + 1) as usize
                } else {
                    s.config_text_cursor
                },
                ..s
            },
            KeyAction::Nothing,
        )
    } else if key == Key::Left || key == Key::Char('-') {
        (edit_row_view(s, -1i32), KeyAction::Nothing)
    } else if key == Key::Right || key == Key::Char('+') || key == Key::Char('=') {
        (edit_row_view(s, 1i32), KeyAction::Nothing)
    } else if key == Key::Enter {
        apply_view(s)
    } else if key == Key::Backspace {
        (edit_text_view(s, None), KeyAction::Nothing)
    } else {
        match key {
            Key::Char(c) => if text_row {
                (edit_text_view(s, Some(c)), KeyAction::Nothing)
            } else {
                (s, KeyAction::Nothing)
            },
            _ => (s, KeyAction::Nothing),
        }
    }
}

/// Whether `key` is the character `lower` or `upper`.
pub open spec fn is_letter(key: Key, lower: char, upper: char) -> bool {
    key == Key::Char(lower) || key == Key::Char(upper)
}

/// The panel closed.
pub open spec fn closed(s: StateView) -> StateView {
    StateView { panel: None, ..s }
}

/// The confirmation before closing every session opened, focused on no.
pub open spec fn massive_confirm_opened(s: StateView) -> StateView {
    StateView {
        destroy_massive_focus: 1,
        panel: Some(Panel { kind: PanelKind::DestroyMassiveConfirm }),
        ..s
    }
}

/// A key press in the prompt that closes sessions.
pub open spec fn destroy_key_view(s: StateView, key: Key) -> (StateView, KeyAction) {
    if key == Key::Left {
        (StateView { destroy_prompt_focus: dec(s.destroy_prompt_focus), ..s }, KeyAction::Nothing)
    } else if key == Key::Right || key == Key::Tab {
        (
            StateView {
                destroy_prompt_focus: if s.destroy_prompt_focus < 2 {
                    (s.destroy_prompt_focus + 1) as usize
                } else {
                    2
                },
                ..s
            },
            KeyAction::Nothing,
        )
    } else if is_letter(key, 'y', 'Y') {
        (s, KeyAction::DestroyRepoClients)
    } else if is_letter(key, 'n', 'N') {
        (closed(s), KeyAction::Nothing)
    } else if is_letter(key, 'm', 'M') {
        (massive_confirm_opened(s), KeyAction::Nothing)
    } else if key == Key::Enter {
        if s.destroy_prompt_focus == 0 {
            (s, KeyAction::DestroyRepoClients)
        } else if s.destroy_prompt_focus == 1 {
            (closed(s), KeyAction::Nothing)
        } else {
            (massive_confirm_opened(s), KeyAction::Nothing)
        }
    } else {
        (s, KeyAction::Nothing)
    }
}

/// A key press in the confirmation before closing every session.
pub open spec fn destroy_massive_key_view(s: StateView, key: Key) -> (StateView, KeyAction) {
    if key == Key::Left || key == Key::Right || key == Key::Tab {
        (
            StateView {
                destroy_massive_focus: if s.destroy_massive_focus == 0 {
                    1
                } else {
                    0
                },
                ..s
            },
            KeyAction::Nothing,
        )
    } else if is_letter(key, 'y', 'Y') {
        (s, KeyAction::DestroyAllClients)
    } else if is_letter(key, 'n', 'N') {
        (closed(s), KeyAction::Nothing)
    } else if key == Key::Enter {
        if s.destroy_massive_focus == 0 {
            (s, KeyAction::DestroyAllClients)
        } else {
            (closed(s), KeyAction::Nothing)
        }
    } else {
        (s, KeyAction::Nothing)
    }
}

/// The login asked for: the prompt closes and stays dismissed.
pub open spec fn login_requested(s: StateView) -> StateView {
    StateView { panel: None, auth_prompt_dismissed: true, auth_login_requested: true, ..s }
}

/// The prompt dismissed.
pub open spec fn prompt_dismissed(s: StateView) -> StateView {
    StateView { panel: None, auth_prompt_dismissed: true, ..s }
}

/// A key press in the authentication prompt.
pub open spec fn auth_key_view(s: StateView, key: Key) -> StateView {
    if key == Key::Left || key == Key::Right || key == Key::Tab {
        StateView {
            auth_prompt_focus: if s.auth_prompt_focus == 0 {
                1
            } else {
                0
            },
            ..s
        }
    } else if is_letter(key, 'y', 'Y') {
        login_requested(s)
    } else if is_letter(key, 'n', 'N') {
        prompt_dismissed(s)
    } else if key == Key::Enter {
        if s.auth_prompt_focus == 0 {
            login_requested(s)
        } else {
            prompt_dismissed(s)
        }
    } else {
        s
    }
}

/// A key press in the quick look panel.
pub open spec fn quick_look_key_view(s: StateView, key: Key) -> StateView {
    if key == Key::Char(' ') {
        closed(s)
    } else if key == Key::Up {
        StateView { quick_look_scroll: dec(s.quick_look_scroll), ..s }
    } else if key == Key::Down {
        StateView { quick_look_scroll: inc(s.quick_look_scroll), ..s }
    } else {
        s
    }
}

/// A key press in the key commands panel.
pub open spec fn keys_key_view(s: StateView, key: Key) -> StateView {
    if key == Key::Up {
        StateView { keys_scroll: dec(s.keys_scroll), ..s }
    } else if key == Key::Down {
        StateView { keys_scroll: inc(s.keys_scroll), ..s }
    } else {
        s
    }
}

/// A key press while a panel is open.
pub open spec fn panel_key_view(s: StateView, key: Key) -> (StateView, KeyAction) {
    let kind = s.panel->Some_0.kind;
    if key == Key::Char('q') || key == Key::Esc {
        (
            StateView {
                auth_prompt_dismissed: if kind == PanelKind::AuthLogin {
                    true
                } else {
                    s.auth_prompt_dismissed
                },
                panel: None,
                config_draft: None,
                ..s
            },
            KeyAction::Nothing,
        )
    } else {
        match kind {
            PanelKind::Config => config_key_view(s, key),
            PanelKind::QuickLook => (quick_look_key_view(s, key), KeyAction::Nothing),
            PanelKind::Keys => (keys_key_view(s, key), KeyAction::Nothing),
            PanelKind::AuthLogin => (auth_key_view(s, key), KeyAction::Nothing),
            PanelKind::Destroy => destroy_key_view(s, key),
            PanelKind::DestroyMassiveConfirm => destroy_massive_key_view(s, key),
        }
    }
}

/// The length of the table on the current screen.
pub open spec fn selected_len_view(s: StateView) -> nat {
    match s.screen {
        Screen::Runs => visible_len(s),
        Screen::PullRequests => s.pull_requests.len(),
    }
}

/// The selection on the current screen.
pub open spec fn selected_view(s: StateView) -> usize {
    match s.screen {
        Screen::Runs => s.selected_run,
        Screen::PullRequests => s.selected_pr,
    }
}

/// The state with the selection on the current screen replaced.
pub open spec fn with_selected(s: StateView, v: usize) -> StateView {
    match s.screen {
        Screen::Runs => StateView { selected_run: v, ..s },
        Screen::PullRequests => StateView { selected_pr: v, ..s },
    }
}

/// The config panel opened on its first row with a draft of the settings.
pub open spec fn config_opened(s: StateView) -> StateView {
    let d = draft_of(s.settings);
    StateView {
        config_focus: 0,
        config_draft: Some(d),
        config_text_cursor: draft_text(d, 0).len() as usize,
        panel: Some(Panel { kind: PanelKind::Config }),
        ..s
    }
}

/// What a key press does to the state, and what the caller then does.
pub open spec fn key_step(s: StateView, key: Key) -> (StateView, KeyAction) {
    if s.panel is Some {
        panel_key_view(s, key)
    } else {
        main_key_view(s, key)
    }
}

/// A key press while no panel is open.
pub open spec fn main_key_view(s: StateView, key: Key) -> (StateView, KeyAction) {
    if key == Key::Char('q') || key == Key::Esc {
        (s, KeyAction::Quit)
    } else if key == Key::Char('k') {
        (StateView { keys_scroll: 0, panel: Some(Panel { kind: PanelKind::Keys }), ..s }, KeyAction::Nothing)
    } else if key == Key::Char(' ') {
        (
            StateView { quick_look_scroll: 0, panel: Some(Panel { kind: PanelKind::QuickLook }), ..s },
            KeyAction::Nothing,
        )
    } else if key == Key::Char('c') {
        (config_opened(s), KeyAction::Nothing)
    } else if key == Key::Char('d') {
        (
            StateView { destroy_prompt_focus: 1, panel: Some(Panel { kind: PanelKind::Destroy }), ..s },
            KeyAction::Nothing,
        )
    } else if key == Key::Char('r') {
        (s, KeyAction::RefreshNow)
    } else if key == Key::Char('l') {
        (
            clamp_view(
                StateView {
                    settings: SettingsView { layout: s.settings.layout.spec_next(), ..s.settings },
                    ..s
                },
            ),
            KeyAction::Nothing,
        )
    } else if key == Key::Char('s') {
        (clamp_view(StateView { run_sort: s.run_sort.spec_next(), ..s }), KeyAction::Nothing)
    } else if key == Key::Tab {
        (
            StateView {
                screen: match s.screen {
                    Screen::Runs => Screen::PullRequests,
                    Screen::PullRequests => Screen::Runs,
                },
                cursor_visible: true,
                ..s
            },
            KeyAction::Navigated,
        )
    } else if key == Key::Char('h') {
        let auto_hide = !s.settings.cursor.auto_hide;
        (
            StateView {
                settings: SettingsView {
                    cursor: CursorSettings { auto_hide, ..s.settings.cursor },
                    ..s.settings
                },
                ..s
            },
            if auto_hide && s.cursor_visible {
                KeyAction::Navigated
            } else {
                KeyAction::Nothing
            },
        )
    } else if key == Key::Up {
        let moved = if s.cursor_visible {
            with_selected(s, dec(selected_view(s)))
        } else {
            s
        };
        (StateView { cursor_visible: true, ..moved }, KeyAction::Navigated)
    } else if key == Key::Down {
        let moved = if s.cursor_visible && selected_view(s) + 1 < selected_len_view(s) {
            with_selected(s, (selected_view(s) + 1) as usize)
        } else {
            s
        };
        (StateView { cursor_visible: true, ..moved }, KeyAction::Navigated)
    } else if key == Key::Enter {
        match s.screen {
            Screen::Runs => if s.selected_run < visible_len(s) {
                (
                    s,
                    KeyAction::OpenRun(
                        s.runs[spec_sorted_visible(
                            s.runs,
                            s.settings.layout,
                            s.run_sort,
                        )[s.selected_run as int] as int].database_id,
                    ),
                )
            } else {
                (s, KeyAction::Nothing)
            },
            Screen::PullRequests => if s.selected_pr < s.pull_requests.len() {
                (s, KeyAction::OpenPullRequest(s.pull_requests[s.selected_pr as int].number))
            } else {
                (s, KeyAction::Nothing)
            },
        }
    } else {
        (s, KeyAction::Nothing)
    }
}

/// The indices of the runs that the table shows, in table order.
pub fn visible_run_indices(state: &State) -> (r: Vec<usize>)
    ensures
        r@ == spec_sorted_visible(state.runs@, state.settings.layout, state.run_sort),
{
    sorted_visible_run_indices(state.runs.as_slice(), state.settings.layout, state.run_sort)
}

/// The selected run, when the selection is on a shown run.
pub fn selected_run(state: &State) -> (r: Option<&Run>)
    ensures
        ({
            let order = spec_sorted_visible(state.runs@, state.settings.layout, state.run_sort);
            if state.selected_run < order.len() {
                r == Some(&state.runs@[order[state.selected_run as int] as int])
            } else {
                r is None
            }
        }),
{
    let order = visible_run_indices(state);
    let _count = state.runs.len();
    proof {
        crate::runs::lemma_prefix_contents(
            state.runs@,
            state.settings.layout,
            state.run_sort,
            state.runs@.len(),
        );
    }
    if state.selected_run < order.len() {
        let index = order[state.selected_run];
        assert(order@.contains(index));
        Some(&state.runs[index])
    } else {
        None
    }
}

/// Brings both selections and scroll offsets within their tables.
pub fn clamp_selection(state: &mut State)
    ensures
        final(state)@ == clamp_view(old(state)@),
{
    let n = visible_run_indices(state).len();
    if n == 0 {
        state.selected_run = 0;
        state.runs_scroll = 0;
    } else if state.selected_run >= n {
        state.selected_run = n - 1;
    }
    let m = state.pull_requests.len();
    if m == 0 {
        state.selected_pr = 0;
        state.prs_scroll = 0;
    } else if state.selected_pr >= m {
        state.selected_pr = m - 1;
    }
    let max_runs_scroll = if n > 0 {
        n - 1
    } else {
        0
    };
    if state.runs_scroll > max_runs_scroll {
        state.runs_scroll = max_runs_scroll;
    }
    let max_prs_scroll = if m > 0 {
        m - 1
    } else {
        0
    };
    if state.prs_scroll > max_prs_scroll {
        state.prs_scroll = max_prs_scroll;
    }
}

/// The number of rows of the table on the current screen.
fn selected_len(state: &State) -> (r: usize)
    ensures
        r == selected_len_view(state@),
{
    match state.screen {
        Screen::Runs => visible_run_indices(state).len(),
        Screen::PullRequests => state.pull_requests.len(),
    }
}

/// Removes the error line.
pub fn clear_error(state: &mut State)
    ensures
        final(state)@ == (StateView { error: None, ..old(state)@ }),
{
    state.error = None;
}

/// Whether an authentication check would open the prompt: it has not been
/// dismissed and no panel is open.
pub open spec fn spec_auth_check_needed(s: StateView) -> bool {
    !s.auth_prompt_dismissed && s.panel is None
}

/// Whether an authentication check would open the prompt: it has not been
/// dismissed and no panel is open.
pub fn auth_check_needed(state: &State) -> (r: bool)
    ensures
        r == spec_auth_check_needed(state@),
{
    !state.auth_prompt_dismissed && state.panel.is_none()
}

/// The state after the outcome of an authentication check: the prompt opens,
/// focused on yes, where a check is needed and found no valid login.
pub open spec fn auth_prompt_view(s: StateView, authenticated: bool) -> StateView {
    if spec_auth_check_needed(s) && !authenticated {
        StateView { auth_prompt_focus: 0, panel: Some(Panel { kind: PanelKind::AuthLogin }), ..s }
    } else {
        s
    }
}

/// Opens the authentication prompt when it is not dismissed, no panel is
/// open and the check found no valid login.
pub fn maybe_open_auth_prompt(state: &mut State, authenticated: bool)
    ensures
        final(state)@ == auth_prompt_view(old(state)@, authenticated),
{
    if state.auth_prompt_dismissed || state.panel.is_some() || authenticated {
        return;
    }
    state.auth_prompt_focus = 0;
    state.panel = Some(Panel::auth_login());
}

/// Shows `error`, after opening the authentication prompt where the check
/// asks for it.
pub fn set_error(state: &mut State, error: String, authenticated: bool)
    ensures
        final(state)@ == (StateView {
            error: Some(error@),
            ..auth_prompt_view(old(state)@, authenticated)
        }),
{
    maybe_open_auth_prompt(state, authenticated);
    state.error = Some(error);
}

/// `value` stepped by one second in `direction`, without wrapping, then
/// brought into `[min, max]` seconds; sub-second parts are dropped.
pub fn adjust_seconds(value: TimeSpan, direction: i32, min: u64, max: u64) -> (r: TimeSpan)
    requires
        min <= max,
    ensures
        r == (TimeSpan {
            secs: adjusted(value.secs as int, direction, min as int, max as int, u64::MAX as int) as u64,
            nanos: 0,
        }),
        min <= r.secs <= max,
{
    let seconds = value.secs;
    let next = if direction < 0 {
        seconds.saturating_sub(1)
    } else {
        seconds.saturating_add(1)
    };
    let clamped = if next < min {
        min
    } else if next > max {
        max
    } else {
        next
    };
    TimeSpan::from_secs(clamped)
}

/// `value` stepped by one in `direction`, without wrapping, then brought
/// into `[min, max]`.
pub fn adjust_usize(value: usize, direction: i32, min: usize, max: usize) -> (r: usize)
    requires
        min <= max,
    ensures
        r == adjusted(value as int, direction, min as int, max as int, usize::MAX as int),
        min <= r <= max,
{
    let next = if direction < 0 {
        value.saturating_sub(1)
    } else {
        value.saturating_add(1)
    };
    if next < min {
        min
    } else if next > max {
        max
    } else {
        next
    }
}

/// The text of the draft that the focused row edits: the columns, the pull
/// request columns, or the empty text.
pub fn draft_text_for_focus(draft: &ConfigDraft, focus: usize) -> (r: &str)
    ensures
        r@ == draft_text(draft@, focus as int),
{
    match ConfigRow::from_index(focus) {
        ConfigRow::Columns => draft.columns.as_str(),
        ConfigRow::PrColumns => draft.pr_columns.as_str(),
        _ => {
            proof {
                reveal_strlit("");
            }
            ""
        },
    }
}

fn focused_text_length(state: &State) -> (r: usize)
    ensures
        r == focused_text_len(state@),
{
    match &state.config_draft {
        Some(d) => draft_text_for_focus(d, state.config_focus).unicode_len(),
        None => 0,
    }
}

fn join_names(names: &Vec<&'static str>) -> (r: String)
    ensures
        r@ == join_with(names@.map_values(|n: &'static str| n@), seq![',']),
{
    let ghost views = names@.map_values(|n: &'static str| n@);
    let mut out = String::new();
    let mut i: usize = 0;
    while i < names.len()
        invariant
            i <= names@.len(),
            views == names@.map_values(|n: &'static str| n@),
            out@ == join_with(views.take(i as int), seq![',']),
        decreases names@.len() - i,
    {
        assert(views.take(i + 1).drop_last() =~= views.take(i as int));
        assert(views.take(i + 1).last() == names@[i as int]@);
        if i > 0 {
            out.append(",");
            proof {
                reveal_strlit(",");
            }
        } else {
            assert(views.take(1) =~= seq![names@[0]@]);
            assert(out@ =~= seq![]);
        }
        out.append(names[i]);
        assert(out@ =~= join_with(views.take(i + 1), seq![',']));
        i = i + 1;
    }
    assert(views.take(i as int) =~= views);
    out
}

/// The comma-separated names of the columns.
pub fn columns_text(columns: &Vec<Column>) -> (r: String)
    ensures
        r@ == columns_csv(columns@),
{
    let mut names: Vec<&'static str> = Vec::new();
    let mut i: usize = 0;
    while i < columns.len()
        invariant
            i <= columns@.len(),
            names@.map_values(|n: &'static str| n@) =~= columns@.take(i as int).map_values(
                |c: Column| c.spec_name(),
            ),
        decreases columns@.len() - i,
    {
        let ghost before = names@;
        let name = columns[i].name();
        names.push(name);
        assert(names@ == before.push(name));
        assert(names@.map_values(|n: &'static str| n@) =~= before.map_values(|n: &'static str| n@).push(name@));
        assert(columns@.take(i + 1) =~= columns@.take(i as int).push(columns@[i as int]));
        i = i + 1;
    }
    assert(columns@.take(i as int) =~= columns@);
    join_names(&names)
}

/// The comma-separated names of the pull request columns.
pub fn pr_columns_text(columns: &Vec<PrColumn>) -> (r: String)
    ensures
        r@ == pr_columns_csv(columns@),
{
    let mut names: Vec<&'static str> = Vec::new();
    let mut i: usize = 0;
    while i < columns.len()
        invariant
            i <= columns@.len(),
            names@.map_values(|n: &'static str| n@) =~= columns@.take(i as int).map_values(
                |c: PrColumn| c.spec_name(),
            ),
        decreases columns@.len() - i,
    {
        let ghost before = names@;
        let name = columns[i].name();
        names.push(name);
        assert(names@ == before.push(name));
        assert(names@.map_values(|n: &'static str| n@) =~= before.map_values(|n: &'static str| n@).push(name@));
        assert(columns@.take(i + 1) =~= columns@.take(i as int).push(columns@[i as int]));
        i = i + 1;
    }
    assert(columns@.take(i as int) =~= columns@);
    join_names(&names)
}

impl ConfigDraft {
    /// A draft of the settings of `state`.
    pub fn from_state(state: &State) -> (r: ConfigDraft)
        ensures
            r@ == draft_of(state.settings@),
    {
        ConfigDraft {
            layout: state.settings.layout,
            interval: state.settings.interval,
            limit: state.settings.limit,
            columns: columns_text(&state.settings.columns),
            pr_columns: pr_columns_text(&state.settings.pr_columns),
            cursor: state.settings.cursor,
        }
    }
}

/// Inserts `ch` at character `char_index` of `value`, or appends it when the
/// index is past the end.
pub fn insert_char(value: &mut String, char_index: usize, ch: char)
    ensures
        final(value)@ == inserted(old(value)@, char_index as int, ch),
{
    let n = value.unicode_len();
    let p = if char_index < n {
        char_index
    } else {
        n
    };
    let mut out = value.as_str().substring_char(0, p).to_owned();
    out.push(ch);
    out.append(value.as_str().substring_char(p, n));
    assert(out@ =~= old(value)@.insert(p as int, ch));
    *value = out;
}

/// Removes the character at `char_index` of `value`; nothing happens when the
/// index is past the end.
pub fn remove_char(value: &mut String, char_index: usize)
    ensures
        final(value)@ == removed(old(value)@, char_index as int),
{
    let n = value.unicode_len();
    if char_index < n {
        let mut out = value.as_str().substring_char(0, char_index).to_owned();
        out.append(value.as_str().substring_char(char_index + 1, n));
        assert(out@ =~= old(value)@.remove(char_index as int));
        *value = out;
    }
}

fn handle_keys_key(key: Key, state: &mut State)
    ensures
        final(state)@ == keys_key_view(old(state)@, key),
{
    match key {
        Key::Up => {
            state.keys_scroll = state.keys_scroll.saturating_sub(1);
        },
        Key::Down => {
            state.keys_scroll = state.keys_scroll.saturating_add(1);
        },
        _ => {},
    }
}

fn handle_quick_look_key(key: Key, state: &mut State)
    ensures
        final(state)@ == quick_look_key_view(old(state)@, key),
{
    match key {
        Key::Char(' ') => {
            state.panel = None;
        },
        Key::Up => {
            state.quick_look_scroll = state.quick_look_scroll.saturating_sub(1);
        },
        Key::Down => {
            state.quick_look_scroll = state.quick_look_scroll.saturating_add(1);
        },
        _ => {},
    }
}

fn request_auth_login(state: &mut State)
    ensures
        final(state)@ == login_requested(old(state)@),
{
    state.panel = None;
    state.auth_prompt_dismissed = true;
    state.auth_login_requested = true;
}

fn dismiss_auth_prompt(state: &mut State)
    ensures
        final(state)@ == prompt_dismissed(old(state)@),
{
    state.panel = None;
    state.auth_prompt_dismissed = true;
}

fn handle_auth_login_key(key: Key, state: &mut State)
    ensures
        final(state)@ == auth_key_view(old(state)@, key),
{
    match key {
        Key::Left | Key::Right | Key::Tab => {
            state.auth_prompt_focus = if state.auth_prompt_focus == 0 {
                1
            } else {
                0
            };
        },
        Key::Char('y') | Key::Char('Y') => {
            request_auth_login(state);
        },
        Key::Char('n') | Key::Char('N') => {
            dismiss_auth_prompt(state);
        },
        Key::Enter => {
            if state.auth_prompt_focus == 0 {
                request_auth_login(state);
            } else {
                dismiss_auth_prompt(state);
            }
        },
        _ => {},
    }
}

fn open_destroy_panel(state: &mut State)
    ensures
        final(state)@ == (StateView {
            destroy_prompt_focus: 1,
            panel: Some(Panel { kind: PanelKind::Destroy }),
            ..old(state)@
        }),
{
    state.destroy_prompt_focus = 1;
    state.panel = Some(Panel::destroy());
}

fn open_destroy_massive_confirm_panel(state: &mut State)
    ensures
        final(state)@ == massive_confirm_opened(old(state)@),
{
    state.destroy_massive_focus = 1;
    state.panel = Some(Panel::destroy_massive_confirm());
}

fn close_destroy_panel(state: &mut State)
    ensures
        final(state)@ == closed(old(state)@),
{
    state.panel = None;
}

fn handle_destroy_key(key: Key, state: &mut State) -> (r: KeyAction)
    ensures
        (final(state)@, r) == destroy_key_view(old(state)@, key),
{
    match key {
        Key::Left => {
            state.destroy_prompt_focus = state.destroy_prompt_focus.saturating_sub(1);
            KeyAction::Nothing
        },
        Key::Right | Key::Tab => {
            state.destroy_prompt_focus = if state.destroy_prompt_focus < 2 {
                state.destroy_prompt_focus + 1
            } else {
                2
            };
            KeyAction::Nothing
        },
        Key::Char('y') | Key::Char('Y') => KeyAction::DestroyRepoClients,
        Key::Char('n') | Key::Char('N') => {
            close_destroy_panel(state);
            KeyAction::Nothing
        },
        Key::Char('m') | Key::Char('M') => {
            open_destroy_massive_confirm_panel(state);
            KeyAction::Nothing
        },
        Key::Enter => {
            if state.destroy_prompt_focus == 0 {
                KeyAction::DestroyRepoClients
            } else if state.destroy_prompt_focus == 1 {
                close_destroy_panel(state);
                KeyAction::Nothing
            } else {
                open_destroy_massive_confirm_panel(state);
                KeyAction::Nothing
            }
        },
        _ => KeyAction::Nothing,
    }
}

fn handle_destroy_massive_key(key: Key, state: &mut State) -> (r: KeyAction)
    ensures
        (final(state)@, r) == destroy_massive_key_view(old(state)@, key),
{
    match key {
        Key::Left | Key::Right | Key::Tab => {
            state.destroy_massive_focus = if state.destroy_massive_focus == 0 {
                1
            } else {
                0
            };
            KeyAction::Nothing
        },
        Key::Char('y') | Key::Char('Y') => KeyAction::DestroyAllClients,
        Key::Char('n') | Key::Char('N') => {
            close_destroy_panel(state);
            KeyAction::Nothing
        },
        Key::Enter => {
            if state.destroy_massive_focus == 0 {
                KeyAction::DestroyAllClients
            } else {
                close_destroy_panel(state);
                KeyAction::Nothing
            }
        },
        _ => KeyAction::Nothing,
    }
}

fn sync_text_cursor_to_focus(state: &mut State)
    ensures
        final(state)@ == sync_cursor_view(old(state)@),
{
    if ConfigRow::from_index(state.config_focus).is_text_field() {
        state.config_text_cursor = focused_text_length(state);
    }
}

fn move_text_cursor_right(state: &mut State)
    ensures
        final(state)@ == (StateView {
            config_text_cursor: if old(state)@.config_text_cursor < focused_text_len(old(state)@) {
                (old(state)@.config_text_cursor + 1) as usize
            } else {
                old(state)@.config_text_cursor
            },
            ..old(state)@
        }),
{
    let max = focused_text_length(state);
    if state.config_text_cursor < max {
        state.config_text_cursor = state.config_text_cursor + 1;
    }
}

fn edit_config_row(state: &mut State, direction: i32)
    ensures
        final(state)@ == edit_row_view(old(state)@, direction),
{
    let focused = ConfigRow::from_index(state.config_focus);
    let taken = state.config_draft.take();
    match taken {
        None => {
            return;
        },
        Some(d) => {
            let mut draft = d;
            match focused {
                ConfigRow::Interval => {
                    draft.interval = adjust_seconds(draft.interval, direction, 5, 3600);
                },
                ConfigRow::Layout => {
                    draft.layout = draft.layout.next();
                },
                ConfigRow::Limit => {
                    draft.limit = adjust_usize(draft.limit, direction, 1, 200);
                },
                ConfigRow::CursorAutoHide => {
                    draft.cursor.auto_hide = !draft.cursor.auto_hide;
                },
                ConfigRow::CursorHideAfter => {
                    draft.cursor.hide_after = adjust_seconds(draft.cursor.hide_after, direction, 1, 300);
                },
                ConfigRow::Columns => {},
                ConfigRow::PrColumns => {},
            }
            state.config_draft = Some(draft);
        },
    }
    if focused.is_text_field() {
        clear_error(state);
    }
}

fn edit_config_text(state: &mut State, ch: Option<char>)
    ensures
        final(state)@ == edit_text_view(old(state)@, ch),
{
    let focused = ConfigRow::from_index(state.config_focus);
    if state.config_draft.is_none() || !focused.is_text_field() {
        return;
    }
    let cursor = state.config_text_cursor;
    let edit = match ch {
        Some(c) => !is_control_char(c),
        None => cursor > 0,
    };
    if !edit {
        return;
    }
    let taken = state.config_draft.take();
    let mut draft = taken.unwrap();
    let ghost d0 = draft@;
    match ch {
        Some(c) => {
            if focused == ConfigRow::Columns {
                insert_char(&mut draft.columns, cursor, c);
            } else {
                insert_char(&mut draft.pr_columns, cursor, c);
            }
            state.config_text_cursor = cursor.saturating_add(1);
        },
        None => {
            if focused == ConfigRow::Columns {
                remove_char(&mut draft.columns, cursor - 1);
            } else {
                remove_char(&mut draft.pr_columns, cursor - 1);
            }
            state.config_text_cursor = cursor - 1;
        },
    }
    state.config_draft = Some(draft);
}

/// Accepts the draft when both column lists parse, replacing the settings
/// and closing the panel; otherwise shows why.
fn apply_config_draft(state: &mut State) -> (r: KeyAction)
    requires
        old(state).panel is Some,
    ensures
        (final(state)@, r) == apply_view(old(state)@),
{
    let columns = match &state.config_draft {
        None => {
            return KeyAction::Nothing;
        },
        Some(d) => parse_columns_csv(d.columns.as_str()),
    };
    let columns = match columns {
        Ok(c) => c,
        Err(e) => {
            set_error(state, e.message(), true);
            return KeyAction::Nothing;
        },
    };
    let pr_columns = match &state.config_draft {
        None => {
            return KeyAction::Nothing;
        },
        Some(d) => parse_pr_columns_csv(d.pr_columns.as_str()),
    };
    let pr_columns = match pr_columns {
        Ok(c) => c,
        Err(e) => {
            set_error(state, e.message(), true);
            return KeyAction::Nothing;
        },
    };
    let draft = state.config_draft.take().unwrap();
    state.settings.interval = draft.interval;
    state.settings.layout = draft.layout;
    state.settings.limit = draft.limit;
    state.settings.columns = columns;
    state.settings.pr_columns = pr_columns;
    state.settings.cursor = draft.cursor;
    state.panel = None;
    state.config_draft = None;
    clear_error(state);
    KeyAction::RefreshNow
}

fn handle_config_key(key: Key, state: &mut State) -> (r: KeyAction)
    requires
        old(state).panel is Some,
    ensures
        (final(state)@, r) == config_key_view(old(state)@, key),
{
    let ghost s0 = state@;
    let text_row = ConfigRow::from_index(state.config_focus).is_text_field();
    if key == Key::Up {
        state.config_focus = state.config_focus.saturating_sub(1);
        assert(state@ == (StateView { config_focus: dec(s0.config_focus), ..s0 }));
        sync_text_cursor_to_focus(state);
        KeyAction::Nothing
    } else if key == Key::Down {
        if state.config_focus < ConfigRow::len() - 1 {
            state.config_focus = state.config_focus + 1;
        }
        sync_text_cursor_to_focus(state);
        KeyAction::Nothing
    } else if key == Key::Left && text_row {
        state.config_text_cursor = state.config_text_cursor.saturating_sub(1);
        KeyAction::Nothing
    } else if key == Key::Right && text_row {
        move_text_cursor_right(state);
        KeyAction::Nothing
    } else if key == Key::Left || key == Key::Char('-') {
        edit_config_row(state, -1);
        KeyAction::Nothing
    } else if key == Key::Right || key == Key::Char('+') || key == Key::Char('=') {
        edit_config_row(state, 1);
        KeyAction::Nothing
    } else if key == Key::Enter {
        apply_config_draft(state)
    } else if key == Key::Backspace {
        edit_config_text(state, None);
        KeyAction::Nothing
    } else {
        match key {
            Key::Char(ch) => {
                if text_row {
                    edit_config_text(state, Some(ch));
                }
                KeyAction::Nothing
            },
            _ => KeyAction::Nothing,
        }
    }
}

fn handle_panel_key(key: Key, state: &mut State) -> (r: KeyAction)
    requires
        old(state).panel is Some,
    ensures
        (final(state)@, r) == panel_key_view(old(state)@, key),
{
    let kind = state.panel.unwrap().kind;
    match key {
        Key::Char('q') | Key::Esc => {
            if kind == PanelKind::AuthLogin {
                state.auth_prompt_dismissed = true;
            }
            state.panel = None;
            state.config_draft = None;
            KeyAction::Nothing
        },
        _ => match kind {
            PanelKind::Config => handle_config_key(key, state),
            PanelKind::QuickLook => {
                handle_quick_look_key(key, state);
                KeyAction::Nothing
            },
            PanelKind::Keys => {
                handle_keys_key(key, state);
                KeyAction::Nothing
            },
            PanelKind::AuthLogin => {
                handle_auth_login_key(key, state);
                KeyAction::Nothing
            },
            PanelKind::Destroy => handle_destroy_key(key, state),
            PanelKind::DestroyMassiveConfirm => handle_destroy_massive_key(key, state),
        },
    }
}

fn open_config_panel(state: &mut State)
    ensures
        final(state)@ == config_opened(old(state)@),
{
    state.config_focus = 0;
    let draft = ConfigDraft::from_state(state);
    state.config_text_cursor = draft_text_for_focus(&draft, 0).unicode_len();
    state.config_draft = Some(draft);
    state.panel = Some(Panel::config());
}

/// Applies a key press to the state and says what the caller does next.
pub fn handle_key(key: Key, state: &mut State) -> (r: KeyAction)
    ensures
        (final(state)@, r) == key_step(old(state)@, key),
{
    if state.panel.is_some() {
        handle_panel_key(key, state)
    } else {
        handle_main_key(key, state)
    }
}

#[verifier::rlimit(40)]
fn handle_main_key(key: Key, state: &mut State) -> (r: KeyAction)
    requires
        old(state).panel is None,
    ensures
        (final(state)@, r) == main_key_view(old(state)@, key),
{
    match key {
        Key::Char('q') | Key::Esc => KeyAction::Quit,
        Key::Char('k') => {
            state.keys_scroll = 0;
            state.panel = Some(Panel::keys());
            KeyAction::Nothing
        },
        Key::Char(' ') => {
            state.quick_look_scroll = 0;
            state.panel = Some(Panel::quick_look());
            KeyAction::Nothing
        },
        Key::Char('c') => {
            open_config_panel(state);
            KeyAction::Nothing
        },
        Key::Char('d') => {
            open_destroy_panel(state);
            KeyAction::Nothing
        },
        Key::Char('r') => KeyAction::RefreshNow,
        Key::Char('l') => {
            state.settings.layout = state.settings.layout.next();
            clamp_selection(state);
            KeyAction::Nothing
        },
        Key::Char('s') => {
            state.run_sort = state.run_sort.next();
            clamp_selection(state);
            KeyAction::Nothing
        },
        Key::Tab => {
            state.screen = match state.screen {
                Screen::Runs => Screen::PullRequests,
                Screen::PullRequests => Screen::Runs,
            };
            state.cursor_visible = true;
            KeyAction::Navigated
        },
        Key::Char('h') => {
            state.settings.cursor.auto_hide = !state.settings.cursor.auto_hide;
            if state.settings.cursor.auto_hide && state.cursor_visible {
                KeyAction::Navigated
            } else {
                KeyAction::Nothing
            }
        },
        Key::Up => {
            if state.cursor_visible {
                match state.screen {
                    Screen::Runs => {
                        state.selected_run = state.selected_run.saturating_sub(1);
                    },
                    Screen::PullRequests => {
                        state.selected_pr = state.selected_pr.saturating_sub(1);
                    },
                }
            }
            state.cursor_visible = true;
            KeyAction::Navigated
        },
        Key::Down => {
            let len = selected_len(state);
            if state.cursor_visible && len > 0 {
                match state.screen {
                    Screen::Runs => {
                        if state.selected_run < len - 1 {
                            state.selected_run = state.selected_run + 1;
                        }
                    },
                    Screen::PullRequests => {
                        if state.selected_pr < len - 1 {
                            state.selected_pr = state.selected_pr + 1;
                        }
                    },
                }
            }
            state.cursor_visible = true;
            KeyAction::Navigated
        },
        Key::Enter => {
            match state.screen {
                Screen::Runs => match selected_run(state) {
                    Some(run) => KeyAction::OpenRun(run.database_id),
                    None => KeyAction::Nothing,
                },
                Screen::PullRequests => {
                    if state.selected_pr < state.pull_requests.len() {
                        KeyAction::OpenPullRequest(state.pull_requests[state.selected_pr].number)
                    } else {
                        KeyAction::Nothing
                    }
                },
            }
        },
        _ => KeyAction::Nothing,
    }
}

impl State {
    /// The state the dashboard starts in: the runs screen, empty tables, no
    /// panel, successes-last order, the prompts that close sessions focused
    /// on no.
    pub fn new(repo: String, settings: Settings, global_cache_status: Option<GlobalCacheStatus>) -> (r: State)
        ensures
            r@ == (StateView {
                repo: repo@,
                screen: Screen::Runs,
                runs: seq![],
                pull_requests: seq![],
                selected_run: 0,
                selected_pr: 0,
                runs_scroll: 0,
                prs_scroll: 0,
                cursor_visible: false,
                last_check: None,
                loading: false,
                tick: 0,
                error: None,
                panel: None,
                auth_prompt_focus: 0,
                auth_prompt_dismissed: false,
                auth_login_requested: false,
                destroy_prompt_focus: 1,
                destroy_massive_focus: 1,
                config_draft: None,
                config_focus: 0,
                config_text_cursor: 0,
                quick_look_scroll: 0,
                keys_scroll: 0,
                run_sort: RunSort::TimeDescSuccessesLast,
                settings: settings@,
                global_cache_status,
            }),
    {
        State {
            repo,
            screen: Screen::Runs,
            runs: Vec::new(),
            pull_requests: Vec::new(),
            selected_run: 0,
            selected_pr: 0,
            runs_scroll: 0,
            prs_scroll: 0,
            cursor_visible: false,
            last_check: None,
            loading: false,
            tick: 0,
            error: None,
            panel: None,
            auth_prompt_focus: 0,
            auth_prompt_dismissed: false,
            auth_login_requested: false,
            destroy_prompt_focus: 1,
            destroy_massive_focus: 1,
            config_draft: None,
            config_focus: 0,
            config_text_cursor: 0,
            quick_look_scroll: 0,
            keys_scroll: 0,
            run_sort: RunSort::TimeDescSuccessesLast,
            settings,
            global_cache_status,
        }
    }
}

/// Advances the spinner by one step, wrapping around.
pub fn advance_tick(state: &mut State)
    ensures
        final(state)@ == (StateView {
            tick: if old(state).tick < u64::MAX {
                (old(state).tick + 1) as u64
            } else {
                0
            },
            ..old(state)@
        }),
{
    state.tick = if state.tick < u64::MAX {
        state.tick + 1
    } else {
        0
    };
}

/// Marks a refresh as under way.
pub fn refresh_started(state: &mut State)
    ensures
        final(state)@ == (StateView { loading: true, ..old(state)@ }),
{
    state.loading = true;
}

/// Takes in the data of a successful refresh at `now`: the tables are
/// replaced, the error line is cleared, the authentication prompt may open
/// again, and the selections are brought within the new tables.
pub fn refresh_succeeded(state: &mut State, runs: Vec<Run>, pull_requests: Vec<PullRequest>, now: Timestamp)
    ensures
        final(state)@ == clamp_view(
            StateView {
                loading: false,
                last_check: Some(now),
                runs: runs@,
                pull_requests: pull_requests@,
                error: None,
                auth_prompt_dismissed: false,
                ..old(state)@
            },
        ),
{
    state.loading = false;
    state.last_check = Some(now);
    state.runs = runs;
    state.pull_requests = pull_requests;
    clear_error(state);
    state.auth_prompt_dismissed = false;
    clamp_selection(state);
}

/// Takes in the failure of a refresh at `now`: the tables stay, and the
/// error is shown after the authentication check.
pub fn refresh_failed(state: &mut State, error: String, now: Timestamp, authenticated: bool)
    ensures
        final(state)@ == (StateView {
            error: Some(error@),
            ..auth_prompt_view(
                StateView { loading: false, last_check: Some(now), ..old(state)@ },
                authenticated,
            )
        }),
{
    state.loading = false;
    state.last_check = Some(now);
    set_error(state, error, authenticated);
}

/// Takes in the end of an interactive `gh auth login`: on success the error
/// line is cleared, the prompt may open again and a refresh is asked for;
/// otherwise its failure is shown.
pub fn login_finished(state: &mut State, failure: Option<String>, authenticated: bool) -> (r: bool)
    ensures
        failure is None ==> final(state)@ == (StateView {
            auth_login_requested: false,
            error: None,
            auth_prompt_dismissed: false,
            ..old(state)@
        }) && r,
        failure is Some ==> final(state)@ == (StateView {
            error: Some(failure->Some_0@),
            ..auth_prompt_view(
                StateView { auth_login_requested: false, ..old(state)@ },
                authenticated,
            )
        }) && !r,
{
    state.auth_login_requested = false;
    match failure {
        None => {
            clear_error(state);
            state.auth_prompt_dismissed = false;
            true
        },
        Some(e) => {
            set_error(state, e, authenticated);
            false
        },
    }
}

/// Whether the navigation cursor hides now: it shows, auto-hide is on, and
/// at least the hiding delay has passed since the last navigation.
pub fn cursor_should_hide(state: &State, since_navigation: Option<TimeSpan>) -> (r: bool)
    ensures
        r == (state.cursor_visible && state.settings.cursor.auto_hide && match since_navigation {
            Some(d) => !crate::config::span_lt(d, state.settings.cursor.hide_after),
            None => false,
        }),
{
    if !(state.cursor_visible && state.settings.cursor.auto_hide) {
        return false;
    }
    match since_navigation {
        Some(d) => !crate::config::span_less(d, state.settings.cursor.hide_after),
        None => false,
    }
}

/// Hides the navigation cursor.
pub fn hide_cursor(state: &mut State)
    ensures
        final(state)@ == (StateView { cursor_visible: false, ..old(state)@ }),
{
    state.cursor_visible = false;
}

/// Cycling the run order twice gives the order back.
pub proof fn lemma_run_sort_cycles(sort: RunSort)
    ensures
        sort.spec_next().spec_next() == sort,
        sort.spec_next() != sort,
{
}

/// Cycling the layout twice gives the layout back.
pub proof fn lemma_layout_cycles(layout: DashboardLayout)
    ensures
        layout.spec_next().spec_next() == layout,
        layout.spec_next() != layout,
{
}

/// Whether both selections lie within their tables (zero for an empty one).
pub open spec fn selection_wf(s: StateView) -> bool {
    &&& (visible_len(s) == 0 ==> s.selected_run == 0)
    &&& (visible_len(s) > 0 ==> s.selected_run < visible_len(s))
    &&& (s.pull_requests.len() == 0 ==> s.selected_pr == 0)
    &&& (s.pull_requests.len() > 0 ==> s.selected_pr < s.pull_requests.len())
}

/// Bringing the selections within their tables does that, and leaves each
/// scroll offset on a row of its table.
pub proof fn lemma_clamp_selection_bounds(s: StateView)
    ensures
        selection_wf(clamp_view(s)),
        visible_len(s) > 0 ==> clamp_view(s).runs_scroll < visible_len(s),
        visible_len(s) == 0 ==> clamp_view(s).runs_scroll == 0,
        s.pull_requests.len() > 0 ==> clamp_view(s).prs_scroll < s.pull_requests.len(),
        s.pull_requests.len() == 0 ==> clamp_view(s).prs_scroll == 0,
        selection_wf(s) ==> clamp_view(s).selected_run == s.selected_run
            && clamp_view(s).selected_pr == s.selected_pr,
{
}

/// The fields of the state that the tables and selections depend on.
pub open spec fn table_fields_same(a: StateView, b: StateView) -> bool {
    &&& a.runs == b.runs
    &&& a.pull_requests == b.pull_requests
    &&& a.settings.layout == b.settings.layout
    &&& a.run_sort == b.run_sort
    &&& a.selected_run == b.selected_run
    &&& a.selected_pr == b.selected_pr
}

proof fn lemma_panel_keys_keep_tables(s: StateView, key: Key)
    requires
        s.panel is Some,
        !(s.panel->Some_0.kind == PanelKind::Config && key == Key::Enter),
    ensures
        table_fields_same(key_step(s, key).0, s),
{
    let kind = s.panel->Some_0.kind;
    if key == Key::Char('q') || key == Key::Esc {
    } else if kind == PanelKind::Config {
        let t = config_key_view(s, key).0;
        if key == Key::Up || key == Key::Down {
        } else if key == Key::Left || key == Key::Right || key == Key::Char('-') || key == Key::Char('+') || key == Key::Char('=') {
        } else if key == Key::Backspace {
        } else {
        }
    } else if kind == PanelKind::Destroy {
    } else if kind == PanelKind::DestroyMassiveConfirm {
    } else if kind == PanelKind::AuthLogin {
    } else if kind == PanelKind::QuickLook {
    } else {
    }
}

proof fn lemma_main_keys_keep_selection(s: StateView, key: Key)
    requires
        selection_wf(s),
        s.panel is None,
    ensures
        selection_wf(key_step(s, key).0),
{
    let t = key_step(s, key).0;
    if key == Key::Char('q') || key == Key::Esc || key == Key::Char('k') || key == Key::Char(' ')
        || key == Key::Char('c') || key == Key::Char('d') || key == Key::Char('r') {
        assert(table_fields_same(t, s));
    } else if key == Key::Char('l') {
        lemma_clamp_selection_bounds(
            StateView {
                settings: SettingsView { layout: s.settings.layout.spec_next(), ..s.settings },
                ..s
            },
        );
    } else if key == Key::Char('s') {
        lemma_clamp_selection_bounds(StateView { run_sort: s.run_sort.spec_next(), ..s });
    } else if key == Key::Tab || key == Key::Char('h') || key == Key::Enter {
        assert(table_fields_same(t, s));
    } else if key == Key::Up {
    } else if key == Key::Down {
    } else {
        assert(t == s);
    }
}

/// Every key press keeps the selections within their tables, except
/// accepting a config draft, which may change the layout without bringing
/// the selection back.
pub proof fn lemma_keys_keep_selection(s: StateView, key: Key)
    requires
        selection_wf(s),
        !(s.panel matches Some(p) && p.kind == PanelKind::Config && key == Key::Enter),
    ensures
        selection_wf(key_step(s, key).0),
{
    if s.panel is Some {
        lemma_panel_keys_keep_tables(s, key);
    } else {
        lemma_main_keys_keep_selection(s, key);
    }
}

/// Whether the prompts' focus, the config focus and the text cursor lie
/// within their ranges.
pub open spec fn panel_wf(s: StateView) -> bool {
    &&& s.auth_prompt_focus <= 1
    &&& s.destroy_prompt_focus <= 2
    &&& s.destroy_massive_focus <= 1
    &&& s.config_focus < ConfigRow::spec_len()
    &&& (ConfigRow::spec_from_index(s.config_focus as int).spec_is_text_field() && s.config_draft is Some)
        ==> s.config_text_cursor <= focused_text_len(s)
}

proof fn lemma_text_edit_keeps_cursor(s: StateView, ch: Option<char>)
    requires
        panel_wf(s),
    ensures
        panel_wf(edit_text_view(s, ch)),
{
    let row = ConfigRow::spec_from_index(s.config_focus as int);
    if let Some(d) = s.config_draft {
        if row.spec_is_text_field() {
            let value = draft_text(d, s.config_focus as int);
            match ch {
                Some(c) => {
                    if !is_control(c) {
                        let v2 = inserted(value, s.config_text_cursor as int, c);
                        assert(v2.len() == value.len() + 1);
                        assert(draft_text(with_text(d, row, v2), s.config_focus as int) == v2);
                    }
                },
                None => {
                    if s.config_text_cursor > 0 {
                        let v2 = removed(value, s.config_text_cursor - 1);
                        assert(v2.len() == value.len() - 1);
                        assert(draft_text(with_text(d, row, v2), s.config_focus as int) == v2);
                    }
                },
            }
        }
    }
}

proof fn lemma_config_keys_keep_panel_wf(s: StateView, key: Key)
    requires
        panel_wf(s),
        s.panel == Some(Panel { kind: PanelKind::Config }),
    ensures
        panel_wf(config_key_view(s, key).0),
{
    let text_row = ConfigRow::spec_from_index(s.config_focus as int).spec_is_text_field();
    if key == Key::Up || key == Key::Down {
    } else if (key == Key::Left || key == Key::Right) && text_row {
    } else if key == Key::Left || key == Key::Char('-') || key == Key::Right || key == Key::Char('+') || key == Key::Char('=') {
        let t = config_key_view(s, key).0;
        if let Some(d) = s.config_draft {
            let row = ConfigRow::spec_from_index(s.config_focus as int);
            assert(draft_text(edited_draft(d, row, -1i32), s.config_focus as int) == draft_text(d, s.config_focus as int));
            assert(draft_text(edited_draft(d, row, 1i32), s.config_focus as int) == draft_text(d, s.config_focus as int));
        }
    } else if key == Key::Enter {
    } else if key == Key::Backspace {
        lemma_text_edit_keeps_cursor(s, None);
    } else {
        match key {
            Key::Char(c) => {
                if text_row {
                    lemma_text_edit_keeps_cursor(s, Some(c));
                }
            },
            _ => {},
        }
    }
}

/// The fields of the state that the panels' ranges depend on.
pub open spec fn panel_fields_same(a: StateView, b: StateView) -> bool {
    &&& a.auth_prompt_focus == b.auth_prompt_focus
    &&& a.destroy_prompt_focus == b.destroy_prompt_focus
    &&& a.destroy_massive_focus == b.destroy_massive_focus
    &&& a.config_focus == b.config_focus
    &&& a.config_draft == b.config_draft
    &&& a.config_text_cursor == b.config_text_cursor
}

proof fn lemma_prompt_keys_keep_panel_wf(s: StateView, key: Key)
    requires
        panel_wf(s),
        s.panel is Some,
        s.panel->Some_0.kind != PanelKind::Config,
        !(key == Key::Char('q') || key == Key::Esc),
    ensures
        panel_wf(key_step(s, key).0),
{
    let kind = s.panel->Some_0.kind;
    let t = key_step(s, key).0;
    if kind == PanelKind::QuickLook {
        assert(t == quick_look_key_view(s, key));
        assert(panel_fields_same(t, s));
    } else if kind == PanelKind::Keys {
        assert(t == keys_key_view(s, key));
        assert(panel_fields_same(t, s));
    } else if kind == PanelKind::AuthLogin {
        assert(t == auth_key_view(s, key));
    } else if kind == PanelKind::Destroy {
        assert(t == destroy_key_view(s, key).0);
    } else {
        assert(t == destroy_massive_key_view(s, key).0);
    }
}

proof fn lemma_main_keys_keep_panel_wf(s: StateView, key: Key)
    requires
        panel_wf(s),
        s.panel is None,
    ensures
        panel_wf(key_step(s, key).0),
{
    let t = key_step(s, key).0;
    if key == Key::Char('c') {
        assert(!ConfigRow::spec_from_index(0).spec_is_text_field());
    } else if key == Key::Char('d') {
        assert(t.destroy_prompt_focus == 1);
    } else {
        assert(panel_fields_same(t, s));
    }
}

/// Every key press keeps the prompts' focus, the config focus and the text
/// cursor within their ranges.
pub proof fn lemma_keys_keep_panel_wf(s: StateView, key: Key)
    requires
        panel_wf(s),
    ensures
        panel_wf(key_step(s, key).0),
{
    if s.panel is Some {
        let kind = s.panel->Some_0.kind;
        if key == Key::Char('q') || key == Key::Esc {
        } else if kind == PanelKind::Config {
            lemma_config_keys_keep_panel_wf(s, key);
        } else {
            lemma_prompt_keys_keep_panel_wf(s, key);
        }
    } else {
        lemma_main_keys_keep_panel_wf(s, key);
    }
}

/// Typing a character into a text row of the config panel and deleting it
/// with backspace gives the state back. The character is not a control
/// character, not `q` (which closes the panel) and not `-`, `+` or `=`
/// (which step the row instead).
pub proof fn lemma_type_then_backspace(s: StateView, c: char)
    requires
        s.panel == Some(Panel { kind: PanelKind::Config }),
        s.config_draft is Some,
        ConfigRow::spec_from_index(s.config_focus as int).spec_is_text_field(),
        s.config_text_cursor <= focused_text_len(s),
        s.config_text_cursor < usize::MAX,
        !is_control(c),
        c != 'q' && c != '-' && c != '+' && c != '=',
    ensures
        key_step(key_step(s, Key::Char(c)).0, Key::Backspace).0 == s,
{
    let d = s.config_draft->Some_0;
    let row = ConfigRow::spec_from_index(s.config_focus as int);
    let value = draft_text(d, s.config_focus as int);
    let p = s.config_text_cursor as int;
    let typed = inserted(value, p, c);
    assert(typed =~= value.insert(p, c));
    assert(typed.remove(p) =~= value);
    let t = key_step(s, Key::Char(c)).0;
    assert(t.config_text_cursor == s.config_text_cursor + 1);
    assert(draft_text(t.config_draft->Some_0, t.config_focus as int) == typed);
    let u = key_step(t, Key::Backspace).0;
    assert(removed(typed, p) =~= value);
    assert(with_text(with_text(d, row, typed), row, value) == d) by {
        if row == ConfigRow::Columns {
            assert(d.columns == value);
        } else {
            assert(d.pr_columns == value);
        }
    }
}

/// Cancelling the config panel with `q` or ESC keeps the settings and drops
/// the draft; accepting it with enter, where both column lists parse, puts
/// the draft into the settings and asks for a refresh.
pub proof fn lemma_config_cancel_and_accept(s: StateView, key: Key)
    requires
        s.panel == Some(Panel { kind: PanelKind::Config }),
    ensures
        (key == Key::Char('q') || key == Key::Esc) ==> key_step(s, key).0.settings == s.settings
            && key_step(s, key).0.config_draft is None && key_step(s, key).0.panel is None
            && key_step(s, key).1 == KeyAction::Nothing,
        (key == Key::Enter && s.config_draft is Some && column_list(split_on(s.config_draft->Some_0.columns, ',')) is Ok
            && pr_column_list(split_on(s.config_draft->Some_0.pr_columns, ',')) is Ok) ==> ({
                let d = s.config_draft->Some_0;
                let t = key_step(s, key).0;
                &&& t.settings.interval == d.interval
                &&& t.settings.layout == d.layout
                &&& t.settings.limit == d.limit
                &&& t.settings.cursor == d.cursor
                &&& t.settings.columns == column_list(split_on(d.columns, ','))->Ok_0
                &&& t.settings.pr_columns == pr_column_list(split_on(d.pr_columns, ','))->Ok_0
                &&& t.panel is None
                &&& t.error is None
                &&& key_step(s, key).1 == KeyAction::RefreshNow
            }),
{
}

/// The error line is changed by no key press outside the config panel; in
/// the config panel only accepting a draft or editing a text row changes it.
pub proof fn lemma_keys_keep_error(s: StateView, key: Key)
    requires
        !(s.panel matches Some(p) && p.kind == PanelKind::Config),
    ensures
        key_step(s, key).0.error == s.error,
{
}

/// The quick look panel closes on space, `q` and ESC.
pub proof fn lemma_quick_look_closes(s: StateView, key: Key)
    requires
        s.panel == Some(Panel { kind: PanelKind::QuickLook }),
        key == Key::Char(' ') || key == Key::Char('q') || key == Key::Esc,
    ensures
        key_step(s, key).0.panel is None,
{
}

/// With no panel open, `q` and ESC quit and change nothing.
pub proof fn lemma_quit_keys(s: StateView, key: Key)
    requires
        s.panel is None,
        key == Key::Char('q') || key == Key::Esc,
    ensures
        key_step(s, key) == (s, KeyAction::Quit),
{
}

/// Once the login prompt has been dismissed, no failed check opens it
/// again: the prompt stays closed for the session until a refresh succeeds.
pub proof fn lemma_dismissed_prompt_stays_closed(s: StateView, authenticated: bool)
    requires
        s.auth_prompt_dismissed,
    ensures
        auth_prompt_view(s, authenticated) == s,
{
}

/// Pressing `h` twice with no panel open gives the settings back.
pub proof fn lemma_auto_hide_toggles_back(s: StateView)
    requires
        s.panel is None,
    ensures
        key_step(key_step(s, Key::Char('h')).0, Key::Char('h')).0.settings == s.settings,
{
}

/// With no panel open, the arrow keys work the selection of the table on
/// screen and leave the other table's selection alone. While the cursor
/// shows, Up moves one row up, stopping at the first row, and Down moves one
/// row down, stopping at the last; while it is hidden they only show it.
pub proof fn lemma_arrows_move_the_current_selection(s: StateView, key: Key)
    requires
        s.panel is None,
        key == Key::Up || key == Key::Down,
        s.runs.len() <= usize::MAX,
        s.pull_requests.len() <= usize::MAX,
    ensures
        ({
            let t = key_step(s, key).0;
            let rows = if s.screen == Screen::Runs {
                visible_len(s) as int
            } else {
                s.pull_requests.len() as int
            };
            let before = if s.screen == Screen::Runs {
                s.selected_run as int
            } else {
                s.selected_pr as int
            };
            let after = if s.screen == Screen::Runs {
                t.selected_run as int
            } else {
                t.selected_pr as int
            };
            &&& t.cursor_visible
            &&& t.screen == s.screen
            &&& (s.screen == Screen::Runs ==> t.selected_pr == s.selected_pr)
            &&& (s.screen == Screen::PullRequests ==> t.selected_run == s.selected_run)
            &&& (!s.cursor_visible ==> after == before)
            &&& (s.cursor_visible && key == Key::Up ==> after == if before > 0 {
                before - 1
            } else {
                0
            })
            &&& (s.cursor_visible && key == Key::Down ==> after == if before + 1 < rows {
                before + 1
            } else {
                before
            })
        }),
{
    crate::runs::lemma_visible_at_most_runs(s.runs, s.settings.layout, s.run_sort);
}

} // verus!
