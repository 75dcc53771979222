//! The texts that the dashboard draws: cell contents, the title, the
//! config panel's values and the prompts' descriptions.

use vstd::prelude::*;
use vstd::string::*;
use crate::app::{draft_text, RunSort, Screen, State, StateView};
use crate::cache::GlobalCacheStatus;
use crate::columns::{columns_csv, pr_columns_csv, Column, PrColumn};
use crate::config::{format_span, humantime_text, DashboardLayout, TimeSpan};
use crate::app::{columns_text, pr_columns_text};
use crate::model::{PullRequest, Run, Timestamp};
use crate::timefmt::{age, elapsed, spec_age_text, spec_elapsed, spec_elapsed_seconds};
use crate::panel::{ConfigRow, PanelKind};
use crate::text::{decimal, decimal_text, text_eq};

verus! {

/// `value` cut to `max_chars` characters; when characters are dropped and
/// more than one fits, the last kept character gives way to an ellipsis.
pub open spec fn spec_truncated(value: Seq<char>, max_chars: int) -> Seq<char> {
    if value.len() > max_chars && max_chars > 1 {
        value.take(max_chars - 1).push('…')
    } else if value.len() > max_chars {
        value.take(max_chars)
    } else {
        value
    }
}

/// `value` cut to `max_chars` characters, with an ellipsis where it is cut.
/// The character that gives way to the ellipsis is one byte long.
pub fn truncate_owned(value: &str, max_chars: usize) -> (r: String)
    requires
        value@.len() > max_chars && max_chars > 1 ==> (value@[max_chars - 1] as u32) < 0x80,
    ensures
        r@ == spec_truncated(value@, max_chars as int),
{
    let n = value.unicode_len();
    if n > max_chars && max_chars > 1 {
        let mut out = value.substring_char(0, max_chars - 1).to_owned();
        out.push('…');
        out
    } else if n > max_chars {
        value.substring_char(0, max_chars).to_owned()
    } else {
        value.to_owned()
    }
}

/// The spinner shown while a refresh runs, a space otherwise.
pub fn refresh_indicator(state: &State) -> (r: &'static str)
    ensures
        r@ == if !state.loading {
            " "@
        } else if state.tick % 4 == 0 {
            "|"@
        } else if state.tick % 4 == 1 {
            "/"@
        } else if state.tick % 4 == 2 {
            "-"@
        } else {
            "\\"@
        },
{
    if !state.loading {
        return " ";
    }
    let phase = state.tick % 4;
    if phase == 0 {
        "|"
    } else if phase == 1 {
        "/"
    } else if phase == 2 {
        "-"
    } else {
        "\\"
    }
}

/// The description of the run order in the key commands panel.
pub fn sort_description(sort: RunSort) -> (r: &'static str)
    ensures
        r@ == sort.spec_label(),
{
    sort.label()
}

/// What the focused choice of the prompt that closes sessions does.
pub fn destroy_option_description(focus: usize) -> (r: &'static str)
    ensures
        r@ == if focus == 0 {
            "Close every git-board client for this repository, including this one."@
        } else if focus == 1 {
            "Do nothing and close this panel."@
        } else {
            "Open an additional confirmation before closing every git-board client."@
        },
{
    if focus == 0 {
        "Close every git-board client for this repository, including this one."
    } else if focus == 1 {
        "Do nothing and close this panel."
    } else {
        "Open an additional confirmation before closing every git-board client."
    }
}

/// What the focused choice of the confirmation before closing every session
/// does.
pub fn destroy_massive_description(focus: usize) -> (r: &'static str)
    ensures
        r@ == if focus == 0 {
            "Close every registered git-board client across all repositories."@
        } else {
            "Do nothing and close this panel."@
        },
{
    if focus == 0 {
        "Close every registered git-board client across all repositories."
    } else {
        "Do nothing and close this panel."
    }
}

/// The title followed by the client mark: a wolf for a client on its own,
/// nothing while the shared cache is not known, else a rooster for the
/// client that refreshes and a chick for the others, with the number of
/// live clients.
pub open spec fn spec_title_text(title: Seq<char>, global: bool, status: Option<GlobalCacheStatus>) -> Seq<char> {
    if !global {
        title + " 🐺"@
    } else {
        match status {
            None => title,
            Some(st) => {
                let clients = if st.client_count == 1 {
                    "1 client"@
                } else {
                    decimal(st.client_count as nat) + " clients"@
                };
                if st.is_owner {
                    title + " 🐓 ["@ + clients + "]"@
                } else {
                    title + " 🐥 ["@ + clients + "]"@
                }
            },
        }
    }
}

/// The title followed by the client mark.
pub fn title_text(title: &str, global: bool, status: Option<GlobalCacheStatus>) -> (r: String)
    ensures
        r@ == spec_title_text(title@, global, status),
{
    let mut out = title.to_owned();
    if !global {
        out.append(" 🐺");
        return out;
    }
    match status {
        None => out,
        Some(st) => {
            let clients = if st.client_count == 1 {
                "1 client".to_owned()
            } else {
                let mut c = decimal_text(st.client_count as u64);
                c.append(" clients");
                c
            };
            if st.is_owner {
                out.append(" 🐓 [");
            } else {
                out.append(" 🐥 [");
            }
            out.append(clients.as_str());
            out.append("]");
            out
        },
    }
}

/// How a run's status cell is coloured.
#[derive(Debug, Clone, Copy, PartialEq, Eq, Structural)]
pub enum StatusTone {
    Success,
    Failure,
    Active,
    Muted,
    Unknown,
}

/// The symbol and tone of a run's status cell: a check mark for success, a
/// cross for failure, a star while active (or for an unknown label before
/// completion), a dash for skipped runs and a question mark otherwise.
pub open spec fn spec_status_mark(run: Run) -> (Seq<char>, StatusTone) {
    let label = run.spec_status_label();
    if label == "success"@ {
        ("✓"@, StatusTone::Success)
    } else if crate::model::is_failure_label(label) {
        ("✗"@, StatusTone::Failure)
    } else if crate::runs::is_active_status(label) {
        ("*"@, StatusTone::Active)
    } else if label == "skipped"@ || label == "neutral"@ || label == "stale"@ {
        ("-"@, StatusTone::Muted)
    } else if run.status@ != "completed"@ {
        ("*"@, StatusTone::Active)
    } else {
        ("?"@, StatusTone::Unknown)
    }
}

/// The symbol and tone of a run's status cell.
pub fn status_mark(run: &Run) -> (r: (&'static str, StatusTone))
    ensures
        (r.0@, r.1) == spec_status_mark(*run),
{
    let label = run.status_label();
    if text_eq(label, "success") {
        ("✓", StatusTone::Success)
    } else if crate::model::failure_label_text(label) {
        ("✗", StatusTone::Failure)
    } else if text_eq(label, "queued") || text_eq(label, "in_progress") || text_eq(
        label,
        "requested",
    ) || text_eq(label, "waiting") || text_eq(label, "pending") {
        ("*", StatusTone::Active)
    } else if text_eq(label, "skipped") || text_eq(label, "neutral") || text_eq(label, "stale") {
        ("-", StatusTone::Muted)
    } else if !text_eq(run.status.as_str(), "completed") {
        ("*", StatusTone::Active)
    } else {
        ("?", StatusTone::Unknown)
    }
}

/// The symbol and tone of a pull request's status cell: `D` for a draft,
/// `O` for an open pull request.
pub fn pr_status_mark(pull_request: &PullRequest) -> (r: (&'static str, StatusTone))
    ensures
        (r.0@, r.1) == if pull_request.is_draft {
            ("D"@, StatusTone::Active)
        } else {
            ("O"@, StatusTone::Success)
        },
{
    if pull_request.is_draft {
        ("D", StatusTone::Active)
    } else {
        ("O", StatusTone::Success)
    }
}

/// Whether cutting `value` to `max_chars` characters leaves a one-byte
/// character where the ellipsis goes, as `truncate_owned` needs.
pub open spec fn cuts_cleanly(value: Seq<char>, max_chars: int) -> bool {
    value.len() > max_chars && max_chars > 1 ==> (value[max_chars - 1] as u32) < 0x80
}

/// `#` and the number, or nothing.
pub open spec fn spec_number_text(number: Option<u64>) -> Seq<char> {
    match number {
        Some(n) => "#"@ + decimal(n as nat),
        None => ""@,
    }
}

/// `#` and the number, or nothing.
pub fn number_text(number: Option<u64>) -> (r: String)
    ensures
        r@ == spec_number_text(number),
{
    match number {
        Some(n) => {
            let mut out = "#".to_owned();
            out.append(decimal_text(n).as_str());
            out
        },
        None => {
            proof {
                reveal_strlit("");
            }
            String::new()
        },
    }
}

/// Whether the text of `run`'s cell in `column` can be cut to the
/// column's width.
pub open spec fn run_cell_cuts_cleanly(column: Column, run: Run) -> bool {
    match column {
        Column::Title => cuts_cleanly(run.display_title@, 48),
        Column::Workflow => cuts_cleanly(run.spec_workflow_label(), 18),
        Column::Branch => cuts_cleanly(run.head_branch@, 32),
        Column::Event => cuts_cleanly(run.event@, 16),
        _ => true,
    }
}

/// The text of `run`'s cell in `column` at `now`.
pub open spec fn spec_run_cell_text(column: Column, run: Run, now: Timestamp) -> Seq<char> {
    match column {
        Column::Status => spec_status_mark(run).0,
        Column::Title => spec_truncated(run.display_title@, 48),
        Column::Workflow => spec_truncated(run.spec_workflow_label(), 18),
        Column::Branch => spec_truncated(run.head_branch@, 32),
        Column::Event => spec_truncated(run.event@, 16),
        Column::PullRequest => spec_number_text(run.pr_number),
        Column::Id => decimal(run.database_id as nat),
        Column::Elapsed => spec_elapsed(run.started_at, run.updated_at, run.status@, now),
        Column::Age => spec_age_text(spec_elapsed_seconds(run.created_at, now)),
    }
}

/// The text of `run`'s cell in `column` at `now`: the status mark, the
/// title, workflow, branch and event cut to the column, `#` and the pull
/// request's number, the run's id, the elapsed time or the age.
pub fn run_cell_text(column: Column, run: &Run, now: Timestamp) -> (r: String)
    requires
        run_cell_cuts_cleanly(column, *run),
    ensures
        r@ == spec_run_cell_text(column, *run, now),
{
    match column {
        Column::Status => status_mark(run).0.to_owned(),
        Column::Title => truncate_owned(run.display_title.as_str(), 48),
        Column::Workflow => truncate_owned(run.workflow_label(), 18),
        Column::Branch => truncate_owned(run.head_branch.as_str(), 32),
        Column::Event => truncate_owned(run.event.as_str(), 16),
        Column::PullRequest => number_text(run.pr_number),
        Column::Id => decimal_text(run.database_id),
        Column::Elapsed => elapsed(run.started_at, run.updated_at, run.status.as_str(), now),
        Column::Age => age(run.created_at, now),
    }
}

/// Whether the text of `pull_request`'s cell in `column` can be cut to the
/// column's width.
pub open spec fn pr_cell_cuts_cleanly(column: PrColumn, pull_request: PullRequest) -> bool {
    match column {
        PrColumn::Title => cuts_cleanly(pull_request.title@, 48),
        PrColumn::Author => cuts_cleanly(pull_request.spec_author_login(), 18),
        PrColumn::Branch => cuts_cleanly(pull_request.head_ref_name@, 32),
        PrColumn::Base => cuts_cleanly(pull_request.base_ref_name@, 18),
        _ => true,
    }
}

/// The text of `pull_request`'s cell in `column` at `now`.
pub open spec fn spec_pr_cell_text(column: PrColumn, pull_request: PullRequest, now: Timestamp) -> Seq<char> {
    match column {
        PrColumn::Status => if pull_request.is_draft {
            "D"@
        } else {
            "O"@
        },
        PrColumn::Title => spec_truncated(pull_request.title@, 48),
        PrColumn::Author => spec_truncated(pull_request.spec_author_login(), 18),
        PrColumn::Branch => spec_truncated(pull_request.head_ref_name@, 32),
        PrColumn::Base => spec_truncated(pull_request.base_ref_name@, 18),
        PrColumn::Number => spec_number_text(Some(pull_request.number)),
        PrColumn::Age => spec_age_text(spec_elapsed_seconds(pull_request.created_at, now)),
        PrColumn::Updated => spec_age_text(spec_elapsed_seconds(pull_request.updated_at, now)),
    }
}

/// The text of `pull_request`'s cell in `column` at `now`.
pub fn pull_request_cell_text(column: PrColumn, pull_request: &PullRequest, now: Timestamp) -> (r: String)
    requires
        pr_cell_cuts_cleanly(column, *pull_request),
    ensures
        r@ == spec_pr_cell_text(column, *pull_request, now),
{
    match column {
        PrColumn::Status => pr_status_mark(pull_request).0.to_owned(),
        PrColumn::Title => truncate_owned(pull_request.title.as_str(), 48),
        PrColumn::Author => truncate_owned(pull_request.author_login(), 18),
        PrColumn::Branch => truncate_owned(pull_request.head_ref_name.as_str(), 32),
        PrColumn::Base => truncate_owned(pull_request.base_ref_name.as_str(), 18),
        PrColumn::Number => number_text(Some(pull_request.number)),
        PrColumn::Age => age(pull_request.created_at, now),
        PrColumn::Updated => age(pull_request.updated_at, now),
    }
}

/// The RFC 3339 text that `chrono` writes for the UTC time `seconds` and
/// `nanos` past the Unix epoch; `None` where chrono holds no such time.
pub uninterp spec fn rfc3339_text(seconds: i64, nanos: u32) -> Option<Seq<char>>;

/// Takes a time in with `chrono::DateTime::from_timestamp` and writes it with
/// `chrono::DateTime::<Utc>::to_rfc3339`; `None` where `from_timestamp`
/// holds no such time. Claimed: the result is `rfc3339_text` of the time, a
/// function of the time alone.
#[verifier::external_body]
fn rfc3339(time: Timestamp) -> (r: Option<String>)
    ensures
        match rfc3339_text(time.seconds, time.nanos) {
            Some(t) => r is Some && r->Some_0@ == t,
            None => r is None,
        },
{
    match chrono::DateTime::from_timestamp(time.seconds, time.nanos) {
        Some(t) => Some(t.to_rfc3339()),
        None => None,
    }
}

/// The RFC 3339 text of a time; nothing where there is no time, or where
/// the time lies outside what chrono holds.
pub open spec fn spec_time_text(time: Option<Timestamp>) -> Seq<char> {
    match time {
        Some(t) => match rfc3339_text(t.seconds, t.nanos) {
            Some(text) => text,
            None => ""@,
        },
        None => ""@,
    }
}

/// The text of an optional string, or nothing.
pub open spec fn spec_or_empty(value: Option<String>) -> Seq<char> {
    match value {
        Some(v) => v@,
        None => ""@,
    }
}

/// The lines of a pair list with their texts as sequences of characters.
pub open spec fn pairs_text(pairs: Seq<(String, String)>) -> Seq<(Seq<char>, Seq<char>)> {
    pairs.map_values(|p: (String, String)| (p.0@, p.1@))
}

/// What a failed run adds to its quick look: the reason of the failure
/// under the failure's label, where one is known, then each line of
/// failure detail.
pub open spec fn spec_failure_details(run: Run) -> Seq<(Seq<char>, Seq<char>)> {
    if crate::model::is_failure_label(run.spec_status_label()) {
        (match run.failure_reason {
            Some(reason) => seq![(run.spec_status_label(), reason@)],
            None => seq![],
        }) + run.failure_data@.map_values(|d: String| (""@, d@))
    } else {
        seq![]
    }
}

/// The fields that the quick look shows of every run at `now`.
pub open spec fn spec_run_fields(run: Run, now: Timestamp) -> Seq<(Seq<char>, Seq<char>)> {
    seq![
        ("status"@, run.spec_status_label()),
        ("conclusion"@, spec_or_empty(run.conclusion)),
        ("title"@, run.display_title@),
        ("workflow"@, run.spec_workflow_label()),
        ("branch"@, run.head_branch@),
        ("event"@, run.event@),
        ("pr"@, spec_number_text(run.pr_number)),
        ("id"@, decimal(run.database_id as nat)),
        ("created"@, spec_time_text(Some(run.created_at))),
        ("started"@, spec_time_text(run.started_at)),
        ("updated"@, spec_time_text(Some(run.updated_at))),
        ("elapsed"@, spec_elapsed(run.started_at, run.updated_at, run.status@, now)),
        ("age"@, spec_age_text(spec_elapsed_seconds(run.created_at, now))),
    ]
}

/// The quick look at a run at `now`: each label with its value.
pub open spec fn spec_run_details(run: Run, now: Timestamp) -> Seq<(Seq<char>, Seq<char>)> {
    spec_run_fields(run, now) + spec_failure_details(run)
}

fn time_text(time: Option<Timestamp>) -> (r: String)
    ensures
        r@ == spec_time_text(time),
{
    proof {
        reveal_strlit("");
    }
    match time {
        Some(t) => match rfc3339(t) {
            Some(text) => text,
            None => String::new(),
        },
        None => String::new(),
    }
}

fn push_pair(out: &mut Vec<(String, String)>, label: &str, value: String)
    ensures
        pairs_text(final(out)@) == pairs_text(old(out)@).push((label@, value@)),
{
    out.push((label.to_owned(), value));
    assert(pairs_text(out@) =~= pairs_text(old(out)@).push((label@, value@)));
}

/// The quick look at a run at `now`: status, conclusion, title, workflow,
/// branch, event, pull request, id, the three times, the elapsed time and
/// the age, then what a failed run reports of its failure.
pub fn run_details(run: &Run, now: Timestamp) -> (r: Vec<(String, String)>)
    ensures
        pairs_text(r@) == spec_run_details(*run, now),
{
    let conclusion = match &run.conclusion {
        Some(c) => c.clone(),
        None => {
            proof {
                reveal_strlit("");
            }
            String::new()
        },
    };
    let mut out: Vec<(String, String)> = Vec::new();
    push_pair(&mut out, "status", run.status_label().to_owned());
    push_pair(&mut out, "conclusion", conclusion);
    push_pair(&mut out, "title", run.display_title.clone());
    push_pair(&mut out, "workflow", run.workflow_label().to_owned());
    push_pair(&mut out, "branch", run.head_branch.clone());
    push_pair(&mut out, "event", run.event.clone());
    push_pair(&mut out, "pr", number_text(run.pr_number));
    push_pair(&mut out, "id", decimal_text(run.database_id));
    push_pair(&mut out, "created", time_text(Some(run.created_at)));
    push_pair(&mut out, "started", time_text(run.started_at));
    push_pair(&mut out, "updated", time_text(Some(run.updated_at)));
    push_pair(
        &mut out,
        "elapsed",
        elapsed(run.started_at, run.updated_at, run.status.as_str(), now),
    );
    push_pair(&mut out, "age", age(run.created_at, now));
    let ghost fields = pairs_text(out@);
    assert forall|k: int| 0 <= k < 13 implies #[trigger] fields[k] == spec_run_fields(*run, now)[k] by {
        assert(fields[k] == spec_run_fields(*run, now)[k]);
    }
    assert(fields =~= spec_run_fields(*run, now));
    let label = run.failure_label();
    match label {
        Some(l) => {
            match &run.failure_reason {
                Some(reason) => {
                    push_pair(&mut out, l, reason.clone());
                },
                None => {},
            }
            let ghost mid = pairs_text(out@);
            let mut i: usize = 0;
            while i < run.failure_data.len()
                invariant
                    i <= run.failure_data@.len(),
                    pairs_text(out@) =~= mid + run.failure_data@.take(i as int).map_values(
                        |d: String| (""@, d@),
                    ),
                decreases run.failure_data@.len() - i,
            {
                proof {
                    reveal_strlit("");
                }
                push_pair(&mut out, "", run.failure_data[i].clone());
                assert(run.failure_data@.take(i + 1).map_values(|d: String| (""@, d@))
                    =~= run.failure_data@.take(i as int).map_values(|d: String| (""@, d@)).push(
                    (""@, run.failure_data@[i as int]@),
                ));
                i = i + 1;
            }
            assert(run.failure_data@.take(i as int) =~= run.failure_data@);
        },
        None => {},
    }
    assert(pairs_text(out@) =~= spec_run_details(*run, now));
    out
}

/// The quick look at a pull request at `now`: each label with its value.
pub open spec fn spec_pull_request_details(pull_request: PullRequest, now: Timestamp) -> Seq<
    (Seq<char>, Seq<char>),
> {
    seq![
        ("status"@, pull_request.spec_status_label()),
        ("draft"@, if pull_request.is_draft {
            "yes"@
        } else {
            "no"@
        }),
        ("title"@, pull_request.title@),
        ("author"@, pull_request.spec_author_login()),
        ("branch"@, pull_request.head_ref_name@),
        ("base"@, pull_request.base_ref_name@),
        ("number"@, spec_number_text(Some(pull_request.number))),
        ("created"@, spec_time_text(Some(pull_request.created_at))),
        ("updated"@, spec_time_text(Some(pull_request.updated_at))),
        ("age"@, spec_age_text(spec_elapsed_seconds(pull_request.created_at, now))),
    ]
}

/// The quick look at a pull request at `now`.
pub fn pull_request_details(pull_request: &PullRequest, now: Timestamp) -> (r: Vec<(String, String)>)
    ensures
        pairs_text(r@) == spec_pull_request_details(*pull_request, now),
{
    let draft = if pull_request.is_draft {
        "yes"
    } else {
        "no"
    };
    let mut out: Vec<(String, String)> = Vec::new();
    push_pair(&mut out, "status", pull_request.status_label().to_owned());
    push_pair(&mut out, "draft", draft.to_owned());
    push_pair(&mut out, "title", pull_request.title.clone());
    push_pair(&mut out, "author", pull_request.author_login().to_owned());
    push_pair(&mut out, "branch", pull_request.head_ref_name.clone());
    push_pair(&mut out, "base", pull_request.base_ref_name.clone());
    push_pair(&mut out, "number", number_text(Some(pull_request.number)));
    push_pair(&mut out, "created", time_text(Some(pull_request.created_at)));
    push_pair(&mut out, "updated", time_text(Some(pull_request.updated_at)));
    push_pair(&mut out, "age", age(pull_request.created_at, now));
    assert(pairs_text(out@) =~= spec_pull_request_details(*pull_request, now));
    out
}

/// The scroll offset of the config panel that keeps the focused row in
/// view.
pub fn config_panel_scroll(state: &State, visible_lines: usize, max_scroll: usize) -> (r: usize)
    ensures
        r == spec_config_panel_scroll(state.config_focus, visible_lines, max_scroll),
{
    if visible_lines == 0 {
        return 0;
    }
    let focus = state.config_focus;
    let scroll = focus.saturating_add(1).saturating_sub(visible_lines);
    if scroll < max_scroll {
        scroll
    } else {
        max_scroll
    }
}

/// The scroll offset of the config panel for focus row `focus`.
pub open spec fn spec_config_panel_scroll(focus: usize, visible_lines: usize, max_scroll: usize) -> int {
    if visible_lines == 0 {
        0
    } else {
        let next = crate::app::inc(focus);
        let scroll = if next > visible_lines {
            next - visible_lines
        } else {
            0
        };
        if scroll < max_scroll {
            scroll
        } else {
            max_scroll as int
        }
    }
}

/// The scroll offset of a panel of `kind` showing `visible_lines` of its
/// lines, at most `max_scroll`: the config panel keeps its focused row in
/// view; the quick look and key commands panels keep their own offset,
/// brought down to `max_scroll`; the prompts do not scroll.
pub fn panel_scroll(state: &mut State, kind: PanelKind, visible_lines: usize, max_scroll: usize) -> (r: usize)
    ensures
        r == match kind {
            PanelKind::Config => spec_config_panel_scroll(old(state).config_focus, visible_lines, max_scroll),
            PanelKind::QuickLook => final(state).quick_look_scroll as int,
            PanelKind::Keys => final(state).keys_scroll as int,
            _ => 0,
        },
        final(state)@ == (StateView {
            quick_look_scroll: if kind == PanelKind::QuickLook && old(state).quick_look_scroll > max_scroll {
                max_scroll
            } else {
                old(state).quick_look_scroll
            },
            keys_scroll: if kind == PanelKind::Keys && old(state).keys_scroll > max_scroll {
                max_scroll
            } else {
                old(state).keys_scroll
            },
            ..old(state)@
        }),
{
    match kind {
        PanelKind::Config => config_panel_scroll(state, visible_lines, max_scroll),
        PanelKind::QuickLook => {
            if state.quick_look_scroll > max_scroll {
                state.quick_look_scroll = max_scroll;
            }
            state.quick_look_scroll
        },
        PanelKind::Keys => {
            if state.keys_scroll > max_scroll {
                state.keys_scroll = max_scroll;
            }
            state.keys_scroll
        },
        _ => 0,
    }
}

/// Whether the header fits on one line of `width` cells: the title, the
/// stale mark, the time of the last check and the spinner, with four cells
/// of spacing.
pub open spec fn spec_header_fits(
    title: Seq<char>,
    stale: Seq<char>,
    last_check: Seq<char>,
    refresh: Seq<char>,
    width: u16,
) -> bool {
    title.len() + stale.len() + last_check.len() + refresh.len() + 4 <= width
}

/// Whether the header fits on one line of `width` cells, so that the time
/// of the last check shares the title's line.
pub fn header_fits(title: &str, stale: &str, last_check: &str, refresh: &str, width: u16) -> (r: bool)
    ensures
        r == spec_header_fits(title@, stale@, last_check@, refresh@, width),
{
    let a = title.unicode_len() as u128;
    let b = stale.unicode_len() as u128;
    let c = last_check.unicode_len() as u128;
    let d = refresh.unicode_len() as u128;
    a + b + c + d + 4 <= width as u128
}

/// Whether the durations of the settings and of the draft are well formed.
pub open spec fn durations_wf(s: StateView) -> bool {
    &&& s.settings.interval.wf()
    &&& s.settings.cursor.hide_after.wf()
    &&& s.config_draft matches Some(d) ==> d.interval.wf() && d.cursor.hide_after.wf()
}

/// The value that the config panel shows for `row`: the draft's value
/// while a draft is open, the settings' otherwise.
pub open spec fn spec_config_value(row: ConfigRow, s: StateView) -> Seq<char> {
    match row {
        ConfigRow::Layout => match s.config_draft {
            Some(d) => d.layout.spec_name(),
            None => s.settings.layout.spec_name(),
        },
        ConfigRow::Interval => {
            let span = match s.config_draft {
                Some(d) => d.interval,
                None => s.settings.interval,
            };
            humantime_text(span.secs, span.nanos)
        },
        ConfigRow::Limit => decimal(
            match s.config_draft {
                Some(d) => d.limit,
                None => s.settings.limit,
            } as nat,
        ),
        ConfigRow::CursorAutoHide => if match s.config_draft {
            Some(d) => d.cursor.auto_hide,
            None => s.settings.cursor.auto_hide,
        } {
            "auto-hide enabled"@
        } else {
            "auto-hide disabled"@
        },
        ConfigRow::CursorHideAfter => {
            let span = match s.config_draft {
                Some(d) => d.cursor.hide_after,
                None => s.settings.cursor.hide_after,
            };
            humantime_text(span.secs, span.nanos)
        },
        ConfigRow::Columns => match s.config_draft {
            Some(d) => d.columns,
            None => columns_csv(s.settings.columns),
        },
        ConfigRow::PrColumns => match s.config_draft {
            Some(d) => d.pr_columns,
            None => pr_columns_csv(s.settings.pr_columns),
        },
    }
}

/// The value that the config panel shows for `row`.
pub fn config_value(row: ConfigRow, state: &State) -> (r: String)
    requires
        durations_wf(state@),
    ensures
        r@ == spec_config_value(row, state@),
{
    match row {
        ConfigRow::Layout => {
            let layout = match &state.config_draft {
                Some(d) => d.layout,
                None => state.settings.layout,
            };
            layout.name().to_owned()
        },
        ConfigRow::Interval => {
            let span = match &state.config_draft {
                Some(d) => d.interval,
                None => state.settings.interval,
            };
            format_span(span)
        },
        ConfigRow::Limit => {
            let limit = match &state.config_draft {
                Some(d) => d.limit,
                None => state.settings.limit,
            };
            decimal_text(limit as u64)
        },
        ConfigRow::CursorAutoHide => {
            let auto_hide = match &state.config_draft {
                Some(d) => d.cursor.auto_hide,
                None => state.settings.cursor.auto_hide,
            };
            if auto_hide {
                "auto-hide enabled".to_owned()
            } else {
                "auto-hide disabled".to_owned()
            }
        },
        ConfigRow::CursorHideAfter => {
            let span = match &state.config_draft {
                Some(d) => d.cursor.hide_after,
                None => state.settings.cursor.hide_after,
            };
            format_span(span)
        },
        ConfigRow::Columns => match &state.config_draft {
            Some(d) => d.columns.clone(),
            None => columns_text(&state.settings.columns),
        },
        ConfigRow::PrColumns => match &state.config_draft {
            Some(d) => d.pr_columns.clone(),
            None => pr_columns_text(&state.settings.pr_columns),
        },
    }
}

/// The parts of a text field with its cursor: the visible text before the
/// cursor, the character under it (a space past the end), and the visible
/// text after it padded with spaces to the field's width of 42 cells.
pub open spec fn spec_text_field_parts(value: Seq<char>, cursor: int) -> (Seq<char>, char, Seq<char>) {
    let len = value.len() as int;
    let c = if cursor < len {
        cursor
    } else {
        len
    };
    let start = if c > 41 {
        c - 41
    } else {
        0
    };
    let end = if start + 41 < len {
        start + 41
    } else {
        len
    };
    let before = value.subrange(start, c);
    let under = if c < len {
        value[c]
    } else {
        ' '
    };
    let after = if c < end {
        value.subrange(c + 1, end)
    } else {
        seq![]
    };
    let used = before.len() + 1 + after.len();
    let padding = if used < 42 {
        42 - used
    } else {
        0
    };
    (before, under, after + Seq::new(padding as nat, |i: int| ' '))
}

/// The parts of a text field with its cursor.
pub fn text_field_parts(value: &str, cursor: usize) -> (r: (String, char, String))
    ensures
        (r.0@, r.1, r.2@) == spec_text_field_parts(value@, cursor as int),
{
    let len = value.unicode_len();
    let c = if cursor < len {
        cursor
    } else {
        len
    };
    let start = if c > 41 {
        c - 41
    } else {
        0
    };
    let end = if start + 41 < len {
        start + 41
    } else {
        len
    };
    let before = value.substring_char(start, c).to_owned();
    let under = if c < len {
        value.get_char(c)
    } else {
        ' '
    };
    let mut after = if c < end {
        value.substring_char(c + 1, end).to_owned()
    } else {
        String::new()
    };
    let used = (c - start) + 1 + if c < end {
        end - (c + 1)
    } else {
        0
    };
    let padding = if used < 42 {
        42 - used
    } else {
        0
    };
    let ghost after0 = after@;
    let mut k: usize = 0;
    while k < padding
        invariant
            k <= padding,
            after@ =~= after0 + Seq::new(k as nat, |i: int| ' '),
        decreases padding - k,
    {
        after.push(' ');
        k = k + 1;
    }
    (before, under, after)
}

/// The key hints of the footer on each screen.
pub fn footer_hint(screen: Screen) -> (r: &'static str)
    ensures
        r@ == match screen {
            Screen::Runs => "⇥ PRs  l layout  r refresh  c config  k keys  ␣ quick look  ↑/↓ select  ↵ open run  q/ESC quit"@,
            Screen::PullRequests => "⇥ Actions  l layout  r refresh  c config  k keys  ␣ quick look  ↑/↓ select  ↵ open PR  q/ESC quit"@,
        },
{
    match screen {
        Screen::Runs => "⇥ PRs  l layout  r refresh  c config  k keys  ␣ quick look  ↑/↓ select  ↵ open run  q/ESC quit",
        Screen::PullRequests => "⇥ Actions  l layout  r refresh  c config  k keys  ␣ quick look  ↑/↓ select  ↵ open PR  q/ESC quit",
    }
}

/// The key hints at the foot of each panel.
pub fn panel_footer_hint(kind: PanelKind) -> (r: &'static str)
    ensures
        r@ == match kind {
            PanelKind::Config => "↑/↓ selects  ←/→ or -/+ edit  q/ESC cancel  ↵ accept"@,
            PanelKind::Keys => "↑/↓ scroll  q / ESC closes this panel"@,
            PanelKind::QuickLook => "↑/↓ scroll  ␣ / q / ESC closes this panel"@,
            PanelKind::AuthLogin => "←/→ choose  ↵ confirm  Y yes  N no  ESC closes this panel"@,
            PanelKind::Destroy => "←/→ choose  ↵ confirm  Y yes  N no  M massive  ESC closes this panel"@,
            PanelKind::DestroyMassiveConfirm => "←/→ choose  ↵ confirm  Y yes  N no  ESC closes this panel"@,
        },
{
    match kind {
        PanelKind::Config => "↑/↓ selects  ←/→ or -/+ edit  q/ESC cancel  ↵ accept",
        PanelKind::Keys => "↑/↓ scroll  q / ESC closes this panel",
        PanelKind::QuickLook => "↑/↓ scroll  ␣ / q / ESC closes this panel",
        PanelKind::AuthLogin => "←/→ choose  ↵ confirm  Y yes  N no  ESC closes this panel",
        PanelKind::Destroy => "←/→ choose  ↵ confirm  Y yes  N no  M massive  ESC closes this panel",
        PanelKind::DestroyMassiveConfirm => "←/→ choose  ↵ confirm  Y yes  N no  ESC closes this panel",
    }
}

/// A run's status mark follows how the run ended: a cross for a run whose
/// conclusion (or, without one, its status) is `failure`, `cancelled`,
/// `timed_out`, `startup_failure` or `action_required`, which is a failed
/// run as the run filters count it; a check mark for one that succeeded;
/// the failure tone for no other run.
pub proof fn lemma_status_mark_follows_outcome(run: Run)
    ensures
        ({
            let label = run.spec_status_label();
            label == "failure"@ || label == "cancelled"@ || label == "timed_out"@
                || label == "startup_failure"@ || label == "action_required"@
        }) ==> spec_status_mark(run) == ("✗"@, StatusTone::Failure),
        crate::runs::spec_run_failed(run) <==> spec_status_mark(run).1 == StatusTone::Failure,
        crate::runs::spec_run_succeeded(run) <==> spec_status_mark(run) == ("✓"@, StatusTone::Success),
{
    reveal_strlit("✓");
    reveal_strlit("✗");
    reveal_strlit("success");
    reveal_strlit("failure");
    reveal_strlit("cancelled");
    reveal_strlit("timed_out");
    reveal_strlit("startup_failure");
    reveal_strlit("action_required");
    let label = run.spec_status_label();
    if crate::model::is_failure_label(label) {
        assert(label[0] != "success"@[0] || label.len() != "success"@.len());
    }
}

} // verus!
