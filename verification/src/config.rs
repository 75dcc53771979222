//! Settings: the merge of command-line flags over the configuration file
//! over the defaults, and the parsing of durations and layouts.

use vstd::prelude::*;
use vstd::string::*;
use crate::columns::{
    column_fault_message, column_list, parse_columns_csv, parse_columns_list, parse_pr_columns_csv,
    parse_pr_columns_list, pr_column_list, Column, ColumnError, ColumnFault, PrColumn,
};
use crate::text::{
    is_digit, is_white_space, is_whitespace_char, normalized_text, split_on, text_eq, trim_text,
    trimmed,
};

verus! {

/// The refresh interval, in seconds, when none is chosen.
pub const DEFAULT_INTERVAL_SECS: u64 = 15;

/// The shortest refresh interval accepted, in seconds.
pub const MIN_INTERVAL_SECS: u64 = 5;

/// How many runs are listed when no limit is chosen.
pub const DEFAULT_LIMIT: usize = 20;

/// Whether the cursor hides itself when nothing else is chosen.
pub const DEFAULT_CURSOR_AUTO_HIDE: bool = true;

/// The seconds without navigation after which the cursor hides, when no
/// delay is chosen.
pub const DEFAULT_CURSOR_HIDE_AFTER_SECS: u64 = 5;

/// A length of time: whole seconds and the nanoseconds past them.
#[derive(Debug, Clone, Copy, PartialEq, Eq, Structural)]
pub struct TimeSpan {
    pub secs: u64,
    pub nanos: u32,
}

impl TimeSpan {
    /// A span of whole seconds.
    pub fn from_secs(secs: u64) -> (r: TimeSpan)
        ensures
            r == (TimeSpan { secs, nanos: 0 }),
    {
        TimeSpan { secs, nanos: 0 }
    }

    /// Whether the nanoseconds are below one second.
    pub open spec fn wf(self) -> bool {
        self.nanos < 1_000_000_000
    }
}

/// Whether span `a` is shorter than span `b`.
pub open spec fn span_lt(a: TimeSpan, b: TimeSpan) -> bool {
    a.secs as int * 1_000_000_000 + a.nanos < b.secs as int * 1_000_000_000 + b.nanos
}

/// Whether span `a` is shorter than span `b`.
pub fn span_less(a: TimeSpan, b: TimeSpan) -> (r: bool)
    ensures
        r == span_lt(a, b),
{
    (a.secs as u128) * 1_000_000_000u128 + (a.nanos as u128) < (b.secs as u128) * 1_000_000_000u128
        + (b.nanos as u128)
}

/// Which runs the runs table shows.
#[derive(Debug, Clone, Copy, PartialEq, Eq, Structural)]
pub enum DashboardLayout {
    /// Runs in progress, unresolved failures and the latest success of each
    /// workflow.
    InProgress,
    /// Every run.
    All,
}

impl DashboardLayout {
    /// The layout that follows `self` when the layout is cycled.
    pub open spec fn spec_next(self) -> DashboardLayout {
        match self {
            DashboardLayout::InProgress => DashboardLayout::All,
            DashboardLayout::All => DashboardLayout::InProgress,
        }
    }

    /// The layout that follows `self` when the layout is cycled.
    pub fn next(self) -> (r: DashboardLayout)
        ensures
            r == self.spec_next(),
    {
        match self {
            DashboardLayout::InProgress => DashboardLayout::All,
            DashboardLayout::All => DashboardLayout::InProgress,
        }
    }

    /// The name of the layout in settings (its display text).
    pub open spec fn spec_name(self) -> Seq<char> {
        match self {
            DashboardLayout::InProgress => "in-progress"@,
            DashboardLayout::All => "all"@,
        }
    }

    /// The name of the layout in settings (its display text).
    pub fn name(self) -> (r: &'static str)
        ensures
            r@ == self.spec_name(),
    {
        match self {
            DashboardLayout::InProgress => "in-progress",
            DashboardLayout::All => "all",
        }
    }

    /// The layout named by `s`, if any.
    pub open spec fn spec_from_name(s: Seq<char>) -> Option<DashboardLayout> {
        if s == "in-progress"@ {
            Some(DashboardLayout::InProgress)
        } else if s == "all"@ {
            Some(DashboardLayout::All)
        } else {
            None
        }
    }

    /// The layout named by `value`, compared after trimming white space and
    /// lower-casing ASCII letters.
    pub fn parse(value: &str) -> (r: Result<DashboardLayout, ConfigError>)
        ensures
            match DashboardLayout::spec_from_name(normalized_text(value@)) {
                Some(l) => r == Ok::<DashboardLayout, ConfigError>(l),
                None => r is Err && r->Err_0@ == ConfigFault::UnknownLayout(
                    normalized_text(value@),
                ),
            },
    {
        let key = crate::text::normalize(value);
        if text_eq(key.as_str(), "in-progress") {
            Ok(DashboardLayout::InProgress)
        } else if text_eq(key.as_str(), "all") {
            Ok(DashboardLayout::All)
        } else {
            Err(ConfigError::UnknownLayout(key))
        }
    }
}

/// Filters handed to `gh run list`.
#[derive(Debug, Clone)]
pub struct Filters {
    pub branch: Option<String>,
    pub workflow: Option<String>,
    pub status: Option<String>,
    pub event: Option<String>,
}

/// The navigation cursor's auto-hide setting.
#[derive(Debug, Clone, Copy, PartialEq, Eq, Structural)]
pub struct CursorSettings {
    pub auto_hide: bool,
    pub hide_after: TimeSpan,
}

/// Everything the dashboard is configured with.
#[derive(Debug, Clone)]
pub struct Settings {
    pub repo: Option<String>,
    pub interval: TimeSpan,
    pub limit: usize,
    pub layout: DashboardLayout,
    pub columns: Vec<Column>,
    pub pr_columns: Vec<PrColumn>,
    pub filters: Filters,
    pub cursor: CursorSettings,
    pub global: bool,
}

/// The command-line flags, as the argument parser hands them over.
#[derive(Debug, Clone)]
pub struct Cli {
    pub repo: Option<String>,
    pub interval: Option<String>,
    pub limit: Option<usize>,
    pub layout: Option<String>,
    pub columns: Option<String>,
    pub pr_columns: Option<String>,
    pub branch: Option<String>,
    pub workflow: Option<String>,
    pub status: Option<String>,
    pub event: Option<String>,
    pub cursor_auto_hide: bool,
    pub no_cursor_auto_hide: bool,
    pub cursor_hide_after: Option<String>,
    pub independent: bool,
}

/// The `[filters]` table of the configuration file.
#[derive(Debug, Clone)]
pub struct FileFilters {
    pub branch: Option<String>,
    pub workflow: Option<String>,
    pub status: Option<String>,
    pub event: Option<String>,
}

/// The `[cursor]` table of the configuration file.
#[derive(Debug, Clone)]
pub struct FileCursor {
    pub auto_hide: Option<bool>,
    pub hide_after: Option<String>,
}

/// The configuration file, as its reader hands it over.
#[derive(Debug, Clone)]
pub struct FileConfig {
    pub repo: Option<String>,
    pub interval: Option<String>,
    pub limit: Option<usize>,
    pub layout: Option<String>,
    pub columns: Option<Vec<String>>,
    pub pr_columns: Option<Vec<String>>,
    pub filters: Option<FileFilters>,
    pub cursor: Option<FileCursor>,
}

impl FileConfig {
    /// A configuration file that sets nothing.
    pub fn empty() -> (r: FileConfig)
        ensures
            r.repo is None,
            r.interval is None,
            r.limit is None,
            r.layout is None,
            r.columns is None,
            r.pr_columns is None,
            r.filters is None,
            r.cursor is None,
    {
        FileConfig {
            repo: None,
            interval: None,
            limit: None,
            layout: None,
            columns: None,
            pr_columns: None,
            filters: None,
            cursor: None,
        }
    }
}

/// Why settings were refused.
#[derive(Debug, Clone)]
pub enum ConfigError {
    /// A duration that could not be parsed, as it was given.
    InvalidInterval(String),
    /// A refresh interval below five seconds.
    IntervalTooShort,
    /// A column list that was refused.
    Columns(ColumnError),
    /// A layout name that is not known (trimmed, lower-cased).
    UnknownLayout(String),
}

/// What a `ConfigError` says, with its texts as sequences of characters.
pub enum ConfigFault {
    InvalidInterval(Seq<char>),
    IntervalTooShort,
    Columns(ColumnFault),
    UnknownLayout(Seq<char>),
}

impl View for ConfigError {
    type V = ConfigFault;

    open spec fn view(&self) -> ConfigFault {
        match self {
            ConfigError::InvalidInterval(s) => ConfigFault::InvalidInterval(s@),
            ConfigError::IntervalTooShort => ConfigFault::IntervalTooShort,
            ConfigError::Columns(e) => ConfigFault::Columns(e@),
            ConfigError::UnknownLayout(s) => ConfigFault::UnknownLayout(s@),
        }
    }
}

/// The text of a settings refusal, as the dashboard shows it.
pub open spec fn config_fault_message(f: ConfigFault) -> Seq<char> {
    match f {
        ConfigFault::InvalidInterval(v) => "invalid interval '"@ + v + "'"@,
        ConfigFault::IntervalTooShort => "interval must be at least 5s"@,
        ConfigFault::Columns(e) => column_fault_message(e),
        ConfigFault::UnknownLayout(v) => "unknown layout '"@ + v + "'. Valid layouts: "@
            + "in-progress,all"@,
    }
}

impl ConfigError {
    /// The text of the refusal, as the dashboard shows it.
    pub fn message(&self) -> (r: String)
        ensures
            r@ == config_fault_message(self@),
    {
        match self {
            ConfigError::InvalidInterval(v) => {
                let mut m = "invalid interval '".to_owned();
                m.append(v.as_str());
                m.append("'");
                m
            },
            ConfigError::IntervalTooShort => "interval must be at least 5s".to_owned(),
            ConfigError::Columns(e) => e.message(),
            ConfigError::UnknownLayout(v) => {
                let mut m = "unknown layout '".to_owned();
                m.append(v.as_str());
                m.append("'. Valid layouts: ");
                m.append("in-progress,all");
                m
            },
        }
    }
}

/// `humantime::DurationError`, the error of `humantime::parse_duration`,
/// carried as an opaque value.
#[verifier::external_type_specification]
#[verifier::external_body]
pub struct ExDurationError(humantime::DurationError);

/// The duration, as whole seconds and nanoseconds, that
/// `humantime::parse_duration` reads from a text, or `None` where it refuses
/// the text.
pub uninterp spec fn humantime_duration(text: Seq<char>) -> Option<(u64, u32)>;

/// The seconds of the largest unit a duration text can name, a year of
/// 365.25 days.
pub const YEAR_SECONDS: u64 = 31_557_600;

/// The number groups of a duration text, read from its start: the sum of
/// (value + 1) over the groups already closed, and the value of the group
/// being read. A group runs over digits and white space, reading its digits
/// together as one number; any other character closes it.
pub open spec fn duration_groups(text: Seq<char>) -> (int, int)
    decreases text.len(),
{
    if text.len() == 0 {
        (0, 0)
    } else {
        let (closed, current) = duration_groups(text.drop_last());
        let c = text.last();
        if is_digit(c) {
            (closed, current * 10 + ((c as u32) - 48))
        } else if is_white_space(c) {
            (closed, current)
        } else {
            (closed + current + 1, 0)
        }
    }
}

/// The sum of (value + 1) over the number groups of a duration text.
pub open spec fn duration_weight(text: Seq<char>) -> int {
    duration_groups(text).0 + duration_groups(text).1 + 1
}

/// Whether a duration text, with each of its numbers counted as that many
/// years plus one more, stays within `u64::MAX` seconds. Every number the
/// parser reads, and every fraction, lies within one group and counts at
/// most a year per unit (a fraction less than one unit), so the parser's
/// seconds count stays within that total and never carries a whole second
/// of nanoseconds into `u64::MAX` seconds, where `Duration::new` panics.
pub open spec fn duration_text_fits(text: Seq<char>) -> bool {
    YEAR_SECONDS * duration_weight(text) <= u64::MAX
}

proof fn lemma_duration_groups_nonnegative(text: Seq<char>)
    ensures
        duration_groups(text).0 >= 0,
        duration_groups(text).1 >= 0,
    decreases text.len(),
{
    if text.len() > 0 {
        lemma_duration_groups_nonnegative(text.drop_last());
    }
}

/// Whether a duration text fits, as `duration_text_fits` says.
pub fn duration_fits(text: &str) -> (r: bool)
    ensures
        r == duration_text_fits(text@),
{
    let limit: u64 = 584_542_046_090;
    assert(YEAR_SECONDS * limit <= u64::MAX && YEAR_SECONDS * (limit + 1) > u64::MAX);
    let n = text.unicode_len();
    let mut closed: u64 = 0;
    let mut current: u64 = 0;
    let mut over = false;
    let mut i: usize = 0;
    while i < n
        invariant
            n == text@.len(),
            i <= n,
            limit == 584_542_046_090,
            !over ==> duration_groups(text@.take(i as int)) == (closed as int, current as int)
                && closed + current + 1 <= limit,
            over ==> duration_weight(text@.take(i as int)) > limit,
        decreases n - i,
    {
        let c = text.get_char(i);
        let ghost prev = text@.take(i as int);
        assert(text@.take(i + 1).drop_last() =~= prev);
        assert(text@.take(i + 1).last() == c);
        proof {
            lemma_duration_groups_nonnegative(prev);
        }
        if !over {
            if (c as u32) >= 48 && (c as u32) <= 57 {
                let d = ((c as u32) - 48) as u64;
                let room = limit - closed - 1;
                if (current as u128) * 10 + (d as u128) > room as u128 {
                    over = true;
                } else {
                    current = current * 10 + d;
                }
            } else if !is_whitespace_char(c) {
                if closed + current + 2 > limit {
                    over = true;
                } else {
                    closed = closed + current + 1;
                    current = 0;
                }
            }
        }
        i = i + 1;
    }
    assert(text@.take(n as int) =~= text@);
    !over
}

/// Calls `humantime::parse_duration`. Claimed: it succeeds exactly where
/// `humantime_duration` names a value, and then gives that value; the
/// nanoseconds of a `std::time::Duration` are below one second. Which error
/// it gives is not stated. The parser panics when it carries a whole second
/// of nanoseconds into a seconds count of `u64::MAX`; the text is kept to
/// totals far below that.
#[verifier::external_body]
fn humantime_parse(text: &str) -> (r: Result<TimeSpan, humantime::DurationError>)
    requires
        duration_text_fits(text@),
    ensures
        r is Ok <==> humantime_duration(text@) is Some,
        r is Ok ==> r->Ok_0.secs == humantime_duration(text@)->Some_0.0 && r->Ok_0.nanos
            == humantime_duration(text@)->Some_0.1,
        r is Ok ==> r->Ok_0.nanos < 1_000_000_000,
{
    match humantime::parse_duration(text) {
        Ok(d) => Ok(TimeSpan { secs: d.as_secs(), nanos: d.subsec_nanos() }),
        Err(e) => Err(e),
    }
}

/// The text that `humantime::format_duration` writes for a span of `secs`
/// seconds and `nanos` nanoseconds.
pub uninterp spec fn humantime_text(secs: u64, nanos: u32) -> Seq<char>;

/// Calls `humantime::format_duration` and writes its result. Claimed: the
/// text is `humantime_text` of the span, a function of the span alone.
#[verifier::external_body]
pub(crate) fn format_span(span: TimeSpan) -> (r: String)
    requires
        span.wf(),
    ensures
        r@ == humantime_text(span.secs, span.nanos),
{
    humantime::format_duration(std::time::Duration::new(span.secs, span.nanos)).to_string()
}

/// The span that a duration text denotes, where it is read. A text that
/// does not fit, as `duration_text_fits` says, is refused.
pub open spec fn interval_of(text: Seq<char>) -> Result<TimeSpan, ConfigFault> {
    if !duration_text_fits(text) {
        Err(ConfigFault::InvalidInterval(text))
    } else {
        match humantime_duration(text) {
            Some(d) => Ok(TimeSpan { secs: d.0, nanos: d.1 }),
            None => Err(ConfigFault::InvalidInterval(text)),
        }
    }
}

/// Reads a duration such as `15s` or `1m`.
pub fn parse_interval(value: &str) -> (r: Result<TimeSpan, ConfigError>)
    ensures
        match interval_of(value@) {
            Ok(d) => r == Ok::<TimeSpan, ConfigError>(d) && d.wf(),
            Err(f) => r is Err && r->Err_0@ == f,
        },
{
    if !duration_fits(value) {
        return Err(ConfigError::InvalidInterval(value.to_owned()));
    }
    match humantime_parse(value) {
        Ok(d) => Ok(d),
        Err(_) => Err(ConfigError::InvalidInterval(value.to_owned())),
    }
}

/// The text of `value` without surrounding white space, when anything is left.
pub open spec fn spec_non_empty(value: Option<String>) -> Option<Seq<char>> {
    match value {
        Some(v) => if trimmed(v@).len() > 0 {
            Some(trimmed(v@))
        } else {
            None
        },
        None => None,
    }
}

/// The text of `value` without surrounding white space, when anything is left.
pub fn non_empty(value: Option<String>) -> (r: Option<String>)
    ensures
        match spec_non_empty(value) {
            Some(t) => r is Some && r->Some_0@ == t,
            None => r is None,
        },
{
    match value {
        Some(v) => {
            let t = trim_text(v.as_str());
            if t.as_str().is_empty() {
                None
            } else {
                Some(t)
            }
        },
        None => None,
    }
}

/// The first of two values that is non-empty after trimming.
pub open spec fn first_non_empty(first: Option<String>, second: Option<String>) -> Option<
    Seq<char>,
> {
    match spec_non_empty(first) {
        Some(t) => Some(t),
        None => spec_non_empty(second),
    }
}

fn non_empty_or(first: Option<String>, second: Option<String>) -> (r: Option<String>)
    ensures
        match first_non_empty(first, second) {
            Some(t) => r is Some && r->Some_0@ == t,
            None => r is None,
        },
{
    match non_empty(first) {
        Some(t) => Some(t),
        None => non_empty(second),
    }
}

/// The auto-hide choice that the command line makes, if it makes one.
pub open spec fn spec_cli_cursor_auto_hide(args: Cli) -> Option<bool> {
    if args.cursor_auto_hide {
        Some(true)
    } else if args.no_cursor_auto_hide {
        Some(false)
    } else {
        None
    }
}

/// The auto-hide choice that the command line makes, if it makes one.
pub fn cli_cursor_auto_hide(args: &Cli) -> (r: Option<bool>)
    ensures
        r == spec_cli_cursor_auto_hide(*args),
{
    if args.cursor_auto_hide {
        Some(true)
    } else if args.no_cursor_auto_hide {
        Some(false)
    } else {
        None
    }
}

/// Settings with their texts as sequences of characters.
pub struct SettingsView {
    pub repo: Option<Seq<char>>,
    pub interval: TimeSpan,
    pub limit: usize,
    pub layout: DashboardLayout,
    pub columns: Seq<Column>,
    pub pr_columns: Seq<PrColumn>,
    pub branch: Option<Seq<char>>,
    pub workflow: Option<Seq<char>>,
    pub status: Option<Seq<char>>,
    pub event: Option<Seq<char>>,
    pub cursor: CursorSettings,
    pub global: bool,
}

/// The text of an optional string.
pub open spec fn opt_text(o: Option<String>) -> Option<Seq<char>> {
    match o {
        Some(s) => Some(s@),
        None => None,
    }
}

impl View for Settings {
    type V = SettingsView;

    open spec fn view(&self) -> SettingsView {
        SettingsView {
            repo: opt_text(self.repo),
            interval: self.interval,
            limit: self.limit,
            layout: self.layout,
            columns: self.columns@,
            pr_columns: self.pr_columns@,
            branch: opt_text(self.filters.branch),
            workflow: opt_text(self.filters.workflow),
            status: opt_text(self.filters.status),
            event: opt_text(self.filters.event),
            cursor: self.cursor,
            global: self.global,
        }
    }
}

impl Settings {
    /// Whether the durations of the settings are well formed.
    pub open spec fn wf(&self) -> bool {
        self.interval.wf() && self.cursor.hide_after.wf()
    }
}

/// The command-line value, else the configuration file's.
pub open spec fn either<T>(first: Option<T>, second: Option<T>) -> Option<T> {
    match first {
        Some(v) => Some(v),
        None => second,
    }
}

/// The refresh interval that the flags and the file choose.
pub open spec fn chosen_interval(args: Cli, file: FileConfig) -> Result<TimeSpan, ConfigFault> {
    match either(args.interval, file.interval) {
        Some(v) => interval_of(v@),
        None => Ok(TimeSpan { secs: DEFAULT_INTERVAL_SECS, nanos: 0 }),
    }
}

/// The runs-table columns that the flags and the file choose.
pub open spec fn chosen_columns(args: Cli, file: FileConfig) -> Result<Seq<Column>, ColumnFault> {
    match args.columns {
        Some(v) => column_list(split_on(v@, ',')),
        None => match file.columns {
            Some(vs) => column_list(vs@.map_values(|p: String| p@)),
            None => Ok(Column::spec_default_columns()),
        },
    }
}

/// The pull request columns that the flags and the file choose.
pub open spec fn chosen_pr_columns(args: Cli, file: FileConfig) -> Result<
    Seq<PrColumn>,
    ColumnFault,
> {
    match args.pr_columns {
        Some(v) => pr_column_list(split_on(v@, ',')),
        None => match file.pr_columns {
            Some(vs) => pr_column_list(vs@.map_values(|p: String| p@)),
            None => Ok(PrColumn::spec_default_columns()),
        },
    }
}

/// The layout that the flags and the file choose.
pub open spec fn chosen_layout(args: Cli, file: FileConfig) -> Result<DashboardLayout, ConfigFault> {
    match either(args.layout, file.layout) {
        Some(v) => match DashboardLayout::spec_from_name(normalized_text(v@)) {
            Some(l) => Ok(l),
            None => Err(ConfigFault::UnknownLayout(normalized_text(v@))),
        },
        None => Ok(DashboardLayout::InProgress),
    }
}

/// The cursor hiding delay that the flags and the file choose.
pub open spec fn chosen_hide_after(args: Cli, file: FileConfig) -> Result<TimeSpan, ConfigFault> {
    let file_value = match file.cursor {
        Some(c) => c.hide_after,
        None => None,
    };
    match either(args.cursor_hide_after, file_value) {
        Some(v) => interval_of(v@),
        None => Ok(TimeSpan { secs: DEFAULT_CURSOR_HIDE_AFTER_SECS, nanos: 0 }),
    }
}

/// The filter value of one field: the flag's when non-empty, else the
/// file's when non-empty.
pub open spec fn file_filter(file: FileConfig, pick: spec_fn(FileFilters) -> Option<String>) -> Option<String> {
    match file.filters {
        Some(f) => pick(f),
        None => None,
    }
}

/// The settings that the flags and the file give, or why they are refused.
/// Checks are made in this order: interval, its minimum, columns, pull
/// request columns, layout, cursor delay.
pub open spec fn load_settings(args: Cli, file: FileConfig) -> Result<SettingsView, ConfigFault> {
    match chosen_interval(args, file) {
        Err(f) => Err(f),
        Ok(interval) => if interval.secs < MIN_INTERVAL_SECS {
            Err(ConfigFault::IntervalTooShort)
        } else {
            match chosen_columns(args, file) {
                Err(f) => Err(ConfigFault::Columns(f)),
                Ok(columns) => match chosen_pr_columns(args, file) {
                    Err(f) => Err(ConfigFault::Columns(f)),
                    Ok(pr_columns) => match chosen_layout(args, file) {
                        Err(f) => Err(f),
                        Ok(layout) => match chosen_hide_after(args, file) {
                            Err(f) => Err(f),
                            Ok(hide_after) => Ok(
                                SettingsView {
                                    repo: first_non_empty(args.repo, file.repo),
                                    interval,
                                    limit: match either(args.limit, file.limit) {
                                        Some(l) => l,
                                        None => DEFAULT_LIMIT,
                                    },
                                    layout,
                                    columns,
                                    pr_columns,
                                    branch: first_non_empty(
                                        args.branch,
                                        file_filter(file, |f: FileFilters| f.branch),
                                    ),
                                    workflow: first_non_empty(
                                        args.workflow,
                                        file_filter(file, |f: FileFilters| f.workflow),
                                    ),
                                    status: first_non_empty(
                                        args.status,
                                        file_filter(file, |f: FileFilters| f.status),
                                    ),
                                    event: first_non_empty(
                                        args.event,
                                        file_filter(file, |f: FileFilters| f.event),
                                    ),
                                    cursor: CursorSettings {
                                        auto_hide: match spec_cli_cursor_auto_hide(args) {
                                            Some(b) => b,
                                            None => match file.cursor {
                                                Some(c) => match c.auto_hide {
                                                    Some(b) => b,
                                                    None => DEFAULT_CURSOR_AUTO_HIDE,
                                                },
                                                None => DEFAULT_CURSOR_AUTO_HIDE,
                                            },
                                        },
                                        hide_after,
                                    },
                                    global: !args.independent,
                                },
                            ),
                        },
                    },
                },
            }
        },
    }
}

fn either_text(first: Option<String>, second: Option<String>) -> (r: Option<String>)
    ensures
        r == either(first, second),
{
    match first {
        Some(v) => Some(v),
        None => second,
    }
}

fn optional_interval(value: Option<String>, default_secs: u64) -> (r: Result<
    TimeSpan,
    ConfigError,
>)
    ensures
        match (match value {
            Some(v) => interval_of(v@),
            None => Ok(TimeSpan { secs: default_secs, nanos: 0 }),
        }) {
            Ok(d) => r == Ok::<TimeSpan, ConfigError>(d) && d.wf(),
            Err(f) => r is Err && r->Err_0@ == f,
        },
{
    match value {
        Some(v) => parse_interval(v.as_str()),
        None => Ok(TimeSpan::from_secs(default_secs)),
    }
}

impl Settings {
    /// Merges the command-line flags over the configuration file over the
    /// defaults (interval 15s, limit 20, in-progress layout, default columns,
    /// cursor auto-hide after 5s, shared cache), refusing a bad value.
    #[verifier::rlimit(60)]
    pub fn load(args: Cli, file: FileConfig) -> (r: Result<Settings, ConfigError>)
        ensures
            match load_settings(args, file) {
                Ok(v) => r is Ok && r->Ok_0@ == v && r->Ok_0.wf(),
                Err(f) => r is Err && r->Err_0@ == f,
            },
    {
        let ghost a = args;
        let ghost fc = file;
        let cli_auto_hide = cli_cursor_auto_hide(&args);
        let interval = match optional_interval(either_text(args.interval, file.interval), DEFAULT_INTERVAL_SECS) {
            Ok(d) => d,
            Err(e) => return Err(e),
        };
        if interval.secs < MIN_INTERVAL_SECS {
            return Err(ConfigError::IntervalTooShort);
        }
        let columns = match args.columns {
            Some(v) => parse_columns_csv(v.as_str()),
            None => match file.columns {
                Some(vs) => parse_columns_list(&vs),
                None => Ok(Column::default_columns()),
            },
        };
        let columns = match columns {
            Ok(c) => c,
            Err(e) => return Err(ConfigError::Columns(e)),
        };
        let pr_columns = match args.pr_columns {
            Some(v) => parse_pr_columns_csv(v.as_str()),
            None => match file.pr_columns {
                Some(vs) => parse_pr_columns_list(&vs),
                None => Ok(PrColumn::default_columns()),
            },
        };
        let pr_columns = match pr_columns {
            Ok(c) => c,
            Err(e) => return Err(ConfigError::Columns(e)),
        };
        let layout = match either_text(args.layout, file.layout) {
            Some(v) => match DashboardLayout::parse(v.as_str()) {
                Ok(l) => l,
                Err(e) => return Err(e),
            },
            None => DashboardLayout::InProgress,
        };
        let (file_auto_hide, file_hide_after) = match file.cursor {
            Some(c) => (c.auto_hide, c.hide_after),
            None => (None, None),
        };
        let hide_after = match optional_interval(
            either_text(args.cursor_hide_after, file_hide_after),
            DEFAULT_CURSOR_HIDE_AFTER_SECS,
        ) {
            Ok(d) => d,
            Err(e) => return Err(e),
        };
        let auto_hide = match cli_auto_hide {
            Some(b) => b,
            None => match file_auto_hide {
                Some(b) => b,
                None => DEFAULT_CURSOR_AUTO_HIDE,
            },
        };
        let (fb, fw, fs, fe) = match file.filters {
            Some(f) => (f.branch, f.workflow, f.status, f.event),
            None => (None, None, None, None),
        };
        let limit = match args.limit {
            Some(l) => l,
            None => match file.limit {
                Some(l) => l,
                None => DEFAULT_LIMIT,
            },
        };
        let settings = Settings {
            repo: non_empty_or(args.repo, file.repo),
            interval,
            limit,
            layout,
            columns,
            pr_columns,
            filters: Filters {
                branch: non_empty_or(args.branch, fb),
                workflow: non_empty_or(args.workflow, fw),
                status: non_empty_or(args.status, fs),
                event: non_empty_or(args.event, fe),
            },
            cursor: CursorSettings { auto_hide, hide_after },
            global: !args.independent,
        };
        assert(settings@ == load_settings(a, fc)->Ok_0);
        Ok(settings)
    }
}

/// Settings that load have a refresh interval of at least five seconds and
/// well-formed durations.
pub proof fn lemma_loaded_interval_at_least_minimum(args: Cli, file: FileConfig)
    requires
        load_settings(args, file) is Ok,
    ensures
        load_settings(args, file)->Ok_0.interval.secs >= MIN_INTERVAL_SECS,
{
}

/// A command-line flag wins over the configuration file: where a flag is
/// given and the settings load, the settings hold the flag's value.
pub proof fn lemma_flags_override_file(args: Cli, file: FileConfig)
    requires
        load_settings(args, file) is Ok,
    ensures
        ({
            let v = load_settings(args, file)->Ok_0;
            &&& (args.limit matches Some(l) ==> v.limit == l)
            &&& (args.interval matches Some(i) ==> interval_of(i@) == Ok::<TimeSpan, ConfigFault>(v.interval))
            &&& (args.layout matches Some(name) ==> DashboardLayout::spec_from_name(normalized_text(name@)) == Some(v.layout))
            &&& (args.columns matches Some(c) ==> column_list(split_on(c@, ',')) == Ok::<Seq<Column>, ColumnFault>(v.columns))
            &&& (args.pr_columns matches Some(c) ==> pr_column_list(split_on(c@, ',')) == Ok::<Seq<PrColumn>, ColumnFault>(v.pr_columns))
            &&& (spec_non_empty(args.repo) matches Some(r) ==> v.repo == Some(r))
            &&& (spec_non_empty(args.branch) matches Some(b) ==> v.branch == Some(b))
            &&& (args.cursor_auto_hide ==> v.cursor.auto_hide)
            &&& (args.no_cursor_auto_hide && !args.cursor_auto_hide ==> !v.cursor.auto_hide)
            &&& v.global == !args.independent
        }),
{
}

/// Each filter of loaded settings comes from its flag, trimmed, where the
/// flag holds more than white space; otherwise from the configuration
/// file's `[filters]` table, trimmed, where that holds more than white
/// space; otherwise there is none.
pub proof fn lemma_filters_from_flags_or_file(args: Cli, file: FileConfig)
    requires
        load_settings(args, file) is Ok,
    ensures
        ({
            let v = load_settings(args, file)->Ok_0;
            let ff = match file.filters {
                Some(f) => f,
                None => FileFilters { branch: None, workflow: None, status: None, event: None },
            };
            &&& filter_chosen(v.branch, args.branch, ff.branch)
            &&& filter_chosen(v.workflow, args.workflow, ff.workflow)
            &&& filter_chosen(v.status, args.status, ff.status)
            &&& filter_chosen(v.event, args.event, ff.event)
        }),
{
}

/// Whether `chosen` is the flag's text trimmed, where the flag holds more
/// than white space; else the file's text trimmed, where that holds more
/// than white space; else nothing.
pub open spec fn filter_chosen(chosen: Option<Seq<char>>, flag: Option<String>, from_file: Option<String>) -> bool {
    match flag {
        Some(f) if trimmed(f@).len() > 0 => chosen == Some(trimmed(f@)),
        _ => match from_file {
            Some(g) if trimmed(g@).len() > 0 => chosen == Some(trimmed(g@)),
            _ => chosen is None,
        },
    }
}

} // verus!
