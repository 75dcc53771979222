use git_board::columns::{Column, ColumnError, PrColumn};
use git_board::config::{
    cli_cursor_auto_hide, non_empty, parse_interval, Cli, ConfigError, CursorSettings,
    DashboardLayout, FileConfig, FileCursor, FileFilters, Settings, TimeSpan,
    DEFAULT_CURSOR_AUTO_HIDE, DEFAULT_CURSOR_HIDE_AFTER_SECS,
};

fn no_flags() -> Cli {
    Cli {
        repo: None,
        interval: None,
        limit: None,
        layout: None,
        columns: None,
        pr_columns: None,
        branch: None,
        workflow: None,
        status: None,
        event: None,
        cursor_auto_hide: false,
        no_cursor_auto_hide: false,
        cursor_hide_after: None,
        independent: false,
    }
}

#[test]
fn trims_empty_filters() {
    assert_eq!(non_empty(Some("  ".to_string())), None);
    assert_eq!(
        non_empty(Some(" main ".to_string())),
        Some("main".to_string())
    );
}

#[test]
fn parses_duration() {
    assert_eq!(parse_interval("10s").unwrap(), TimeSpan::from_secs(10));
}

#[test]
fn defaults_cursor_auto_hide() {
    let cursor = CursorSettings {
        auto_hide: DEFAULT_CURSOR_AUTO_HIDE,
        hide_after: TimeSpan::from_secs(DEFAULT_CURSOR_HIDE_AFTER_SECS),
    };

    assert_eq!(cursor.auto_hide, true);
    assert_eq!(cursor.hide_after, TimeSpan::from_secs(5));
}

#[test]
fn parses_compound_durations_and_refuses_others() {
    assert_eq!(parse_interval("1m 30s").unwrap(), TimeSpan::from_secs(90));
    assert_eq!(
        parse_interval("250ms").unwrap(),
        TimeSpan {
            secs: 0,
            nanos: 250_000_000
        }
    );
    match parse_interval("soon") {
        Err(ConfigError::InvalidInterval(text)) => assert_eq!(text, "soon"),
        other => panic!("unexpected {other:?}"),
    }
    assert_eq!(
        ConfigError::InvalidInterval("soon".to_string()).message(),
        "invalid interval 'soon'"
    );
}

#[test]
fn loads_defaults_without_flags_or_file() {
    let settings = Settings::load(no_flags(), FileConfig::empty()).unwrap();

    assert_eq!(settings.repo, None);
    assert_eq!(settings.interval, TimeSpan::from_secs(15));
    assert_eq!(settings.limit, 20);
    assert_eq!(settings.layout, DashboardLayout::InProgress);
    assert_eq!(settings.columns, Column::default_columns());
    assert_eq!(settings.pr_columns, PrColumn::default_columns());
    assert_eq!(
        settings.cursor,
        CursorSettings {
            auto_hide: true,
            hide_after: TimeSpan::from_secs(5)
        }
    );
    assert!(settings.global);
}

#[test]
fn flags_win_over_the_file() {
    let mut args = no_flags();
    args.interval = Some("30s".to_string());
    args.repo = Some("  ".to_string());
    args.branch = Some(" main ".to_string());
    args.no_cursor_auto_hide = true;
    args.layout = Some(" ALL ".to_string());
    args.independent = true;
    args.columns = Some("id,title".to_string());
    let file = FileConfig {
        repo: Some("owner/repo".to_string()),
        interval: Some("1m".to_string()),
        limit: Some(50),
        layout: Some("in-progress".to_string()),
        columns: Some(vec!["status".to_string()]),
        pr_columns: Some(vec!["number".to_string(), "title".to_string()]),
        filters: Some(FileFilters {
            branch: Some("develop".to_string()),
            workflow: Some("verify".to_string()),
            status: None,
            event: Some("  ".to_string()),
        }),
        cursor: Some(FileCursor {
            auto_hide: Some(true),
            hide_after: Some("2s".to_string()),
        }),
    };

    let settings = Settings::load(args, file).unwrap();

    assert_eq!(settings.repo, Some("owner/repo".to_string()));
    assert_eq!(settings.interval, TimeSpan::from_secs(30));
    assert_eq!(settings.limit, 50);
    assert_eq!(settings.layout, DashboardLayout::All);
    assert_eq!(settings.columns, vec![Column::Id, Column::Title]);
    assert_eq!(settings.pr_columns, vec![PrColumn::Number, PrColumn::Title]);
    assert_eq!(settings.filters.branch, Some("main".to_string()));
    assert_eq!(settings.filters.workflow, Some("verify".to_string()));
    assert_eq!(settings.filters.status, None);
    assert_eq!(settings.filters.event, None);
    assert_eq!(
        settings.cursor,
        CursorSettings {
            auto_hide: false,
            hide_after: TimeSpan::from_secs(2)
        }
    );
    assert!(!settings.global);
}

#[test]
fn refuses_short_intervals_and_bad_values() {
    let mut args = no_flags();
    args.interval = Some("4s".to_string());
    assert!(matches!(
        Settings::load(args, FileConfig::empty()),
        Err(ConfigError::IntervalTooShort)
    ));
    assert_eq!(
        ConfigError::IntervalTooShort.message(),
        "interval must be at least 5s"
    );

    let mut args = no_flags();
    args.interval = Some("5s".to_string());
    assert!(Settings::load(args, FileConfig::empty()).is_ok());

    let mut args = no_flags();
    args.interval = Some("fast".to_string());
    assert!(matches!(
        Settings::load(args, FileConfig::empty()),
        Err(ConfigError::InvalidInterval(_))
    ));

    let mut args = no_flags();
    args.columns = Some("status,nope".to_string());
    match Settings::load(args, FileConfig::empty()) {
        Err(ConfigError::Columns(ColumnError::UnknownColumn(name))) => assert_eq!(name, "nope"),
        other => panic!("unexpected {other:?}"),
    }

    let mut args = no_flags();
    args.layout = Some("Grid".to_string());
    match Settings::load(args, FileConfig::empty()) {
        Err(ConfigError::UnknownLayout(name)) => assert_eq!(name, "grid"),
        other => panic!("unexpected {other:?}"),
    }
    assert_eq!(
        ConfigError::UnknownLayout("grid".to_string()).message(),
        "unknown layout 'grid'. Valid layouts: in-progress,all"
    );

    let mut args = no_flags();
    args.cursor_hide_after = Some("later".to_string());
    assert!(matches!(
        Settings::load(args, FileConfig::empty()),
        Err(ConfigError::InvalidInterval(_))
    ));
}

#[test]
fn the_interval_is_checked_before_the_columns() {
    let mut args = no_flags();
    args.interval = Some("1s".to_string());
    args.columns = Some("nope".to_string());
    assert!(matches!(
        Settings::load(args, FileConfig::empty()),
        Err(ConfigError::IntervalTooShort)
    ));
}

#[test]
fn cursor_flags_choose_auto_hide() {
    let mut args = no_flags();
    assert_eq!(cli_cursor_auto_hide(&args), None);
    args.no_cursor_auto_hide = true;
    assert_eq!(cli_cursor_auto_hide(&args), Some(false));
    args.cursor_auto_hide = true;
    assert_eq!(cli_cursor_auto_hide(&args), Some(true));
}

#[test]
fn layouts_cycle_and_parse() {
    assert_eq!(DashboardLayout::InProgress.next(), DashboardLayout::All);
    assert_eq!(DashboardLayout::All.next(), DashboardLayout::InProgress);
    assert_eq!(DashboardLayout::All.name(), "all");
    assert_eq!(
        DashboardLayout::parse(" In-Progress ").unwrap(),
        DashboardLayout::InProgress
    );
}

#[test]
fn refuses_durations_that_could_reach_the_largest_seconds_count() {
    match parse_interval("18446744073709551615s 1000ms") {
        Err(ConfigError::InvalidInterval(text)) => {
            assert_eq!(text, "18446744073709551615s 1000ms")
        }
        other => panic!("unexpected {other:?}"),
    }
    assert!(matches!(
        parse_interval("584542046089s"),
        Err(ConfigError::InvalidInterval(_))
    ));
    assert_eq!(
        parse_interval("584542046088s").unwrap(),
        TimeSpan::from_secs(584_542_046_088)
    );
    assert_eq!(
        parse_interval("100000000000s").unwrap(),
        TimeSpan::from_secs(100_000_000_000)
    );
    assert_eq!(
        parse_interval("1.000000000000s").unwrap(),
        TimeSpan::from_secs(1)
    );
    assert_eq!(
        parse_interval("1h 30m 15s 250ms").unwrap(),
        TimeSpan {
            secs: 5415,
            nanos: 250_000_000
        }
    );
    let mut args = no_flags();
    args.cursor_hide_after = Some("18446744073709551615s 1000ms".to_string());
    assert!(matches!(
        Settings::load(args, FileConfig::empty()),
        Err(ConfigError::InvalidInterval(_))
    ));
}
