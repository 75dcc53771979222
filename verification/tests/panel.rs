use git_board::panel::{ConfigRow, Panel, PanelKind};

#[test]
fn config_rows_in_order() {
    assert_eq!(ConfigRow::len(), 7);
    let rows = (0..ConfigRow::len())
        .map(ConfigRow::from_index)
        .collect::<Vec<_>>();
    assert_eq!(
        rows,
        vec![
            ConfigRow::Interval,
            ConfigRow::Layout,
            ConfigRow::Limit,
            ConfigRow::CursorAutoHide,
            ConfigRow::CursorHideAfter,
            ConfigRow::Columns,
            ConfigRow::PrColumns
        ]
    );
    assert!(rows.iter().all(|row| row.editable()));
    assert_eq!(
        rows.iter()
            .filter(|row| row.is_text_field())
            .copied()
            .collect::<Vec<_>>(),
        vec![ConfigRow::Columns, ConfigRow::PrColumns]
    );
    assert_eq!(ConfigRow::Interval.label(), "interval");
    assert_eq!(ConfigRow::CursorHideAfter.hint(), "←/→ or -/+ adjusts by 1s");
}

#[test]
fn panels_have_titles_and_key_lines() {
    assert_eq!(Panel::keys().title(), "Key Commands");
    assert_eq!(Panel::config().title(), "Config");
    assert_eq!(Panel::quick_look().kind, PanelKind::QuickLook);
    assert_eq!(Panel::auth_login().title(), "GitHub Authentication");
    let lines = Panel::keys().lines();
    assert_eq!(lines.len(), 8);
    assert_eq!(lines[0], ("r", "Refresh immediately"));
    assert_eq!(lines[7].0, "↵");
    assert!(Panel::config().lines().is_empty());
}
