//! The panels that open over the tables and the rows of the config panel.

use vstd::prelude::*;
use vstd::string::*;

verus! {

/// The kind of an open panel.
#[derive(Debug, Clone, Copy, PartialEq, Eq, Structural)]
pub enum PanelKind {
    Keys,
    Config,
    QuickLook,
    AuthLogin,
    Destroy,
    DestroyMassiveConfirm,
}

/// A row of the config panel.
#[derive(Debug, Clone, Copy, PartialEq, Eq, Structural)]
pub enum ConfigRow {
    Interval,
    Layout,
    Limit,
    CursorAutoHide,
    CursorHideAfter,
    Columns,
    PrColumns,
}

impl ConfigRow {
    /// The row at `index`, the last row for any index past the end.
    pub open spec fn spec_from_index(index: int) -> ConfigRow {
        if index == 0 {
            ConfigRow::Interval
        } else if index == 1 {
            ConfigRow::Layout
        } else if index == 2 {
            ConfigRow::Limit
        } else if index == 3 {
            ConfigRow::CursorAutoHide
        } else if index == 4 {
            ConfigRow::CursorHideAfter
        } else if index == 5 {
            ConfigRow::Columns
        } else {
            ConfigRow::PrColumns
        }
    }

    /// The row at `index`, the last row for any index past the end.
    pub fn from_index(index: usize) -> (r: ConfigRow)
        ensures
            r == Self::spec_from_index(index as int),
    {
        if index == 0 {
            ConfigRow::Interval
        } else if index == 1 {
            ConfigRow::Layout
        } else if index == 2 {
            ConfigRow::Limit
        } else if index == 3 {
            ConfigRow::CursorAutoHide
        } else if index == 4 {
            ConfigRow::CursorHideAfter
        } else if index == 5 {
            ConfigRow::Columns
        } else {
            ConfigRow::PrColumns
        }
    }

    /// The number of rows.
    pub open spec fn spec_len() -> nat {
        7
    }

    /// The number of rows.
    pub fn len() -> (r: usize)
        ensures
            r == Self::spec_len(),
    {
        7
    }

    /// The label of the row.
    pub fn label(self) -> (r: &'static str)
        ensures
            r@ == match self {
                ConfigRow::Interval => "interval"@,
                ConfigRow::Layout => "layout"@,
                ConfigRow::Limit => "limit"@,
                ConfigRow::CursorAutoHide => "cursor"@,
                ConfigRow::CursorHideAfter => "hide after"@,
                ConfigRow::Columns => "columns"@,
                ConfigRow::PrColumns => "PR columns"@,
            },
    {
        match self {
            ConfigRow::Interval => "interval",
            ConfigRow::Layout => "layout",
            ConfigRow::Limit => "limit",
            ConfigRow::CursorAutoHide => "cursor",
            ConfigRow::CursorHideAfter => "hide after",
            ConfigRow::Columns => "columns",
            ConfigRow::PrColumns => "PR columns",
        }
    }

    /// How the row is edited.
    pub fn hint(self) -> (r: &'static str)
        ensures
            r@ == match self {
                ConfigRow::Interval => "←/→ or -/+ adjusts by 1s"@,
                ConfigRow::Layout => "←/→ cycles"@,
                ConfigRow::Limit => "←/→ or -/+ adjusts by 1"@,
                ConfigRow::CursorAutoHide => "←/→ toggles"@,
                ConfigRow::CursorHideAfter => "←/→ or -/+ adjusts by 1s"@,
                ConfigRow::Columns => "type to edit, ←/→ moves cursor"@,
                ConfigRow::PrColumns => "type to edit, ←/→ moves cursor"@,
            },
    {
        match self {
            ConfigRow::Interval => "←/→ or -/+ adjusts by 1s",
            ConfigRow::Layout => "←/→ cycles",
            ConfigRow::Limit => "←/→ or -/+ adjusts by 1",
            ConfigRow::CursorAutoHide => "←/→ toggles",
            ConfigRow::CursorHideAfter => "←/→ or -/+ adjusts by 1s",
            ConfigRow::Columns => "type to edit, ←/→ moves cursor",
            ConfigRow::PrColumns => "type to edit, ←/→ moves cursor",
        }
    }

    /// Whether the row can be edited: every row can.
    pub fn editable(self) -> (r: bool)
        ensures
            r,
    {
        true
    }

    /// Whether the row is edited as text.
    pub open spec fn spec_is_text_field(self) -> bool {
        self == ConfigRow::Columns || self == ConfigRow::PrColumns
    }

    /// Whether the row is edited as text.
    pub fn is_text_field(self) -> (r: bool)
        ensures
            r == self.spec_is_text_field(),
    {
        self == ConfigRow::Columns || self == ConfigRow::PrColumns
    }
}

/// An open panel.
#[derive(Debug, Clone, Copy, PartialEq, Eq, Structural)]
pub struct Panel {
    pub kind: PanelKind,
}

impl Panel {
    /// The key commands panel.
    pub fn keys() -> (r: Panel)
        ensures
            r.kind == PanelKind::Keys,
    {
        Panel { kind: PanelKind::Keys }
    }

    /// The config panel.
    pub fn config() -> (r: Panel)
        ensures
            r.kind == PanelKind::Config,
    {
        Panel { kind: PanelKind::Config }
    }

    /// The quick look panel.
    pub fn quick_look() -> (r: Panel)
        ensures
            r.kind == PanelKind::QuickLook,
    {
        Panel { kind: PanelKind::QuickLook }
    }

    /// The authentication prompt.
    pub fn auth_login() -> (r: Panel)
        ensures
            r.kind == PanelKind::AuthLogin,
    {
        Panel { kind: PanelKind::AuthLogin }
    }

    /// The prompt that closes dashboard sessions.
    pub fn destroy() -> (r: Panel)
        ensures
            r.kind == PanelKind::Destroy,
    {
        Panel { kind: PanelKind::Destroy }
    }

    /// The confirmation before closing every session of every repository.
    pub fn destroy_massive_confirm() -> (r: Panel)
        ensures
            r.kind == PanelKind::DestroyMassiveConfirm,
    {
        Panel { kind: PanelKind::DestroyMassiveConfirm }
    }

    /// The title of the panel.
    pub fn title(self) -> (r: &'static str)
        ensures
            r@ == match self.kind {
                PanelKind::Keys => "Key Commands"@,
                PanelKind::Config => "Config"@,
                PanelKind::QuickLook => "Quick Look"@,
                PanelKind::AuthLogin => "GitHub Authentication"@,
                PanelKind::Destroy => "Close Sessions"@,
                PanelKind::DestroyMassiveConfirm => "Close All Sessions"@,
            },
    {
        match self.kind {
            PanelKind::Keys => "Key Commands",
            PanelKind::Config => "Config",
            PanelKind::QuickLook => "Quick Look",
            PanelKind::AuthLogin => "GitHub Authentication",
            PanelKind::Destroy => "Close Sessions",
            PanelKind::DestroyMassiveConfirm => "Close All Sessions",
        }
    }

    /// The fixed lines of the panel, as key and description: the key
    /// commands for the keys panel, none for the others.
    pub fn lines(self) -> (r: Vec<(&'static str, &'static str)>)
        ensures
            self.kind == PanelKind::Keys ==> r@.len() == 8 && r@[0].0@ == "r"@ && r@[0].1@
                == "Refresh immediately"@ && r@[1].0@ == "h"@ && r@[1].1@
                == "Toggle cursor auto-hide"@ && r@[2].0@ == "⇥"@ && r@[2].1@
                == "Switch between Actions and pull request screens"@ && r@[3].0@ == "c"@
                && r@[3].1@ == "Open config panel"@ && r@[4].0@ == "k"@ && r@[4].1@
                == "Show key commands"@ && r@[5].0@ == "␣"@ && r@[5].1@
                == "Quick look at selected row"@ && r@[6].0@ == "↑ / ↓"@ && r@[6].1@
                == "Show or move the navigation cursor"@ && r@[7].0@ == "↵"@ && r@[7].1@
                == "Open selected run or pull request in browser"@,
            self.kind != PanelKind::Keys ==> r@.len() == 0,
    {
        match self.kind {
            PanelKind::Keys => vec![
                ("r", "Refresh immediately"),
                ("h", "Toggle cursor auto-hide"),
                ("⇥", "Switch between Actions and pull request screens"),
                ("c", "Open config panel"),
                ("k", "Show key commands"),
                ("␣", "Quick look at selected row"),
                ("↑ / ↓", "Show or move the navigation cursor"),
                ("↵", "Open selected run or pull request in browser"),
            ],
            _ => Vec::new(),
        }
    }
}

} // verus!
