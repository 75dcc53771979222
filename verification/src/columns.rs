//! The columns of the runs table and of the pull request table: their
//! names, headers and widths, and the parsing of column lists.

use vstd::prelude::*;
use vstd::string::*;
use crate::text::{normalize, normalized_text, ascii_lowercase, is_white_space, join_with, lemma_split_join, trim_back, trim_front, split_commas, split_on, text_eq, to_ascii_lowercase_text, trim_text, trimmed};

verus! {

/// A column of the runs table.
#[derive(Debug, Clone, Copy, PartialEq, Eq, Structural)]
pub enum Column {
    Status,
    Title,
    Workflow,
    Branch,
    Event,
    PullRequest,
    Id,
    Elapsed,
    Age,
}

/// A column of the pull request table.
#[derive(Debug, Clone, Copy, PartialEq, Eq, Structural)]
pub enum PrColumn {
    Status,
    Title,
    Author,
    Branch,
    Base,
    Number,
    Age,
    Updated,
}

/// Why a column list was refused.
#[derive(Debug, Clone)]
pub enum ColumnError {
    /// A runs-table column name that is not known (trimmed, lower-cased).
    UnknownColumn(String),
    /// A pull-request column name that is not known (trimmed, lower-cased).
    UnknownPrColumn(String),
    /// The list names no column.
    Empty,
}

/// What a `ColumnError` says, with its text as a sequence of characters.
pub enum ColumnFault {
    UnknownColumn(Seq<char>),
    UnknownPrColumn(Seq<char>),
    Empty,
}

impl View for ColumnError {
    type V = ColumnFault;

    open spec fn view(&self) -> ColumnFault {
        match self {
            ColumnError::UnknownColumn(s) => ColumnFault::UnknownColumn(s@),
            ColumnError::UnknownPrColumn(s) => ColumnFault::UnknownPrColumn(s@),
            ColumnError::Empty => ColumnFault::Empty,
        }
    }
}


impl Column {
    /// The name of the column in settings.
    pub open spec fn spec_name(self) -> Seq<char> {
        match self {
            Column::Status => "status"@,
            Column::Title => "title"@,
            Column::Workflow => "workflow"@,
            Column::Branch => "branch"@,
            Column::Event => "event"@,
            Column::PullRequest => "pr"@,
            Column::Id => "id"@,
            Column::Elapsed => "elapsed"@,
            Column::Age => "age"@,
        }
    }

    /// The column whose name is `s`, if any.
    pub open spec fn spec_from_name(s: Seq<char>) -> Option<Column> {
        if s == "status"@ {
            Some(Column::Status)
        } else if s == "title"@ {
            Some(Column::Title)
        } else if s == "workflow"@ {
            Some(Column::Workflow)
        } else if s == "branch"@ {
            Some(Column::Branch)
        } else if s == "event"@ {
            Some(Column::Event)
        } else if s == "pr"@ {
            Some(Column::PullRequest)
        } else if s == "id"@ {
            Some(Column::Id)
        } else if s == "elapsed"@ {
            Some(Column::Elapsed)
        } else if s == "age"@ {
            Some(Column::Age)
        } else {
            None
        }
    }

    /// The columns shown when none are configured.
    pub open spec fn spec_default_columns() -> Seq<Column> {
        seq![
            Column::Status,
            Column::Title,
            Column::Workflow,
            Column::Branch,
            Column::Event,
            Column::PullRequest,
            Column::Id,
            Column::Elapsed,
            Column::Age,
        ]
    }

    /// The columns shown when none are configured.
    pub fn default_columns() -> (r: Vec<Column>)
        ensures
            r@ == Self::spec_default_columns(),
    {
        let r = vec![
            Column::Status,
            Column::Title,
            Column::Workflow,
            Column::Branch,
            Column::Event,
            Column::PullRequest,
            Column::Id,
            Column::Elapsed,
            Column::Age,
        ];
        assert(r@ =~= Self::spec_default_columns());
        r
    }

    /// The header of the column in the runs table.
    pub fn header(self) -> (r: &'static str)
        ensures
            r@ == match self {
                Column::Status => "STATUS"@,
                Column::Title => "TITLE"@,
                Column::Workflow => "WORKFLOW"@,
                Column::Branch => "BRANCH"@,
                Column::Event => "EVENT"@,
                Column::PullRequest => "PR"@,
                Column::Id => "ID"@,
                Column::Elapsed => "ELAPSED"@,
                Column::Age => "AGE"@,
            },
    {
        match self {
            Column::Status => "STATUS",
            Column::Title => "TITLE",
            Column::Workflow => "WORKFLOW",
            Column::Branch => "BRANCH",
            Column::Event => "EVENT",
            Column::PullRequest => "PR",
            Column::Id => "ID",
            Column::Elapsed => "ELAPSED",
            Column::Age => "AGE",
        }
    }

    /// The width of the column in the runs table, in terminal cells.
    pub fn width(self) -> (r: u16)
        ensures
            r == match self {
                Column::Status => 8u16,
                Column::Title => 50u16,
                Column::Workflow => 18u16,
                Column::Branch => 34u16,
                Column::Event => 16u16,
                Column::PullRequest => 8u16,
                Column::Id => 14u16,
                Column::Elapsed => 10u16,
                Column::Age => 24u16,
            },
    {
        match self {
            Column::Status => 8,
            Column::Title => 50,
            Column::Workflow => 18,
            Column::Branch => 34,
            Column::Event => 16,
            Column::PullRequest => 8,
            Column::Id => 14,
            Column::Elapsed => 10,
            Column::Age => 24,
        }
    }

    /// The names of all columns, comma-separated, in their default order.
    pub fn all_names() -> (r: &'static str)
        ensures
            r@ == "status,title,workflow,branch,event,pr,id,elapsed,age"@,
    {
        "status,title,workflow,branch,event,pr,id,elapsed,age"
    }

    /// The name of the column in settings (its display text).
    pub fn name(self) -> (r: &'static str)
        ensures
            r@ == self.spec_name(),
    {
        match self {
            Column::Status => "status",
            Column::Title => "title",
            Column::Workflow => "workflow",
            Column::Branch => "branch",
            Column::Event => "event",
            Column::PullRequest => "pr",
            Column::Id => "id",
            Column::Elapsed => "elapsed",
            Column::Age => "age",
        }
    }

    /// The column named by `value`, compared after trimming white space and
    /// lower-casing ASCII letters; a name that is not known is refused with
    /// that normalized text.
    pub fn parse(value: &str) -> (r: Result<Column, ColumnError>)
        ensures
            match Column::spec_from_name(normalized_text(value@)) {
                Some(c) => r == Ok::<Column, ColumnError>(c),
                None => r is Err && r->Err_0@ == ColumnFault::UnknownColumn(normalized_text(value@)),
            },
    {
        let key = normalize(value);
        let k = key.as_str();
        if text_eq(k, "status") {
            Ok(Column::Status)
        } else if text_eq(k, "title") {
            Ok(Column::Title)
        } else if text_eq(k, "workflow") {
            Ok(Column::Workflow)
        } else if text_eq(k, "branch") {
            Ok(Column::Branch)
        } else if text_eq(k, "event") {
            Ok(Column::Event)
        } else if text_eq(k, "pr") {
            Ok(Column::PullRequest)
        } else if text_eq(k, "id") {
            Ok(Column::Id)
        } else if text_eq(k, "elapsed") {
            Ok(Column::Elapsed)
        } else if text_eq(k, "age") {
            Ok(Column::Age)
        } else {
            Err(ColumnError::UnknownColumn(key))
        }
    }
}

impl PrColumn {
    /// The name of the column in settings.
    pub open spec fn spec_name(self) -> Seq<char> {
        match self {
            PrColumn::Status => "status"@,
            PrColumn::Title => "title"@,
            PrColumn::Author => "author"@,
            PrColumn::Branch => "branch"@,
            PrColumn::Base => "base"@,
            PrColumn::Number => "number"@,
            PrColumn::Age => "age"@,
            PrColumn::Updated => "updated"@,
        }
    }

    /// The column whose name is `s`, if any.
    pub open spec fn spec_from_name(s: Seq<char>) -> Option<PrColumn> {
        if s == "status"@ {
            Some(PrColumn::Status)
        } else if s == "title"@ {
            Some(PrColumn::Title)
        } else if s == "author"@ {
            Some(PrColumn::Author)
        } else if s == "branch"@ {
            Some(PrColumn::Branch)
        } else if s == "base"@ {
            Some(PrColumn::Base)
        } else if s == "number"@ {
            Some(PrColumn::Number)
        } else if s == "age"@ {
            Some(PrColumn::Age)
        } else if s == "updated"@ {
            Some(PrColumn::Updated)
        } else {
            None
        }
    }

    /// The pull request columns shown when none are configured.
    pub open spec fn spec_default_columns() -> Seq<PrColumn> {
        seq![
            PrColumn::Status,
            PrColumn::Title,
            PrColumn::Author,
            PrColumn::Branch,
            PrColumn::Base,
            PrColumn::Number,
            PrColumn::Age,
            PrColumn::Updated,
        ]
    }

    /// The pull request columns shown when none are configured.
    pub fn default_columns() -> (r: Vec<PrColumn>)
        ensures
            r@ == Self::spec_default_columns(),
    {
        let r = vec![
            PrColumn::Status,
            PrColumn::Title,
            PrColumn::Author,
            PrColumn::Branch,
            PrColumn::Base,
            PrColumn::Number,
            PrColumn::Age,
            PrColumn::Updated,
        ];
        assert(r@ =~= Self::spec_default_columns());
        r
    }

    /// The header of the column in the pull request table.
    pub fn header(self) -> (r: &'static str)
        ensures
            r@ == match self {
                PrColumn::Status => "STATUS"@,
                PrColumn::Title => "TITLE"@,
                PrColumn::Author => "AUTHOR"@,
                PrColumn::Branch => "BRANCH"@,
                PrColumn::Base => "BASE"@,
                PrColumn::Number => "NUMBER"@,
                PrColumn::Age => "AGE"@,
                PrColumn::Updated => "UPDATED"@,
            },
    {
        match self {
            PrColumn::Status => "STATUS",
            PrColumn::Title => "TITLE",
            PrColumn::Author => "AUTHOR",
            PrColumn::Branch => "BRANCH",
            PrColumn::Base => "BASE",
            PrColumn::Number => "NUMBER",
            PrColumn::Age => "AGE",
            PrColumn::Updated => "UPDATED",
        }
    }

    /// The width of the column in the pull request table, in terminal cells.
    pub fn width(self) -> (r: u16)
        ensures
            r == match self {
                PrColumn::Status => 8u16,
                PrColumn::Title => 50u16,
                PrColumn::Author => 18u16,
                PrColumn::Branch => 34u16,
                PrColumn::Base => 18u16,
                PrColumn::Number => 8u16,
                PrColumn::Age => 24u16,
                PrColumn::Updated => 24u16,
            },
    {
        match self {
            PrColumn::Status => 8,
            PrColumn::Title => 50,
            PrColumn::Author => 18,
            PrColumn::Branch => 34,
            PrColumn::Base => 18,
            PrColumn::Number => 8,
            PrColumn::Age => 24,
            PrColumn::Updated => 24,
        }
    }

    /// The names of all pull request columns, comma-separated, in their
    /// default order.
    pub fn all_names() -> (r: &'static str)
        ensures
            r@ == "status,title,author,branch,base,number,age,updated"@,
    {
        "status,title,author,branch,base,number,age,updated"
    }

    /// The name of the column in settings (its display text).
    pub fn name(self) -> (r: &'static str)
        ensures
            r@ == self.spec_name(),
    {
        match self {
            PrColumn::Status => "status",
            PrColumn::Title => "title",
            PrColumn::Author => "author",
            PrColumn::Branch => "branch",
            PrColumn::Base => "base",
            PrColumn::Number => "number",
            PrColumn::Age => "age",
            PrColumn::Updated => "updated",
        }
    }

    /// The pull request column named by `value`, compared after trimming
    /// white space and lower-casing ASCII letters.
    pub fn parse(value: &str) -> (r: Result<PrColumn, ColumnError>)
        ensures
            match PrColumn::spec_from_name(normalized_text(value@)) {
                Some(c) => r == Ok::<PrColumn, ColumnError>(c),
                None => r is Err && r->Err_0@ == ColumnFault::UnknownPrColumn(normalized_text(value@)),
            },
    {
        let key = normalize(value);
        let k = key.as_str();
        if text_eq(k, "status") {
            Ok(PrColumn::Status)
        } else if text_eq(k, "title") {
            Ok(PrColumn::Title)
        } else if text_eq(k, "author") {
            Ok(PrColumn::Author)
        } else if text_eq(k, "branch") {
            Ok(PrColumn::Branch)
        } else if text_eq(k, "base") {
            Ok(PrColumn::Base)
        } else if text_eq(k, "number") {
            Ok(PrColumn::Number)
        } else if text_eq(k, "age") {
            Ok(PrColumn::Age)
        } else if text_eq(k, "updated") {
            Ok(PrColumn::Updated)
        } else {
            Err(ColumnError::UnknownPrColumn(key))
        }
    }
}

/// The columns named by `pieces`, in order; the first name that is not known
/// is refused.
pub open spec fn columns_from_names(pieces: Seq<Seq<char>>) -> Result<Seq<Column>, ColumnFault>
    decreases pieces.len(),
{
    if pieces.len() == 0 {
        Ok(seq![])
    } else {
        match columns_from_names(pieces.drop_last()) {
            Err(f) => Err(f),
            Ok(cs) => match Column::spec_from_name(normalized_text(pieces.last())) {
                Some(c) => Ok(cs.push(c)),
                None => Err(ColumnFault::UnknownColumn(normalized_text(pieces.last()))),
            },
        }
    }
}

/// The pull request columns named by `pieces`, in order.
pub open spec fn pr_columns_from_names(pieces: Seq<Seq<char>>) -> Result<
    Seq<PrColumn>,
    ColumnFault,
>
    decreases pieces.len(),
{
    if pieces.len() == 0 {
        Ok(seq![])
    } else {
        match pr_columns_from_names(pieces.drop_last()) {
            Err(f) => Err(f),
            Ok(cs) => match PrColumn::spec_from_name(normalized_text(pieces.last())) {
                Some(c) => Ok(cs.push(c)),
                None => Err(ColumnFault::UnknownPrColumn(normalized_text(pieces.last()))),
            },
        }
    }
}

/// A column list as settings accept it: every name known, at least one.
pub open spec fn column_list(pieces: Seq<Seq<char>>) -> Result<Seq<Column>, ColumnFault> {
    match columns_from_names(pieces) {
        Err(f) => Err(f),
        Ok(cs) => if cs.len() == 0 {
            Err(ColumnFault::Empty)
        } else {
            Ok(cs)
        },
    }
}

/// A pull request column list as settings accept it.
pub open spec fn pr_column_list(pieces: Seq<Seq<char>>) -> Result<Seq<PrColumn>, ColumnFault> {
    match pr_columns_from_names(pieces) {
        Err(f) => Err(f),
        Ok(cs) => if cs.len() == 0 {
            Err(ColumnFault::Empty)
        } else {
            Ok(cs)
        },
    }
}


fn columns_from_strings(pieces: &Vec<String>) -> (r: Result<Vec<Column>, ColumnError>)
    ensures
        match column_list(pieces@.map_values(|p: String| p@)) {
            Ok(cs) => r is Ok && r->Ok_0@ == cs,
            Err(f) => r is Err && r->Err_0@ == f,
        },
{
    let ghost views = pieces@.map_values(|p: String| p@);
    let mut out: Vec<Column> = Vec::new();
    let mut i: usize = 0;
    while i < pieces.len()
        invariant
            i <= pieces.len(),
            views == pieces@.map_values(|p: String| p@),
            columns_from_names(views.take(i as int)) == Ok::<Seq<Column>, ColumnFault>(out@),
        decreases pieces.len() - i,
    {
        assert(views.take(i + 1).drop_last() =~= views.take(i as int));
        assert(views.take(i + 1).last() == pieces[i as int]@);
        match Column::parse(pieces[i].as_str()) {
            Ok(c) => {
                out.push(c);
            },
            Err(e) => {
                proof {
                    lemma_prefix_failure_columns(views, i as int + 1);
                }
                return Err(e);
            },
        }
        i = i + 1;
    }
    assert(views.take(i as int) =~= views);
    if out.len() == 0 {
        Err(ColumnError::Empty)
    } else {
        Ok(out)
    }
}

proof fn lemma_prefix_failure_columns(pieces: Seq<Seq<char>>, k: int)
    requires
        0 <= k <= pieces.len(),
        columns_from_names(pieces.take(k)) is Err,
    ensures
        columns_from_names(pieces) == columns_from_names(pieces.take(k)),
    decreases pieces.len() - k,
{
    if k < pieces.len() {
        assert(pieces.take(k + 1).drop_last() =~= pieces.take(k));
        lemma_prefix_failure_columns(pieces, k + 1);
    } else {
        assert(pieces.take(k) =~= pieces);
    }
}

proof fn lemma_prefix_failure_pr_columns(pieces: Seq<Seq<char>>, k: int)
    requires
        0 <= k <= pieces.len(),
        pr_columns_from_names(pieces.take(k)) is Err,
    ensures
        pr_columns_from_names(pieces) == pr_columns_from_names(pieces.take(k)),
    decreases pieces.len() - k,
{
    if k < pieces.len() {
        assert(pieces.take(k + 1).drop_last() =~= pieces.take(k));
        lemma_prefix_failure_pr_columns(pieces, k + 1);
    } else {
        assert(pieces.take(k) =~= pieces);
    }
}

fn pr_columns_from_strings(pieces: &Vec<String>) -> (r: Result<Vec<PrColumn>, ColumnError>)
    ensures
        match pr_column_list(pieces@.map_values(|p: String| p@)) {
            Ok(cs) => r is Ok && r->Ok_0@ == cs,
            Err(f) => r is Err && r->Err_0@ == f,
        },
{
    let ghost views = pieces@.map_values(|p: String| p@);
    let mut out: Vec<PrColumn> = Vec::new();
    let mut i: usize = 0;
    while i < pieces.len()
        invariant
            i <= pieces.len(),
            views == pieces@.map_values(|p: String| p@),
            pr_columns_from_names(views.take(i as int)) == Ok::<Seq<PrColumn>, ColumnFault>(out@),
        decreases pieces.len() - i,
    {
        assert(views.take(i + 1).drop_last() =~= views.take(i as int));
        assert(views.take(i + 1).last() == pieces[i as int]@);
        match PrColumn::parse(pieces[i].as_str()) {
            Ok(c) => {
                out.push(c);
            },
            Err(e) => {
                proof {
                    lemma_prefix_failure_pr_columns(views, i as int + 1);
                }
                return Err(e);
            },
        }
        i = i + 1;
    }
    assert(views.take(i as int) =~= views);
    if out.len() == 0 {
        Err(ColumnError::Empty)
    } else {
        Ok(out)
    }
}

/// Parses a comma-separated list of runs-table columns, keeping their order.
pub fn parse_columns_csv(value: &str) -> (r: Result<Vec<Column>, ColumnError>)
    ensures
        match column_list(split_on(value@, ',')) {
            Ok(cs) => r is Ok && r->Ok_0@ == cs,
            Err(f) => r is Err && r->Err_0@ == f,
        },
{
    let pieces = split_commas(value);
    columns_from_strings(&pieces)
}

/// Parses a list of runs-table column names, keeping their order.
pub fn parse_columns_list(values: &Vec<String>) -> (r: Result<Vec<Column>, ColumnError>)
    ensures
        match column_list(values@.map_values(|p: String| p@)) {
            Ok(cs) => r is Ok && r->Ok_0@ == cs,
            Err(f) => r is Err && r->Err_0@ == f,
        },
{
    columns_from_strings(values)
}

/// Parses a comma-separated list of pull request columns, keeping their order.
pub fn parse_pr_columns_csv(value: &str) -> (r: Result<Vec<PrColumn>, ColumnError>)
    ensures
        match pr_column_list(split_on(value@, ',')) {
            Ok(cs) => r is Ok && r->Ok_0@ == cs,
            Err(f) => r is Err && r->Err_0@ == f,
        },
{
    let pieces = split_commas(value);
    pr_columns_from_strings(&pieces)
}

/// Parses a list of pull request column names, keeping their order.
pub fn parse_pr_columns_list(values: &Vec<String>) -> (r: Result<Vec<PrColumn>, ColumnError>)
    ensures
        match pr_column_list(values@.map_values(|p: String| p@)) {
            Ok(cs) => r is Ok && r->Ok_0@ == cs,
            Err(f) => r is Err && r->Err_0@ == f,
        },
{
    pr_columns_from_strings(values)
}

proof fn lemma_plain_name(s: Seq<char>)
    requires
        s.len() > 0,
        forall|i: int| 0 <= i < s.len() ==> 'a' <= #[trigger] s[i] <= 'z',
    ensures
        normalized_text(s) == s,
        forall|i: int| 0 <= i < s.len() ==> #[trigger] s[i] != ',',
{
    assert(!is_white_space(s[0]));
    assert(!is_white_space(s.last()));
    assert(trim_front(s) == s);
    assert(trim_back(s) == s);
    assert(ascii_lowercase(s) =~= s);
}

/// Every runs-table column is parsed back from its own name, which holds
/// no comma.
pub proof fn lemma_column_name_round_trip(c: Column)
    ensures
        Column::spec_from_name(normalized_text(c.spec_name())) == Some(c),
        forall|i: int|
            0 <= i < c.spec_name().len() ==> #[trigger] c.spec_name()[i] != ',',
{
    reveal_strlit("status");
    reveal_strlit("title");
    reveal_strlit("workflow");
    reveal_strlit("branch");
    reveal_strlit("event");
    reveal_strlit("pr");
    reveal_strlit("id");
    reveal_strlit("elapsed");
    reveal_strlit("age");
    lemma_plain_name(c.spec_name());
}

/// Every pull request column is parsed back from its own name, which holds
/// no comma.
pub proof fn lemma_pr_column_name_round_trip(c: PrColumn)
    ensures
        PrColumn::spec_from_name(normalized_text(c.spec_name())) == Some(c),
        forall|i: int|
            0 <= i < c.spec_name().len() ==> #[trigger] c.spec_name()[i] != ',',
{
    reveal_strlit("status");
    reveal_strlit("title");
    reveal_strlit("author");
    reveal_strlit("branch");
    reveal_strlit("base");
    reveal_strlit("number");
    reveal_strlit("age");
    reveal_strlit("updated");
    lemma_plain_name(c.spec_name());
}

/// The comma-separated text of a list of columns.
pub open spec fn columns_csv(cs: Seq<Column>) -> Seq<char> {
    join_with(cs.map_values(|c: Column| c.spec_name()), seq![','])
}

/// The comma-separated text of a list of pull request columns.
pub open spec fn pr_columns_csv(cs: Seq<PrColumn>) -> Seq<char> {
    join_with(cs.map_values(|c: PrColumn| c.spec_name()), seq![','])
}

proof fn lemma_names_parse(cs: Seq<Column>)
    ensures
        columns_from_names(cs.map_values(|c: Column| c.spec_name())) == Ok::<
            Seq<Column>,
            ColumnFault,
        >(cs),
    decreases cs.len(),
{
    let names = cs.map_values(|c: Column| c.spec_name());
    if cs.len() > 0 {
        lemma_names_parse(cs.drop_last());
        assert(names.drop_last() =~= cs.drop_last().map_values(|c: Column| c.spec_name()));
        assert(names.last() == cs.last().spec_name());
        assert(columns_from_names(names.drop_last()) == Ok::<Seq<Column>, ColumnFault>(cs.drop_last()));
        lemma_column_name_round_trip(cs.last());
        assert(Column::spec_from_name(normalized_text(names.last())) == Some(cs.last()));
        assert(cs.drop_last().push(cs.last()) =~= cs);
        assert(columns_from_names(names) == Ok::<Seq<Column>, ColumnFault>(cs.drop_last().push(cs.last())));
    } else {
        assert(names =~= Seq::<Seq<char>>::empty());
        assert(cs =~= seq![]);
    }
}

proof fn lemma_pr_names_parse(cs: Seq<PrColumn>)
    ensures
        pr_columns_from_names(cs.map_values(|c: PrColumn| c.spec_name())) == Ok::<
            Seq<PrColumn>,
            ColumnFault,
        >(cs),
    decreases cs.len(),
{
    let names = cs.map_values(|c: PrColumn| c.spec_name());
    if cs.len() > 0 {
        lemma_pr_names_parse(cs.drop_last());
        assert(names.drop_last() =~= cs.drop_last().map_values(|c: PrColumn| c.spec_name()));
        assert(names.last() == cs.last().spec_name());
        assert(pr_columns_from_names(names.drop_last()) == Ok::<Seq<PrColumn>, ColumnFault>(cs.drop_last()));
        lemma_pr_column_name_round_trip(cs.last());
        assert(cs.drop_last().push(cs.last()) =~= cs);
    } else {
        assert(names =~= Seq::<Seq<char>>::empty());
        assert(cs =~= seq![]);
    }
}

/// Writing a non-empty list of columns comma-separated and parsing the text
/// gives the same list back.
pub proof fn lemma_columns_csv_round_trip(cs: Seq<Column>)
    requires
        cs.len() > 0,
    ensures
        column_list(split_on(columns_csv(cs), ',')) == Ok::<Seq<Column>, ColumnFault>(cs),
{
    let names = cs.map_values(|c: Column| c.spec_name());
    assert forall|k: int, i: int|
        0 <= k < names.len() && 0 <= i < names[k].len() implies #[trigger] names[k][i] != ',' by {
        lemma_column_name_round_trip(cs[k]);
    }
    lemma_split_join(names, ',');
    lemma_names_parse(cs);
}

/// Writing a non-empty list of pull request columns comma-separated and
/// parsing the text gives the same list back.
pub proof fn lemma_pr_columns_csv_round_trip(cs: Seq<PrColumn>)
    requires
        cs.len() > 0,
    ensures
        pr_column_list(split_on(pr_columns_csv(cs), ',')) == Ok::<Seq<PrColumn>, ColumnFault>(cs),
{
    let names = cs.map_values(|c: PrColumn| c.spec_name());
    assert forall|k: int, i: int|
        0 <= k < names.len() && 0 <= i < names[k].len() implies #[trigger] names[k][i] != ',' by {
        lemma_pr_column_name_round_trip(cs[k]);
    }
    lemma_split_join(names, ',');
    lemma_pr_names_parse(cs);
}

/// The text of a column refusal, as the dashboard shows it.
pub open spec fn column_fault_message(f: ColumnFault) -> Seq<char> {
    match f {
        ColumnFault::UnknownColumn(v) => "unknown column '"@ + v + "'. Valid columns: "@
            + "status,title,workflow,branch,event,pr,id,elapsed,age"@,
        ColumnFault::UnknownPrColumn(v) => "unknown PR column '"@ + v + "'. Valid PR columns: "@
            + "status,title,author,branch,base,number,age,updated"@,
        ColumnFault::Empty => "at least one column must be configured"@,
    }
}

impl ColumnError {
    /// The text of the refusal, as the dashboard shows it.
    pub fn message(&self) -> (r: String)
        ensures
            r@ == column_fault_message(self@),
    {
        match self {
            ColumnError::UnknownColumn(v) => {
                let mut m = "unknown column '".to_owned();
                m.append(v.as_str());
                m.append("'. Valid columns: ");
                m.append(Column::all_names());
                m
            },
            ColumnError::UnknownPrColumn(v) => {
                let mut m = "unknown PR column '".to_owned();
                m.append(v.as_str());
                m.append("'. Valid PR columns: ");
                m.append(PrColumn::all_names());
                m
            },
            ColumnError::Empty => "at least one column must be configured".to_owned(),
        }
    }
}

} // verus!
