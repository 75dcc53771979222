use git_board::columns::{
    parse_columns_csv, parse_columns_list, parse_pr_columns_csv, parse_pr_columns_list, Column,
    ColumnError, PrColumn,
};

#[test]
fn parses_columns_in_order() {
    assert_eq!(
        parse_columns_csv("title,status,id").unwrap(),
        vec![Column::Title, Column::Status, Column::Id]
    );
}

#[test]
fn rejects_unknown_columns() {
    assert!(parse_columns_csv("status,banana").is_err());
}

#[test]
fn column_names_are_trimmed_and_case_blind() {
    assert_eq!(
        parse_columns_csv(" Title , AGE,pr").unwrap(),
        vec![Column::Title, Column::Age, Column::PullRequest]
    );
}

#[test]
fn unknown_column_names_the_trimmed_lowered_name() {
    match parse_columns_csv("status, Banana ") {
        Err(ColumnError::UnknownColumn(name)) => assert_eq!(name, "banana"),
        other => panic!("unexpected {other:?}"),
    }
    let message = parse_columns_csv("nope").unwrap_err().message();
    assert_eq!(
        message,
        "unknown column 'nope'. Valid columns: status,title,workflow,branch,event,pr,id,elapsed,age"
    );
}

#[test]
fn empty_text_is_an_unknown_column() {
    match parse_columns_csv("") {
        Err(ColumnError::UnknownColumn(name)) => assert_eq!(name, ""),
        other => panic!("unexpected {other:?}"),
    }
}

#[test]
fn an_empty_list_is_refused() {
    match parse_columns_list(&Vec::new()) {
        Err(ColumnError::Empty) => {}
        other => panic!("unexpected {other:?}"),
    }
    assert_eq!(
        ColumnError::Empty.message(),
        "at least one column must be configured"
    );
    assert!(matches!(
        parse_pr_columns_list(&Vec::new()),
        Err(ColumnError::Empty)
    ));
}

#[test]
fn column_lists_parse_item_by_item() {
    let values = vec!["workflow".to_string(), " Branch".to_string()];
    assert_eq!(
        parse_columns_list(&values).unwrap(),
        vec![Column::Workflow, Column::Branch]
    );
    assert!(parse_columns_list(&vec!["status,title".to_string()]).is_err());
}

#[test]
fn default_columns_and_names_agree() {
    let names = Column::default_columns()
        .iter()
        .map(|column| column.name())
        .collect::<Vec<_>>()
        .join(",");
    assert_eq!(names, Column::all_names());
    assert_eq!(parse_columns_csv(&names).unwrap(), Column::default_columns());

    let pr_names = PrColumn::default_columns()
        .iter()
        .map(|column| column.name())
        .collect::<Vec<_>>()
        .join(",");
    assert_eq!(pr_names, PrColumn::all_names());
    assert_eq!(
        parse_pr_columns_csv(&pr_names).unwrap(),
        PrColumn::default_columns()
    );
}

#[test]
fn column_headers_and_widths() {
    assert_eq!(Column::Status.header(), "STATUS");
    assert_eq!(Column::Title.width(), 50);
    assert_eq!(Column::Age.header(), "AGE");
    assert_eq!(Column::Age.width(), 24);
    assert_eq!(PrColumn::Author.header(), "AUTHOR");
    assert_eq!(PrColumn::Number.width(), 8);
}

#[test]
fn pull_request_columns_parse_and_refuse() {
    assert_eq!(
        parse_pr_columns_csv("number, AUTHOR").unwrap(),
        vec![PrColumn::Number, PrColumn::Author]
    );
    match parse_pr_columns_csv("number,workflow") {
        Err(ColumnError::UnknownPrColumn(name)) => assert_eq!(name, "workflow"),
        other => panic!("unexpected {other:?}"),
    }
    assert_eq!(
        ColumnError::UnknownPrColumn("x".to_string()).message(),
        "unknown PR column 'x'. Valid PR columns: status,title,author,branch,base,number,age,updated"
    );
}
