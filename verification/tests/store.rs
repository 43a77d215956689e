use rusqlite::Connection;
use todo_list::error::StorageError;
use todo_list::store::{
    add_task, collect_tasks, create_table, from_engine, list_tasks, mark_task_complete,
};
use todo_list::task::Task;

fn fresh_store() -> Connection {
    let conn = Connection::open_in_memory().unwrap();
    create_table(&conn, "default").unwrap();
    conn
}

fn table_count(conn: &Connection, name: &str) -> i64 {
    conn.query_row(
        "SELECT COUNT(*) FROM sqlite_master WHERE type = 'table' AND name = ?",
        [name],
        |row| row.get(0),
    )
    .unwrap()
}

fn task(id: i32, description: &str, completed: bool) -> Task {
    Task { id, description: description.to_string(), completed }
}

#[test]
fn schema_creation_is_idempotent() {
    let conn = Connection::open_in_memory().unwrap();
    assert_eq!(create_table(&conn, "default"), Ok(()));
    assert_eq!(create_table(&conn, "default"), Ok(()));
    assert_eq!(table_count(&conn, "default"), 1);
    assert_eq!(list_tasks(&conn, "default"), Ok(vec![]));
}

#[test]
fn schema_creation_keeps_existing_tasks() {
    let conn = fresh_store();
    add_task(&conn, "default", "Buy milk").unwrap();
    assert_eq!(create_table(&conn, "default"), Ok(()));
    assert_eq!(list_tasks(&conn, "default"), Ok(vec![task(1, "Buy milk", false)]));
}

#[test]
fn schema_has_the_three_columns() {
    let conn = fresh_store();
    let mut statement = conn.prepare("SELECT name, type FROM pragma_table_info('default')").unwrap();
    let columns: Vec<(String, String)> = statement
        .query_map([], |row| Ok((row.get(0)?, row.get(1)?)))
        .unwrap()
        .map(|column| column.unwrap())
        .collect();
    assert_eq!(
        columns,
        vec![
            ("id".to_string(), "INTEGER".to_string()),
            ("description".to_string(), "TEXT".to_string()),
            ("completed".to_string(), "INTEGER".to_string()),
        ]
    );
}

#[test]
fn add_then_list_round_trip() {
    let conn = fresh_store();
    assert_eq!(add_task(&conn, "default", "Buy milk"), Ok(()));
    let tasks = list_tasks(&conn, "default").unwrap();
    assert_eq!(tasks.len(), 1);
    assert_eq!(tasks[0].description, "Buy milk");
    assert!(!tasks[0].completed);
}

#[test]
fn ids_are_distinct_and_increasing() {
    let conn = fresh_store();
    let descriptions = ["one", "two", "three", "four", "five", "six", "seven"];
    for description in descriptions {
        add_task(&conn, "default", description).unwrap();
    }
    let tasks = list_tasks(&conn, "default").unwrap();
    assert_eq!(tasks.len(), descriptions.len());
    for (position, description) in descriptions.iter().enumerate() {
        assert_eq!(tasks[position].description, *description);
    }
    for pair in tasks.windows(2) {
        assert!(pair[0].id < pair[1].id);
    }
    let ids: Vec<i32> = tasks.iter().map(|task| task.id).collect();
    assert_eq!(ids, vec![1, 2, 3, 4, 5, 6, 7]);
}

#[test]
fn ids_are_not_reused_after_a_row_is_gone() {
    let conn = fresh_store();
    add_task(&conn, "default", "first").unwrap();
    add_task(&conn, "default", "second").unwrap();
    conn.execute("DELETE FROM \"default\" WHERE id = 2", []).unwrap();
    add_task(&conn, "default", "third").unwrap();
    assert_eq!(
        list_tasks(&conn, "default"),
        Ok(vec![task(1, "first", false), task(3, "third", false)])
    );
}

#[test]
fn completing_twice_keeps_task_completed() {
    let conn = fresh_store();
    add_task(&conn, "default", "Write report").unwrap();
    add_task(&conn, "default", "Buy milk").unwrap();
    let expected = vec![task(1, "Write report", false), task(2, "Buy milk", true)];
    assert_eq!(mark_task_complete(&conn, "default", 2), Ok(expected.clone()));
    assert_eq!(mark_task_complete(&conn, "default", 2), Ok(expected.clone()));
    assert_eq!(list_tasks(&conn, "default"), Ok(expected));
}

#[test]
fn completing_unknown_id_on_empty_store_changes_nothing() {
    let conn = fresh_store();
    assert_eq!(mark_task_complete(&conn, "default", 9999), Ok(vec![]));
    assert_eq!(list_tasks(&conn, "default"), Ok(vec![]));
}

#[test]
fn completing_unknown_id_changes_nothing() {
    let conn = fresh_store();
    add_task(&conn, "default", "Write report").unwrap();
    add_task(&conn, "default", "Buy milk").unwrap();
    mark_task_complete(&conn, "default", 1).unwrap();
    let before = list_tasks(&conn, "default").unwrap();
    assert_eq!(mark_task_complete(&conn, "default", 9999), Ok(before.clone()));
    assert_eq!(mark_task_complete(&conn, "default", -1), Ok(before.clone()));
    assert_eq!(mark_task_complete(&conn, "default", 0), Ok(before.clone()));
    assert_eq!(list_tasks(&conn, "default"), Ok(before));
}

#[test]
fn completing_marks_only_the_chosen_task() {
    let conn = fresh_store();
    add_task(&conn, "default", "a").unwrap();
    add_task(&conn, "default", "b").unwrap();
    add_task(&conn, "default", "c").unwrap();
    assert_eq!(
        mark_task_complete(&conn, "default", 2),
        Ok(vec![task(1, "a", false), task(2, "b", true), task(3, "c", false)])
    );
}

#[test]
fn scenario_fresh_store_add_and_list() {
    let conn = fresh_store();
    add_task(&conn, "default", "Write report").unwrap();
    assert_eq!(list_tasks(&conn, "default"), Ok(vec![task(1, "Write report", false)]));
}

#[test]
fn scenario_complete_first_task() {
    let conn = fresh_store();
    add_task(&conn, "default", "Write report").unwrap();
    assert_eq!(
        mark_task_complete(&conn, "default", 1),
        Ok(vec![task(1, "Write report", true)])
    );
    assert_eq!(list_tasks(&conn, "default"), Ok(vec![task(1, "Write report", true)]));
}

#[test]
fn scenario_blank_description_is_stored_empty() {
    let conn = fresh_store();
    assert_eq!(add_task(&conn, "default", "  "), Ok(()));
    assert_eq!(list_tasks(&conn, "default"), Ok(vec![task(1, "", false)]));
}

#[test]
fn description_is_stored_without_surrounding_white_space() {
    let conn = fresh_store();
    add_task(&conn, "default", "  Buy milk \r\n").unwrap();
    add_task(&conn, "default", "\tcall  home\t").unwrap();
    assert_eq!(
        list_tasks(&conn, "default"),
        Ok(vec![task(1, "Buy milk", false), task(2, "call  home", false)])
    );
}

#[test]
fn description_is_bound_and_never_read_as_a_statement() {
    let conn = fresh_store();
    let text = "x'); DROP TABLE \"default\"; --";
    add_task(&conn, "default", text).unwrap();
    add_task(&conn, "default", "he said \"hi\" ?").unwrap();
    assert_eq!(
        list_tasks(&conn, "default"),
        Ok(vec![task(1, text, false), task(2, "he said \"hi\" ?", false)])
    );
}

#[test]
fn invalid_list_name_is_refused() {
    let conn = fresh_store();
    add_task(&conn, "default", "kept").unwrap();
    let names = ["", "my list", "a\"b", "default\"; DROP TABLE \"default", "caf\u{e9}", "a-b"];
    for name in names {
        assert_eq!(create_table(&conn, name), Err(StorageError::InvalidListName));
        assert_eq!(add_task(&conn, name, "x"), Err(StorageError::InvalidListName));
        assert_eq!(list_tasks(&conn, name), Err(StorageError::InvalidListName));
        assert_eq!(mark_task_complete(&conn, name, 1), Err(StorageError::InvalidListName));
    }
    let tables: i64 = conn
        .query_row("SELECT COUNT(*) FROM sqlite_master WHERE type = 'table'", [], |row| row.get(0))
        .unwrap();
    // The task table and the sequence table that AUTOINCREMENT brings.
    assert_eq!(tables, 2);
    assert_eq!(list_tasks(&conn, "default"), Ok(vec![task(1, "kept", false)]));
}

#[test]
fn missing_table_is_an_engine_error() {
    let conn = Connection::open_in_memory().unwrap();
    assert!(matches!(list_tasks(&conn, "default"), Err(StorageError::Engine(_))));
    assert!(matches!(add_task(&conn, "default", "x"), Err(StorageError::Engine(_))));
    assert!(matches!(mark_task_complete(&conn, "default", 1), Err(StorageError::Engine(_))));
}

#[test]
fn lists_are_separate_tables() {
    let conn = fresh_store();
    create_table(&conn, "work_2").unwrap();
    add_task(&conn, "default", "home").unwrap();
    add_task(&conn, "work_2", "office").unwrap();
    mark_task_complete(&conn, "work_2", 1).unwrap();
    assert_eq!(list_tasks(&conn, "default"), Ok(vec![task(1, "home", false)]));
    assert_eq!(list_tasks(&conn, "work_2"), Ok(vec![task(1, "office", true)]));
    assert_eq!(table_count(&conn, "work_2"), 1);
}

#[test]
fn completed_column_is_read_as_a_flag() {
    let conn = fresh_store();
    conn.execute("INSERT INTO \"default\" (description, completed) VALUES ('zero', 0)", []).unwrap();
    conn.execute("INSERT INTO \"default\" (description, completed) VALUES ('one', 1)", []).unwrap();
    conn.execute("INSERT INTO \"default\" (description, completed) VALUES ('two', 2)", []).unwrap();
    conn.execute("INSERT INTO \"default\" (description, completed) VALUES ('neg', -1)", []).unwrap();
    assert_eq!(
        list_tasks(&conn, "default"),
        Ok(vec![
            task(1, "zero", false),
            task(2, "one", true),
            task(3, "two", true),
            task(4, "neg", true),
        ])
    );
}

#[test]
fn unreadable_rows_are_engine_errors() {
    let conn = fresh_store();
    conn.execute("INSERT INTO \"default\" (description, completed) VALUES ('x', NULL)", []).unwrap();
    assert!(matches!(list_tasks(&conn, "default"), Err(StorageError::Engine(_))));

    let conn = fresh_store();
    conn.execute("INSERT INTO \"default\" (id, description) VALUES (4294967296, 'big')", [])
        .unwrap();
    assert_eq!(
        list_tasks(&conn, "default"),
        Err(StorageError::Engine(rusqlite::Error::IntegralValueOutOfRange(0, 4294967296)))
    );
}

#[test]
fn largest_and_smallest_ids_are_read() {
    let conn = fresh_store();
    conn.execute("INSERT INTO \"default\" (id, description) VALUES (-2147483648, 'low')", [])
        .unwrap();
    conn.execute("INSERT INTO \"default\" (id, description) VALUES (2147483647, 'high')", [])
        .unwrap();
    assert_eq!(
        mark_task_complete(&conn, "default", -2147483648),
        Ok(vec![task(-2147483648, "low", true), task(2147483647, "high", false)])
    );
}

#[test]
fn collect_tasks_keeps_every_row_in_order() {
    let rows = vec![Ok(task(3, "c", true)), Ok(task(1, "a", false)), Ok(task(2, "", false))];
    assert_eq!(
        collect_tasks(rows),
        Ok(vec![task(3, "c", true), task(1, "a", false), task(2, "", false)])
    );
    assert_eq!(collect_tasks(vec![]), Ok(vec![]));
}

#[test]
fn collect_tasks_reports_the_first_failure() {
    let rows = vec![
        Ok(task(1, "a", false)),
        Err(rusqlite::Error::InvalidColumnIndex(7)),
        Ok(task(2, "b", false)),
        Err(rusqlite::Error::InvalidQuery),
    ];
    assert_eq!(
        collect_tasks(rows),
        Err(StorageError::Engine(rusqlite::Error::InvalidColumnIndex(7)))
    );
    assert_eq!(
        collect_tasks(vec![Err(rusqlite::Error::InvalidQuery)]),
        Err(StorageError::Engine(rusqlite::Error::InvalidQuery))
    );
}

#[test]
fn from_engine_keeps_values_and_wraps_errors() {
    assert_eq!(from_engine(Ok(5usize)), Ok(5usize));
    assert_eq!(
        from_engine::<usize>(Err(rusqlite::Error::QueryReturnedNoRows)),
        Err(StorageError::Engine(rusqlite::Error::QueryReturnedNoRows))
    );
}

#[test]
fn task_from_columns_reads_the_flag() {
    assert_eq!(Task::from_columns(7, "x".to_string(), 0), task(7, "x", false));
    assert_eq!(Task::from_columns(7, "x".to_string(), 1), task(7, "x", true));
    assert_eq!(Task::from_columns(-7, String::new(), i64::MIN), task(-7, "", true));
}

fn foreign_table(conn: &Connection, row: &str) {
    conn.execute("CREATE TABLE \"default\" (id, description, completed)", []).unwrap();
    conn.execute(&format!("INSERT INTO \"default\" VALUES ({row})"), []).unwrap();
    // The table is left as it is.
    assert_eq!(create_table(conn, "default"), Ok(()));
}

#[test]
fn value_of_another_type_is_an_engine_error() {
    let conn = Connection::open_in_memory().unwrap();
    foreign_table(&conn, "'one', 'x', 0");
    assert!(matches!(
        list_tasks(&conn, "default"),
        Err(StorageError::Engine(rusqlite::Error::FromSqlConversionFailure(
            0,
            rusqlite::types::Type::Text,
            _
        )))
    ));

    let conn = Connection::open_in_memory().unwrap();
    foreign_table(&conn, "1, 2, 0");
    assert!(matches!(
        list_tasks(&conn, "default"),
        Err(StorageError::Engine(rusqlite::Error::FromSqlConversionFailure(
            1,
            rusqlite::types::Type::Integer,
            _
        )))
    ));

    let conn = Connection::open_in_memory().unwrap();
    foreign_table(&conn, "1, 'x', NULL");
    assert!(matches!(
        list_tasks(&conn, "default"),
        Err(StorageError::Engine(rusqlite::Error::FromSqlConversionFailure(
            2,
            rusqlite::types::Type::Null,
            _
        )))
    ));

    let conn = Connection::open_in_memory().unwrap();
    foreign_table(&conn, "1, X'00', 0");
    assert!(matches!(
        mark_task_complete(&conn, "default", 1),
        Err(StorageError::Engine(rusqlite::Error::FromSqlConversionFailure(
            1,
            rusqlite::types::Type::Blob,
            _
        )))
    ));
}

#[test]
fn value_of_another_type_under_an_unreadable_column_name_is_an_engine_error() {
    let conn = Connection::open_in_memory().unwrap();
    conn.execute("CREATE TABLE \"default\" (aa, description, completed)", []).unwrap();
    conn.execute("INSERT INTO \"default\" VALUES ('one', 'x', 0)", []).unwrap();

    // Rewrite the stored schema so that the first column's name is two bytes
    // that are no UTF-8, as a file written by another program may hold.
    let mut schema: Vec<u8> = Vec::new();
    schema.extend_from_slice(b"CREATE TABLE \"default\" (\"");
    schema.extend_from_slice(&[0xff, 0xfe]);
    schema.extend_from_slice(b"\", description, completed)");
    let mut hex = String::new();
    for byte in schema {
        hex.push_str(&format!("{byte:02x}"));
    }
    conn.execute_batch(&format!(
        "PRAGMA writable_schema = ON;
         UPDATE sqlite_master SET sql = CAST(X'{hex}' AS TEXT) WHERE name = 'default';
         PRAGMA schema_version = 77;
         PRAGMA writable_schema = OFF;"
    ))
    .unwrap();
    let name: Vec<u8> = conn
        .query_row(
            "SELECT CAST(name AS BLOB) FROM pragma_table_info('default') WHERE cid = 0",
            [],
            |row| row.get(0),
        )
        .unwrap();
    assert_eq!(name, vec![0xff, 0xfe]);

    assert_eq!(create_table(&conn, "default"), Ok(()));
    assert!(matches!(
        list_tasks(&conn, "default"),
        Err(StorageError::Engine(rusqlite::Error::FromSqlConversionFailure(
            0,
            rusqlite::types::Type::Text,
            _
        )))
    ));
}

#[test]
fn text_that_is_not_utf8_is_an_engine_error() {
    let conn = fresh_store();
    conn.execute(
        "INSERT INTO \"default\" (description) VALUES (CAST(X'66ff6f' AS TEXT))",
        [],
    )
    .unwrap();
    assert!(matches!(
        list_tasks(&conn, "default"),
        Err(StorageError::Engine(rusqlite::Error::Utf8Error(1, _)))
    ));
}

#[test]
fn missing_column_is_an_engine_error() {
    let conn = Connection::open_in_memory().unwrap();
    conn.execute("CREATE TABLE \"default\" (id INTEGER, description TEXT)", []).unwrap();
    conn.execute("INSERT INTO \"default\" VALUES (1, 'x')", []).unwrap();
    assert_eq!(
        list_tasks(&conn, "default"),
        Err(StorageError::Engine(rusqlite::Error::InvalidColumnIndex(2)))
    );
}

#[test]
fn a_failed_row_fails_the_whole_read() {
    let conn = fresh_store();
    add_task(&conn, "default", "good").unwrap();
    conn.execute("INSERT INTO \"default\" (description, completed) VALUES ('bad', 'yes')", [])
        .unwrap();
    add_task(&conn, "default", "also good").unwrap();
    assert!(matches!(
        list_tasks(&conn, "default"),
        Err(StorageError::Engine(rusqlite::Error::FromSqlConversionFailure(
            2,
            rusqlite::types::Type::Text,
            _
        )))
    ));
}
