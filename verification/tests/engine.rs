//! End-to-end tests of the migration engine: the shipped catalog, the
//! runner's ordering, idempotence and rollback behaviour, and each error
//! kind.

use migration_engine::catalog::{get_migrations, Direction, MigrationUnit};
use migration_engine::db::Db;
use migration_engine::runner::{apply, CatalogFault, MigrationError};
use migration_engine::statement::{Statement, StatementError};
use migration_engine::value::{ColumnDef, Value};

fn col(name: &str, nullable: bool) -> ColumnDef {
    ColumnDef {
        name: name.to_string(),
        nullable,
    }
}

fn text(s: &str) -> Value {
    Value::Text(s.to_string())
}

fn unit(version: u64, description: &str, operation: Vec<Statement>) -> MigrationUnit {
    MigrationUnit {
        version,
        description: description.to_string(),
        direction: Direction::Up,
        operation,
    }
}

/// A tiny one-table catalog: `notes(id NOT NULL, body NULL)`.
fn notes_unit(version: u64) -> MigrationUnit {
    unit(
        version,
        "create_notes",
        vec![Statement::CreateTable {
            name: "notes".to_string(),
            columns: vec![col("id", false), col("body", true)],
        }],
    )
}

fn note_row(id: i64, body: &str) -> Vec<Value> {
    vec![Value::Int(id), text(body)]
}

#[test]
fn catalog_shape() {
    let migrations = get_migrations();
    assert_eq!(migrations.len(), 6);
    for (i, m) in migrations.iter().enumerate() {
        assert_eq!(m.version, i as u64 + 1);
        assert!(matches!(m.direction, Direction::Up));
        assert!(!m.operation.is_empty());
    }
    let descriptions: Vec<&str> = migrations.iter().map(|m| m.description.as_str()).collect();
    assert_eq!(
        descriptions,
        vec![
            "create_initial_tables",
            "insert_default_achievements",
            "add_timer_session_columns",
            "make_task_id_nullable",
            "add_task_priority_duedate_estimated",
            "add_user_settings_goal_columns",
        ]
    );
}

#[test]
fn fresh_database_applies_all_units() {
    let mut db = Db::new();
    let applied = apply(&mut db, get_migrations()).expect("full catalog applies");
    assert_eq!(applied, 6);
    assert_eq!(db.current_version(), 6);
}

#[test]
fn full_catalog_produces_schema() {
    let mut db = Db::new();
    apply(&mut db, get_migrations()).expect("full catalog applies");
    for table in [
        "skills",
        "tasks",
        "timer_sessions",
        "achievements",
        "reflections",
        "reflection_skills",
        "daily_activities",
        "user_settings",
    ] {
        assert!(db.has_table(table), "missing table {table}");
    }
    assert_eq!(db.table_count(), 8);
    assert_eq!(db.row_count("user_settings"), Some(1));
    assert_eq!(db.cell("user_settings", 0, "id"), Some(Value::Int(1)));
    assert_eq!(db.cell("user_settings", 0, "name"), Some(text("User")));
    assert_eq!(
        db.cell("user_settings", 0, "daily_goal_minutes"),
        Some(Value::Int(240))
    );
    assert_eq!(
        db.cell("user_settings", 0, "weekly_goal_minutes"),
        Some(Value::Int(420))
    );
    assert_eq!(db.row_count("achievements"), Some(15));
    assert_eq!(
        db.cell("achievements", 0, "id"),
        Some(text("ach_first_hour"))
    );
    assert_eq!(db.cell("achievements", 14, "target"), Some(Value::Int(50)));
    assert!(db.has_index("idx_tasks_skill_id"));
    assert!(db.has_index("idx_timer_sessions_task_id"));
    assert!(db.has_index("idx_daily_activities_date"));
}

#[test]
fn second_run_applies_nothing() {
    let mut db = Db::new();
    assert_eq!(apply(&mut db, get_migrations()).unwrap(), 6);
    let applied = apply(&mut db, get_migrations()).expect("re-run succeeds");
    assert_eq!(applied, 0);
    assert_eq!(db.current_version(), 6);
}

#[test]
fn rerun_leaves_row_counts_unchanged() {
    let tables = [
        "skills",
        "tasks",
        "timer_sessions",
        "achievements",
        "reflections",
        "reflection_skills",
        "daily_activities",
        "user_settings",
    ];
    let mut db = Db::new();
    apply(&mut db, get_migrations()).unwrap();
    let before: Vec<Option<usize>> = tables.iter().map(|t| db.row_count(t)).collect();
    assert_eq!(apply(&mut db, get_migrations()).unwrap(), 0);
    let after: Vec<Option<usize>> = tables.iter().map(|t| db.row_count(t)).collect();
    assert_eq!(before, after);
}

#[test]
fn extension_applies_only_the_new_unit() {
    let mut db = Db::new();
    let mut first_five = get_migrations();
    first_five.truncate(5);
    assert_eq!(apply(&mut db, first_five).unwrap(), 5);
    assert_eq!(db.current_version(), 5);
    let applied = apply(&mut db, get_migrations()).expect("extension applies");
    assert_eq!(applied, 1);
    assert_eq!(db.current_version(), 6);
    assert_eq!(
        db.cell("user_settings", 0, "daily_goal_minutes"),
        Some(Value::Int(240))
    );
}

#[test]
fn unsorted_catalog_is_applied_in_version_order() {
    let mut db = Db::new();
    let catalog = vec![
        unit(
            2,
            "seed_notes",
            vec![Statement::InsertRow {
                table: "notes".to_string(),
                row: note_row(1, "first"),
            }],
        ),
        notes_unit(1),
    ];
    let applied = apply(&mut db, catalog).expect("sorted defensively");
    assert_eq!(applied, 2);
    assert_eq!(db.current_version(), 2);
    assert_eq!(db.row_count("notes"), Some(1));
}

#[test]
fn failing_unit_rolls_back_completely() {
    let mut db = Db::new();
    let catalog = vec![
        notes_unit(1),
        unit(
            2,
            "seed_then_fail",
            vec![
                Statement::InsertRow {
                    table: "notes".to_string(),
                    row: note_row(1, "kept out by rollback"),
                },
                Statement::InsertRow {
                    table: "missing".to_string(),
                    row: note_row(2, "never lands"),
                },
            ],
        ),
    ];
    let err = apply(&mut db, catalog).unwrap_err();
    match err {
        MigrationError::Execution {
            version,
            description,
            cause,
        } => {
            assert_eq!(version, 2);
            assert_eq!(description, "seed_then_fail");
            assert_eq!(cause, StatementError::NoSuchTable);
        }
        other => panic!("unexpected error: {other:?}"),
    }
    // The failing unit left no trace: the insert that preceded the failing
    // statement was rolled back with it.
    assert_eq!(db.current_version(), 1);
    assert_eq!(db.row_count("notes"), Some(0));
}

#[test]
fn duplicate_versions_are_rejected_before_any_mutation() {
    let mut db = Db::new();
    let catalog = vec![notes_unit(3), notes_unit(3)];
    let err = apply(&mut db, catalog).unwrap_err();
    match err {
        MigrationError::Catalog { fault } => assert_eq!(fault, CatalogFault::DuplicateVersion),
        other => panic!("unexpected error: {other:?}"),
    }
    assert_eq!(db.current_version(), 0);
    assert_eq!(db.table_count(), 0);
}

#[test]
fn empty_operation_is_rejected_before_any_mutation() {
    let mut db = Db::new();
    let catalog = vec![notes_unit(1), unit(2, "does_nothing", Vec::new())];
    let err = apply(&mut db, catalog).unwrap_err();
    match err {
        MigrationError::Catalog { fault } => assert_eq!(fault, CatalogFault::EmptyOperation),
        other => panic!("unexpected error: {other:?}"),
    }
    assert_eq!(db.current_version(), 0);
    assert_eq!(db.table_count(), 0);
}

#[test]
fn shadow_rebuild_preserves_existing_rows() {
    let mut db = Db::new();
    let migrations = get_migrations();

    // Bring the schema to the state just before the rebuild, then record
    // two timer sessions the way the application would have.
    let mut catalog: Vec<MigrationUnit> = Vec::new();
    for m in migrations {
        if m.version <= 3 {
            catalog.push(m);
        }
    }
    let session = |id: &str, task: &str, skill: &str, minutes: i64, stamp: &str| -> Vec<Value> {
        vec![
            text(id),
            text(task),
            text(skill),
            text(stamp),
            Value::Null,
            Value::Int(minutes),
            text("focus"),
            Value::Int(1),
            text(stamp),
            Value::Int(minutes),
            text("pomodoro"),
        ]
    };
    catalog.push(unit(
        4,
        "record_sessions",
        vec![
            Statement::InsertRow {
                table: "timer_sessions".to_string(),
                row: session("s1", "t1", "sk1", 25, "2024-03-01T09:00:00"),
            },
            Statement::InsertRow {
                table: "timer_sessions".to_string(),
                row: session("s2", "t2", "sk2", 50, "2024-03-02T18:30:00"),
            },
        ],
    ));
    // The rebuild unit itself, re-versioned to follow the recorded rows.
    let mut rebuild = get_migrations().into_iter().nth(3).unwrap();
    assert_eq!(rebuild.description, "make_task_id_nullable");
    rebuild.version = 5;
    catalog.push(rebuild);

    assert_eq!(apply(&mut db, catalog).unwrap(), 5);

    // Every pre-existing row keeps its values through the rebuild.
    assert_eq!(db.row_count("timer_sessions"), Some(2));
    for (row, id, skill, minutes, stamp) in [
        (0, "s1", "sk1", 25, "2024-03-01T09:00:00"),
        (1, "s2", "sk2", 50, "2024-03-02T18:30:00"),
    ] {
        assert_eq!(db.cell("timer_sessions", row, "id"), Some(text(id)));
        assert_eq!(db.cell("timer_sessions", row, "skill_id"), Some(text(skill)));
        assert_eq!(
            db.cell("timer_sessions", row, "duration"),
            Some(Value::Int(minutes))
        );
        assert_eq!(db.cell("timer_sessions", row, "created_at"), Some(text(stamp)));
    }

    // The rebuild's purpose: task_id now admits NULL, and the table's
    // indexes were recreated.
    assert_eq!(db.column_nullable("timer_sessions", "task_id"), Some(true));
    assert!(db.has_index("idx_timer_sessions_task_id"));
    assert!(db.has_index("idx_timer_sessions_skill_id"));
    assert!(db.has_index("idx_timer_sessions_created_at"));

    // A session without a task can now be recorded.
    let loose = unit(
        6,
        "record_taskless_session",
        vec![Statement::InsertRow {
            table: "timer_sessions".to_string(),
            row: vec![
                text("s3"),
                Value::Null,
                text("sk1"),
                text("2024-03-03T08:00:00"),
                Value::Null,
                Value::Int(10),
                text("focus"),
                Value::Int(0),
                text("2024-03-03T08:00:00"),
                Value::Int(10),
                text("pomodoro"),
            ],
        }],
    );
    assert_eq!(apply(&mut db, vec![loose]).unwrap(), 1);
    assert_eq!(db.row_count("timer_sessions"), Some(3));
}

#[test]
fn backfill_fills_only_null_cells() {
    let mut db = Db::new();
    let catalog = vec![
        notes_unit(1),
        unit(
            2,
            "seed_notes",
            vec![
                Statement::InsertRow {
                    table: "notes".to_string(),
                    row: vec![Value::Int(1), Value::Null],
                },
                Statement::InsertRow {
                    table: "notes".to_string(),
                    row: note_row(2, "written"),
                },
            ],
        ),
        unit(
            3,
            "default_bodies",
            vec![Statement::FillNulls {
                table: "notes".to_string(),
                column: "body".to_string(),
                value: text("(empty)"),
            }],
        ),
    ];
    assert_eq!(apply(&mut db, catalog).unwrap(), 3);
    assert_eq!(db.cell("notes", 0, "body"), Some(text("(empty)")));
    assert_eq!(db.cell("notes", 1, "body"), Some(text("written")));
}

#[test]
fn create_table_is_idempotent_per_name() {
    let mut db = Db::new();
    let catalog = vec![
        notes_unit(1),
        unit(
            2,
            "seed",
            vec![Statement::InsertRow {
                table: "notes".to_string(),
                row: note_row(1, "kept"),
            }],
        ),
        // A later unit that re-issues the creation: a no-op that must not
        // clear the table.
        notes_unit(3),
    ];
    assert_eq!(apply(&mut db, catalog).unwrap(), 3);
    assert_eq!(db.row_count("notes"), Some(1));
    assert_eq!(db.cell("notes", 0, "body"), Some(text("kept")));
}

#[test]
fn missing_column_fails_the_unit() {
    let mut db = Db::new();
    let catalog = vec![
        notes_unit(1),
        unit(
            2,
            "bad_backfill",
            vec![Statement::FillNulls {
                table: "notes".to_string(),
                column: "no_such".to_string(),
                value: text("x"),
            }],
        ),
    ];
    let err = apply(&mut db, catalog).unwrap_err();
    assert!(matches!(
        err,
        MigrationError::Execution {
            version: 2,
            cause: StatementError::NoSuchColumn,
            ..
        }
    ));
    assert_eq!(db.current_version(), 1);
}

#[test]
fn duplicate_column_fails_the_unit() {
    let mut db = Db::new();
    let catalog = vec![
        notes_unit(1),
        unit(
            2,
            "re_add_body",
            vec![Statement::AddColumn {
                table: "notes".to_string(),
                column: col("body", true),
                fill: Value::Null,
            }],
        ),
    ];
    let err = apply(&mut db, catalog).unwrap_err();
    assert!(matches!(
        err,
        MigrationError::Execution {
            version: 2,
            cause: StatementError::DuplicateColumn,
            ..
        }
    ));
}

#[test]
fn arity_mismatch_fails_the_unit() {
    let mut db = Db::new();
    let catalog = vec![
        notes_unit(1),
        unit(
            2,
            "short_row",
            vec![Statement::InsertRow {
                table: "notes".to_string(),
                row: vec![Value::Int(1)],
            }],
        ),
    ];
    let err = apply(&mut db, catalog).unwrap_err();
    assert!(matches!(
        err,
        MigrationError::Execution {
            version: 2,
            cause: StatementError::ArityMismatch,
            ..
        }
    ));
}

#[test]
fn null_in_required_column_fails_the_unit() {
    let mut db = Db::new();
    let catalog = vec![
        notes_unit(1),
        unit(
            2,
            "null_id",
            vec![Statement::InsertRow {
                table: "notes".to_string(),
                row: vec![Value::Null, text("x")],
            }],
        ),
    ];
    let err = apply(&mut db, catalog).unwrap_err();
    assert!(matches!(
        err,
        MigrationError::Execution {
            version: 2,
            cause: StatementError::NullViolation,
            ..
        }
    ));
}

#[test]
fn empty_column_list_fails_the_unit() {
    let mut db = Db::new();
    let catalog = vec![unit(
        1,
        "no_columns",
        vec![Statement::CreateTable {
            name: "hollow".to_string(),
            columns: Vec::new(),
        }],
    )];
    let err = apply(&mut db, catalog).unwrap_err();
    assert!(matches!(
        err,
        MigrationError::Execution {
            version: 1,
            cause: StatementError::EmptyColumns,
            ..
        }
    ));
    assert_eq!(db.current_version(), 0);
}

#[test]
fn rebuild_to_required_column_fails_on_null_data() {
    let mut db = Db::new();
    let catalog = vec![
        notes_unit(1),
        unit(
            2,
            "seed_null_body",
            vec![Statement::InsertRow {
                table: "notes".to_string(),
                row: vec![Value::Int(1), Value::Null],
            }],
        ),
        unit(
            3,
            "require_body",
            vec![Statement::ShadowRebuild {
                table: "notes".to_string(),
                columns: vec![col("id", false), col("body", false)],
            }],
        ),
    ];
    let err = apply(&mut db, catalog).unwrap_err();
    assert!(matches!(
        err,
        MigrationError::Execution {
            version: 3,
            cause: StatementError::NullViolation,
            ..
        }
    ));
    // The rebuild left the table exactly as it was.
    assert_eq!(db.current_version(), 2);
    assert_eq!(db.row_count("notes"), Some(1));
    assert_eq!(db.column_nullable("notes", "body"), Some(true));
}
