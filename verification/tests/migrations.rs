use include_dir::{Dir, DirEntry, File};
use sbtc_store::error::{DbError, StoreError};
use sbtc_store::migrations::MigrationFile;
use sbtc_store::procedure::{Procedure, Step};
use sbtc_store::sql;
use sbtc_store::store::PgStore;
use sbtc_store::value::{Action, Fetch, Reply, Response, Row, Value};

fn store() -> PgStore<()> {
    PgStore::from(())
}

/// Drives an operation to its end, with the given answers.
fn drive<P: Procedure>(
    mut step: Step<P, P::Output>,
    mut answer: impl FnMut(Action) -> Response,
) -> Result<P::Output, StoreError> {
    loop {
        match step {
            Step::Ask(action, state) => step = state.resume(answer(action)),
            Step::Done(result) => return result,
        }
    }
}

fn rows(rows: Vec<Vec<Value>>) -> Response {
    Ok(Reply { rows: rows.into_iter().map(|values| Row { values }).collect(), rows_affected: 0 })
}

fn file(name: &str, contents: &[u8]) -> MigrationFile {
    MigrationFile {
        file_name: name.to_string(),
        path: format!("migrations/{name}"),
        contents: contents.to_vec(),
    }
}

fn done() -> Response {
    Ok(Reply { rows: vec![], rows_affected: 1 })
}

fn text(value: &Value) -> String {
    match value {
        Value::Text(text) => text.clone(),
        _ => panic!("no text"),
    }
}

/// What an action does, in a few words.
fn told(action: &Action) -> String {
    match action {
        Action::RunScript(script) => {
            assert_eq!(*script, sql::CREATE_MIGRATIONS_TABLE);
            "create".to_string()
        }
        Action::Begin => "begin".to_string(),
        Action::Commit => "commit".to_string(),
        Action::Rollback => "rollback".to_string(),
        Action::RunInTransaction(statement) => {
            let name = text(&statement.params[0]);
            if statement.sql == sql::INSERT_MIGRATION {
                assert_eq!(statement.fetch, Fetch::Nothing);
                format!("record {name}")
            } else {
                assert_eq!(statement.sql, sql::CHECK_MIGRATION_EXISTENCE);
                assert_eq!(statement.fetch, Fetch::One);
                format!("check {name}")
            }
        }
        Action::RunScriptInTransaction(script) => format!("run {script}"),
        Action::Run(_) => panic!("a statement outside the transaction"),
    }
}

/// Applies migrations of which some are recorded, with one action that fails,
/// and tells what was done.
fn apply(
    files: Vec<MigrationFile>,
    recorded: &[&str],
    failing: &str,
) -> (Result<(), StoreError>, Vec<String>) {
    let mut log: Vec<String> = Vec::new();
    let result = drive(store().apply_files(files), |action| {
        let words = told(&action);
        log.push(words.clone());
        if words == failing {
            return Err(sqlx::Error::WorkerCrashed);
        }
        match words.strip_prefix("check ") {
            Some(name) => {
                let count: i64 = if recorded.contains(&name) { 1 } else { 0 };
                rows(vec![vec![Value::Int8(count)]])
            }
            None => done(),
        }
    });
    (result, log)
}

fn three() -> Vec<MigrationFile> {
    vec![
        file("0010__c.sql", b"C"),
        file("README.md", b"read me"),
        file("0001__a.sql", b"A"),
        file("0002__b.sql", "B \u{e9}".as_bytes()),
    ]
}

#[test]
fn scripts_are_applied_in_the_order_of_their_names() {
    let (result, log) = apply(three(), &[], "");
    assert!(result.is_ok());
    assert_eq!(
        log,
        vec![
            "create",
            "begin",
            "check 0001__a.sql",
            "run A",
            "record 0001__a.sql",
            "check 0002__b.sql",
            "run B \u{e9}",
            "record 0002__b.sql",
            "check 0010__c.sql",
            "run C",
            "record 0010__c.sql",
            "commit",
        ]
    );
}

#[test]
fn applied_scripts_are_skipped() {
    let (result, log) = apply(three(), &["0001__a.sql", "0010__c.sql"], "");
    assert!(result.is_ok());
    assert_eq!(
        log,
        vec![
            "create",
            "begin",
            "check 0001__a.sql",
            "check 0002__b.sql",
            "run B \u{e9}",
            "record 0002__b.sql",
            "check 0010__c.sql",
            "commit",
        ]
    );
}

#[test]
fn second_time_applies_nothing() {
    let (result, log) = apply(three(), &["0001__a.sql", "0002__b.sql", "0010__c.sql"], "");
    assert!(result.is_ok());
    assert!(!log.iter().any(|words| words.starts_with("run") || words.starts_with("record")));
}

/// A database with a transaction: what is recorded and run in it lasts if it is
/// committed.
#[derive(Default)]
struct Db {
    recorded: Vec<String>,
    run: Vec<String>,
    recorded_in_transaction: Vec<String>,
    run_in_transaction: Vec<String>,
}

impl Db {
    /// Applies migrations, with one action that fails, and tells what was done.
    /// A transaction that is still open at the end is rolled back.
    fn apply(
        &mut self,
        files: Vec<MigrationFile>,
        failing: &str,
    ) -> (Result<(), StoreError>, Vec<String>) {
        let mut log: Vec<String> = Vec::new();
        let result = drive(store().apply_files(files), |action| {
            let words = told(&action);
            log.push(words.clone());
            if words == failing {
                return Err(sqlx::Error::WorkerCrashed);
            }
            if let Some(name) = words.strip_prefix("check ") {
                let known = self.recorded.iter().chain(&self.recorded_in_transaction);
                let count = known.filter(|other| *other == name).count();
                return rows(vec![vec![Value::Int8(count as i64)]]);
            }
            if let Some(name) = words.strip_prefix("record ") {
                self.recorded_in_transaction.push(name.to_string());
            }
            if let Some(script) = words.strip_prefix("run ") {
                self.run_in_transaction.push(script.to_string());
            }
            if words == "commit" {
                self.recorded.append(&mut self.recorded_in_transaction);
                self.run.append(&mut self.run_in_transaction);
            }
            done()
        });
        self.recorded_in_transaction.clear();
        self.run_in_transaction.clear();
        (result, log)
    }
}

#[test]
fn failed_migration_leaves_no_record() {
    for failing in ["run C", "record 0010__c.sql", "check 0002__b.sql", "commit"] {
        let mut db = Db::default();
        let (result, log) = db.apply(three(), failing);
        assert!(result.is_err());
        assert!(log.contains(&"record 0001__a.sql".to_string()));
        assert!(db.recorded.is_empty());
        assert!(db.run.is_empty());
        // The next time, everything is applied.
        let (result, _) = db.apply(three(), "");
        assert!(result.is_ok());
        assert_eq!(db.recorded, vec!["0001__a.sql", "0002__b.sql", "0010__c.sql"]);
        assert_eq!(db.run, vec!["A", "B \u{e9}", "C"]);
    }
}

#[test]
fn script_that_is_not_utf8_leaves_no_record() {
    let mut db = Db::default();
    let (result, log) = db.apply(vec![file("1.sql", b"A"), file("2.sql", &[0xff])], "");
    assert!(matches!(result, Err(StoreError::ReadSqlMigration(_))));
    assert!(log.contains(&"record 1.sql".to_string()));
    assert!(!log.contains(&"commit".to_string()));
    assert!(db.recorded.is_empty());
}

#[test]
fn migrations_are_applied_once() {
    let mut db = Db::default();
    let (result, _) = db.apply(three(), "");
    assert!(result.is_ok());
    let (result, log) = db.apply(three(), "");
    assert!(result.is_ok());
    assert_eq!(
        log,
        vec![
            "create",
            "begin",
            "check 0001__a.sql",
            "check 0002__b.sql",
            "check 0010__c.sql",
            "commit",
        ]
    );
    assert_eq!(db.run, vec!["A", "B \u{e9}", "C"]);
    // A new script is applied, and no other.
    let mut files = three();
    files.push(file("0003__d.sql", b"D"));
    let (result, _) = db.apply(files, "");
    assert!(result.is_ok());
    assert_eq!(db.run, vec!["A", "B \u{e9}", "C", "D"]);
    assert_eq!(db.recorded.last().unwrap(), "0003__d.sql");
}

#[test]
fn scripts_are_told_by_their_names() {
    assert!(file("1.sql", b"").is_script());
    assert!(file(".sql", b"").is_script());
    assert!(!file("1.SQL", b"").is_script());
    assert!(!file("sql", b"").is_script());
    assert!(!file("1.sql.txt", b"").is_script());
    assert!(!file("", b"").is_script());
}

#[test]
fn without_files_nothing_is_checked() {
    let (result, log) = apply(vec![], &[], "");
    assert!(result.is_ok());
    assert_eq!(log, vec!["create", "begin", "commit"]);
    let (result, log) = apply(vec![file(".sq", b""), file("sql", b""), file("a.sql~", b"")], &[], "");
    assert!(result.is_ok());
    assert_eq!(log, vec!["create", "begin", "commit"]);
}

#[test]
fn script_that_is_not_utf8_is_rolled_back() {
    let files = vec![file("1.sql", b"A"), file("2.sql", &[0xff, 0xfe]), file("3.sql", b"C")];
    let (result, log) = apply(files, &[], "");
    assert!(matches!(result, Err(StoreError::ReadSqlMigration(path)) if path == "migrations/2.sql"));
    assert_eq!(log[log.len() - 2..], ["check 2.sql", "rollback"]);
}

#[test]
fn failures_are_told_apart() {
    let with = |failing: &str| {
        let files = vec![file("1.sql", b"A"), file("2.sql", &[0xff])];
        apply(files, &[], failing)
    };
    assert!(matches!(with("create").0, Err(StoreError::SqlxMigrate(_))));
    assert!(matches!(with("begin").0, Err(StoreError::SqlxBeginTransaction(_))));
    assert!(matches!(
        with("check 1.sql").0,
        Err(StoreError::SqlxQuery(DbError::Sqlx(sqlx::Error::WorkerCrashed)))
    ));
    assert!(matches!(with("run A").0, Err(StoreError::SqlxMigrate(_))));
    assert!(matches!(with("record 1.sql").0, Err(StoreError::SqlxQuery(_))));
    assert!(matches!(with("rollback").0, Err(StoreError::SqlxRollbackTransaction(_))));
    let (result, log) = apply(vec![file("1.sql", b"A")], &[], "commit");
    assert!(matches!(result, Err(StoreError::SqlxCommitTransaction(_))));
    assert_eq!(log.last().unwrap(), "commit");
    let (_, log) = with("run A");
    assert_eq!(log, vec!["create", "begin", "check 1.sql", "run A"]);
}

#[test]
fn names_are_ordered_by_their_bytes() {
    let files = vec![
        file("b.sql", b""),
        file("\u{e9}.sql", b""),
        file("a.sql", b""),
        file("a.sql.sql", b""),
        file("B.sql", b""),
    ];
    let (_, log) = apply(files, &["b.sql", "\u{e9}.sql", "a.sql", "a.sql.sql", "B.sql"], "");
    assert_eq!(
        log[2..7],
        [
            "check B.sql",
            "check a.sql",
            "check a.sql.sql",
            "check b.sql",
            "check \u{e9}.sql",
        ]
    );
}

const ENTRIES: &[DirEntry<'static>] = &[
    DirEntry::File(File::new("2.sql", b"B")),
    DirEntry::Dir(Dir::new("old", &[DirEntry::File(File::new("old/0.sql", b"Z"))])),
    DirEntry::File(File::new("migrations/1.sql", b"A")),
    DirEntry::File(File::new("notes.txt", b"")),
];

#[test]
fn files_of_a_directory_are_applied() {
    let dir: Dir<'static> = Dir::new("migrations", ENTRIES);
    let mut log: Vec<String> = Vec::new();
    let result = drive(store().apply_migrations(&dir), |action| {
        let words = told(&action);
        log.push(words.clone());
        if words.starts_with("check") {
            rows(vec![vec![Value::Int8(0)]])
        } else {
            done()
        }
    });
    assert!(result.is_ok());
    assert_eq!(
        log,
        vec![
            "create",
            "begin",
            "check 1.sql",
            "run A",
            "record 1.sql",
            "check 2.sql",
            "run B",
            "record 2.sql",
            "commit",
        ]
    );
}

#[test]
fn name_of_a_file_follows_the_last_slash() {
    let name = |path: &str| MigrationFile::new(path.to_string(), vec![]).file_name;
    assert_eq!(name("a/b/c.sql"), "c.sql");
    assert_eq!(name("c.sql"), "c.sql");
    assert_eq!(name("\u{e9}/\u{e8}.sql"), "\u{e8}.sql");
    assert_eq!(name(""), "");
}
