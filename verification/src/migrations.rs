//! The migrations of the database schema.

use crate::error::StoreError;
use crate::fetch::{
    command, fetch_one, new_command, new_query, one_row, query, query_failed, reply_of,
};
use crate::order::{
    place_of, precedes, precedes_is_irreflexive, precedes_is_total, precedes_is_transitive, Place,
};
use crate::procedure::{run, step_view, Database, Operation, Procedure, Step, StepView};
use crate::row::as_int8;
use crate::sql;
use crate::store::PgStore;
use crate::value::{
    data, response_view, Action, ActionView, Datum, Fetch, Response, ResponseView, Value,
};
use vstd::prelude::*;
use vstd::utf8::{decode_utf8, encode_utf8, valid_utf8};

verus! {

/// A file in the directory of the migrations.
#[derive(Debug)]
pub struct MigrationFile {
    /// Its name, without the directory.
    pub file_name: String,
    /// Its path.
    pub path: String,
    /// What is in it.
    pub contents: Vec<u8>,
}

impl MigrationFile {
    /// What the files are ordered by.
    pub open spec fn key(&self) -> Seq<u8> {
        encode_utf8(self.file_name@)
    }

    /// Whether the file is a script: its name ends in `.sql`.
    pub open spec fn spec_is_script(&self) -> bool {
        let name = self.file_name@;
        name.len() >= 4 && name.skip(name.len() - 4) == seq!['.', 's', 'q', 'l']
    }

    /// Whether the file is a script: its name ends in `.sql`.
    #[verifier::when_used_as_spec(spec_is_script)]
    pub fn is_script(&self) -> (yes: bool)
        ensures
            yes == self.spec_is_script(),
    {
        let name = self.file_name.as_str();
        let len: usize = name.unicode_len();
        if len < 4 {
            return false;
        }
        let ghost suffix = self.file_name@.skip(len - 4);
        let yes = name.get_char(len - 4) == '.' && name.get_char(len - 3) == 's' && name.get_char(
            len - 2,
        ) == 'q' && name.get_char(len - 1) == 'l';
        proof {
            assert(suffix[0] == self.file_name@[len - 4]);
            assert(suffix[1] == self.file_name@[len - 3]);
            assert(suffix[2] == self.file_name@[len - 2]);
            assert(suffix[3] == self.file_name@[len - 1]);
            if yes {
                assert(suffix =~= seq!['.', 's', 'q', 'l']);
            }
        }
        yes
    }
}

/// Declares `include_dir::Dir`, a directory that is part of the program.
#[verifier::external_type_specification]
#[verifier::external_body]
pub struct ExDir<'a>(include_dir::Dir<'a>);

/// The files that stand directly in a directory, in the order in which the
/// directory has them: the path and the contents of each.
pub uninterp spec fn dir_files(dir: include_dir::Dir<'static>) -> Seq<(Seq<char>, Seq<u8>)>;

/// Calls `include_dir::Dir::files`, which gives the files that stand directly in
/// a directory, and takes the path and the contents of each.
#[verifier::external_body]
fn files_of(dir: &include_dir::Dir<'static>) -> (files: Vec<(String, Vec<u8>)>)
    ensures
        files@.map_values(|file: (String, Vec<u8>)| (file.0@, file.1@)) == dir_files(*dir),
{
    dir.files()
        .map(|file| (file.path().to_string_lossy().into_owned(), file.contents().to_vec()))
        .collect()
}

/// The position of the last slash of a path, or -1 if there is none.
pub open spec fn last_slash(path: Seq<char>) -> int
    decreases path.len(),
{
    if path.len() == 0 {
        -1
    } else if path.last() == '/' {
        path.len() - 1
    } else {
        last_slash(path.drop_last())
    }
}

/// The name of a file: what follows the last slash of its path.
pub open spec fn name_of(path: Seq<char>) -> Seq<char> {
    path.skip(last_slash(path) + 1)
}

impl MigrationFile {
    /// The file with the given path and contents.
    pub fn new(path: String, contents: Vec<u8>) -> (file: Self)
        ensures
            file.file_name@ == name_of(path@),
            file.path == path,
            file.contents == contents,
    {
        let text = path.as_str();
        let len: usize = text.unicode_len();
        let mut i: usize = len;
        assert(path@.take(i as int) =~= path@);
        while i > 0 && text.get_char(i - 1) != '/'
            invariant
                text@ == path@,
                i <= len,
                len == path@.len(),
                last_slash(path@) == last_slash(path@.take(i as int)),
            decreases i,
        {
            assert(path@.take(i as int).drop_last() =~= path@.take(i - 1));
            assert(path@.take(i as int).last() == path@[i - 1]);
            i = i - 1;
        }
        proof {
            if i > 0 {
                assert(path@.take(i as int).last() == path@[i - 1]);
            }
            assert(path@.subrange(i as int, len as int) =~= name_of(path@));
        }
        let file_name = text.substring_char(i, len).to_owned();
        MigrationFile { file_name, path, contents }
    }
}

/// The names, the paths and the contents of files.
pub open spec fn file_data(files: Seq<MigrationFile>) -> Seq<(Seq<char>, Seq<char>, Seq<u8>)> {
    files.map_values(|file: MigrationFile| (file.file_name@, file.path@, file.contents@))
}

/// The names, the paths and the contents of the files in a directory.
pub open spec fn dir_data(dir: include_dir::Dir<'static>) -> Seq<
    (Seq<char>, Seq<char>, Seq<u8>),
> {
    dir_files(dir).map_values(|file: (Seq<char>, Seq<u8>)| (name_of(file.0), file.0, file.1))
}

/// Reads the files in a directory.
fn read_dir(dir: &include_dir::Dir<'static>) -> (files: Vec<MigrationFile>)
    ensures
        file_data(files@) == dir_data(*dir),
{
    let mut rest = files_of(dir);
    let ghost all = rest@;
    let mut files: Vec<MigrationFile> = Vec::new();
    while rest.len() > 0
        invariant
            rest@ == all.skip(files@.len() as int),
            files@.len() <= all.len(),
            forall|j: int|
                0 <= j < files@.len() ==> (#[trigger] files@[j]).file_name@ == name_of(all[j].0@)
                    && files@[j].path@ == all[j].0@ && files@[j].contents@ == all[j].1@,
        decreases rest@.len(),
    {
        let (path, contents) = rest.remove(0);
        files.push(MigrationFile::new(path, contents));
        assert(rest@ =~= all.skip(files@.len() as int));
    }
    proof {
        let named = all.map_values(|file: (String, Vec<u8>)| (file.0@, file.1@));
        assert forall|j: int| 0 <= j < all.len() implies #[trigger] file_data(files@)[j]
            == dir_data(*dir)[j] by {
            assert(named[j] == (all[j].0@, all[j].1@));
        }
        assert(file_data(files@) =~= dir_data(*dir));
    }
    files
}

/// Calls `include_dir::File::contents_utf8`, which gives the text that the
/// bytes of a file encode, or nothing if they are not UTF-8.
#[verifier::external_body]
fn contents_utf8(contents: &Vec<u8>) -> (text: Option<String>)
    ensures
        (match text {
            Some(text) => valid_utf8(contents@) && text@ == decode_utf8(contents@),
            None => !valid_utf8(contents@),
        }),
{
    include_dir::File::new("", contents).contents_utf8().map(str::to_owned)
}

/// Whether the name of a file is smaller than that of another.
fn comes_before(a: &MigrationFile, b: &MigrationFile) -> (yes: bool)
    ensures
        yes == precedes(a.key(), b.key()),
{
    match place_of(a.file_name.as_str().as_bytes(), b.file_name.as_str().as_bytes()) {
        Place::Before => true,
        Place::Same => {
            proof {
                precedes_is_irreflexive(a.key());
            }
            false
        },
        Place::After => {
            proof {
                precedes_is_irreflexive(a.key());
                if precedes(a.key(), b.key()) {
                    precedes_is_transitive(a.key(), b.key(), a.key());
                }
            }
            false
        },
    }
}

/// The files with one more, behind all those whose names are not greater.
pub open spec fn insert_by_name(
    files: Seq<MigrationFile>,
    file: MigrationFile,
) -> Seq<MigrationFile>
    decreases files.len(),
{
    if files.len() > 0 && precedes(file.key(), files.last().key()) {
        insert_by_name(files.drop_last(), file).push(files.last())
    } else {
        files.push(file)
    }
}

/// The files in the order of their names.
pub open spec fn sorted_by_name(files: Seq<MigrationFile>) -> Seq<MigrationFile>
    decreases files.len(),
{
    if files.len() == 0 {
        files
    } else {
        insert_by_name(sorted_by_name(files.drop_last()), files.last())
    }
}

/// Whether no file stands before one with a smaller name.
pub open spec fn in_order(files: Seq<MigrationFile>) -> bool {
    forall|i: int, j: int|
        0 <= i < j < files.len() ==> !precedes(
            (#[trigger] files[j]).key(),
            (#[trigger] files[i]).key(),
        )
}

/// Sorting puts the files in order, and neither adds nor drops any.
pub proof fn sorting_sorts(files: Seq<MigrationFile>)
    ensures
        in_order(sorted_by_name(files)),
        sorted_by_name(files).to_multiset() == files.to_multiset(),
    decreases files.len(),
{
    if files.len() > 0 {
        let rest = files.drop_last();
        sorting_sorts(rest);
        inserting_keeps_order(sorted_by_name(rest), files.last());
        assert(files =~= rest.push(files.last()));
        files.to_multiset_ensures();
        rest.to_multiset_ensures();
    }
}

/// Inserting a file keeps the order, and adds just that file.
proof fn inserting_keeps_order(files: Seq<MigrationFile>, file: MigrationFile)
    requires
        in_order(files),
    ensures
        in_order(insert_by_name(files, file)),
        insert_by_name(files, file).to_multiset() == files.to_multiset().insert(file),
        insert_by_name(files, file).len() == files.len() + 1,
        forall|i: int|
            0 <= i <= files.len() ==> (#[trigger] insert_by_name(files, file)[i]) == file
                || files.contains(insert_by_name(files, file)[i]),
    decreases files.len(),
{
    let after = insert_by_name(files, file);
    files.to_multiset_ensures();
    if files.len() > 0 && precedes(file.key(), files.last().key()) {
        let rest = files.drop_last();
        let shorter = insert_by_name(rest, file);
        inserting_keeps_order(rest, file);
        assert(files =~= rest.push(files.last()));
        rest.to_multiset_ensures();
        shorter.to_multiset_ensures();
        assert(after.to_multiset() =~= files.to_multiset().insert(file));
        assert forall|i: int| 0 <= i < shorter.len() implies !precedes(
            files.last().key(),
            (#[trigger] shorter[i]).key(),
        ) by {
            if shorter[i] == file {
                if precedes(files.last().key(), file.key()) {
                    precedes_is_transitive(file.key(), files.last().key(), file.key());
                }
            } else {
                let k = rest.index_of(shorter[i]);
                assert(files[k] == shorter[i]);
            }
        }
        assert forall|i: int| 0 <= i <= files.len() implies (#[trigger] after[i]) == file
            || files.contains(after[i]) by {
            if i < shorter.len() {
                assert(after[i] == shorter[i]);
                if shorter[i] != file {
                    let k = rest.index_of(shorter[i]);
                    assert(files[k] == shorter[i]);
                }
            } else {
                assert(after[i] == files[files.len() - 1]);
            }
        }
    } else {
        assert forall|i: int| 0 <= i < files.len() implies !precedes(
            file.key(),
            (#[trigger] files[i]).key(),
        ) by {
            let last = files.last();
            if precedes(file.key(), files[i].key()) {
                precedes_is_total(file.key(), last.key());
                if precedes(last.key(), file.key()) {
                    precedes_is_transitive(last.key(), file.key(), files[i].key());
                }
                assert(i == files.len() - 1 || !precedes(last.key(), files[i].key()));
            }
        }
        assert forall|i: int| 0 <= i <= files.len() implies (#[trigger] after[i]) == file
            || files.contains(after[i]) by {
            if i < files.len() {
                assert(after[i] == files[i]);
            }
        }
    }
}

/// Puts the files in the order of their names.
fn sort_by_name(files: Vec<MigrationFile>) -> (sorted: Vec<MigrationFile>)
    ensures
        sorted@ == sorted_by_name(files@),
{
    let mut rest = files;
    let mut sorted: Vec<MigrationFile> = Vec::new();
    let ghost mut done: int = 0;
    assert(files@.take(0) =~= Seq::empty());
    while rest.len() > 0
        invariant
            0 <= done <= files@.len(),
            rest@ == files@.skip(done),
            sorted@ == sorted_by_name(files@.take(done)),
        decreases rest@.len(),
    {
        let file = rest.remove(0);
        let ghost before = sorted@;
        let mut i: usize = sorted.len();
        assert(before.take(i as int) =~= before);
        assert(before.skip(i as int) =~= Seq::empty());
        assert(insert_by_name(before, file) =~= insert_by_name(before.take(i as int), file)
            + before.skip(i as int));
        while i > 0 && comes_before(&file, &sorted[i - 1])
            invariant
                i <= sorted@.len(),
                sorted@ == before,
                insert_by_name(before, file) == insert_by_name(before.take(i as int), file)
                    + before.skip(i as int),
            decreases i,
        {
            proof {
                let taken = before.take(i as int);
                assert(taken.drop_last() =~= before.take(i - 1));
                assert(taken.last() == before[i - 1]);
                assert(insert_by_name(before.take(i - 1), file).push(before[i - 1]) + before.skip(
                    i as int,
                ) =~= insert_by_name(before.take(i - 1), file) + before.skip(i - 1));
            }
            i = i - 1;
        }
        assert(insert_by_name(before.take(i as int), file) == before.take(i as int).push(file)) by {
            if i > 0 {
                assert(before.take(i as int).last() == before[i - 1]);
            }
        }
        assert(before.insert(i as int, file) =~= before.take(i as int).push(file) + before.skip(
            i as int,
        ));
        sorted.insert(i, file);
        proof {
            assert(files@.take(done + 1).drop_last() =~= files@.take(done));
            assert(files@.take(done + 1).last() == file);
            done = done + 1;
            assert(rest@ =~= files@.skip(done));
        }
    }
    assert(files@.take(done) =~= files@);
    sorted
}

/// The position of the first script from a position on, or the number of files
/// if there is none.
pub open spec fn next_script(files: Seq<MigrationFile>, position: int) -> int
    decreases files.len() - position,
{
    if position >= files.len() {
        files.len() as int
    } else if files[position].is_script() {
        position
    } else {
        next_script(files, position + 1)
    }
}

/// The action that counts the records of a migration.
pub open spec fn check_migration_action(key: Seq<char>) -> ActionView {
    ActionView::RunInTransaction(
        query::<i64>(sql::CHECK_MIGRATION_EXISTENCE, Fetch::One, seq![Datum::Text(key)]),
    )
}

/// Whether there is a record of a migration, given the count of its records.
pub open spec fn migration_exists(response: ResponseView) -> Result<bool, StoreError> {
    match one_row::<i64>(response) {
        Ok(row) => Ok(as_int8(row[0]) > 0),
        Err(error) => Err(error),
    }
}

/// The action that records a migration, in the transaction in which it is run.
pub open spec fn insert_migration_action(key: Seq<char>) -> ActionView {
    ActionView::RunInTransaction(command(sql::INSERT_MIGRATION, seq![Datum::Text(key)]))
}

/// Counts the records of a migration, in the open transaction.
fn check_migration_existence(key: &String) -> (action: Action)
    ensures
        action@ == check_migration_action(key@),
{
    let params = vec![Value::Text(key.clone())];
    assert(data(params@) =~= seq![Datum::Text(key@)]);
    Action::RunInTransaction(
        new_query::<i64>(sql::CHECK_MIGRATION_EXISTENCE, Fetch::One, params),
    )
}

/// Tells whether there is a record of a migration.
fn read_migration_existence(response: Response) -> (result: Result<bool, StoreError>)
    ensures
        result == migration_exists(response_view(response)),
{
    match fetch_one::<i64>(response) {
        Ok(count) => Ok(count > 0),
        Err(error) => Err(error),
    }
}

/// Records a migration, in the open transaction.
fn insert_migration(key: &String) -> (action: Action)
    ensures
        action@ == insert_migration_action(key@),
{
    let params = vec![Value::Text(key.clone())];
    assert(data(params@) =~= seq![Datum::Text(key@)]);
    Action::RunInTransaction(new_command(sql::INSERT_MIGRATION, params))
}

/// What the migration of the database waits for.
#[derive(Debug, Clone, Copy, PartialEq, Eq)]
pub enum Stage {
    /// The table of the migrations that have been applied.
    CreatingTable,
    /// The transaction for the migrations.
    Beginning,
    /// Whether the script has been applied.
    Checking,
    /// The script to run.
    Executing,
    /// The script to be recorded.
    Recording,
    /// The end of the transaction, after the last script.
    Committing,
    /// The end of the transaction, after a script that is not UTF-8.
    RollingBack,
}

/// The migration of the database, at one of its scripts.
#[derive(Debug)]
pub struct ApplyMigrations {
    stage: Stage,
    files: Vec<MigrationFile>,
    position: usize,
}

/// The content of an [`ApplyMigrations`].
#[verifier::ext_equal]
pub struct ApplyMigrationsView {
    pub stage: Stage,
    pub files: Seq<MigrationFile>,
    pub position: int,
}

impl View for ApplyMigrations {
    type V = ApplyMigrationsView;

    closed spec fn view(&self) -> ApplyMigrationsView {
        ApplyMigrationsView {
            stage: self.stage,
            files: self.files@,
            position: self.position as int,
        }
    }
}

impl Operation for ApplyMigrations {
    type Output = ();

    type OutputView = ();

    open spec fn output(output: ()) -> () {
        output
    }
}

/// The step to the first script from a position on, or to the end of the
/// transaction if there is none.
pub open spec fn script_step(files: Seq<MigrationFile>, position: int) -> StepView<
    ApplyMigrationsView,
    (),
> {
    let position = next_script(files, position);
    if position < files.len() {
        StepView::Ask(
            check_migration_action(files[position].file_name@),
            ApplyMigrationsView { stage: Stage::Checking, files, position },
        )
    } else {
        StepView::Ask(
            ActionView::Commit,
            ApplyMigrationsView { stage: Stage::Committing, files, position },
        )
    }
}

impl Procedure for ApplyMigrations {
    open spec fn next(state: ApplyMigrationsView, response: ResponseView) -> StepView<
        ApplyMigrationsView,
        (),
    > {
        let file = state.files[state.position];
        match (state.stage, response) {
            (Stage::CreatingTable, Err(error)) => StepView::Done(
                Err(StoreError::SqlxMigrate(error)),
            ),
            (Stage::CreatingTable, Ok(_)) => StepView::Ask(
                ActionView::Begin,
                ApplyMigrationsView { stage: Stage::Beginning, ..state },
            ),
            (Stage::Beginning, Err(error)) => StepView::Done(
                Err(StoreError::SqlxBeginTransaction(error)),
            ),
            (Stage::Beginning, Ok(_)) => script_step(state.files, 0),
            (Stage::Checking, _) => match migration_exists(response) {
                Err(error) => StepView::Done(Err(error)),
                Ok(true) => script_step(state.files, state.position + 1),
                Ok(false) => if valid_utf8(file.contents@) {
                    StepView::Ask(
                        ActionView::RunScriptInTransaction(decode_utf8(file.contents@)),
                        ApplyMigrationsView { stage: Stage::Executing, ..state },
                    )
                } else {
                    StepView::Ask(
                        ActionView::Rollback,
                        ApplyMigrationsView { stage: Stage::RollingBack, ..state },
                    )
                },
            },
            (Stage::Executing, Err(error)) => StepView::Done(Err(StoreError::SqlxMigrate(error))),
            (Stage::Executing, Ok(_)) => StepView::Ask(
                insert_migration_action(file.file_name@),
                ApplyMigrationsView { stage: Stage::Recording, ..state },
            ),
            (Stage::Recording, Err(error)) => StepView::Done(Err(query_failed(error))),
            (Stage::Recording, Ok(_)) => script_step(state.files, state.position + 1),
            (Stage::Committing, Err(error)) => StepView::Done(
                Err(StoreError::SqlxCommitTransaction(error)),
            ),
            (Stage::Committing, Ok(_)) => StepView::Done(Ok(())),
            (Stage::RollingBack, Err(error)) => StepView::Done(
                Err(StoreError::SqlxRollbackTransaction(error)),
            ),
            (Stage::RollingBack, Ok(_)) => StepView::Done(
                Err(StoreError::ReadSqlMigration(file.path)),
            ),
        }
    }

    open spec fn rank(state: ApplyMigrationsView) -> nat {
        let len = state.files.len();
        let left: nat = if state.position < len {
            (len - state.position) as nat
        } else {
            0
        };
        match state.stage {
            Stage::CreatingTable => 3 * len + 6,
            Stage::Beginning => 3 * len + 5,
            Stage::Checking => 3 * left + 4,
            Stage::Executing => 3 * left + 3,
            Stage::Recording => 3 * left + 2,
            Stage::Committing => 1,
            Stage::RollingBack => 1,
        }
    }

    proof fn rank_decreases(state: ApplyMigrationsView, response: ResponseView) {
        next_script_is_ahead(state.files, 0);
        next_script_is_ahead(state.files, state.position + 1);
    }

    fn resume(self, response: Response) -> (step: Step<Self, ()>) {
        proof {
            use_type_invariant(&self);
            assert(self.position <= self.files.len());
        }
        match self.stage {
            Stage::CreatingTable => match response {
                Ok(_) => Step::Ask(Action::Begin, self.at(Stage::Beginning)),
                Err(error) => Step::Done(Err(StoreError::SqlxMigrate(error))),
            },
            Stage::Beginning => match response {
                Ok(_) => Self::from_position(self.files, 0),
                Err(error) => Step::Done(Err(StoreError::SqlxBeginTransaction(error))),
            },
            Stage::Checking => match read_migration_existence(response) {
                Ok(true) => Self::from_position(self.files, self.position + 1),
                Ok(false) => match contents_utf8(&self.files[self.position].contents) {
                    Some(script) => Step::Ask(
                        Action::RunScriptInTransaction(script),
                        self.at(Stage::Executing),
                    ),
                    None => Step::Ask(Action::Rollback, self.at(Stage::RollingBack)),
                },
                Err(error) => Step::Done(Err(error)),
            },
            Stage::Executing => match response {
                Ok(_) => {
                    let action = insert_migration(&self.files[self.position].file_name);
                    Step::Ask(action, self.at(Stage::Recording))
                },
                Err(error) => Step::Done(Err(StoreError::SqlxMigrate(error))),
            },
            Stage::Recording => match reply_of(response) {
                Ok(_) => Self::from_position(self.files, self.position + 1),
                Err(error) => Step::Done(Err(error)),
            },
            Stage::Committing => match response {
                Ok(_) => Step::Done(Ok(())),
                Err(error) => Step::Done(Err(StoreError::SqlxCommitTransaction(error))),
            },
            Stage::RollingBack => match response {
                Ok(_) => Step::Done(
                    Err(StoreError::ReadSqlMigration(self.files[self.position].path.clone())),
                ),
                Err(error) => Step::Done(Err(StoreError::SqlxRollbackTransaction(error))),
            },
        }
    }
}

/// The next script does not lie behind.
proof fn next_script_is_ahead(files: Seq<MigrationFile>, position: int)
    ensures
        position <= next_script(files, position) || next_script(files, position) == files.len(),
        next_script(files, position) <= files.len(),
    decreases files.len() - position,
{
    if position < files.len() && !files[position].is_script() {
        next_script_is_ahead(files, position + 1);
    }
}

impl ApplyMigrations {
    #[verifier::type_invariant]
    spec fn is_at_a_file(self) -> bool {
        &&& self.position <= self.files@.len()
        &&& self.stage is CreatingTable || self.stage is Beginning || self.stage is Committing
            || self.position < self.files@.len()
    }

    /// The same script at another stage.
    fn at(self, stage: Stage) -> (state: Self)
        requires
            self@.position < self@.files.len() || stage is Beginning,
        ensures
            state@ == (ApplyMigrationsView { stage, ..self@ }),
    {
        proof {
            use_type_invariant(&self);
        }
        ApplyMigrations { stage, files: self.files, position: self.position }
    }

    /// Goes on to the first script from a position on.
    fn from_position(files: Vec<MigrationFile>, position: usize) -> (step: Step<Self, ()>)
        requires
            position <= files@.len(),
        ensures
            step_view(step) == script_step(files@, position as int),
    {
        let mut i: usize = position;
        while i < files.len() && !files[i].is_script()
            invariant
                i <= files@.len(),
                next_script(files@, i as int) == next_script(files@, position as int),
            decreases files@.len() - i,
        {
            i = i + 1;
        }
        if i < files.len() {
            let action = check_migration_existence(&files[i].file_name);
            Step::Ask(action, ApplyMigrations { stage: Stage::Checking, files, position: i })
        } else {
            Step::Ask(
                Action::Commit,
                ApplyMigrations { stage: Stage::Committing, files, position: i },
            )
        }
    }
}

/// The start of [`PgStore::apply_files`].
pub open spec fn apply_migrations_step(files: Seq<MigrationFile>) -> StepView<
    ApplyMigrationsView,
    (),
> {
    StepView::Ask(
        ActionView::RunScript(sql::CREATE_MIGRATIONS_TABLE),
        ApplyMigrationsView {
            stage: Stage::CreatingTable,
            files: sorted_by_name(files),
            position: 0,
        },
    )
}

/// The start of [`PgStore::apply_migrations`].
pub open spec fn applies_files_of(
    step: StepView<ApplyMigrationsView, ()>,
    dir: include_dir::Dir<'static>,
) -> bool {
    exists|files: Seq<MigrationFile>| #[trigger]
        file_data(files) == dir_data(dir) && step == apply_migrations_step(files)
}

impl<P> PgStore<P> {
    /// Applies the scripts in a directory that have not been applied yet, in the
    /// order of their names, in one transaction. Files whose names do not end in
    /// `.sql` are skipped.
    pub fn apply_migrations(&self, dir: &include_dir::Dir<'static>) -> (step: Step<
        ApplyMigrations,
        (),
    >)
        ensures
            applies_files_of(step_view(step), *dir),
    {
        self.apply_files(read_dir(dir))
    }

    /// Applies the scripts among the files that have not been applied yet, in
    /// the order of their names, in one transaction. Files whose names do not
    /// end in `.sql` are skipped.
    pub fn apply_files(&self, files: Vec<MigrationFile>) -> (step: Step<ApplyMigrations, ()>)
        ensures
            step_view(step) == apply_migrations_step(files@),
    {
        let files = sort_by_name(files);
        Step::Ask(
            Action::RunScript(sql::CREATE_MIGRATIONS_TABLE),
            ApplyMigrations { stage: Stage::CreatingTable, files, position: 0 },
        )
    }
}

/// The next script is a script, and there is none before it.
pub proof fn next_script_is_next(files: Seq<MigrationFile>, position: int)
    requires
        0 <= position <= files.len(),
    ensures
        position <= next_script(files, position) <= files.len(),
        forall|i: int|
            position <= i < next_script(files, position) ==> !(#[trigger] files[i]).is_script(),
        next_script(files, position) < files.len() ==> files[next_script(
            files,
            position,
        )].is_script(),
    decreases files.len() - position,
{
    if position < files.len() && !files[position].is_script() {
        next_script_is_next(files, position + 1);
    }
}

/// Whether the migration of the database is at a script, where it has to be.
pub open spec fn at_script(state: ApplyMigrationsView) -> bool {
    match state.stage {
        Stage::CreatingTable => state.position == 0,
        Stage::Beginning => state.position == 0,
        Stage::Committing => state.position == state.files.len(),
        _ => 0 <= state.position < state.files.len() && state.files[state.position].is_script(),
    }
}

/// The migration of the database goes on from script to script: it never is at
/// another file, never goes back, and has the same files all the time.
pub proof fn migration_stays_on_scripts(state: ApplyMigrationsView, response: ResponseView)
    requires
        at_script(state),
    ensures
        ApplyMigrations::next(state, response) matches StepView::Ask(_, after) ==> {
            &&& at_script(after)
            &&& after.files == state.files
            &&& after.position >= state.position
        },
{
    next_script_is_next(state.files, 0);
    if state.position < state.files.len() {
        next_script_is_next(state.files, state.position + 1);
    }
}

/// What becomes of the files from a position on: those that are not scripts are
/// skipped, and so are the scripts that are recorded; each other one is run and
/// recorded. The transaction is committed after the last one, and rolled back
/// at one that is not UTF-8.
pub open spec fn applied_from(
    files: Seq<MigrationFile>,
    position: int,
    database: Database,
) -> Result<(), StoreError>
    decreases files.len() - position,
{
    if position >= files.len() {
        match database(ActionView::Commit) {
            Ok(_) => Ok(()),
            Err(error) => Err(StoreError::SqlxCommitTransaction(error)),
        }
    } else if !files[position].is_script() {
        applied_from(files, position + 1, database)
    } else {
        let file = files[position];
        match migration_exists(database(check_migration_action(file.file_name@))) {
            Err(error) => Err(error),
            Ok(true) => applied_from(files, position + 1, database),
            Ok(false) => if valid_utf8(file.contents@) {
                match database(ActionView::RunScriptInTransaction(decode_utf8(file.contents@))) {
                    Err(error) => Err(StoreError::SqlxMigrate(error)),
                    Ok(_) => match database(insert_migration_action(file.file_name@)) {
                        Err(error) => Err(query_failed(error)),
                        Ok(_) => applied_from(files, position + 1, database),
                    },
                }
            } else {
                match database(ActionView::Rollback) {
                    Err(error) => Err(StoreError::SqlxRollbackTransaction(error)),
                    Ok(_) => Err(StoreError::ReadSqlMigration(file.path)),
                }
            },
        }
    }
}

/// The migration of the database creates the table, opens the transaction and
/// then applies the files in the order of their names.
pub proof fn migrations_are_applied_in_order(files: Seq<MigrationFile>, database: Database)
    ensures
        run::<ApplyMigrations>(apply_migrations_step(files), database) == (match database(
            ActionView::RunScript(sql::CREATE_MIGRATIONS_TABLE),
        ) {
            Err(error) => Err(StoreError::SqlxMigrate(error)),
            Ok(_) => match database(ActionView::Begin) {
                Err(error) => Err(StoreError::SqlxBeginTransaction(error)),
                Ok(_) => applied_from(sorted_by_name(files), 0, database),
            },
        }),
{
    reveal_with_fuel(run, 3);
    scripts_are_applied(sorted_by_name(files), 0, database);
}

/// The scripts from a position on are applied.
proof fn scripts_are_applied(files: Seq<MigrationFile>, position: int, database: Database)
    requires
        0 <= position <= files.len(),
    ensures
        run::<ApplyMigrations>(script_step(files, position), database) == applied_from(
            files,
            position,
            database,
        ),
    decreases files.len() - position,
{
    reveal_with_fuel(run, 4);
    if position < files.len() {
        scripts_are_applied(files, position + 1, database);
    }
}

} // verus!
