//! What holds of the migrations of the database as a whole.

use crate::by_name::nth;
use crate::error::{DbError, StoreError};
use crate::migrations::{
    applied_from, apply_migrations_step, at_script, check_migration_action, dir_data, dir_files,
    file_data, insert_migration_action, last_slash, migration_exists, migration_stays_on_scripts,
    migrations_are_applied_in_order, name_of, script_step, sorted_by_name, sorting_sorts,
    ApplyMigrations, ApplyMigrationsView, MigrationFile, Stage,
};
use crate::order_laws::{bytes_are_compared_as_in_a_dictionary, comes_first};
use crate::procedure::{
    after, asked, asked_with, run, step_view, Database, Procedure, Step, StepView,
};
use crate::row::FromRow;
use crate::sql;
use crate::store::PgStore;
use crate::value::{ActionView, Datum, Fetch, Kind, ResponseView, StatementView};
use vstd::prelude::*;
use vstd::utf8::{decode_utf8, encode_utf8, valid_utf8};

verus! {

/// Whether the transaction in which an action is performed is committed by
/// another one: it comes later, succeeds, and the transaction is not rolled back
/// in between.
pub open spec fn commits(
    actions: Seq<ActionView>,
    outcomes: Seq<ResponseView>,
    i: int,
    j: int,
) -> bool {
    &&& i < j < actions.len()
    &&& j < outcomes.len()
    &&& actions[j] is Commit
    &&& outcomes[j] is Ok
    &&& forall|k: int| i < k < j ==> !(#[trigger] actions[k] is Rollback)
}

/// Whether an action has a lasting effect: it succeeds, and is not performed in
/// a transaction or the transaction is committed.
pub open spec fn lasts(actions: Seq<ActionView>, outcomes: Seq<ResponseView>, i: int) -> bool {
    &&& 0 <= i < actions.len()
    &&& i < outcomes.len()
    &&& outcomes[i] is Ok
    &&& match actions[i] {
        ActionView::Run(_) => true,
        ActionView::RunScript(_) => true,
        ActionView::RunInTransaction(_) => exists|j: int| commits(actions, outcomes, i, j),
        ActionView::RunScriptInTransaction(_) => exists|j: int| commits(actions, outcomes, i, j),
        _ => false,
    }
}

/// Whether an action runs a script among the files that has the given name.
pub open spec fn runs_script(
    files: Seq<MigrationFile>,
    name: Seq<char>,
    action: ActionView,
) -> bool {
    exists|i: int| is_run_by(files, i, name, action)
}

/// Whether an action runs one of the files, which is a script with the given
/// name.
pub open spec fn is_run_by(
    files: Seq<MigrationFile>,
    i: int,
    name: Seq<char>,
    action: ActionView,
) -> bool {
    &&& 0 <= i < files.len()
    &&& files[i].is_script()
    &&& files[i].file_name@ == name
    &&& valid_utf8(files[i].contents@)
    &&& action == ActionView::RunScriptInTransaction(decode_utf8(files[i].contents@))
}

/// The names that are recorded lastingly.
pub open spec fn recorded_by(actions: Seq<ActionView>, outcomes: Seq<ResponseView>) -> Set<
    Seq<char>,
> {
    Set::new(
        |name: Seq<char>|
            exists|i: int| #[trigger]
                lasts(actions, outcomes, i) && actions[i] == insert_migration_action(name),
    )
}

/// The names of the scripts that are applied lastingly.
pub open spec fn applied_by(
    files: Seq<MigrationFile>,
    actions: Seq<ActionView>,
    outcomes: Seq<ResponseView>,
) -> Set<Seq<char>> {
    Set::new(
        |name: Seq<char>|
            exists|i: int| #[trigger]
                lasts(actions, outcomes, i) && runs_script(files, name, actions[i]),
    )
}

/// Whether a step asks for the action that its state waits for.
spec fn waits_for_its_action(step: StepView<ApplyMigrationsView, ()>) -> bool {
    step matches StepView::Ask(action, state) ==> {
        let name = state.files[state.position].file_name@;
        &&& at_script(state)
        &&& match state.stage {
            Stage::CreatingTable => action == ActionView::RunScript(sql::CREATE_MIGRATIONS_TABLE),
            Stage::Beginning => action is Begin,
            Stage::Checking => action == check_migration_action(name),
            Stage::Executing => is_run_by(state.files, state.position, name, action),
            Stage::Recording => action == insert_migration_action(name),
            Stage::Committing => action is Commit,
            Stage::RollingBack => action is Rollback,
        }
    }
}

/// Whether a step is one of the migration of the given files.
spec fn is_of(step: StepView<ApplyMigrationsView, ()>, files: Seq<MigrationFile>) -> bool {
    step matches StepView::Ask(_, state) ==> state.files == files
}

/// A step that asks for what its state waits for leads to another one.
proof fn next_waits_for_its_action(
    action: ActionView,
    state: ApplyMigrationsView,
    outcome: ResponseView,
)
    requires
        waits_for_its_action(StepView::Ask(action, state)),
    ensures
        waits_for_its_action(ApplyMigrations::next(state, outcome)),
        is_of(ApplyMigrations::next(state, outcome), state.files),
{
    migration_stays_on_scripts(state, outcome);
}

/// An action that records a name does so for one name, and is neither a check
/// nor anything else that the migration asks for.
proof fn records_one_name(name: Seq<char>, other: Seq<char>)
    ensures
        insert_migration_action(name) == insert_migration_action(other) ==> name == other,
        insert_migration_action(name) != check_migration_action(other),
{
    let params = seq![Datum::Text(name)];
    let others = seq![Datum::Text(other)];
    assert(params[0] == Datum::Text(name));
    assert(others[0] == Datum::Text(other));
}

/// What is asked for from a step on: a name is recorded only right after the
/// script with that name was run with success, unless that was just before the
/// step.
proof fn records_follow_scripts(
    step: StepView<ApplyMigrationsView, ()>,
    files: Seq<MigrationFile>,
    outcomes: Seq<ResponseView>,
    i: int,
    name: Seq<char>,
)
    requires
        waits_for_its_action(step),
        is_of(step, files),
        0 <= i < asked_with::<ApplyMigrations>(step, outcomes).len(),
        asked_with::<ApplyMigrations>(step, outcomes)[i] == insert_migration_action(name),
    ensures
        i == 0 ==> (step matches StepView::Ask(_, state) && state.stage is Recording
            && files[state.position].file_name@ == name),
        i > 0 ==> i <= outcomes.len() && outcomes[i - 1] is Ok && runs_script(
            files,
            name,
            asked_with::<ApplyMigrations>(step, outcomes)[i - 1],
        ),
    decreases outcomes.len(),
{
    if let StepView::Ask(action, state) = step {
        let file = files[state.position];
        let actions = asked_with::<ApplyMigrations>(step, outcomes);
        assert(actions[0] == action);
        if i == 0 {
            records_one_name(name, file.file_name@);
        } else {
            let next = ApplyMigrations::next(state, outcomes[0]);
            let rest = outcomes.skip(1);
            let tail = asked_with::<ApplyMigrations>(next, rest);
            assert(actions =~= seq![action] + tail);
            assert(tail[i - 1] == actions[i]);
            next_waits_for_its_action(action, state, outcomes[0]);
            records_follow_scripts(next, files, rest, i - 1, name);
            if i == 1 {
                assert(is_run_by(files, state.position, name, action));
            } else {
                assert(tail[i - 2] == actions[i - 1]);
                assert(rest[i - 2] == outcomes[i - 1]);
            }
        }
    }
}

/// No action that is asked for is performed outside the transaction, but for the
/// creation of the table.
proof fn only_the_table_is_outside(
    step: StepView<ApplyMigrationsView, ()>,
    outcomes: Seq<ResponseView>,
    i: int,
)
    requires
        waits_for_its_action(step),
        0 <= i < asked_with::<ApplyMigrations>(step, outcomes).len(),
    ensures
        !(asked_with::<ApplyMigrations>(step, outcomes)[i] is Run),
    decreases outcomes.len(),
{
    if let StepView::Ask(action, state) = step {
        let actions = asked_with::<ApplyMigrations>(step, outcomes);
        assert(actions[0] == action);
        if i > 0 {
            let next = ApplyMigrations::next(state, outcomes[0]);
            let tail = asked_with::<ApplyMigrations>(next, outcomes.skip(1));
            assert(actions =~= seq![action] + tail);
            assert(tail[i - 1] == actions[i]);
            next_waits_for_its_action(action, state, outcomes[0]);
            only_the_table_is_outside(next, outcomes.skip(1), i - 1);
        }
    }
}

/// A commit that succeeds is the end, and the migration succeeds.
proof fn commit_is_the_end(
    step: StepView<ApplyMigrationsView, ()>,
    outcomes: Seq<ResponseView>,
    i: int,
)
    requires
        waits_for_its_action(step),
        0 <= i < asked_with::<ApplyMigrations>(step, outcomes).len(),
        i < outcomes.len(),
        asked_with::<ApplyMigrations>(step, outcomes)[i] is Commit,
        outcomes[i] is Ok,
    ensures
        after::<ApplyMigrations>(step, outcomes) == StepView::<ApplyMigrationsView, ()>::Done(
            Ok(()),
        ),
    decreases outcomes.len(),
{
    reveal_with_fuel(after, 2);
    if let StepView::Ask(action, state) = step {
        let actions = asked_with::<ApplyMigrations>(step, outcomes);
        let next = ApplyMigrations::next(state, outcomes[0]);
        let rest = outcomes.skip(1);
        let tail = asked_with::<ApplyMigrations>(next, rest);
        assert(actions =~= seq![action] + tail);
        assert(actions[0] == action);
        if i > 0 {
            assert(tail[i - 1] == actions[i]);
            assert(rest[i - 1] == outcomes[i]);
            next_waits_for_its_action(action, state, outcomes[0]);
            commit_is_the_end(next, rest, i - 1);
        }
    }
}

/// A migration of the database that has not succeeded, whether it has failed or
/// is still under way, has recorded nothing that lasts: every name that it
/// recorded, it recorded in a transaction that it has not committed. This holds
/// whatever the outcomes of its actions are.
pub proof fn failed_migration_records_nothing(
    files: Seq<MigrationFile>,
    outcomes: Seq<ResponseView>,
)
    requires
        after::<ApplyMigrations>(apply_migrations_step(files), outcomes) != StepView::<
            ApplyMigrationsView,
            (),
        >::Done(Ok(())),
    ensures
        ({
            let actions = asked_with::<ApplyMigrations>(apply_migrations_step(files), outcomes);
            &&& recorded_by(actions, outcomes) == Set::<Seq<char>>::empty()
            &&& forall|i: int|
                0 <= i < actions.len() ==> !(#[trigger] actions[i] is Run)
            &&& forall|i: int|
                0 <= i < actions.len() && i < outcomes.len() && #[trigger] actions[i] is Commit
                    ==> outcomes[i] is Err
        }),
{
    let step = apply_migrations_step(files);
    let actions = asked_with::<ApplyMigrations>(step, outcomes);
    assert forall|i: int| 0 <= i < actions.len() implies !(#[trigger] actions[i] is Run) by {
        only_the_table_is_outside(step, outcomes, i);
    }
    assert forall|i: int|
        0 <= i < actions.len() && i < outcomes.len() && #[trigger] actions[i] is Commit implies
        outcomes[i] is Err by {
        if outcomes[i] is Ok {
            commit_is_the_end(step, outcomes, i);
        }
    }
    assert forall|name: Seq<char>| !recorded_by(actions, outcomes).contains(name) by {
        if recorded_by(actions, outcomes).contains(name) {
            let i = choose|i: int| #[trigger]
                lasts(actions, outcomes, i) && actions[i] == insert_migration_action(name);
            let j = choose|j: int| commits(actions, outcomes, i, j);
            assert(actions[j] is Commit);
        }
    }
    assert(recorded_by(actions, outcomes) =~= Set::empty());
}

/// A recorded name means that the script with that name is applied: if that
/// holds before the migration of the database, it holds after it, whatever the
/// outcomes of its actions are and however it ends.
pub proof fn recorded_means_applied(
    files: Seq<MigrationFile>,
    outcomes: Seq<ResponseView>,
    recorded: Set<Seq<char>>,
    applied: Set<Seq<char>>,
)
    requires
        recorded.subset_of(applied),
    ensures
        ({
            let actions = asked_with::<ApplyMigrations>(apply_migrations_step(files), outcomes);
            recorded.union(recorded_by(actions, outcomes)).subset_of(
                applied.union(applied_by(files, actions, outcomes)),
            )
        }),
{
    let step = apply_migrations_step(files);
    let sorted = sorted_by_name(files);
    let actions = asked_with::<ApplyMigrations>(step, outcomes);
    assert forall|name: Seq<char>| #[trigger]
        recorded_by(actions, outcomes).contains(name) implies applied_by(
        files,
        actions,
        outcomes,
    ).contains(name) by {
        let i = choose|i: int| #[trigger]
            lasts(actions, outcomes, i) && actions[i] == insert_migration_action(name);
        let j = choose|j: int| commits(actions, outcomes, i, j);
        records_follow_scripts(step, sorted, outcomes, i, name);
        let before = actions[i - 1];
        let k = choose|k: int| is_run_by(sorted, k, name, before);
        let m = position_before_sorting(files, k);
        assert(is_run_by(files, m, name, before));
        assert(commits(actions, outcomes, i - 1, j));
        assert(lasts(actions, outcomes, i - 1) && runs_script(files, name, actions[i - 1]));
    }
}

/// A file among the sorted ones is one of the given files.
proof fn position_before_sorting(files: Seq<MigrationFile>, i: int) -> (position: int)
    requires
        0 <= i < sorted_by_name(files).len(),
    ensures
        0 <= position < files.len(),
        files[position] == sorted_by_name(files)[i],
{
    let sorted = sorted_by_name(files);
    sorting_sorts(files);
    sorted.to_multiset_ensures();
    files.to_multiset_ensures();
    assert(sorted.contains(sorted[i]));
    assert(sorted.to_multiset().count(sorted[i]) > 0);
    assert(files.contains(sorted[i]));
    files.index_of(sorted[i])
}

/// One of the given files is among the sorted ones.
proof fn position_after_sorting(files: Seq<MigrationFile>, i: int) -> (position: int)
    requires
        0 <= i < files.len(),
    ensures
        0 <= position < sorted_by_name(files).len(),
        sorted_by_name(files)[position] == files[i],
{
    let sorted = sorted_by_name(files);
    sorting_sorts(files);
    sorted.to_multiset_ensures();
    files.to_multiset_ensures();
    assert(files.contains(files[i]));
    assert(files.to_multiset().count(files[i]) > 0);
    assert(sorted.contains(files[i]));
    sorted.index_of(files[i])
}

/// Whether the database has a record with the given name.
pub open spec fn has(database: Database, name: Seq<char>) -> bool {
    migration_exists(database(check_migration_action(name))) == Ok::<bool, StoreError>(true)
}

/// Whether the database has a record of every script.
pub open spec fn has_all(database: Database, files: Seq<MigrationFile>) -> bool {
    forall|i: int|
        0 <= i < files.len() && (#[trigger] files[i]).is_script() ==> has(
            database,
            files[i].file_name@,
        )
}

/// Whether the database creates the table and opens and commits transactions.
pub open spec fn is_up(database: Database) -> bool {
    &&& database(ActionView::RunScript(sql::CREATE_MIGRATIONS_TABLE)) is Ok
    &&& database(ActionView::Begin) is Ok
    &&& database(ActionView::Commit) is Ok
}

/// Whether an action runs a script or records one.
pub open spec fn changes(action: ActionView) -> bool {
    ||| action is RunScriptInTransaction
    ||| exists|name: Seq<char>| action == insert_migration_action(name)
}

/// A database that has a record of every script is left as it is: whatever it
/// would answer to a script, none is run and none is recorded.
pub proof fn nothing_is_applied_twice(files: Seq<MigrationFile>, database: Database)
    requires
        has_all(database, files),
        is_up(database),
    ensures
        run::<ApplyMigrations>(apply_migrations_step(files), database) == Ok::<(), StoreError>(()),
        forall|i: int|
            0 <= i < asked::<ApplyMigrations>(apply_migrations_step(files), database).len()
                ==> !changes(
                #[trigger] asked::<ApplyMigrations>(apply_migrations_step(files), database)[i],
            ),
{
    let step = apply_migrations_step(files);
    let sorted = sorted_by_name(files);
    migrations_are_applied_in_order(files, database);
    assert forall|i: int| 0 <= i < sorted.len() && (#[trigger] sorted[i]).is_script() implies has(
        database,
        sorted[i].file_name@,
    ) by {
        let k = position_before_sorting(files, i);
        assert(files[k].is_script());
    }
    recorded_scripts_are_skipped(sorted, 0, database);
    reveal_with_fuel(asked, 3);
    let rest = asked::<ApplyMigrations>(script_step(sorted, 0), database);
    let actions = asked::<ApplyMigrations>(step, database);
    assert(actions =~= seq![
        ActionView::RunScript(sql::CREATE_MIGRATIONS_TABLE),
        ActionView::Begin,
    ] + rest);
    assert forall|i: int| 0 <= i < actions.len() implies !changes(#[trigger] actions[i]) by {
        if i >= 2 {
            assert(actions[i] == rest[i - 2]);
        }
    }
}

/// Scripts that are recorded are skipped.
proof fn recorded_scripts_are_skipped(files: Seq<MigrationFile>, position: int, database: Database)
    requires
        0 <= position <= files.len(),
        has_all(database, files),
        database(ActionView::Commit) is Ok,
    ensures
        applied_from(files, position, database) == Ok::<(), StoreError>(()),
        forall|i: int|
            0 <= i < asked::<ApplyMigrations>(script_step(files, position), database).len()
                ==> !changes(
                #[trigger] asked::<ApplyMigrations>(script_step(files, position), database)[i],
            ),
    decreases files.len() - position,
{
    reveal_with_fuel(asked, 2);
    let actions = asked::<ApplyMigrations>(script_step(files, position), database);
    if position < files.len() {
        recorded_scripts_are_skipped(files, position + 1, database);
        if files[position].is_script() {
            let name = files[position].file_name@;
            let rest = asked::<ApplyMigrations>(script_step(files, position + 1), database);
            assert(has(database, name));
            assert(actions =~= seq![check_migration_action(name)] + rest);
            assert forall|i: int| 0 <= i < actions.len() implies !changes(
                #[trigger] actions[i],
            ) by {
                if i > 0 {
                    assert(actions[i] == rest[i - 1]);
                } else {
                    assert forall|other: Seq<char>| actions[0] != insert_migration_action(
                        other,
                    ) by {
                        records_one_name(other, name);
                    }
                }
            }
        }
    } else {
        assert(actions =~= seq![ActionView::Commit]);
    }
}

/// Where the scripts from a position on are applied with success, each of them
/// was recorded before or is recorded now.
proof fn applied_scripts_are_recorded(
    files: Seq<MigrationFile>,
    position: int,
    database: Database,
    i: int,
)
    requires
        0 <= position <= i < files.len(),
        files[i].is_script(),
        applied_from(files, position, database) is Ok,
    ensures
        has(database, files[i].file_name@) || asked::<ApplyMigrations>(
            script_step(files, position),
            database,
        ).contains(insert_migration_action(files[i].file_name@)),
    decreases files.len() - position,
{
    reveal_with_fuel(asked, 4);
    let actions = asked::<ApplyMigrations>(script_step(files, position), database);
    let record = insert_migration_action(files[i].file_name@);
    if !files[position].is_script() {
        applied_scripts_are_recorded(files, position + 1, database, i);
    } else {
        let file = files[position];
        let name = file.file_name@;
        let rest = asked::<ApplyMigrations>(script_step(files, position + 1), database);
        let skipped = has(database, name);
        let ahead: Seq<ActionView> = if skipped {
            seq![check_migration_action(name)]
        } else {
            seq![
                check_migration_action(name),
                ActionView::RunScriptInTransaction(decode_utf8(file.contents@)),
                insert_migration_action(name),
            ]
        };
        assert(actions =~= ahead + rest);
        if i > position {
            applied_scripts_are_recorded(files, position + 1, database, i);
            if rest.contains(record) {
                let k = rest.index_of(record);
                assert(actions[ahead.len() + k] == record);
            }
        } else if !skipped {
            assert(actions[2] == record);
        }
    }
}

/// A migration of the database that follows one that succeeded does nothing: it
/// succeeds, runs no script and records none, against a database that has the
/// records that the first one found or made.
pub proof fn second_migration_applies_nothing(
    files: Seq<MigrationFile>,
    first: Database,
    second: Database,
)
    requires
        run::<ApplyMigrations>(apply_migrations_step(files), first) is Ok,
        forall|name: Seq<char>|
            has(first, name) || asked::<ApplyMigrations>(
                apply_migrations_step(files),
                first,
            ).contains(insert_migration_action(name)) ==> #[trigger] has(second, name),
        is_up(second),
    ensures
        run::<ApplyMigrations>(apply_migrations_step(files), second) == Ok::<(), StoreError>(()),
        forall|i: int|
            0 <= i < asked::<ApplyMigrations>(apply_migrations_step(files), second).len()
                ==> !changes(
                #[trigger] asked::<ApplyMigrations>(apply_migrations_step(files), second)[i],
            ),
{
    let sorted = sorted_by_name(files);
    migrations_are_applied_in_order(files, first);
    reveal_with_fuel(asked, 3);
    let rest = asked::<ApplyMigrations>(script_step(sorted, 0), first);
    let actions = asked::<ApplyMigrations>(apply_migrations_step(files), first);
    assert(actions =~= seq![
        ActionView::RunScript(sql::CREATE_MIGRATIONS_TABLE),
        ActionView::Begin,
    ] + rest);
    assert forall|i: int| 0 <= i < files.len() && (#[trigger] files[i]).is_script() implies has(
        second,
        files[i].file_name@,
    ) by {
        let k = position_after_sorting(files, i);
        let record = insert_migration_action(files[i].file_name@);
        applied_scripts_are_recorded(sorted, 0, first, k);
        if rest.contains(record) {
            let m = rest.index_of(record);
            assert(actions[m + 2] == record);
        }
    }
    nothing_is_applied_twice(files, second);
}

/// Whether a name is that of a script, but for its ending `.sql`.
pub open spec fn is_stem(stem: Seq<char>, name: Seq<char>) -> bool {
    name == stem + seq!['.', 's', 'q', 'l']
}

/// Whether a name ends in `.sql`.
pub open spec fn is_sql(name: Seq<char>) -> bool {
    exists|stem: Seq<char>| is_stem(stem, name)
}

/// A file is a script exactly where its name ends in `.sql`.
pub proof fn scripts_end_in_sql(file: MigrationFile, yes: bool)
    ensures
        file.is_script() <==> is_sql(file.file_name@),
        call_ensures(MigrationFile::is_script, (&file,), yes) ==> yes == is_sql(file.file_name@),
{
    let name = file.file_name@;
    let suffix = seq!['.', 's', 'q', 'l'];
    if file.is_script() {
        assert(name =~= name.take(name.len() - 4) + suffix);
        assert(is_stem(name.take(name.len() - 4), name));
    }
    if is_sql(name) {
        let stem = choose|stem: Seq<char>| is_stem(stem, name);
        assert(name.skip(name.len() - 4) =~= suffix);
    }
}

/// Whether a name is that of the file with a path: what is left of the path
/// without its directory, which ends in a slash.
pub open spec fn is_name_of(path: Seq<char>, name: Seq<char>) -> bool {
    &&& forall|i: int| 0 <= i < name.len() ==> name[i] != '/'
    &&& exists|dir: Seq<char>|
        path == #[trigger] (dir + name) && (dir.len() == 0 || dir.last() == '/')
}

/// The name of a file is what follows its directory.
proof fn name_follows_directory(path: Seq<char>)
    ensures
        is_name_of(path, name_of(path)),
        -1 <= last_slash(path) < path.len(),
    decreases path.len(),
{
    let name = name_of(path);
    if path.len() == 0 {
        assert(path =~= Seq::<char>::empty() + name);
    } else if path.last() == '/' {
        assert(path =~= path + name);
    } else {
        let rest = path.drop_last();
        name_follows_directory(rest);
        assert(name =~= name_of(rest).push(path.last()));
        let dir = path.take(last_slash(path) + 1);
        assert(path =~= dir + name);
        assert forall|i: int| 0 <= i < name.len() implies name[i] != '/' by {
            if i < name_of(rest).len() {
                assert(name[i] == name_of(rest)[i]);
            }
        }
        if dir.len() > 0 {
            last_slash_is_slash(path);
            assert(dir.last() == path[last_slash(path)]);
        }
    }
}

/// There is a slash at the position of the last one.
proof fn last_slash_is_slash(path: Seq<char>)
    ensures
        last_slash(path) >= 0 ==> last_slash(path) < path.len() && path[last_slash(path)] == '/',
    decreases path.len(),
{
    if path.len() > 0 && path.last() != '/' {
        last_slash_is_slash(path.drop_last());
    }
}

/// A file is made with its path, its contents and its name.
pub proof fn file_has_its_name(path: String, contents: Vec<u8>, file: MigrationFile)
    requires
        call_ensures(MigrationFile::new, (path, contents), file),
    ensures
        is_name_of(path@, file.file_name@),
        file.path@ == path@,
        file.contents@ == contents@,
{
    name_follows_directory(path@);
}

/// The migrations of a directory are those of the files that stand in it.
pub proof fn directory_is_migrated<P>(
    store: PgStore<P>,
    dir: include_dir::Dir<'static>,
    step: Step<ApplyMigrations, ()>,
)
    requires
        call_ensures(PgStore::<P>::apply_migrations, (&store, &dir), step),
    ensures
        exists|files: Seq<MigrationFile>|
            step_view(step) == #[trigger] apply_migrations_step(files) && are_files_of(files, dir),
{
    let files = choose|files: Seq<MigrationFile>| #[trigger]
        file_data(files) == dir_data(dir) && step_view(step) == apply_migrations_step(files);
    assert(file_data(files).len() == files.len());
    assert(dir_data(dir).len() == dir_files(dir).len());
    assert forall|i: int| 0 <= i < files.len() implies (#[trigger] files[i]).path@ == dir_files(
        dir,
    )[i].0 && files[i].contents@ == dir_files(dir)[i].1 && is_name_of(
        files[i].path@,
        files[i].file_name@,
    ) by {
        assert(file_data(files)[i] == dir_data(dir)[i]);
        name_follows_directory(dir_files(dir)[i].0);
    }
}

/// Whether files are those that stand in a directory.
pub open spec fn are_files_of(
    files: Seq<MigrationFile>,
    dir: include_dir::Dir<'static>,
) -> bool {
    &&& files.len() == dir_files(dir).len()
    &&& forall|i: int|
        0 <= i < files.len() ==> (#[trigger] files[i]).path@ == dir_files(dir)[i].0
            && files[i].contents@ == dir_files(dir)[i].1 && is_name_of(
            files[i].path@,
            files[i].file_name@,
        )
}

/// The action that counts the records with a name.
pub open spec fn counting(name: Seq<char>) -> ActionView {
    ActionView::RunInTransaction(
        StatementView {
            sql: sql::CHECK_MIGRATION_EXISTENCE,
            fetch: Fetch::One,
            columns: seq![nth(0, Kind::Int8)],
            params: seq![Datum::Text(name)],
        },
    )
}

/// The action that records a name.
pub open spec fn recording(name: Seq<char>) -> ActionView {
    ActionView::RunInTransaction(
        StatementView {
            sql: sql::INSERT_MIGRATION,
            fetch: Fetch::Nothing,
            columns: Seq::empty(),
            params: seq![Datum::Text(name)],
        },
    )
}

/// Whether no file stands before one whose name comes first.
pub open spec fn are_by_name(files: Seq<MigrationFile>) -> bool {
    forall|i: int, j: int|
        0 <= i < j < files.len() ==> !comes_first(
            encode_utf8((#[trigger] files[j]).file_name@),
            encode_utf8((#[trigger] files[i]).file_name@),
        )
}

/// Whether a database performs every action, and has as many records with a name
/// as is given.
pub open spec fn performs(database: Database, records: spec_fn(Seq<char>) -> int) -> bool {
    &&& is_up(database)
    &&& forall|script: Seq<char>| #[trigger]
        database(ActionView::RunScriptInTransaction(script)) is Ok
    &&& forall|name: Seq<char>| database(#[trigger] recording(name)) is Ok
    &&& forall|name: Seq<char>|
        0 <= #[trigger] records(name) <= i64::MAX && (database(counting(name)) matches Ok(reply)
            && reply.rows == seq![seq![Datum::Int8(records(name))]])
}

/// What is done about files, in order: each one that is a script is looked up, and
/// is run and recorded if there is no record of it.
pub open spec fn done_about(
    files: Seq<MigrationFile>,
    records: spec_fn(Seq<char>) -> int,
) -> Seq<ActionView>
    decreases files.len(),
{
    if files.len() == 0 {
        Seq::empty()
    } else {
        let name = files[0].file_name@;
        let rest = done_about(files.skip(1), records);
        if !is_sql(name) {
            rest
        } else if records(name) >= 1 {
            seq![counting(name)] + rest
        } else {
            seq![
                counting(name),
                ActionView::RunScriptInTransaction(decode_utf8(files[0].contents@)),
                recording(name),
            ] + rest
        }
    }
}

/// What is asked for from a position on is what is done about the files from
/// there on, and then a commit.
proof fn scripts_are_done(
    files: Seq<MigrationFile>,
    position: int,
    records: spec_fn(Seq<char>) -> int,
    database: Database,
)
    requires
        0 <= position <= files.len(),
        performs(database, records),
        forall|i: int| 0 <= i < files.len() ==> valid_utf8((#[trigger] files[i]).contents@),
    ensures
        run::<ApplyMigrations>(script_step(files, position), database) == Ok::<(), StoreError>(()),
        asked::<ApplyMigrations>(script_step(files, position), database) == done_about(
            files.skip(position),
            records,
        ) + seq![ActionView::Commit],
    decreases files.len() - position,
{
    reveal_with_fuel(asked, 4);
    reveal_with_fuel(run, 4);
    let actions = asked::<ApplyMigrations>(script_step(files, position), database);
    let rest = files.skip(position);
    if position < files.len() {
        scripts_are_done(files, position + 1, records, database);
        let file = files[position];
        let name = file.file_name@;
        scripts_end_in_sql(file, true);
        assert(rest[0] == file);
        assert(rest.skip(1) =~= files.skip(position + 1));
        let later = done_about(rest.skip(1), records);
        if file.is_script() {
            assert(check_migration_action(name) == counting(name)) by {
                assert(i64::spec_columns() =~= seq![nth(0, Kind::Int8)]);
            }
            assert(insert_migration_action(name) == recording(name));
            assert(0 <= records(name) <= i64::MAX);
            let reply = database(counting(name))->Ok_0;
            assert(reply.rows[0] =~= seq![Datum::Int8(records(name))]);
            assert(reply.rows.len() == 1);
            assert(migration_exists(database(counting(name))) == Ok::<bool, StoreError>(
                records(name) >= 1,
            ));
            if records(name) >= 1 {
                assert(actions =~= seq![counting(name)] + (later + seq![ActionView::Commit]));
                assert(actions =~= done_about(rest, records) + seq![ActionView::Commit]);
            } else {
                let script = ActionView::RunScriptInTransaction(decode_utf8(file.contents@));
                assert(database(script) is Ok);
                assert(database(recording(name)) is Ok);
                let ahead = seq![counting(name), script, recording(name)];
                assert(actions =~= ahead + (later + seq![ActionView::Commit]));
                assert(actions =~= done_about(rest, records) + seq![ActionView::Commit]);
            }
        }
    } else {
        assert(rest =~= Seq::empty());
        assert(actions =~= seq![ActionView::Commit]);
        assert(actions =~= done_about(rest, records) + seq![ActionView::Commit]);
    }
}

/// The migration of a database that performs every action creates the table,
/// opens the transaction, takes the scripts in the order of their names, runs and
/// records each of which there is no record, and no other, and commits the
/// transaction.
pub proof fn unrecorded_scripts_are_run_in_order<P>(
    store: PgStore<P>,
    files: Vec<MigrationFile>,
    step: Step<ApplyMigrations, ()>,
    records: spec_fn(Seq<char>) -> int,
    database: Database,
)
    requires
        call_ensures(PgStore::<P>::apply_files, (&store, files), step),
        performs(database, records),
        forall|i: int| 0 <= i < files@.len() ==> valid_utf8((#[trigger] files@[i]).contents@),
    ensures
        run::<ApplyMigrations>(step_view(step), database) == Ok::<(), StoreError>(()),
        exists|sorted: Seq<MigrationFile>|
            {
                &&& #[trigger] are_by_name(sorted)
                &&& sorted.to_multiset() == files@.to_multiset()
                &&& asked::<ApplyMigrations>(step_view(step), database) == seq![
                    ActionView::RunScript(sql::CREATE_MIGRATIONS_TABLE),
                    ActionView::Begin,
                ] + done_about(sorted, records) + seq![ActionView::Commit]
            },
{
    let sorted = sorted_by_name(files@);
    sorting_sorts(files@);
    assert forall|i: int, j: int| 0 <= i < j < sorted.len() implies !comes_first(
        encode_utf8((#[trigger] sorted[j]).file_name@),
        encode_utf8((#[trigger] sorted[i]).file_name@),
    ) by {
        bytes_are_compared_as_in_a_dictionary(sorted[j].key(), sorted[i].key());
    }
    assert(are_by_name(sorted));
    assert forall|i: int| 0 <= i < sorted.len() implies valid_utf8(
        (#[trigger] sorted[i]).contents@,
    ) by {
        let k = position_before_sorting(files@, i);
        assert(valid_utf8(files@[k].contents@));
    }
    scripts_are_done(sorted, 0, records, database);
    reveal_with_fuel(asked, 3);
    reveal_with_fuel(run, 3);
    assert(sorted.skip(0) =~= sorted);
    assert(asked::<ApplyMigrations>(step_view(step), database) =~= seq![
        ActionView::RunScript(sql::CREATE_MIGRATIONS_TABLE),
        ActionView::Begin,
    ] + done_about(sorted, records) + seq![ActionView::Commit]);
}

/// A script that is not UTF-8 and of which there is no record ends the migration
/// from a position before it on.
proof fn unreadable_script_ends(
    files: Seq<MigrationFile>,
    position: int,
    k: int,
    records: spec_fn(Seq<char>) -> int,
    database: Database,
) -> (j: int)
    requires
        0 <= position <= k < files.len(),
        performs(database, records),
        database(ActionView::Rollback) is Ok,
        is_unreadable(files[k], records),
    ensures
        position <= j < files.len(),
        is_unreadable(files[j], records),
        run::<ApplyMigrations>(script_step(files, position), database) == Err::<(), StoreError>(
            StoreError::ReadSqlMigration(files[j].path),
        ),
        asked::<ApplyMigrations>(script_step(files, position), database).len() > 0,
        asked::<ApplyMigrations>(script_step(files, position), database).last() is Rollback,
    decreases files.len() - position,
{
    reveal_with_fuel(asked, 4);
    reveal_with_fuel(run, 4);
    let actions = asked::<ApplyMigrations>(script_step(files, position), database);
    let file = files[position];
    let name = file.file_name@;
    scripts_end_in_sql(file, true);
    if file.is_script() {
        assert(check_migration_action(name) == counting(name)) by {
            assert(i64::spec_columns() =~= seq![nth(0, Kind::Int8)]);
        }
        assert(insert_migration_action(name) == recording(name));
        assert(0 <= records(name) <= i64::MAX);
        let reply = database(counting(name))->Ok_0;
        assert(reply.rows[0] =~= seq![Datum::Int8(records(name))]);
        assert(reply.rows.len() == 1);
        assert(migration_exists(database(counting(name))) == Ok::<bool, StoreError>(
            records(name) >= 1,
        ));
    }
    if is_unreadable(file, records) {
        assert(actions =~= seq![counting(name), ActionView::Rollback]);
        position
    } else {
        let j = unreadable_script_ends(files, position + 1, k, records, database);
        let rest = asked::<ApplyMigrations>(script_step(files, position + 1), database);
        if file.is_script() {
            if records(name) >= 1 {
                assert(actions =~= seq![counting(name)] + rest);
            } else {
                let script = ActionView::RunScriptInTransaction(decode_utf8(file.contents@));
                assert(database(script) is Ok);
                assert(database(recording(name)) is Ok);
                assert(actions =~= seq![counting(name), script, recording(name)] + rest);
            }
        }
        j
    }
}

/// Whether a file is a script that is not UTF-8 and of which there is no record.
pub open spec fn is_unreadable(
    file: MigrationFile,
    records: spec_fn(Seq<char>) -> int,
) -> bool {
    &&& is_sql(file.file_name@)
    &&& records(file.file_name@) < 1
    &&& !valid_utf8(file.contents@)
}

/// Where there is a script that is not UTF-8 and of which there is no record, the
/// migration of the database is rolled back and tells the path of such a script.
pub proof fn unreadable_script_is_told<P>(
    store: PgStore<P>,
    files: Vec<MigrationFile>,
    step: Step<ApplyMigrations, ()>,
    k: int,
    records: spec_fn(Seq<char>) -> int,
    database: Database,
)
    requires
        call_ensures(PgStore::<P>::apply_files, (&store, files), step),
        performs(database, records),
        database(ActionView::Rollback) is Ok,
        0 <= k < files@.len(),
        is_unreadable(files@[k], records),
    ensures
        asked::<ApplyMigrations>(step_view(step), database).last() is Rollback,
        exists|j: int|
            0 <= j < files@.len() && is_unreadable(#[trigger] files@[j], records) && run::<
                ApplyMigrations,
            >(step_view(step), database) == Err::<(), StoreError>(
                StoreError::ReadSqlMigration(files@[j].path),
            ),
{
    let sorted = sorted_by_name(files@);
    let m = position_after_sorting(files@, k);
    let j = unreadable_script_ends(sorted, 0, m, records, database);
    let rest = asked::<ApplyMigrations>(script_step(sorted, 0), database);
    reveal_with_fuel(asked, 3);
    reveal_with_fuel(run, 3);
    assert(asked::<ApplyMigrations>(step_view(step), database) =~= seq![
        ActionView::RunScript(sql::CREATE_MIGRATIONS_TABLE),
        ActionView::Begin,
    ] + rest);
    let l = position_before_sorting(files@, j);
    assert(is_unreadable(files@[l], records));
}

/// What the failure of an action is reported as.
pub open spec fn failure_of(action: ActionView, error: sqlx::Error) -> StoreError {
    match action {
        ActionView::RunScript(_) => StoreError::SqlxMigrate(error),
        ActionView::RunScriptInTransaction(_) => StoreError::SqlxMigrate(error),
        ActionView::Begin => StoreError::SqlxBeginTransaction(error),
        ActionView::Commit => StoreError::SqlxCommitTransaction(error),
        ActionView::Rollback => StoreError::SqlxRollbackTransaction(error),
        ActionView::Run(_) => StoreError::SqlxQuery(DbError::Sqlx(error)),
        ActionView::RunInTransaction(_) => StoreError::SqlxQuery(DbError::Sqlx(error)),
    }
}

/// From a step on, an action that fails is the end, and a rollback that succeeds
/// tells of a script that is not UTF-8.
proof fn failure_is_the_end(
    step: StepView<ApplyMigrationsView, ()>,
    files: Seq<MigrationFile>,
    outcomes: Seq<ResponseView>,
    i: int,
)
    requires
        waits_for_its_action(step),
        is_of(step, files),
        step matches StepView::Ask(_, state) ==> (state.stage is RollingBack ==> !valid_utf8(
            state.files[state.position].contents@,
        )),
        0 <= i < asked_with::<ApplyMigrations>(step, outcomes).len(),
        i < outcomes.len(),
    ensures
        outcomes[i] matches Err(error) ==> after::<ApplyMigrations>(step, outcomes) == StepView::<
            ApplyMigrationsView,
            (),
        >::Done(Err(failure_of(asked_with::<ApplyMigrations>(step, outcomes)[i], error))),
        asked_with::<ApplyMigrations>(step, outcomes)[i] is Rollback && outcomes[i] is Ok
            ==> exists|j: int|
            0 <= j < files.len() && is_sql((#[trigger] files[j]).file_name@) && !valid_utf8(
                files[j].contents@,
            ) && after::<ApplyMigrations>(step, outcomes) == StepView::<
                ApplyMigrationsView,
                (),
            >::Done(Err(StoreError::ReadSqlMigration(files[j].path))),
    decreases outcomes.len(),
{
    reveal_with_fuel(after, 2);
    if let StepView::Ask(action, state) = step {
        let actions = asked_with::<ApplyMigrations>(step, outcomes);
        let next = ApplyMigrations::next(state, outcomes[0]);
        let rest = outcomes.skip(1);
        let tail = asked_with::<ApplyMigrations>(next, rest);
        assert(actions =~= seq![action] + tail);
        assert(actions[0] == action);
        next_waits_for_its_action(action, state, outcomes[0]);
        if i > 0 {
            assert(tail[i - 1] == actions[i]);
            assert(rest[i - 1] == outcomes[i]);
            failure_is_the_end(next, files, rest, i - 1);
        } else if at_script(state) && state.position < files.len() {
            scripts_end_in_sql(files[state.position], true);
            assert(files[state.position] == state.files[state.position]);
        }
    }
}

/// The migration of the database ends with the first action that fails, and tells
/// which kind of action it was. A rollback, where it succeeds, ends it with the
/// path of a script that is not UTF-8.
pub proof fn migration_fails_with_its_action<P>(
    store: PgStore<P>,
    files: Vec<MigrationFile>,
    step: Step<ApplyMigrations, ()>,
    outcomes: Seq<ResponseView>,
    i: int,
)
    requires
        call_ensures(PgStore::<P>::apply_files, (&store, files), step),
        0 <= i < asked_with::<ApplyMigrations>(step_view(step), outcomes).len(),
        i < outcomes.len(),
    ensures
        outcomes[i] matches Err(error) ==> after::<ApplyMigrations>(step_view(step), outcomes)
            == StepView::<ApplyMigrationsView, ()>::Done(
            Err(failure_of(asked_with::<ApplyMigrations>(step_view(step), outcomes)[i], error)),
        ),
        asked_with::<ApplyMigrations>(step_view(step), outcomes)[i] is Rollback && outcomes[i] is Ok
            ==> exists|j: int|
            0 <= j < files@.len() && is_sql((#[trigger] files@[j]).file_name@) && !valid_utf8(
                files@[j].contents@,
            ) && after::<ApplyMigrations>(step_view(step), outcomes) == StepView::<
                ApplyMigrationsView,
                (),
            >::Done(Err(StoreError::ReadSqlMigration(files@[j].path))),
{
    let sorted = sorted_by_name(files@);
    failure_is_the_end(step_view(step), sorted, outcomes, i);
    if asked_with::<ApplyMigrations>(step_view(step), outcomes)[i] is Rollback && outcomes[i] is Ok {
        let j = choose|j: int|
            0 <= j < sorted.len() && is_sql((#[trigger] sorted[j]).file_name@) && !valid_utf8(
                sorted[j].contents@,
            ) && after::<ApplyMigrations>(step_view(step), outcomes) == StepView::<
                ApplyMigrationsView,
                (),
            >::Done(Err(StoreError::ReadSqlMigration(sorted[j].path)));
        let k = position_before_sorting(files@, j);
        assert(files@[k] == sorted[j]);
    }
}

} // verus!
