//! What the search for the output with the signers' funds gives.

use crate::by_name::{
    column, found, found_data_is_given, height, in_bigint, optional_row_is_read_by_name,
    output_type_text, picked, serves, ByName, Record, Tables,
};
use crate::compose::run_converting;
use crate::error::{DbError, StoreError};
use crate::fetch::{ask_optional, row_view, FetchOptional};
use crate::laws::{
    donation_utxo, minimum_utxo_height, signer_utxo, confirmed_sweep_params, run_optional,
};
use crate::model::{BitcoinBlockHash, BitcoinBlockHeight, SignerUtxo, TxOutputType};
use crate::procedure::{run, step_view, Database, Operation, Step};
use crate::records::{PgCandidateUtxo, PgSignerUtxo};
use crate::row::{as_bytes, FromRow};
use crate::sql;
use crate::store::PgStore;
use crate::sweeps::{
    signer_utxo_of, utxo_step, GetDonationUtxo, GetSignerUtxo, GetUtxo, MinimumUtxoHeight,
    SignerUtxoOf, SignerUtxoView,
};
use crate::value::{ActionView, Datum, Fetch, Kind, PgEnum, StatementView};
use vstd::prelude::*;

verus! {

/// Whether a row tells of an unspent output of the signers: the transaction, the
/// index, the amount, and a key of which the output has all but the first byte.
pub open spec fn tells_utxo(record: Record, utxo: SignerUtxo) -> bool {
    &&& record(column("txid", Kind::Bytes)) == Datum::Bytes(utxo.outpoint.txid.0@)
    &&& record(column("output_index", Kind::Int4)) == Datum::Int4(utxo.outpoint.vout as int)
    &&& record(column("amount", Kind::Int8)) == Datum::Int8(utxo.amount as int)
    &&& record(column("aggregate_key", Kind::Bytes)) matches Datum::Bytes(key) && key.len() == 33
        && forall|i: int| 0 <= i < 32 ==> utxo.public_key.0@[i] == key[i + 1]
}

/// Whether the given unspent output is the one of which the first row that the
/// database gives tells, or is missing where there is no row.
pub open spec fn reads_utxo(
    given: Result<Option<SignerUtxoView>, StoreError>,
    got: Option<SignerUtxo>,
    answer: Result<Seq<Record>, sqlx::Error>,
) -> bool {
    match answer {
        Err(error) => given == Err::<Option<SignerUtxoView>, _>(
            StoreError::SqlxQuery(DbError::Sqlx(error)),
        ),
        Ok(records) => {
            &&& records.len() == 0 ==> given is Ok
            &&& forall|row: PgSignerUtxo| #[trigger]
                PgSignerUtxo::tells(records[0], row) && PgSignerUtxo::fits(row) ==> given is Ok
            &&& given == Ok::<_, StoreError>(GetSignerUtxo::output(got)) ==> match got {
                Some(utxo) => records.len() > 0 && tells_utxo(records[0], utxo),
                None => records.len() == 0,
            }
            &&& given matches Err(error) ==> error == StoreError::SqlxQuery(DbError::ColumnDecode)
        },
    }
}

/// The search for an unspent output reads it from the first row.
proof fn utxo_is_read(
    sql: &'static str,
    chain_tip: Seq<u8>,
    output_type: TxOutputType,
    min_block_height: int,
    got: Option<SignerUtxo>,
    tables: Tables,
    database: Database,
)
    requires
        serves(database, tables),
        in_bigint(min_block_height),
    ensures
        reads_utxo(
            run::<GetUtxo>(utxo_step(sql, chain_tip, output_type, min_block_height), database),
            got,
            tables(
                sql,
                Fetch::Optional,
                seq![
                    Datum::Bytes(chain_tip),
                    Datum::Int8(min_block_height),
                    Datum::Label(PgEnum::OutputType, output_type_text(output_type)),
                ],
            ),
        ),
{
    let params = seq![
        Datum::Bytes(chain_tip),
        Datum::Int8(min_block_height),
        Datum::Label(PgEnum::OutputType, output_type_text(output_type)),
    ];
    let first = ask_optional::<PgSignerUtxo>(sql, params);
    let given = run::<GetUtxo>(utxo_step(sql, chain_tip, output_type, min_block_height), database);
    let rows = run::<FetchOptional<PgSignerUtxo>>(first, database);
    run_converting::<SignerUtxoOf>(first, (), database);
    run_optional::<PgSignerUtxo>(sql, params, database);
    optional_row_is_read_by_name::<PgSignerUtxo>(sql, params, tables, database);
    if let Ok(records) = tables(sql, Fetch::Optional, params) {
        let columns = PgSignerUtxo::spec_columns();
        let statement = StatementView { sql, fetch: Fetch::Optional, columns, params };
        let response = database(ActionView::Run(statement));
        assert(response is Ok);
        assert(response->Ok_0.rows.len() == records.len());
        if records.len() == 0 {
            assert(rows == Ok::<Option<Seq<Datum>>, StoreError>(None));
        } else {
            assert(response->Ok_0.rows[0] == picked(columns, records[0]));
        }
        if given == Ok::<_, StoreError>(GetSignerUtxo::output(got)) && records.len() > 0 {
            let row = rows->Ok_0->Some_0;
            assert(row == picked(columns, records[0]));
            assert(row[0] == records[0](column("txid", Kind::Bytes)));
            assert(row[1] == records[0](column("output_index", Kind::Int4)));
            assert(row[2] == records[0](column("amount", Kind::Int8)));
            assert(row[3] == records[0](column("aggregate_key", Kind::Bytes)));
            let utxo = got->Some_0;
            assert(utxo@ == signer_utxo_of(row));
            assert(utxo.public_key.0@ == as_bytes(row[3]).skip(1));
        }
    }
}

/// The unspent output that is given is the one of which the database tells for
/// the tip, the minimum height and the type.
pub proof fn unspent_output_is_read<P>(
    store: PgStore<P>,
    chain_tip: BitcoinBlockHash,
    output_type: TxOutputType,
    min_block_height: BitcoinBlockHeight,
    step: Step<GetUtxo, Option<SignerUtxo>>,
    got: Option<SignerUtxo>,
    tables: Tables,
    database: Database,
)
    requires
        call_ensures(
            PgStore::<P>::get_utxo,
            (&store, &chain_tip, output_type, min_block_height),
            step,
        ),
        serves(database, tables),
    ensures
        in_bigint(min_block_height.0 as int) ==> reads_utxo(
            run::<GetUtxo>(step_view(step), database),
            got,
            tables(
                sql::GET_UTXO,
                Fetch::Optional,
                seq![
                    Datum::Bytes(chain_tip.0@),
                    Datum::Int8(min_block_height.0 as int),
                    Datum::Label(PgEnum::OutputType, output_type_text(output_type)),
                ],
            ),
        ),
        !in_bigint(min_block_height.0 as int) ==> run::<GetUtxo>(step_view(step), database)
            == Err::<Option<SignerUtxoView>, _>(StoreError::ConversionDatabaseInt),
{
    if in_bigint(min_block_height.0 as int) {
        utxo_is_read(
            sql::GET_UTXO,
            chain_tip.0@,
            output_type,
            min_block_height.0 as int,
            got,
            tables,
            database,
        );
    }
}

/// A donation is searched for from the tip down to the height of the first one,
/// and is missing where there is none.
pub proof fn donation_is_read<P>(
    store: PgStore<P>,
    chain_tip: BitcoinBlockHash,
    step: Step<GetDonationUtxo, Option<SignerUtxo>>,
    first: Option<BitcoinBlockHeight>,
    got: Option<SignerUtxo>,
    tables: Tables,
    database: Database,
)
    requires
        call_ensures(PgStore::<P>::get_donation_utxo, (&store, &chain_tip), step),
        serves(database, tables),
        found::<BitcoinBlockHeight>(
            tables(sql::MINIMUM_DONATION_TXO_HEIGHT, Fetch::Optional, Seq::empty()),
            first,
        ),
    ensures
        match first {
            Some(height) => reads_utxo(
                run::<GetDonationUtxo>(step_view(step), database),
                got,
                tables(
                    sql::GET_DONATION_UTXO,
                    Fetch::Optional,
                    seq![
                        Datum::Bytes(chain_tip.0@),
                        Datum::Int8(height.0 as int),
                        Datum::Label(PgEnum::OutputType, "donation"@),
                    ],
                ),
            ),
            None => {
                &&& run::<GetDonationUtxo>(step_view(step), database) is Ok
                &&& run::<GetDonationUtxo>(step_view(step), database) == Ok::<_, StoreError>(
                    GetDonationUtxo::output(got),
                ) ==> got is None
            },
        },
{
    donation_utxo(chain_tip.0@, database);
    found_data_is_given::<BitcoinBlockHeight>(
        sql::MINIMUM_DONATION_TXO_HEIGHT,
        Seq::empty(),
        first,
        tables,
        database,
    );
    assert(FetchOptional::<BitcoinBlockHeight>::output(first) == row_view(first));
    if let Some(height) = first {
        utxo_is_read(
            sql::GET_DONATION_UTXO,
            chain_tip.0@,
            TxOutputType::Donation,
            height.0 as int,
            got,
            tables,
            database,
        );
    }
}

/// The height below the signers' output is missing where no output of theirs is
/// known. Otherwise a sweep is searched for that is at least ten blocks older
/// than the output that was confirmed last, over as many transactions as ten
/// blocks can have of a chain of unconfirmed ones, and one more; its height is
/// given, and where there is none, the height ten blocks below the output.
pub proof fn height_below_output_is_read<P>(
    store: PgStore<P>,
    step: Step<MinimumUtxoHeight, Option<BitcoinBlockHeight>>,
    candidate: PgCandidateUtxo,
    sweep: Option<BitcoinBlockHeight>,
    got: Option<BitcoinBlockHeight>,
    tables: Tables,
    database: Database,
)
    requires
        call_ensures(PgStore::<P>::minimum_utxo_height, (&store,), step),
        serves(database, tables),
    ensures
        found::<PgCandidateUtxo>(
            tables(sql::UTXO_CANDIDATE, Fetch::Optional, Seq::empty()),
            None,
        ) ==> {
            &&& run::<MinimumUtxoHeight>(step_view(step), database) is Ok
            &&& run::<MinimumUtxoHeight>(step_view(step), database) == Ok::<_, StoreError>(
                MinimumUtxoHeight::output(got),
            ) ==> got is None
        },
        ({
            let height = candidate.block_height.0;
            let low = if height < 10 {
                0
            } else {
                height - 10
            };
            &&& found::<PgCandidateUtxo>(
                tables(sql::UTXO_CANDIDATE, Fetch::Optional, Seq::empty()),
                Some(candidate),
            )
            &&& found::<BitcoinBlockHeight>(
                tables(
                    sql::CONFIRMED_SWEEP_HEIGHT,
                    Fetch::Optional,
                    seq![
                        Datum::Int8(height as int),
                        Datum::Int8(251),
                        Datum::Bytes(candidate.txid.0@),
                        Datum::Int8(low as int),
                    ],
                ),
                sweep,
            )
        }) ==> {
            &&& run::<MinimumUtxoHeight>(step_view(step), database) is Ok
            &&& run::<MinimumUtxoHeight>(step_view(step), database) == Ok::<_, StoreError>(
                MinimumUtxoHeight::output(got),
            ) ==> match sweep {
                Some(sweep) => got == Some(sweep),
                None => got matches Some(found) && (found.0 + 10 == candidate.block_height.0 || (
                found.0 == 0 && candidate.block_height.0 < 10)),
            }
        },
{
    minimum_utxo_height(database);
    let sql = sql::UTXO_CANDIDATE;
    if found::<PgCandidateUtxo>(tables(sql, Fetch::Optional, Seq::empty()), None) {
        let none: Option<PgCandidateUtxo> = None;
        found_data_is_given::<PgCandidateUtxo>(sql, Seq::empty(), none, tables, database);
        assert(FetchOptional::<PgCandidateUtxo>::output(none) == row_view(none));
    }
    if found::<PgCandidateUtxo>(tables(sql, Fetch::Optional, Seq::empty()), Some(candidate)) {
        let one = Some(candidate);
        found_data_is_given::<PgCandidateUtxo>(sql, Seq::empty(), one, tables, database);
        assert(FetchOptional::<PgCandidateUtxo>::output(one) == row_view(one));
        let height = candidate.block_height.0;
        let low: int = if height < 10 {
            0
        } else {
            height - 10
        };
        let params = seq![
            Datum::Int8(height as int),
            Datum::Int8(251),
            Datum::Bytes(candidate.txid.0@),
            Datum::Int8(low),
        ];
        assert(confirmed_sweep_params(candidate.row()) =~= params);
        if found::<BitcoinBlockHeight>(
            tables(sql::CONFIRMED_SWEEP_HEIGHT, Fetch::Optional, params),
            sweep,
        ) {
            found_data_is_given::<BitcoinBlockHeight>(
                sql::CONFIRMED_SWEEP_HEIGHT,
                params,
                sweep,
                tables,
                database,
            );
            assert(FetchOptional::<BitcoinBlockHeight>::output(sweep) == row_view(sweep));
        }
    }
}

/// The signers' output is the one that is found from the height below it on, and
/// the donation where there is no such height or no such output.
pub proof fn signers_output_is_sweep_or_donation<P>(
    store: PgStore<P>,
    chain_tip: BitcoinBlockHash,
    step: Step<GetSignerUtxo, Option<SignerUtxo>>,
    height_step: Step<MinimumUtxoHeight, Option<BitcoinBlockHeight>>,
    height: Option<BitcoinBlockHeight>,
    utxo_step: Step<GetUtxo, Option<SignerUtxo>>,
    donation_step: Step<GetDonationUtxo, Option<SignerUtxo>>,
    database: Database,
)
    requires
        call_ensures(PgStore::<P>::get_signer_utxo, (&store, &chain_tip), step),
        call_ensures(PgStore::<P>::minimum_utxo_height, (&store,), height_step),
        height matches Some(height) ==> call_ensures(
            PgStore::<P>::get_utxo,
            (&store, &chain_tip, TxOutputType::SignersOutput, height),
            utxo_step,
        ),
        call_ensures(PgStore::<P>::get_donation_utxo, (&store, &chain_tip), donation_step),
    ensures
        run::<MinimumUtxoHeight>(step_view(height_step), database) == Ok::<_, StoreError>(
            MinimumUtxoHeight::output(height),
        ) ==> run::<GetSignerUtxo>(step_view(step), database) == (match height {
            Some(_) => match run::<GetUtxo>(step_view(utxo_step), database) {
                Ok(Some(utxo)) => Ok(Some(utxo)),
                Ok(None) => run::<GetDonationUtxo>(step_view(donation_step), database),
                Err(error) => Err(error),
            },
            None => run::<GetDonationUtxo>(step_view(donation_step), database),
        }),
        run::<MinimumUtxoHeight>(step_view(height_step), database) matches Err(error) ==> run::<
            GetSignerUtxo,
        >(step_view(step), database) == Err::<Option<SignerUtxoView>, _>(error),
{
    signer_utxo(chain_tip.0@, database);
}

/// The signers' output has the amount, the outpoint and the key of the row that
/// the database gives for the tip and the height below the output.
pub proof fn signers_output_is_read<P>(
    store: PgStore<P>,
    chain_tip: BitcoinBlockHash,
    step: Step<GetSignerUtxo, Option<SignerUtxo>>,
    height_step: Step<MinimumUtxoHeight, Option<BitcoinBlockHeight>>,
    height: BitcoinBlockHeight,
    row: PgSignerUtxo,
    got: Option<SignerUtxo>,
    tables: Tables,
    database: Database,
)
    requires
        call_ensures(PgStore::<P>::get_signer_utxo, (&store, &chain_tip), step),
        call_ensures(PgStore::<P>::minimum_utxo_height, (&store,), height_step),
        serves(database, tables),
        run::<MinimumUtxoHeight>(step_view(height_step), database) == Ok::<_, StoreError>(
            MinimumUtxoHeight::output(Some(height)),
        ),
        in_bigint(height.0 as int),
        found::<PgSignerUtxo>(
            tables(
                sql::GET_UTXO,
                Fetch::Optional,
                seq![
                    Datum::Bytes(chain_tip.0@),
                    Datum::Int8(height.0 as int),
                    Datum::Label(PgEnum::OutputType, "signers_output"@),
                ],
            ),
            Some(row),
        ),
    ensures
        run::<GetSignerUtxo>(step_view(step), database) is Ok,
        run::<GetSignerUtxo>(step_view(step), database) == Ok::<_, StoreError>(
            GetSignerUtxo::output(got),
        ) ==> (got matches Some(utxo) && {
            &&& utxo.outpoint.txid.0@ == row.txid.0@
            &&& utxo.outpoint.vout == row.output_index
            &&& utxo.amount == row.amount
            &&& forall|i: int|
                0 <= i < 32 ==> utxo.public_key.0@[i] == row.aggregate_key.0@[i + 1]
        }),
{
    signer_utxo(chain_tip.0@, database);
    let params = seq![
        Datum::Bytes(chain_tip.0@),
        Datum::Int8(height.0 as int),
        Datum::Label(PgEnum::OutputType, "signers_output"@),
    ];
    let one = Some(row);
    found_data_is_given::<PgSignerUtxo>(sql::GET_UTXO, params, one, tables, database);
    assert(FetchOptional::<PgSignerUtxo>::output(one) == row_view(one));
    run_converting::<SignerUtxoOf>(
        ask_optional::<PgSignerUtxo>(sql::GET_UTXO, params),
        (),
        database,
    );
    if run::<GetSignerUtxo>(step_view(step), database) == Ok::<_, StoreError>(
        GetSignerUtxo::output(got),
    ) {
        let utxo = got->Some_0;
        assert(utxo@ == signer_utxo_of(row.row()));
        assert(utxo.public_key.0@ == row.aggregate_key.0@.skip(1));
    }
}

} // verus!
