//! What the statements that read say.

use crate::insert_laws::{is_in, says};
use crate::sql;
use vstd::prelude::*;

verus! {

/// The largest output of a type that no sweep on the blockchain spends is
/// selected, with the key of the shares for its script.
pub proof fn largest_output_is_selected()
    ensures
        says(sql::GET_UTXO@, "FROM bitcoin_blockchain_until($1, $2)"@),
        says(sql::GET_UTXO@, r#"JOIN bitcoin_blockchain AS bb USING (block_hash)
                WHERE prevout_type = 'signers_input'"#@),
        says(sql::GET_UTXO@, r#"bo.txid
              , bo.output_index
              , bo.amount
              , ds.aggregate_key
            FROM sbtc_signer.bitcoin_tx_outputs AS bo
            JOIN sbtc_signer.bitcoin_transactions AS bt USING (txid)
            JOIN bitcoin_blockchain AS bb USING (block_hash)
            JOIN sbtc_signer.dkg_shares AS ds USING (script_pubkey)
            LEFT JOIN confirmed_sweeps AS cs
              ON cs.prevout_txid = bo.txid
              AND cs.prevout_output_index = bo.output_index
            WHERE cs.prevout_txid IS NULL
              AND bo.output_type = $3
            ORDER BY bo.amount DESC
            LIMIT 1;"#@),
{
    reveal_strlit(r#"
            WITH bitcoin_blockchain AS (
                SELECT block_hash
                FROM bitcoin_blockchain_until($1, $2)
            ),
            confirmed_sweeps AS (
                SELECT
                    prevout_txid
                  , prevout_output_index
                FROM sbtc_signer.bitcoin_tx_inputs
                JOIN sbtc_signer.bitcoin_transactions AS bt USING (txid)
                JOIN bitcoin_blockchain AS bb USING (block_hash)
                WHERE prevout_type = 'signers_input'
            )
            SELECT
                bo.txid
              , bo.output_index
              , bo.amount
              , ds.aggregate_key
            FROM sbtc_signer.bitcoin_tx_outputs AS bo
            JOIN sbtc_signer.bitcoin_transactions AS bt USING (txid)
            JOIN bitcoin_blockchain AS bb USING (block_hash)
            JOIN sbtc_signer.dkg_shares AS ds USING (script_pubkey)
            LEFT JOIN confirmed_sweeps AS cs
              ON cs.prevout_txid = bo.txid
              AND cs.prevout_output_index = bo.output_index
            WHERE cs.prevout_txid IS NULL
              AND bo.output_type = $3
            ORDER BY bo.amount DESC
            LIMIT 1;
            "#);
    reveal_strlit("FROM bitcoin_blockchain_until($1, $2)");
    assert(is_in(sql::GET_UTXO@, 92));
    reveal_strlit(r#"JOIN bitcoin_blockchain AS bb USING (block_hash)
                WHERE prevout_type = 'signers_input'"#);
    assert(is_in(sql::GET_UTXO@, 416));
    reveal_strlit(r#"bo.txid
              , bo.output_index
              , bo.amount
              , ds.aggregate_key
            FROM sbtc_signer.bitcoin_tx_outputs AS bo
            JOIN sbtc_signer.bitcoin_transactions AS bt USING (txid)
            JOIN bitcoin_blockchain AS bb USING (block_hash)
            JOIN sbtc_signer.dkg_shares AS ds USING (script_pubkey)
            LEFT JOIN confirmed_sweeps AS cs
              ON cs.prevout_txid = bo.txid
              AND cs.prevout_output_index = bo.output_index
            WHERE cs.prevout_txid IS NULL
              AND bo.output_type = $3
            ORDER BY bo.amount DESC
            LIMIT 1;"#);
    assert(is_in(sql::GET_UTXO@, 567));
}

/// The lowest output of a type that no sweep on the blockchain spends is
/// selected, and the largest of those in its block, with the key of the shares
/// for its script.
pub proof fn lowest_donation_is_selected()
    ensures
        says(sql::GET_DONATION_UTXO@, "FROM bitcoin_blockchain_until($1, $2)"@),
        says(sql::GET_DONATION_UTXO@, r#"JOIN bitcoin_blockchain AS bb USING (block_hash)
                WHERE prevout_type = 'signers_input'"#@),
        says(sql::GET_DONATION_UTXO@, r#"bo.txid
              , bo.output_index
              , bo.amount
              , ds.aggregate_key
            FROM sbtc_signer.bitcoin_tx_outputs AS bo
            JOIN sbtc_signer.bitcoin_transactions AS bt USING (txid)
            JOIN bitcoin_blockchain AS bb USING (block_hash)
            JOIN sbtc_signer.dkg_shares AS ds USING (script_pubkey)
            LEFT JOIN confirmed_sweeps AS cs
              ON cs.prevout_txid = bo.txid
              AND cs.prevout_output_index = bo.output_index
            WHERE cs.prevout_txid IS NULL
              AND bo.output_type = $3
            ORDER BY bb.block_height ASC, bo.amount DESC
            LIMIT 1;"#@),
{
    reveal_strlit(r#"
            WITH bitcoin_blockchain AS (
                SELECT block_hash, block_height
                FROM bitcoin_blockchain_until($1, $2)
            ),
            confirmed_sweeps AS (
                SELECT
                    prevout_txid
                  , prevout_output_index
                FROM sbtc_signer.bitcoin_tx_inputs
                JOIN sbtc_signer.bitcoin_transactions AS bt USING (txid)
                JOIN bitcoin_blockchain AS bb USING (block_hash)
                WHERE prevout_type = 'signers_input'
            )
            SELECT
                bo.txid
              , bo.output_index
              , bo.amount
              , ds.aggregate_key
            FROM sbtc_signer.bitcoin_tx_outputs AS bo
            JOIN sbtc_signer.bitcoin_transactions AS bt USING (txid)
            JOIN bitcoin_blockchain AS bb USING (block_hash)
            JOIN sbtc_signer.dkg_shares AS ds USING (script_pubkey)
            LEFT JOIN confirmed_sweeps AS cs
              ON cs.prevout_txid = bo.txid
              AND cs.prevout_output_index = bo.output_index
            WHERE cs.prevout_txid IS NULL
              AND bo.output_type = $3
            ORDER BY bb.block_height ASC, bo.amount DESC
            LIMIT 1;
            "#);
    reveal_strlit("FROM bitcoin_blockchain_until($1, $2)");
    assert(is_in(sql::GET_DONATION_UTXO@, 106));
    reveal_strlit(r#"JOIN bitcoin_blockchain AS bb USING (block_hash)
                WHERE prevout_type = 'signers_input'"#);
    assert(is_in(sql::GET_DONATION_UTXO@, 430));
    reveal_strlit(r#"bo.txid
              , bo.output_index
              , bo.amount
              , ds.aggregate_key
            FROM sbtc_signer.bitcoin_tx_outputs AS bo
            JOIN sbtc_signer.bitcoin_transactions AS bt USING (txid)
            JOIN bitcoin_blockchain AS bb USING (block_hash)
            JOIN sbtc_signer.dkg_shares AS ds USING (script_pubkey)
            LEFT JOIN confirmed_sweeps AS cs
              ON cs.prevout_txid = bo.txid
              AND cs.prevout_output_index = bo.output_index
            WHERE cs.prevout_txid IS NULL
              AND bo.output_type = $3
            ORDER BY bb.block_height ASC, bo.amount DESC
            LIMIT 1;"#);
    assert(is_in(sql::GET_DONATION_UTXO@, 581));
}

/// The lowest transaction on the blockchain that spends an output of the
/// signers and makes one is selected.
pub proof fn first_sweep_is_selected()
    ensures
        says(sql::GET_LEAST_TXO_HEIGHT@, r#"SELECT bb.block_height
            FROM sbtc_signer.bitcoin_tx_inputs AS bi
            JOIN sbtc_signer.bitcoin_tx_outputs AS bo
              ON bo.txid = bi.txid
            JOIN sbtc_signer.bitcoin_transactions AS bt
              ON bt.txid = bi.txid
            JOIN bitcoin_blockchain_until($1, $2) AS bb
              ON bb.block_hash = bt.block_hash
            WHERE bo.output_type = 'signers_output'
              AND bi.prevout_type = 'signers_input'
            ORDER BY bb.block_height ASC
            LIMIT 1;"#@),
{
    reveal_strlit(r#"
            SELECT bb.block_height
            FROM sbtc_signer.bitcoin_tx_inputs AS bi
            JOIN sbtc_signer.bitcoin_tx_outputs AS bo
              ON bo.txid = bi.txid
            JOIN sbtc_signer.bitcoin_transactions AS bt
              ON bt.txid = bi.txid
            JOIN bitcoin_blockchain_until($1, $2) AS bb
              ON bb.block_hash = bt.block_hash
            WHERE bo.output_type = 'signers_output'
              AND bi.prevout_type = 'signers_input'
            ORDER BY bb.block_height ASC
            LIMIT 1;
            "#);
    reveal_strlit(r#"SELECT bb.block_height
            FROM sbtc_signer.bitcoin_tx_inputs AS bi
            JOIN sbtc_signer.bitcoin_tx_outputs AS bo
              ON bo.txid = bi.txid
            JOIN sbtc_signer.bitcoin_transactions AS bt
              ON bt.txid = bi.txid
            JOIN bitcoin_blockchain_until($1, $2) AS bb
              ON bb.block_hash = bt.block_hash
            WHERE bo.output_type = 'signers_output'
              AND bi.prevout_type = 'signers_input'
            ORDER BY bb.block_height ASC
            LIMIT 1;"#);
    assert(is_in(sql::GET_LEAST_TXO_HEIGHT@, 13));
}

/// The lowest donation is selected.
pub proof fn first_donation_is_selected()
    ensures
        says(sql::MINIMUM_DONATION_TXO_HEIGHT@, r#"SELECT bb.block_height
            FROM sbtc_signer.bitcoin_tx_outputs AS bo
            JOIN sbtc_signer.bitcoin_transactions AS bt USING (txid)
            JOIN sbtc_signer.bitcoin_blocks AS bb USING (block_hash)
            WHERE bo.output_type = 'donation'
            ORDER BY bb.block_height ASC
            LIMIT 1;"#@),
{
    reveal_strlit(r#"
            SELECT bb.block_height
            FROM sbtc_signer.bitcoin_tx_outputs AS bo
            JOIN sbtc_signer.bitcoin_transactions AS bt USING (txid)
            JOIN sbtc_signer.bitcoin_blocks AS bb USING (block_hash)
            WHERE bo.output_type = 'donation'
            ORDER BY bb.block_height ASC
            LIMIT 1;
            "#);
    reveal_strlit(r#"SELECT bb.block_height
            FROM sbtc_signer.bitcoin_tx_outputs AS bo
            JOIN sbtc_signer.bitcoin_transactions AS bt USING (txid)
            JOIN sbtc_signer.bitcoin_blocks AS bb USING (block_hash)
            WHERE bo.output_type = 'donation'
            ORDER BY bb.block_height ASC
            LIMIT 1;"#);
    assert(is_in(sql::MINIMUM_DONATION_TXO_HEIGHT@, 13));
}

/// The highest output of the signers that no sweep spends is selected.
pub proof fn last_output_is_selected()
    ensures
        says(sql::UTXO_CANDIDATE@, "WHERE prevout_type = 'signers_input'"@),
        says(sql::UTXO_CANDIDATE@, r#"bo.txid
              , bb.block_height
            FROM sbtc_signer.bitcoin_tx_outputs AS bo
            JOIN sbtc_signer.bitcoin_transactions AS bt USING (txid)
            JOIN sbtc_signer.bitcoin_blocks AS bb USING (block_hash)
            LEFT JOIN confirmed_sweeps AS cs
              ON cs.prevout_txid = bo.txid
              AND cs.prevout_output_index = bo.output_index
            WHERE cs.prevout_txid IS NULL
              AND bo.output_type = 'signers_output'
            ORDER BY bb.block_height DESC
            LIMIT 1;"#@),
{
    reveal_strlit(r#"
            WITH confirmed_sweeps AS (
                SELECT
                    prevout_txid
                  , prevout_output_index
                FROM sbtc_signer.bitcoin_tx_inputs
                JOIN sbtc_signer.bitcoin_transactions AS bt USING (txid)
                WHERE prevout_type = 'signers_input'
            )
            SELECT
                bo.txid
              , bb.block_height
            FROM sbtc_signer.bitcoin_tx_outputs AS bo
            JOIN sbtc_signer.bitcoin_transactions AS bt USING (txid)
            JOIN sbtc_signer.bitcoin_blocks AS bb USING (block_hash)
            LEFT JOIN confirmed_sweeps AS cs
              ON cs.prevout_txid = bo.txid
              AND cs.prevout_output_index = bo.output_index
            WHERE cs.prevout_txid IS NULL
              AND bo.output_type = 'signers_output'
            ORDER BY bb.block_height DESC
            LIMIT 1;
            "#);
    reveal_strlit("WHERE prevout_type = 'signers_input'");
    assert(is_in(sql::UTXO_CANDIDATE@, 277));
    reveal_strlit(r#"bo.txid
              , bb.block_height
            FROM sbtc_signer.bitcoin_tx_outputs AS bo
            JOIN sbtc_signer.bitcoin_transactions AS bt USING (txid)
            JOIN sbtc_signer.bitcoin_blocks AS bb USING (block_hash)
            LEFT JOIN confirmed_sweeps AS cs
              ON cs.prevout_txid = bo.txid
              AND cs.prevout_output_index = bo.output_index
            WHERE cs.prevout_txid IS NULL
              AND bo.output_type = 'signers_output'
            ORDER BY bb.block_height DESC
            LIMIT 1;"#);
    assert(is_in(sql::UTXO_CANDIDATE@, 363));
}

/// The highest sweep that is not above a height is selected, of those in the
/// chain that ends in a transaction.
pub proof fn old_sweep_is_selected()
    ensures
        says(sql::CONFIRMED_SWEEP_HEIGHT@, "MIN(bb.block_height) AS block_height"@),
        says(sql::CONFIRMED_SWEEP_HEIGHT@, r#"WHERE bti.prevout_type = 'signers_input'
                  AND bb.block_height <= $1"#@),
        says(sql::CONFIRMED_SWEEP_HEIGHT@, "WHERE si.txid = $3"@),
        says(sql::CONFIRMED_SWEEP_HEIGHT@, r#"FROM signer_inputs AS si
                JOIN tx_chain AS tc
                  ON tc.prevout_txid = si.txid
                WHERE tc.tx_count < $2
            )
            SELECT block_height
            FROM tx_chain
            WHERE block_height <= $4
            ORDER BY block_height DESC
            LIMIT 1;"#@),
{
    reveal_strlit(r#"
            WITH RECURSIVE signer_inputs AS (
                SELECT
                    bti.txid
                  , bti.prevout_txid
                  , MIN(bb.block_height) AS block_height
                FROM sbtc_signer.bitcoin_tx_inputs AS bti
                JOIN sbtc_signer.bitcoin_transactions USING (txid)
                JOIN sbtc_signer.bitcoin_blocks AS bb USING (block_hash)
                WHERE bti.prevout_type = 'signers_input'
                  AND bb.block_height <= $1
                GROUP BY bti.txid, bti.prevout_txid
            ),
            tx_chain AS (
                SELECT
                    si.txid
                  , si.prevout_txid
                  , si.block_height
                  , 1 AS tx_count
                FROM signer_inputs AS si
                WHERE si.txid = $3

                UNION ALL

                SELECT
                    si.txid
                  , si.prevout_txid
                  , si.block_height
                  , tc.tx_count + 1
                FROM signer_inputs AS si
                JOIN tx_chain AS tc
                  ON tc.prevout_txid = si.txid
                WHERE tc.tx_count < $2
            )
            SELECT block_height
            FROM tx_chain
            WHERE block_height <= $4
            ORDER BY block_height DESC
            LIMIT 1;
            "#);
    reveal_strlit("MIN(bb.block_height) AS block_height");
    assert(is_in(sql::CONFIRMED_SWEEP_HEIGHT@, 156));
    reveal_strlit(r#"WHERE bti.prevout_type = 'signers_input'
                  AND bb.block_height <= $1"#);
    assert(is_in(sql::CONFIRMED_SWEEP_HEIGHT@, 407));
    reveal_strlit("WHERE si.txid = $3");
    assert(is_in(sql::CONFIRMED_SWEEP_HEIGHT@, 799));
    reveal_strlit(r#"FROM signer_inputs AS si
                JOIN tx_chain AS tc
                  ON tc.prevout_txid = si.txid
                WHERE tc.tx_count < $2
            )
            SELECT block_height
            FROM tx_chain
            WHERE block_height <= $4
            ORDER BY block_height DESC
            LIMIT 1;"#);
    assert(is_in(sql::CONFIRMED_SWEEP_HEIGHT@, 1021));
}

/// The lowest block that confirms the transaction of a deposit request is
/// selected.
pub proof fn least_deposit_height_is_selected()
    ensures
        says(sql::GET_DEPOSIT_REQUEST_LEAST_HEIGHT@, r#"SELECT block_height
            FROM sbtc_signer.deposit_requests AS dr
            JOIN sbtc_signer.bitcoin_transactions USING (txid)
            JOIN sbtc_signer.bitcoin_blocks USING (block_hash)
            WHERE dr.txid = $1
              AND dr.output_index = $2
            ORDER BY block_height
            LIMIT 1"#@),
{
    reveal_strlit(r#"
            SELECT block_height
            FROM sbtc_signer.deposit_requests AS dr
            JOIN sbtc_signer.bitcoin_transactions USING (txid)
            JOIN sbtc_signer.bitcoin_blocks USING (block_hash)
            WHERE dr.txid = $1
              AND dr.output_index = $2
            ORDER BY block_height
            LIMIT 1
            "#);
    reveal_strlit(r#"SELECT block_height
            FROM sbtc_signer.deposit_requests AS dr
            JOIN sbtc_signer.bitcoin_transactions USING (txid)
            JOIN sbtc_signer.bitcoin_blocks USING (block_hash)
            WHERE dr.txid = $1
              AND dr.output_index = $2
            ORDER BY block_height
            LIMIT 1"#);
    assert(is_in(sql::GET_DEPOSIT_REQUEST_LEAST_HEIGHT@, 13));
}

/// A transaction on the blockchain that spends a deposit is selected.
pub proof fn sweep_of_deposit_is_selected()
    ensures
        says(sql::GET_DEPOSIT_SWEEP_TXID@, r#"SELECT bti.txid
            FROM sbtc_signer.bitcoin_tx_inputs AS bti
            JOIN sbtc_signer.bitcoin_transactions AS bt USING (txid)
            JOIN sbtc_signer.bitcoin_blockchain_until($1, $2) USING (block_hash)
            WHERE bti.prevout_txid = $3
              AND bti.prevout_output_index = $4
            LIMIT 1"#@),
{
    reveal_strlit(r#"
            SELECT bti.txid
            FROM sbtc_signer.bitcoin_tx_inputs AS bti
            JOIN sbtc_signer.bitcoin_transactions AS bt USING (txid)
            JOIN sbtc_signer.bitcoin_blockchain_until($1, $2) USING (block_hash)
            WHERE bti.prevout_txid = $3
              AND bti.prevout_output_index = $4
            LIMIT 1
            "#);
    reveal_strlit(r#"SELECT bti.txid
            FROM sbtc_signer.bitcoin_tx_inputs AS bti
            JOIN sbtc_signer.bitcoin_transactions AS bt USING (txid)
            JOIN sbtc_signer.bitcoin_blockchain_until($1, $2) USING (block_hash)
            WHERE bti.prevout_txid = $3
              AND bti.prevout_output_index = $4
            LIMIT 1"#);
    assert(is_in(sql::GET_DEPOSIT_SWEEP_TXID@, 13));
}

/// A deposit request is selected with the decision of a signer, and with the
/// highest block on the blockchain that confirms it, before blocks that do not
/// lie on the blockchain.
pub proof fn deposit_summary_is_selected()
    ensures
        says(sql::GET_DEPOSIT_REQUEST_STATUS_SUMMARY@, r#"ds.can_accept
              , ds.can_sign
              , dr.amount
              , dr.max_fee
              , dr.lock_time
              , dr.spend_script AS deposit_script
              , dr.reclaim_script
              , dr.signers_public_key
              , bc.block_height
              , bc.block_hash
            FROM sbtc_signer.deposit_requests AS dr
            JOIN sbtc_signer.bitcoin_transactions USING (txid)
            LEFT JOIN sbtc_signer.bitcoin_blockchain_until($1, $2) AS bc USING (block_hash)
            LEFT JOIN sbtc_signer.deposit_signers AS ds
              ON dr.txid = ds.txid
             AND dr.output_index = ds.output_index
             AND ds.signer_pub_key = $5
            WHERE dr.txid = $3
              AND dr.output_index = $4
            ORDER BY bc.block_height DESC NULLS LAST
            LIMIT 1"#@),
{
    reveal_strlit(r#"
            SELECT
                ds.can_accept
              , ds.can_sign
              , dr.amount
              , dr.max_fee
              , dr.lock_time
              , dr.spend_script AS deposit_script
              , dr.reclaim_script
              , dr.signers_public_key
              , bc.block_height
              , bc.block_hash
            FROM sbtc_signer.deposit_requests AS dr
            JOIN sbtc_signer.bitcoin_transactions USING (txid)
            LEFT JOIN sbtc_signer.bitcoin_blockchain_until($1, $2) AS bc USING (block_hash)
            LEFT JOIN sbtc_signer.deposit_signers AS ds
              ON dr.txid = ds.txid
             AND dr.output_index = ds.output_index
             AND ds.signer_pub_key = $5
            WHERE dr.txid = $3
              AND dr.output_index = $4
            ORDER BY bc.block_height DESC NULLS LAST
            LIMIT 1
            "#);
    reveal_strlit(r#"ds.can_accept
              , ds.can_sign
              , dr.amount
              , dr.max_fee
              , dr.lock_time
              , dr.spend_script AS deposit_script
              , dr.reclaim_script
              , dr.signers_public_key
              , bc.block_height
              , bc.block_hash
            FROM sbtc_signer.deposit_requests AS dr
            JOIN sbtc_signer.bitcoin_transactions USING (txid)
            LEFT JOIN sbtc_signer.bitcoin_blockchain_until($1, $2) AS bc USING (block_hash)
            LEFT JOIN sbtc_signer.deposit_signers AS ds
              ON dr.txid = ds.txid
             AND dr.output_index = ds.output_index
             AND ds.signer_pub_key = $5
            WHERE dr.txid = $3
              AND dr.output_index = $4
            ORDER BY bc.block_height DESC NULLS LAST
            LIMIT 1"#);
    assert(is_in(sql::GET_DEPOSIT_REQUEST_STATUS_SUMMARY@, 36));
}

/// The stacks blockchain is walked from a block down to a height, and another
/// block is looked for on it.
pub proof fn stacks_blockchain_is_walked()
    ensures
        says(sql::IN_CANONICAL_STACKS_BLOCKCHAIN@, "WHERE block_hash = $1"@),
        says(sql::IN_CANONICAL_STACKS_BLOCKCHAIN@, r#"ON parent.block_hash = child.parent_hash
                WHERE child.block_height > $2"#@),
        says(sql::IN_CANONICAL_STACKS_BLOCKCHAIN@, r#"FROM tx_block_chain AS tbc
                WHERE tbc.block_hash = $3"#@),
{
    reveal_strlit(r#"
            WITH RECURSIVE tx_block_chain AS (
                SELECT
                    block_hash
                  , block_height
                  , parent_hash
                FROM sbtc_signer.stacks_blocks
                WHERE block_hash = $1

                UNION ALL

                SELECT
                    parent.block_hash
                  , parent.block_height
                  , parent.parent_hash
                FROM sbtc_signer.stacks_blocks AS parent
                JOIN tx_block_chain AS child
                  ON parent.block_hash = child.parent_hash
                WHERE child.block_height > $2
            )
            SELECT EXISTS (
                SELECT TRUE
                FROM tx_block_chain AS tbc
                WHERE tbc.block_hash = $3
            );
        "#);
    reveal_strlit("WHERE block_hash = $1");
    assert(is_in(sql::IN_CANONICAL_STACKS_BLOCKCHAIN@, 230));
    reveal_strlit(r#"ON parent.block_hash = child.parent_hash
                WHERE child.block_height > $2"#);
    assert(is_in(sql::IN_CANONICAL_STACKS_BLOCKCHAIN@, 540));
    reveal_strlit(r#"FROM tx_block_chain AS tbc
                WHERE tbc.block_hash = $3"#);
    assert(is_in(sql::IN_CANONICAL_STACKS_BLOCKCHAIN@, 713));
}

/// The bitcoin blockchain is walked down from a block, and a block with a
/// height is looked for on it.
pub proof fn bitcoin_blockchain_is_walked()
    ensures
        says(sql::IN_CANONICAL_BITCOIN_BLOCKCHAIN@, "WHERE block_hash = $1"@),
        says(sql::IN_CANONICAL_BITCOIN_BLOCKCHAIN@, r#"ON child.block_hash = parent.parent_hash
                WHERE parent.counter <= $3"#@),
        says(sql::IN_CANONICAL_BITCOIN_BLOCKCHAIN@, r#"FROM tx_block_chain AS tbc
                WHERE tbc.block_hash = $2
                  AND tbc.block_height = $4"#@),
{
    reveal_strlit(r#"
            WITH RECURSIVE tx_block_chain AS (
                SELECT
                    block_hash
                  , block_height
                  , parent_hash
                  , 0 AS counter
                FROM sbtc_signer.bitcoin_blocks
                WHERE block_hash = $1

                UNION ALL

                SELECT
                    child.block_hash
                  , child.block_height
                  , child.parent_hash
                  , parent.counter + 1
                FROM sbtc_signer.bitcoin_blocks AS child
                JOIN tx_block_chain AS parent
                  ON child.block_hash = parent.parent_hash
                WHERE parent.counter <= $3
            )
            SELECT EXISTS (
                SELECT TRUE
                FROM tx_block_chain AS tbc
                WHERE tbc.block_hash = $2
                  AND tbc.block_height = $4
            );
        "#);
    reveal_strlit("WHERE block_hash = $1");
    assert(is_in(sql::IN_CANONICAL_BITCOIN_BLOCKCHAIN@, 264));
    reveal_strlit(r#"ON child.block_hash = parent.parent_hash
                WHERE parent.counter <= $3"#);
    assert(is_in(sql::IN_CANONICAL_BITCOIN_BLOCKCHAIN@, 611));
    reveal_strlit(r#"FROM tx_block_chain AS tbc
                WHERE tbc.block_hash = $2
                  AND tbc.block_height = $4"#);
    assert(is_in(sql::IN_CANONICAL_BITCOIN_BLOCKCHAIN@, 781));
}

/// A withdrawal request is selected with its block and the decision of a
/// signer.
pub proof fn withdrawal_summary_is_selected()
    ensures
        says(sql::GET_WITHDRAWAL_REQUEST_STATUS_SUMMARY@, r#"ws.is_accepted
              , wr.amount
              , wr.max_fee
              , wr.recipient
              , wr.bitcoin_block_height
              , wr.block_hash   AS stacks_block_hash
              , sb.block_height AS stacks_block_height
            FROM sbtc_signer.withdrawal_requests AS wr
            JOIN sbtc_signer.stacks_blocks AS sb
              ON sb.block_hash = wr.block_hash
            LEFT JOIN sbtc_signer.withdrawal_signers AS ws
              ON ws.request_id = wr.request_id
             AND ws.block_hash = wr.block_hash
             AND ws.signer_pub_key = $1
            WHERE wr.request_id = $2
              AND wr.block_hash = $3
            LIMIT 1"#@),
{
    reveal_strlit(r#"
            SELECT
                ws.is_accepted
              , wr.amount
              , wr.max_fee
              , wr.recipient
              , wr.bitcoin_block_height
              , wr.block_hash   AS stacks_block_hash
              , sb.block_height AS stacks_block_height
            FROM sbtc_signer.withdrawal_requests AS wr
            JOIN sbtc_signer.stacks_blocks AS sb
              ON sb.block_hash = wr.block_hash
            LEFT JOIN sbtc_signer.withdrawal_signers AS ws
              ON ws.request_id = wr.request_id
             AND ws.block_hash = wr.block_hash
             AND ws.signer_pub_key = $1
            WHERE wr.request_id = $2
              AND wr.block_hash = $3
            LIMIT 1
            "#);
    reveal_strlit(r#"ws.is_accepted
              , wr.amount
              , wr.max_fee
              , wr.recipient
              , wr.bitcoin_block_height
              , wr.block_hash   AS stacks_block_hash
              , sb.block_height AS stacks_block_height
            FROM sbtc_signer.withdrawal_requests AS wr
            JOIN sbtc_signer.stacks_blocks AS sb
              ON sb.block_hash = wr.block_hash
            LEFT JOIN sbtc_signer.withdrawal_signers AS ws
              ON ws.request_id = wr.request_id
             AND ws.block_hash = wr.block_hash
             AND ws.signer_pub_key = $1
            WHERE wr.request_id = $2
              AND wr.block_hash = $3
            LIMIT 1"#);
    assert(is_in(sql::GET_WITHDRAWAL_REQUEST_STATUS_SUMMARY@, 36));
}

/// A transaction on the blockchain that pays a withdrawal request is selected.
pub proof fn payment_of_withdrawal_is_selected()
    ensures
        says(sql::GET_WITHDRAWAL_SWEEP_INFO@, r#"bwo.bitcoin_txid AS txid
              , bt.block_hash
            FROM sbtc_signer.withdrawal_requests AS wr
            JOIN sbtc_signer.bitcoin_withdrawals_outputs AS bwo
              ON bwo.request_id = wr.request_id
             AND bwo.stacks_block_hash = wr.block_hash
            JOIN sbtc_signer.bitcoin_transactions AS bt
              ON bt.txid = bwo.bitcoin_txid
            JOIN sbtc_signer.bitcoin_blockchain_until($1, wr.bitcoin_block_height) AS bbu
              ON bbu.block_hash = bt.block_hash
            WHERE wr.request_id = $2
              AND wr.block_hash = $3
            LIMIT 1"#@),
{
    reveal_strlit(r#"
            SELECT
                bwo.bitcoin_txid AS txid
              , bt.block_hash
            FROM sbtc_signer.withdrawal_requests AS wr
            JOIN sbtc_signer.bitcoin_withdrawals_outputs AS bwo
              ON bwo.request_id = wr.request_id
             AND bwo.stacks_block_hash = wr.block_hash
            JOIN sbtc_signer.bitcoin_transactions AS bt
              ON bt.txid = bwo.bitcoin_txid
            JOIN sbtc_signer.bitcoin_blockchain_until($1, wr.bitcoin_block_height) AS bbu
              ON bbu.block_hash = bt.block_hash
            WHERE wr.request_id = $2
              AND wr.block_hash = $3
            LIMIT 1
            "#);
    reveal_strlit(r#"bwo.bitcoin_txid AS txid
              , bt.block_hash
            FROM sbtc_signer.withdrawal_requests AS wr
            JOIN sbtc_signer.bitcoin_withdrawals_outputs AS bwo
              ON bwo.request_id = wr.request_id
             AND bwo.stacks_block_hash = wr.block_hash
            JOIN sbtc_signer.bitcoin_transactions AS bt
              ON bt.txid = bwo.bitcoin_txid
            JOIN sbtc_signer.bitcoin_blockchain_until($1, wr.bitcoin_block_height) AS bbu
              ON bbu.block_hash = bt.block_hash
            WHERE wr.request_id = $2
              AND wr.block_hash = $3
            LIMIT 1"#);
    assert(is_in(sql::GET_WITHDRAWAL_SWEEP_INFO@, 36));
}

/// A bitcoin block is selected by its hash.
pub proof fn bitcoin_block_is_selected()
    ensures
        says(sql::GET_BITCOIN_BLOCK@, r#"SELECT
                block_hash
              , block_height
              , parent_hash
            FROM sbtc_signer.bitcoin_blocks
            WHERE block_hash = $1;"#@),
{
    reveal_strlit("SELECT
                block_hash
              , block_height
              , parent_hash
            FROM sbtc_signer.bitcoin_blocks
            WHERE block_hash = $1;");
    reveal_strlit(r#"SELECT
                block_hash
              , block_height
              , parent_hash
            FROM sbtc_signer.bitcoin_blocks
            WHERE block_hash = $1;"#);
    assert(is_in(sql::GET_BITCOIN_BLOCK@, 0));
}

/// A stacks block is selected by its hash.
pub proof fn stacks_block_is_selected()
    ensures
        says(sql::GET_STACKS_BLOCK@, r#"SELECT
                block_hash
              , block_height
              , parent_hash
              , bitcoin_anchor
            FROM sbtc_signer.stacks_blocks
            WHERE block_hash = $1;"#@),
{
    reveal_strlit("SELECT
                block_hash
              , block_height
              , parent_hash
              , bitcoin_anchor
            FROM sbtc_signer.stacks_blocks
            WHERE block_hash = $1;");
    reveal_strlit(r#"SELECT
                block_hash
              , block_height
              , parent_hash
              , bitcoin_anchor
            FROM sbtc_signer.stacks_blocks
            WHERE block_hash = $1;"#);
    assert(is_in(sql::GET_STACKS_BLOCK@, 0));
}

/// The chain tip is the highest block, and the one with the greatest hash among
/// equally high ones.
pub proof fn chain_tip_is_selected()
    ensures
        says(sql::GET_BITCOIN_CANONICAL_CHAIN_TIP@, r#"SELECT
                block_hash
              , block_height
              , parent_hash
             FROM sbtc_signer.bitcoin_blocks
             ORDER BY block_height DESC, block_hash DESC
             LIMIT 1"#@),
        says(sql::GET_BITCOIN_CANONICAL_CHAIN_TIP_REF@, r#"SELECT
                block_hash
              , block_height
             FROM sbtc_signer.bitcoin_blocks
             ORDER BY block_height DESC, block_hash DESC
             LIMIT 1"#@),
{
    reveal_strlit("SELECT
                block_hash
              , block_height
              , parent_hash
             FROM sbtc_signer.bitcoin_blocks
             ORDER BY block_height DESC, block_hash DESC
             LIMIT 1");
    reveal_strlit(r#"SELECT
                block_hash
              , block_height
              , parent_hash
             FROM sbtc_signer.bitcoin_blocks
             ORDER BY block_height DESC, block_hash DESC
             LIMIT 1"#);
    assert(is_in(sql::GET_BITCOIN_CANONICAL_CHAIN_TIP@, 0));
    reveal_strlit("SELECT
                block_hash
              , block_height
             FROM sbtc_signer.bitcoin_blocks
             ORDER BY block_height DESC, block_hash DESC
             LIMIT 1");
    reveal_strlit(r#"SELECT
                block_hash
              , block_height
             FROM sbtc_signer.bitcoin_blocks
             ORDER BY block_height DESC, block_hash DESC
             LIMIT 1"#);
    assert(is_in(sql::GET_BITCOIN_CANONICAL_CHAIN_TIP_REF@, 0));
}

/// The stacks chain tip is the highest stacks block that is anchored to the
/// bitcoin blockchain of a block, and the one with the greatest hash among
/// equally high ones.
pub proof fn stacks_chain_tip_is_selected()
    ensures
        says(sql::GET_STACKS_CHAIN_TIP@, "WHERE block_hash = $1"@),
        says(sql::GET_STACKS_CHAIN_TIP@, "ON parent.block_hash = child.parent_hash"@),
        says(sql::GET_STACKS_CHAIN_TIP@, r#"stacks_blocks.block_hash
              , stacks_blocks.block_height
              , stacks_blocks.parent_hash
              , stacks_blocks.bitcoin_anchor
            FROM context_window bitcoin_blocks
            JOIN sbtc_signer.stacks_blocks stacks_blocks
                ON bitcoin_blocks.block_hash = stacks_blocks.bitcoin_anchor
            ORDER BY block_height DESC, block_hash DESC
            LIMIT 1;"#@),
{
    reveal_strlit(r#"
            WITH RECURSIVE context_window AS (
                SELECT
                    block_hash
                  , block_height
                  , parent_hash
                FROM sbtc_signer.bitcoin_blocks
                WHERE block_hash = $1

                UNION ALL

                SELECT
                    parent.block_hash
                  , parent.block_height
                  , parent.parent_hash
                FROM sbtc_signer.bitcoin_blocks AS parent
                JOIN context_window AS child
                  ON parent.block_hash = child.parent_hash
            )
            SELECT
                stacks_blocks.block_hash
              , stacks_blocks.block_height
              , stacks_blocks.parent_hash
              , stacks_blocks.bitcoin_anchor
            FROM context_window bitcoin_blocks
            JOIN sbtc_signer.stacks_blocks stacks_blocks
                ON bitcoin_blocks.block_hash = stacks_blocks.bitcoin_anchor
            ORDER BY block_height DESC, block_hash DESC
            LIMIT 1;
            "#);
    reveal_strlit("WHERE block_hash = $1");
    assert(is_in(sql::GET_STACKS_CHAIN_TIP@, 231));
    reveal_strlit("ON parent.block_hash = child.parent_hash");
    assert(is_in(sql::GET_STACKS_CHAIN_TIP@, 542));
    reveal_strlit(r#"stacks_blocks.block_hash
              , stacks_blocks.block_height
              , stacks_blocks.parent_hash
              , stacks_blocks.bitcoin_anchor
            FROM context_window bitcoin_blocks
            JOIN sbtc_signer.stacks_blocks stacks_blocks
                ON bitcoin_blocks.block_hash = stacks_blocks.bitcoin_anchor
            ORDER BY block_height DESC, block_hash DESC
            LIMIT 1;"#);
    assert(is_in(sql::GET_STACKS_CHAIN_TIP@, 632));
}

/// The deposit requests in a window of blocks are selected on which a signer
/// has made no decision.
pub proof fn pending_deposits_are_selected()
    ensures
        says(sql::GET_PENDING_DEPOSIT_REQUESTS@, "WHERE block_hash = $1"@),
        says(sql::GET_PENDING_DEPOSIT_REQUESTS@, r#"JOIN context_window last ON parent.block_hash = last.parent_hash
                WHERE last.depth < $2"#@),
        says(sql::GET_PENDING_DEPOSIT_REQUESTS@, "transactions.block_hash = blocks_in_window.block_hash"@),
        says(sql::GET_PENDING_DEPOSIT_REQUESTS@, r#"deposit_requests.txid
              , deposit_requests.output_index
              , deposit_requests.spend_script
              , deposit_requests.reclaim_script
              , deposit_requests.recipient
              , deposit_requests.amount
              , deposit_requests.max_fee
              , deposit_requests.lock_time
              , deposit_requests.signers_public_key
              , deposit_requests.sender_script_pub_keys
            FROM transactions_in_window transactions
            JOIN sbtc_signer.deposit_requests AS deposit_requests USING (txid)
            LEFT JOIN sbtc_signer.deposit_signers AS ds
              ON ds.txid = deposit_requests.txid
             AND ds.output_index = deposit_requests.output_index
             AND ds.signer_pub_key = $3
            WHERE ds.txid IS NULL"#@),
{
    reveal_strlit(r#"
            WITH RECURSIVE context_window AS (
                -- Anchor member: Initialize the recursion with the chain tip
                SELECT block_hash, block_height, parent_hash, created_at, 1 AS depth
                FROM sbtc_signer.bitcoin_blocks
                WHERE block_hash = $1

                UNION ALL

                -- Recursive member: Fetch the parent block using the last block's parent_hash
                SELECT parent.block_hash, parent.block_height, parent.parent_hash,
                       parent.created_at, last.depth + 1
                FROM sbtc_signer.bitcoin_blocks parent
                JOIN context_window last ON parent.block_hash = last.parent_hash
                WHERE last.depth < $2
            ),
            transactions_in_window AS (
                SELECT transactions.txid
                FROM context_window blocks_in_window
                JOIN sbtc_signer.bitcoin_transactions transactions ON
                    transactions.block_hash = blocks_in_window.block_hash
            )
            SELECT
                deposit_requests.txid
              , deposit_requests.output_index
              , deposit_requests.spend_script
              , deposit_requests.reclaim_script
              , deposit_requests.recipient
              , deposit_requests.amount
              , deposit_requests.max_fee
              , deposit_requests.lock_time
              , deposit_requests.signers_public_key
              , deposit_requests.sender_script_pub_keys
            FROM transactions_in_window transactions
            JOIN sbtc_signer.deposit_requests AS deposit_requests USING (txid)
            LEFT JOIN sbtc_signer.deposit_signers AS ds
              ON ds.txid = deposit_requests.txid
             AND ds.output_index = deposit_requests.output_index
             AND ds.signer_pub_key = $3
            WHERE ds.txid IS NULL
            "#);
    reveal_strlit("WHERE block_hash = $1");
    assert(is_in(sql::GET_PENDING_DEPOSIT_REQUESTS@, 275));
    reveal_strlit(r#"JOIN context_window last ON parent.block_hash = last.parent_hash
                WHERE last.depth < $2"#);
    assert(is_in(sql::GET_PENDING_DEPOSIT_REQUESTS@, 631));
    reveal_strlit("transactions.block_hash = blocks_in_window.block_hash");
    assert(is_in(sql::GET_PENDING_DEPOSIT_REQUESTS@, 973));
    reveal_strlit(r#"deposit_requests.txid
              , deposit_requests.output_index
              , deposit_requests.spend_script
              , deposit_requests.reclaim_script
              , deposit_requests.recipient
              , deposit_requests.amount
              , deposit_requests.max_fee
              , deposit_requests.lock_time
              , deposit_requests.signers_public_key
              , deposit_requests.sender_script_pub_keys
            FROM transactions_in_window transactions
            JOIN sbtc_signer.deposit_requests AS deposit_requests USING (txid)
            LEFT JOIN sbtc_signer.deposit_signers AS ds
              ON ds.txid = deposit_requests.txid
             AND ds.output_index = deposit_requests.output_index
             AND ds.signer_pub_key = $3
            WHERE ds.txid IS NULL"#);
    assert(is_in(sql::GET_PENDING_DEPOSIT_REQUESTS@, 1076));
}

/// The deposit requests in a window of blocks are selected that enough signers
/// accept and can sign for, that stay locked long enough, and that no
/// transaction in the window spends.
pub proof fn accepted_deposits_are_selected()
    ensures
        says(sql::GET_PENDING_ACCEPTED_DEPOSIT_REQUESTS@, "FROM bitcoin_blockchain_of($1, $2) AS blocks_in_window"@),
        says(sql::GET_PENDING_ACCEPTED_DEPOSIT_REQUESTS@, r#"deposit_requests.txid
                  , deposit_requests.output_index
                  , deposit_requests.spend_script
                  , deposit_requests.reclaim_script
                  , deposit_requests.recipient
                  , deposit_requests.amount
                  , deposit_requests.max_fee
                  , deposit_requests.lock_time
                  , deposit_requests.signers_public_key
                  , deposit_requests.sender_script_pub_keys
                FROM transactions_in_window transactions
                JOIN sbtc_signer.deposit_requests deposit_requests USING(txid)
                JOIN sbtc_signer.deposit_signers signers USING(txid, output_index)
                WHERE
                    signers.can_accept
                    AND signers.can_sign
                    AND (transactions.block_height + deposit_requests.lock_time) >= $4
                GROUP BY deposit_requests.txid, deposit_requests.output_index
                HAVING COUNT(signers.txid) >= $3"#@),
        says(sql::GET_PENDING_ACCEPTED_DEPOSIT_REQUESTS@, r#"SELECT accepted_deposits.*
            FROM accepted_deposits
            LEFT JOIN sbtc_signer.bitcoin_tx_inputs AS bti
              ON bti.prevout_txid = accepted_deposits.txid
             AND bti.prevout_output_index = accepted_deposits.output_index
            LEFT JOIN transactions_in_window
              ON bti.txid = transactions_in_window.txid"#@),
        says(sql::GET_PENDING_ACCEPTED_DEPOSIT_REQUESTS@, r#"HAVING
                COUNT(transactions_in_window.txid) = 0"#@),
{
    reveal_strlit(r#"
            WITH transactions_in_window AS (
                SELECT
                    transactions.txid
                  , blocks_in_window.block_height
                FROM bitcoin_blockchain_of($1, $2) AS blocks_in_window
                JOIN sbtc_signer.bitcoin_transactions transactions ON
                    transactions.block_hash = blocks_in_window.block_hash
            ),
            -- First we get all the deposits that are accepted by enough signers
            accepted_deposits AS (
                SELECT
                    deposit_requests.txid
                  , deposit_requests.output_index
                  , deposit_requests.spend_script
                  , deposit_requests.reclaim_script
                  , deposit_requests.recipient
                  , deposit_requests.amount
                  , deposit_requests.max_fee
                  , deposit_requests.lock_time
                  , deposit_requests.signers_public_key
                  , deposit_requests.sender_script_pub_keys
                FROM transactions_in_window transactions
                JOIN sbtc_signer.deposit_requests deposit_requests USING(txid)
                JOIN sbtc_signer.deposit_signers signers USING(txid, output_index)
                WHERE
                    signers.can_accept
                    AND signers.can_sign
                    AND (transactions.block_height + deposit_requests.lock_time) >= $4
                GROUP BY deposit_requests.txid, deposit_requests.output_index
                HAVING COUNT(signers.txid) >= $3
            )
            -- Then we only consider the ones not swept yet (in the canonical chain)
            SELECT accepted_deposits.*
            FROM accepted_deposits
            LEFT JOIN sbtc_signer.bitcoin_tx_inputs AS bti
              ON bti.prevout_txid = accepted_deposits.txid
             AND bti.prevout_output_index = accepted_deposits.output_index
            LEFT JOIN transactions_in_window
              ON bti.txid = transactions_in_window.txid
            GROUP BY
                accepted_deposits.txid
              , accepted_deposits.output_index
              , accepted_deposits.spend_script
              , accepted_deposits.reclaim_script
              , accepted_deposits.recipient
              , accepted_deposits.amount
              , accepted_deposits.max_fee
              , accepted_deposits.lock_time
              , accepted_deposits.signers_public_key
              , accepted_deposits.sender_script_pub_keys
            HAVING
                COUNT(transactions_in_window.txid) = 0
            "#);
    reveal_strlit("FROM bitcoin_blockchain_of($1, $2) AS blocks_in_window");
    assert(is_in(sql::GET_PENDING_ACCEPTED_DEPOSIT_REQUESTS@, 173));
    reveal_strlit(r#"deposit_requests.txid
                  , deposit_requests.output_index
                  , deposit_requests.spend_script
                  , deposit_requests.reclaim_script
                  , deposit_requests.recipient
                  , deposit_requests.amount
                  , deposit_requests.max_fee
                  , deposit_requests.lock_time
                  , deposit_requests.signers_public_key
                  , deposit_requests.sender_script_pub_keys
                FROM transactions_in_window transactions
                JOIN sbtc_signer.deposit_requests deposit_requests USING(txid)
                JOIN sbtc_signer.deposit_signers signers USING(txid, output_index)
                WHERE
                    signers.can_accept
                    AND signers.can_sign
                    AND (transactions.block_height + deposit_requests.lock_time) >= $4
                GROUP BY deposit_requests.txid, deposit_requests.output_index
                HAVING COUNT(signers.txid) >= $3"#);
    assert(is_in(sql::GET_PENDING_ACCEPTED_DEPOSIT_REQUESTS@, 546));
    reveal_strlit(r#"SELECT accepted_deposits.*
            FROM accepted_deposits
            LEFT JOIN sbtc_signer.bitcoin_tx_inputs AS bti
              ON bti.prevout_txid = accepted_deposits.txid
             AND bti.prevout_output_index = accepted_deposits.output_index
            LEFT JOIN transactions_in_window
              ON bti.txid = transactions_in_window.txid"#);
    assert(is_in(sql::GET_PENDING_ACCEPTED_DEPOSIT_REQUESTS@, 1665));
    reveal_strlit(r#"HAVING
                COUNT(transactions_in_window.txid) = 0"#);
    assert(is_in(sql::GET_PENDING_ACCEPTED_DEPOSIT_REQUESTS@, 2517));
}

/// Every member of the set that made a key is selected, with its vote on a
/// deposit request if it made one: to accept and be able to sign.
pub proof fn deposit_votes_are_selected()
    ensures
        says(sql::GET_DEPOSIT_REQUEST_SIGNER_VOTES@, r#"SELECT DISTINCT UNNEST(signer_set_public_keys) AS signer_public_key
                FROM sbtc_signer.dkg_shares
                WHERE aggregate_key = $1"#@),
        says(sql::GET_DEPOSIT_REQUEST_SIGNER_VOTES@, r#"signer_pub_key AS signer_public_key
                  , can_accept AND can_sign AS is_accepted
                FROM sbtc_signer.deposit_signers AS ds
                WHERE TRUE
                  AND ds.txid = $2
                  AND ds.output_index = $3"#@),
        says(sql::GET_DEPOSIT_REQUEST_SIGNER_VOTES@, r#"FROM signer_set_rows AS ss
            LEFT JOIN deposit_votes AS ds USING(signer_public_key)"#@),
{
    reveal_strlit(r#"
            WITH signer_set_rows AS (
                SELECT DISTINCT UNNEST(signer_set_public_keys) AS signer_public_key
                FROM sbtc_signer.dkg_shares
                WHERE aggregate_key = $1
            ),
            deposit_votes AS (
                SELECT
                    signer_pub_key AS signer_public_key
                  , can_accept AND can_sign AS is_accepted
                FROM sbtc_signer.deposit_signers AS ds
                WHERE TRUE
                  AND ds.txid = $2
                  AND ds.output_index = $3
            )
            SELECT
                signer_public_key
              , is_accepted
            FROM signer_set_rows AS ss
            LEFT JOIN deposit_votes AS ds USING(signer_public_key)
            "#);
    reveal_strlit(r#"SELECT DISTINCT UNNEST(signer_set_public_keys) AS signer_public_key
                FROM sbtc_signer.dkg_shares
                WHERE aggregate_key = $1"#);
    assert(is_in(sql::GET_DEPOSIT_REQUEST_SIGNER_VOTES@, 55));
    reveal_strlit(r#"signer_pub_key AS signer_public_key
                  , can_accept AND can_sign AS is_accepted
                FROM sbtc_signer.deposit_signers AS ds
                WHERE TRUE
                  AND ds.txid = $2
                  AND ds.output_index = $3"#);
    assert(is_in(sql::GET_DEPOSIT_REQUEST_SIGNER_VOTES@, 297));
    reveal_strlit(r#"FROM signer_set_rows AS ss
            LEFT JOIN deposit_votes AS ds USING(signer_public_key)"#);
    assert(is_in(sql::GET_DEPOSIT_REQUEST_SIGNER_VOTES@, 659));
}

/// Every member of the set that made a key is selected, with its vote on a
/// withdrawal request if it made one.
pub proof fn withdrawal_votes_are_selected()
    ensures
        says(sql::GET_WITHDRAWAL_REQUEST_SIGNER_VOTES@, r#"SELECT DISTINCT UNNEST(signer_set_public_keys) AS signer_public_key
                FROM sbtc_signer.dkg_shares
                WHERE aggregate_key = $1"#@),
        says(sql::GET_WITHDRAWAL_REQUEST_SIGNER_VOTES@, r#"signer_pub_key AS signer_public_key
                  , is_accepted
                FROM sbtc_signer.withdrawal_signers AS ws
                WHERE TRUE
                  AND ws.txid = $2
                  AND ws.block_hash = $3
                  AND ws.request_id = $4"#@),
        says(sql::GET_WITHDRAWAL_REQUEST_SIGNER_VOTES@, r#"FROM signer_set_rows AS ss
            LEFT JOIN withdrawal_votes AS wv USING(signer_public_key)"#@),
{
    reveal_strlit(r#"
            WITH signer_set_rows AS (
                SELECT DISTINCT UNNEST(signer_set_public_keys) AS signer_public_key
                FROM sbtc_signer.dkg_shares
                WHERE aggregate_key = $1
            ),
            withdrawal_votes AS (
                SELECT
                    signer_pub_key AS signer_public_key
                  , is_accepted
                FROM sbtc_signer.withdrawal_signers AS ws
                WHERE TRUE
                  AND ws.txid = $2
                  AND ws.block_hash = $3
                  AND ws.request_id = $4
            )
            SELECT
                signer_public_key
              , is_accepted
            FROM signer_set_rows AS ss
            LEFT JOIN withdrawal_votes AS wv USING(signer_public_key)
            "#);
    reveal_strlit(r#"SELECT DISTINCT UNNEST(signer_set_public_keys) AS signer_public_key
                FROM sbtc_signer.dkg_shares
                WHERE aggregate_key = $1"#);
    assert(is_in(sql::GET_WITHDRAWAL_REQUEST_SIGNER_VOTES@, 55));
    reveal_strlit(r#"signer_pub_key AS signer_public_key
                  , is_accepted
                FROM sbtc_signer.withdrawal_signers AS ws
                WHERE TRUE
                  AND ws.txid = $2
                  AND ws.block_hash = $3
                  AND ws.request_id = $4"#);
    assert(is_in(sql::GET_WITHDRAWAL_REQUEST_SIGNER_VOTES@, 300));
    reveal_strlit(r#"FROM signer_set_rows AS ss
            LEFT JOIN withdrawal_votes AS wv USING(signer_public_key)"#);
    assert(is_in(sql::GET_WITHDRAWAL_REQUEST_SIGNER_VOTES@, 677));
}

/// The decisions on a deposit request are selected.
pub proof fn deposit_decisions_are_selected()
    ensures
        says(sql::GET_DEPOSIT_SIGNERS@, r#"SELECT
                txid
              , output_index
              , signer_pub_key
              , can_accept
              , can_sign
            FROM sbtc_signer.deposit_signers
            WHERE txid = $1 AND output_index = $2"#@),
{
    reveal_strlit("SELECT
                txid
              , output_index
              , signer_pub_key
              , can_accept
              , can_sign
            FROM sbtc_signer.deposit_signers
            WHERE txid = $1 AND output_index = $2");
    reveal_strlit(r#"SELECT
                txid
              , output_index
              , signer_pub_key
              , can_accept
              , can_sign
            FROM sbtc_signer.deposit_signers
            WHERE txid = $1 AND output_index = $2"#);
    assert(is_in(sql::GET_DEPOSIT_SIGNERS@, 0));
}

/// The decisions on a withdrawal request are selected.
pub proof fn withdrawal_decisions_are_selected()
    ensures
        says(sql::GET_WITHDRAWAL_SIGNERS@, r#"SELECT
                request_id
              , txid
              , block_hash
              , signer_pub_key
              , is_accepted
              , created_at
            FROM sbtc_signer.withdrawal_signers
            WHERE request_id = $1 AND block_hash = $2"#@),
{
    reveal_strlit("SELECT
                request_id
              , txid
              , block_hash
              , signer_pub_key
              , is_accepted
              , created_at
            FROM sbtc_signer.withdrawal_signers
            WHERE request_id = $1 AND block_hash = $2");
    reveal_strlit(r#"SELECT
                request_id
              , txid
              , block_hash
              , signer_pub_key
              , is_accepted
              , created_at
            FROM sbtc_signer.withdrawal_signers
            WHERE request_id = $1 AND block_hash = $2"#);
    assert(is_in(sql::GET_WITHDRAWAL_SIGNERS@, 0));
}

/// Whether a key that locks a deposit is among those that a signer is a party
/// to is told.
pub proof fn party_to_deposit_is_told()
    ensures
        says(sql::CAN_SIGN_DEPOSIT_TX@, r#"SELECT substring(aggregate_key FROM 2) AS signers_public_key
                FROM sbtc_signer.dkg_shares AS ds
                WHERE $3 = ANY(signer_set_public_keys)"#@),
        says(sql::CAN_SIGN_DEPOSIT_TX@, r#"SELECT xo.signers_public_key IS NOT NULL
            FROM sbtc_signer.deposit_requests AS dr
            LEFT JOIN x_only_public_keys AS xo USING (signers_public_key)
            WHERE dr.txid = $1
              AND dr.output_index = $2
            LIMIT 1"#@),
{
    reveal_strlit(r#"
            WITH x_only_public_keys AS (
                -- These are the aggregate public keys that this signer is
                -- a party on. We lop off the first byte because we want
                -- x-only aggregate keys here.
                SELECT substring(aggregate_key FROM 2) AS signers_public_key
                FROM sbtc_signer.dkg_shares AS ds
                WHERE $3 = ANY(signer_set_public_keys)
            )
            SELECT xo.signers_public_key IS NOT NULL
            FROM sbtc_signer.deposit_requests AS dr
            LEFT JOIN x_only_public_keys AS xo USING (signers_public_key)
            WHERE dr.txid = $1
              AND dr.output_index = $2
            LIMIT 1
            "#);
    reveal_strlit(r#"SELECT substring(aggregate_key FROM 2) AS signers_public_key
                FROM sbtc_signer.dkg_shares AS ds
                WHERE $3 = ANY(signer_set_public_keys)"#);
    assert(is_in(sql::CAN_SIGN_DEPOSIT_TX@, 253));
    reveal_strlit(r#"SELECT xo.signers_public_key IS NOT NULL
            FROM sbtc_signer.deposit_requests AS dr
            LEFT JOIN x_only_public_keys AS xo USING (signers_public_key)
            WHERE dr.txid = $1
              AND dr.output_index = $2
            LIMIT 1"#);
    assert(is_in(sql::CAN_SIGN_DEPOSIT_TX@, 445));
}

/// A deposit request is looked for by its output.
pub proof fn deposit_request_is_looked_for()
    ensures
        says(sql::DEPOSIT_REQUEST_EXISTS@, r#"SELECT EXISTS (
                SELECT TRUE
                FROM sbtc_signer.deposit_requests AS dr
                WHERE dr.txid = $1
                  AND dr.output_index = $2"#@),
{
    reveal_strlit(r#"
            SELECT EXISTS (
                SELECT TRUE
                FROM sbtc_signer.deposit_requests AS dr
                WHERE dr.txid = $1
                  AND dr.output_index = $2
            )
            "#);
    reveal_strlit(r#"SELECT EXISTS (
                SELECT TRUE
                FROM sbtc_signer.deposit_requests AS dr
                WHERE dr.txid = $1
                  AND dr.output_index = $2"#);
    assert(is_in(sql::DEPOSIT_REQUEST_EXISTS@, 13));
}

/// The withdrawal requests in a window of blocks are selected on which a signer
/// has made no decision.
pub proof fn pending_withdrawals_are_selected()
    ensures
        says(sql::GET_PENDING_WITHDRAWAL_REQUESTS@, "WHERE block_hash = $1"@),
        says(sql::GET_PENDING_WITHDRAWAL_REQUESTS@, "WHERE last.depth <= $3"@),
        says(sql::GET_PENDING_WITHDRAWAL_REQUESTS@, "WHERE stacks_blocks.block_hash = $2"@),
        says(sql::GET_PENDING_WITHDRAWAL_REQUESTS@, r#"JOIN stacks_context_window last
                        ON parent.block_hash = last.parent_hash
                JOIN extended_context_window block
                        ON block.block_hash = parent.bitcoin_anchor"#@),
        says(sql::GET_PENDING_WITHDRAWAL_REQUESTS@, r#"wr.request_id
              , wr.txid
              , wr.block_hash
              , wr.recipient
              , wr.amount
              , wr.max_fee
              , wr.sender_address
              , wr.bitcoin_block_height
            FROM sbtc_signer.withdrawal_requests wr
            JOIN stacks_context_window sc USING (block_hash)
            LEFT JOIN sbtc_signer.withdrawal_signers AS ws
              ON ws.request_id = wr.request_id
             AND ws.block_hash = wr.block_hash
             AND ws.signer_pub_key = $4
            WHERE ws.request_id IS NULL"#@),
{
    reveal_strlit(r#"
            WITH RECURSIVE extended_context_window AS (
                SELECT
                    block_hash
                  , parent_hash
                  , 1 AS depth
                FROM sbtc_signer.bitcoin_blocks
                WHERE block_hash = $1

                UNION ALL

                SELECT
                    parent.block_hash
                  , parent.parent_hash
                  , last.depth + 1
                FROM sbtc_signer.bitcoin_blocks parent
                JOIN extended_context_window last ON parent.block_hash = last.parent_hash
                WHERE last.depth <= $3
            ),
            stacks_context_window AS (
                SELECT
                    stacks_blocks.block_hash
                  , stacks_blocks.block_height
                  , stacks_blocks.parent_hash
                FROM sbtc_signer.stacks_blocks stacks_blocks
                WHERE stacks_blocks.block_hash = $2

                UNION ALL

                SELECT
                    parent.block_hash
                  , parent.block_height
                  , parent.parent_hash
                FROM sbtc_signer.stacks_blocks parent
                JOIN stacks_context_window last
                        ON parent.block_hash = last.parent_hash
                JOIN extended_context_window block
                        ON block.block_hash = parent.bitcoin_anchor
            )
            SELECT
                wr.request_id
              , wr.txid
              , wr.block_hash
              , wr.recipient
              , wr.amount
              , wr.max_fee
              , wr.sender_address
              , wr.bitcoin_block_height
            FROM sbtc_signer.withdrawal_requests wr
            JOIN stacks_context_window sc USING (block_hash)
            LEFT JOIN sbtc_signer.withdrawal_signers AS ws
              ON ws.request_id = wr.request_id
             AND ws.block_hash = wr.block_hash
             AND ws.signer_pub_key = $4
            WHERE ws.request_id IS NULL
            "#);
    reveal_strlit("WHERE block_hash = $1");
    assert(is_in(sql::GET_PENDING_WITHDRAWAL_REQUESTS@, 238));
    reveal_strlit("WHERE last.depth <= $3");
    assert(is_in(sql::GET_PENDING_WITHDRAWAL_REQUESTS@, 584));
    reveal_strlit("WHERE stacks_blocks.block_hash = $2");
    assert(is_in(sql::GET_PENDING_WITHDRAWAL_REQUESTS@, 899));
    reveal_strlit(r#"JOIN stacks_context_window last
                        ON parent.block_hash = last.parent_hash
                JOIN extended_context_window block
                        ON block.block_hash = parent.bitcoin_anchor"#);
    assert(is_in(sql::GET_PENDING_WITHDRAWAL_REQUESTS@, 1173));
    reveal_strlit(r#"wr.request_id
              , wr.txid
              , wr.block_hash
              , wr.recipient
              , wr.amount
              , wr.max_fee
              , wr.sender_address
              , wr.bitcoin_block_height
            FROM sbtc_signer.withdrawal_requests wr
            JOIN stacks_context_window sc USING (block_hash)
            LEFT JOIN sbtc_signer.withdrawal_signers AS ws
              ON ws.request_id = wr.request_id
             AND ws.block_hash = wr.block_hash
             AND ws.signer_pub_key = $4
            WHERE ws.request_id IS NULL"#);
    assert(is_in(sql::GET_PENDING_WITHDRAWAL_REQUESTS@, 1437));
}

/// The withdrawal requests from a height on that lie on the stacks blockchain
/// are selected, in the order of their numbers, if enough signers accept them
/// and they are neither paid on the bitcoin blockchain nor rejected on the
/// stacks blockchain.
pub proof fn accepted_withdrawals_are_selected()
    ensures
        says(sql::GET_PENDING_ACCEPTED_WITHDRAWAL_REQUESTS@, "WHERE wr.bitcoin_block_height >= $3"@),
        says(sql::GET_PENDING_ACCEPTED_WITHDRAWAL_REQUESTS@, "FROM bitcoin_blockchain_until($1, $3 - 1)"@),
        says(sql::GET_PENDING_ACCEPTED_WITHDRAWAL_REQUESTS@, "WHERE stacks_blocks.block_hash = $2"@),
        says(sql::GET_PENDING_ACCEPTED_WITHDRAWAL_REQUESTS@, r#"JOIN stacks_blockchain last
                    ON parent.block_hash = last.parent_hash
                JOIN bitcoin_blockchain anchor
                    ON anchor.block_hash = parent.bitcoin_anchor"#@),
        says(sql::GET_PENDING_ACCEPTED_WITHDRAWAL_REQUESTS@, r#"JOIN sbtc_signer.withdrawal_signers signers ON
                wr.request_id = signers.request_id
                AND wr.block_hash = signers.block_hash
                AND signers.is_accepted = TRUE"#@),
        says(sql::GET_PENDING_ACCEPTED_WITHDRAWAL_REQUESTS@, r#"JOIN stacks_blockchain canonical_confirmed
                ON wr.block_hash = canonical_confirmed.block_hash"#@),
        says(sql::GET_PENDING_ACCEPTED_WITHDRAWAL_REQUESTS@, r#"LEFT JOIN bitcoin_blockchain AS canonical_sweep
                ON wr.sweep_block_hash = canonical_sweep.block_hash"#@),
        says(sql::GET_PENDING_ACCEPTED_WITHDRAWAL_REQUESTS@, r#"LEFT JOIN stacks_blockchain AS canonical_reject
                ON wr.reject_block_hash = canonical_reject.block_hash"#@),
        says(sql::GET_PENDING_ACCEPTED_WITHDRAWAL_REQUESTS@, r#"HAVING
                -- Ensure there are enough 'yes' votes.
                COUNT(DISTINCT signers.signer_pub_key) >= $4
                -- Ensure there are no confirmed sweep transactions.
                AND COUNT(canonical_sweep.block_hash) = 0
                -- Ensure there are no confirmed reject contract-calls.
                AND COUNT(canonical_reject.block_hash) = 0

            ORDER BY
                wr.request_id ASC"#@),
{
    reveal_strlit(r#"
            -- get_pending_accepted_withdrawal_requests
            WITH recursive

            -- Get all withdrawal requests which have a bitcoin block height
            -- of at least minimum height provided.
            requests AS (
                SELECT
                    wr.request_id
                  , wr.txid
                  , wr.block_hash
                  , wr.recipient
                  , wr.amount
                  , wr.max_fee
                  , wr.sender_address
                  , wr.bitcoin_block_height
                  , bt.block_hash as sweep_block_hash
                  , wre.block_hash as reject_block_hash
                FROM sbtc_signer.withdrawal_requests wr

                -- Join in any sweep transactions we know about.
                LEFT JOIN sbtc_signer.bitcoin_withdrawals_outputs bwo
                    ON bwo.request_id = wr.request_id
                    AND bwo.stacks_block_hash = wr.block_hash
                LEFT JOIN sbtc_signer.bitcoin_transactions bt
                    ON bt.txid = bwo.bitcoin_txid

                -- Join in any rejection events we know about.
                LEFT JOIN sbtc_signer.withdrawal_reject_events AS wre
                    ON wre.request_id = wr.request_id

                -- Only requests where the bitcoin height is >= than the minimum.
                WHERE wr.bitcoin_block_height >= $3
            ),

            -- Fetch the canonical bitcoin blockchain from the chain tip back
            -- to the lowest bitcoin block height of the requests.
            bitcoin_blockchain AS (
                SELECT
                    block_hash
                  , block_height
                FROM bitcoin_blockchain_until($1, $3 - 1)
            ),

            -- Fetch the canonical stacks blockchain from the chain tip back
            -- to the anchor block with the lowest bitcoin block height of all of
            -- the requests.
            stacks_blockchain AS (
                SELECT
                    stacks_blocks.block_hash
                  , stacks_blocks.block_height
                  , stacks_blocks.parent_hash
                FROM sbtc_signer.stacks_blocks stacks_blocks
                WHERE stacks_blocks.block_hash = $2

                UNION ALL

                SELECT
                    parent.block_hash
                  , parent.block_height
                  , parent.parent_hash
                FROM sbtc_signer.stacks_blocks parent
                JOIN stacks_blockchain last
                    ON parent.block_hash = last.parent_hash
                JOIN bitcoin_blockchain anchor
                    ON anchor.block_hash = parent.bitcoin_anchor
            )

            -- Main select clause (what we're returning).
            SELECT
                wr.request_id
              , wr.txid
              , wr.block_hash
              , wr.recipient
              , wr.amount
              , wr.max_fee
              , wr.sender_address
              , wr.bitcoin_block_height

            -- We start the query from the `requests` CTE.
            FROM requests wr

            -- Return a row for each signer vote.
            JOIN sbtc_signer.withdrawal_signers signers ON
                wr.request_id = signers.request_id
                AND wr.block_hash = signers.block_hash
                AND signers.is_accepted = TRUE

            -- Ensure the request is confirmed on the canonical stacks chain
            JOIN stacks_blockchain canonical_confirmed
                ON wr.block_hash = canonical_confirmed.block_hash

            -- Are there any confirmed sweep transactions?
            LEFT JOIN bitcoin_blockchain AS canonical_sweep
                ON wr.sweep_block_hash = canonical_sweep.block_hash

            -- Are there any confirmed reject transactions?
            LEFT JOIN stacks_blockchain AS canonical_reject
                ON wr.reject_block_hash = canonical_reject.block_hash

            GROUP BY
                wr.request_id
              , wr.block_hash
              , wr.txid
              , wr.recipient
              , wr.amount
              , wr.max_fee
              , wr.sender_address
              , wr.bitcoin_block_height

            HAVING
                -- Ensure there are enough 'yes' votes.
                COUNT(DISTINCT signers.signer_pub_key) >= $4
                -- Ensure there are no confirmed sweep transactions.
                AND COUNT(canonical_sweep.block_hash) = 0
                -- Ensure there are no confirmed reject contract-calls.
                AND COUNT(canonical_reject.block_hash) = 0

            ORDER BY
                wr.request_id ASC
            "#);
    reveal_strlit("WHERE wr.bitcoin_block_height >= $3");
    assert(is_in(sql::GET_PENDING_ACCEPTED_WITHDRAWAL_REQUESTS@, 1352));
    reveal_strlit("FROM bitcoin_blockchain_until($1, $3 - 1)");
    assert(is_in(sql::GET_PENDING_ACCEPTED_WITHDRAWAL_REQUESTS@, 1688));
    reveal_strlit("WHERE stacks_blocks.block_hash = $2");
    assert(is_in(sql::GET_PENDING_ACCEPTED_WITHDRAWAL_REQUESTS@, 2207));
    reveal_strlit(r#"JOIN stacks_blockchain last
                    ON parent.block_hash = last.parent_hash
                JOIN bitcoin_blockchain anchor
                    ON anchor.block_hash = parent.bitcoin_anchor"#);
    assert(is_in(sql::GET_PENDING_ACCEPTED_WITHDRAWAL_REQUESTS@, 2481));
    reveal_strlit(r#"JOIN sbtc_signer.withdrawal_signers signers ON
                wr.request_id = signers.request_id
                AND wr.block_hash = signers.block_hash
                AND signers.is_accepted = TRUE"#);
    assert(is_in(sql::GET_PENDING_ACCEPTED_WITHDRAWAL_REQUESTS@, 3165));
    reveal_strlit(r#"JOIN stacks_blockchain canonical_confirmed
                ON wr.block_hash = canonical_confirmed.block_hash"#);
    assert(is_in(sql::GET_PENDING_ACCEPTED_WITHDRAWAL_REQUESTS@, 3455));
    reveal_strlit(r#"LEFT JOIN bitcoin_blockchain AS canonical_sweep
                ON wr.sweep_block_hash = canonical_sweep.block_hash"#);
    assert(is_in(sql::GET_PENDING_ACCEPTED_WITHDRAWAL_REQUESTS@, 3636));
    reveal_strlit(r#"LEFT JOIN stacks_blockchain AS canonical_reject
                ON wr.reject_block_hash = canonical_reject.block_hash"#);
    assert(is_in(sql::GET_PENDING_ACCEPTED_WITHDRAWAL_REQUESTS@, 3825));
    reveal_strlit(r#"HAVING
                -- Ensure there are enough 'yes' votes.
                COUNT(DISTINCT signers.signer_pub_key) >= $4
                -- Ensure there are no confirmed sweep transactions.
                AND COUNT(canonical_sweep.block_hash) = 0
                -- Ensure there are no confirmed reject contract-calls.
                AND COUNT(canonical_reject.block_hash) = 0

            ORDER BY
                wr.request_id ASC"#);
    assert(is_in(sql::GET_PENDING_ACCEPTED_WITHDRAWAL_REQUESTS@, 4218));
}

/// The withdrawal requests in a window of blocks that were made below a height
/// are selected, if they are neither paid on the bitcoin blockchain nor
/// rejected on the stacks blockchain.
pub proof fn rejected_withdrawals_are_selected()
    ensures
        says(sql::GET_PENDING_REJECTED_WITHDRAWAL_REQUESTS@, "FROM bitcoin_blockchain_of($1, $2)"@),
        says(sql::GET_PENDING_REJECTED_WITHDRAWAL_REQUESTS@, "WHERE stacks_blocks.block_hash = $3"@),
        says(sql::GET_PENDING_REJECTED_WITHDRAWAL_REQUESTS@, "WHERE block.block_height >= (SELECT MIN(block_height) FROM bitcoin_blockchain)"@),
        says(sql::GET_PENDING_REJECTED_WITHDRAWAL_REQUESTS@, "JOIN stacks_context_window sc ON wr.block_hash = sc.block_hash"@),
        says(sql::GET_PENDING_REJECTED_WITHDRAWAL_REQUESTS@, r#"LEFT JOIN sbtc_signer.bitcoin_withdrawals_outputs AS bwo
                ON bwo.request_id = wr.request_id
                AND bwo.stacks_block_hash = wr.block_hash
            LEFT JOIN bitcoin_transactions AS bc_trx
                ON bc_trx.txid = bwo.bitcoin_txid
            LEFT JOIN bitcoin_blockchain
                ON bc_trx.block_hash = bitcoin_blockchain.block_hash
            -- Request not rejected
            LEFT JOIN withdrawal_reject_events AS wre
                ON wre.request_id = wr.request_id
            LEFT JOIN stacks_context_window sc2
                ON wre.block_hash = sc2.block_hash
            -- Request is expired
            WHERE wr.bitcoin_block_height < $4"#@),
        says(sql::GET_PENDING_REJECTED_WITHDRAWAL_REQUESTS@, r#"HAVING
                -- Request not accepted (cont'd)
                COUNT(bitcoin_blockchain.block_height) = 0
                -- Request not rejected (cont'd)
            AND COUNT(sc2.block_hash) = 0"#@),
{
    reveal_strlit(r#"
            -- get_pending_rejected_withdrawal_requests
            WITH RECURSIVE bitcoin_blockchain AS (
                SELECT
                    block_hash
                  , block_height
                FROM bitcoin_blockchain_of($1, $2)
            ),
            stacks_context_window AS (
                SELECT
                    stacks_blocks.block_hash
                  , stacks_blocks.block_height
                  , stacks_blocks.parent_hash
                FROM sbtc_signer.stacks_blocks stacks_blocks
                WHERE stacks_blocks.block_hash = $3

                UNION ALL

                SELECT
                    parent.block_hash
                  , parent.block_height
                  , parent.parent_hash
                FROM sbtc_signer.stacks_blocks parent
                JOIN stacks_context_window last
                  ON parent.block_hash = last.parent_hash
                -- Limit the recursion to the bitcoin context window height. We
                -- are not joining directly on `bitcoin_blockchain` as once we
                -- get the stacks chain tip considering its anchor block, then
                -- we can just walk backwards.
                JOIN sbtc_signer.bitcoin_blocks block
                  ON block.block_hash = parent.bitcoin_anchor
                WHERE block.block_height >= (SELECT MIN(block_height) FROM bitcoin_blockchain)
            )
            SELECT
                wr.request_id
              , wr.txid
              , wr.block_hash
              , wr.recipient
              , wr.amount
              , wr.max_fee
              , wr.sender_address
              , wr.bitcoin_block_height
            FROM sbtc_signer.withdrawal_requests wr
            -- Request confirmed on stacks chain
            JOIN stacks_context_window sc ON wr.block_hash = sc.block_hash
            -- Request not accepted
            LEFT JOIN sbtc_signer.bitcoin_withdrawals_outputs AS bwo
                ON bwo.request_id = wr.request_id
                AND bwo.stacks_block_hash = wr.block_hash
            LEFT JOIN bitcoin_transactions AS bc_trx
                ON bc_trx.txid = bwo.bitcoin_txid
            LEFT JOIN bitcoin_blockchain
                ON bc_trx.block_hash = bitcoin_blockchain.block_hash
            -- Request not rejected
            LEFT JOIN withdrawal_reject_events AS wre
                ON wre.request_id = wr.request_id
            LEFT JOIN stacks_context_window sc2
                ON wre.block_hash = sc2.block_hash
            -- Request is expired
            WHERE wr.bitcoin_block_height < $4

            -- we need to group since we could have multiple withdrawals
            -- outputs for a single request, and some of them may not be in
            -- the canonical chain, resulting in a NULL bc_trx.block_hash;
            -- so we group and check that all the rows have NULL
            GROUP BY
                wr.request_id
              , wr.txid
              , wr.block_hash
              , wr.recipient
              , wr.amount
              , wr.max_fee
              , wr.sender_address
              , wr.bitcoin_block_height
            HAVING
                -- Request not accepted (cont'd)
                COUNT(bitcoin_blockchain.block_height) = 0
                -- Request not rejected (cont'd)
            AND COUNT(sc2.block_hash) = 0
            "#);
    reveal_strlit("FROM bitcoin_blockchain_of($1, $2)");
    assert(is_in(sql::GET_PENDING_REJECTED_WITHDRAWAL_REQUESTS@, 211));
    reveal_strlit("WHERE stacks_blocks.block_hash = $3");
    assert(is_in(sql::GET_PENDING_REJECTED_WITHDRAWAL_REQUESTS@, 538));
    reveal_strlit("WHERE block.block_height >= (SELECT MIN(block_height) FROM bitcoin_blockchain)");
    assert(is_in(sql::GET_PENDING_REJECTED_WITHDRAWAL_REQUESTS@, 1319));
    reveal_strlit("JOIN stacks_context_window sc ON wr.block_hash = sc.block_hash");
    assert(is_in(sql::GET_PENDING_REJECTED_WITHDRAWAL_REQUESTS@, 1784));
    reveal_strlit(r#"LEFT JOIN sbtc_signer.bitcoin_withdrawals_outputs AS bwo
                ON bwo.request_id = wr.request_id
                AND bwo.stacks_block_hash = wr.block_hash
            LEFT JOIN bitcoin_transactions AS bc_trx
                ON bc_trx.txid = bwo.bitcoin_txid
            LEFT JOIN bitcoin_blockchain
                ON bc_trx.block_hash = bitcoin_blockchain.block_hash
            -- Request not rejected
            LEFT JOIN withdrawal_reject_events AS wre
                ON wre.request_id = wr.request_id
            LEFT JOIN stacks_context_window sc2
                ON wre.block_hash = sc2.block_hash
            -- Request is expired
            WHERE wr.bitcoin_block_height < $4"#);
    assert(is_in(sql::GET_PENDING_REJECTED_WITHDRAWAL_REQUESTS@, 1895));
    reveal_strlit(r#"HAVING
                -- Request not accepted (cont'd)
                COUNT(bitcoin_blockchain.block_height) = 0
                -- Request not rejected (cont'd)
            AND COUNT(sc2.block_hash) = 0"#);
    assert(is_in(sql::GET_PENDING_REJECTED_WITHDRAWAL_REQUESTS@, 3156));
}

/// The outputs that pay withdrawals in a window of blocks are added up.
pub proof fn withdrawals_are_summed_up()
    ensures
        says(sql::COMPUTE_WITHDRAWN_TOTAL@, r#"SELECT SUM(bto.amount)::BIGINT
            FROM sbtc_signer.bitcoin_tx_outputs AS bto
            JOIN sbtc_signer.bitcoin_transactions AS bt
              ON bt.txid = bto.txid
            JOIN bitcoin_blockchain_of($1, $2) AS bbo
              ON bbo.block_hash = bt.block_hash
            WHERE bto.output_type = 'withdrawal'"#@),
{
    reveal_strlit(r#"
            SELECT SUM(bto.amount)::BIGINT
            FROM sbtc_signer.bitcoin_tx_outputs AS bto
            JOIN sbtc_signer.bitcoin_transactions AS bt
              ON bt.txid = bto.txid
            JOIN bitcoin_blockchain_of($1, $2) AS bbo
              ON bbo.block_hash = bt.block_hash
            WHERE bto.output_type = 'withdrawal'
            "#);
    reveal_strlit(r#"SELECT SUM(bto.amount)::BIGINT
            FROM sbtc_signer.bitcoin_tx_outputs AS bto
            JOIN sbtc_signer.bitcoin_transactions AS bt
              ON bt.txid = bto.txid
            JOIN bitcoin_blockchain_of($1, $2) AS bbo
              ON bbo.block_hash = bt.block_hash
            WHERE bto.output_type = 'withdrawal'"#);
    assert(is_in(sql::COMPUTE_WITHDRAWN_TOTAL@, 13));
}

/// The blocks that confirm a transaction are selected.
pub proof fn blocks_with_transaction_are_selected()
    ensures
        says(sql::GET_BITCOIN_BLOCKS_WITH_TRANSACTION@, "SELECT txid, block_hash FROM sbtc_signer.bitcoin_transactions WHERE txid = $1"@),
{
    reveal_strlit("SELECT txid, block_hash FROM sbtc_signer.bitcoin_transactions WHERE txid = $1");
    reveal_strlit("SELECT txid, block_hash FROM sbtc_signer.bitcoin_transactions WHERE txid = $1");
    assert(is_in(sql::GET_BITCOIN_BLOCKS_WITH_TRANSACTION@, 0));
}

/// A stacks block is looked for by its hash.
pub proof fn stacks_block_is_looked_for()
    ensures
        says(sql::STACKS_BLOCK_EXISTS@, r#"SELECT TRUE AS exists
            FROM sbtc_signer.stacks_blocks
            WHERE block_hash = $1;"#@),
{
    reveal_strlit(r#"
            SELECT TRUE AS exists
            FROM sbtc_signer.stacks_blocks
            WHERE block_hash = $1;"#);
    reveal_strlit(r#"SELECT TRUE AS exists
            FROM sbtc_signer.stacks_blocks
            WHERE block_hash = $1;"#);
    assert(is_in(sql::STACKS_BLOCK_EXISTS@, 13));
}

/// Shares are selected by the x-coordinate of their key.
pub proof fn shares_are_selected()
    ensures
        says(sql::GET_ENCRYPTED_DKG_SHARES@, r#"SELECT
                aggregate_key
              , tweaked_aggregate_key
              , script_pubkey
              , encrypted_private_shares
              , public_shares
              , signer_set_public_keys
              , signature_share_threshold
              , dkg_shares_status
              , started_at_bitcoin_block_hash
              , started_at_bitcoin_block_height
            FROM sbtc_signer.dkg_shares
            WHERE substring(aggregate_key FROM 2) = $1;"#@),
{
    reveal_strlit(r#"
            SELECT
                aggregate_key
              , tweaked_aggregate_key
              , script_pubkey
              , encrypted_private_shares
              , public_shares
              , signer_set_public_keys
              , signature_share_threshold
              , dkg_shares_status
              , started_at_bitcoin_block_hash
              , started_at_bitcoin_block_height
            FROM sbtc_signer.dkg_shares
            WHERE substring(aggregate_key FROM 2) = $1;
            "#);
    reveal_strlit(r#"SELECT
                aggregate_key
              , tweaked_aggregate_key
              , script_pubkey
              , encrypted_private_shares
              , public_shares
              , signer_set_public_keys
              , signature_share_threshold
              , dkg_shares_status
              , started_at_bitcoin_block_hash
              , started_at_bitcoin_block_height
            FROM sbtc_signer.dkg_shares
            WHERE substring(aggregate_key FROM 2) = $1;"#);
    assert(is_in(sql::GET_ENCRYPTED_DKG_SHARES@, 13));
}

/// The shares that were stored last are selected.
pub proof fn latest_shares_are_selected()
    ensures
        says(sql::GET_LATEST_ENCRYPTED_DKG_SHARES@, r#"SELECT
                aggregate_key
              , tweaked_aggregate_key
              , script_pubkey
              , encrypted_private_shares
              , public_shares
              , signer_set_public_keys
              , signature_share_threshold
              , dkg_shares_status
              , started_at_bitcoin_block_hash
              , started_at_bitcoin_block_height
            FROM sbtc_signer.dkg_shares
            ORDER BY created_at DESC
            LIMIT 1;"#@),
{
    reveal_strlit(r#"
            SELECT
                aggregate_key
              , tweaked_aggregate_key
              , script_pubkey
              , encrypted_private_shares
              , public_shares
              , signer_set_public_keys
              , signature_share_threshold
              , dkg_shares_status
              , started_at_bitcoin_block_hash
              , started_at_bitcoin_block_height
            FROM sbtc_signer.dkg_shares
            ORDER BY created_at DESC
            LIMIT 1;
            "#);
    reveal_strlit(r#"SELECT
                aggregate_key
              , tweaked_aggregate_key
              , script_pubkey
              , encrypted_private_shares
              , public_shares
              , signer_set_public_keys
              , signature_share_threshold
              , dkg_shares_status
              , started_at_bitcoin_block_hash
              , started_at_bitcoin_block_height
            FROM sbtc_signer.dkg_shares
            ORDER BY created_at DESC
            LIMIT 1;"#);
    assert(is_in(sql::GET_LATEST_ENCRYPTED_DKG_SHARES@, 13));
}

/// Of the verified shares, those that were stored last are selected.
pub proof fn latest_verified_shares_are_selected()
    ensures
        says(sql::GET_LATEST_VERIFIED_DKG_SHARES@, r#"SELECT
                aggregate_key
              , tweaked_aggregate_key
              , script_pubkey
              , encrypted_private_shares
              , public_shares
              , signer_set_public_keys
              , signature_share_threshold
              , dkg_shares_status
              , started_at_bitcoin_block_hash
              , started_at_bitcoin_block_height
            FROM sbtc_signer.dkg_shares
            WHERE dkg_shares_status = 'verified'
            ORDER BY created_at DESC
            LIMIT 1;"#@),
{
    reveal_strlit(r#"
            SELECT
                aggregate_key
              , tweaked_aggregate_key
              , script_pubkey
              , encrypted_private_shares
              , public_shares
              , signer_set_public_keys
              , signature_share_threshold
              , dkg_shares_status
              , started_at_bitcoin_block_hash
              , started_at_bitcoin_block_height
            FROM sbtc_signer.dkg_shares
            WHERE dkg_shares_status = 'verified'
            ORDER BY created_at DESC
            LIMIT 1;
            "#);
    reveal_strlit(r#"SELECT
                aggregate_key
              , tweaked_aggregate_key
              , script_pubkey
              , encrypted_private_shares
              , public_shares
              , signer_set_public_keys
              , signature_share_threshold
              , dkg_shares_status
              , started_at_bitcoin_block_hash
              , started_at_bitcoin_block_height
            FROM sbtc_signer.dkg_shares
            WHERE dkg_shares_status = 'verified'
            ORDER BY created_at DESC
            LIMIT 1;"#);
    assert(is_in(sql::GET_LATEST_VERIFIED_DKG_SHARES@, 13));
}

/// The shares that have not failed are counted.
pub proof fn shares_that_have_not_failed_are_counted()
    ensures
        says(sql::GET_ENCRYPTED_DKG_SHARES_COUNT@, "SELECT COUNT(*) FROM sbtc_signer.dkg_shares WHERE dkg_shares_status != 'failed';"@),
{
    reveal_strlit("SELECT COUNT(*) FROM sbtc_signer.dkg_shares WHERE dkg_shares_status != 'failed';");
    reveal_strlit("SELECT COUNT(*) FROM sbtc_signer.dkg_shares WHERE dkg_shares_status != 'failed';");
    assert(is_in(sql::GET_ENCRYPTED_DKG_SHARES_COUNT@, 0));
}

/// The highest key rotation on the stacks blockchain of a block is selected,
/// and the one with the greatest hash, then the greatest transaction, among
/// equally high ones.
pub proof fn last_key_rotation_is_selected()
    ensures
        says(sql::GET_LAST_KEY_ROTATION@, "WHERE block_hash = $1"@),
        says(sql::GET_LAST_KEY_ROTATION@, "ON parent.block_hash = last.parent_hash"@),
        says(sql::GET_LAST_KEY_ROTATION@, r#"rkt.txid
              , rkt.block_hash
              , rkt.address
              , rkt.aggregate_key
              , rkt.signer_set
              , rkt.signatures_required
            FROM sbtc_signer.rotate_keys_transactions rkt
            JOIN stacks_blocks AS sb
              ON rkt.block_hash = sb.block_hash
            ORDER BY sb.block_height DESC, sb.block_hash DESC, rkt.txid DESC
            LIMIT 1"#@),
{
    reveal_strlit(r#"
            WITH RECURSIVE stacks_blocks AS (
                SELECT
                    block_hash
                  , parent_hash
                  , block_height
                  , 1 AS depth
                FROM sbtc_signer.stacks_blocks
                WHERE block_hash = $1

                UNION ALL

                SELECT
                    parent.block_hash
                  , parent.parent_hash
                  , parent.block_height
                  , last.depth + 1
                FROM sbtc_signer.stacks_blocks parent
                JOIN stacks_blocks last ON parent.block_hash = last.parent_hash
            )
            SELECT
                rkt.txid
              , rkt.block_hash
              , rkt.address
              , rkt.aggregate_key
              , rkt.signer_set
              , rkt.signatures_required
            FROM sbtc_signer.rotate_keys_transactions rkt
            JOIN stacks_blocks AS sb
              ON rkt.block_hash = sb.block_hash
            ORDER BY sb.block_height DESC, sb.block_hash DESC, rkt.txid DESC
            LIMIT 1
            "#);
    reveal_strlit("WHERE block_hash = $1");
    assert(is_in(sql::GET_LAST_KEY_ROTATION@, 260));
    reveal_strlit("ON parent.block_hash = last.parent_hash");
    assert(is_in(sql::GET_LAST_KEY_ROTATION@, 579));
    reveal_strlit(r#"rkt.txid
              , rkt.block_hash
              , rkt.address
              , rkt.aggregate_key
              , rkt.signer_set
              , rkt.signatures_required
            FROM sbtc_signer.rotate_keys_transactions rkt
            JOIN stacks_blocks AS sb
              ON rkt.block_hash = sb.block_hash
            ORDER BY sb.block_height DESC, sb.block_hash DESC, rkt.txid DESC
            LIMIT 1"#);
    assert(is_in(sql::GET_LAST_KEY_ROTATION@, 668));
}

/// A key rotation is looked for on the stacks blockchain of a block by its set,
/// its key and its threshold.
pub proof fn key_rotation_is_looked_for()
    ensures
        says(sql::KEY_ROTATION_EXISTS@, "WHERE block_hash = $1"@),
        says(sql::KEY_ROTATION_EXISTS@, "ON parent.block_hash = last.parent_hash"@),
        says(sql::KEY_ROTATION_EXISTS@, r#"FROM sbtc_signer.rotate_keys_transactions AS rkt
                JOIN stacks_blocks AS sb 
                  ON rkt.block_hash = sb.block_hash
                WHERE rkt.signer_set = $2
                  AND rkt.aggregate_key = $3
                  AND rkt.signatures_required = $4"#@),
{
    reveal_strlit(r#"
            WITH RECURSIVE stacks_blocks AS (
                SELECT
                    block_hash
                  , parent_hash
                  , block_height
                  , 1 AS depth
                FROM sbtc_signer.stacks_blocks
                WHERE block_hash = $1

                UNION ALL

                SELECT
                    parent.block_hash
                  , parent.parent_hash
                  , parent.block_height
                  , last.depth + 1
                FROM sbtc_signer.stacks_blocks parent
                JOIN stacks_blocks last ON parent.block_hash = last.parent_hash
            )
            SELECT EXISTS (
                SELECT TRUE
                FROM sbtc_signer.rotate_keys_transactions AS rkt
                JOIN stacks_blocks AS sb 
                  ON rkt.block_hash = sb.block_hash
                WHERE rkt.signer_set = $2
                  AND rkt.aggregate_key = $3
                  AND rkt.signatures_required = $4
            )
            "#);
    reveal_strlit("WHERE block_hash = $1");
    assert(is_in(sql::KEY_ROTATION_EXISTS@, 260));
    reveal_strlit("ON parent.block_hash = last.parent_hash");
    assert(is_in(sql::KEY_ROTATION_EXISTS@, 579));
    reveal_strlit(r#"FROM sbtc_signer.rotate_keys_transactions AS rkt
                JOIN stacks_blocks AS sb 
                  ON rkt.block_hash = sb.block_hash
                WHERE rkt.signer_set = $2
                  AND rkt.aggregate_key = $3
                  AND rkt.signatures_required = $4"#);
    assert(is_in(sql::KEY_ROTATION_EXISTS@, 705));
}

/// The scripts of the shares that were stored last and of those that were
/// stored in the last year are selected.
pub proof fn scripts_of_signers_are_selected()
    ensures
        says(sql::GET_SIGNERS_SCRIPT_PUBKEYS@, r#"SELECT script_pubkey
                FROM sbtc_signer.dkg_shares
                ORDER BY created_at DESC
                LIMIT 1
            )
            SELECT script_pubkey
            FROM last_script_pubkey

            UNION

            SELECT script_pubkey
            FROM sbtc_signer.dkg_shares
            WHERE created_at > CURRENT_TIMESTAMP - INTERVAL '365 DAYS';"#@),
{
    reveal_strlit(r#"
            WITH last_script_pubkey AS (
                SELECT script_pubkey
                FROM sbtc_signer.dkg_shares
                ORDER BY created_at DESC
                LIMIT 1
            )
            SELECT script_pubkey
            FROM last_script_pubkey

            UNION

            SELECT script_pubkey
            FROM sbtc_signer.dkg_shares
            WHERE created_at > CURRENT_TIMESTAMP - INTERVAL '365 DAYS';
            "#);
    reveal_strlit(r#"SELECT script_pubkey
                FROM sbtc_signer.dkg_shares
                ORDER BY created_at DESC
                LIMIT 1
            )
            SELECT script_pubkey
            FROM last_script_pubkey

            UNION

            SELECT script_pubkey
            FROM sbtc_signer.dkg_shares
            WHERE created_at > CURRENT_TIMESTAMP - INTERVAL '365 DAYS';"#);
    assert(is_in(sql::GET_SIGNERS_SCRIPT_PUBKEYS@, 58));
}

/// A bitcoin block is looked for by its hash.
pub proof fn bitcoin_block_is_looked_for()
    ensures
        says(sql::IS_KNOWN_BITCOIN_BLOCK_HASH@, r#"SELECT EXISTS (
                SELECT TRUE
                FROM sbtc_signer.bitcoin_blocks AS bb
                WHERE bb.block_hash = $1"#@),
{
    reveal_strlit(r#"
            SELECT EXISTS (
                SELECT TRUE
                FROM sbtc_signer.bitcoin_blocks AS bb
                WHERE bb.block_hash = $1
            );
        "#);
    reveal_strlit(r#"SELECT EXISTS (
                SELECT TRUE
                FROM sbtc_signer.bitcoin_blocks AS bb
                WHERE bb.block_hash = $1"#);
    assert(is_in(sql::IS_KNOWN_BITCOIN_BLOCK_HASH@, 13));
}

/// A script is looked for among those of the shares.
pub proof fn script_is_looked_for()
    ensures
        says(sql::IS_SIGNER_SCRIPT_PUB_KEY@, r#"SELECT EXISTS (
                SELECT TRUE
                FROM sbtc_signer.dkg_shares AS ds
                WHERE ds.script_pubkey = $1"#@),
{
    reveal_strlit(r#"
            SELECT EXISTS (
                SELECT TRUE
                FROM sbtc_signer.dkg_shares AS ds
                WHERE ds.script_pubkey = $1
            );
        "#);
    reveal_strlit(r#"SELECT EXISTS (
                SELECT TRUE
                FROM sbtc_signer.dkg_shares AS ds
                WHERE ds.script_pubkey = $1"#);
    assert(is_in(sql::IS_SIGNER_SCRIPT_PUB_KEY@, 13));
}

/// A withdrawal request is looked for among those that are paid by the
/// transactions that spend an output of a transaction, and those that descend
/// from them.
pub proof fn payment_is_looked_for()
    ensures
        says(sql::IS_WITHDRAWAL_INFLIGHT@, "WHERE bts.prevout_txid = $1"@),
        says(sql::IS_WITHDRAWAL_INFLIGHT@, r#"ON bts.prevout_txid = parent.txid
                WHERE bts.prevout_type = 'signers_input'"#@),
        says(sql::IS_WITHDRAWAL_INFLIGHT@, r#"SELECT EXISTS (
                SELECT TRUE
                FROM sbtc_signer.bitcoin_withdrawals_outputs AS bwo
                JOIN proposed_transactions AS pt
                  ON pt.txid = bwo.bitcoin_txid
                WHERE bwo.request_id = $2
                  AND bwo.stacks_block_hash = $3"#@),
{
    reveal_strlit(r#"
            WITH RECURSIVE proposed_transactions AS (
                SELECT
                    bts.txid
                  , bts.prevout_txid
                FROM sbtc_signer.bitcoin_tx_sighashes AS bts
                WHERE bts.prevout_txid = $1

                UNION ALL

                SELECT
                    bts.txid
                  , bts.prevout_txid
                FROM sbtc_signer.bitcoin_tx_sighashes AS bts
                JOIN proposed_transactions AS parent
                  ON bts.prevout_txid = parent.txid
                WHERE bts.prevout_type = 'signers_input'
            )
            SELECT EXISTS (
                SELECT TRUE
                FROM sbtc_signer.bitcoin_withdrawals_outputs AS bwo
                JOIN proposed_transactions AS pt
                  ON pt.txid = bwo.bitcoin_txid
                WHERE bwo.request_id = $2
                  AND bwo.stacks_block_hash = $3
            )"#);
    reveal_strlit("WHERE bts.prevout_txid = $1");
    assert(is_in(sql::IS_WITHDRAWAL_INFLIGHT@, 221));
    reveal_strlit(r#"ON bts.prevout_txid = parent.txid
                WHERE bts.prevout_type = 'signers_input'"#);
    assert(is_in(sql::IS_WITHDRAWAL_INFLIGHT@, 498));
    reveal_strlit(r#"SELECT EXISTS (
                SELECT TRUE
                FROM sbtc_signer.bitcoin_withdrawals_outputs AS bwo
                JOIN proposed_transactions AS pt
                  ON pt.txid = bwo.bitcoin_txid
                WHERE bwo.request_id = $2
                  AND bwo.stacks_block_hash = $3"#);
    assert(is_in(sql::IS_WITHDRAWAL_INFLIGHT@, 615));
}

/// The greatest height at which the signers considered a withdrawal request is
/// selected.
pub proof fn last_consideration_is_selected()
    ensures
        says(sql::LAST_CONSIDERED_HEIGHT@, r#"SELECT MAX(bb.block_height)
            FROM sbtc_signer.bitcoin_withdrawals_outputs AS bwo
            JOIN sbtc_signer.bitcoin_blocks AS bb
              ON bb.block_hash = bwo.bitcoin_chain_tip
            WHERE bwo.request_id = $1
              AND bwo.stacks_block_hash = $2"#@),
{
    reveal_strlit(r#"
            SELECT MAX(bb.block_height)
            FROM sbtc_signer.bitcoin_withdrawals_outputs AS bwo
            JOIN sbtc_signer.bitcoin_blocks AS bb
              ON bb.block_hash = bwo.bitcoin_chain_tip
            WHERE bwo.request_id = $1
              AND bwo.stacks_block_hash = $2
            "#);
    reveal_strlit(r#"SELECT MAX(bb.block_height)
            FROM sbtc_signer.bitcoin_withdrawals_outputs AS bwo
            JOIN sbtc_signer.bitcoin_blocks AS bb
              ON bb.block_hash = bwo.bitcoin_chain_tip
            WHERE bwo.request_id = $1
              AND bwo.stacks_block_hash = $2"#);
    assert(is_in(sql::LAST_CONSIDERED_HEIGHT@, 13));
}

/// The deposit requests are selected that a transaction in a window of blocks
/// spends, unless their completion lies on the stacks blockchain.
pub proof fn swept_deposits_are_selected()
    ensures
        says(sql::GET_SWEPT_DEPOSIT_REQUESTS@, "FROM bitcoin_blockchain_of($1, $2)"@),
        says(sql::GET_SWEPT_DEPOSIT_REQUESTS@, "WHERE stacks_blocks.block_hash = $3"@),
        says(sql::GET_SWEPT_DEPOSIT_REQUESTS@, r#"JOIN stacks_blockchain last
                  ON parent.block_hash = last.parent_hash
                JOIN bitcoin_blockchain AS bb
                  ON bb.block_hash = parent.bitcoin_anchor"#@),
        says(sql::GET_SWEPT_DEPOSIT_REQUESTS@, r#"bc_trx.txid AS sweep_txid
              , bc_trx.block_hash AS sweep_block_hash
              , bc_blocks.block_height AS sweep_block_height
              , deposit_req.txid
              , deposit_req.output_index
              , deposit_req.recipient
              , deposit_req.amount
              , deposit_req.max_fee
            FROM bitcoin_blockchain AS bc_blocks
            INNER JOIN bitcoin_transactions AS bc_trx USING (block_hash)
            INNER JOIN bitcoin_tx_inputs AS bti USING (txid)
            INNER JOIN deposit_requests AS deposit_req
              ON deposit_req.txid = bti.prevout_txid
             AND deposit_req.output_index = bti.prevout_output_index
            LEFT JOIN completed_deposit_events AS cde
              ON cde.bitcoin_txid = deposit_req.txid
             AND cde.output_index = deposit_req.output_index
            LEFT JOIN stacks_blockchain AS sb
              ON sb.block_hash = cde.block_hash"#@),
        says(sql::GET_SWEPT_DEPOSIT_REQUESTS@, r#"HAVING
                COUNT(sb.block_hash) = 0"#@),
{
    reveal_strlit("
            WITH RECURSIVE bitcoin_blockchain AS (
                SELECT
                    block_hash
                  , block_height
                FROM bitcoin_blockchain_of($1, $2)
            ),
            stacks_blockchain AS (
                SELECT
                    stacks_blocks.block_hash
                  , stacks_blocks.block_height
                  , stacks_blocks.parent_hash
                FROM sbtc_signer.stacks_blocks stacks_blocks
                JOIN bitcoin_blockchain as bb
                    ON bb.block_hash = stacks_blocks.bitcoin_anchor
                WHERE stacks_blocks.block_hash = $3

                UNION ALL

                SELECT
                    parent.block_hash
                  , parent.block_height
                  , parent.parent_hash
                FROM sbtc_signer.stacks_blocks parent
                JOIN stacks_blockchain last
                  ON parent.block_hash = last.parent_hash
                JOIN bitcoin_blockchain AS bb
                  ON bb.block_hash = parent.bitcoin_anchor
            )
            SELECT
                bc_trx.txid AS sweep_txid
              , bc_trx.block_hash AS sweep_block_hash
              , bc_blocks.block_height AS sweep_block_height
              , deposit_req.txid
              , deposit_req.output_index
              , deposit_req.recipient
              , deposit_req.amount
              , deposit_req.max_fee
            FROM bitcoin_blockchain AS bc_blocks
            INNER JOIN bitcoin_transactions AS bc_trx USING (block_hash)
            INNER JOIN bitcoin_tx_inputs AS bti USING (txid)
            INNER JOIN deposit_requests AS deposit_req
              ON deposit_req.txid = bti.prevout_txid
             AND deposit_req.output_index = bti.prevout_output_index
            LEFT JOIN completed_deposit_events AS cde
              ON cde.bitcoin_txid = deposit_req.txid
             AND cde.output_index = deposit_req.output_index
            LEFT JOIN stacks_blockchain AS sb
              ON sb.block_hash = cde.block_hash
            GROUP BY
                bc_trx.txid
              , bc_trx.block_hash
              , bc_blocks.block_height
              , deposit_req.txid
              , deposit_req.output_index
              , deposit_req.recipient
              , deposit_req.amount
            HAVING
                COUNT(sb.block_hash) = 0
        ");
    reveal_strlit("FROM bitcoin_blockchain_of($1, $2)");
    assert(is_in(sql::GET_SWEPT_DEPOSIT_REQUESTS@, 155));
    reveal_strlit("WHERE stacks_blocks.block_hash = $3");
    assert(is_in(sql::GET_SWEPT_DEPOSIT_REQUESTS@, 592));
    reveal_strlit(r#"JOIN stacks_blockchain last
                  ON parent.block_hash = last.parent_hash
                JOIN bitcoin_blockchain AS bb
                  ON bb.block_hash = parent.bitcoin_anchor"#);
    assert(is_in(sql::GET_SWEPT_DEPOSIT_REQUESTS@, 866));
    reveal_strlit(r#"bc_trx.txid AS sweep_txid
              , bc_trx.block_hash AS sweep_block_hash
              , bc_blocks.block_height AS sweep_block_height
              , deposit_req.txid
              , deposit_req.output_index
              , deposit_req.recipient
              , deposit_req.amount
              , deposit_req.max_fee
            FROM bitcoin_blockchain AS bc_blocks
            INNER JOIN bitcoin_transactions AS bc_trx USING (block_hash)
            INNER JOIN bitcoin_tx_inputs AS bti USING (txid)
            INNER JOIN deposit_requests AS deposit_req
              ON deposit_req.txid = bti.prevout_txid
             AND deposit_req.output_index = bti.prevout_output_index
            LEFT JOIN completed_deposit_events AS cde
              ON cde.bitcoin_txid = deposit_req.txid
             AND cde.output_index = deposit_req.output_index
            LEFT JOIN stacks_blockchain AS sb
              ON sb.block_hash = cde.block_hash"#);
    assert(is_in(sql::GET_SWEPT_DEPOSIT_REQUESTS@, 1106));
    reveal_strlit(r#"HAVING
                COUNT(sb.block_hash) = 0"#);
    assert(is_in(sql::GET_SWEPT_DEPOSIT_REQUESTS@, 2333));
}

/// The withdrawal requests are selected that a transaction in a window of
/// blocks pays, unless their payment lies on the stacks blockchain.
pub proof fn swept_withdrawals_are_selected()
    ensures
        says(sql::GET_SWEPT_WITHDRAWAL_REQUESTS@, "FROM bitcoin_blockchain_of($1, $2)"@),
        says(sql::GET_SWEPT_WITHDRAWAL_REQUESTS@, "WHERE stacks_blocks.block_hash = $3"@),
        says(sql::GET_SWEPT_WITHDRAWAL_REQUESTS@, r#"JOIN stacks_blockchain last
                        ON parent.block_hash = last.parent_hash
                    JOIN bitcoin_blockchain AS bb
                        ON bb.block_hash = parent.bitcoin_anchor"#@),
        says(sql::GET_SWEPT_WITHDRAWAL_REQUESTS@, r#"bwo.output_index AS output_index
                  , bwo.bitcoin_txid AS sweep_txid
                  , bc_blocks.block_hash AS sweep_block_hash
                  , bc_blocks.block_height AS sweep_block_height
                  , wr.request_id
                  , wr.txid
                  , wr.block_hash AS block_hash
                  , wr.recipient
                  , wr.amount
                  , wr.max_fee
                  , wr.sender_address
                FROM sbtc_signer.bitcoin_withdrawals_outputs AS bwo
                JOIN sbtc_signer.bitcoin_transactions AS bt
                    ON bt.txid = bwo.bitcoin_txid
                JOIN sbtc_signer.withdrawal_requests AS wr
                    ON wr.request_id = bwo.request_id
                    AND wr.block_hash = bwo.stacks_block_hash
                JOIN bitcoin_blockchain AS bc_blocks
                    ON bc_blocks.block_hash = bt.block_hash
                LEFT JOIN sbtc_signer.withdrawal_accept_events AS wae
                    ON wae.request_id = wr.request_id
                LEFT JOIN stacks_blockchain AS sb
                    ON sb.block_hash = wae.block_hash"#@),
        says(sql::GET_SWEPT_WITHDRAWAL_REQUESTS@, r#"HAVING
                    COUNT(sb.block_hash) = 0"#@),
{
    reveal_strlit("
                WITH RECURSIVE bitcoin_blockchain AS (
                    SELECT
                        block_hash
                      , block_height
                    FROM bitcoin_blockchain_of($1, $2)
                ),
                stacks_blockchain AS (
                    SELECT
                        stacks_blocks.block_hash
                      , stacks_blocks.block_height
                      , stacks_blocks.parent_hash
                    FROM sbtc_signer.stacks_blocks stacks_blocks
                    JOIN bitcoin_blockchain AS bb
                        ON bb.block_hash = stacks_blocks.bitcoin_anchor
                    WHERE stacks_blocks.block_hash = $3
                    UNION ALL
                    SELECT
                        parent.block_hash
                      , parent.block_height
                      , parent.parent_hash
                    FROM sbtc_signer.stacks_blocks parent
                    JOIN stacks_blockchain last
                        ON parent.block_hash = last.parent_hash
                    JOIN bitcoin_blockchain AS bb
                        ON bb.block_hash = parent.bitcoin_anchor
                )
                SELECT
                    bwo.output_index AS output_index
                  , bwo.bitcoin_txid AS sweep_txid
                  , bc_blocks.block_hash AS sweep_block_hash
                  , bc_blocks.block_height AS sweep_block_height
                  , wr.request_id
                  , wr.txid
                  , wr.block_hash AS block_hash
                  , wr.recipient
                  , wr.amount
                  , wr.max_fee
                  , wr.sender_address
                FROM sbtc_signer.bitcoin_withdrawals_outputs AS bwo
                JOIN sbtc_signer.bitcoin_transactions AS bt
                    ON bt.txid = bwo.bitcoin_txid
                JOIN sbtc_signer.withdrawal_requests AS wr
                    ON wr.request_id = bwo.request_id
                    AND wr.block_hash = bwo.stacks_block_hash
                JOIN bitcoin_blockchain AS bc_blocks
                    ON bc_blocks.block_hash = bt.block_hash
                LEFT JOIN sbtc_signer.withdrawal_accept_events AS wae
                    ON wae.request_id = wr.request_id
                LEFT JOIN stacks_blockchain AS sb
                    ON sb.block_hash = wae.block_hash

                GROUP BY
                    bwo.output_index
                  , bwo.bitcoin_txid
                  , bc_blocks.block_hash
                  , bc_blocks.block_height
                  , wr.request_id
                  , wr.txid
                  , wr.block_hash
                  , wr.recipient
                  , wr.amount
                  , wr.max_fee
                  , wr.sender_address

                HAVING
                    COUNT(sb.block_hash) = 0
        ");
    reveal_strlit("FROM bitcoin_blockchain_of($1, $2)");
    assert(is_in(sql::GET_SWEPT_WITHDRAWAL_REQUESTS@, 175));
    reveal_strlit("WHERE stacks_blocks.block_hash = $3");
    assert(is_in(sql::GET_SWEPT_WITHDRAWAL_REQUESTS@, 652));
    reveal_strlit(r#"JOIN stacks_blockchain last
                        ON parent.block_hash = last.parent_hash
                    JOIN bitcoin_blockchain AS bb
                        ON bb.block_hash = parent.bitcoin_anchor"#);
    assert(is_in(sql::GET_SWEPT_WITHDRAWAL_REQUESTS@, 952));
    reveal_strlit(r#"bwo.output_index AS output_index
                  , bwo.bitcoin_txid AS sweep_txid
                  , bc_blocks.block_hash AS sweep_block_hash
                  , bc_blocks.block_height AS sweep_block_height
                  , wr.request_id
                  , wr.txid
                  , wr.block_hash AS block_hash
                  , wr.recipient
                  , wr.amount
                  , wr.max_fee
                  , wr.sender_address
                FROM sbtc_signer.bitcoin_withdrawals_outputs AS bwo
                JOIN sbtc_signer.bitcoin_transactions AS bt
                    ON bt.txid = bwo.bitcoin_txid
                JOIN sbtc_signer.withdrawal_requests AS wr
                    ON wr.request_id = bwo.request_id
                    AND wr.block_hash = bwo.stacks_block_hash
                JOIN bitcoin_blockchain AS bc_blocks
                    ON bc_blocks.block_hash = bt.block_hash
                LEFT JOIN sbtc_signer.withdrawal_accept_events AS wae
                    ON wae.request_id = wr.request_id
                LEFT JOIN stacks_blockchain AS sb
                    ON sb.block_hash = wae.block_hash"#);
    assert(is_in(sql::GET_SWEPT_WITHDRAWAL_REQUESTS@, 1220));
    reveal_strlit(r#"HAVING
                    COUNT(sb.block_hash) = 0"#);
    assert(is_in(sql::GET_SWEPT_WITHDRAWAL_REQUESTS@, 2795));
}

/// A deposit request is selected by its output.
pub proof fn deposit_request_is_selected()
    ensures
        says(sql::GET_DEPOSIT_REQUEST@, r#"SELECT txid
                 , output_index
                 , spend_script
                 , reclaim_script
                 , recipient
                 , amount
                 , max_fee
                 , lock_time
                 , signers_public_key
                 , sender_script_pub_keys
            FROM sbtc_signer.deposit_requests
            WHERE txid = $1
              AND output_index = $2"#@),
{
    reveal_strlit(r#"
            SELECT txid
                 , output_index
                 , spend_script
                 , reclaim_script
                 , recipient
                 , amount
                 , max_fee
                 , lock_time
                 , signers_public_key
                 , sender_script_pub_keys
            FROM sbtc_signer.deposit_requests
            WHERE txid = $1
              AND output_index = $2
            "#);
    reveal_strlit(r#"SELECT txid
                 , output_index
                 , spend_script
                 , reclaim_script
                 , recipient
                 , amount
                 , max_fee
                 , lock_time
                 , signers_public_key
                 , sender_script_pub_keys
            FROM sbtc_signer.deposit_requests
            WHERE txid = $1
              AND output_index = $2"#);
    assert(is_in(sql::GET_DEPOSIT_REQUEST@, 13));
}

/// What is known of a digest is selected by the digest.
pub proof fn signing_is_selected()
    ensures
        says(sql::WILL_SIGN_BITCOIN_TX_SIGHASH@, r#"SELECT
                will_sign
              , x_only_public_key
            FROM sbtc_signer.bitcoin_tx_sighashes
            WHERE sighash = $1"#@),
{
    reveal_strlit(r#"
            SELECT
                will_sign
              , x_only_public_key
            FROM sbtc_signer.bitcoin_tx_sighashes
            WHERE sighash = $1
            "#);
    reveal_strlit(r#"SELECT
                will_sign
              , x_only_public_key
            FROM sbtc_signer.bitcoin_tx_sighashes
            WHERE sighash = $1"#);
    assert(is_in(sql::WILL_SIGN_BITCOIN_TX_SIGHASH@, 13));
}

/// The decisions of a signer on withdrawal requests are selected that are not
/// older than the lowest block of a window.
pub proof fn withdrawal_decisions_of_signer_are_selected()
    ensures
        says(sql::GET_WITHDRAWAL_SIGNER_DECISIONS@, r#"FROM sbtc_signer.bitcoin_blockchain_of($1, $2) chain
                JOIN sbtc_signer.bitcoin_blocks blocks USING (block_hash)
                ORDER BY chain.block_height ASC
                LIMIT 1"#@),
        says(sql::GET_WITHDRAWAL_SIGNER_DECISIONS@, r#"ws.request_id
              , ws.txid
              , ws.block_hash
              , ws.signer_pub_key
              , ws.is_accepted

            FROM sbtc_signer.withdrawal_signers ws
            WHERE ws.signer_pub_key = $3
              AND ws.created_at >= (SELECT created_at FROM target_block)"#@),
{
    reveal_strlit(r#"
            WITH target_block AS (
                SELECT blocks.block_hash, blocks.created_at
                FROM sbtc_signer.bitcoin_blockchain_of($1, $2) chain
                JOIN sbtc_signer.bitcoin_blocks blocks USING (block_hash)
                ORDER BY chain.block_height ASC
                LIMIT 1
            )
            SELECT
                ws.request_id
              , ws.txid
              , ws.block_hash
              , ws.signer_pub_key
              , ws.is_accepted

            FROM sbtc_signer.withdrawal_signers ws
            WHERE ws.signer_pub_key = $3
              AND ws.created_at >= (SELECT created_at FROM target_block)
            "#);
    reveal_strlit(r#"FROM sbtc_signer.bitcoin_blockchain_of($1, $2) chain
                JOIN sbtc_signer.bitcoin_blocks blocks USING (block_hash)
                ORDER BY chain.block_height ASC
                LIMIT 1"#);
    assert(is_in(sql::GET_WITHDRAWAL_SIGNER_DECISIONS@, 112));
    reveal_strlit(r#"ws.request_id
              , ws.txid
              , ws.block_hash
              , ws.signer_pub_key
              , ws.is_accepted

            FROM sbtc_signer.withdrawal_signers ws
            WHERE ws.signer_pub_key = $3
              AND ws.created_at >= (SELECT created_at FROM target_block)"#);
    assert(is_in(sql::GET_WITHDRAWAL_SIGNER_DECISIONS@, 360));
}

/// The decisions of a signer on deposit requests are selected that are not
/// older than the lowest block of a window.
pub proof fn deposit_decisions_of_signer_are_selected()
    ensures
        says(sql::GET_DEPOSIT_SIGNER_DECISIONS@, r#"FROM sbtc_signer.bitcoin_blockchain_of($1, $2) chain
                JOIN sbtc_signer.bitcoin_blocks blocks USING (block_hash)
                ORDER BY chain.block_height ASC
                LIMIT 1"#@),
        says(sql::GET_DEPOSIT_SIGNER_DECISIONS@, r#"ds.txid
              , ds.output_index
              , ds.signer_pub_key
              , ds.can_sign
              , ds.can_accept
            FROM sbtc_signer.deposit_signers ds
            WHERE ds.signer_pub_key = $3
              AND ds.created_at >= (SELECT created_at FROM target_block)"#@),
{
    reveal_strlit(r#"
            WITH target_block AS (
                SELECT blocks.block_hash, blocks.created_at
                FROM sbtc_signer.bitcoin_blockchain_of($1, $2) chain
                JOIN sbtc_signer.bitcoin_blocks blocks USING (block_hash)
                ORDER BY chain.block_height ASC
                LIMIT 1
            )
            SELECT
                ds.txid
              , ds.output_index
              , ds.signer_pub_key
              , ds.can_sign
              , ds.can_accept
            FROM sbtc_signer.deposit_signers ds
            WHERE ds.signer_pub_key = $3
              AND ds.created_at >= (SELECT created_at FROM target_block)
            "#);
    reveal_strlit(r#"FROM sbtc_signer.bitcoin_blockchain_of($1, $2) chain
                JOIN sbtc_signer.bitcoin_blocks blocks USING (block_hash)
                ORDER BY chain.block_height ASC
                LIMIT 1"#);
    assert(is_in(sql::GET_DEPOSIT_SIGNER_DECISIONS@, 112));
    reveal_strlit(r#"ds.txid
              , ds.output_index
              , ds.signer_pub_key
              , ds.can_sign
              , ds.can_accept
            FROM sbtc_signer.deposit_signers ds
            WHERE ds.signer_pub_key = $3
              AND ds.created_at >= (SELECT created_at FROM target_block)"#);
    assert(is_in(sql::GET_DEPOSIT_SIGNER_DECISIONS@, 360));
}

} // verus!
