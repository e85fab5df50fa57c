//! The statements of the store.

use vstd::prelude::*;

verus! {

/// Prepares a new connection.
pub const AFTER_CONNECT: &'static str = "SET application_name = 'sbtc-signer'; SET search_path = sbtc_signer,public;";

/// Creates the table of the migrations that have been applied.
pub const CREATE_MIGRATIONS_TABLE: &'static str = r#"
                CREATE TABLE IF NOT EXISTS public.__sbtc_migrations (
                    key TEXT PRIMARY KEY
                );
            "#;

/// Counts the records of a migration.
pub const CHECK_MIGRATION_EXISTENCE: &'static str = r#"
            SELECT COUNT(*) FROM public.__sbtc_migrations
                WHERE
                    key = $1
            ;
            "#;

/// Records a migration.
pub const INSERT_MIGRATION: &'static str = r#"
            INSERT INTO public.__sbtc_migrations (key)
                VALUES ($1)
            "#;

/// The largest unspent output of a type on a blockchain, down to a height.
pub const GET_UTXO: &'static str = r#"
            WITH bitcoin_blockchain AS (
                SELECT block_hash
                FROM bitcoin_blockchain_until($1, $2)
            ),
            confirmed_sweeps AS (
                SELECT
                    prevout_txid
                  , prevout_output_index
                FROM sbtc_signer.bitcoin_tx_inputs
                JOIN sbtc_signer.bitcoin_transactions AS bt USING (txid)
                JOIN bitcoin_blockchain AS bb USING (block_hash)
                WHERE prevout_type = 'signers_input'
            )
            SELECT
                bo.txid
              , bo.output_index
              , bo.amount
              , ds.aggregate_key
            FROM sbtc_signer.bitcoin_tx_outputs AS bo
            JOIN sbtc_signer.bitcoin_transactions AS bt USING (txid)
            JOIN bitcoin_blockchain AS bb USING (block_hash)
            JOIN sbtc_signer.dkg_shares AS ds USING (script_pubkey)
            LEFT JOIN confirmed_sweeps AS cs
              ON cs.prevout_txid = bo.txid
              AND cs.prevout_output_index = bo.output_index
            WHERE cs.prevout_txid IS NULL
              AND bo.output_type = $3
            ORDER BY bo.amount DESC
            LIMIT 1;
            "#;

/// The lowest unspent output of a type on a blockchain, down to a height, and
/// the largest of those in its block.
pub const GET_DONATION_UTXO: &'static str = r#"
            WITH bitcoin_blockchain AS (
                SELECT block_hash, block_height
                FROM bitcoin_blockchain_until($1, $2)
            ),
            confirmed_sweeps AS (
                SELECT
                    prevout_txid
                  , prevout_output_index
                FROM sbtc_signer.bitcoin_tx_inputs
                JOIN sbtc_signer.bitcoin_transactions AS bt USING (txid)
                JOIN bitcoin_blockchain AS bb USING (block_hash)
                WHERE prevout_type = 'signers_input'
            )
            SELECT
                bo.txid
              , bo.output_index
              , bo.amount
              , ds.aggregate_key
            FROM sbtc_signer.bitcoin_tx_outputs AS bo
            JOIN sbtc_signer.bitcoin_transactions AS bt USING (txid)
            JOIN bitcoin_blockchain AS bb USING (block_hash)
            JOIN sbtc_signer.dkg_shares AS ds USING (script_pubkey)
            LEFT JOIN confirmed_sweeps AS cs
              ON cs.prevout_txid = bo.txid
              AND cs.prevout_output_index = bo.output_index
            WHERE cs.prevout_txid IS NULL
              AND bo.output_type = $3
            ORDER BY bb.block_height ASC, bo.amount DESC
            LIMIT 1;
            "#;

/// The height of the first sweep on a blockchain, from a height on.
pub const GET_LEAST_TXO_HEIGHT: &'static str = r#"
            SELECT bb.block_height
            FROM sbtc_signer.bitcoin_tx_inputs AS bi
            JOIN sbtc_signer.bitcoin_tx_outputs AS bo
              ON bo.txid = bi.txid
            JOIN sbtc_signer.bitcoin_transactions AS bt
              ON bt.txid = bi.txid
            JOIN bitcoin_blockchain_until($1, $2) AS bb
              ON bb.block_hash = bt.block_hash
            WHERE bo.output_type = 'signers_output'
              AND bi.prevout_type = 'signers_input'
            ORDER BY bb.block_height ASC
            LIMIT 1;
            "#;

/// The height of the earliest donation.
pub const MINIMUM_DONATION_TXO_HEIGHT: &'static str = r#"
            SELECT bb.block_height
            FROM sbtc_signer.bitcoin_tx_outputs AS bo
            JOIN sbtc_signer.bitcoin_transactions AS bt USING (txid)
            JOIN sbtc_signer.bitcoin_blocks AS bb USING (block_hash)
            WHERE bo.output_type = 'donation'
            ORDER BY bb.block_height ASC
            LIMIT 1;
            "#;

/// The unspent output of the signers that was confirmed last, on any
/// blockchain.
pub const UTXO_CANDIDATE: &'static str = r#"
            WITH confirmed_sweeps AS (
                SELECT
                    prevout_txid
                  , prevout_output_index
                FROM sbtc_signer.bitcoin_tx_inputs
                JOIN sbtc_signer.bitcoin_transactions AS bt USING (txid)
                WHERE prevout_type = 'signers_input'
            )
            SELECT
                bo.txid
              , bb.block_height
            FROM sbtc_signer.bitcoin_tx_outputs AS bo
            JOIN sbtc_signer.bitcoin_transactions AS bt USING (txid)
            JOIN sbtc_signer.bitcoin_blocks AS bb USING (block_hash)
            LEFT JOIN confirmed_sweeps AS cs
              ON cs.prevout_txid = bo.txid
              AND cs.prevout_output_index = bo.output_index
            WHERE cs.prevout_txid IS NULL
              AND bo.output_type = 'signers_output'
            ORDER BY bb.block_height DESC
            LIMIT 1;
            "#;

/// The height of the last sweep, in the chain of sweeps that ends in a
/// transaction, that is not above a height.
pub const CONFIRMED_SWEEP_HEIGHT: &'static str = r#"
            WITH RECURSIVE signer_inputs AS (
                SELECT
                    bti.txid
                  , bti.prevout_txid
                  , MIN(bb.block_height) AS block_height
                FROM sbtc_signer.bitcoin_tx_inputs AS bti
                JOIN sbtc_signer.bitcoin_transactions USING (txid)
                JOIN sbtc_signer.bitcoin_blocks AS bb USING (block_hash)
                WHERE bti.prevout_type = 'signers_input'
                  AND bb.block_height <= $1
                GROUP BY bti.txid, bti.prevout_txid
            ),
            tx_chain AS (
                SELECT
                    si.txid
                  , si.prevout_txid
                  , si.block_height
                  , 1 AS tx_count
                FROM signer_inputs AS si
                WHERE si.txid = $3

                UNION ALL

                SELECT
                    si.txid
                  , si.prevout_txid
                  , si.block_height
                  , tc.tx_count + 1
                FROM signer_inputs AS si
                JOIN tx_chain AS tc
                  ON tc.prevout_txid = si.txid
                WHERE tc.tx_count < $2
            )
            SELECT block_height
            FROM tx_chain
            WHERE block_height <= $4
            ORDER BY block_height DESC
            LIMIT 1;
            "#;

/// The least height at which a deposit request is confirmed.
pub const GET_DEPOSIT_REQUEST_LEAST_HEIGHT: &'static str = r#"
            SELECT block_height
            FROM sbtc_signer.deposit_requests AS dr
            JOIN sbtc_signer.bitcoin_transactions USING (txid)
            JOIN sbtc_signer.bitcoin_blocks USING (block_hash)
            WHERE dr.txid = $1
              AND dr.output_index = $2
            ORDER BY block_height
            LIMIT 1
            "#;

/// The transaction that swept a deposit on a blockchain, down to a height.
pub const GET_DEPOSIT_SWEEP_TXID: &'static str = r#"
            SELECT bti.txid
            FROM sbtc_signer.bitcoin_tx_inputs AS bti
            JOIN sbtc_signer.bitcoin_transactions AS bt USING (txid)
            JOIN sbtc_signer.bitcoin_blockchain_until($1, $2) USING (block_hash)
            WHERE bti.prevout_txid = $3
              AND bti.prevout_output_index = $4
            LIMIT 1
            "#;

/// What the report on a deposit request is made of, with the block on a
/// blockchain that confirms the deposit, if there is one.
pub const GET_DEPOSIT_REQUEST_STATUS_SUMMARY: &'static str = r#"
            SELECT
                ds.can_accept
              , ds.can_sign
              , dr.amount
              , dr.max_fee
              , dr.lock_time
              , dr.spend_script AS deposit_script
              , dr.reclaim_script
              , dr.signers_public_key
              , bc.block_height
              , bc.block_hash
            FROM sbtc_signer.deposit_requests AS dr
            JOIN sbtc_signer.bitcoin_transactions USING (txid)
            LEFT JOIN sbtc_signer.bitcoin_blockchain_until($1, $2) AS bc USING (block_hash)
            LEFT JOIN sbtc_signer.deposit_signers AS ds
              ON dr.txid = ds.txid
             AND dr.output_index = ds.output_index
             AND ds.signer_pub_key = $5
            WHERE dr.txid = $3
              AND dr.output_index = $4
            ORDER BY bc.block_height DESC NULLS LAST
            LIMIT 1
            "#;

/// Whether a block is part of a stacks blockchain.
pub const IN_CANONICAL_STACKS_BLOCKCHAIN: &'static str = r#"
            WITH RECURSIVE tx_block_chain AS (
                SELECT
                    block_hash
                  , block_height
                  , parent_hash
                FROM sbtc_signer.stacks_blocks
                WHERE block_hash = $1

                UNION ALL

                SELECT
                    parent.block_hash
                  , parent.block_height
                  , parent.parent_hash
                FROM sbtc_signer.stacks_blocks AS parent
                JOIN tx_block_chain AS child
                  ON parent.block_hash = child.parent_hash
                WHERE child.block_height > $2
            )
            SELECT EXISTS (
                SELECT TRUE
                FROM tx_block_chain AS tbc
                WHERE tbc.block_hash = $3
            );
        "#;

/// What the report on a withdrawal request is made of.
pub const GET_WITHDRAWAL_REQUEST_STATUS_SUMMARY: &'static str = r#"
            SELECT
                ws.is_accepted
              , wr.amount
              , wr.max_fee
              , wr.recipient
              , wr.bitcoin_block_height
              , wr.block_hash   AS stacks_block_hash
              , sb.block_height AS stacks_block_height
            FROM sbtc_signer.withdrawal_requests AS wr
            JOIN sbtc_signer.stacks_blocks AS sb
              ON sb.block_hash = wr.block_hash
            LEFT JOIN sbtc_signer.withdrawal_signers AS ws
              ON ws.request_id = wr.request_id
             AND ws.block_hash = wr.block_hash
             AND ws.signer_pub_key = $1
            WHERE wr.request_id = $2
              AND wr.block_hash = $3
            LIMIT 1
            "#;

/// The transaction that paid a withdrawal request on a blockchain.
pub const GET_WITHDRAWAL_SWEEP_INFO: &'static str = r#"
            SELECT
                bwo.bitcoin_txid AS txid
              , bt.block_hash
            FROM sbtc_signer.withdrawal_requests AS wr
            JOIN sbtc_signer.bitcoin_withdrawals_outputs AS bwo
              ON bwo.request_id = wr.request_id
             AND bwo.stacks_block_hash = wr.block_hash
            JOIN sbtc_signer.bitcoin_transactions AS bt
              ON bt.txid = bwo.bitcoin_txid
            JOIN sbtc_signer.bitcoin_blockchain_until($1, wr.bitcoin_block_height) AS bbu
              ON bbu.block_hash = bt.block_hash
            WHERE wr.request_id = $2
              AND wr.block_hash = $3
            LIMIT 1
            "#;

/// A bitcoin block by its hash.
pub const GET_BITCOIN_BLOCK: &'static str = "SELECT
                block_hash
              , block_height
              , parent_hash
            FROM sbtc_signer.bitcoin_blocks
            WHERE block_hash = $1;";

/// A stacks block by its hash.
pub const GET_STACKS_BLOCK: &'static str = "SELECT
                block_hash
              , block_height
              , parent_hash
              , bitcoin_anchor
            FROM sbtc_signer.stacks_blocks
            WHERE block_hash = $1;";

/// The bitcoin block at the canonical chain tip.
pub const GET_BITCOIN_CANONICAL_CHAIN_TIP: &'static str = "SELECT
                block_hash
              , block_height
              , parent_hash
             FROM sbtc_signer.bitcoin_blocks
             ORDER BY block_height DESC, block_hash DESC
             LIMIT 1";

/// The hash and height of the canonical bitcoin chain tip.
pub const GET_BITCOIN_CANONICAL_CHAIN_TIP_REF: &'static str = "SELECT
                block_hash
              , block_height
             FROM sbtc_signer.bitcoin_blocks
             ORDER BY block_height DESC, block_hash DESC
             LIMIT 1";

/// The highest stacks block that is anchored to a bitcoin blockchain.
pub const GET_STACKS_CHAIN_TIP: &'static str = r#"
            WITH RECURSIVE context_window AS (
                SELECT
                    block_hash
                  , block_height
                  , parent_hash
                FROM sbtc_signer.bitcoin_blocks
                WHERE block_hash = $1

                UNION ALL

                SELECT
                    parent.block_hash
                  , parent.block_height
                  , parent.parent_hash
                FROM sbtc_signer.bitcoin_blocks AS parent
                JOIN context_window AS child
                  ON parent.block_hash = child.parent_hash
            )
            SELECT
                stacks_blocks.block_hash
              , stacks_blocks.block_height
              , stacks_blocks.parent_hash
              , stacks_blocks.bitcoin_anchor
            FROM context_window bitcoin_blocks
            JOIN sbtc_signer.stacks_blocks stacks_blocks
                ON bitcoin_blocks.block_hash = stacks_blocks.bitcoin_anchor
            ORDER BY block_height DESC, block_hash DESC
            LIMIT 1;
            "#;

/// The deposit requests in a window on which a signer has not voted.
pub const GET_PENDING_DEPOSIT_REQUESTS: &'static str = r#"
            WITH RECURSIVE context_window AS (
                -- Anchor member: Initialize the recursion with the chain tip
                SELECT block_hash, block_height, parent_hash, created_at, 1 AS depth
                FROM sbtc_signer.bitcoin_blocks
                WHERE block_hash = $1

                UNION ALL

                -- Recursive member: Fetch the parent block using the last block's parent_hash
                SELECT parent.block_hash, parent.block_height, parent.parent_hash,
                       parent.created_at, last.depth + 1
                FROM sbtc_signer.bitcoin_blocks parent
                JOIN context_window last ON parent.block_hash = last.parent_hash
                WHERE last.depth < $2
            ),
            transactions_in_window AS (
                SELECT transactions.txid
                FROM context_window blocks_in_window
                JOIN sbtc_signer.bitcoin_transactions transactions ON
                    transactions.block_hash = blocks_in_window.block_hash
            )
            SELECT
                deposit_requests.txid
              , deposit_requests.output_index
              , deposit_requests.spend_script
              , deposit_requests.reclaim_script
              , deposit_requests.recipient
              , deposit_requests.amount
              , deposit_requests.max_fee
              , deposit_requests.lock_time
              , deposit_requests.signers_public_key
              , deposit_requests.sender_script_pub_keys
            FROM transactions_in_window transactions
            JOIN sbtc_signer.deposit_requests AS deposit_requests USING (txid)
            LEFT JOIN sbtc_signer.deposit_signers AS ds
              ON ds.txid = deposit_requests.txid
             AND ds.output_index = deposit_requests.output_index
             AND ds.signer_pub_key = $3
            WHERE ds.txid IS NULL
            "#;

/// The deposit requests in a window that enough signers accepted and no
/// transaction swept.
pub const GET_PENDING_ACCEPTED_DEPOSIT_REQUESTS: &'static str = r#"
            WITH transactions_in_window AS (
                SELECT
                    transactions.txid
                  , blocks_in_window.block_height
                FROM bitcoin_blockchain_of($1, $2) AS blocks_in_window
                JOIN sbtc_signer.bitcoin_transactions transactions ON
                    transactions.block_hash = blocks_in_window.block_hash
            ),
            -- First we get all the deposits that are accepted by enough signers
            accepted_deposits AS (
                SELECT
                    deposit_requests.txid
                  , deposit_requests.output_index
                  , deposit_requests.spend_script
                  , deposit_requests.reclaim_script
                  , deposit_requests.recipient
                  , deposit_requests.amount
                  , deposit_requests.max_fee
                  , deposit_requests.lock_time
                  , deposit_requests.signers_public_key
                  , deposit_requests.sender_script_pub_keys
                FROM transactions_in_window transactions
                JOIN sbtc_signer.deposit_requests deposit_requests USING(txid)
                JOIN sbtc_signer.deposit_signers signers USING(txid, output_index)
                WHERE
                    signers.can_accept
                    AND signers.can_sign
                    AND (transactions.block_height + deposit_requests.lock_time) >= $4
                GROUP BY deposit_requests.txid, deposit_requests.output_index
                HAVING COUNT(signers.txid) >= $3
            )
            -- Then we only consider the ones not swept yet (in the canonical chain)
            SELECT accepted_deposits.*
            FROM accepted_deposits
            LEFT JOIN sbtc_signer.bitcoin_tx_inputs AS bti
              ON bti.prevout_txid = accepted_deposits.txid
             AND bti.prevout_output_index = accepted_deposits.output_index
            LEFT JOIN transactions_in_window
              ON bti.txid = transactions_in_window.txid
            GROUP BY
                accepted_deposits.txid
              , accepted_deposits.output_index
              , accepted_deposits.spend_script
              , accepted_deposits.reclaim_script
              , accepted_deposits.recipient
              , accepted_deposits.amount
              , accepted_deposits.max_fee
              , accepted_deposits.lock_time
              , accepted_deposits.signers_public_key
              , accepted_deposits.sender_script_pub_keys
            HAVING
                COUNT(transactions_in_window.txid) = 0
            "#;

/// The votes of a signing set on a deposit request.
pub const GET_DEPOSIT_REQUEST_SIGNER_VOTES: &'static str = r#"
            WITH signer_set_rows AS (
                SELECT DISTINCT UNNEST(signer_set_public_keys) AS signer_public_key
                FROM sbtc_signer.dkg_shares
                WHERE aggregate_key = $1
            ),
            deposit_votes AS (
                SELECT
                    signer_pub_key AS signer_public_key
                  , can_accept AND can_sign AS is_accepted
                FROM sbtc_signer.deposit_signers AS ds
                WHERE TRUE
                  AND ds.txid = $2
                  AND ds.output_index = $3
            )
            SELECT
                signer_public_key
              , is_accepted
            FROM signer_set_rows AS ss
            LEFT JOIN deposit_votes AS ds USING(signer_public_key)
            "#;

/// The votes of a signing set on a withdrawal request.
pub const GET_WITHDRAWAL_REQUEST_SIGNER_VOTES: &'static str = r#"
            WITH signer_set_rows AS (
                SELECT DISTINCT UNNEST(signer_set_public_keys) AS signer_public_key
                FROM sbtc_signer.dkg_shares
                WHERE aggregate_key = $1
            ),
            withdrawal_votes AS (
                SELECT
                    signer_pub_key AS signer_public_key
                  , is_accepted
                FROM sbtc_signer.withdrawal_signers AS ws
                WHERE TRUE
                  AND ws.txid = $2
                  AND ws.block_hash = $3
                  AND ws.request_id = $4
            )
            SELECT
                signer_public_key
              , is_accepted
            FROM signer_set_rows AS ss
            LEFT JOIN withdrawal_votes AS wv USING(signer_public_key)
            "#;

/// The decisions on a deposit request.
pub const GET_DEPOSIT_SIGNERS: &'static str = "SELECT
                txid
              , output_index
              , signer_pub_key
              , can_accept
              , can_sign
            FROM sbtc_signer.deposit_signers
            WHERE txid = $1 AND output_index = $2";

/// Whether a signer is party to the key that locks a deposit.
pub const CAN_SIGN_DEPOSIT_TX: &'static str = r#"
            WITH x_only_public_keys AS (
                -- These are the aggregate public keys that this signer is
                -- a party on. We lop off the first byte because we want
                -- x-only aggregate keys here.
                SELECT substring(aggregate_key FROM 2) AS signers_public_key
                FROM sbtc_signer.dkg_shares AS ds
                WHERE $3 = ANY(signer_set_public_keys)
            )
            SELECT xo.signers_public_key IS NOT NULL
            FROM sbtc_signer.deposit_requests AS dr
            LEFT JOIN x_only_public_keys AS xo USING (signers_public_key)
            WHERE dr.txid = $1
              AND dr.output_index = $2
            LIMIT 1
            "#;

/// Whether a deposit request is known.
pub const DEPOSIT_REQUEST_EXISTS: &'static str = r#"
            SELECT EXISTS (
                SELECT TRUE
                FROM sbtc_signer.deposit_requests AS dr
                WHERE dr.txid = $1
                  AND dr.output_index = $2
            )
            "#;

/// The decisions on a withdrawal request.
pub const GET_WITHDRAWAL_SIGNERS: &'static str = "SELECT
                request_id
              , txid
              , block_hash
              , signer_pub_key
              , is_accepted
              , created_at
            FROM sbtc_signer.withdrawal_signers
            WHERE request_id = $1 AND block_hash = $2";

/// The withdrawal requests in a window on which a signer has not voted.
pub const GET_PENDING_WITHDRAWAL_REQUESTS: &'static str = r#"
            WITH RECURSIVE extended_context_window AS (
                SELECT
                    block_hash
                  , parent_hash
                  , 1 AS depth
                FROM sbtc_signer.bitcoin_blocks
                WHERE block_hash = $1

                UNION ALL

                SELECT
                    parent.block_hash
                  , parent.parent_hash
                  , last.depth + 1
                FROM sbtc_signer.bitcoin_blocks parent
                JOIN extended_context_window last ON parent.block_hash = last.parent_hash
                WHERE last.depth <= $3
            ),
            stacks_context_window AS (
                SELECT
                    stacks_blocks.block_hash
                  , stacks_blocks.block_height
                  , stacks_blocks.parent_hash
                FROM sbtc_signer.stacks_blocks stacks_blocks
                WHERE stacks_blocks.block_hash = $2

                UNION ALL

                SELECT
                    parent.block_hash
                  , parent.block_height
                  , parent.parent_hash
                FROM sbtc_signer.stacks_blocks parent
                JOIN stacks_context_window last
                        ON parent.block_hash = last.parent_hash
                JOIN extended_context_window block
                        ON block.block_hash = parent.bitcoin_anchor
            )
            SELECT
                wr.request_id
              , wr.txid
              , wr.block_hash
              , wr.recipient
              , wr.amount
              , wr.max_fee
              , wr.sender_address
              , wr.bitcoin_block_height
            FROM sbtc_signer.withdrawal_requests wr
            JOIN stacks_context_window sc USING (block_hash)
            LEFT JOIN sbtc_signer.withdrawal_signers AS ws
              ON ws.request_id = wr.request_id
             AND ws.block_hash = wr.block_hash
             AND ws.signer_pub_key = $4
            WHERE ws.request_id IS NULL
            "#;

/// The withdrawal requests that enough signers accepted and that are neither
/// paid nor rejected.
pub const GET_PENDING_ACCEPTED_WITHDRAWAL_REQUESTS: &'static str = r#"
            -- get_pending_accepted_withdrawal_requests
            WITH recursive

            -- Get all withdrawal requests which have a bitcoin block height
            -- of at least minimum height provided.
            requests AS (
                SELECT
                    wr.request_id
                  , wr.txid
                  , wr.block_hash
                  , wr.recipient
                  , wr.amount
                  , wr.max_fee
                  , wr.sender_address
                  , wr.bitcoin_block_height
                  , bt.block_hash as sweep_block_hash
                  , wre.block_hash as reject_block_hash
                FROM sbtc_signer.withdrawal_requests wr

                -- Join in any sweep transactions we know about.
                LEFT JOIN sbtc_signer.bitcoin_withdrawals_outputs bwo
                    ON bwo.request_id = wr.request_id
                    AND bwo.stacks_block_hash = wr.block_hash
                LEFT JOIN sbtc_signer.bitcoin_transactions bt
                    ON bt.txid = bwo.bitcoin_txid

                -- Join in any rejection events we know about.
                LEFT JOIN sbtc_signer.withdrawal_reject_events AS wre
                    ON wre.request_id = wr.request_id

                -- Only requests where the bitcoin height is >= than the minimum.
                WHERE wr.bitcoin_block_height >= $3
            ),

            -- Fetch the canonical bitcoin blockchain from the chain tip back
            -- to the lowest bitcoin block height of the requests.
            bitcoin_blockchain AS (
                SELECT
                    block_hash
                  , block_height
                FROM bitcoin_blockchain_until($1, $3 - 1)
            ),

            -- Fetch the canonical stacks blockchain from the chain tip back
            -- to the anchor block with the lowest bitcoin block height of all of
            -- the requests.
            stacks_blockchain AS (
                SELECT
                    stacks_blocks.block_hash
                  , stacks_blocks.block_height
                  , stacks_blocks.parent_hash
                FROM sbtc_signer.stacks_blocks stacks_blocks
                WHERE stacks_blocks.block_hash = $2

                UNION ALL

                SELECT
                    parent.block_hash
                  , parent.block_height
                  , parent.parent_hash
                FROM sbtc_signer.stacks_blocks parent
                JOIN stacks_blockchain last
                    ON parent.block_hash = last.parent_hash
                JOIN bitcoin_blockchain anchor
                    ON anchor.block_hash = parent.bitcoin_anchor
            )

            -- Main select clause (what we're returning).
            SELECT
                wr.request_id
              , wr.txid
              , wr.block_hash
              , wr.recipient
              , wr.amount
              , wr.max_fee
              , wr.sender_address
              , wr.bitcoin_block_height

            -- We start the query from the `requests` CTE.
            FROM requests wr

            -- Return a row for each signer vote.
            JOIN sbtc_signer.withdrawal_signers signers ON
                wr.request_id = signers.request_id
                AND wr.block_hash = signers.block_hash
                AND signers.is_accepted = TRUE

            -- Ensure the request is confirmed on the canonical stacks chain
            JOIN stacks_blockchain canonical_confirmed
                ON wr.block_hash = canonical_confirmed.block_hash

            -- Are there any confirmed sweep transactions?
            LEFT JOIN bitcoin_blockchain AS canonical_sweep
                ON wr.sweep_block_hash = canonical_sweep.block_hash

            -- Are there any confirmed reject transactions?
            LEFT JOIN stacks_blockchain AS canonical_reject
                ON wr.reject_block_hash = canonical_reject.block_hash

            GROUP BY
                wr.request_id
              , wr.block_hash
              , wr.txid
              , wr.recipient
              , wr.amount
              , wr.max_fee
              , wr.sender_address
              , wr.bitcoin_block_height

            HAVING
                -- Ensure there are enough 'yes' votes.
                COUNT(DISTINCT signers.signer_pub_key) >= $4
                -- Ensure there are no confirmed sweep transactions.
                AND COUNT(canonical_sweep.block_hash) = 0
                -- Ensure there are no confirmed reject contract-calls.
                AND COUNT(canonical_reject.block_hash) = 0

            ORDER BY
                wr.request_id ASC
            "#;

/// The withdrawal requests in a window that have expired without being paid
/// or rejected.
pub const GET_PENDING_REJECTED_WITHDRAWAL_REQUESTS: &'static str = r#"
            -- get_pending_rejected_withdrawal_requests
            WITH RECURSIVE bitcoin_blockchain AS (
                SELECT
                    block_hash
                  , block_height
                FROM bitcoin_blockchain_of($1, $2)
            ),
            stacks_context_window AS (
                SELECT
                    stacks_blocks.block_hash
                  , stacks_blocks.block_height
                  , stacks_blocks.parent_hash
                FROM sbtc_signer.stacks_blocks stacks_blocks
                WHERE stacks_blocks.block_hash = $3

                UNION ALL

                SELECT
                    parent.block_hash
                  , parent.block_height
                  , parent.parent_hash
                FROM sbtc_signer.stacks_blocks parent
                JOIN stacks_context_window last
                  ON parent.block_hash = last.parent_hash
                -- Limit the recursion to the bitcoin context window height. We
                -- are not joining directly on `bitcoin_blockchain` as once we
                -- get the stacks chain tip considering its anchor block, then
                -- we can just walk backwards.
                JOIN sbtc_signer.bitcoin_blocks block
                  ON block.block_hash = parent.bitcoin_anchor
                WHERE block.block_height >= (SELECT MIN(block_height) FROM bitcoin_blockchain)
            )
            SELECT
                wr.request_id
              , wr.txid
              , wr.block_hash
              , wr.recipient
              , wr.amount
              , wr.max_fee
              , wr.sender_address
              , wr.bitcoin_block_height
            FROM sbtc_signer.withdrawal_requests wr
            -- Request confirmed on stacks chain
            JOIN stacks_context_window sc ON wr.block_hash = sc.block_hash
            -- Request not accepted
            LEFT JOIN sbtc_signer.bitcoin_withdrawals_outputs AS bwo
                ON bwo.request_id = wr.request_id
                AND bwo.stacks_block_hash = wr.block_hash
            LEFT JOIN bitcoin_transactions AS bc_trx
                ON bc_trx.txid = bwo.bitcoin_txid
            LEFT JOIN bitcoin_blockchain
                ON bc_trx.block_hash = bitcoin_blockchain.block_hash
            -- Request not rejected
            LEFT JOIN withdrawal_reject_events AS wre
                ON wre.request_id = wr.request_id
            LEFT JOIN stacks_context_window sc2
                ON wre.block_hash = sc2.block_hash
            -- Request is expired
            WHERE wr.bitcoin_block_height < $4

            -- we need to group since we could have multiple withdrawals
            -- outputs for a single request, and some of them may not be in
            -- the canonical chain, resulting in a NULL bc_trx.block_hash;
            -- so we group and check that all the rows have NULL
            GROUP BY
                wr.request_id
              , wr.txid
              , wr.block_hash
              , wr.recipient
              , wr.amount
              , wr.max_fee
              , wr.sender_address
              , wr.bitcoin_block_height
            HAVING
                -- Request not accepted (cont'd)
                COUNT(bitcoin_blockchain.block_height) = 0
                -- Request not rejected (cont'd)
            AND COUNT(sc2.block_hash) = 0
            "#;

/// The sum of the withdrawals in a window.
pub const COMPUTE_WITHDRAWN_TOTAL: &'static str = r#"
            SELECT SUM(bto.amount)::BIGINT
            FROM sbtc_signer.bitcoin_tx_outputs AS bto
            JOIN sbtc_signer.bitcoin_transactions AS bt
              ON bt.txid = bto.txid
            JOIN bitcoin_blockchain_of($1, $2) AS bbo
              ON bbo.block_hash = bt.block_hash
            WHERE bto.output_type = 'withdrawal'
            "#;

/// The blocks that confirm a transaction.
pub const GET_BITCOIN_BLOCKS_WITH_TRANSACTION: &'static str = "SELECT txid, block_hash FROM sbtc_signer.bitcoin_transactions WHERE txid = $1";

/// A row if a stacks block is known.
pub const STACKS_BLOCK_EXISTS: &'static str = r#"
            SELECT TRUE AS exists
            FROM sbtc_signer.stacks_blocks
            WHERE block_hash = $1;"#;

/// The shares of an aggregate key.
pub const GET_ENCRYPTED_DKG_SHARES: &'static str = r#"
            SELECT
                aggregate_key
              , tweaked_aggregate_key
              , script_pubkey
              , encrypted_private_shares
              , public_shares
              , signer_set_public_keys
              , signature_share_threshold
              , dkg_shares_status
              , started_at_bitcoin_block_hash
              , started_at_bitcoin_block_height
            FROM sbtc_signer.dkg_shares
            WHERE substring(aggregate_key FROM 2) = $1;
            "#;

/// The newest shares.
pub const GET_LATEST_ENCRYPTED_DKG_SHARES: &'static str = r#"
            SELECT
                aggregate_key
              , tweaked_aggregate_key
              , script_pubkey
              , encrypted_private_shares
              , public_shares
              , signer_set_public_keys
              , signature_share_threshold
              , dkg_shares_status
              , started_at_bitcoin_block_hash
              , started_at_bitcoin_block_height
            FROM sbtc_signer.dkg_shares
            ORDER BY created_at DESC
            LIMIT 1;
            "#;

/// The newest verified shares.
pub const GET_LATEST_VERIFIED_DKG_SHARES: &'static str = r#"
            SELECT
                aggregate_key
              , tweaked_aggregate_key
              , script_pubkey
              , encrypted_private_shares
              , public_shares
              , signer_set_public_keys
              , signature_share_threshold
              , dkg_shares_status
              , started_at_bitcoin_block_hash
              , started_at_bitcoin_block_height
            FROM sbtc_signer.dkg_shares
            WHERE dkg_shares_status = 'verified'
            ORDER BY created_at DESC
            LIMIT 1;
            "#;

/// The number of shares that have not failed.
pub const GET_ENCRYPTED_DKG_SHARES_COUNT: &'static str = "SELECT COUNT(*) FROM sbtc_signer.dkg_shares WHERE dkg_shares_status != 'failed';";

/// The last key rotation on a stacks blockchain.
pub const GET_LAST_KEY_ROTATION: &'static str = r#"
            WITH RECURSIVE stacks_blocks AS (
                SELECT
                    block_hash
                  , parent_hash
                  , block_height
                  , 1 AS depth
                FROM sbtc_signer.stacks_blocks
                WHERE block_hash = $1

                UNION ALL

                SELECT
                    parent.block_hash
                  , parent.parent_hash
                  , parent.block_height
                  , last.depth + 1
                FROM sbtc_signer.stacks_blocks parent
                JOIN stacks_blocks last ON parent.block_hash = last.parent_hash
            )
            SELECT
                rkt.txid
              , rkt.block_hash
              , rkt.address
              , rkt.aggregate_key
              , rkt.signer_set
              , rkt.signatures_required
            FROM sbtc_signer.rotate_keys_transactions rkt
            JOIN stacks_blocks AS sb
              ON rkt.block_hash = sb.block_hash
            ORDER BY sb.block_height DESC, sb.block_hash DESC, rkt.txid DESC
            LIMIT 1
            "#;

/// Whether a key rotation is confirmed on a stacks blockchain.
pub const KEY_ROTATION_EXISTS: &'static str = r#"
            WITH RECURSIVE stacks_blocks AS (
                SELECT
                    block_hash
                  , parent_hash
                  , block_height
                  , 1 AS depth
                FROM sbtc_signer.stacks_blocks
                WHERE block_hash = $1

                UNION ALL

                SELECT
                    parent.block_hash
                  , parent.parent_hash
                  , parent.block_height
                  , last.depth + 1
                FROM sbtc_signer.stacks_blocks parent
                JOIN stacks_blocks last ON parent.block_hash = last.parent_hash
            )
            SELECT EXISTS (
                SELECT TRUE
                FROM sbtc_signer.rotate_keys_transactions AS rkt
                JOIN stacks_blocks AS sb 
                  ON rkt.block_hash = sb.block_hash
                WHERE rkt.signer_set = $2
                  AND rkt.aggregate_key = $3
                  AND rkt.signatures_required = $4
            )
            "#;

/// The scripts of the newest shares and of those of the last year.
pub const GET_SIGNERS_SCRIPT_PUBKEYS: &'static str = r#"
            WITH last_script_pubkey AS (
                SELECT script_pubkey
                FROM sbtc_signer.dkg_shares
                ORDER BY created_at DESC
                LIMIT 1
            )
            SELECT script_pubkey
            FROM last_script_pubkey

            UNION

            SELECT script_pubkey
            FROM sbtc_signer.dkg_shares
            WHERE created_at > CURRENT_TIMESTAMP - INTERVAL '365 DAYS';
            "#;

/// Whether a bitcoin block is known.
pub const IS_KNOWN_BITCOIN_BLOCK_HASH: &'static str = r#"
            SELECT EXISTS (
                SELECT TRUE
                FROM sbtc_signer.bitcoin_blocks AS bb
                WHERE bb.block_hash = $1
            );
        "#;

/// Whether a block is part of a bitcoin blockchain.
pub const IN_CANONICAL_BITCOIN_BLOCKCHAIN: &'static str = r#"
            WITH RECURSIVE tx_block_chain AS (
                SELECT
                    block_hash
                  , block_height
                  , parent_hash
                  , 0 AS counter
                FROM sbtc_signer.bitcoin_blocks
                WHERE block_hash = $1

                UNION ALL

                SELECT
                    child.block_hash
                  , child.block_height
                  , child.parent_hash
                  , parent.counter + 1
                FROM sbtc_signer.bitcoin_blocks AS child
                JOIN tx_block_chain AS parent
                  ON child.block_hash = parent.parent_hash
                WHERE parent.counter <= $3
            )
            SELECT EXISTS (
                SELECT TRUE
                FROM tx_block_chain AS tbc
                WHERE tbc.block_hash = $2
                  AND tbc.block_height = $4
            );
        "#;

/// Whether a script belongs to some shares.
pub const IS_SIGNER_SCRIPT_PUB_KEY: &'static str = r#"
            SELECT EXISTS (
                SELECT TRUE
                FROM sbtc_signer.dkg_shares AS ds
                WHERE ds.script_pubkey = $1
            );
        "#;

/// Whether a proposed transaction that descends from another one pays a
/// withdrawal request.
pub const IS_WITHDRAWAL_INFLIGHT: &'static str = r#"
            WITH RECURSIVE proposed_transactions AS (
                SELECT
                    bts.txid
                  , bts.prevout_txid
                FROM sbtc_signer.bitcoin_tx_sighashes AS bts
                WHERE bts.prevout_txid = $1

                UNION ALL

                SELECT
                    bts.txid
                  , bts.prevout_txid
                FROM sbtc_signer.bitcoin_tx_sighashes AS bts
                JOIN proposed_transactions AS parent
                  ON bts.prevout_txid = parent.txid
                WHERE bts.prevout_type = 'signers_input'
            )
            SELECT EXISTS (
                SELECT TRUE
                FROM sbtc_signer.bitcoin_withdrawals_outputs AS bwo
                JOIN proposed_transactions AS pt
                  ON pt.txid = bwo.bitcoin_txid
                WHERE bwo.request_id = $2
                  AND bwo.stacks_block_hash = $3
            )"#;

/// The height at which the signers last considered a withdrawal request.
pub const LAST_CONSIDERED_HEIGHT: &'static str = r#"
            SELECT MAX(bb.block_height)
            FROM sbtc_signer.bitcoin_withdrawals_outputs AS bwo
            JOIN sbtc_signer.bitcoin_blocks AS bb
              ON bb.block_hash = bwo.bitcoin_chain_tip
            WHERE bwo.request_id = $1
              AND bwo.stacks_block_hash = $2
            "#;

/// The deposit requests that were swept in a window and not completed.
pub const GET_SWEPT_DEPOSIT_REQUESTS: &'static str = "
            WITH RECURSIVE bitcoin_blockchain AS (
                SELECT
                    block_hash
                  , block_height
                FROM bitcoin_blockchain_of($1, $2)
            ),
            stacks_blockchain AS (
                SELECT
                    stacks_blocks.block_hash
                  , stacks_blocks.block_height
                  , stacks_blocks.parent_hash
                FROM sbtc_signer.stacks_blocks stacks_blocks
                JOIN bitcoin_blockchain as bb
                    ON bb.block_hash = stacks_blocks.bitcoin_anchor
                WHERE stacks_blocks.block_hash = $3

                UNION ALL

                SELECT
                    parent.block_hash
                  , parent.block_height
                  , parent.parent_hash
                FROM sbtc_signer.stacks_blocks parent
                JOIN stacks_blockchain last
                  ON parent.block_hash = last.parent_hash
                JOIN bitcoin_blockchain AS bb
                  ON bb.block_hash = parent.bitcoin_anchor
            )
            SELECT
                bc_trx.txid AS sweep_txid
              , bc_trx.block_hash AS sweep_block_hash
              , bc_blocks.block_height AS sweep_block_height
              , deposit_req.txid
              , deposit_req.output_index
              , deposit_req.recipient
              , deposit_req.amount
              , deposit_req.max_fee
            FROM bitcoin_blockchain AS bc_blocks
            INNER JOIN bitcoin_transactions AS bc_trx USING (block_hash)
            INNER JOIN bitcoin_tx_inputs AS bti USING (txid)
            INNER JOIN deposit_requests AS deposit_req
              ON deposit_req.txid = bti.prevout_txid
             AND deposit_req.output_index = bti.prevout_output_index
            LEFT JOIN completed_deposit_events AS cde
              ON cde.bitcoin_txid = deposit_req.txid
             AND cde.output_index = deposit_req.output_index
            LEFT JOIN stacks_blockchain AS sb
              ON sb.block_hash = cde.block_hash
            GROUP BY
                bc_trx.txid
              , bc_trx.block_hash
              , bc_blocks.block_height
              , deposit_req.txid
              , deposit_req.output_index
              , deposit_req.recipient
              , deposit_req.amount
            HAVING
                COUNT(sb.block_hash) = 0
        ";

/// The withdrawal requests that were paid in a window and not completed.
pub const GET_SWEPT_WITHDRAWAL_REQUESTS: &'static str = "
                WITH RECURSIVE bitcoin_blockchain AS (
                    SELECT
                        block_hash
                      , block_height
                    FROM bitcoin_blockchain_of($1, $2)
                ),
                stacks_blockchain AS (
                    SELECT
                        stacks_blocks.block_hash
                      , stacks_blocks.block_height
                      , stacks_blocks.parent_hash
                    FROM sbtc_signer.stacks_blocks stacks_blocks
                    JOIN bitcoin_blockchain AS bb
                        ON bb.block_hash = stacks_blocks.bitcoin_anchor
                    WHERE stacks_blocks.block_hash = $3
                    UNION ALL
                    SELECT
                        parent.block_hash
                      , parent.block_height
                      , parent.parent_hash
                    FROM sbtc_signer.stacks_blocks parent
                    JOIN stacks_blockchain last
                        ON parent.block_hash = last.parent_hash
                    JOIN bitcoin_blockchain AS bb
                        ON bb.block_hash = parent.bitcoin_anchor
                )
                SELECT
                    bwo.output_index AS output_index
                  , bwo.bitcoin_txid AS sweep_txid
                  , bc_blocks.block_hash AS sweep_block_hash
                  , bc_blocks.block_height AS sweep_block_height
                  , wr.request_id
                  , wr.txid
                  , wr.block_hash AS block_hash
                  , wr.recipient
                  , wr.amount
                  , wr.max_fee
                  , wr.sender_address
                FROM sbtc_signer.bitcoin_withdrawals_outputs AS bwo
                JOIN sbtc_signer.bitcoin_transactions AS bt
                    ON bt.txid = bwo.bitcoin_txid
                JOIN sbtc_signer.withdrawal_requests AS wr
                    ON wr.request_id = bwo.request_id
                    AND wr.block_hash = bwo.stacks_block_hash
                JOIN bitcoin_blockchain AS bc_blocks
                    ON bc_blocks.block_hash = bt.block_hash
                LEFT JOIN sbtc_signer.withdrawal_accept_events AS wae
                    ON wae.request_id = wr.request_id
                LEFT JOIN stacks_blockchain AS sb
                    ON sb.block_hash = wae.block_hash

                GROUP BY
                    bwo.output_index
                  , bwo.bitcoin_txid
                  , bc_blocks.block_hash
                  , bc_blocks.block_height
                  , wr.request_id
                  , wr.txid
                  , wr.block_hash
                  , wr.recipient
                  , wr.amount
                  , wr.max_fee
                  , wr.sender_address

                HAVING
                    COUNT(sb.block_hash) = 0
        ";

/// A deposit request.
pub const GET_DEPOSIT_REQUEST: &'static str = r#"
            SELECT txid
                 , output_index
                 , spend_script
                 , reclaim_script
                 , recipient
                 , amount
                 , max_fee
                 , lock_time
                 , signers_public_key
                 , sender_script_pub_keys
            FROM sbtc_signer.deposit_requests
            WHERE txid = $1
              AND output_index = $2
            "#;

/// Whether the signer signs a digest, and with which key.
pub const WILL_SIGN_BITCOIN_TX_SIGHASH: &'static str = r#"
            SELECT
                will_sign
              , x_only_public_key
            FROM sbtc_signer.bitcoin_tx_sighashes
            WHERE sighash = $1
            "#;

/// A signer's decisions on withdrawal requests since the start of a window.
pub const GET_WITHDRAWAL_SIGNER_DECISIONS: &'static str = r#"
            WITH target_block AS (
                SELECT blocks.block_hash, blocks.created_at
                FROM sbtc_signer.bitcoin_blockchain_of($1, $2) chain
                JOIN sbtc_signer.bitcoin_blocks blocks USING (block_hash)
                ORDER BY chain.block_height ASC
                LIMIT 1
            )
            SELECT
                ws.request_id
              , ws.txid
              , ws.block_hash
              , ws.signer_pub_key
              , ws.is_accepted

            FROM sbtc_signer.withdrawal_signers ws
            WHERE ws.signer_pub_key = $3
              AND ws.created_at >= (SELECT created_at FROM target_block)
            "#;

/// A signer's decisions on deposit requests since the start of a window.
pub const GET_DEPOSIT_SIGNER_DECISIONS: &'static str = r#"
            WITH target_block AS (
                SELECT blocks.block_hash, blocks.created_at
                FROM sbtc_signer.bitcoin_blockchain_of($1, $2) chain
                JOIN sbtc_signer.bitcoin_blocks blocks USING (block_hash)
                ORDER BY chain.block_height ASC
                LIMIT 1
            )
            SELECT
                ds.txid
              , ds.output_index
              , ds.signer_pub_key
              , ds.can_sign
              , ds.can_accept
            FROM sbtc_signer.deposit_signers ds
            WHERE ds.signer_pub_key = $3
              AND ds.created_at >= (SELECT created_at FROM target_block)
            "#;

/// Stores a bitcoin block.
pub const WRITE_BITCOIN_BLOCK: &'static str = "INSERT INTO sbtc_signer.bitcoin_blocks
              ( block_hash
              , block_height
              , parent_hash
              )
            VALUES ($1, $2, $3)
            ON CONFLICT DO NOTHING";

/// Stores a stacks block.
pub const WRITE_STACKS_BLOCK: &'static str = "INSERT INTO sbtc_signer.stacks_blocks
              ( block_hash
              , block_height
              , parent_hash
              , bitcoin_anchor
              )
            VALUES ($1, $2, $3, $4)
            ON CONFLICT DO NOTHING";

/// Stores a deposit request.
pub const WRITE_DEPOSIT_REQUEST: &'static str = "INSERT INTO sbtc_signer.deposit_requests
              ( txid
              , output_index
              , spend_script
              , reclaim_script
              , recipient
              , amount
              , max_fee
              , lock_time
              , signers_public_key
              , sender_script_pub_keys
              )
            VALUES ($1, $2, $3, $4, $5, $6, $7, $8, $9, $10)
            ON CONFLICT DO NOTHING";

/// Stores deposit requests.
pub const WRITE_DEPOSIT_REQUESTS: &'static str = r#"
            WITH tx_ids       AS (SELECT ROW_NUMBER() OVER (), txid FROM UNNEST($1::BYTEA[]) AS txid)
            , output_index    AS (SELECT ROW_NUMBER() OVER (), output_index FROM UNNEST($2::INTEGER[]) AS output_index)
            , spend_script    AS (SELECT ROW_NUMBER() OVER (), spend_script FROM UNNEST($3::BYTEA[]) AS spend_script)
            , reclaim_script  AS (SELECT ROW_NUMBER() OVER (), reclaim_script FROM UNNEST($4::BYTEA[]) AS reclaim_script)
            , recipient       AS (SELECT ROW_NUMBER() OVER (), recipient FROM UNNEST($5::TEXT[]) AS recipient)
            , amount          AS (SELECT ROW_NUMBER() OVER (), amount FROM UNNEST($6::BIGINT[]) AS amount)
            , max_fee         AS (SELECT ROW_NUMBER() OVER (), max_fee FROM UNNEST($7::BIGINT[]) AS max_fee)
            , lock_time       AS (SELECT ROW_NUMBER() OVER (), lock_time FROM UNNEST($8::BIGINT[]) AS lock_time)
            , signer_pub_keys AS (SELECT ROW_NUMBER() OVER (), signers_public_key FROM UNNEST($9::BYTEA[]) AS signers_public_key)
            , script_pub_keys AS (SELECT ROW_NUMBER() OVER (), senders FROM UNNEST($10::VARCHAR[]) AS senders)
            INSERT INTO sbtc_signer.deposit_requests (
                  txid
                , output_index
                , spend_script
                , reclaim_script
                , recipient
                , amount
                , max_fee
                , lock_time
                , signers_public_key
                , sender_script_pub_keys)
            SELECT
                txid
              , output_index
              , spend_script
              , reclaim_script
              , recipient
              , amount
              , max_fee
              , lock_time
              , signers_public_key
              , ARRAY(SELECT decode(UNNEST(regexp_split_to_array(senders, ',')), 'hex'))
            FROM tx_ids
            JOIN output_index USING (row_number)
            JOIN spend_script USING (row_number)
            JOIN reclaim_script USING (row_number)
            JOIN recipient USING (row_number)
            JOIN amount USING (row_number)
            JOIN max_fee USING (row_number)
            JOIN lock_time USING (row_number)
            JOIN signer_pub_keys USING (row_number)
            JOIN script_pub_keys USING (row_number)
            ON CONFLICT DO NOTHING"#;

/// Stores a withdrawal request.
pub const WRITE_WITHDRAWAL_REQUEST: &'static str = "INSERT INTO sbtc_signer.withdrawal_requests
              ( request_id
              , txid
              , block_hash
              , recipient
              , amount
              , max_fee
              , sender_address
              , bitcoin_block_height
              )
            VALUES ($1, $2, $3, $4, $5, $6, $7, $8)
            ON CONFLICT DO NOTHING";

/// Stores a decision on a deposit request.
pub const WRITE_DEPOSIT_SIGNER_DECISION: &'static str = "INSERT INTO sbtc_signer.deposit_signers
              ( txid
              , output_index
              , signer_pub_key
              , can_accept
              , can_sign
              )
            VALUES ($1, $2, $3, $4, $5)
            ON CONFLICT DO NOTHING";

/// Stores a decision on a withdrawal request.
pub const WRITE_WITHDRAWAL_SIGNER_DECISION: &'static str = "INSERT INTO sbtc_signer.withdrawal_signers
              ( request_id
              , txid
              , block_hash
              , signer_pub_key
              , is_accepted
              )
            VALUES ($1, $2, $3, $4, $5)
            ON CONFLICT DO NOTHING";

/// Stores a bitcoin transaction.
pub const WRITE_BITCOIN_TRANSACTION: &'static str = "INSERT INTO sbtc_signer.bitcoin_transactions (txid, block_hash)
            VALUES ($1, $2)
            ON CONFLICT DO NOTHING";

/// Stores bitcoin transactions.
pub const WRITE_BITCOIN_TRANSACTIONS: &'static str = r#"
            WITH tx_ids AS (
                SELECT ROW_NUMBER() OVER (), txid
                FROM UNNEST($1::bytea[]) AS txid
            )
            , block_ids AS (
                SELECT ROW_NUMBER() OVER (), block_id
                FROM UNNEST($2::bytea[]) AS block_id
            )
            INSERT INTO sbtc_signer.bitcoin_transactions (txid, block_hash)
            SELECT
                txid
              , block_id
            FROM tx_ids
            JOIN block_ids USING (row_number)
            ON CONFLICT DO NOTHING"#;

/// Stores stacks blocks.
pub const WRITE_STACKS_BLOCK_HEADERS: &'static str = r#"
            WITH block_ids AS (
                SELECT ROW_NUMBER() OVER (), block_id
                FROM UNNEST($1::bytea[]) AS block_id
            )
            , parent_block_ids AS (
                SELECT ROW_NUMBER() OVER (), parent_block_id
                FROM UNNEST($2::bytea[]) AS parent_block_id
            )
            , chain_lengths AS (
                SELECT ROW_NUMBER() OVER (), chain_length
                FROM UNNEST($3::bigint[]) AS chain_length
            )
            , bitcoin_anchors AS (
                SELECT ROW_NUMBER() OVER (), bitcoin_anchor
                FROM UNNEST($4::bytea[]) AS bitcoin_anchor
            )
            INSERT INTO sbtc_signer.stacks_blocks (block_hash, block_height, parent_hash, bitcoin_anchor)
            SELECT
                block_id
              , chain_length
              , parent_block_id
              , bitcoin_anchor
            FROM block_ids
            JOIN parent_block_ids USING (row_number)
            JOIN chain_lengths USING (row_number)
            JOIN bitcoin_anchors USING (row_number)
            ON CONFLICT DO NOTHING"#;

/// Stores shares.
pub const WRITE_ENCRYPTED_DKG_SHARES: &'static str = r#"
            INSERT INTO sbtc_signer.dkg_shares (
                aggregate_key
              , tweaked_aggregate_key
              , encrypted_private_shares
              , public_shares
              , script_pubkey
              , signer_set_public_keys
              , signature_share_threshold
              , dkg_shares_status
              , started_at_bitcoin_block_hash
              , started_at_bitcoin_block_height
            )
            VALUES ($1, $2, $3, $4, $5, $6, $7, $8, $9, $10)
            ON CONFLICT DO NOTHING"#;

/// Stores a key rotation.
pub const WRITE_ROTATE_KEYS_TRANSACTION: &'static str = r#"
            INSERT INTO sbtc_signer.rotate_keys_transactions (
                  txid
                , block_hash
                , address
                , aggregate_key
                , signer_set
                , signatures_required)
            VALUES
                ($1, $2, $3, $4, $5, $6)
            ON CONFLICT DO NOTHING"#;

/// Stores the completion of a deposit.
pub const WRITE_COMPLETED_DEPOSIT_EVENT: &'static str = "
        INSERT INTO sbtc_signer.completed_deposit_events (
            txid
          , block_hash
          , amount
          , bitcoin_txid
          , output_index
          , sweep_block_hash
          , sweep_block_height
          , sweep_txid
        )
        VALUES ($1, $2, $3, $4, $5, $6, $7, $8)";

/// Stores the payment of a withdrawal request.
pub const WRITE_WITHDRAWAL_ACCEPT_EVENT: &'static str = "
        INSERT INTO sbtc_signer.withdrawal_accept_events (
            txid
          , block_hash
          , request_id
          , signer_bitmap
          , bitcoin_txid
          , output_index
          , fee
          , sweep_block_hash
          , sweep_block_height
          , sweep_txid
        )
        VALUES ($1, $2, $3, $4, $5, $6, $7, $8, $9, $10)";

/// Stores the rejection of a withdrawal request.
pub const WRITE_WITHDRAWAL_REJECT_EVENT: &'static str = "
        INSERT INTO sbtc_signer.withdrawal_reject_events (
            txid
          , block_hash
          , request_id
          , signer_bitmap
        )
        VALUES ($1, $2, $3, $4)";

/// Stores an output.
pub const WRITE_TX_OUTPUT: &'static str = r#"
            INSERT INTO bitcoin_tx_outputs (
                txid
              , output_index
              , amount
              , script_pubkey
              , output_type
            )
            VALUES ($1, $2, $3, $4, $5)
            ON CONFLICT DO NOTHING;
            "#;

/// Stores an output that pays a withdrawal request.
pub const WRITE_WITHDRAWAL_TX_OUTPUT: &'static str = r#"
            INSERT INTO bitcoin_withdrawal_tx_outputs (
                txid
              , output_index
              , request_id
            )
            VALUES ($1, $2, $3)
            ON CONFLICT DO NOTHING;
            "#;

/// Stores a spent output.
pub const WRITE_TX_PREVOUT: &'static str = r#"
            INSERT INTO bitcoin_tx_inputs (
                txid
              , prevout_txid
              , prevout_output_index
              , amount
              , script_pubkey
              , prevout_type
            )
            VALUES ($1, $2, $3, $4, $5, $6)
            ON CONFLICT DO NOTHING;
            "#;

/// Stores digests.
pub const WRITE_BITCOIN_TXS_SIGHASHES: &'static str = r#"
            WITH tx_ids             AS (SELECT ROW_NUMBER() OVER (), txid FROM UNNEST($1::BYTEA[]) AS txid)
            , chain_tip             AS (SELECT ROW_NUMBER() OVER (), chain_tip FROM UNNEST($2::BYTEA[]) AS chain_tip)
            , prevout_txid          AS (SELECT ROW_NUMBER() OVER (), prevout_txid FROM UNNEST($3::BYTEA[]) AS prevout_txid)
            , prevout_output_index  AS (SELECT ROW_NUMBER() OVER (), prevout_output_index FROM UNNEST($4::INTEGER[]) AS prevout_output_index)
            , sighash               AS (SELECT ROW_NUMBER() OVER (), sighash FROM UNNEST($5::BYTEA[]) AS sighash)
            , prevout_type          AS (SELECT ROW_NUMBER() OVER (), prevout_type FROM UNNEST($6::sbtc_signer.prevout_type[]) AS prevout_type)
            , validation_result     AS (SELECT ROW_NUMBER() OVER (), validation_result FROM UNNEST($7::TEXT[]) AS validation_result)
            , is_valid_tx           AS (SELECT ROW_NUMBER() OVER (), is_valid_tx FROM UNNEST($8::BOOLEAN[]) AS is_valid_tx)
            , will_sign             AS (SELECT ROW_NUMBER() OVER (), will_sign FROM UNNEST($9::BOOLEAN[]) AS will_sign)
            , x_only_public_key     AS (SELECT ROW_NUMBER() OVER (), x_only_public_key FROM UNNEST($10::BYTEA[]) AS x_only_public_key)
            INSERT INTO sbtc_signer.bitcoin_tx_sighashes (
                  txid
                , chain_tip
                , prevout_txid
                , prevout_output_index
                , sighash
                , prevout_type
                , validation_result
                , is_valid_tx
                , will_sign
                , x_only_public_key
            )
            SELECT
                txid
              , chain_tip
              , prevout_txid
              , prevout_output_index
              , sighash
              , prevout_type
              , validation_result
              , is_valid_tx
              , will_sign
              , x_only_public_key
            FROM tx_ids
            JOIN chain_tip USING (row_number)
            JOIN prevout_txid USING (row_number)
            JOIN prevout_output_index USING (row_number)
            JOIN sighash USING (row_number)
            JOIN prevout_type USING (row_number)
            JOIN validation_result USING (row_number)
            JOIN is_valid_tx USING (row_number)
            JOIN will_sign USING (row_number)
            JOIN x_only_public_key USING (row_number)
            ON CONFLICT DO NOTHING"#;

/// Stores outputs of proposed transactions.
pub const WRITE_BITCOIN_WITHDRAWALS_OUTPUTS: &'static str = r#"
            WITH bitcoin_tx_ids     AS (SELECT ROW_NUMBER() OVER (), bitcoin_txid FROM UNNEST($1::BYTEA[]) AS bitcoin_txid)
            , bitcoin_chain_tip     AS (SELECT ROW_NUMBER() OVER (), bitcoin_chain_tip FROM UNNEST($2::BYTEA[]) AS bitcoin_chain_tip)
            , output_index          AS (SELECT ROW_NUMBER() OVER (), output_index FROM UNNEST($3::INTEGER[]) AS output_index)
            , request_id            AS (SELECT ROW_NUMBER() OVER (), request_id FROM UNNEST($4::BIGINT[]) AS request_id)
            , stacks_txid           AS (SELECT ROW_NUMBER() OVER (), stacks_txid FROM UNNEST($5::BYTEA[]) AS stacks_txid)
            , stacks_block_hash     AS (SELECT ROW_NUMBER() OVER (), stacks_block_hash FROM UNNEST($6::BYTEA[]) AS stacks_block_hash)
            , validation_result     AS (SELECT ROW_NUMBER() OVER (), validation_result FROM UNNEST($7::TEXT[]) AS validation_result)
            , is_valid_tx           AS (SELECT ROW_NUMBER() OVER (), is_valid_tx FROM UNNEST($8::BOOLEAN[]) AS is_valid_tx)
            INSERT INTO sbtc_signer.bitcoin_withdrawals_outputs (
                  bitcoin_txid
                , bitcoin_chain_tip
                , output_index
                , request_id
                , stacks_txid
                , stacks_block_hash
                , validation_result
                , is_valid_tx)
            SELECT
                bitcoin_txid
              , bitcoin_chain_tip
              , output_index
              , request_id
              , stacks_txid
              , stacks_block_hash
              , validation_result
              , is_valid_tx
            FROM bitcoin_tx_ids
            JOIN bitcoin_chain_tip USING (row_number)
            JOIN output_index USING (row_number)
            JOIN request_id USING (row_number)
            JOIN stacks_txid USING (row_number)
            JOIN stacks_block_hash USING (row_number)
            JOIN validation_result USING (row_number)
            JOIN is_valid_tx USING (row_number)
            ON CONFLICT DO NOTHING"#;

/// Marks unverified shares as failed.
pub const REVOKE_DKG_SHARES: &'static str = r#"
            UPDATE sbtc_signer.dkg_shares
            SET dkg_shares_status = 'failed'
            WHERE substring(aggregate_key FROM 2) = $1
              AND dkg_shares_status = 'unverified'; -- only allow failing pending entries
            "#;

/// Marks unverified shares as verified.
pub const VERIFY_DKG_SHARES: &'static str = r#"
            UPDATE sbtc_signer.dkg_shares
            SET dkg_shares_status = 'verified'
            WHERE substring(aggregate_key FROM 2) = $1
              AND dkg_shares_status = 'unverified'; -- only allow verifying pending entries
            "#;

} // verus!
