//! What the statements that write say.

use crate::sql;
use vstd::prelude::*;

verus! {

/// Whether a number is a position in a text.
pub open spec fn is_in(text: Seq<char>, position: int) -> bool {
    0 <= position <= text.len()
}

/// Whether a text holds a clause.
pub open spec fn says(text: Seq<char>, clause: Seq<char>) -> bool {
    exists|start: int|
        {
            &&& #[trigger] is_in(text, start)
            &&& start + clause.len() <= text.len()
            &&& forall|i: int| 0 <= i < clause.len() ==> text[start + i] == #[trigger] clause[i]
        }
}

/// A bitcoin block is stored with one parameter for each column, in their
/// order, unless it is stored already.
pub proof fn bitcoin_block_is_inserted()
    ensures
        says(sql::WRITE_BITCOIN_BLOCK@, r#"INSERT INTO sbtc_signer.bitcoin_blocks
              ( block_hash
              , block_height
              , parent_hash
              )
            VALUES ($1, $2, $3)"#@),
        says(sql::WRITE_BITCOIN_BLOCK@, "ON CONFLICT DO NOTHING"@),
{
    reveal_strlit("INSERT INTO sbtc_signer.bitcoin_blocks
              ( block_hash
              , block_height
              , parent_hash
              )
            VALUES ($1, $2, $3)
            ON CONFLICT DO NOTHING");
    reveal_strlit(r#"INSERT INTO sbtc_signer.bitcoin_blocks
              ( block_hash
              , block_height
              , parent_hash
              )
            VALUES ($1, $2, $3)"#);
    assert(is_in(sql::WRITE_BITCOIN_BLOCK@, 0));
    reveal_strlit("ON CONFLICT DO NOTHING");
    assert(is_in(sql::WRITE_BITCOIN_BLOCK@, 183));
}

/// A stacks block is stored with one parameter for each column, in their order,
/// unless it is stored already.
pub proof fn stacks_block_is_inserted()
    ensures
        says(sql::WRITE_STACKS_BLOCK@, r#"INSERT INTO sbtc_signer.stacks_blocks
              ( block_hash
              , block_height
              , parent_hash
              , bitcoin_anchor
              )
            VALUES ($1, $2, $3, $4)"#@),
        says(sql::WRITE_STACKS_BLOCK@, "ON CONFLICT DO NOTHING"@),
{
    reveal_strlit("INSERT INTO sbtc_signer.stacks_blocks
              ( block_hash
              , block_height
              , parent_hash
              , bitcoin_anchor
              )
            VALUES ($1, $2, $3, $4)
            ON CONFLICT DO NOTHING");
    reveal_strlit(r#"INSERT INTO sbtc_signer.stacks_blocks
              ( block_hash
              , block_height
              , parent_hash
              , bitcoin_anchor
              )
            VALUES ($1, $2, $3, $4)"#);
    assert(is_in(sql::WRITE_STACKS_BLOCK@, 0));
    reveal_strlit("ON CONFLICT DO NOTHING");
    assert(is_in(sql::WRITE_STACKS_BLOCK@, 217));
}

/// A deposit request is stored with one parameter for each column, in their
/// order, unless it is stored already.
pub proof fn deposit_request_is_inserted()
    ensures
        says(sql::WRITE_DEPOSIT_REQUEST@, r#"INSERT INTO sbtc_signer.deposit_requests
              ( txid
              , output_index
              , spend_script
              , reclaim_script
              , recipient
              , amount
              , max_fee
              , lock_time
              , signers_public_key
              , sender_script_pub_keys
              )
            VALUES ($1, $2, $3, $4, $5, $6, $7, $8, $9, $10)"#@),
        says(sql::WRITE_DEPOSIT_REQUEST@, "ON CONFLICT DO NOTHING"@),
{
    reveal_strlit("INSERT INTO sbtc_signer.deposit_requests
              ( txid
              , output_index
              , spend_script
              , reclaim_script
              , recipient
              , amount
              , max_fee
              , lock_time
              , signers_public_key
              , sender_script_pub_keys
              )
            VALUES ($1, $2, $3, $4, $5, $6, $7, $8, $9, $10)
            ON CONFLICT DO NOTHING");
    reveal_strlit(r#"INSERT INTO sbtc_signer.deposit_requests
              ( txid
              , output_index
              , spend_script
              , reclaim_script
              , recipient
              , amount
              , max_fee
              , lock_time
              , signers_public_key
              , sender_script_pub_keys
              )
            VALUES ($1, $2, $3, $4, $5, $6, $7, $8, $9, $10)"#);
    assert(is_in(sql::WRITE_DEPOSIT_REQUEST@, 0));
    reveal_strlit("ON CONFLICT DO NOTHING");
    assert(is_in(sql::WRITE_DEPOSIT_REQUEST@, 413));
}

/// A withdrawal request is stored with one parameter for each column, in their
/// order, unless it is stored already.
pub proof fn withdrawal_request_is_inserted()
    ensures
        says(sql::WRITE_WITHDRAWAL_REQUEST@, r#"INSERT INTO sbtc_signer.withdrawal_requests
              ( request_id
              , txid
              , block_hash
              , recipient
              , amount
              , max_fee
              , sender_address
              , bitcoin_block_height
              )
            VALUES ($1, $2, $3, $4, $5, $6, $7, $8)"#@),
        says(sql::WRITE_WITHDRAWAL_REQUEST@, "ON CONFLICT DO NOTHING"@),
{
    reveal_strlit("INSERT INTO sbtc_signer.withdrawal_requests
              ( request_id
              , txid
              , block_hash
              , recipient
              , amount
              , max_fee
              , sender_address
              , bitcoin_block_height
              )
            VALUES ($1, $2, $3, $4, $5, $6, $7, $8)
            ON CONFLICT DO NOTHING");
    reveal_strlit(r#"INSERT INTO sbtc_signer.withdrawal_requests
              ( request_id
              , txid
              , block_hash
              , recipient
              , amount
              , max_fee
              , sender_address
              , bitcoin_block_height
              )
            VALUES ($1, $2, $3, $4, $5, $6, $7, $8)"#);
    assert(is_in(sql::WRITE_WITHDRAWAL_REQUEST@, 0));
    reveal_strlit("ON CONFLICT DO NOTHING");
    assert(is_in(sql::WRITE_WITHDRAWAL_REQUEST@, 340));
}

/// A decision on a deposit request is stored with one parameter for each
/// column, in their order, unless it is stored already.
pub proof fn deposit_decision_is_inserted()
    ensures
        says(sql::WRITE_DEPOSIT_SIGNER_DECISION@, r#"INSERT INTO sbtc_signer.deposit_signers
              ( txid
              , output_index
              , signer_pub_key
              , can_accept
              , can_sign
              )
            VALUES ($1, $2, $3, $4, $5)"#@),
        says(sql::WRITE_DEPOSIT_SIGNER_DECISION@, "ON CONFLICT DO NOTHING"@),
{
    reveal_strlit("INSERT INTO sbtc_signer.deposit_signers
              ( txid
              , output_index
              , signer_pub_key
              , can_accept
              , can_sign
              )
            VALUES ($1, $2, $3, $4, $5)
            ON CONFLICT DO NOTHING");
    reveal_strlit(r#"INSERT INTO sbtc_signer.deposit_signers
              ( txid
              , output_index
              , signer_pub_key
              , can_accept
              , can_sign
              )
            VALUES ($1, $2, $3, $4, $5)"#);
    assert(is_in(sql::WRITE_DEPOSIT_SIGNER_DECISION@, 0));
    reveal_strlit("ON CONFLICT DO NOTHING");
    assert(is_in(sql::WRITE_DEPOSIT_SIGNER_DECISION@, 241));
}

/// A decision on a withdrawal request is stored with one parameter for each
/// column, in their order, unless it is stored already.
pub proof fn withdrawal_decision_is_inserted()
    ensures
        says(sql::WRITE_WITHDRAWAL_SIGNER_DECISION@, r#"INSERT INTO sbtc_signer.withdrawal_signers
              ( request_id
              , txid
              , block_hash
              , signer_pub_key
              , is_accepted
              )
            VALUES ($1, $2, $3, $4, $5)"#@),
        says(sql::WRITE_WITHDRAWAL_SIGNER_DECISION@, "ON CONFLICT DO NOTHING"@),
{
    reveal_strlit("INSERT INTO sbtc_signer.withdrawal_signers
              ( request_id
              , txid
              , block_hash
              , signer_pub_key
              , is_accepted
              )
            VALUES ($1, $2, $3, $4, $5)
            ON CONFLICT DO NOTHING");
    reveal_strlit(r#"INSERT INTO sbtc_signer.withdrawal_signers
              ( request_id
              , txid
              , block_hash
              , signer_pub_key
              , is_accepted
              )
            VALUES ($1, $2, $3, $4, $5)"#);
    assert(is_in(sql::WRITE_WITHDRAWAL_SIGNER_DECISION@, 0));
    reveal_strlit("ON CONFLICT DO NOTHING");
    assert(is_in(sql::WRITE_WITHDRAWAL_SIGNER_DECISION@, 245));
}

/// A bitcoin transaction is stored with one parameter for each column, in their
/// order, unless it is stored already.
pub proof fn bitcoin_transaction_is_inserted()
    ensures
        says(sql::WRITE_BITCOIN_TRANSACTION@, r#"INSERT INTO sbtc_signer.bitcoin_transactions (txid, block_hash)
            VALUES ($1, $2)"#@),
        says(sql::WRITE_BITCOIN_TRANSACTION@, "ON CONFLICT DO NOTHING"@),
{
    reveal_strlit("INSERT INTO sbtc_signer.bitcoin_transactions (txid, block_hash)
            VALUES ($1, $2)
            ON CONFLICT DO NOTHING");
    reveal_strlit(r#"INSERT INTO sbtc_signer.bitcoin_transactions (txid, block_hash)
            VALUES ($1, $2)"#);
    assert(is_in(sql::WRITE_BITCOIN_TRANSACTION@, 0));
    reveal_strlit("ON CONFLICT DO NOTHING");
    assert(is_in(sql::WRITE_BITCOIN_TRANSACTION@, 104));
}

/// A signer's part of a key is stored with one parameter for each column, in
/// their order, unless it is stored already.
pub proof fn shares_are_inserted()
    ensures
        says(sql::WRITE_ENCRYPTED_DKG_SHARES@, r#"INSERT INTO sbtc_signer.dkg_shares (
                aggregate_key
              , tweaked_aggregate_key
              , encrypted_private_shares
              , public_shares
              , script_pubkey
              , signer_set_public_keys
              , signature_share_threshold
              , dkg_shares_status
              , started_at_bitcoin_block_hash
              , started_at_bitcoin_block_height
            )
            VALUES ($1, $2, $3, $4, $5, $6, $7, $8, $9, $10)"#@),
        says(sql::WRITE_ENCRYPTED_DKG_SHARES@, "ON CONFLICT DO NOTHING"@),
{
    reveal_strlit(r#"
            INSERT INTO sbtc_signer.dkg_shares (
                aggregate_key
              , tweaked_aggregate_key
              , encrypted_private_shares
              , public_shares
              , script_pubkey
              , signer_set_public_keys
              , signature_share_threshold
              , dkg_shares_status
              , started_at_bitcoin_block_hash
              , started_at_bitcoin_block_height
            )
            VALUES ($1, $2, $3, $4, $5, $6, $7, $8, $9, $10)
            ON CONFLICT DO NOTHING"#);
    reveal_strlit(r#"INSERT INTO sbtc_signer.dkg_shares (
                aggregate_key
              , tweaked_aggregate_key
              , encrypted_private_shares
              , public_shares
              , script_pubkey
              , signer_set_public_keys
              , signature_share_threshold
              , dkg_shares_status
              , started_at_bitcoin_block_hash
              , started_at_bitcoin_block_height
            )
            VALUES ($1, $2, $3, $4, $5, $6, $7, $8, $9, $10)"#);
    assert(is_in(sql::WRITE_ENCRYPTED_DKG_SHARES@, 13));
    reveal_strlit("ON CONFLICT DO NOTHING");
    assert(is_in(sql::WRITE_ENCRYPTED_DKG_SHARES@, 515));
}

/// A key rotation is stored with one parameter for each column, in their order,
/// unless it is stored already.
pub proof fn key_rotation_is_inserted()
    ensures
        says(sql::WRITE_ROTATE_KEYS_TRANSACTION@, r#"INSERT INTO sbtc_signer.rotate_keys_transactions (
                  txid
                , block_hash
                , address
                , aggregate_key
                , signer_set
                , signatures_required)
            VALUES
                ($1, $2, $3, $4, $5, $6)"#@),
        says(sql::WRITE_ROTATE_KEYS_TRANSACTION@, "ON CONFLICT DO NOTHING"@),
{
    reveal_strlit(r#"
            INSERT INTO sbtc_signer.rotate_keys_transactions (
                  txid
                , block_hash
                , address
                , aggregate_key
                , signer_set
                , signatures_required)
            VALUES
                ($1, $2, $3, $4, $5, $6)
            ON CONFLICT DO NOTHING"#);
    reveal_strlit(r#"INSERT INTO sbtc_signer.rotate_keys_transactions (
                  txid
                , block_hash
                , address
                , aggregate_key
                , signer_set
                , signatures_required)
            VALUES
                ($1, $2, $3, $4, $5, $6)"#);
    assert(is_in(sql::WRITE_ROTATE_KEYS_TRANSACTION@, 13));
    reveal_strlit("ON CONFLICT DO NOTHING");
    assert(is_in(sql::WRITE_ROTATE_KEYS_TRANSACTION@, 314));
}

/// The completion of a deposit is stored with one parameter for each column, in
/// their order.
pub proof fn completed_deposit_is_inserted()
    ensures
        says(sql::WRITE_COMPLETED_DEPOSIT_EVENT@, r#"INSERT INTO sbtc_signer.completed_deposit_events (
            txid
          , block_hash
          , amount
          , bitcoin_txid
          , output_index
          , sweep_block_hash
          , sweep_block_height
          , sweep_txid
        )
        VALUES ($1, $2, $3, $4, $5, $6, $7, $8)"#@),
{
    reveal_strlit("
        INSERT INTO sbtc_signer.completed_deposit_events (
            txid
          , block_hash
          , amount
          , bitcoin_txid
          , output_index
          , sweep_block_hash
          , sweep_block_height
          , sweep_txid
        )
        VALUES ($1, $2, $3, $4, $5, $6, $7, $8)");
    reveal_strlit(r#"INSERT INTO sbtc_signer.completed_deposit_events (
            txid
          , block_hash
          , amount
          , bitcoin_txid
          , output_index
          , sweep_block_hash
          , sweep_block_height
          , sweep_txid
        )
        VALUES ($1, $2, $3, $4, $5, $6, $7, $8)"#);
    assert(is_in(sql::WRITE_COMPLETED_DEPOSIT_EVENT@, 9));
}

/// The payment of a withdrawal request is stored with one parameter for each
/// column, in their order.
pub proof fn accepted_withdrawal_is_inserted()
    ensures
        says(sql::WRITE_WITHDRAWAL_ACCEPT_EVENT@, r#"INSERT INTO sbtc_signer.withdrawal_accept_events (
            txid
          , block_hash
          , request_id
          , signer_bitmap
          , bitcoin_txid
          , output_index
          , fee
          , sweep_block_hash
          , sweep_block_height
          , sweep_txid
        )
        VALUES ($1, $2, $3, $4, $5, $6, $7, $8, $9, $10)"#@),
{
    reveal_strlit("
        INSERT INTO sbtc_signer.withdrawal_accept_events (
            txid
          , block_hash
          , request_id
          , signer_bitmap
          , bitcoin_txid
          , output_index
          , fee
          , sweep_block_hash
          , sweep_block_height
          , sweep_txid
        )
        VALUES ($1, $2, $3, $4, $5, $6, $7, $8, $9, $10)");
    reveal_strlit(r#"INSERT INTO sbtc_signer.withdrawal_accept_events (
            txid
          , block_hash
          , request_id
          , signer_bitmap
          , bitcoin_txid
          , output_index
          , fee
          , sweep_block_hash
          , sweep_block_height
          , sweep_txid
        )
        VALUES ($1, $2, $3, $4, $5, $6, $7, $8, $9, $10)"#);
    assert(is_in(sql::WRITE_WITHDRAWAL_ACCEPT_EVENT@, 9));
}

/// The rejection of a withdrawal request is stored with one parameter for each
/// column, in their order.
pub proof fn rejected_withdrawal_is_inserted()
    ensures
        says(sql::WRITE_WITHDRAWAL_REJECT_EVENT@, r#"INSERT INTO sbtc_signer.withdrawal_reject_events (
            txid
          , block_hash
          , request_id
          , signer_bitmap
        )
        VALUES ($1, $2, $3, $4)"#@),
{
    reveal_strlit("
        INSERT INTO sbtc_signer.withdrawal_reject_events (
            txid
          , block_hash
          , request_id
          , signer_bitmap
        )
        VALUES ($1, $2, $3, $4)");
    reveal_strlit(r#"INSERT INTO sbtc_signer.withdrawal_reject_events (
            txid
          , block_hash
          , request_id
          , signer_bitmap
        )
        VALUES ($1, $2, $3, $4)"#);
    assert(is_in(sql::WRITE_WITHDRAWAL_REJECT_EVENT@, 9));
}

/// An output is stored with one parameter for each column, in their order,
/// unless it is stored already.
pub proof fn output_is_inserted()
    ensures
        says(sql::WRITE_TX_OUTPUT@, r#"INSERT INTO bitcoin_tx_outputs (
                txid
              , output_index
              , amount
              , script_pubkey
              , output_type
            )
            VALUES ($1, $2, $3, $4, $5)"#@),
        says(sql::WRITE_TX_OUTPUT@, "ON CONFLICT DO NOTHING"@),
{
    reveal_strlit(r#"
            INSERT INTO bitcoin_tx_outputs (
                txid
              , output_index
              , amount
              , script_pubkey
              , output_type
            )
            VALUES ($1, $2, $3, $4, $5)
            ON CONFLICT DO NOTHING;
            "#);
    reveal_strlit(r#"INSERT INTO bitcoin_tx_outputs (
                txid
              , output_index
              , amount
              , script_pubkey
              , output_type
            )
            VALUES ($1, $2, $3, $4, $5)"#);
    assert(is_in(sql::WRITE_TX_OUTPUT@, 13));
    reveal_strlit("ON CONFLICT DO NOTHING");
    assert(is_in(sql::WRITE_TX_OUTPUT@, 243));
}

/// An output that pays a withdrawal request is stored with one parameter for
/// each column, in their order, unless it is stored already.
pub proof fn withdrawal_output_is_inserted()
    ensures
        says(sql::WRITE_WITHDRAWAL_TX_OUTPUT@, r#"INSERT INTO bitcoin_withdrawal_tx_outputs (
                txid
              , output_index
              , request_id
            )
            VALUES ($1, $2, $3)"#@),
        says(sql::WRITE_WITHDRAWAL_TX_OUTPUT@, "ON CONFLICT DO NOTHING"@),
{
    reveal_strlit(r#"
            INSERT INTO bitcoin_withdrawal_tx_outputs (
                txid
              , output_index
              , request_id
            )
            VALUES ($1, $2, $3)
            ON CONFLICT DO NOTHING;
            "#);
    reveal_strlit(r#"INSERT INTO bitcoin_withdrawal_tx_outputs (
                txid
              , output_index
              , request_id
            )
            VALUES ($1, $2, $3)"#);
    assert(is_in(sql::WRITE_WITHDRAWAL_TX_OUTPUT@, 13));
    reveal_strlit("ON CONFLICT DO NOTHING");
    assert(is_in(sql::WRITE_WITHDRAWAL_TX_OUTPUT@, 192));
}

/// A spent output is stored with one parameter for each column, in their order,
/// unless it is stored already.
pub proof fn spent_output_is_inserted()
    ensures
        says(sql::WRITE_TX_PREVOUT@, r#"INSERT INTO bitcoin_tx_inputs (
                txid
              , prevout_txid
              , prevout_output_index
              , amount
              , script_pubkey
              , prevout_type
            )
            VALUES ($1, $2, $3, $4, $5, $6)"#@),
        says(sql::WRITE_TX_PREVOUT@, "ON CONFLICT DO NOTHING"@),
{
    reveal_strlit(r#"
            INSERT INTO bitcoin_tx_inputs (
                txid
              , prevout_txid
              , prevout_output_index
              , amount
              , script_pubkey
              , prevout_type
            )
            VALUES ($1, $2, $3, $4, $5, $6)
            ON CONFLICT DO NOTHING;
            "#);
    reveal_strlit(r#"INSERT INTO bitcoin_tx_inputs (
                txid
              , prevout_txid
              , prevout_output_index
              , amount
              , script_pubkey
              , prevout_type
            )
            VALUES ($1, $2, $3, $4, $5, $6)"#);
    assert(is_in(sql::WRITE_TX_PREVOUT@, 13));
    reveal_strlit("ON CONFLICT DO NOTHING");
    assert(is_in(sql::WRITE_TX_PREVOUT@, 284));
}

/// Deposit requests are stored from arrays, with the elements at one position
/// in one row, unless they are stored already. The columns take what is
/// unnested of their parameters.
pub proof fn deposit_requests_are_inserted()
    ensures
        says(sql::WRITE_DEPOSIT_REQUESTS@, "UNNEST($1::BYTEA[]) AS txid"@),
        says(sql::WRITE_DEPOSIT_REQUESTS@, "UNNEST($2::INTEGER[]) AS output_index"@),
        says(sql::WRITE_DEPOSIT_REQUESTS@, "UNNEST($3::BYTEA[]) AS spend_script"@),
        says(sql::WRITE_DEPOSIT_REQUESTS@, "UNNEST($4::BYTEA[]) AS reclaim_script"@),
        says(sql::WRITE_DEPOSIT_REQUESTS@, "UNNEST($5::TEXT[]) AS recipient"@),
        says(sql::WRITE_DEPOSIT_REQUESTS@, "UNNEST($6::BIGINT[]) AS amount"@),
        says(sql::WRITE_DEPOSIT_REQUESTS@, "UNNEST($7::BIGINT[]) AS max_fee"@),
        says(sql::WRITE_DEPOSIT_REQUESTS@, "UNNEST($8::BIGINT[]) AS lock_time"@),
        says(sql::WRITE_DEPOSIT_REQUESTS@, "UNNEST($9::BYTEA[]) AS signers_public_key"@),
        says(sql::WRITE_DEPOSIT_REQUESTS@, "UNNEST($10::VARCHAR[]) AS senders"@),
        says(sql::WRITE_DEPOSIT_REQUESTS@, r#"INSERT INTO sbtc_signer.deposit_requests (
                  txid
                , output_index
                , spend_script
                , reclaim_script
                , recipient
                , amount
                , max_fee
                , lock_time
                , signers_public_key
                , sender_script_pub_keys)
            SELECT
                txid
              , output_index
              , spend_script
              , reclaim_script
              , recipient
              , amount
              , max_fee
              , lock_time
              , signers_public_key
              , ARRAY(SELECT decode(UNNEST(regexp_split_to_array(senders, ',')), 'hex'))
            FROM tx_ids
            JOIN output_index USING (row_number)
            JOIN spend_script USING (row_number)
            JOIN reclaim_script USING (row_number)
            JOIN recipient USING (row_number)
            JOIN amount USING (row_number)
            JOIN max_fee USING (row_number)
            JOIN lock_time USING (row_number)
            JOIN signer_pub_keys USING (row_number)
            JOIN script_pub_keys USING (row_number)
            ON CONFLICT DO NOTHING"#@),
{
    reveal_strlit(r#"
            WITH tx_ids       AS (SELECT ROW_NUMBER() OVER (), txid FROM UNNEST($1::BYTEA[]) AS txid)
            , output_index    AS (SELECT ROW_NUMBER() OVER (), output_index FROM UNNEST($2::INTEGER[]) AS output_index)
            , spend_script    AS (SELECT ROW_NUMBER() OVER (), spend_script FROM UNNEST($3::BYTEA[]) AS spend_script)
            , reclaim_script  AS (SELECT ROW_NUMBER() OVER (), reclaim_script FROM UNNEST($4::BYTEA[]) AS reclaim_script)
            , recipient       AS (SELECT ROW_NUMBER() OVER (), recipient FROM UNNEST($5::TEXT[]) AS recipient)
            , amount          AS (SELECT ROW_NUMBER() OVER (), amount FROM UNNEST($6::BIGINT[]) AS amount)
            , max_fee         AS (SELECT ROW_NUMBER() OVER (), max_fee FROM UNNEST($7::BIGINT[]) AS max_fee)
            , lock_time       AS (SELECT ROW_NUMBER() OVER (), lock_time FROM UNNEST($8::BIGINT[]) AS lock_time)
            , signer_pub_keys AS (SELECT ROW_NUMBER() OVER (), signers_public_key FROM UNNEST($9::BYTEA[]) AS signers_public_key)
            , script_pub_keys AS (SELECT ROW_NUMBER() OVER (), senders FROM UNNEST($10::VARCHAR[]) AS senders)
            INSERT INTO sbtc_signer.deposit_requests (
                  txid
                , output_index
                , spend_script
                , reclaim_script
                , recipient
                , amount
                , max_fee
                , lock_time
                , signers_public_key
                , sender_script_pub_keys)
            SELECT
                txid
              , output_index
              , spend_script
              , reclaim_script
              , recipient
              , amount
              , max_fee
              , lock_time
              , signers_public_key
              , ARRAY(SELECT decode(UNNEST(regexp_split_to_array(senders, ',')), 'hex'))
            FROM tx_ids
            JOIN output_index USING (row_number)
            JOIN spend_script USING (row_number)
            JOIN reclaim_script USING (row_number)
            JOIN recipient USING (row_number)
            JOIN amount USING (row_number)
            JOIN max_fee USING (row_number)
            JOIN lock_time USING (row_number)
            JOIN signer_pub_keys USING (row_number)
            JOIN script_pub_keys USING (row_number)
            ON CONFLICT DO NOTHING"#);
    reveal_strlit("UNNEST($1::BYTEA[]) AS txid");
    assert(is_in(sql::WRITE_DEPOSIT_REQUESTS@, 74));
    reveal_strlit("UNNEST($2::INTEGER[]) AS output_index");
    assert(is_in(sql::WRITE_DEPOSIT_REQUESTS@, 184));
    reveal_strlit("UNNEST($3::BYTEA[]) AS spend_script");
    assert(is_in(sql::WRITE_DEPOSIT_REQUESTS@, 304));
    reveal_strlit("UNNEST($4::BYTEA[]) AS reclaim_script");
    assert(is_in(sql::WRITE_DEPOSIT_REQUESTS@, 424));
    reveal_strlit("UNNEST($5::TEXT[]) AS recipient");
    assert(is_in(sql::WRITE_DEPOSIT_REQUESTS@, 541));
    reveal_strlit("UNNEST($6::BIGINT[]) AS amount");
    assert(is_in(sql::WRITE_DEPOSIT_REQUESTS@, 649));
    reveal_strlit("UNNEST($7::BIGINT[]) AS max_fee");
    assert(is_in(sql::WRITE_DEPOSIT_REQUESTS@, 757));
    reveal_strlit("UNNEST($8::BIGINT[]) AS lock_time");
    assert(is_in(sql::WRITE_DEPOSIT_REQUESTS@, 868));
    reveal_strlit("UNNEST($9::BYTEA[]) AS signers_public_key");
    assert(is_in(sql::WRITE_DEPOSIT_REQUESTS@, 990));
    reveal_strlit("UNNEST($10::VARCHAR[]) AS senders");
    assert(is_in(sql::WRITE_DEPOSIT_REQUESTS@, 1109));
    reveal_strlit(r#"INSERT INTO sbtc_signer.deposit_requests (
                  txid
                , output_index
                , spend_script
                , reclaim_script
                , recipient
                , amount
                , max_fee
                , lock_time
                , signers_public_key
                , sender_script_pub_keys)
            SELECT
                txid
              , output_index
              , spend_script
              , reclaim_script
              , recipient
              , amount
              , max_fee
              , lock_time
              , signers_public_key
              , ARRAY(SELECT decode(UNNEST(regexp_split_to_array(senders, ',')), 'hex'))
            FROM tx_ids
            JOIN output_index USING (row_number)
            JOIN spend_script USING (row_number)
            JOIN reclaim_script USING (row_number)
            JOIN recipient USING (row_number)
            JOIN amount USING (row_number)
            JOIN max_fee USING (row_number)
            JOIN lock_time USING (row_number)
            JOIN signer_pub_keys USING (row_number)
            JOIN script_pub_keys USING (row_number)
            ON CONFLICT DO NOTHING"#);
    assert(is_in(sql::WRITE_DEPOSIT_REQUESTS@, 1156));
}

/// Bitcoin transactions are stored from arrays, with the elements at one
/// position in one row, unless they are stored already. The columns take what
/// is unnested of their parameters.
pub proof fn bitcoin_transactions_are_inserted()
    ensures
        says(sql::WRITE_BITCOIN_TRANSACTIONS@, "UNNEST($1::bytea[]) AS txid"@),
        says(sql::WRITE_BITCOIN_TRANSACTIONS@, "UNNEST($2::bytea[]) AS block_id"@),
        says(sql::WRITE_BITCOIN_TRANSACTIONS@, r#"INSERT INTO sbtc_signer.bitcoin_transactions (txid, block_hash)
            SELECT
                txid
              , block_id
            FROM tx_ids
            JOIN block_ids USING (row_number)
            ON CONFLICT DO NOTHING"#@),
{
    reveal_strlit(r#"
            WITH tx_ids AS (
                SELECT ROW_NUMBER() OVER (), txid
                FROM UNNEST($1::bytea[]) AS txid
            )
            , block_ids AS (
                SELECT ROW_NUMBER() OVER (), block_id
                FROM UNNEST($2::bytea[]) AS block_id
            )
            INSERT INTO sbtc_signer.bitcoin_transactions (txid, block_hash)
            SELECT
                txid
              , block_id
            FROM tx_ids
            JOIN block_ids USING (row_number)
            ON CONFLICT DO NOTHING"#);
    reveal_strlit("UNNEST($1::bytea[]) AS txid");
    assert(is_in(sql::WRITE_BITCOIN_TRANSACTIONS@, 101));
    reveal_strlit("UNNEST($2::bytea[]) AS block_id");
    assert(is_in(sql::WRITE_BITCOIN_TRANSACTIONS@, 247));
    reveal_strlit(r#"INSERT INTO sbtc_signer.bitcoin_transactions (txid, block_hash)
            SELECT
                txid
              , block_id
            FROM tx_ids
            JOIN block_ids USING (row_number)
            ON CONFLICT DO NOTHING"#);
    assert(is_in(sql::WRITE_BITCOIN_TRANSACTIONS@, 305));
}

/// Stacks blocks are stored from arrays, with the elements at one position in
/// one row, unless they are stored already. The columns take what is unnested
/// of their parameters.
pub proof fn stacks_blocks_are_inserted()
    ensures
        says(sql::WRITE_STACKS_BLOCK_HEADERS@, "UNNEST($1::bytea[]) AS block_id"@),
        says(sql::WRITE_STACKS_BLOCK_HEADERS@, "UNNEST($2::bytea[]) AS parent_block_id"@),
        says(sql::WRITE_STACKS_BLOCK_HEADERS@, "UNNEST($3::bigint[]) AS chain_length"@),
        says(sql::WRITE_STACKS_BLOCK_HEADERS@, "UNNEST($4::bytea[]) AS bitcoin_anchor"@),
        says(sql::WRITE_STACKS_BLOCK_HEADERS@, r#"INSERT INTO sbtc_signer.stacks_blocks (block_hash, block_height, parent_hash, bitcoin_anchor)
            SELECT
                block_id
              , chain_length
              , parent_block_id
              , bitcoin_anchor
            FROM block_ids
            JOIN parent_block_ids USING (row_number)
            JOIN chain_lengths USING (row_number)
            JOIN bitcoin_anchors USING (row_number)
            ON CONFLICT DO NOTHING"#@),
{
    reveal_strlit(r#"
            WITH block_ids AS (
                SELECT ROW_NUMBER() OVER (), block_id
                FROM UNNEST($1::bytea[]) AS block_id
            )
            , parent_block_ids AS (
                SELECT ROW_NUMBER() OVER (), parent_block_id
                FROM UNNEST($2::bytea[]) AS parent_block_id
            )
            , chain_lengths AS (
                SELECT ROW_NUMBER() OVER (), chain_length
                FROM UNNEST($3::bigint[]) AS chain_length
            )
            , bitcoin_anchors AS (
                SELECT ROW_NUMBER() OVER (), bitcoin_anchor
                FROM UNNEST($4::bytea[]) AS bitcoin_anchor
            )
            INSERT INTO sbtc_signer.stacks_blocks (block_hash, block_height, parent_hash, bitcoin_anchor)
            SELECT
                block_id
              , chain_length
              , parent_block_id
              , bitcoin_anchor
            FROM block_ids
            JOIN parent_block_ids USING (row_number)
            JOIN chain_lengths USING (row_number)
            JOIN bitcoin_anchors USING (row_number)
            ON CONFLICT DO NOTHING"#);
    reveal_strlit("UNNEST($1::bytea[]) AS block_id");
    assert(is_in(sql::WRITE_STACKS_BLOCK_HEADERS@, 108));
    reveal_strlit("UNNEST($2::bytea[]) AS parent_block_id");
    assert(is_in(sql::WRITE_STACKS_BLOCK_HEADERS@, 272));
    reveal_strlit("UNNEST($3::bigint[]) AS chain_length");
    assert(is_in(sql::WRITE_STACKS_BLOCK_HEADERS@, 437));
    reveal_strlit("UNNEST($4::bytea[]) AS bitcoin_anchor");
    assert(is_in(sql::WRITE_STACKS_BLOCK_HEADERS@, 604));
    reveal_strlit(r#"INSERT INTO sbtc_signer.stacks_blocks (block_hash, block_height, parent_hash, bitcoin_anchor)
            SELECT
                block_id
              , chain_length
              , parent_block_id
              , bitcoin_anchor
            FROM block_ids
            JOIN parent_block_ids USING (row_number)
            JOIN chain_lengths USING (row_number)
            JOIN bitcoin_anchors USING (row_number)
            ON CONFLICT DO NOTHING"#);
    assert(is_in(sql::WRITE_STACKS_BLOCK_HEADERS@, 668));
}

/// Digests are stored from arrays, with the elements at one position in one
/// row, unless they are stored already. The columns take what is unnested of
/// their parameters.
pub proof fn digests_are_inserted()
    ensures
        says(sql::WRITE_BITCOIN_TXS_SIGHASHES@, "UNNEST($1::BYTEA[]) AS txid"@),
        says(sql::WRITE_BITCOIN_TXS_SIGHASHES@, "UNNEST($2::BYTEA[]) AS chain_tip"@),
        says(sql::WRITE_BITCOIN_TXS_SIGHASHES@, "UNNEST($3::BYTEA[]) AS prevout_txid"@),
        says(sql::WRITE_BITCOIN_TXS_SIGHASHES@, "UNNEST($4::INTEGER[]) AS prevout_output_index"@),
        says(sql::WRITE_BITCOIN_TXS_SIGHASHES@, "UNNEST($5::BYTEA[]) AS sighash"@),
        says(sql::WRITE_BITCOIN_TXS_SIGHASHES@, "UNNEST($6::sbtc_signer.prevout_type[]) AS prevout_type"@),
        says(sql::WRITE_BITCOIN_TXS_SIGHASHES@, "UNNEST($7::TEXT[]) AS validation_result"@),
        says(sql::WRITE_BITCOIN_TXS_SIGHASHES@, "UNNEST($8::BOOLEAN[]) AS is_valid_tx"@),
        says(sql::WRITE_BITCOIN_TXS_SIGHASHES@, "UNNEST($9::BOOLEAN[]) AS will_sign"@),
        says(sql::WRITE_BITCOIN_TXS_SIGHASHES@, "UNNEST($10::BYTEA[]) AS x_only_public_key"@),
        says(sql::WRITE_BITCOIN_TXS_SIGHASHES@, r#"INSERT INTO sbtc_signer.bitcoin_tx_sighashes (
                  txid
                , chain_tip
                , prevout_txid
                , prevout_output_index
                , sighash
                , prevout_type
                , validation_result
                , is_valid_tx
                , will_sign
                , x_only_public_key
            )
            SELECT
                txid
              , chain_tip
              , prevout_txid
              , prevout_output_index
              , sighash
              , prevout_type
              , validation_result
              , is_valid_tx
              , will_sign
              , x_only_public_key
            FROM tx_ids
            JOIN chain_tip USING (row_number)
            JOIN prevout_txid USING (row_number)
            JOIN prevout_output_index USING (row_number)
            JOIN sighash USING (row_number)
            JOIN prevout_type USING (row_number)
            JOIN validation_result USING (row_number)
            JOIN is_valid_tx USING (row_number)
            JOIN will_sign USING (row_number)
            JOIN x_only_public_key USING (row_number)
            ON CONFLICT DO NOTHING"#@),
{
    reveal_strlit(r#"
            WITH tx_ids             AS (SELECT ROW_NUMBER() OVER (), txid FROM UNNEST($1::BYTEA[]) AS txid)
            , chain_tip             AS (SELECT ROW_NUMBER() OVER (), chain_tip FROM UNNEST($2::BYTEA[]) AS chain_tip)
            , prevout_txid          AS (SELECT ROW_NUMBER() OVER (), prevout_txid FROM UNNEST($3::BYTEA[]) AS prevout_txid)
            , prevout_output_index  AS (SELECT ROW_NUMBER() OVER (), prevout_output_index FROM UNNEST($4::INTEGER[]) AS prevout_output_index)
            , sighash               AS (SELECT ROW_NUMBER() OVER (), sighash FROM UNNEST($5::BYTEA[]) AS sighash)
            , prevout_type          AS (SELECT ROW_NUMBER() OVER (), prevout_type FROM UNNEST($6::sbtc_signer.prevout_type[]) AS prevout_type)
            , validation_result     AS (SELECT ROW_NUMBER() OVER (), validation_result FROM UNNEST($7::TEXT[]) AS validation_result)
            , is_valid_tx           AS (SELECT ROW_NUMBER() OVER (), is_valid_tx FROM UNNEST($8::BOOLEAN[]) AS is_valid_tx)
            , will_sign             AS (SELECT ROW_NUMBER() OVER (), will_sign FROM UNNEST($9::BOOLEAN[]) AS will_sign)
            , x_only_public_key     AS (SELECT ROW_NUMBER() OVER (), x_only_public_key FROM UNNEST($10::BYTEA[]) AS x_only_public_key)
            INSERT INTO sbtc_signer.bitcoin_tx_sighashes (
                  txid
                , chain_tip
                , prevout_txid
                , prevout_output_index
                , sighash
                , prevout_type
                , validation_result
                , is_valid_tx
                , will_sign
                , x_only_public_key
            )
            SELECT
                txid
              , chain_tip
              , prevout_txid
              , prevout_output_index
              , sighash
              , prevout_type
              , validation_result
              , is_valid_tx
              , will_sign
              , x_only_public_key
            FROM tx_ids
            JOIN chain_tip USING (row_number)
            JOIN prevout_txid USING (row_number)
            JOIN prevout_output_index USING (row_number)
            JOIN sighash USING (row_number)
            JOIN prevout_type USING (row_number)
            JOIN validation_result USING (row_number)
            JOIN is_valid_tx USING (row_number)
            JOIN will_sign USING (row_number)
            JOIN x_only_public_key USING (row_number)
            ON CONFLICT DO NOTHING"#);
    reveal_strlit("UNNEST($1::BYTEA[]) AS txid");
    assert(is_in(sql::WRITE_BITCOIN_TXS_SIGHASHES@, 80));
    reveal_strlit("UNNEST($2::BYTEA[]) AS chain_tip");
    assert(is_in(sql::WRITE_BITCOIN_TXS_SIGHASHES@, 193));
    reveal_strlit("UNNEST($3::BYTEA[]) AS prevout_txid");
    assert(is_in(sql::WRITE_BITCOIN_TXS_SIGHASHES@, 314));
    reveal_strlit("UNNEST($4::INTEGER[]) AS prevout_output_index");
    assert(is_in(sql::WRITE_BITCOIN_TXS_SIGHASHES@, 446));
    reveal_strlit("UNNEST($5::BYTEA[]) AS sighash");
    assert(is_in(sql::WRITE_BITCOIN_TXS_SIGHASHES@, 575));
    reveal_strlit("UNNEST($6::sbtc_signer.prevout_type[]) AS prevout_type");
    assert(is_in(sql::WRITE_BITCOIN_TXS_SIGHASHES@, 694));
    reveal_strlit("UNNEST($7::TEXT[]) AS validation_result");
    assert(is_in(sql::WRITE_BITCOIN_TXS_SIGHASHES@, 842));
    reveal_strlit("UNNEST($8::BOOLEAN[]) AS is_valid_tx");
    assert(is_in(sql::WRITE_BITCOIN_TXS_SIGHASHES@, 969));
    reveal_strlit("UNNEST($9::BOOLEAN[]) AS will_sign");
    assert(is_in(sql::WRITE_BITCOIN_TXS_SIGHASHES@, 1091));
    reveal_strlit("UNNEST($10::BYTEA[]) AS x_only_public_key");
    assert(is_in(sql::WRITE_BITCOIN_TXS_SIGHASHES@, 1219));
    reveal_strlit(r#"INSERT INTO sbtc_signer.bitcoin_tx_sighashes (
                  txid
                , chain_tip
                , prevout_txid
                , prevout_output_index
                , sighash
                , prevout_type
                , validation_result
                , is_valid_tx
                , will_sign
                , x_only_public_key
            )
            SELECT
                txid
              , chain_tip
              , prevout_txid
              , prevout_output_index
              , sighash
              , prevout_type
              , validation_result
              , is_valid_tx
              , will_sign
              , x_only_public_key
            FROM tx_ids
            JOIN chain_tip USING (row_number)
            JOIN prevout_txid USING (row_number)
            JOIN prevout_output_index USING (row_number)
            JOIN sighash USING (row_number)
            JOIN prevout_type USING (row_number)
            JOIN validation_result USING (row_number)
            JOIN is_valid_tx USING (row_number)
            JOIN will_sign USING (row_number)
            JOIN x_only_public_key USING (row_number)
            ON CONFLICT DO NOTHING"#);
    assert(is_in(sql::WRITE_BITCOIN_TXS_SIGHASHES@, 1274));
}

/// Outputs of proposed transactions are stored from arrays, with the elements
/// at one position in one row, unless they are stored already. The columns take
/// what is unnested of their parameters.
pub proof fn proposed_outputs_are_inserted()
    ensures
        says(sql::WRITE_BITCOIN_WITHDRAWALS_OUTPUTS@, "UNNEST($1::BYTEA[]) AS bitcoin_txid"@),
        says(sql::WRITE_BITCOIN_WITHDRAWALS_OUTPUTS@, "UNNEST($2::BYTEA[]) AS bitcoin_chain_tip"@),
        says(sql::WRITE_BITCOIN_WITHDRAWALS_OUTPUTS@, "UNNEST($3::INTEGER[]) AS output_index"@),
        says(sql::WRITE_BITCOIN_WITHDRAWALS_OUTPUTS@, "UNNEST($4::BIGINT[]) AS request_id"@),
        says(sql::WRITE_BITCOIN_WITHDRAWALS_OUTPUTS@, "UNNEST($5::BYTEA[]) AS stacks_txid"@),
        says(sql::WRITE_BITCOIN_WITHDRAWALS_OUTPUTS@, "UNNEST($6::BYTEA[]) AS stacks_block_hash"@),
        says(sql::WRITE_BITCOIN_WITHDRAWALS_OUTPUTS@, "UNNEST($7::TEXT[]) AS validation_result"@),
        says(sql::WRITE_BITCOIN_WITHDRAWALS_OUTPUTS@, "UNNEST($8::BOOLEAN[]) AS is_valid_tx"@),
        says(sql::WRITE_BITCOIN_WITHDRAWALS_OUTPUTS@, r#"INSERT INTO sbtc_signer.bitcoin_withdrawals_outputs (
                  bitcoin_txid
                , bitcoin_chain_tip
                , output_index
                , request_id
                , stacks_txid
                , stacks_block_hash
                , validation_result
                , is_valid_tx)
            SELECT
                bitcoin_txid
              , bitcoin_chain_tip
              , output_index
              , request_id
              , stacks_txid
              , stacks_block_hash
              , validation_result
              , is_valid_tx
            FROM bitcoin_tx_ids
            JOIN bitcoin_chain_tip USING (row_number)
            JOIN output_index USING (row_number)
            JOIN request_id USING (row_number)
            JOIN stacks_txid USING (row_number)
            JOIN stacks_block_hash USING (row_number)
            JOIN validation_result USING (row_number)
            JOIN is_valid_tx USING (row_number)
            ON CONFLICT DO NOTHING"#@),
{
    reveal_strlit(r#"
            WITH bitcoin_tx_ids     AS (SELECT ROW_NUMBER() OVER (), bitcoin_txid FROM UNNEST($1::BYTEA[]) AS bitcoin_txid)
            , bitcoin_chain_tip     AS (SELECT ROW_NUMBER() OVER (), bitcoin_chain_tip FROM UNNEST($2::BYTEA[]) AS bitcoin_chain_tip)
            , output_index          AS (SELECT ROW_NUMBER() OVER (), output_index FROM UNNEST($3::INTEGER[]) AS output_index)
            , request_id            AS (SELECT ROW_NUMBER() OVER (), request_id FROM UNNEST($4::BIGINT[]) AS request_id)
            , stacks_txid           AS (SELECT ROW_NUMBER() OVER (), stacks_txid FROM UNNEST($5::BYTEA[]) AS stacks_txid)
            , stacks_block_hash     AS (SELECT ROW_NUMBER() OVER (), stacks_block_hash FROM UNNEST($6::BYTEA[]) AS stacks_block_hash)
            , validation_result     AS (SELECT ROW_NUMBER() OVER (), validation_result FROM UNNEST($7::TEXT[]) AS validation_result)
            , is_valid_tx           AS (SELECT ROW_NUMBER() OVER (), is_valid_tx FROM UNNEST($8::BOOLEAN[]) AS is_valid_tx)
            INSERT INTO sbtc_signer.bitcoin_withdrawals_outputs (
                  bitcoin_txid
                , bitcoin_chain_tip
                , output_index
                , request_id
                , stacks_txid
                , stacks_block_hash
                , validation_result
                , is_valid_tx)
            SELECT
                bitcoin_txid
              , bitcoin_chain_tip
              , output_index
              , request_id
              , stacks_txid
              , stacks_block_hash
              , validation_result
              , is_valid_tx
            FROM bitcoin_tx_ids
            JOIN bitcoin_chain_tip USING (row_number)
            JOIN output_index USING (row_number)
            JOIN request_id USING (row_number)
            JOIN stacks_txid USING (row_number)
            JOIN stacks_block_hash USING (row_number)
            JOIN validation_result USING (row_number)
            JOIN is_valid_tx USING (row_number)
            ON CONFLICT DO NOTHING"#);
    reveal_strlit("UNNEST($1::BYTEA[]) AS bitcoin_txid");
    assert(is_in(sql::WRITE_BITCOIN_WITHDRAWALS_OUTPUTS@, 88));
    reveal_strlit("UNNEST($2::BYTEA[]) AS bitcoin_chain_tip");
    assert(is_in(sql::WRITE_BITCOIN_WITHDRAWALS_OUTPUTS@, 217));
    reveal_strlit("UNNEST($3::INTEGER[]) AS output_index");
    assert(is_in(sql::WRITE_BITCOIN_WITHDRAWALS_OUTPUTS@, 346));
    reveal_strlit("UNNEST($4::BIGINT[]) AS request_id");
    assert(is_in(sql::WRITE_BITCOIN_WITHDRAWALS_OUTPUTS@, 470));
    reveal_strlit("UNNEST($5::BYTEA[]) AS stacks_txid");
    assert(is_in(sql::WRITE_BITCOIN_WITHDRAWALS_OUTPUTS@, 592));
    reveal_strlit("UNNEST($6::BYTEA[]) AS stacks_block_hash");
    assert(is_in(sql::WRITE_BITCOIN_WITHDRAWALS_OUTPUTS@, 720));
    reveal_strlit("UNNEST($7::TEXT[]) AS validation_result");
    assert(is_in(sql::WRITE_BITCOIN_WITHDRAWALS_OUTPUTS@, 854));
    reveal_strlit("UNNEST($8::BOOLEAN[]) AS is_valid_tx");
    assert(is_in(sql::WRITE_BITCOIN_WITHDRAWALS_OUTPUTS@, 981));
    reveal_strlit(r#"INSERT INTO sbtc_signer.bitcoin_withdrawals_outputs (
                  bitcoin_txid
                , bitcoin_chain_tip
                , output_index
                , request_id
                , stacks_txid
                , stacks_block_hash
                , validation_result
                , is_valid_tx)
            SELECT
                bitcoin_txid
              , bitcoin_chain_tip
              , output_index
              , request_id
              , stacks_txid
              , stacks_block_hash
              , validation_result
              , is_valid_tx
            FROM bitcoin_tx_ids
            JOIN bitcoin_chain_tip USING (row_number)
            JOIN output_index USING (row_number)
            JOIN request_id USING (row_number)
            JOIN stacks_txid USING (row_number)
            JOIN stacks_block_hash USING (row_number)
            JOIN validation_result USING (row_number)
            JOIN is_valid_tx USING (row_number)
            ON CONFLICT DO NOTHING"#);
    assert(is_in(sql::WRITE_BITCOIN_WITHDRAWALS_OUTPUTS@, 1031));
}

/// Only unverified shares of a key are marked as failed.
pub proof fn shares_are_revoked()
    ensures
        says(sql::REVOKE_DKG_SHARES@, r#"UPDATE sbtc_signer.dkg_shares
            SET dkg_shares_status = 'failed'
            WHERE substring(aggregate_key FROM 2) = $1
              AND dkg_shares_status = 'unverified';"#@),
{
    reveal_strlit(r#"
            UPDATE sbtc_signer.dkg_shares
            SET dkg_shares_status = 'failed'
            WHERE substring(aggregate_key FROM 2) = $1
              AND dkg_shares_status = 'unverified'; -- only allow failing pending entries
            "#);
    reveal_strlit(r#"UPDATE sbtc_signer.dkg_shares
            SET dkg_shares_status = 'failed'
            WHERE substring(aggregate_key FROM 2) = $1
              AND dkg_shares_status = 'unverified';"#);
    assert(is_in(sql::REVOKE_DKG_SHARES@, 13));
}

/// Only unverified shares of a key are marked as verified.
pub proof fn shares_are_verified()
    ensures
        says(sql::VERIFY_DKG_SHARES@, r#"UPDATE sbtc_signer.dkg_shares
            SET dkg_shares_status = 'verified'
            WHERE substring(aggregate_key FROM 2) = $1
              AND dkg_shares_status = 'unverified';"#@),
{
    reveal_strlit(r#"
            UPDATE sbtc_signer.dkg_shares
            SET dkg_shares_status = 'verified'
            WHERE substring(aggregate_key FROM 2) = $1
              AND dkg_shares_status = 'unverified'; -- only allow verifying pending entries
            "#);
    reveal_strlit(r#"UPDATE sbtc_signer.dkg_shares
            SET dkg_shares_status = 'verified'
            WHERE substring(aggregate_key FROM 2) = $1
              AND dkg_shares_status = 'unverified';"#);
    assert(is_in(sql::VERIFY_DKG_SHARES@, 13));
}

/// A migration is recorded under its name, in the table that is created for
/// that, and counted there.
pub proof fn migrations_are_kept()
    ensures
        says(sql::CREATE_MIGRATIONS_TABLE@, r#"CREATE TABLE IF NOT EXISTS public.__sbtc_migrations (
                    key TEXT PRIMARY KEY
                );"#@),
        says(sql::INSERT_MIGRATION@, r#"INSERT INTO public.__sbtc_migrations (key)
                VALUES ($1)"#@),
        says(sql::CHECK_MIGRATION_EXISTENCE@, r#"SELECT COUNT(*) FROM public.__sbtc_migrations
                WHERE
                    key = $1"#@),
{
    reveal_strlit(r#"
                CREATE TABLE IF NOT EXISTS public.__sbtc_migrations (
                    key TEXT PRIMARY KEY
                );
            "#);
    reveal_strlit(r#"CREATE TABLE IF NOT EXISTS public.__sbtc_migrations (
                    key TEXT PRIMARY KEY
                );"#);
    assert(is_in(sql::CREATE_MIGRATIONS_TABLE@, 17));
    reveal_strlit(r#"
            INSERT INTO public.__sbtc_migrations (key)
                VALUES ($1)
            "#);
    reveal_strlit(r#"INSERT INTO public.__sbtc_migrations (key)
                VALUES ($1)"#);
    assert(is_in(sql::INSERT_MIGRATION@, 13));
    reveal_strlit(r#"
            SELECT COUNT(*) FROM public.__sbtc_migrations
                WHERE
                    key = $1
            ;
            "#);
    reveal_strlit(r#"SELECT COUNT(*) FROM public.__sbtc_migrations
                WHERE
                    key = $1"#);
    assert(is_in(sql::CHECK_MIGRATION_EXISTENCE@, 13));
}

/// A new connection has the name of the program, and looks for tables where the
/// store keeps them.
pub proof fn connection_is_prepared()
    ensures
        says(sql::AFTER_CONNECT@, "SET application_name = 'sbtc-signer';"@),
        says(sql::AFTER_CONNECT@, "SET search_path = sbtc_signer,public;"@),
{
    reveal_strlit("SET application_name = 'sbtc-signer'; SET search_path = sbtc_signer,public;");
    reveal_strlit("SET application_name = 'sbtc-signer';");
    assert(is_in(sql::AFTER_CONNECT@, 0));
    reveal_strlit("SET search_path = sbtc_signer,public;");
    assert(is_in(sql::AFTER_CONNECT@, 38));
}

} // verus!
