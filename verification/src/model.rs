//! The data that the store keeps.

use vstd::prelude::*;

verus! {

/// The ID of a bitcoin transaction, in its internal byte order.
#[derive(Debug, Clone, Copy, PartialEq, Eq)]
pub struct BitcoinTxId(pub [u8; 32]);

/// The hash of a bitcoin block, in its internal byte order.
#[derive(Debug, Clone, Copy, PartialEq, Eq)]
pub struct BitcoinBlockHash(pub [u8; 32]);

/// The ID of a stacks transaction.
#[derive(Debug, Clone, Copy, PartialEq, Eq)]
pub struct StacksTxId(pub [u8; 32]);

/// The ID of a stacks block.
#[derive(Debug, Clone, Copy, PartialEq, Eq)]
pub struct StacksBlockHash(pub [u8; 32]);

/// The ID of a stacks block, as a stacks node gives it.
#[derive(Debug, Clone, Copy, PartialEq, Eq)]
pub struct StacksBlockId(pub [u8; 32]);

/// The digest of a transaction input that the signers sign.
#[derive(Debug, Clone, Copy, PartialEq, Eq)]
pub struct SigHash(pub [u8; 32]);

/// A public key in its compressed form: a parity byte, then the x-coordinate.
#[derive(Debug, Clone, Copy, PartialEq, Eq)]
pub struct PublicKey(pub [u8; 33]);

/// The x-coordinate of a public key.
#[derive(Debug, Clone, Copy, PartialEq, Eq)]
pub struct PublicKeyXOnly(pub [u8; 32]);

/// The height of a bitcoin block.
#[derive(Debug, Clone, Copy, PartialEq, Eq)]
pub struct BitcoinBlockHeight(pub u64);

/// The height of a stacks block.
#[derive(Debug, Clone, Copy, PartialEq, Eq)]
pub struct StacksBlockHeight(pub u64);

/// A script that locks bitcoin.
#[derive(Debug, PartialEq, Eq)]
pub struct ScriptPubKey(pub Vec<u8>);

/// An output of a bitcoin transaction.
#[derive(Debug, Clone, Copy, PartialEq, Eq)]
pub struct OutPoint {
    /// The transaction.
    pub txid: BitcoinTxId,
    /// The index of the output in it.
    pub vout: u32,
}

/// What an output of a transaction that concerns the signers is for.
#[derive(Debug, Clone, Copy, PartialEq, Eq)]
pub enum TxOutputType {
    /// It holds the signers' funds.
    SignersOutput,
    /// It carries data of the signers.
    SignersOpReturn,
    /// It pays a withdrawal.
    Withdrawal,
    /// It is a donation to the signers.
    Donation,
}

impl TxOutputType {
    /// The label of the type in the database.
    pub open spec fn spec_label(self) -> Seq<char> {
        match self {
            TxOutputType::SignersOutput => "signers_output"@,
            TxOutputType::SignersOpReturn => "signers_op_return"@,
            TxOutputType::Withdrawal => "withdrawal"@,
            TxOutputType::Donation => "donation"@,
        }
    }

    /// The label of the type in the database.
    pub fn label(self) -> (label: String)
        ensures
            label@ == self.spec_label(),
    {
        match self {
            TxOutputType::SignersOutput => "signers_output".to_owned(),
            TxOutputType::SignersOpReturn => "signers_op_return".to_owned(),
            TxOutputType::Withdrawal => "withdrawal".to_owned(),
            TxOutputType::Donation => "donation".to_owned(),
        }
    }
}

/// What an output that a transaction spends was for.
#[derive(Debug, Clone, Copy, PartialEq, Eq)]
pub enum TxPrevoutType {
    /// It held the signers' funds.
    SignersInput,
    /// It was a deposit.
    Deposit,
}

impl TxPrevoutType {
    /// The label of the type in the database.
    pub open spec fn spec_label(self) -> Seq<char> {
        match self {
            TxPrevoutType::SignersInput => "signers_input"@,
            TxPrevoutType::Deposit => "deposit"@,
        }
    }

    /// The label of the type in the database.
    pub fn label(self) -> (label: String)
        ensures
            label@ == self.spec_label(),
    {
        match self {
            TxPrevoutType::SignersInput => "signers_input".to_owned(),
            TxPrevoutType::Deposit => "deposit".to_owned(),
        }
    }
}

/// How far the shares of a key generation have been checked.
#[derive(Debug, Clone, Copy, PartialEq, Eq)]
pub enum DkgSharesStatus {
    /// Not yet.
    Unverified,
    /// They were used successfully.
    Verified,
    /// They are not to be used.
    Failed,
}

impl DkgSharesStatus {
    /// The label of the status in the database.
    pub open spec fn spec_label(self) -> Seq<char> {
        match self {
            DkgSharesStatus::Unverified => "unverified"@,
            DkgSharesStatus::Verified => "verified"@,
            DkgSharesStatus::Failed => "failed"@,
        }
    }

    /// Whether a label is one of a status.
    pub open spec fn is_label(label: Seq<char>) -> bool {
        exists|status: DkgSharesStatus| label == #[trigger] status.spec_label()
    }

    /// The label of the status in the database.
    pub fn label(self) -> (label: String)
        ensures
            label@ == self.spec_label(),
    {
        match self {
            DkgSharesStatus::Unverified => "unverified".to_owned(),
            DkgSharesStatus::Verified => "verified".to_owned(),
            DkgSharesStatus::Failed => "failed".to_owned(),
        }
    }

    /// The status with the given label.
    pub fn from_label(label: &String) -> (status: Option<DkgSharesStatus>)
        ensures
            (match status {
                Some(status) => label@ == status.spec_label(),
                None => !DkgSharesStatus::is_label(label@),
            }),
    {
        if *label == DkgSharesStatus::Unverified.label() {
            Some(DkgSharesStatus::Unverified)
        } else if *label == DkgSharesStatus::Verified.label() {
            Some(DkgSharesStatus::Verified)
        } else if *label == DkgSharesStatus::Failed.label() {
            Some(DkgSharesStatus::Failed)
        } else {
            proof {
                assert forall|status: DkgSharesStatus| label@ != #[trigger] status.spec_label() by {
                    match status {
                        DkgSharesStatus::Unverified => {},
                        DkgSharesStatus::Verified => {},
                        DkgSharesStatus::Failed => {},
                    }
                }
            }
            None
        }
    }

    /// No two statuses share a label.
    pub proof fn labels_differ(a: DkgSharesStatus, b: DkgSharesStatus)
        ensures
            a.spec_label() == b.spec_label() ==> a == b,
    {
        reveal_strlit("unverified");
        reveal_strlit("verified");
        reveal_strlit("failed");
        assert("unverified"@.len() == 10);
        assert("verified"@.len() == 8);
        assert("failed"@.len() == 6);
    }
}

/// A bitcoin block.
#[derive(Debug, Clone, Copy, PartialEq, Eq)]
pub struct BitcoinBlock {
    pub block_hash: BitcoinBlockHash,
    pub block_height: BitcoinBlockHeight,
    pub parent_hash: BitcoinBlockHash,
}

/// A bitcoin block by its hash and height.
#[derive(Debug, Clone, Copy, PartialEq, Eq)]
pub struct BitcoinBlockRef {
    pub block_hash: BitcoinBlockHash,
    pub block_height: BitcoinBlockHeight,
}

/// A stacks block.
#[derive(Debug, Clone, Copy, PartialEq, Eq)]
pub struct StacksBlock {
    pub block_hash: StacksBlockHash,
    pub block_height: StacksBlockHeight,
    pub parent_hash: StacksBlockHash,
    /// The bitcoin block that the block builds upon.
    pub bitcoin_anchor: BitcoinBlockHash,
}

/// A bitcoin transaction in a block.
#[derive(Debug, Clone, Copy, PartialEq, Eq)]
pub struct BitcoinTxRef {
    pub txid: BitcoinTxId,
    pub block_hash: BitcoinBlockHash,
}

/// A request to turn bitcoin into sBTC.
#[derive(Debug, PartialEq, Eq)]
pub struct DepositRequest {
    pub txid: BitcoinTxId,
    pub output_index: u32,
    pub spend_script: Vec<u8>,
    pub reclaim_script: Vec<u8>,
    /// The stacks principal that receives the sBTC, in its text form.
    pub recipient: String,
    pub amount: u64,
    pub max_fee: u64,
    pub lock_time: u32,
    pub signers_public_key: PublicKeyXOnly,
    pub sender_script_pub_keys: Vec<ScriptPubKey>,
}

/// A signer's decision on a deposit request.
#[derive(Debug, Clone, Copy, PartialEq, Eq)]
pub struct DepositSigner {
    pub txid: BitcoinTxId,
    pub output_index: u32,
    pub signer_pub_key: PublicKey,
    pub can_accept: bool,
    pub can_sign: bool,
}

/// A request to turn sBTC into bitcoin.
#[derive(Debug, PartialEq, Eq)]
pub struct WithdrawalRequest {
    pub request_id: u64,
    pub txid: StacksTxId,
    pub block_hash: StacksBlockHash,
    pub recipient: ScriptPubKey,
    pub amount: u64,
    pub max_fee: u64,
    /// The stacks principal that sent the sBTC, in its text form.
    pub sender_address: String,
    pub bitcoin_block_height: BitcoinBlockHeight,
}

/// A withdrawal request on a fork of the stacks blockchain.
#[derive(Debug, Clone, Copy, PartialEq, Eq)]
pub struct QualifiedRequestId {
    pub request_id: u64,
    pub txid: StacksTxId,
    pub block_hash: StacksBlockHash,
}

/// A signer's decision on a withdrawal request.
#[derive(Debug, Clone, Copy, PartialEq, Eq)]
pub struct WithdrawalSigner {
    pub request_id: u64,
    pub txid: StacksTxId,
    pub block_hash: StacksBlockHash,
    pub signer_pub_key: PublicKey,
    pub is_accepted: bool,
}

/// A signer's vote on a request, if there is one.
#[derive(Debug, Clone, Copy, PartialEq, Eq)]
pub struct SignerVote {
    pub signer_public_key: PublicKey,
    pub is_accepted: Option<bool>,
}

/// The votes of the signers of a signing set.
#[derive(Debug, PartialEq, Eq)]
pub struct SignerVotes(pub Vec<SignerVote>);

/// The outcome of a distributed key generation, for one signer.
#[derive(Debug, PartialEq, Eq)]
pub struct EncryptedDkgShares {
    pub aggregate_key: PublicKey,
    pub tweaked_aggregate_key: PublicKey,
    pub script_pubkey: ScriptPubKey,
    pub encrypted_private_shares: Vec<u8>,
    pub public_shares: Vec<u8>,
    pub signer_set_public_keys: Vec<PublicKey>,
    pub signature_share_threshold: u16,
    pub dkg_shares_status: DkgSharesStatus,
    pub started_at_bitcoin_block_hash: BitcoinBlockHash,
    pub started_at_bitcoin_block_height: BitcoinBlockHeight,
}

/// A change of the signers' key.
#[derive(Debug, PartialEq, Eq)]
pub struct KeyRotationEvent {
    pub txid: StacksTxId,
    pub block_hash: StacksBlockHash,
    /// The signers' stacks principal, in its text form.
    pub address: String,
    pub aggregate_key: PublicKey,
    pub signer_set: Vec<PublicKey>,
    pub signatures_required: u16,
}

/// A deposit request with the transaction that swept it.
#[derive(Debug, PartialEq, Eq)]
pub struct SweptDepositRequest {
    pub sweep_txid: BitcoinTxId,
    pub sweep_block_hash: BitcoinBlockHash,
    pub sweep_block_height: BitcoinBlockHeight,
    pub txid: BitcoinTxId,
    pub output_index: u32,
    pub recipient: String,
    pub amount: u64,
    pub max_fee: u64,
}

/// A withdrawal request with the transaction that paid it.
#[derive(Debug, PartialEq, Eq)]
pub struct SweptWithdrawalRequest {
    pub output_index: u32,
    pub sweep_txid: BitcoinTxId,
    pub sweep_block_hash: BitcoinBlockHash,
    pub sweep_block_height: BitcoinBlockHeight,
    pub request_id: u64,
    pub txid: StacksTxId,
    pub block_hash: StacksBlockHash,
    pub recipient: ScriptPubKey,
    pub amount: u64,
    pub max_fee: u64,
    pub sender_address: String,
}

/// An output of a transaction that concerns the signers.
#[derive(Debug, PartialEq, Eq)]
pub struct TxOutput {
    pub txid: BitcoinTxId,
    pub output_index: u32,
    pub amount: u64,
    pub script_pubkey: ScriptPubKey,
    pub output_type: TxOutputType,
}

/// An output that pays a withdrawal request.
#[derive(Debug, Clone, Copy, PartialEq, Eq)]
pub struct WithdrawalTxOutput {
    pub txid: BitcoinTxId,
    pub output_index: u32,
    pub request_id: u64,
}

/// An output that a transaction of the signers spends.
#[derive(Debug, PartialEq, Eq)]
pub struct TxPrevout {
    pub txid: BitcoinTxId,
    pub prevout_txid: BitcoinTxId,
    pub prevout_output_index: u32,
    pub amount: u64,
    pub script_pubkey: ScriptPubKey,
    pub prevout_type: TxPrevoutType,
}

/// The digest of an input of a proposed transaction, with the signer's view on
/// it.
#[derive(Debug, PartialEq, Eq)]
pub struct BitcoinTxSigHash {
    pub txid: BitcoinTxId,
    pub chain_tip: BitcoinBlockHash,
    pub prevout_txid: BitcoinTxId,
    pub prevout_output_index: u32,
    pub sighash: SigHash,
    pub prevout_type: TxPrevoutType,
    /// The result of the validation of the input, in its text form.
    pub validation_result: String,
    pub is_valid_tx: bool,
    pub will_sign: bool,
    pub aggregate_key: PublicKeyXOnly,
}

/// An output of a proposed transaction that pays a withdrawal request.
#[derive(Debug, PartialEq, Eq)]
pub struct BitcoinWithdrawalOutput {
    pub bitcoin_txid: BitcoinTxId,
    pub bitcoin_chain_tip: BitcoinBlockHash,
    pub output_index: u32,
    pub request_id: u64,
    pub stacks_txid: StacksTxId,
    pub stacks_block_hash: StacksBlockHash,
    /// The result of the validation of the output, in its text form.
    pub validation_result: String,
    pub is_valid_tx: bool,
}

/// The signers minted sBTC for a deposit.
#[derive(Debug, Clone, Copy, PartialEq, Eq)]
pub struct CompletedDepositEvent {
    pub txid: StacksTxId,
    pub block_id: StacksBlockHash,
    pub amount: u64,
    pub outpoint: OutPoint,
    pub sweep_block_hash: BitcoinBlockHash,
    pub sweep_block_height: BitcoinBlockHeight,
    pub sweep_txid: BitcoinTxId,
}

/// The signers paid a withdrawal request.
#[derive(Debug, Clone, Copy, PartialEq, Eq)]
pub struct WithdrawalAcceptEvent {
    pub txid: StacksTxId,
    pub block_id: StacksBlockHash,
    pub request_id: u64,
    /// One bit for each signer.
    pub signer_bitmap: [u8; 16],
    pub outpoint: OutPoint,
    pub fee: u64,
    pub sweep_block_hash: BitcoinBlockHash,
    pub sweep_block_height: BitcoinBlockHeight,
    pub sweep_txid: BitcoinTxId,
}

/// The signers refused a withdrawal request.
#[derive(Debug, Clone, Copy, PartialEq, Eq)]
pub struct WithdrawalRejectEvent {
    pub txid: StacksTxId,
    pub block_id: StacksBlockHash,
    pub request_id: u64,
    /// One bit for each signer.
    pub signer_bitmap: [u8; 16],
}

/// The unspent output that holds the signers' funds.
#[derive(Debug, Clone, Copy, PartialEq, Eq)]
pub struct SignerUtxo {
    pub outpoint: OutPoint,
    pub amount: u64,
    pub public_key: PublicKeyXOnly,
}

} // verus!
