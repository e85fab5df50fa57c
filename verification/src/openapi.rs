//! The public interface of Emily, the service through which deposits and
//! withdrawals are requested.

use vstd::prelude::*;

verus! {

/// An endpoint of the interface.
#[derive(Debug, Clone, Copy, PartialEq, Eq)]
pub enum Handler {
    /// `get_health`, of the health check endpoints.
    GetHealth,
    /// `get_deposit`, of the deposit endpoints.
    GetDeposit,
    /// `get_deposits_for_transaction`, of the deposit endpoints.
    GetDepositsForTransaction,
    /// `get_deposits_for_recipient`, of the deposit endpoints.
    GetDepositsForRecipient,
    /// `get_deposits_for_reclaim_pubkeys`, of the deposit endpoints.
    GetDepositsForReclaimPubkeys,
    /// `get_deposits`, of the deposit endpoints.
    GetDeposits,
    /// `create_deposit`, of the deposit endpoints.
    CreateDeposit,
    /// `update_deposits_signer`, of the deposit endpoints.
    UpdateDepositsSigner,
    /// `get_withdrawal`, of the withdrawal endpoints.
    GetWithdrawal,
    /// `get_withdrawals`, of the withdrawal endpoints.
    GetWithdrawals,
    /// `get_withdrawals_for_recipient`, of the withdrawal endpoints.
    GetWithdrawalsForRecipient,
    /// `get_withdrawals_for_sender`, of the withdrawal endpoints.
    GetWithdrawalsForSender,
    /// `update_withdrawals_signer`, of the withdrawal endpoints.
    UpdateWithdrawalsSigner,
    /// `get_chain_tip`, of the chainstate endpoints.
    GetChainTip,
    /// `get_chainstate_at_height`, of the chainstate endpoints.
    GetChainstateAtHeight,
    /// `get_limits`, of the limits endpoints.
    GetLimits,
    /// `get_limits_for_account`, of the limits endpoints.
    GetLimitsForAccount,
}

/// A type of data that the endpoints exchange.
#[derive(Debug, Clone, Copy, PartialEq, Eq)]
pub enum Schema {
    /// `api::models::chainstate::Chainstate`.
    Chainstate,
    /// `api::models::deposit::Deposit`.
    Deposit,
    /// `api::models::deposit::responses::DepositWithStatus`.
    DepositWithStatus,
    /// `api::models::deposit::DepositParameters`.
    DepositParameters,
    /// `api::models::deposit::DepositInfo`.
    DepositInfo,
    /// `api::models::deposit::requests::CreateDepositRequestBody`.
    CreateDepositRequestBody,
    /// `api::models::deposit::requests::DepositUpdate`.
    DepositUpdate,
    /// `api::models::deposit::requests::UpdateDepositsRequestBody`.
    UpdateDepositsRequestBody,
    /// `api::models::deposit::responses::GetDepositsForTransactionResponse`.
    GetDepositsForTransactionResponse,
    /// `api::models::deposit::responses::GetDepositsResponse`.
    GetDepositsResponse,
    /// `api::models::deposit::responses::UpdateDepositsResponse`.
    UpdateDepositsResponse,
    /// `api::models::withdrawal::Withdrawal`.
    Withdrawal,
    /// `api::models::withdrawal::responses::WithdrawalWithStatus`.
    WithdrawalWithStatus,
    /// `api::models::withdrawal::WithdrawalInfo`.
    WithdrawalInfo,
    /// `api::models::withdrawal::WithdrawalParameters`.
    WithdrawalParameters,
    /// `api::models::withdrawal::requests::WithdrawalUpdate`.
    WithdrawalUpdate,
    /// `api::models::withdrawal::requests::UpdateWithdrawalsRequestBody`.
    UpdateWithdrawalsRequestBody,
    /// `api::models::withdrawal::responses::GetWithdrawalsResponse`.
    GetWithdrawalsResponse,
    /// `api::models::withdrawal::responses::UpdateWithdrawalsResponse`.
    UpdateWithdrawalsResponse,
    /// `api::models::health::responses::HealthData`.
    HealthData,
    /// `api::models::common::DepositStatus`.
    DepositStatus,
    /// `api::models::common::WithdrawalStatus`.
    WithdrawalStatus,
    /// `api::models::common::Fulfillment`.
    Fulfillment,
    /// `api::models::limits::Limits`.
    Limits,
    /// `api::models::limits::AccountLimits`.
    AccountLimits,
    /// `common::error::ErrorResponse`.
    ErrorResponse,
}

/// A change that is made to the description of the interface once it is put
/// together.
#[derive(Debug, Clone, Copy, PartialEq, Eq)]
pub enum Modifier {
    /// Lets browsers on other sites use the interface.
    CorsSupport,
    /// Adds the scheme of the API keys.
    AwsApiKey,
    /// Names the function that handles each request.
    AwsLambdaIntegration,
}

impl Handler {
    /// The path of the function that handles the endpoint.
    pub open spec fn spec_path(self) -> &'static str {
        match self {
            Handler::GetHealth => "api::handlers::health::get_health",
            Handler::GetDeposit => "api::handlers::deposit::get_deposit",
            Handler::GetDepositsForTransaction => "api::handlers::deposit::get_deposits_for_transaction",
            Handler::GetDepositsForRecipient => "api::handlers::deposit::get_deposits_for_recipient",
            Handler::GetDepositsForReclaimPubkeys => "api::handlers::deposit::get_deposits_for_reclaim_pubkeys",
            Handler::GetDeposits => "api::handlers::deposit::get_deposits",
            Handler::CreateDeposit => "api::handlers::deposit::create_deposit",
            Handler::UpdateDepositsSigner => "api::handlers::deposit::update_deposits_signer",
            Handler::GetWithdrawal => "api::handlers::withdrawal::get_withdrawal",
            Handler::GetWithdrawals => "api::handlers::withdrawal::get_withdrawals",
            Handler::GetWithdrawalsForRecipient => "api::handlers::withdrawal::get_withdrawals_for_recipient",
            Handler::GetWithdrawalsForSender => "api::handlers::withdrawal::get_withdrawals_for_sender",
            Handler::UpdateWithdrawalsSigner => "api::handlers::withdrawal::update_withdrawals_signer",
            Handler::GetChainTip => "api::handlers::chainstate::get_chain_tip",
            Handler::GetChainstateAtHeight => "api::handlers::chainstate::get_chainstate_at_height",
            Handler::GetLimits => "api::handlers::limits::get_limits",
            Handler::GetLimitsForAccount => "api::handlers::limits::get_limits_for_account",
        }
    }

    /// The path of the function that handles the endpoint.
    pub fn path(self) -> (path: &'static str)
        ensures
            path == self.spec_path(),
    {
        match self {
            Handler::GetHealth => "api::handlers::health::get_health",
            Handler::GetDeposit => "api::handlers::deposit::get_deposit",
            Handler::GetDepositsForTransaction => "api::handlers::deposit::get_deposits_for_transaction",
            Handler::GetDepositsForRecipient => "api::handlers::deposit::get_deposits_for_recipient",
            Handler::GetDepositsForReclaimPubkeys => "api::handlers::deposit::get_deposits_for_reclaim_pubkeys",
            Handler::GetDeposits => "api::handlers::deposit::get_deposits",
            Handler::CreateDeposit => "api::handlers::deposit::create_deposit",
            Handler::UpdateDepositsSigner => "api::handlers::deposit::update_deposits_signer",
            Handler::GetWithdrawal => "api::handlers::withdrawal::get_withdrawal",
            Handler::GetWithdrawals => "api::handlers::withdrawal::get_withdrawals",
            Handler::GetWithdrawalsForRecipient => "api::handlers::withdrawal::get_withdrawals_for_recipient",
            Handler::GetWithdrawalsForSender => "api::handlers::withdrawal::get_withdrawals_for_sender",
            Handler::UpdateWithdrawalsSigner => "api::handlers::withdrawal::update_withdrawals_signer",
            Handler::GetChainTip => "api::handlers::chainstate::get_chain_tip",
            Handler::GetChainstateAtHeight => "api::handlers::chainstate::get_chainstate_at_height",
            Handler::GetLimits => "api::handlers::limits::get_limits",
            Handler::GetLimitsForAccount => "api::handlers::limits::get_limits_for_account",
        }
    }
}

impl Schema {
    /// The path of the type.
    pub open spec fn spec_path(self) -> &'static str {
        match self {
            Schema::Chainstate => "api::models::chainstate::Chainstate",
            Schema::Deposit => "api::models::deposit::Deposit",
            Schema::DepositWithStatus => "api::models::deposit::responses::DepositWithStatus",
            Schema::DepositParameters => "api::models::deposit::DepositParameters",
            Schema::DepositInfo => "api::models::deposit::DepositInfo",
            Schema::CreateDepositRequestBody => "api::models::deposit::requests::CreateDepositRequestBody",
            Schema::DepositUpdate => "api::models::deposit::requests::DepositUpdate",
            Schema::UpdateDepositsRequestBody => "api::models::deposit::requests::UpdateDepositsRequestBody",
            Schema::GetDepositsForTransactionResponse => "api::models::deposit::responses::GetDepositsForTransactionResponse",
            Schema::GetDepositsResponse => "api::models::deposit::responses::GetDepositsResponse",
            Schema::UpdateDepositsResponse => "api::models::deposit::responses::UpdateDepositsResponse",
            Schema::Withdrawal => "api::models::withdrawal::Withdrawal",
            Schema::WithdrawalWithStatus => "api::models::withdrawal::responses::WithdrawalWithStatus",
            Schema::WithdrawalInfo => "api::models::withdrawal::WithdrawalInfo",
            Schema::WithdrawalParameters => "api::models::withdrawal::WithdrawalParameters",
            Schema::WithdrawalUpdate => "api::models::withdrawal::requests::WithdrawalUpdate",
            Schema::UpdateWithdrawalsRequestBody => "api::models::withdrawal::requests::UpdateWithdrawalsRequestBody",
            Schema::GetWithdrawalsResponse => "api::models::withdrawal::responses::GetWithdrawalsResponse",
            Schema::UpdateWithdrawalsResponse => "api::models::withdrawal::responses::UpdateWithdrawalsResponse",
            Schema::HealthData => "api::models::health::responses::HealthData",
            Schema::DepositStatus => "api::models::common::DepositStatus",
            Schema::WithdrawalStatus => "api::models::common::WithdrawalStatus",
            Schema::Fulfillment => "api::models::common::Fulfillment",
            Schema::Limits => "api::models::limits::Limits",
            Schema::AccountLimits => "api::models::limits::AccountLimits",
            Schema::ErrorResponse => "common::error::ErrorResponse",
        }
    }

    /// The path of the type.
    pub fn path(self) -> (path: &'static str)
        ensures
            path == self.spec_path(),
    {
        match self {
            Schema::Chainstate => "api::models::chainstate::Chainstate",
            Schema::Deposit => "api::models::deposit::Deposit",
            Schema::DepositWithStatus => "api::models::deposit::responses::DepositWithStatus",
            Schema::DepositParameters => "api::models::deposit::DepositParameters",
            Schema::DepositInfo => "api::models::deposit::DepositInfo",
            Schema::CreateDepositRequestBody => "api::models::deposit::requests::CreateDepositRequestBody",
            Schema::DepositUpdate => "api::models::deposit::requests::DepositUpdate",
            Schema::UpdateDepositsRequestBody => "api::models::deposit::requests::UpdateDepositsRequestBody",
            Schema::GetDepositsForTransactionResponse => "api::models::deposit::responses::GetDepositsForTransactionResponse",
            Schema::GetDepositsResponse => "api::models::deposit::responses::GetDepositsResponse",
            Schema::UpdateDepositsResponse => "api::models::deposit::responses::UpdateDepositsResponse",
            Schema::Withdrawal => "api::models::withdrawal::Withdrawal",
            Schema::WithdrawalWithStatus => "api::models::withdrawal::responses::WithdrawalWithStatus",
            Schema::WithdrawalInfo => "api::models::withdrawal::WithdrawalInfo",
            Schema::WithdrawalParameters => "api::models::withdrawal::WithdrawalParameters",
            Schema::WithdrawalUpdate => "api::models::withdrawal::requests::WithdrawalUpdate",
            Schema::UpdateWithdrawalsRequestBody => "api::models::withdrawal::requests::UpdateWithdrawalsRequestBody",
            Schema::GetWithdrawalsResponse => "api::models::withdrawal::responses::GetWithdrawalsResponse",
            Schema::UpdateWithdrawalsResponse => "api::models::withdrawal::responses::UpdateWithdrawalsResponse",
            Schema::HealthData => "api::models::health::responses::HealthData",
            Schema::DepositStatus => "api::models::common::DepositStatus",
            Schema::WithdrawalStatus => "api::models::common::WithdrawalStatus",
            Schema::Fulfillment => "api::models::common::Fulfillment",
            Schema::Limits => "api::models::limits::Limits",
            Schema::AccountLimits => "api::models::limits::AccountLimits",
            Schema::ErrorResponse => "common::error::ErrorResponse",
        }
    }
}

/// The description of the public interface.
#[derive(Debug, Clone, Copy, PartialEq, Eq)]
pub struct ApiDoc;

impl ApiDoc {
    /// The endpoints, in the order in which they are described.
    pub open spec fn spec_handlers() -> Seq<Handler> {
        seq![
            Handler::GetHealth,
            Handler::GetDeposit,
            Handler::GetDepositsForTransaction,
            Handler::GetDepositsForRecipient,
            Handler::GetDepositsForReclaimPubkeys,
            Handler::GetDeposits,
            Handler::CreateDeposit,
            Handler::UpdateDepositsSigner,
            Handler::GetWithdrawal,
            Handler::GetWithdrawals,
            Handler::GetWithdrawalsForRecipient,
            Handler::GetWithdrawalsForSender,
            Handler::UpdateWithdrawalsSigner,
            Handler::GetChainTip,
            Handler::GetChainstateAtHeight,
            Handler::GetLimits,
            Handler::GetLimitsForAccount,
        ]
    }

    /// The types, in the order in which they are described.
    pub open spec fn spec_schemas() -> Seq<Schema> {
        seq![
            Schema::Chainstate,
            Schema::Deposit,
            Schema::DepositWithStatus,
            Schema::DepositParameters,
            Schema::DepositInfo,
            Schema::CreateDepositRequestBody,
            Schema::DepositUpdate,
            Schema::UpdateDepositsRequestBody,
            Schema::GetDepositsForTransactionResponse,
            Schema::GetDepositsResponse,
            Schema::UpdateDepositsResponse,
            Schema::Withdrawal,
            Schema::WithdrawalWithStatus,
            Schema::WithdrawalInfo,
            Schema::WithdrawalParameters,
            Schema::WithdrawalUpdate,
            Schema::UpdateWithdrawalsRequestBody,
            Schema::GetWithdrawalsResponse,
            Schema::UpdateWithdrawalsResponse,
            Schema::HealthData,
            Schema::DepositStatus,
            Schema::WithdrawalStatus,
            Schema::Fulfillment,
            Schema::Limits,
            Schema::AccountLimits,
            Schema::ErrorResponse,
        ]
    }

    /// The changes, in the order in which they are made.
    pub open spec fn spec_modifiers() -> Seq<Modifier> {
        seq![Modifier::CorsSupport, Modifier::AwsApiKey, Modifier::AwsLambdaIntegration]
    }

    /// The endpoints, in the order in which they are described.
    pub fn handlers(&self) -> (handlers: Vec<Handler>)
        ensures
            handlers@ == Self::spec_handlers(),
    {
        let handlers = vec![
            Handler::GetHealth,
            Handler::GetDeposit,
            Handler::GetDepositsForTransaction,
            Handler::GetDepositsForRecipient,
            Handler::GetDepositsForReclaimPubkeys,
            Handler::GetDeposits,
            Handler::CreateDeposit,
            Handler::UpdateDepositsSigner,
            Handler::GetWithdrawal,
            Handler::GetWithdrawals,
            Handler::GetWithdrawalsForRecipient,
            Handler::GetWithdrawalsForSender,
            Handler::UpdateWithdrawalsSigner,
            Handler::GetChainTip,
            Handler::GetChainstateAtHeight,
            Handler::GetLimits,
            Handler::GetLimitsForAccount,
        ];
        assert(handlers@ =~= Self::spec_handlers());
        handlers
    }

    /// The types, in the order in which they are described.
    pub fn schemas(&self) -> (schemas: Vec<Schema>)
        ensures
            schemas@ == Self::spec_schemas(),
    {
        let schemas = vec![
            Schema::Chainstate,
            Schema::Deposit,
            Schema::DepositWithStatus,
            Schema::DepositParameters,
            Schema::DepositInfo,
            Schema::CreateDepositRequestBody,
            Schema::DepositUpdate,
            Schema::UpdateDepositsRequestBody,
            Schema::GetDepositsForTransactionResponse,
            Schema::GetDepositsResponse,
            Schema::UpdateDepositsResponse,
            Schema::Withdrawal,
            Schema::WithdrawalWithStatus,
            Schema::WithdrawalInfo,
            Schema::WithdrawalParameters,
            Schema::WithdrawalUpdate,
            Schema::UpdateWithdrawalsRequestBody,
            Schema::GetWithdrawalsResponse,
            Schema::UpdateWithdrawalsResponse,
            Schema::HealthData,
            Schema::DepositStatus,
            Schema::WithdrawalStatus,
            Schema::Fulfillment,
            Schema::Limits,
            Schema::AccountLimits,
            Schema::ErrorResponse,
        ];
        assert(schemas@ =~= Self::spec_schemas());
        schemas
    }

    /// The changes, in the order in which they are made.
    pub fn modifiers(&self) -> (modifiers: Vec<Modifier>)
        ensures
            modifiers@ == Self::spec_modifiers(),
    {
        let modifiers = vec![
            Modifier::CorsSupport,
            Modifier::AwsApiKey,
            Modifier::AwsLambdaIntegration,
        ];
        assert(modifiers@ =~= Self::spec_modifiers());
        modifiers
    }

    /// Every endpoint, every type and every change is listed, and none twice.
    pub proof fn lists_each_once(handler: Handler, schema: Schema, modifier: Modifier)
        ensures
            Self::spec_handlers().contains(handler),
            Self::spec_schemas().contains(schema),
            Self::spec_modifiers().contains(modifier),
            Self::spec_handlers().no_duplicates(),
            Self::spec_schemas().no_duplicates(),
            Self::spec_modifiers().no_duplicates(),
    {
        let handlers = Self::spec_handlers();
        let schemas = Self::spec_schemas();
        let modifiers = Self::spec_modifiers();
        match handler {
            Handler::GetHealth => assert(handlers[0] == handler),
            Handler::GetDeposit => assert(handlers[1] == handler),
            Handler::GetDepositsForTransaction => assert(handlers[2] == handler),
            Handler::GetDepositsForRecipient => assert(handlers[3] == handler),
            Handler::GetDepositsForReclaimPubkeys => assert(handlers[4] == handler),
            Handler::GetDeposits => assert(handlers[5] == handler),
            Handler::CreateDeposit => assert(handlers[6] == handler),
            Handler::UpdateDepositsSigner => assert(handlers[7] == handler),
            Handler::GetWithdrawal => assert(handlers[8] == handler),
            Handler::GetWithdrawals => assert(handlers[9] == handler),
            Handler::GetWithdrawalsForRecipient => assert(handlers[10] == handler),
            Handler::GetWithdrawalsForSender => assert(handlers[11] == handler),
            Handler::UpdateWithdrawalsSigner => assert(handlers[12] == handler),
            Handler::GetChainTip => assert(handlers[13] == handler),
            Handler::GetChainstateAtHeight => assert(handlers[14] == handler),
            Handler::GetLimits => assert(handlers[15] == handler),
            Handler::GetLimitsForAccount => assert(handlers[16] == handler),
        }
        match schema {
            Schema::Chainstate => assert(schemas[0] == schema),
            Schema::Deposit => assert(schemas[1] == schema),
            Schema::DepositWithStatus => assert(schemas[2] == schema),
            Schema::DepositParameters => assert(schemas[3] == schema),
            Schema::DepositInfo => assert(schemas[4] == schema),
            Schema::CreateDepositRequestBody => assert(schemas[5] == schema),
            Schema::DepositUpdate => assert(schemas[6] == schema),
            Schema::UpdateDepositsRequestBody => assert(schemas[7] == schema),
            Schema::GetDepositsForTransactionResponse => assert(schemas[8] == schema),
            Schema::GetDepositsResponse => assert(schemas[9] == schema),
            Schema::UpdateDepositsResponse => assert(schemas[10] == schema),
            Schema::Withdrawal => assert(schemas[11] == schema),
            Schema::WithdrawalWithStatus => assert(schemas[12] == schema),
            Schema::WithdrawalInfo => assert(schemas[13] == schema),
            Schema::WithdrawalParameters => assert(schemas[14] == schema),
            Schema::WithdrawalUpdate => assert(schemas[15] == schema),
            Schema::UpdateWithdrawalsRequestBody => assert(schemas[16] == schema),
            Schema::GetWithdrawalsResponse => assert(schemas[17] == schema),
            Schema::UpdateWithdrawalsResponse => assert(schemas[18] == schema),
            Schema::HealthData => assert(schemas[19] == schema),
            Schema::DepositStatus => assert(schemas[20] == schema),
            Schema::WithdrawalStatus => assert(schemas[21] == schema),
            Schema::Fulfillment => assert(schemas[22] == schema),
            Schema::Limits => assert(schemas[23] == schema),
            Schema::AccountLimits => assert(schemas[24] == schema),
            Schema::ErrorResponse => assert(schemas[25] == schema),
        }
        match modifier {
            Modifier::CorsSupport => assert(modifiers[0] == modifier),
            Modifier::AwsApiKey => assert(modifiers[1] == modifier),
            Modifier::AwsLambdaIntegration => assert(modifiers[2] == modifier),
        }
    }
}

} // verus!
