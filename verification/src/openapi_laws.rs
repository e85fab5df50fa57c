//! What holds of the description of the public interface.

use crate::openapi::{ApiDoc, Handler, Modifier, Schema};
use vstd::prelude::*;

verus! {

/// The group of endpoints that an endpoint belongs to.
pub open spec fn group_of(handler: Handler) -> Seq<char> {
    match handler {
        Handler::GetHealth => "health"@,
        Handler::GetDeposit => "deposit"@,
        Handler::GetDepositsForTransaction => "deposit"@,
        Handler::GetDepositsForRecipient => "deposit"@,
        Handler::GetDepositsForReclaimPubkeys => "deposit"@,
        Handler::GetDeposits => "deposit"@,
        Handler::CreateDeposit => "deposit"@,
        Handler::UpdateDepositsSigner => "deposit"@,
        Handler::GetWithdrawal => "withdrawal"@,
        Handler::GetWithdrawals => "withdrawal"@,
        Handler::GetWithdrawalsForRecipient => "withdrawal"@,
        Handler::GetWithdrawalsForSender => "withdrawal"@,
        Handler::UpdateWithdrawalsSigner => "withdrawal"@,
        Handler::GetChainTip => "chainstate"@,
        Handler::GetChainstateAtHeight => "chainstate"@,
        Handler::GetLimits => "limits"@,
        Handler::GetLimitsForAccount => "limits"@,
    }
}

/// The name of the function that handles an endpoint.
pub open spec fn function_of(handler: Handler) -> Seq<char> {
    match handler {
        Handler::GetHealth => "get_health"@,
        Handler::GetDeposit => "get_deposit"@,
        Handler::GetDepositsForTransaction => "get_deposits_for_transaction"@,
        Handler::GetDepositsForRecipient => "get_deposits_for_recipient"@,
        Handler::GetDepositsForReclaimPubkeys => "get_deposits_for_reclaim_pubkeys"@,
        Handler::GetDeposits => "get_deposits"@,
        Handler::CreateDeposit => "create_deposit"@,
        Handler::UpdateDepositsSigner => "update_deposits_signer"@,
        Handler::GetWithdrawal => "get_withdrawal"@,
        Handler::GetWithdrawals => "get_withdrawals"@,
        Handler::GetWithdrawalsForRecipient => "get_withdrawals_for_recipient"@,
        Handler::GetWithdrawalsForSender => "get_withdrawals_for_sender"@,
        Handler::UpdateWithdrawalsSigner => "update_withdrawals_signer"@,
        Handler::GetChainTip => "get_chain_tip"@,
        Handler::GetChainstateAtHeight => "get_chainstate_at_height"@,
        Handler::GetLimits => "get_limits"@,
        Handler::GetLimitsForAccount => "get_limits_for_account"@,
    }
}

/// The place of an endpoint in the description.
pub open spec fn place_of_handler(handler: Handler) -> int {
    match handler {
        Handler::GetHealth => 0,
        Handler::GetDeposit => 1,
        Handler::GetDepositsForTransaction => 2,
        Handler::GetDepositsForRecipient => 3,
        Handler::GetDepositsForReclaimPubkeys => 4,
        Handler::GetDeposits => 5,
        Handler::CreateDeposit => 6,
        Handler::UpdateDepositsSigner => 7,
        Handler::GetWithdrawal => 8,
        Handler::GetWithdrawals => 9,
        Handler::GetWithdrawalsForRecipient => 10,
        Handler::GetWithdrawalsForSender => 11,
        Handler::UpdateWithdrawalsSigner => 12,
        Handler::GetChainTip => 13,
        Handler::GetChainstateAtHeight => 14,
        Handler::GetLimits => 15,
        Handler::GetLimitsForAccount => 16,
    }
}

/// The module that a type is declared in.
pub open spec fn module_of(schema: Schema) -> Seq<char> {
    match schema {
        Schema::Chainstate => "api::models::chainstate"@,
        Schema::Deposit => "api::models::deposit"@,
        Schema::DepositWithStatus => "api::models::deposit::responses"@,
        Schema::DepositParameters => "api::models::deposit"@,
        Schema::DepositInfo => "api::models::deposit"@,
        Schema::CreateDepositRequestBody => "api::models::deposit::requests"@,
        Schema::DepositUpdate => "api::models::deposit::requests"@,
        Schema::UpdateDepositsRequestBody => "api::models::deposit::requests"@,
        Schema::GetDepositsForTransactionResponse => "api::models::deposit::responses"@,
        Schema::GetDepositsResponse => "api::models::deposit::responses"@,
        Schema::UpdateDepositsResponse => "api::models::deposit::responses"@,
        Schema::Withdrawal => "api::models::withdrawal"@,
        Schema::WithdrawalWithStatus => "api::models::withdrawal::responses"@,
        Schema::WithdrawalInfo => "api::models::withdrawal"@,
        Schema::WithdrawalParameters => "api::models::withdrawal"@,
        Schema::WithdrawalUpdate => "api::models::withdrawal::requests"@,
        Schema::UpdateWithdrawalsRequestBody => "api::models::withdrawal::requests"@,
        Schema::GetWithdrawalsResponse => "api::models::withdrawal::responses"@,
        Schema::UpdateWithdrawalsResponse => "api::models::withdrawal::responses"@,
        Schema::HealthData => "api::models::health::responses"@,
        Schema::DepositStatus => "api::models::common"@,
        Schema::WithdrawalStatus => "api::models::common"@,
        Schema::Fulfillment => "api::models::common"@,
        Schema::Limits => "api::models::limits"@,
        Schema::AccountLimits => "api::models::limits"@,
        Schema::ErrorResponse => "common::error"@,
    }
}

/// The name of a type.
pub open spec fn type_of(schema: Schema) -> Seq<char> {
    match schema {
        Schema::Chainstate => "Chainstate"@,
        Schema::Deposit => "Deposit"@,
        Schema::DepositWithStatus => "DepositWithStatus"@,
        Schema::DepositParameters => "DepositParameters"@,
        Schema::DepositInfo => "DepositInfo"@,
        Schema::CreateDepositRequestBody => "CreateDepositRequestBody"@,
        Schema::DepositUpdate => "DepositUpdate"@,
        Schema::UpdateDepositsRequestBody => "UpdateDepositsRequestBody"@,
        Schema::GetDepositsForTransactionResponse => "GetDepositsForTransactionResponse"@,
        Schema::GetDepositsResponse => "GetDepositsResponse"@,
        Schema::UpdateDepositsResponse => "UpdateDepositsResponse"@,
        Schema::Withdrawal => "Withdrawal"@,
        Schema::WithdrawalWithStatus => "WithdrawalWithStatus"@,
        Schema::WithdrawalInfo => "WithdrawalInfo"@,
        Schema::WithdrawalParameters => "WithdrawalParameters"@,
        Schema::WithdrawalUpdate => "WithdrawalUpdate"@,
        Schema::UpdateWithdrawalsRequestBody => "UpdateWithdrawalsRequestBody"@,
        Schema::GetWithdrawalsResponse => "GetWithdrawalsResponse"@,
        Schema::UpdateWithdrawalsResponse => "UpdateWithdrawalsResponse"@,
        Schema::HealthData => "HealthData"@,
        Schema::DepositStatus => "DepositStatus"@,
        Schema::WithdrawalStatus => "WithdrawalStatus"@,
        Schema::Fulfillment => "Fulfillment"@,
        Schema::Limits => "Limits"@,
        Schema::AccountLimits => "AccountLimits"@,
        Schema::ErrorResponse => "ErrorResponse"@,
    }
}

/// The place of a type in the description.
pub open spec fn place_of_schema(schema: Schema) -> int {
    match schema {
        Schema::Chainstate => 0,
        Schema::Deposit => 1,
        Schema::DepositWithStatus => 2,
        Schema::DepositParameters => 3,
        Schema::DepositInfo => 4,
        Schema::CreateDepositRequestBody => 5,
        Schema::DepositUpdate => 6,
        Schema::UpdateDepositsRequestBody => 7,
        Schema::GetDepositsForTransactionResponse => 8,
        Schema::GetDepositsResponse => 9,
        Schema::UpdateDepositsResponse => 10,
        Schema::Withdrawal => 11,
        Schema::WithdrawalWithStatus => 12,
        Schema::WithdrawalInfo => 13,
        Schema::WithdrawalParameters => 14,
        Schema::WithdrawalUpdate => 15,
        Schema::UpdateWithdrawalsRequestBody => 16,
        Schema::GetWithdrawalsResponse => 17,
        Schema::UpdateWithdrawalsResponse => 18,
        Schema::HealthData => 19,
        Schema::DepositStatus => 20,
        Schema::WithdrawalStatus => 21,
        Schema::Fulfillment => 22,
        Schema::Limits => 23,
        Schema::AccountLimits => 24,
        Schema::ErrorResponse => 25,
    }
}

/// The place of a change among the changes.
pub open spec fn place_of_modifier(modifier: Modifier) -> int {
    match modifier {
        Modifier::CorsSupport => 0,
        Modifier::AwsApiKey => 1,
        Modifier::AwsLambdaIntegration => 2,
    }
}

/// Each endpoint, type and change stands at its place in the description.
pub proof fn descriptions_are_in_order(
    doc: ApiDoc,
    handlers: Vec<Handler>,
    schemas: Vec<Schema>,
    modifiers: Vec<Modifier>,
    handler: Handler,
    schema: Schema,
    modifier: Modifier,
)
    requires
        call_ensures(ApiDoc::handlers, (&doc,), handlers),
        call_ensures(ApiDoc::schemas, (&doc,), schemas),
        call_ensures(ApiDoc::modifiers, (&doc,), modifiers),
    ensures
        handlers@.len() == 17,
        handlers@[place_of_handler(handler)] == handler,
        schemas@.len() == 26,
        schemas@[place_of_schema(schema)] == schema,
        modifiers@.len() == 3,
        modifiers@[place_of_modifier(modifier)] == modifier,
{
}

/// The path of an endpoint leads to its function, in the module of its group.
pub proof fn path_leads_to_the_function(handler: Handler, path: &'static str)
    requires
        call_ensures(Handler::path, (handler,), path),
    ensures
        path@ == "api::handlers::"@ + group_of(handler) + "::"@ + function_of(handler),
{
    reveal_strlit("api::handlers::");
    reveal_strlit("::");
    reveal_strlit("chainstate");
    reveal_strlit("deposit");
    reveal_strlit("health");
    reveal_strlit("limits");
    reveal_strlit("withdrawal");
    match handler {
        Handler::GetHealth => {
            reveal_strlit("api::handlers::health::get_health");
            reveal_strlit("get_health");
            assert(path@ =~= "api::handlers::"@ + "health"@ + "::"@ + "get_health"@);
        },
        Handler::GetDeposit => {
            reveal_strlit("api::handlers::deposit::get_deposit");
            reveal_strlit("get_deposit");
            assert(path@ =~= "api::handlers::"@ + "deposit"@ + "::"@ + "get_deposit"@);
        },
        Handler::GetDepositsForTransaction => {
            reveal_strlit("api::handlers::deposit::get_deposits_for_transaction");
            reveal_strlit("get_deposits_for_transaction");
            assert(path@
                =~= "api::handlers::"@ + "deposit"@ + "::"@ + "get_deposits_for_transaction"@);
        },
        Handler::GetDepositsForRecipient => {
            reveal_strlit("api::handlers::deposit::get_deposits_for_recipient");
            reveal_strlit("get_deposits_for_recipient");
            assert(path@
                =~= "api::handlers::"@ + "deposit"@ + "::"@ + "get_deposits_for_recipient"@);
        },
        Handler::GetDepositsForReclaimPubkeys => {
            reveal_strlit("api::handlers::deposit::get_deposits_for_reclaim_pubkeys");
            reveal_strlit("get_deposits_for_reclaim_pubkeys");
            assert(path@
                =~= "api::handlers::"@ + "deposit"@ + "::"@ + "get_deposits_for_reclaim_pubkeys"@);
        },
        Handler::GetDeposits => {
            reveal_strlit("api::handlers::deposit::get_deposits");
            reveal_strlit("get_deposits");
            assert(path@ =~= "api::handlers::"@ + "deposit"@ + "::"@ + "get_deposits"@);
        },
        Handler::CreateDeposit => {
            reveal_strlit("api::handlers::deposit::create_deposit");
            reveal_strlit("create_deposit");
            assert(path@ =~= "api::handlers::"@ + "deposit"@ + "::"@ + "create_deposit"@);
        },
        Handler::UpdateDepositsSigner => {
            reveal_strlit("api::handlers::deposit::update_deposits_signer");
            reveal_strlit("update_deposits_signer");
            assert(path@ =~= "api::handlers::"@ + "deposit"@ + "::"@ + "update_deposits_signer"@);
        },
        Handler::GetWithdrawal => {
            reveal_strlit("api::handlers::withdrawal::get_withdrawal");
            reveal_strlit("get_withdrawal");
            assert(path@ =~= "api::handlers::"@ + "withdrawal"@ + "::"@ + "get_withdrawal"@);
        },
        Handler::GetWithdrawals => {
            reveal_strlit("api::handlers::withdrawal::get_withdrawals");
            reveal_strlit("get_withdrawals");
            assert(path@ =~= "api::handlers::"@ + "withdrawal"@ + "::"@ + "get_withdrawals"@);
        },
        Handler::GetWithdrawalsForRecipient => {
            reveal_strlit("api::handlers::withdrawal::get_withdrawals_for_recipient");
            reveal_strlit("get_withdrawals_for_recipient");
            assert(path@
                =~= "api::handlers::"@ + "withdrawal"@ + "::"@ + "get_withdrawals_for_recipient"@);
        },
        Handler::GetWithdrawalsForSender => {
            reveal_strlit("api::handlers::withdrawal::get_withdrawals_for_sender");
            reveal_strlit("get_withdrawals_for_sender");
            assert(path@
                =~= "api::handlers::"@ + "withdrawal"@ + "::"@ + "get_withdrawals_for_sender"@);
        },
        Handler::UpdateWithdrawalsSigner => {
            reveal_strlit("api::handlers::withdrawal::update_withdrawals_signer");
            reveal_strlit("update_withdrawals_signer");
            assert(path@
                =~= "api::handlers::"@ + "withdrawal"@ + "::"@ + "update_withdrawals_signer"@);
        },
        Handler::GetChainTip => {
            reveal_strlit("api::handlers::chainstate::get_chain_tip");
            reveal_strlit("get_chain_tip");
            assert(path@ =~= "api::handlers::"@ + "chainstate"@ + "::"@ + "get_chain_tip"@);
        },
        Handler::GetChainstateAtHeight => {
            reveal_strlit("api::handlers::chainstate::get_chainstate_at_height");
            reveal_strlit("get_chainstate_at_height");
            assert(path@
                =~= "api::handlers::"@ + "chainstate"@ + "::"@ + "get_chainstate_at_height"@);
        },
        Handler::GetLimits => {
            reveal_strlit("api::handlers::limits::get_limits");
            reveal_strlit("get_limits");
            assert(path@ =~= "api::handlers::"@ + "limits"@ + "::"@ + "get_limits"@);
        },
        Handler::GetLimitsForAccount => {
            reveal_strlit("api::handlers::limits::get_limits_for_account");
            reveal_strlit("get_limits_for_account");
            assert(path@ =~= "api::handlers::"@ + "limits"@ + "::"@ + "get_limits_for_account"@);
        },
    }
}

/// The path of a type leads to its module and ends in its name.
pub proof fn path_leads_to_the_type(schema: Schema, path: &'static str)
    requires
        call_ensures(Schema::path, (schema,), path),
    ensures
        path@ == module_of(schema) + "::"@ + type_of(schema),
{
    reveal_strlit("::");
    reveal_strlit("api::models::chainstate");
    reveal_strlit("api::models::common");
    reveal_strlit("api::models::deposit");
    reveal_strlit("api::models::deposit::requests");
    reveal_strlit("api::models::deposit::responses");
    reveal_strlit("api::models::health::responses");
    reveal_strlit("api::models::limits");
    reveal_strlit("api::models::withdrawal");
    reveal_strlit("api::models::withdrawal::requests");
    reveal_strlit("api::models::withdrawal::responses");
    reveal_strlit("common::error");
    match schema {
        Schema::Chainstate => {
            reveal_strlit("api::models::chainstate::Chainstate");
            reveal_strlit("Chainstate");
            assert(path@ =~= "api::models::chainstate"@ + "::"@ + "Chainstate"@);
        },
        Schema::Deposit => {
            reveal_strlit("api::models::deposit::Deposit");
            reveal_strlit("Deposit");
            assert(path@ =~= "api::models::deposit"@ + "::"@ + "Deposit"@);
        },
        Schema::DepositWithStatus => {
            reveal_strlit("api::models::deposit::responses::DepositWithStatus");
            reveal_strlit("DepositWithStatus");
            assert(path@ =~= "api::models::deposit::responses"@ + "::"@ + "DepositWithStatus"@);
        },
        Schema::DepositParameters => {
            reveal_strlit("api::models::deposit::DepositParameters");
            reveal_strlit("DepositParameters");
            assert(path@ =~= "api::models::deposit"@ + "::"@ + "DepositParameters"@);
        },
        Schema::DepositInfo => {
            reveal_strlit("api::models::deposit::DepositInfo");
            reveal_strlit("DepositInfo");
            assert(path@ =~= "api::models::deposit"@ + "::"@ + "DepositInfo"@);
        },
        Schema::CreateDepositRequestBody => {
            reveal_strlit("api::models::deposit::requests::CreateDepositRequestBody");
            reveal_strlit("CreateDepositRequestBody");
            assert(path@
                =~= "api::models::deposit::requests"@ + "::"@ + "CreateDepositRequestBody"@);
        },
        Schema::DepositUpdate => {
            reveal_strlit("api::models::deposit::requests::DepositUpdate");
            reveal_strlit("DepositUpdate");
            assert(path@ =~= "api::models::deposit::requests"@ + "::"@ + "DepositUpdate"@);
        },
        Schema::UpdateDepositsRequestBody => {
            reveal_strlit("api::models::deposit::requests::UpdateDepositsRequestBody");
            reveal_strlit("UpdateDepositsRequestBody");
            assert(path@
                =~= "api::models::deposit::requests"@ + "::"@ + "UpdateDepositsRequestBody"@);
        },
        Schema::GetDepositsForTransactionResponse => {
            reveal_strlit("api::models::deposit::responses::GetDepositsForTransactionResponse");
            reveal_strlit("GetDepositsForTransactionResponse");
            assert(path@
                =~= "api::models::deposit::responses"@ + "::"@ + "GetDepositsForTransactionResponse"@);
        },
        Schema::GetDepositsResponse => {
            reveal_strlit("api::models::deposit::responses::GetDepositsResponse");
            reveal_strlit("GetDepositsResponse");
            assert(path@ =~= "api::models::deposit::responses"@ + "::"@ + "GetDepositsResponse"@);
        },
        Schema::UpdateDepositsResponse => {
            reveal_strlit("api::models::deposit::responses::UpdateDepositsResponse");
            reveal_strlit("UpdateDepositsResponse");
            assert(path@
                =~= "api::models::deposit::responses"@ + "::"@ + "UpdateDepositsResponse"@);
        },
        Schema::Withdrawal => {
            reveal_strlit("api::models::withdrawal::Withdrawal");
            reveal_strlit("Withdrawal");
            assert(path@ =~= "api::models::withdrawal"@ + "::"@ + "Withdrawal"@);
        },
        Schema::WithdrawalWithStatus => {
            reveal_strlit("api::models::withdrawal::responses::WithdrawalWithStatus");
            reveal_strlit("WithdrawalWithStatus");
            assert(path@
                =~= "api::models::withdrawal::responses"@ + "::"@ + "WithdrawalWithStatus"@);
        },
        Schema::WithdrawalInfo => {
            reveal_strlit("api::models::withdrawal::WithdrawalInfo");
            reveal_strlit("WithdrawalInfo");
            assert(path@ =~= "api::models::withdrawal"@ + "::"@ + "WithdrawalInfo"@);
        },
        Schema::WithdrawalParameters => {
            reveal_strlit("api::models::withdrawal::WithdrawalParameters");
            reveal_strlit("WithdrawalParameters");
            assert(path@ =~= "api::models::withdrawal"@ + "::"@ + "WithdrawalParameters"@);
        },
        Schema::WithdrawalUpdate => {
            reveal_strlit("api::models::withdrawal::requests::WithdrawalUpdate");
            reveal_strlit("WithdrawalUpdate");
            assert(path@ =~= "api::models::withdrawal::requests"@ + "::"@ + "WithdrawalUpdate"@);
        },
        Schema::UpdateWithdrawalsRequestBody => {
            reveal_strlit("api::models::withdrawal::requests::UpdateWithdrawalsRequestBody");
            reveal_strlit("UpdateWithdrawalsRequestBody");
            assert(path@
                =~= "api::models::withdrawal::requests"@ + "::"@ + "UpdateWithdrawalsRequestBody"@);
        },
        Schema::GetWithdrawalsResponse => {
            reveal_strlit("api::models::withdrawal::responses::GetWithdrawalsResponse");
            reveal_strlit("GetWithdrawalsResponse");
            assert(path@
                =~= "api::models::withdrawal::responses"@ + "::"@ + "GetWithdrawalsResponse"@);
        },
        Schema::UpdateWithdrawalsResponse => {
            reveal_strlit("api::models::withdrawal::responses::UpdateWithdrawalsResponse");
            reveal_strlit("UpdateWithdrawalsResponse");
            assert(path@
                =~= "api::models::withdrawal::responses"@ + "::"@ + "UpdateWithdrawalsResponse"@);
        },
        Schema::HealthData => {
            reveal_strlit("api::models::health::responses::HealthData");
            reveal_strlit("HealthData");
            assert(path@ =~= "api::models::health::responses"@ + "::"@ + "HealthData"@);
        },
        Schema::DepositStatus => {
            reveal_strlit("api::models::common::DepositStatus");
            reveal_strlit("DepositStatus");
            assert(path@ =~= "api::models::common"@ + "::"@ + "DepositStatus"@);
        },
        Schema::WithdrawalStatus => {
            reveal_strlit("api::models::common::WithdrawalStatus");
            reveal_strlit("WithdrawalStatus");
            assert(path@ =~= "api::models::common"@ + "::"@ + "WithdrawalStatus"@);
        },
        Schema::Fulfillment => {
            reveal_strlit("api::models::common::Fulfillment");
            reveal_strlit("Fulfillment");
            assert(path@ =~= "api::models::common"@ + "::"@ + "Fulfillment"@);
        },
        Schema::Limits => {
            reveal_strlit("api::models::limits::Limits");
            reveal_strlit("Limits");
            assert(path@ =~= "api::models::limits"@ + "::"@ + "Limits"@);
        },
        Schema::AccountLimits => {
            reveal_strlit("api::models::limits::AccountLimits");
            reveal_strlit("AccountLimits");
            assert(path@ =~= "api::models::limits"@ + "::"@ + "AccountLimits"@);
        },
        Schema::ErrorResponse => {
            reveal_strlit("common::error::ErrorResponse");
            reveal_strlit("ErrorResponse");
            assert(path@ =~= "common::error"@ + "::"@ + "ErrorResponse"@);
        },
    }
}

} // verus!
