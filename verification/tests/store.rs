use sbtc_store::error::StoreError;
use sbtc_store::openapi::{ApiDoc, Handler, Modifier, Schema};
use sbtc_store::sql;
use sbtc_store::store::PgStore;

#[test]
fn connect_keeps_the_pool() {
    let store = PgStore::connect(Ok(7u8)).unwrap();
    assert_eq!(*store.pool(), 7);
    assert_eq!(*store.clone().pool(), 7);
}

#[test]
fn connect_reports_the_failure() {
    let result = PgStore::<u8>::connect(Err(sqlx::Error::PoolClosed));
    assert!(matches!(result, Err(StoreError::SqlxConnect(sqlx::Error::PoolClosed))));
}

#[test]
fn store_is_made_from_a_pool() {
    let store: PgStore<&str> = PgStore::from("pool");
    assert_eq!(*store.pool(), "pool");
}

#[test]
fn new_connections_look_in_the_schema_of_the_signer() {
    assert_eq!(
        sql::AFTER_CONNECT,
        "SET application_name = 'sbtc-signer'; SET search_path = sbtc_signer,public;"
    );
}

#[test]
fn api_doc_lists_the_endpoints() {
    let handlers = ApiDoc.handlers();
    assert_eq!(handlers.len(), 17);
    assert_eq!(handlers[0].path(), "api::handlers::health::get_health");
    assert_eq!(handlers[1], Handler::GetDeposit);
    assert_eq!(handlers[16].path(), "api::handlers::limits::get_limits_for_account");
}

#[test]
fn api_doc_lists_the_types() {
    let schemas = ApiDoc.schemas();
    assert_eq!(schemas.len(), 26);
    assert_eq!(schemas[0], Schema::Chainstate);
    assert_eq!(schemas[2].path(), "api::models::deposit::responses::DepositWithStatus");
    assert_eq!(schemas[25].path(), "common::error::ErrorResponse");
}

#[test]
fn api_doc_lists_the_changes_in_order() {
    assert_eq!(
        ApiDoc.modifiers(),
        vec![Modifier::CorsSupport, Modifier::AwsApiKey, Modifier::AwsLambdaIntegration]
    );
}

#[test]
fn api_doc_lists_nothing_twice() {
    let handlers = ApiDoc.handlers();
    for i in 0..handlers.len() {
        for j in 0..i {
            assert_ne!(handlers[i], handlers[j]);
            assert_ne!(handlers[i].path(), handlers[j].path());
        }
    }
    let schemas = ApiDoc.schemas();
    for i in 0..schemas.len() {
        for j in 0..i {
            assert_ne!(schemas[i], schemas[j]);
            assert_ne!(schemas[i].path(), schemas[j].path());
        }
    }
}
