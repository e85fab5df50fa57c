# sbtc_store

The storage of an sBTC signer on Postgres, with its decisions verified by Verus.

Every operation of the store is a procedure. It asks for one database action at
a time, a statement with its parameters or a step of a transaction, and is
resumed with the outcome, until it is done. `src/` holds the procedures: what
they ask for, what they make of each answer, and which errors they end in, all
with contracts. `app/` performs the actions on a pool of connections.

- `src/value.rs`, `src/procedure.rs`, `src/fetch.rs`, `src/compose.rs`: actions,
  procedures, and how larger procedures are made of smaller ones.
- `src/model.rs`, `src/row.rs`, `src/records.rs`, `src/convert.rs`: the data, and
  how it lies in rows.
- `src/sql.rs`: the statements.
- `src/chain.rs`, `src/deposits.rs`, `src/withdrawals.rs`, `src/keys.rs`,
  `src/sweeps.rs`, `src/migrations.rs`: the operations, by subject.
- `src/laws.rs`, `src/migration_laws.rs`, `src/round_trip.rs`: what holds of
  operations that run to their end, of the migrations as a whole, and of what is
  stored and read back.
- `src/openapi.rs`: the endpoints and types of Emily's public interface.
