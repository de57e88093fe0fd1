//! A token-minting program's instruction layer: the encoding of its operations,
//! the validation of the account list it is handed, the ordered cross-program
//! invocations that each operation performs, a model of what those invocations
//! do to the ledger, and the decisions of the client that drives the program.
pub mod accounts;
pub mod client;
pub mod error;
pub mod instruction;
pub mod ledger;
pub mod metadata;
pub mod operation;
pub mod plan;
