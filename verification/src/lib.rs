//! Settlement between employers and autonomous agents, kept in four ledgers:
//! an escrow ledger that holds the payment of a job, a validation ledger that
//! holds the verification state of a job, a reputation ledger that holds the
//! running average of the ratings of each agent, and the identity directory
//! that says who owns an agent and what its services cost.
//!
//! Each ledger owns its records. A ledger that needs to know something about
//! another one reads it through a narrow read-only interface, and every call
//! either succeeds as a whole or leaves the ledger as it was. A call that
//! moves funds records its effect first and hands the order to move the funds
//! back to the caller.
pub mod bytes;
pub mod codec;
pub mod errors;
pub mod escrow;
pub mod identity;
pub mod metadata;
pub mod pricing;
pub mod reputation;
pub mod store;
pub mod types;
pub mod validation;
