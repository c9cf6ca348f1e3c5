//! Decides whether a key server still owes the ledger a response to a finished
//! key operation, and prepares that response for submission.

pub mod call;
pub mod coefficients;
pub mod outcome;
pub mod primitives;
pub mod report;
pub mod requester;
pub mod text;
pub mod threshold;
pub mod transaction_pool;
