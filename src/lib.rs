//! A proof-of-work mining client's core: partitioned nonce search, priority
//! fee quoting, compute budgets, and the retry logic of transaction delivery.

pub mod budget;
pub mod config;
pub mod error;
pub mod fee;
pub mod orchestrator;
pub mod partition;
pub mod search;
pub mod submit;
