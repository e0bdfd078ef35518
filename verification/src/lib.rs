//! The decisions of a facade over an interchain token service.
//!
//! The facade owns no token accounting and no cross-chain messaging. It keeps
//! the address of the service and the identifiers of its most recent
//! deployment, checks a few conditions on each operation, and says what is to
//! be asked of the service. The embedding contract asks, and hands the answer
//! back to be recorded.

pub mod error;
pub mod types;
pub mod service;
pub mod model;
pub mod contract;
