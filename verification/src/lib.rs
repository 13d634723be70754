//! A three-party escrow: a buyer deposits a fixed amount, and a marketplace
//! account later either releases it to the seller, keeping its fee, or refunds
//! the buyer.
//!
//! The crate holds the escrow's state machine. The host that stores the record,
//! answers balance queries and carries out transfers stays outside: every
//! transition takes the stored record and what the host reported, and returns
//! the record to store together with the transfers to perform.

pub mod amount;
pub mod contract;
pub mod error;
pub mod laws;
pub mod ledger;
pub mod model;
pub mod msg;
pub mod state;

pub use contract::{execute, instantiate, query};
pub use error::ContractError;
pub use msg::{ExecuteMsg, InstantiateMsg, QueryMsg, StateResponse};
pub use state::{State, Status};
