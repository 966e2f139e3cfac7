//! A client-side engine for remote calls over one duplex connection: each
//! call gets a correlation id, and every reply is routed to the caller whose
//! id it carries.

pub mod dispatch;
pub mod errors;
pub mod ids;
pub mod json;
pub mod laws;
pub mod message;
pub mod pending;
pub mod response;
pub mod rpc;

pub use dispatch::{DispatchAction, DispatchEvent, Dispatcher};
pub use message::SurrealMessage;
pub use response::{SurrealQueryResult, SurrealResponseData, SurrealResponseResult};
