//! Coordination core of a block-proving service: the message model, the
//! routing rules and the state machines that drive fetching, proving and
//! reporting.

pub mod byte_lists;
pub mod channel;
pub mod client_laws;
pub mod dispatch;
pub mod fetch;
pub mod fetch_client;
pub mod fetch_service;
pub mod fetcher;
pub mod inputs;
pub mod latest;
pub mod limits;
pub mod messages;
pub mod mock;
pub mod proof_service;
pub mod proving_client;
pub mod recovery;
pub mod report;
pub mod reporter;
pub mod scheduler;
pub mod storage;
pub mod text;
pub mod wire;
