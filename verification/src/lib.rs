//! A registry that pairs "original" collections of unique digital assets with
//! system-controlled "mirror" collections, and the custody state machine that
//! wraps assets into escrow (minting a mirror) and unwraps them again
//! (burning the mirror and releasing the original).
//!
//! The library is the decision core alone: every operation is a function from
//! the registry state and the answers of the external collection service to a
//! new state and a list of outbound requests. Performing those requests, and
//! asking the service its questions, is the caller's business.

pub mod contract;
pub mod error;
pub mod model;
pub mod msg;
pub mod props;
pub mod service;
pub mod state;
pub mod store;

pub use contract::{
    execute, execute_register_collection, execute_unwrap, execute_wrap, instantiate, query,
    query_controller, reply,
};
pub use error::ContractError;
pub use msg::{ExchangingInfoResponse, ExecuteMsg, InstantiateMsg, QueryMsg, ReceiverResponse};
pub use msg::{Attribute, QueryAnswer, Request, Response};
pub use service::{AssetAnswer, ContractInfo, NftInfo, ServiceAnswers};
pub use state::{Extension, Metadata, MirroredData, Trait, WrapData};
pub use store::{Registry, RegistryView};
