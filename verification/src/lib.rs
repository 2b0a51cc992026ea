//! A verified "factory" module: it spawns child program instances on behalf
//! of callers, tracks every successfully spawned instance in an append-only,
//! insertion-ordered registry, and answers paginated lookup queries over that
//! registry.
//!
//! The factory is modelled as a state machine over plain values: the host
//! environment (message dispatch, persistent storage, wire serialization)
//! hands the library decoded messages and receives structured responses.

pub mod addr;
pub mod error;
pub mod factory;
pub mod host;
pub mod label;
pub mod msg;
pub mod registry;

pub use addr::{valid_addr, CanonAddr};
pub use error::Error;
pub use factory::{FactoryView, GenericFactory, InstanceView, TemplateView};
pub use host::{Attribute, Coin, Env, MessageInfo, Response, SpawnRequest, INSTANCE_ADDR_ATTR, REPLY_ID};
pub use msg::{
    AdminExecuteMsg, AdminQueryMsg, Empty, ExecuteMsg, ExtraData, InstanceConfig, InstantiateMsg,
    InstantiateReplyData, KillswitchExecuteMsg, KillswitchQueryMsg, PaginatedResponse, Pagination,
    QueryAnswer, QueryMsg, Reply, ReplyPayload, SubMsgResponse, SubMsgResult,
};
pub use registry::{ContractCode, ContractLink, Instance, InstanceRegistry};
