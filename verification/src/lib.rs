//! Core of an off-chain agent that drives a two-party, on-chain interactive
//! dispute protocol (a "verification game") between a *claimer* asserting a
//! computation result and a *challenger* disputing it.
//!
//! Each tick, the agent decodes the freshly observed state of a protocol
//! instance, classifies the role the local party plays, and decides which
//! contract call (if any) the protocol rules require next, possibly by
//! delegating to a nested sub-protocol (a binary-search partition game or a
//! memory-access proof game).  The decision is a pure function of the observed
//! instance tree; nothing is cached between ticks.

pub mod config;
pub mod error;
pub mod laws;
pub mod instance;
pub mod protocol;
pub mod reaction;
pub mod values;
pub mod vg;

pub use config::{
    ConcernAbi, ConfigError, ConfigItem, Configuration, EnvCLIConfiguration, FileConfiguration,
    FullConcern,
};
pub use error::{DecodeFault, Error, ProtocolKind, StateFault};
pub use instance::{Archive, Field, Instance};
pub use protocol::Protocol;
pub use reaction::{Reaction, Strategy, Token, TransactionRequest};
pub use values::{Address, Concern, Hash256, Uint256};
pub use vg::{Role, VG, VGContext, VGState};
