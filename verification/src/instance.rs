//! One observed snapshot of an on-chain protocol instance, together with the
//! ordered field list its opaque storage decodes into.

use vstd::prelude::*;
use crate::values::{Address, Concern, Hash256, Uint256};

verus! {

/// One decoded storage field of a protocol instance, as handed over by the
/// external chain-indexing layer.  Field order follows the contract's storage
/// layout; it is significant and not self-describing.
#[derive(Clone, Debug, PartialEq, Eq)]
pub enum Field {
    AddressField(Address),
    Bytes32Field(Hash256),
    String32Field(String),
    U256Field(Uint256),
    U256ArrayField(Vec<Uint256>),
}

/// One on-chain protocol instance as observed at a point in time.  Re-fetched
/// fresh on every tick and never mutated in place; nothing derived from it
/// survives the tick.
#[derive(Debug)]
pub struct Instance {
    /// Opaque numeric identifier, stable for the instance's lifetime; the
    /// primary argument to state-changing calls.
    pub index: Uint256,
    /// The concern under which this instance is evaluated.
    pub concern: Concern,
    /// The contract's current storage fields, in layout order.
    pub encoded_state: Vec<Field>,
    /// Nested sub-instances, protocol-specific and exclusively owned.
    pub sub_instances: Vec<Instance>,
}

/// Opaque handle to the historical-event archive.  This core never reads it;
/// it only threads it unchanged to nested reactors.
pub struct Archive {}

} // verus!
