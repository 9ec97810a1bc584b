//! The reactor capability: the one interface every dispute protocol
//! implements, and the sole extension point for composing nested
//! sub-protocols.

use vstd::prelude::*;
use crate::error::Error;
use crate::instance::{Archive, Instance};
use crate::reaction::{Reaction, ReactionView, reaction_matches};

verus! {

/// Relates an executable current-state tag result to its ghost description.
pub open spec fn state_matches(r: Result<String, Error>, m: Result<Seq<char>, Error>) -> bool {
    match (r, m) {
        (Ok(s), Ok(mv)) => s@ == mv,
        (Err(e), Err(me)) => e == me,
        _ => false,
    }
}

/// A dispute protocol, polymorphic over the auxiliary context `C` its caller
/// supplies per reaction (the verification game needs none; the memory
/// manager needs the divergence time computed by its parent).
///
/// Each protocol exposes two things to its parent: a decodable current-state
/// tag on its instances, and a reaction.  Both are pure functions of the
/// observed instance snapshot, described exactly by the ghost functions
/// `state_spec` and `reaction_spec`; the executable methods are bound to
/// them.  A parent delegates by invoking `react` on a sub-instance and
/// returning its result unchanged, errors included.
pub trait Protocol<C> {
    /// Ghost description of the current-state tag decoded from the instance.
    /// The default says nothing; a protocol overrides it with its own
    /// description.
    open spec fn state_spec(instance: Instance) -> Result<Seq<char>, Error> {
        arbitrary()
    }

    /// Ghost description of the reaction this protocol's rules require for
    /// the instance, from the supplied viewpoint and auxiliary context.  The
    /// default says nothing; a protocol overrides it with its own decision
    /// table.
    open spec fn reaction_spec(instance: Instance, archive: Archive, ctx: C) -> Result<ReactionView, Error> {
        arbitrary()
    }

    /// Decodes the instance's current-state tag.
    fn current_state(instance: &Instance) -> (r: Result<String, Error>)
        ensures
            state_matches(r, Self::state_spec(*instance)),
    ;

    /// Evaluates the protocol's decision table once, as a pure function of
    /// the instance snapshot: no I/O, no mutation of the instance tree.
    fn react(instance: &Instance, archive: &Archive, ctx: &C) -> (r: Result<Reaction, Error>)
        ensures
            reaction_matches(r, Self::reaction_spec(*instance, *archive, *ctx)),
    ;
}

} // verus!
