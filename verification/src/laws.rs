//! The properties the reactor core guarantees, stated as proof functions
//! over the ghost decision table that the executable reactor is bound to.

use vstd::prelude::*;
use crate::error::{Error, ProtocolKind, StateFault};
use crate::instance::{Archive, Instance};
use crate::protocol::Protocol;
use crate::reaction::{Reaction, ReactionView, Strategy, TokenView, reaction_matches};
use crate::values::Uint256;
use crate::vg::{
    Role, VG, VGContext, VGState, field_address, field_bytes32, field_string, field_words,
    role_of, vg_state_of,
};

verus! {

/// Idempotence: the reaction is a function of the observed snapshot alone,
/// so any two results that meet the reactor contract for the same ghost
/// description agree — same success or failure, same reaction up to the
/// view, same error.
pub proof fn lemma_react_idempotent(
    r1: Result<Reaction, Error>,
    r2: Result<Reaction, Error>,
    m: Result<ReactionView, Error>,
)
    requires
        reaction_matches(r1, m),
        reaction_matches(r2, m),
    ensures
        match (r1, r2) {
            (Ok(a), Ok(b)) => a@ == b@,
            (Err(a), Err(b)) => a == b,
            _ => false,
        },
{
}

/// Terminal absorption: a context decoded into either finished state yields
/// idleness, regardless of every other field and of the sub-instances.
pub proof fn lemma_terminal_absorption<P: Protocol<()>, M: Protocol<Uint256>>(
    instance: Instance,
    archive: Archive,
    ctx: VGContext,
)
    requires
        VGContext::decode_spec(instance.encoded_state@) == Ok::<VGContext, Error>(ctx),
        ctx.current_state == VGState::FinishedClaimerWon
            || ctx.current_state == VGState::FinishedChallengerWon,
    ensures
        VG::<P, M>::reaction_spec(instance, archive, ()) == Ok::<ReactionView, Error>(ReactionView::Idle),
{
}

/// Role exclusivity: on an active instance whose viewing user is neither
/// claimer nor challenger, the reactor always returns the neither-party
/// fault, never a transaction.
pub proof fn lemma_role_exclusivity<P: Protocol<()>, M: Protocol<Uint256>>(
    instance: Instance,
    archive: Archive,
    ctx: VGContext,
)
    requires
        VGContext::decode_spec(instance.encoded_state@) == Ok::<VGContext, Error>(ctx),
        ctx.current_state == VGState::WaitPartition
            || ctx.current_state == VGState::WaitMemoryProveValues,
        instance.concern.user_address != ctx.claimer,
        instance.concern.user_address != ctx.challenger,
    ensures
        VG::<P, M>::reaction_spec(instance, archive, ()) == Err::<ReactionView, Error>(
            Error::InvalidContractState(StateFault::NeitherParty),
        ),
{
}

/// A party with no stake never acts: whatever the decoded state — terminal
/// states included, where the reactor answers idleness instead of the
/// neither-party fault — a viewing user who is neither claimer nor
/// challenger is never answered with a transaction.
pub proof fn lemma_stranger_never_acts<P: Protocol<()>, M: Protocol<Uint256>>(
    instance: Instance,
    archive: Archive,
    ctx: VGContext,
)
    requires
        VGContext::decode_spec(instance.encoded_state@) == Ok::<VGContext, Error>(ctx),
        instance.concern.user_address != ctx.claimer,
        instance.concern.user_address != ctx.challenger,
    ensures
        !(VG::<P, M>::reaction_spec(instance, archive, ()) matches Ok(ReactionView::Transaction(_))),
{
}

/// A claimer in `WaitPartition` whose partition sub-instance reports a found
/// divergence starts the machine-run challenge on the instance index.
pub proof fn lemma_claimer_divergence_found<P: Protocol<()>, M: Protocol<Uint256>>(
    instance: Instance,
    archive: Archive,
    ctx: VGContext,
)
    requires
        VGContext::decode_spec(instance.encoded_state@) == Ok::<VGContext, Error>(ctx),
        ctx.current_state == VGState::WaitPartition,
        instance.concern.user_address == ctx.claimer,
        instance.sub_instances@.len() > 0,
        P::state_spec(instance.sub_instances@[0]) == Ok::<Seq<char>, Error>("DivergenceFound"@),
    ensures
        VG::<P, M>::reaction_spec(instance, archive, ()) == Ok::<ReactionView, Error>(
            ReactionView::Transaction(VG::<P, M>::call_view(instance, "startMachineRunChallenge"@)),
        ),
{
    reveal_strlit("DivergenceFound");
    reveal_strlit("ChallengerWon");
    reveal_strlit("ClaimerWon");
    assert("DivergenceFound"@.len() == 15);
    assert("ChallengerWon"@.len() == 13);
    assert("ClaimerWon"@.len() == 10);
}

/// A claimer in `WaitPartition` whose partition sub-instance reports that
/// either side has already won claims victory by partition timeout.
pub proof fn lemma_claimer_partition_won<P: Protocol<()>, M: Protocol<Uint256>>(
    instance: Instance,
    archive: Archive,
    ctx: VGContext,
)
    requires
        VGContext::decode_spec(instance.encoded_state@) == Ok::<VGContext, Error>(ctx),
        ctx.current_state == VGState::WaitPartition,
        instance.concern.user_address == ctx.claimer,
        instance.sub_instances@.len() > 0,
        P::state_spec(instance.sub_instances@[0]) == Ok::<Seq<char>, Error>("ClaimerWon"@)
            || P::state_spec(instance.sub_instances@[0]) == Ok::<Seq<char>, Error>("ChallengerWon"@),
    ensures
        VG::<P, M>::reaction_spec(instance, archive, ()) == Ok::<ReactionView, Error>(
            ReactionView::Transaction(VG::<P, M>::call_view(instance, "winByPartitionTimeout"@)),
        ),
{
}

/// A challenger in `WaitMemoryProveValues` whose memory-manager sub-instance
/// awaits replay settles the verification game on the instance index.
pub proof fn lemma_challenger_settles<P: Protocol<()>, M: Protocol<Uint256>>(
    instance: Instance,
    archive: Archive,
    ctx: VGContext,
)
    requires
        VGContext::decode_spec(instance.encoded_state@) == Ok::<VGContext, Error>(ctx),
        ctx.current_state == VGState::WaitMemoryProveValues,
        instance.concern.user_address != ctx.claimer,
        instance.concern.user_address == ctx.challenger,
        instance.sub_instances@.len() > 0,
        M::state_spec(instance.sub_instances@[0]) == Ok::<Seq<char>, Error>("WaitingReplay"@),
    ensures
        VG::<P, M>::reaction_spec(instance, archive, ()) == Ok::<ReactionView, Error>(
            ReactionView::Transaction(VG::<P, M>::call_view(instance, "settleVerificationGame"@)),
        ),
{
    reveal_strlit("WaitingReplay");
    reveal_strlit("WaitingProofs");
    assert("WaitingReplay"@[7] == 'R');
    assert("WaitingProofs"@[7] == 'P');
    assert("WaitingReplay"@ != "WaitingProofs"@);
}

/// A challenger in `WaitMemoryProveValues` whose memory-manager sub-instance
/// awaits proofs delegates: the reaction is exactly the memory manager's
/// reaction for that sub-instance, with the decoded divergence time as its
/// context.
pub proof fn lemma_challenger_delegates_to_mm<P: Protocol<()>, M: Protocol<Uint256>>(
    instance: Instance,
    archive: Archive,
    ctx: VGContext,
)
    requires
        VGContext::decode_spec(instance.encoded_state@) == Ok::<VGContext, Error>(ctx),
        ctx.current_state == VGState::WaitMemoryProveValues,
        instance.concern.user_address != ctx.claimer,
        instance.concern.user_address == ctx.challenger,
        instance.sub_instances@.len() > 0,
        M::state_spec(instance.sub_instances@[0]) == Ok::<Seq<char>, Error>("WaitingProofs"@),
    ensures
        VG::<P, M>::reaction_spec(instance, archive, ()) == M::reaction_spec(
            instance.sub_instances@[0],
            archive,
            ctx.divergence_time,
        ),
{
}

/// Missing sub-instance: a phase that requires one — `WaitPartition` for
/// either role, `WaitMemoryProveValues` for the challenger — observed with
/// no sub-instances yields the missing-sub-instance fault, never a
/// transaction.  (A claimer in `WaitMemoryProveValues` reads no
/// sub-instance: that phase is the challenger's turn, and the claimer is
/// idle on it.)
pub proof fn lemma_missing_sub_instance<P: Protocol<()>, M: Protocol<Uint256>>(
    instance: Instance,
    archive: Archive,
    ctx: VGContext,
)
    requires
        VGContext::decode_spec(instance.encoded_state@) == Ok::<VGContext, Error>(ctx),
        role_of(instance.concern, ctx) is Some,
        ctx.current_state == VGState::WaitPartition || (ctx.current_state
            == VGState::WaitMemoryProveValues && role_of(instance.concern, ctx) == Some(
            Role::Challenger,
        )),
        instance.sub_instances@.len() == 0,
    ensures
        VG::<P, M>::reaction_spec(instance, archive, ()) == Err::<ReactionView, Error>(
            Error::InvalidContractState(StateFault::MissingSubInstance(
                if ctx.current_state == VGState::WaitPartition {
                    ProtocolKind::Partition
                } else {
                    ProtocolKind::MemoryManager
                },
            )),
        ),
{
}

/// Unknown state rejection: a well-shaped field list whose current-state tag
/// lies outside the enumerated set is rejected with the unknown-state fault
/// at the decode boundary, for every viewing concern and hence for either
/// role.
pub proof fn lemma_unknown_state_rejected<P: Protocol<()>, M: Protocol<Uint256>>(
    instance: Instance,
    archive: Archive,
    tag: String,
)
    requires
        instance.encoded_state@.len() == 9,
        field_address(instance.encoded_state@[0]) is Some,
        field_address(instance.encoded_state@[1]) is Some,
        field_address(instance.encoded_state@[2]) is Some,
        field_bytes32(instance.encoded_state@[3]) is Some,
        field_bytes32(instance.encoded_state@[4]) is Some,
        field_bytes32(instance.encoded_state@[5]) is Some,
        field_bytes32(instance.encoded_state@[6]) is Some,
        field_string(instance.encoded_state@[7]) == Some(tag),
        field_words(instance.encoded_state@[8]) is Some,
        field_words(instance.encoded_state@[8]).unwrap()@.len() == 6,
        vg_state_of(tag@) is None,
    ensures
        VG::<P, M>::reaction_spec(instance, archive, ()) == Err::<ReactionView, Error>(
            Error::InvalidContractState(StateFault::UnknownState(tag)),
        ),
{
}

/// No move outside the rules: whenever the reactor proposes a transaction,
/// either it is one of the three calls the verification game itself owns —
/// named, on the instance's own concern and index, with zero value, under
/// the simplest policy — or the whole reaction is, verbatim, a nested
/// protocol's reaction on the first sub-instance.
pub proof fn lemma_action_within_rules<P: Protocol<()>, M: Protocol<Uint256>>(
    instance: Instance,
    archive: Archive,
)
    ensures
        (match (
            VGContext::decode_spec(instance.encoded_state@),
            VG::<P, M>::reaction_spec(instance, archive, ()),
        ) {
            (Ok(ctx), Ok(ReactionView::Transaction(t))) => {
                ||| {
                    &&& t.concern == instance.concern
                    &&& t.value == (Uint256 { w0: 0, w1: 0, w2: 0, w3: 0 })
                    &&& t.data == seq![TokenView::Uint(instance.index)]
                    &&& t.strategy == Strategy::Simplest
                    &&& (t.function == "winByPartitionTimeout"@ || t.function
                        == "startMachineRunChallenge"@ || t.function == "settleVerificationGame"@)
                }
                ||| instance.sub_instances@.len() > 0 && VG::<P, M>::reaction_spec(
                    instance,
                    archive,
                    (),
                ) == P::reaction_spec(instance.sub_instances@[0], archive, ())
                ||| instance.sub_instances@.len() > 0 && VG::<P, M>::reaction_spec(
                    instance,
                    archive,
                    (),
                ) == M::reaction_spec(instance.sub_instances@[0], archive, ctx.divergence_time)
            },
            _ => true,
        }),
{
}

} // verus!
