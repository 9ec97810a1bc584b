//! The verification-game reactor: decodes the instance's state, classifies
//! the role the viewing party plays, and applies the per-role, per-state
//! decision table, delegating to the nested partition and memory-manager
//! protocols where the current phase belongs to them.

use vstd::prelude::*;
use core::marker::PhantomData;
use crate::error::{DecodeFault, Error, ProtocolKind, StateFault};
use crate::instance::{Archive, Field, Instance};
use crate::protocol::{Protocol, state_matches};
use crate::reaction::{
    Reaction, ReactionView, Strategy, Token, TokenView, TransactionRequest, TransactionRequestView,
    reaction_matches,
};
use crate::values::{Address, Concern, Hash256, Uint256};

verus! {

/// The enumerated states of the verification-game contract.  The two
/// `Finished` values are terminal; the two `Wait` values are phases whose
/// exit conditions are determined by nested sub-protocol outcomes.
#[derive(Clone, Copy, Debug, PartialEq, Eq, Structural)]
pub enum VGState {
    WaitPartition,
    WaitMemoryProveValues,
    FinishedClaimerWon,
    FinishedChallengerWon,
}

/// Which side of the dispute the viewing party plays.  A value, not stored
/// state: re-derived from the decoded context on every tick.
#[derive(Clone, Copy, Debug, PartialEq, Eq, Structural)]
pub enum Role {
    Claimer,
    Challenger,
}

/// The decoded state of a verification-game instance.  Constructed fresh by
/// decoding the encoded state at the start of each reaction, discarded at
/// the end of the tick, never persisted.
#[derive(Clone, Copy, Debug, PartialEq, Eq, Structural)]
pub struct VGContext {
    pub challenger: Address,
    pub claimer: Address,
    pub machine: Address,
    pub initial_hash: Hash256,
    pub claimer_final_hash: Hash256,
    pub hash_before_divergence: Hash256,
    pub hash_after_divergence: Hash256,
    pub current_state: VGState,
    pub round_duration: Uint256,
    pub final_time: Uint256,
    pub time_of_last_move: Uint256,
    pub mm_instance: Uint256,
    pub partition_instance: Uint256,
    pub divergence_time: Uint256,
}

/// The state named by a tag, if the tag lies inside the enumerated set.
pub open spec fn vg_state_of(s: Seq<char>) -> Option<VGState> {
    if s == "WaitPartition"@ {
        Some(VGState::WaitPartition)
    } else if s == "WaitMemoryProveValues"@ {
        Some(VGState::WaitMemoryProveValues)
    } else if s == "FinishedClaimerWon"@ {
        Some(VGState::FinishedClaimerWon)
    } else if s == "FinishedChallengerWon"@ {
        Some(VGState::FinishedChallengerWon)
    } else {
        None
    }
}

/// The tag that names a state.
pub open spec fn vg_state_name(s: VGState) -> Seq<char> {
    match s {
        VGState::WaitPartition => "WaitPartition"@,
        VGState::WaitMemoryProveValues => "WaitMemoryProveValues"@,
        VGState::FinishedClaimerWon => "FinishedClaimerWon"@,
        VGState::FinishedChallengerWon => "FinishedChallengerWon"@,
    }
}

/// The address a field holds, if it is an address field.
pub open spec fn field_address(f: Field) -> Option<Address> {
    match f {
        Field::AddressField(a) => Some(a),
        _ => None,
    }
}

/// The hash a field holds, if it is a 32-byte field.
pub open spec fn field_bytes32(f: Field) -> Option<Hash256> {
    match f {
        Field::Bytes32Field(h) => Some(h),
        _ => None,
    }
}

/// The tag a field holds, if it is a string field.
pub open spec fn field_string(f: Field) -> Option<String> {
    match f {
        Field::String32Field(s) => Some(s),
        _ => None,
    }
}

/// The words a field holds, if it is a word-array field.
pub open spec fn field_words(f: Field) -> Option<Vec<Uint256>> {
    match f {
        Field::U256ArrayField(w) => Some(w),
        _ => None,
    }
}

/// The role the viewing concern plays for a decoded context: `Claimer` if
/// its user address equals the context's claimer, else `Challenger` if it
/// equals the challenger, else none — the agent has no stake in the
/// instance.  A user listed as both parties is classified as claimer, the
/// side the dispatch order of the decision table favours.
pub open spec fn role_of(concern: Concern, ctx: VGContext) -> Option<Role> {
    if concern.user_address == ctx.claimer {
        Some(Role::Claimer)
    } else if concern.user_address == ctx.challenger {
        Some(Role::Challenger)
    } else {
        None
    }
}

/// Computes the role the viewing concern plays for a decoded context.
pub fn classify_role(concern: &Concern, ctx: &VGContext) -> (r: Option<Role>)
    ensures
        r == role_of(*concern, *ctx),
{
    if concern.user_address == ctx.claimer {
        Some(Role::Claimer)
    } else if concern.user_address == ctx.challenger {
        Some(Role::Challenger)
    } else {
        None
    }
}

/// Compares a decoded tag with a tag literal.
fn tag_is(s: &String, lit: &str) -> (r: bool)
    ensures
        r == (s@ == lit@),
{
    let l: String = lit.to_owned();
    *s == l
}

impl VGContext {
    /// Ghost description of decoding: the unique context whose fields the
    /// layout-ordered list holds, or the first fault found.  The layout is:
    /// three addresses (challenger, claimer, machine), four 32-byte hashes
    /// (initial, claimed final, before divergence, after divergence), the
    /// current-state tag, and six 256-bit words (round duration, final time,
    /// time of last move, memory-manager instance, partition instance,
    /// divergence time).
    pub open spec fn decode_spec(fields: Seq<Field>) -> Result<VGContext, Error> {
        if fields.len() != 9 {
            Err(Error::Decode(
                ProtocolKind::VerificationGame,
                DecodeFault::FieldCount { found: fields.len() as usize },
            ))
        } else if field_address(fields[0]) is None {
            Err(Error::Decode(ProtocolKind::VerificationGame, DecodeFault::FieldKind { index: 0 }))
        } else if field_address(fields[1]) is None {
            Err(Error::Decode(ProtocolKind::VerificationGame, DecodeFault::FieldKind { index: 1 }))
        } else if field_address(fields[2]) is None {
            Err(Error::Decode(ProtocolKind::VerificationGame, DecodeFault::FieldKind { index: 2 }))
        } else if field_bytes32(fields[3]) is None {
            Err(Error::Decode(ProtocolKind::VerificationGame, DecodeFault::FieldKind { index: 3 }))
        } else if field_bytes32(fields[4]) is None {
            Err(Error::Decode(ProtocolKind::VerificationGame, DecodeFault::FieldKind { index: 4 }))
        } else if field_bytes32(fields[5]) is None {
            Err(Error::Decode(ProtocolKind::VerificationGame, DecodeFault::FieldKind { index: 5 }))
        } else if field_bytes32(fields[6]) is None {
            Err(Error::Decode(ProtocolKind::VerificationGame, DecodeFault::FieldKind { index: 6 }))
        } else if field_string(fields[7]) is None {
            Err(Error::Decode(ProtocolKind::VerificationGame, DecodeFault::FieldKind { index: 7 }))
        } else if field_words(fields[8]) is None {
            Err(Error::Decode(ProtocolKind::VerificationGame, DecodeFault::FieldKind { index: 8 }))
        } else if field_words(fields[8]).unwrap()@.len() != 6 {
            Err(Error::Decode(
                ProtocolKind::VerificationGame,
                DecodeFault::WordCount { found: field_words(fields[8]).unwrap()@.len() as usize },
            ))
        } else if vg_state_of(field_string(fields[7]).unwrap()@) is None {
            Err(Error::InvalidContractState(StateFault::UnknownState(field_string(fields[7]).unwrap())))
        } else {
            let words = field_words(fields[8]).unwrap()@;
            Ok(VGContext {
                challenger: field_address(fields[0]).unwrap(),
                claimer: field_address(fields[1]).unwrap(),
                machine: field_address(fields[2]).unwrap(),
                initial_hash: field_bytes32(fields[3]).unwrap(),
                claimer_final_hash: field_bytes32(fields[4]).unwrap(),
                hash_before_divergence: field_bytes32(fields[5]).unwrap(),
                hash_after_divergence: field_bytes32(fields[6]).unwrap(),
                current_state: vg_state_of(field_string(fields[7]).unwrap()@).unwrap(),
                round_duration: words[0],
                final_time: words[1],
                time_of_last_move: words[2],
                mm_instance: words[3],
                partition_instance: words[4],
                divergence_time: words[5],
            })
        }
    }

    /// Decodes the layout-ordered field list of a verification-game instance
    /// into a typed context.  Decoding validates the structural shape and
    /// rejects a current-state tag outside the enumerated set; it does not
    /// validate semantic consistency of the decoded values.
    pub fn decode(fields: &Vec<Field>) -> (r: Result<VGContext, Error>)
        ensures
            r == VGContext::decode_spec(fields@),
    {
        if fields.len() != 9 {
            return Err(Error::Decode(
                ProtocolKind::VerificationGame,
                DecodeFault::FieldCount { found: fields.len() },
            ));
        }
        let challenger = match &fields[0] {
            Field::AddressField(a) => *a,
            _ => {
                return Err(Error::Decode(ProtocolKind::VerificationGame, DecodeFault::FieldKind { index: 0 }));
            },
        };
        let claimer = match &fields[1] {
            Field::AddressField(a) => *a,
            _ => {
                return Err(Error::Decode(ProtocolKind::VerificationGame, DecodeFault::FieldKind { index: 1 }));
            },
        };
        let machine = match &fields[2] {
            Field::AddressField(a) => *a,
            _ => {
                return Err(Error::Decode(ProtocolKind::VerificationGame, DecodeFault::FieldKind { index: 2 }));
            },
        };
        let initial_hash = match &fields[3] {
            Field::Bytes32Field(h) => *h,
            _ => {
                return Err(Error::Decode(ProtocolKind::VerificationGame, DecodeFault::FieldKind { index: 3 }));
            },
        };
        let claimer_final_hash = match &fields[4] {
            Field::Bytes32Field(h) => *h,
            _ => {
                return Err(Error::Decode(ProtocolKind::VerificationGame, DecodeFault::FieldKind { index: 4 }));
            },
        };
        let hash_before_divergence = match &fields[5] {
            Field::Bytes32Field(h) => *h,
            _ => {
                return Err(Error::Decode(ProtocolKind::VerificationGame, DecodeFault::FieldKind { index: 5 }));
            },
        };
        let hash_after_divergence = match &fields[6] {
            Field::Bytes32Field(h) => *h,
            _ => {
                return Err(Error::Decode(ProtocolKind::VerificationGame, DecodeFault::FieldKind { index: 6 }));
            },
        };
        let tag = match &fields[7] {
            Field::String32Field(s) => s,
            _ => {
                return Err(Error::Decode(ProtocolKind::VerificationGame, DecodeFault::FieldKind { index: 7 }));
            },
        };
        let words = match &fields[8] {
            Field::U256ArrayField(w) => w,
            _ => {
                return Err(Error::Decode(ProtocolKind::VerificationGame, DecodeFault::FieldKind { index: 8 }));
            },
        };
        if words.len() != 6 {
            return Err(Error::Decode(
                ProtocolKind::VerificationGame,
                DecodeFault::WordCount { found: words.len() },
            ));
        }
        let current_state = if tag_is(tag, "WaitPartition") {
            VGState::WaitPartition
        } else if tag_is(tag, "WaitMemoryProveValues") {
            VGState::WaitMemoryProveValues
        } else if tag_is(tag, "FinishedClaimerWon") {
            VGState::FinishedClaimerWon
        } else if tag_is(tag, "FinishedChallengerWon") {
            VGState::FinishedChallengerWon
        } else {
            return Err(Error::InvalidContractState(StateFault::UnknownState(tag.clone())));
        };
        Ok(VGContext {
            challenger,
            claimer,
            machine,
            initial_hash,
            claimer_final_hash,
            hash_before_divergence,
            hash_after_divergence,
            current_state,
            round_duration: words[0],
            final_time: words[1],
            time_of_last_move: words[2],
            mm_instance: words[3],
            partition_instance: words[4],
            divergence_time: words[5],
        })
    }
}

/// The verification-game protocol, composed over a partition protocol `P`
/// and a memory-manager protocol `M` for the two nested games it can
/// delegate to.
pub struct VG<P, M> {
    partition: PhantomData<P>,
    memory_manager: PhantomData<M>,
}

impl<P: Protocol<()>, M: Protocol<Uint256>> VG<P, M> {
    /// Ghost form of the one kind of call this reactor emits: a named
    /// function of the instance's contract, applied to the instance index,
    /// with zero attached value, under the simplest submission policy.
    pub open spec fn call_view(instance: Instance, function: Seq<char>) -> TransactionRequestView {
        TransactionRequestView {
            concern: instance.concern,
            value: Uint256 { w0: 0, w1: 0, w2: 0, w3: 0 },
            function: function,
            data: seq![TokenView::Uint(instance.index)],
            strategy: Strategy::Simplest,
        }
    }

    /// Builds the one kind of call this reactor emits.
    fn call_request(instance: &Instance, function: &str) -> (r: TransactionRequest)
        ensures
            r@ == Self::call_view(*instance, function@),
    {
        let r = TransactionRequest {
            concern: instance.concern,
            value: Uint256::zero(),
            function: function.to_owned(),
            data: vec![Token::Uint(instance.index)],
            strategy: Strategy::Simplest,
        };
        proof {
            assert(r@.data =~= seq![TokenView::Uint(instance.index)]);
        }
        r
    }

    /// Ghost decision table for the claimer's turn.  In `WaitPartition` the
    /// claimer reads the partition sub-instance: if the partition has
    /// concluded it claims victory by partition timeout, if a divergence was
    /// found it starts the machine-run challenge, and otherwise it delegates
    /// to the partition protocol.  `WaitMemoryProveValues` is the
    /// challenger's turn, so the claimer is idle.
    pub open spec fn claimer_spec(instance: Instance, archive: Archive, ctx: VGContext) -> Result<
        ReactionView,
        Error,
    > {
        match ctx.current_state {
            VGState::WaitPartition => {
                if instance.sub_instances@.len() == 0 {
                    Err(Error::InvalidContractState(StateFault::MissingSubInstance(ProtocolKind::Partition)))
                } else {
                    let sub = instance.sub_instances@[0];
                    match P::state_spec(sub) {
                        Err(e) => Err(e),
                        Ok(s) => {
                            if s == "ChallengerWon"@ || s == "ClaimerWon"@ {
                                Ok(ReactionView::Transaction(Self::call_view(instance, "winByPartitionTimeout"@)))
                            } else if s == "DivergenceFound"@ {
                                Ok(ReactionView::Transaction(Self::call_view(instance, "startMachineRunChallenge"@)))
                            } else {
                                P::reaction_spec(sub, archive, ())
                            }
                        },
                    }
                }
            },
            VGState::WaitMemoryProveValues => Ok(ReactionView::Idle),
            _ => Ok(ReactionView::Idle),
        }
    }

    /// Ghost decision table for the challenger's turn.  In `WaitPartition`
    /// the challenger delegates unconditionally to the partition protocol.
    /// In `WaitMemoryProveValues` it reads the memory-manager sub-instance:
    /// while proofs are awaited it delegates, passing the divergence time as
    /// the memory manager's context; once the manager awaits replay it
    /// settles the verification game; a finished replay or an unrecognized
    /// manager tag is an unexpected but recoverable observation, answered
    /// with idleness rather than an error.
    pub open spec fn challenger_spec(instance: Instance, archive: Archive, ctx: VGContext) -> Result<
        ReactionView,
        Error,
    > {
        match ctx.current_state {
            VGState::WaitPartition => {
                if instance.sub_instances@.len() == 0 {
                    Err(Error::InvalidContractState(StateFault::MissingSubInstance(ProtocolKind::Partition)))
                } else {
                    P::reaction_spec(instance.sub_instances@[0], archive, ())
                }
            },
            VGState::WaitMemoryProveValues => {
                if instance.sub_instances@.len() == 0 {
                    Err(Error::InvalidContractState(StateFault::MissingSubInstance(ProtocolKind::MemoryManager)))
                } else {
                    let sub = instance.sub_instances@[0];
                    match M::state_spec(sub) {
                        Err(e) => Err(e),
                        Ok(s) => {
                            if s == "WaitingProofs"@ {
                                M::reaction_spec(sub, archive, ctx.divergence_time)
                            } else if s == "WaitingReplay"@ {
                                Ok(ReactionView::Transaction(Self::call_view(instance, "settleVerificationGame"@)))
                            } else {
                                Ok(ReactionView::Idle)
                            }
                        },
                    }
                }
            },
            _ => Ok(ReactionView::Idle),
        }
    }
}

impl<P: Protocol<()>, M: Protocol<Uint256>> Protocol<()> for VG<P, M> {
    /// The current-state tag of a verification-game instance: the name of
    /// the decoded state.
    open spec fn state_spec(instance: Instance) -> Result<Seq<char>, Error> {
        match VGContext::decode_spec(instance.encoded_state@) {
            Ok(ctx) => Ok(vg_state_name(ctx.current_state)),
            Err(e) => Err(e),
        }
    }

    /// The full decision table, as a pure function of the instance snapshot:
    /// decode, short-circuit the terminal states to idleness, classify the
    /// role, then dispatch per role and state.
    open spec fn reaction_spec(instance: Instance, archive: Archive, ctx: ()) -> Result<
        ReactionView,
        Error,
    > {
        match VGContext::decode_spec(instance.encoded_state@) {
            Err(e) => Err(e),
            Ok(vctx) => {
                if vctx.current_state == VGState::FinishedClaimerWon
                    || vctx.current_state == VGState::FinishedChallengerWon {
                    Ok(ReactionView::Idle)
                } else {
                    match role_of(instance.concern, vctx) {
                        Some(Role::Claimer) => Self::claimer_spec(instance, archive, vctx),
                        Some(Role::Challenger) => Self::challenger_spec(instance, archive, vctx),
                        None => Err(Error::InvalidContractState(StateFault::NeitherParty)),
                    }
                }
            },
        }
    }

    fn current_state(instance: &Instance) -> (r: Result<String, Error>) {
        match VGContext::decode(&instance.encoded_state) {
            Err(e) => Err(e),
            Ok(ctx) => Ok(
                match ctx.current_state {
                    VGState::WaitPartition => "WaitPartition".to_owned(),
                    VGState::WaitMemoryProveValues => "WaitMemoryProveValues".to_owned(),
                    VGState::FinishedClaimerWon => "FinishedClaimerWon".to_owned(),
                    VGState::FinishedChallengerWon => "FinishedChallengerWon".to_owned(),
                },
            ),
        }
    }

    fn react(instance: &Instance, archive: &Archive, ctx: &()) -> (r: Result<Reaction, Error>) {
        let vctx = match VGContext::decode(&instance.encoded_state) {
            Ok(c) => c,
            Err(e) => {
                return Err(e);
            },
        };
        // A terminal state indicates an inactive instance; observing one is
        // expected (the chain may have settled between queries) and absorbs
        // the tick without error.
        match vctx.current_state {
            VGState::FinishedClaimerWon | VGState::FinishedChallengerWon => {
                return Ok(Reaction::Idle);
            },
            _ => {},
        }
        let role = match classify_role(&instance.concern, &vctx) {
            Some(role) => role,
            None => {
                return Err(Error::InvalidContractState(StateFault::NeitherParty));
            },
        };
        match role {
            Role::Claimer => {
                match vctx.current_state {
                    VGState::WaitPartition => {
                        if instance.sub_instances.len() == 0 {
                            return Err(Error::InvalidContractState(StateFault::MissingSubInstance(
                                ProtocolKind::Partition,
                            )));
                        }
                        let sub = &instance.sub_instances[0];
                        let tag = match P::current_state(sub) {
                            Ok(s) => s,
                            Err(e) => {
                                return Err(e);
                            },
                        };
                        if tag_is(&tag, "ChallengerWon") || tag_is(&tag, "ClaimerWon") {
                            // claim victory by partition timeout
                            Ok(Reaction::Transaction(Self::call_request(instance, "winByPartitionTimeout")))
                        } else if tag_is(&tag, "DivergenceFound") {
                            // start the machine-run challenge
                            Ok(Reaction::Transaction(Self::call_request(instance, "startMachineRunChallenge")))
                        } else {
                            // the partition is still running: pass control to it
                            P::react(sub, archive, &())
                        }
                    },
                    VGState::WaitMemoryProveValues => Ok(Reaction::Idle),
                    _ => Ok(Reaction::Idle),
                }
            },
            Role::Challenger => {
                match vctx.current_state {
                    VGState::WaitPartition => {
                        if instance.sub_instances.len() == 0 {
                            return Err(Error::InvalidContractState(StateFault::MissingSubInstance(
                                ProtocolKind::Partition,
                            )));
                        }
                        // pass control to the partition protocol
                        P::react(&instance.sub_instances[0], archive, &())
                    },
                    VGState::WaitMemoryProveValues => {
                        if instance.sub_instances.len() == 0 {
                            return Err(Error::InvalidContractState(StateFault::MissingSubInstance(
                                ProtocolKind::MemoryManager,
                            )));
                        }
                        let sub = &instance.sub_instances[0];
                        let tag = match M::current_state(sub) {
                            Ok(s) => s,
                            Err(e) => {
                                return Err(e);
                            },
                        };
                        if tag_is(&tag, "WaitingProofs") {
                            M::react(sub, archive, &vctx.divergence_time)
                        } else if tag_is(&tag, "WaitingReplay") {
                            Ok(Reaction::Transaction(Self::call_request(instance, "settleVerificationGame")))
                        } else {
                            // a finished replay, or a tag this core does not
                            // recognize: settlement can be triggered from
                            // several paths, so this is recoverable idleness
                            Ok(Reaction::Idle)
                        }
                    },
                    _ => Ok(Reaction::Idle),
                }
            },
        }
    }
}

} // verus!
