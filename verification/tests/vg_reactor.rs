use vg_engine::{
    Address, Archive, Concern, Error, Field, Hash256, Instance, Protocol, ProtocolKind, Reaction,
    StateFault, Strategy, Token, Uint256, VG,
};

fn addr(n: u64) -> Address {
    Address { hi: 0, mid: 0, lo: n }
}

fn hash(n: u64) -> Hash256 {
    Hash256 { w0: 0, w1: 0, w2: 0, w3: n }
}

fn word(n: u64) -> Uint256 {
    Uint256 { w0: 0, w1: 0, w2: 0, w3: n }
}

fn concern(user: u64) -> Concern {
    Concern { contract_address: addr(1000), user_address: addr(user) }
}

const CHALLENGER: u64 = 7;
const CLAIMER: u64 = 8;

fn vg_fields(state: &str, divergence_time: u64) -> Vec<Field> {
    vec![
        Field::AddressField(addr(CHALLENGER)),
        Field::AddressField(addr(CLAIMER)),
        Field::AddressField(addr(9)),
        Field::Bytes32Field(hash(1)),
        Field::Bytes32Field(hash(2)),
        Field::Bytes32Field(hash(3)),
        Field::Bytes32Field(hash(4)),
        Field::String32Field(state.to_string()),
        Field::U256ArrayField(vec![word(10), word(20), word(30), word(40), word(50), word(60)]),
    ]
}

/// A sub-instance whose first field carries the tag the stub protocols
/// report as their current state.
fn sub_instance(tag: &str) -> Instance {
    Instance {
        index: word(77),
        concern: concern(CLAIMER),
        encoded_state: vec![Field::String32Field(tag.to_string())],
        sub_instances: vec![],
    }
}

fn vg_instance(user: u64, state: &str, subs: Vec<Instance>) -> Instance {
    Instance {
        index: word(42),
        concern: concern(user),
        encoded_state: vg_fields(state, 60),
        sub_instances: subs,
    }
}

/// Stub partition protocol: reports the tag in its instance's first field,
/// and reacts with a marker call so that pass-through is observable.
struct StubPartition;

impl Protocol<()> for StubPartition {
    fn current_state(instance: &Instance) -> Result<String, Error> {
        match &instance.encoded_state[0] {
            Field::String32Field(s) => Ok(s.clone()),
            _ => Err(Error::Decode(
                ProtocolKind::Partition,
                vg_engine::DecodeFault::FieldKind { index: 0 },
            )),
        }
    }

    fn react(instance: &Instance, _archive: &Archive, _ctx: &()) -> Result<Reaction, Error> {
        Ok(Reaction::Transaction(TransactionRequestBuilder::marker(
            instance,
            "partitionMarker",
            word(0),
        )))
    }
}

/// Stub memory-manager protocol: like the partition stub, but its marker
/// records the auxiliary context it was handed.
struct StubMemoryManager;

impl Protocol<Uint256> for StubMemoryManager {
    fn current_state(instance: &Instance) -> Result<String, Error> {
        match &instance.encoded_state[0] {
            Field::String32Field(s) => Ok(s.clone()),
            _ => Err(Error::Decode(
                ProtocolKind::MemoryManager,
                vg_engine::DecodeFault::FieldKind { index: 0 },
            )),
        }
    }

    fn react(instance: &Instance, _archive: &Archive, ctx: &Uint256) -> Result<Reaction, Error> {
        Ok(Reaction::Transaction(TransactionRequestBuilder::marker(instance, "mmMarker", *ctx)))
    }
}

struct TransactionRequestBuilder;

impl TransactionRequestBuilder {
    fn marker(instance: &Instance, name: &str, value: Uint256) -> vg_engine::TransactionRequest {
        vg_engine::TransactionRequest {
            concern: instance.concern,
            value,
            function: name.to_string(),
            data: vec![Token::Uint(instance.index)],
            strategy: Strategy::Simplest,
        }
    }
}

type Reactor = VG<StubPartition, StubMemoryManager>;

fn react(instance: &Instance) -> Result<Reaction, Error> {
    <Reactor as Protocol<()>>::react(instance, &Archive {}, &())
}

fn expect_call(r: Result<Reaction, Error>, function: &str) {
    match r {
        Ok(Reaction::Transaction(req)) => {
            assert_eq!(req.function, function);
            assert_eq!(req.data, vec![Token::Uint(word(42))]);
            assert_eq!(req.value, Uint256 { w0: 0, w1: 0, w2: 0, w3: 0 });
            assert_eq!(req.concern.contract_address, addr(1000));
            assert_eq!(req.strategy, Strategy::Simplest);
        },
        other => panic!("expected a {} transaction, got {:?}", function, other),
    }
}

#[test]
fn terminal_claimer_won_is_idle() {
    let inst = vg_instance(CLAIMER, "FinishedClaimerWon", vec![]);
    assert_eq!(react(&inst), Ok(Reaction::Idle));
}

#[test]
fn terminal_challenger_won_is_idle_even_for_stranger() {
    // terminal absorption holds regardless of the viewing party and of
    // malformed sub-instances
    let malformed = Instance {
        index: word(1),
        concern: concern(3),
        encoded_state: vec![],
        sub_instances: vec![],
    };
    let inst = vg_instance(3, "FinishedChallengerWon", vec![malformed]);
    assert_eq!(react(&inst), Ok(Reaction::Idle));
}

#[test]
fn neither_party_is_rejected() {
    let inst = vg_instance(3, "WaitPartition", vec![sub_instance("DivergenceFound")]);
    assert_eq!(
        react(&inst),
        Err(Error::InvalidContractState(StateFault::NeitherParty))
    );
}

#[test]
fn claimer_divergence_found_starts_machine_run_challenge() {
    let inst = vg_instance(CLAIMER, "WaitPartition", vec![sub_instance("DivergenceFound")]);
    expect_call(react(&inst), "startMachineRunChallenge");
}

#[test]
fn claimer_partition_claimer_won_claims_timeout() {
    let inst = vg_instance(CLAIMER, "WaitPartition", vec![sub_instance("ClaimerWon")]);
    expect_call(react(&inst), "winByPartitionTimeout");
}

#[test]
fn claimer_partition_challenger_won_claims_timeout() {
    let inst = vg_instance(CLAIMER, "WaitPartition", vec![sub_instance("ChallengerWon")]);
    expect_call(react(&inst), "winByPartitionTimeout");
}

#[test]
fn claimer_running_partition_delegates() {
    let inst = vg_instance(CLAIMER, "WaitPartition", vec![sub_instance("WaitingQuery")]);
    match react(&inst) {
        Ok(Reaction::Transaction(req)) => {
            assert_eq!(req.function, "partitionMarker");
            // the partition reactor ran on the sub-instance, not on the parent
            assert_eq!(req.data, vec![Token::Uint(word(77))]);
        },
        other => panic!("expected delegation to the partition stub, got {:?}", other),
    }
}

#[test]
fn claimer_wait_memory_is_idle() {
    let inst = vg_instance(CLAIMER, "WaitMemoryProveValues", vec![sub_instance("WaitingProofs")]);
    assert_eq!(react(&inst), Ok(Reaction::Idle));
}

#[test]
fn challenger_wait_partition_delegates() {
    let inst = vg_instance(CHALLENGER, "WaitPartition", vec![sub_instance("DivergenceFound")]);
    match react(&inst) {
        Ok(Reaction::Transaction(req)) => {
            assert_eq!(req.function, "partitionMarker");
            assert_eq!(req.data, vec![Token::Uint(word(77))]);
        },
        other => panic!("expected delegation to the partition stub, got {:?}", other),
    }
}

#[test]
fn challenger_waiting_replay_settles() {
    let inst = vg_instance(CHALLENGER, "WaitMemoryProveValues", vec![sub_instance("WaitingReplay")]);
    expect_call(react(&inst), "settleVerificationGame");
}

#[test]
fn challenger_waiting_proofs_delegates_with_divergence_time() {
    let inst = vg_instance(CHALLENGER, "WaitMemoryProveValues", vec![sub_instance("WaitingProofs")]);
    match react(&inst) {
        Ok(Reaction::Transaction(req)) => {
            assert_eq!(req.function, "mmMarker");
            assert_eq!(req.data, vec![Token::Uint(word(77))]);
            // the divergence time (sixth word of the context) was handed
            // through as the memory manager's context
            assert_eq!(req.value, word(60));
        },
        other => panic!("expected delegation to the memory-manager stub, got {:?}", other),
    }
}

#[test]
fn challenger_finished_replay_is_idle() {
    let inst = vg_instance(CHALLENGER, "WaitMemoryProveValues", vec![sub_instance("FinishedReplay")]);
    assert_eq!(react(&inst), Ok(Reaction::Idle));
}

#[test]
fn challenger_unknown_mm_tag_is_idle() {
    let inst = vg_instance(CHALLENGER, "WaitMemoryProveValues", vec![sub_instance("Nonsense")]);
    assert_eq!(react(&inst), Ok(Reaction::Idle));
}

#[test]
fn claimer_missing_partition_instance_is_rejected() {
    let inst = vg_instance(CLAIMER, "WaitPartition", vec![]);
    assert_eq!(
        react(&inst),
        Err(Error::InvalidContractState(StateFault::MissingSubInstance(ProtocolKind::Partition)))
    );
}

#[test]
fn challenger_missing_partition_instance_is_rejected() {
    let inst = vg_instance(CHALLENGER, "WaitPartition", vec![]);
    assert_eq!(
        react(&inst),
        Err(Error::InvalidContractState(StateFault::MissingSubInstance(ProtocolKind::Partition)))
    );
}

#[test]
fn challenger_missing_mm_instance_is_rejected() {
    let inst = vg_instance(CHALLENGER, "WaitMemoryProveValues", vec![]);
    assert_eq!(
        react(&inst),
        Err(Error::InvalidContractState(StateFault::MissingSubInstance(
            ProtocolKind::MemoryManager
        )))
    );
}

#[test]
fn unknown_state_is_rejected_for_either_role() {
    for user in [CLAIMER, CHALLENGER, 3] {
        let inst = vg_instance(user, "SomethingElse", vec![]);
        assert_eq!(
            react(&inst),
            Err(Error::InvalidContractState(StateFault::UnknownState("SomethingElse".to_string())))
        );
    }
}

#[test]
fn react_is_idempotent_on_a_snapshot() {
    let cases = [
        vg_instance(CLAIMER, "WaitPartition", vec![sub_instance("DivergenceFound")]),
        vg_instance(CHALLENGER, "WaitMemoryProveValues", vec![sub_instance("WaitingReplay")]),
        vg_instance(CLAIMER, "FinishedClaimerWon", vec![]),
        vg_instance(5, "WaitPartition", vec![sub_instance("ClaimerWon")]),
    ];
    for inst in &cases {
        assert_eq!(react(inst), react(inst));
    }
}

#[test]
fn delegation_errors_propagate_unchanged() {
    // a malformed partition sub-instance: its state cannot be read
    let bad_sub = Instance {
        index: word(5),
        concern: concern(CLAIMER),
        encoded_state: vec![Field::AddressField(addr(1))],
        sub_instances: vec![],
    };
    let inst = vg_instance(CLAIMER, "WaitPartition", vec![bad_sub]);
    assert_eq!(
        react(&inst),
        Err(Error::Decode(ProtocolKind::Partition, vg_engine::DecodeFault::FieldKind { index: 0 }))
    );
}

#[test]
fn a_user_listed_as_both_parties_plays_claimer() {
    // degenerate instance where one user is both claimer and challenger:
    // the dispatch order favours the claimer's table, so this phase is idle
    // rather than the challenger's memory-manager move
    let mut inst = vg_instance(CLAIMER, "WaitMemoryProveValues", vec![sub_instance("WaitingReplay")]);
    inst.encoded_state[0] = Field::AddressField(addr(CLAIMER));
    assert_eq!(react(&inst), Ok(Reaction::Idle));
}
