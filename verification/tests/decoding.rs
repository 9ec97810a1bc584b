use vg_engine::{
    Address, Archive, Concern, DecodeFault, Error, Field, Hash256, Instance, Protocol,
    ProtocolKind, Reaction, StateFault, Uint256, VG, VGContext, VGState,
};

/// Sub-protocol stands-in for exercising the verification game's own
/// current-state reading; never consulted by it.
struct NoPartition;

impl Protocol<()> for NoPartition {
    fn current_state(_: &Instance) -> Result<String, Error> {
        panic!("not consulted")
    }
    fn react(_: &Instance, _: &Archive, _: &()) -> Result<Reaction, Error> {
        panic!("not consulted")
    }
}

struct NoMemoryManager;

impl Protocol<Uint256> for NoMemoryManager {
    fn current_state(_: &Instance) -> Result<String, Error> {
        panic!("not consulted")
    }
    fn react(_: &Instance, _: &Archive, _: &Uint256) -> Result<Reaction, Error> {
        panic!("not consulted")
    }
}

fn addr(n: u64) -> Address {
    Address { hi: 0, mid: 0, lo: n }
}

fn hash(n: u64) -> Hash256 {
    Hash256 { w0: 0, w1: 0, w2: 0, w3: n }
}

fn word(n: u64) -> Uint256 {
    Uint256 { w0: 0, w1: 0, w2: 0, w3: n }
}

fn good_fields() -> Vec<Field> {
    vec![
        Field::AddressField(addr(1)),
        Field::AddressField(addr(2)),
        Field::AddressField(addr(3)),
        Field::Bytes32Field(hash(4)),
        Field::Bytes32Field(hash(5)),
        Field::Bytes32Field(hash(6)),
        Field::Bytes32Field(hash(7)),
        Field::String32Field("WaitPartition".to_string()),
        Field::U256ArrayField(vec![word(10), word(11), word(12), word(13), word(14), word(15)]),
    ]
}

#[test]
fn decode_reads_every_field_in_layout_order() {
    let ctx = VGContext::decode(&good_fields()).unwrap();
    assert_eq!(ctx.challenger, addr(1));
    assert_eq!(ctx.claimer, addr(2));
    assert_eq!(ctx.machine, addr(3));
    assert_eq!(ctx.initial_hash, hash(4));
    assert_eq!(ctx.claimer_final_hash, hash(5));
    assert_eq!(ctx.hash_before_divergence, hash(6));
    assert_eq!(ctx.hash_after_divergence, hash(7));
    assert_eq!(ctx.current_state, VGState::WaitPartition);
    assert_eq!(ctx.round_duration, word(10));
    assert_eq!(ctx.final_time, word(11));
    assert_eq!(ctx.time_of_last_move, word(12));
    assert_eq!(ctx.mm_instance, word(13));
    assert_eq!(ctx.partition_instance, word(14));
    assert_eq!(ctx.divergence_time, word(15));
}

#[test]
fn decode_accepts_every_enumerated_state() {
    for (tag, state) in [
        ("WaitPartition", VGState::WaitPartition),
        ("WaitMemoryProveValues", VGState::WaitMemoryProveValues),
        ("FinishedClaimerWon", VGState::FinishedClaimerWon),
        ("FinishedChallengerWon", VGState::FinishedChallengerWon),
    ] {
        let mut fields = good_fields();
        fields[7] = Field::String32Field(tag.to_string());
        assert_eq!(VGContext::decode(&fields).unwrap().current_state, state);
    }
}

#[test]
fn decode_rejects_wrong_field_count() {
    let mut fields = good_fields();
    fields.pop();
    assert_eq!(
        VGContext::decode(&fields),
        Err(Error::Decode(ProtocolKind::VerificationGame, DecodeFault::FieldCount { found: 8 }))
    );
}

#[test]
fn decode_rejects_wrong_field_kind_and_names_the_position() {
    for index in 0..9 {
        let mut fields = good_fields();
        // a word field is the wrong kind at every position
        fields[index] = Field::U256Field(word(0));
        assert_eq!(
            VGContext::decode(&fields),
            Err(Error::Decode(ProtocolKind::VerificationGame, DecodeFault::FieldKind { index }))
        );
    }
}

#[test]
fn decode_rejects_wrong_word_count() {
    let mut fields = good_fields();
    fields[8] = Field::U256ArrayField(vec![word(1), word(2)]);
    assert_eq!(
        VGContext::decode(&fields),
        Err(Error::Decode(ProtocolKind::VerificationGame, DecodeFault::WordCount { found: 2 }))
    );
}

#[test]
fn decode_rejects_unknown_state_tag_with_the_tag() {
    let mut fields = good_fields();
    fields[7] = Field::String32Field("waitpartition".to_string());
    assert_eq!(
        VGContext::decode(&fields),
        Err(Error::InvalidContractState(StateFault::UnknownState("waitpartition".to_string())))
    );
}

#[test]
fn vg_current_state_reports_the_decoded_tag() {
    let inst = Instance {
        index: word(1),
        concern: Concern { contract_address: addr(1), user_address: addr(2) },
        encoded_state: good_fields(),
        sub_instances: vec![],
    };
    let state = <VG<NoPartition, NoMemoryManager> as Protocol<()>>::current_state(&inst);
    assert_eq!(state, Ok("WaitPartition".to_string()));

    let mut bad = good_fields();
    bad[7] = Field::String32Field("Bogus".to_string());
    let inst2 = Instance { encoded_state: bad, ..inst };
    let state2 = <VG<NoPartition, NoMemoryManager> as Protocol<()>>::current_state(&inst2);
    assert_eq!(
        state2,
        Err(Error::InvalidContractState(StateFault::UnknownState("Bogus".to_string())))
    );
}
