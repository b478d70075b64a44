use holochain_core::conductor::{payload_of_request, seed_from_nick, ParamValue, Params, SEED_SIZE};
use holochain_core::network::{reduce_init, track_dna_message, NetworkSettings, NetworkState, TrackDnaData};
use holochain_core::wasm_memory::{AllocationError, WasmAllocation, WasmStack};

fn settings() -> NetworkSettings {
    NetworkSettings { dna_address: String::from("dna address"), agent_id: String::from("Terence") }
}

#[test]
fn should_wait_for_protocol_p2p_ready() {
    let network_settings = settings();
    let mut network_state: NetworkState<u32> = NetworkState::new();
    let result = reduce_init(&mut network_state, &network_settings, 1, true);

    assert_eq!(result, ());
}

#[test]
fn init_keeps_the_connection_once_the_node_is_tracked() {
    let mut state: NetworkState<u32> = NetworkState::new();
    reduce_init(&mut state, &settings(), 42, true);
    assert_eq!(
        state,
        NetworkState {
            network: Some(42),
            dna_address: Some(String::from("dna address")),
            agent_id: Some(String::from("Terence")),
        }
    );
}

#[test]
fn init_changes_nothing_when_tracking_could_not_be_sent() {
    let mut state: NetworkState<u32> = NetworkState::new();
    reduce_init(&mut state, &settings(), 42, false);
    assert_eq!(state, NetworkState::new());
}

#[test]
fn track_dna_message_names_dna_and_agent() {
    assert_eq!(
        track_dna_message(&settings()),
        TrackDnaData { dna_address: String::from("dna address"), agent_id: String::from("Terence") }
    );
}

#[test]
fn seed_starts_with_the_nick_and_counts_on() {
    let seed = seed_from_nick("bob");
    assert_eq!(seed.len(), SEED_SIZE);
    assert_eq!(
        seed,
        vec![
            98, 111, 98, 4, 5, 6, 7, 8, 9, 10, 11, 12, 13, 14, 15, 16, 17, 18, 19, 20, 21, 22, 23,
            24, 25, 26, 27, 28, 29, 30, 31, 0
        ]
    );
    assert_eq!(seed_from_nick("bob"), seed);
    assert_eq!(seed_from_nick("")[0], 1);
}

#[test]
fn seed_of_a_long_nick_is_its_first_bytes() {
    let nick = "a nick name that is longer than the seed of a key bundle";
    let seed = seed_from_nick(nick);
    assert_eq!(&seed[..31], &nick.as_bytes()[..31]);
    assert_eq!(seed[31], 0);
}

#[test]
fn signing_request_needs_a_payload_string() {
    assert_eq!(
        payload_of_request(&Params::Other),
        Err(String::from("expected params map"))
    );
    assert_eq!(
        payload_of_request(&Params::Named(vec![])),
        Err(String::from("`payload` param not provided"))
    );
    assert_eq!(
        payload_of_request(&Params::Named(vec![(
            String::from("other"),
            ParamValue::String(String::from("x"))
        )])),
        Err(String::from("`payload` param not provided"))
    );
    assert_eq!(
        payload_of_request(&Params::Named(vec![(String::from("payload"), ParamValue::Other)])),
        Err(String::from("`payload` is not a valid json string"))
    );
    assert_eq!(
        payload_of_request(&Params::Named(vec![
            (String::from("other"), ParamValue::Other),
            (String::from("payload"), ParamValue::String(String::from("sign me"))),
        ])),
        Ok(String::from("sign me"))
    );
}

#[test]
fn strings_are_written_one_above_the_other() {
    let mut stack = WasmStack::new();
    assert_eq!(stack.top(), 0);
    let first = stack.write_string("foo").unwrap();
    assert_eq!((first.offset(), first.length()), (0, 3));
    let second = stack.write_string("b\u{e4}r").unwrap();
    assert_eq!((second.offset(), second.length()), (3, 4));
    assert_eq!(stack.top(), 7);
    assert_eq!(stack.read(first), Some(b"foo".to_vec()));
    assert_eq!(stack.read(second), Some("b\u{e4}r".as_bytes().to_vec()));
    assert_eq!(stack.read(WasmAllocation::new(5, 3).unwrap()), None);
}

#[test]
fn empty_string_cannot_be_written() {
    let mut stack = WasmStack::new();
    assert_eq!(stack.write_string(""), Err(AllocationError::ZeroLength));
    assert_eq!(stack.top(), 0);
}

#[test]
fn json_is_written_unless_it_could_not_be_serialised() {
    let mut stack = WasmStack::new();
    assert_eq!(stack.write_json(None), Err(AllocationError::Serialization));
    let written = stack.write_json(Some(b"{\"a\":1}".to_vec())).unwrap();
    assert_eq!((written.offset(), written.length()), (0, 7));
    assert_eq!(stack.read(written), Some(b"{\"a\":1}".to_vec()));
    assert_eq!(stack.write_json(Some(vec![])), Err(AllocationError::ZeroLength));
}

#[test]
fn allocations_stay_within_the_memory() {
    assert_eq!(WasmStack::max(), 4294967295);
    assert_eq!(WasmAllocation::new(0, 0), Err(AllocationError::ZeroLength));
    assert_eq!(WasmAllocation::new(4294967295, 1), Err(AllocationError::OutOfBounds));
    assert_eq!(WasmAllocation::new(4294967295, 0), Err(AllocationError::ZeroLength));
    assert_eq!(WasmAllocation::new(4294967294, 2), Err(AllocationError::OutOfBounds));
    let last = WasmAllocation::new(4294967294, 1).unwrap();
    assert_eq!((last.offset(), last.length()), (4294967294, 1));
}

#[test]
fn allocation_must_start_at_the_top_of_the_stack() {
    let mut stack = WasmStack::new();
    stack.write_string("abc").unwrap();
    let misplaced = WasmAllocation::new(1, 2).unwrap();
    assert_eq!(stack.allocate(misplaced), Err(AllocationError::BadStackAlignment));
    assert_eq!(stack.top(), 3);
    let beyond = WasmAllocation::new(3, 4294967292).unwrap();
    let next = stack.next_allocation(2).unwrap();
    assert_eq!((next.offset(), next.length()), (3, 2));
    assert_eq!(stack.allocate(next), Ok(3));
    assert_eq!(stack.top(), 5);
    assert_eq!(stack.read(next), Some(vec![0, 0]));
    assert_eq!(stack.allocate(beyond), Err(AllocationError::BadStackAlignment));
    assert_eq!(stack.next_allocation(0), Err(AllocationError::ZeroLength));
    assert_eq!(stack.next_allocation(4294967295), Err(AllocationError::OutOfBounds));
    assert!(stack.is_well_formed());
}
