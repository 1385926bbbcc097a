use fadroma_composability::addr::{Api, CanonicalAddr, HumanAddr, MockApi};
use fadroma_composability::composable::{Composable, MockExtern, MockQuerier};
use fadroma_composability::error::StdError;
use fadroma_composability::storage::MemoryStorage;

fn mock_env() -> MockExtern<MemoryStorage, MockApi, MockQuerier> {
    MockExtern { storage: MemoryStorage::new(), api: MockApi, querier: MockQuerier }
}

#[test]
fn canonize_then_humanize_round_trip() {
    let api = MockApi;
    let human = HumanAddr(b"alice".to_vec());
    let canonical = api.canonical_address(&human).expect("valid human address");
    let back = api.human_address(&canonical).expect("valid canonical address");
    assert_eq!(back.0, b"alice".to_vec());
}

#[test]
fn humanize_then_canonize_round_trip() {
    let api = MockApi;
    let canonical = CanonicalAddr(b"bob".to_vec());
    let human = api.human_address(&canonical).expect("valid canonical address");
    let back = api.canonical_address(&human).expect("valid human address");
    assert_eq!(back.0, b"bob".to_vec());
}

#[test]
fn canonize_rejects_malformed_input() {
    let api = MockApi;
    let empty = HumanAddr(Vec::new());
    match api.canonical_address(&empty) {
        Err(e) => assert_eq!(e, StdError::Codec),
        Ok(_) => panic!("an empty address must be rejected"),
    }
    let oversized = HumanAddr(vec![b'a'; 55]);
    match api.canonical_address(&oversized) {
        Err(e) => assert_eq!(e, StdError::Codec),
        Ok(_) => panic!("an oversized address must be rejected"),
    }
}

#[test]
fn humanize_rejects_malformed_input() {
    let api = MockApi;
    match api.human_address(&CanonicalAddr(Vec::new())) {
        Err(e) => assert_eq!(e, StdError::Codec),
        Ok(_) => panic!("an empty address must be rejected"),
    }
}

#[test]
fn facade_address_conversion_delegates_to_codec() {
    let env = mock_env();
    let canonical = env.canonize(HumanAddr(b"carol".to_vec())).expect("valid human address");
    assert_eq!(canonical.0, b"carol".to_vec());
    let human = env.humanize(CanonicalAddr(b"carol".to_vec())).expect("valid canonical address");
    assert_eq!(human.0, b"carol".to_vec());
    match env.canonize(HumanAddr(Vec::new())) {
        Err(e) => assert_eq!(e, StdError::Codec),
        Ok(_) => panic!("an empty address must be rejected"),
    }
}
