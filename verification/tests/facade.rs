use fadroma_composability::addr::MockApi;
use fadroma_composability::codec::{from_stored, to_stored, Codec};
use fadroma_composability::composable::{Composable, Extern, MockExtern, MockQuerier};
use fadroma_composability::error::StdError;
use fadroma_composability::storage::{MemoryStorage, Storage};

fn mock_env() -> MockExtern<MemoryStorage, MockApi, MockQuerier> {
    MockExtern { storage: MemoryStorage::new(), api: MockApi, querier: MockQuerier }
}

fn plain_env() -> Extern<MemoryStorage, MockApi, MockQuerier> {
    Extern { storage: MemoryStorage::new(), api: MockApi, querier: MockQuerier }
}

#[test]
fn set_get_round_trip_u64() {
    let mut env = mock_env();
    assert_eq!(env.set::<u64>(b"answer", 42), Ok(()));
    assert_eq!(env.get::<u64>(b"answer"), Ok(Some(42)));
}

#[test]
fn set_get_round_trip_bool() {
    let mut env = plain_env();
    assert_eq!(env.set::<bool>(b"flag", true), Ok(()));
    assert_eq!(env.get::<bool>(b"flag"), Ok(Some(true)));
    assert_eq!(env.set::<bool>(b"flag", false), Ok(()));
    assert_eq!(env.get::<bool>(b"flag"), Ok(Some(false)));
}

#[test]
fn get_never_written_returns_none() {
    let env = mock_env();
    assert_eq!(env.get::<u64>(b"missing"), Ok(None));
}

#[test]
fn overwrite_returns_latest_value() {
    let mut env = mock_env();
    assert_eq!(env.set::<u64>(b"n", 1), Ok(()));
    assert_eq!(env.set::<u64>(b"n", 2), Ok(()));
    assert_eq!(env.get::<u64>(b"n"), Ok(Some(2)));
}

#[test]
fn namespaced_round_trip() {
    let mut env = mock_env();
    assert_eq!(env.set_ns::<u64>(b"ns", b"k", 7), Ok(()));
    assert_eq!(env.get_ns::<u64>(b"ns", b"k"), Ok(Some(7)));
}

#[test]
fn namespaced_equals_plain_on_concatenated_key() {
    let mut via_ns = mock_env();
    let mut via_plain = mock_env();
    assert_eq!(via_ns.set_ns::<u64>(b"ns", b"k", 7), Ok(()));
    let combined = fadroma_composability::storage::concat(b"ns", b"k");
    assert_eq!(via_plain.set::<u64>(&combined, 7), Ok(()));
    assert_eq!(
        via_ns.get_ns::<u64>(b"ns", b"k"),
        via_plain.get::<u64>(&combined)
    );
    assert_eq!(via_ns.get::<u64>(&combined), Ok(Some(7)));
    assert_eq!(via_plain.get_ns::<u64>(b"ns", b"k"), Ok(Some(7)));
}

#[test]
fn game_counter_namespaces() {
    let mut env = mock_env();
    assert_eq!(env.set_ns::<u64>(b"game1", b"count", 42), Ok(()));
    assert_eq!(env.get_ns::<u64>(b"game1", b"count"), Ok(Some(42)));
    assert_eq!(env.get_ns::<u64>(b"game2", b"count"), Ok(None));
}

#[test]
fn wrong_type_read_fails_with_decode_error() {
    let mut env = mock_env();
    assert_eq!(env.set::<u64>(b"n", 42), Ok(()));
    assert_eq!(env.get::<bool>(b"n"), Err(StdError::Decode));
}

#[test]
fn u64_encoding_is_little_endian() {
    assert_eq!(42u64.encode(), vec![42, 0, 0, 0, 0, 0, 0, 0]);
    assert_eq!(
        0x0102030405060708u64.encode(),
        vec![8, 7, 6, 5, 4, 3, 2, 1]
    );
}

#[test]
fn u64_decode_rejects_wrong_length() {
    assert_eq!(u64::decode(&[1, 2, 3]), Err(StdError::Decode));
    assert_eq!(u64::decode(&[]), Err(StdError::Decode));
    assert_eq!(u64::decode(&[9, 0, 0, 0, 0, 0, 0, 0]), Ok(9));
}

#[test]
fn bool_decode_rejects_other_bytes() {
    assert_eq!(bool::decode(&[2]), Err(StdError::Decode));
    assert_eq!(bool::decode(&[0, 0]), Err(StdError::Decode));
    assert_eq!(bool::decode(&[0]), Ok(false));
    assert_eq!(bool::decode(&[1]), Ok(true));
}

#[test]
fn stored_bytes_wrap_value_as_present() {
    assert_eq!(to_stored(&42u64), vec![1, 42, 0, 0, 0, 0, 0, 0, 0]);
    assert_eq!(from_stored::<u64>(&[1, 42, 0, 0, 0, 0, 0, 0, 0]), Ok(Some(42)));
}

#[test]
fn stored_absence_marker_reads_as_none() {
    assert_eq!(from_stored::<u64>(&[0]), Ok(None));
    assert_eq!(from_stored::<u64>(&[]), Err(StdError::Decode));
    assert_eq!(from_stored::<u64>(&[2, 1]), Err(StdError::Decode));
}

#[test]
fn present_but_empty_is_distinct_from_absent() {
    let mut env = mock_env();
    assert_eq!(env.set::<()>(b"seen", ()), Ok(()));
    assert_eq!(env.get::<()>(b"seen"), Ok(Some(())));
    assert_eq!(env.get::<()>(b"never"), Ok(None));
    assert_eq!(to_stored(&()), vec![1]);
}

#[test]
fn memory_storage_raw_get_set() {
    let mut store = MemoryStorage::new();
    assert_eq!(store.get(b"k"), None);
    store.set(b"k", b"v1");
    assert_eq!(store.get(b"k"), Some(b"v1".to_vec()));
    store.set(b"k", b"v2");
    assert_eq!(store.get(b"k"), Some(b"v2".to_vec()));
    assert_eq!(store.get(b"other"), None);
}

#[test]
fn concat_appends_key_to_namespace() {
    assert_eq!(fadroma_composability::storage::concat(b"ab", b"cd"), b"abcd".to_vec());
    assert_eq!(fadroma_composability::storage::concat(b"", b"cd"), b"cd".to_vec());
    assert_eq!(fadroma_composability::storage::concat(b"ab", b""), b"ab".to_vec());
}
