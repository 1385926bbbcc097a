use fadroma_composability::addr::{Api, HumanAddr, MockApi};
use fadroma_composability::composable::{Composable, MockExtern, MockQuerier};
use fadroma_composability::dispatch::{Env, HandleDispatch, HandleResponse, QueryDispatch};
use fadroma_composability::error::{StdError, StdResult};
use fadroma_composability::storage::{MemoryStorage, Storage};

type TestCore = MockExtern<MemoryStorage, MockApi, MockQuerier>;

fn mock_env() -> TestCore {
    MockExtern { storage: MemoryStorage::new(), api: MockApi, querier: MockQuerier }
}

fn request(sender: &[u8]) -> Env {
    Env { sender: HumanAddr(sender.to_vec()), block_height: 12_345 }
}

enum GameHandle {
    SetCount(u64),
    // Writes a marker, then fails: shows that a handler failure is
    // surfaced as a handler error and that no rollback is performed.
    FailAfterWrite,
    Unrecognized,
}

impl<S, A, Q, C> HandleDispatch<S, A, Q, C> for GameHandle
where
    S: Storage,
    A: Api,
    C: Composable<S, A, Q>,
{
    fn dispatch_handle(self, core: &mut C, _env: Env) -> StdResult<HandleResponse> {
        match self {
            GameHandle::SetCount(n) => {
                core.set_ns::<u64>(b"game1", b"count", n)?;
                Ok(HandleResponse::default())
            }
            GameHandle::FailAfterWrite => {
                core.set_ns::<bool>(b"game1", b"partial", true)?;
                Err(StdError::Handler)
            }
            GameHandle::Unrecognized => Err(StdError::Routing),
        }
    }
}

enum GameQuery {
    GetCount,
    Unrecognized,
}

impl<S, A, Q, C> QueryDispatch<S, A, Q, C, Option<u64>> for GameQuery
where
    S: Storage,
    A: Api,
    C: Composable<S, A, Q>,
{
    fn dispatch_query(self, core: &C) -> StdResult<Option<u64>> {
        match self {
            GameQuery::GetCount => core.get_ns::<u64>(b"game1", b"count"),
            GameQuery::Unrecognized => Err(StdError::Routing),
        }
    }
}

#[test]
fn dispatch_handle_routes_to_handler() {
    let mut core = mock_env();
    let response = GameHandle::SetCount(42)
        .dispatch_handle(&mut core, request(b"alice"))
        .expect("the handler succeeds");
    assert_eq!(response.data, None);
    assert_eq!(core.get_ns::<u64>(b"game1", b"count"), Ok(Some(42)));
}

#[test]
fn dispatch_unrecognized_variant_is_a_routing_error() {
    let mut core = mock_env();
    match GameHandle::Unrecognized.dispatch_handle(&mut core, request(b"alice")) {
        Err(e) => {
            assert_eq!(e, StdError::Routing);
            assert_ne!(e, StdError::Handler);
        }
        Ok(_) => panic!("an unrecognized message must not dispatch"),
    }
    // No handler ran, so no write happened.
    assert_eq!(core.get_ns::<u64>(b"game1", b"count"), Ok(None));
}

#[test]
fn dispatch_handler_failure_keeps_earlier_writes() {
    let mut core = mock_env();
    match GameHandle::FailAfterWrite.dispatch_handle(&mut core, request(b"alice")) {
        Err(e) => assert_eq!(e, StdError::Handler),
        Ok(_) => panic!("the handler must fail"),
    }
    // No rollback is provided: the write before the failure stays.
    assert_eq!(core.get_ns::<bool>(b"game1", b"partial"), Ok(Some(true)));
}

#[test]
fn dispatch_query_routes_to_handler() {
    let mut core = mock_env();
    assert_eq!(GameQuery::GetCount.dispatch_query(&core), Ok(None));
    GameHandle::SetCount(7)
        .dispatch_handle(&mut core, request(b"bob"))
        .expect("the handler succeeds");
    assert_eq!(GameQuery::GetCount.dispatch_query(&core), Ok(Some(7)));
}

#[test]
fn dispatch_query_unrecognized_variant_is_a_routing_error() {
    let core = mock_env();
    assert_eq!(GameQuery::Unrecognized.dispatch_query(&core), Err(StdError::Routing));
}
