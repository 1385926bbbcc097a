use vstd::prelude::*;
use crate::addr::{Api, CanonicalAddr, HumanAddr};
use crate::codec::{from_stored, stored_encoding, to_stored, typed_read, Codec};
use crate::error::{Eventually, StdError, StdResult, UsuallyOk};
use crate::storage::{concat, Storage};

verus! {

/// The host's query interface into the rest of the system. This layer
/// never interprets it: it only hands a reference through to handlers.
pub trait Querier {

}

/// A querier for tests: it answers nothing, and this layer never asks
/// it anything.
#[derive(Clone, Copy, Debug)]
pub struct MockQuerier;

impl Querier for MockQuerier {

}

/// Access to the parts of a request environment: the storage backend,
/// the address codec, and the querier.
pub trait BaseComposable<S: Storage, A: Api, Q> {
    /// The storage backend this environment wraps.
    spec fn spec_storage(&self) -> S;

    /// The address codec this environment wraps.
    spec fn spec_api(&self) -> A;

    /// The querier this environment wraps.
    spec fn spec_querier(&self) -> Q;

    /// Borrow the storage backend for reading.
    fn storage(&self) -> (r: &S)
        ensures
            *r == self.spec_storage(),
    ;

    /// Borrow the storage backend for writing; nothing else changes.
    fn storage_mut(&mut self) -> (r: &mut S)
        ensures
            *r == old(self).spec_storage(),
            final(self).spec_storage() == *final(r),
            final(self).spec_api() == old(self).spec_api(),
            final(self).spec_querier() == old(self).spec_querier(),
    ;

    /// Borrow the address codec.
    fn api(&self) -> (r: &A)
        ensures
            *r == self.spec_api(),
    ;

    /// Borrow the querier.
    fn querier(&self) -> (r: &Q)
        ensures
            *r == self.spec_querier(),
    ;
}

/// The storage facade: typed and namespaced reads and writes over the
/// raw byte store, and address conversion through the codec.
///
/// Every typed write wraps the value as present and encodes it; every
/// typed read walks the inverse path. Every call is a direct
/// pass-through — no retries, no caching — so callers observe exactly
/// the latest state the backend holds.
pub trait Composable<S: Storage, A: Api, Q>: BaseComposable<S, A, Q> {
    /// Write `value` under `key`, replacing any earlier value.
    fn set<Value: Codec>(&mut self, key: &[u8], value: Value) -> (r: UsuallyOk)
        ensures
            r is Ok,
            final(self).spec_storage().contents() == old(self).spec_storage().contents().insert(
                key@,
                stored_encoding(value),
            ),
            final(self).spec_api() == old(self).spec_api(),
            final(self).spec_querier() == old(self).spec_querier(),
    ;

    /// Write `value` under `key` within `ns`: the same write `set`
    /// performs under the concatenated key.
    fn set_ns<Value: Codec>(&mut self, ns: &[u8], key: &[u8], value: Value) -> (r: UsuallyOk)
        ensures
            r is Ok,
            final(self).spec_storage().contents() == old(self).spec_storage().contents().insert(
                ns@ + key@,
                stored_encoding(value),
            ),
            final(self).spec_api() == old(self).spec_api(),
            final(self).spec_querier() == old(self).spec_querier(),
    ;

    /// Read `key` as a `Value`: `Ok(None)` for a key never written,
    /// the stored value for a matching write, and a decode error for
    /// stored bytes of the wrong shape.
    fn get<Value: Codec>(&self, key: &[u8]) -> (r: Eventually<Value>)
        ensures
            typed_read(self.spec_storage().contents(), key@, r),
    ;

    /// Read `key` within `ns` as a `Value`: the same read `get`
    /// performs under the concatenated key.
    fn get_ns<Value: Codec>(&self, ns: &[u8], key: &[u8]) -> (r: Eventually<Value>)
        ensures
            typed_read(self.spec_storage().contents(), ns@ + key@, r),
    ;

    /// Convert a canonical address to its human-readable form through
    /// the codec; surfaces the codec's error on malformed input.
    fn humanize(&self, value: CanonicalAddr) -> (r: StdResult<HumanAddr>)
        ensures
            match r {
                Ok(h) => self.spec_api().valid_canonical(value@) && h@ == self.spec_api().human_of(
                    value@,
                ),
                Err(e) => e == StdError::Codec && !self.spec_api().valid_canonical(value@),
            },
    ;

    /// Convert a human-readable address to its canonical form through
    /// the codec; surfaces the codec's error on malformed input.
    fn canonize(&self, value: HumanAddr) -> (r: StdResult<CanonicalAddr>)
        ensures
            match r {
                Ok(c) => self.spec_api().valid_human(value@) && c@
                    == self.spec_api().canonical_of(value@),
                Err(e) => e == StdError::Codec && !self.spec_api().valid_human(value@),
            },
    ;
}

/// A request environment as the host constructs it: one storage
/// backend, one address codec, one querier, alive for one request.
pub struct Extern<S: Storage, A: Api, Q: Querier> {
    pub storage: S,
    pub api: A,
    pub querier: Q,
}

impl<S: Storage, A: Api, Q: Querier> BaseComposable<S, A, Q> for Extern<S, A, Q> {
    open spec fn spec_storage(&self) -> S {
        self.storage
    }

    open spec fn spec_api(&self) -> A {
        self.api
    }

    open spec fn spec_querier(&self) -> Q {
        self.querier
    }

    fn storage(&self) -> &S {
        &self.storage
    }

    fn storage_mut(&mut self) -> &mut S {
        &mut self.storage
    }

    fn api(&self) -> &A {
        &self.api
    }

    fn querier(&self) -> &Q {
        &self.querier
    }
}

impl<S: Storage, A: Api, Q: Querier> Composable<S, A, Q> for Extern<S, A, Q> {
    fn set<Value: Codec>(&mut self, key: &[u8], value: Value) -> (r: UsuallyOk) {
        let data = to_stored(&value);
        self.storage.set(key, data.as_slice());
        Ok(())
    }

    fn set_ns<Value: Codec>(&mut self, ns: &[u8], key: &[u8], value: Value) -> (r: UsuallyOk) {
        let combined = concat(ns, key);
        self.set(combined.as_slice(), value)
    }

    fn get<Value: Codec>(&self, key: &[u8]) -> (r: Eventually<Value>) {
        match self.storage.get(key) {
            Some(data) => from_stored(data.as_slice()),
            None => Ok(None),
        }
    }

    fn get_ns<Value: Codec>(&self, ns: &[u8], key: &[u8]) -> (r: Eventually<Value>) {
        let combined = concat(ns, key);
        self.get(combined.as_slice())
    }

    fn humanize(&self, value: CanonicalAddr) -> (r: StdResult<HumanAddr>) {
        self.api.human_address(&value)
    }

    fn canonize(&self, value: HumanAddr) -> (r: StdResult<CanonicalAddr>) {
        self.api.canonical_address(&value)
    }
}

/// A request environment for tests: the same shape as [`Extern`], but
/// clonable, so a test can snapshot and replay state.
#[derive(Clone)]
pub struct MockExtern<S: Storage, A: Api, Q: Querier> {
    pub storage: S,
    pub api: A,
    pub querier: Q,
}

impl<S: Storage, A: Api, Q: Querier> BaseComposable<S, A, Q> for MockExtern<S, A, Q> {
    open spec fn spec_storage(&self) -> S {
        self.storage
    }

    open spec fn spec_api(&self) -> A {
        self.api
    }

    open spec fn spec_querier(&self) -> Q {
        self.querier
    }

    fn storage(&self) -> &S {
        &self.storage
    }

    fn storage_mut(&mut self) -> &mut S {
        &mut self.storage
    }

    fn api(&self) -> &A {
        &self.api
    }

    fn querier(&self) -> &Q {
        &self.querier
    }
}

impl<S: Storage, A: Api, Q: Querier> Composable<S, A, Q> for MockExtern<S, A, Q> {
    fn set<Value: Codec>(&mut self, key: &[u8], value: Value) -> (r: UsuallyOk) {
        let data = to_stored(&value);
        self.storage.set(key, data.as_slice());
        Ok(())
    }

    fn set_ns<Value: Codec>(&mut self, ns: &[u8], key: &[u8], value: Value) -> (r: UsuallyOk) {
        let combined = concat(ns, key);
        self.set(combined.as_slice(), value)
    }

    fn get<Value: Codec>(&self, key: &[u8]) -> (r: Eventually<Value>) {
        match self.storage.get(key) {
            Some(data) => from_stored(data.as_slice()),
            None => Ok(None),
        }
    }

    fn get_ns<Value: Codec>(&self, ns: &[u8], key: &[u8]) -> (r: Eventually<Value>) {
        let combined = concat(ns, key);
        self.get(combined.as_slice())
    }

    fn humanize(&self, value: CanonicalAddr) -> (r: StdResult<HumanAddr>) {
        self.api.human_address(&value)
    }

    fn canonize(&self, value: HumanAddr) -> (r: StdResult<CanonicalAddr>) {
        self.api.canonical_address(&value)
    }
}

} // verus!
