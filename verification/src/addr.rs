use vstd::prelude::*;
use crate::error::{StdError, StdResult};

verus! {

/// The display/interchange representation of an identity.
#[derive(Clone, Debug)]
pub struct HumanAddr(pub Vec<u8>);

impl View for HumanAddr {
    type V = Seq<u8>;

    open spec fn view(&self) -> Seq<u8> {
        self.0@
    }
}

/// The internal, fixed-form representation of an identity, used as a
/// storage and comparison key.
#[derive(Clone, Debug)]
pub struct CanonicalAddr(pub Vec<u8>);

impl View for CanonicalAddr {
    type V = Seq<u8>;

    open spec fn view(&self) -> Seq<u8> {
        self.0@
    }
}

/// The address codec service: the bidirectional conversion between the
/// human-readable and the canonical representation of an identity.
///
/// The codec may be lossy on bytes but must be consistent on identity:
/// converting a valid address and back yields an address referring to
/// the same identity. Each implementation proves that through
/// [`Api::lemma_canonical_of_valid`] and [`Api::lemma_human_of_valid`].
pub trait Api {
    /// Which human-readable forms this codec accepts.
    spec fn valid_human(&self, h: Seq<u8>) -> bool;

    /// Which canonical forms this codec accepts.
    spec fn valid_canonical(&self, c: Seq<u8>) -> bool;

    /// The canonical form a valid human-readable form converts to.
    spec fn canonical_of(&self, h: Seq<u8>) -> Seq<u8>;

    /// The human-readable form a valid canonical form converts to.
    spec fn human_of(&self, c: Seq<u8>) -> Seq<u8>;

    /// The identity a human-readable form refers to.
    spec fn human_identity(&self, h: Seq<u8>) -> Seq<u8>;

    /// The identity a canonical form refers to.
    spec fn canonical_identity(&self, c: Seq<u8>) -> Seq<u8>;

    /// Converting a valid human-readable form yields a valid canonical
    /// form referring to the same identity.
    proof fn lemma_canonical_of_valid(&self, h: Seq<u8>)
        requires
            self.valid_human(h),
        ensures
            self.valid_canonical(self.canonical_of(h)),
            self.canonical_identity(self.canonical_of(h)) == self.human_identity(h),
    ;

    /// Converting a valid canonical form yields a valid human-readable
    /// form referring to the same identity.
    proof fn lemma_human_of_valid(&self, c: Seq<u8>)
        requires
            self.valid_canonical(c),
        ensures
            self.valid_human(self.human_of(c)),
            self.human_identity(self.human_of(c)) == self.canonical_identity(c),
    ;

    /// Convert a human-readable address to canonical form; fails with a
    /// codec error exactly when the input is malformed, and never
    /// substitutes a placeholder.
    fn canonical_address(&self, human: &HumanAddr) -> (r: StdResult<CanonicalAddr>)
        ensures
            match r {
                Ok(c) => self.valid_human(human@) && c@ == self.canonical_of(human@),
                Err(e) => e == StdError::Codec && !self.valid_human(human@),
            },
    ;

    /// Convert a canonical address to human-readable form; fails with a
    /// codec error exactly when the input is malformed, and never
    /// substitutes a placeholder.
    fn human_address(&self, canonical: &CanonicalAddr) -> (r: StdResult<HumanAddr>)
        ensures
            match r {
                Ok(h) => self.valid_canonical(canonical@) && h@ == self.human_of(canonical@),
                Err(e) => e == StdError::Codec && !self.valid_canonical(canonical@),
            },
    ;
}

/// Law: for every valid human-readable address, converting it to
/// canonical form and back yields a human-readable address referring
/// to the same identity.
pub proof fn lemma_canonize_humanize_round_trip<A: Api>(api: &A, h: Seq<u8>)
    requires
        api.valid_human(h),
    ensures
        api.valid_canonical(api.canonical_of(h)),
        api.valid_human(api.human_of(api.canonical_of(h))),
        api.human_identity(api.human_of(api.canonical_of(h))) == api.human_identity(h),
{
    api.lemma_canonical_of_valid(h);
    api.lemma_human_of_valid(api.canonical_of(h));
}

/// Law: for every valid canonical address, converting it to
/// human-readable form and back yields a canonical address referring
/// to the same identity.
pub proof fn lemma_humanize_canonize_round_trip<A: Api>(api: &A, c: Seq<u8>)
    requires
        api.valid_canonical(c),
    ensures
        api.valid_human(api.human_of(c)),
        api.valid_canonical(api.canonical_of(api.human_of(c))),
        api.canonical_identity(api.canonical_of(api.human_of(c))) == api.canonical_identity(c),
{
    api.lemma_human_of_valid(c);
    api.lemma_canonical_of_valid(api.human_of(c));
}

/// A mock address codec: a form is valid when it is 1 to 54 bytes
/// long, the canonical form is the human-readable form itself, and the
/// identity is those bytes.
#[derive(Clone, Copy, Debug)]
pub struct MockApi;

impl Api for MockApi {
    open spec fn valid_human(&self, h: Seq<u8>) -> bool {
        1 <= h.len() <= 54
    }

    open spec fn valid_canonical(&self, c: Seq<u8>) -> bool {
        1 <= c.len() <= 54
    }

    open spec fn canonical_of(&self, h: Seq<u8>) -> Seq<u8> {
        h
    }

    open spec fn human_of(&self, c: Seq<u8>) -> Seq<u8> {
        c
    }

    open spec fn human_identity(&self, h: Seq<u8>) -> Seq<u8> {
        h
    }

    open spec fn canonical_identity(&self, c: Seq<u8>) -> Seq<u8> {
        c
    }

    proof fn lemma_canonical_of_valid(&self, h: Seq<u8>) {
    }

    proof fn lemma_human_of_valid(&self, c: Seq<u8>) {
    }

    fn canonical_address(&self, human: &HumanAddr) -> (r: StdResult<CanonicalAddr>) {
        let len = human.0.len();
        if 1 <= len && len <= 54 {
            let bytes = human.0.clone();
            proof {
                assert(bytes@ =~= human.0@);
            }
            Ok(CanonicalAddr(bytes))
        } else {
            Err(StdError::Codec)
        }
    }

    fn human_address(&self, canonical: &CanonicalAddr) -> (r: StdResult<HumanAddr>) {
        let len = canonical.0.len();
        if 1 <= len && len <= 54 {
            let bytes = canonical.0.clone();
            proof {
                assert(bytes@ =~= canonical.0@);
            }
            Ok(HumanAddr(bytes))
        } else {
            Err(StdError::Codec)
        }
    }
}

} // verus!
