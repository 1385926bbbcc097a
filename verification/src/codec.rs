use vstd::prelude::*;
use vstd::slice::slice_subrange;
use crate::error::{Eventually, StdError, StdResult};

verus! {

/// The serialization adapter: a typed value and its byte encoding.
///
/// Encoding is total (it never fails) and injective (distinct values
/// have distinct encodings), and decoding is complete: it recovers the
/// value from exactly the byte sequences that some value encodes to,
/// and rejects every other byte sequence with a decode error.
pub trait Codec: Sized {
    /// The byte sequence this value encodes to.
    spec fn encoding(&self) -> Seq<u8>;

    /// Distinct values have distinct encodings, so decoding is
    /// unambiguous.
    proof fn lemma_encoding_injective(a: &Self, b: &Self)
        requires
            a.encoding() == b.encoding(),
        ensures
            a == b,
    ;

    /// Encode this value; never fails.
    fn encode(&self) -> (r: Vec<u8>)
        ensures
            r@ == self.encoding(),
    ;

    /// Decode a value from `bytes`; fails with a decode error exactly
    /// when no value of this type encodes to `bytes`.
    fn decode(bytes: &[u8]) -> (r: StdResult<Self>)
        ensures
            match r {
                Ok(v) => bytes@ == v.encoding(),
                Err(e) => e == StdError::Decode && !(exists|v: Self| bytes@ == v.encoding()),
            },
    ;
}

/// Stored bytes that mark a deliberately absent value.
pub open spec fn absent_stored() -> Seq<u8> {
    seq![0u8]
}

/// The bytes a typed write leaves in the raw store: the value's
/// encoding wrapped as "present", so absence stays distinguishable
/// from presence no matter what `V` encodes to.
pub open spec fn stored_encoding<V: Codec>(v: V) -> Seq<u8> {
    seq![1u8] + v.encoding()
}

/// Whether the stored bytes `b` hold the value `v` wrapped as present.
pub open spec fn is_present_encoding<V: Codec>(b: Seq<u8>, v: V) -> bool {
    b.len() >= 1 && b[0] == 1u8 && v.encoding() == b.skip(1)
}

/// What reading back the stored bytes `b` as a `V` must yield:
/// a present value decodes to exactly that value, an absence marker
/// reads as `None`, and anything else is a decode error.
pub open spec fn stored_decode<V: Codec>(b: Seq<u8>, r: Eventually<V>) -> bool {
    &&& (b == absent_stored() ==> r == Ok::<Option<V>, StdError>(None))
    &&& (forall|v: V| is_present_encoding(b, v) ==> r == Ok::<Option<V>, StdError>(Some(v)))
    &&& ((b != absent_stored() && !(exists|v: V| is_present_encoding(b, v))) ==> r
        == Err::<Option<V>, StdError>(StdError::Decode))
}

/// What a typed read of `key` from a store holding `m` must return:
/// `Ok(None)` for a key never written, otherwise the outcome of
/// decoding the stored bytes.
pub open spec fn typed_read<V: Codec>(
    m: Map<Seq<u8>, Seq<u8>>,
    key: Seq<u8>,
    r: Eventually<V>,
) -> bool {
    &&& (!m.contains_key(key) ==> r == Ok::<Option<V>, StdError>(None))
    &&& (m.contains_key(key) ==> stored_decode(m[key], r))
}

/// Wrap `value` as present and encode it for storage.
pub fn to_stored<V: Codec>(value: &V) -> (r: Vec<u8>)
    ensures
        r@ == stored_encoding(*value),
{
    let mut out: Vec<u8> = Vec::new();
    out.push(1u8);
    let mut enc = value.encode();
    out.append(&mut enc);
    proof {
        assert(out@ =~= stored_encoding(*value));
    }
    out
}

/// Read back stored bytes as a `V` wrapped in present/absent marking.
pub fn from_stored<V: Codec>(bytes: &[u8]) -> (r: Eventually<V>)
    ensures
        stored_decode(bytes@, r),
{
    if bytes.len() == 0 {
        return Err(StdError::Decode);
    }
    if bytes[0] == 0u8 {
        if bytes.len() == 1 {
            proof {
                assert(bytes@ =~= absent_stored());
            }
            return Ok(None);
        }
        return Err(StdError::Decode);
    }
    if bytes[0] != 1u8 {
        proof {
            assert(bytes@ != absent_stored());
        }
        return Err(StdError::Decode);
    }
    let tail = slice_subrange(bytes, 1, bytes.len());
    proof {
        assert(tail@ =~= bytes@.skip(1));
        assert(bytes@ != absent_stored());
    }
    match V::decode(tail) {
        Ok(value) => {
            proof {
                assert(is_present_encoding(bytes@, value));
                assert forall|u: V| is_present_encoding(bytes@, u) implies u == value by {
                    V::lemma_encoding_injective(&u, &value);
                };
            }
            Ok(Some(value))
        },
        Err(_) => {
            proof {
                assert forall|u: V| !is_present_encoding(bytes@, u) by {
                    if is_present_encoding(bytes@, u) {
                        assert(tail@ == u.encoding());
                    }
                };
            }
            Err(StdError::Decode)
        },
    }
}

/// Law: writing a value under a key and reading that key back as the
/// same type returns exactly the written value.
pub proof fn lemma_write_read_round_trip<V: Codec>(
    m: Map<Seq<u8>, Seq<u8>>,
    key: Seq<u8>,
    v: V,
    r: Eventually<V>,
)
    requires
        typed_read(m.insert(key, stored_encoding(v)), key, r),
    ensures
        r == Ok::<Option<V>, StdError>(Some(v)),
{
    let b = stored_encoding(v);
    assert(b[0] == 1u8);
    assert(b.skip(1) =~= v.encoding());
    assert(is_present_encoding(b, v));
    assert(m.insert(key, b)[key] == b);
}

/// Law: reading a key that was never written returns "not found", not
/// an error.
pub proof fn lemma_read_unwritten<V: Codec>(m: Map<Seq<u8>, Seq<u8>>, key: Seq<u8>, r: Eventually<V>)
    requires
        !m.contains_key(key),
        typed_read(m, key, r),
    ensures
        r == Ok::<Option<V>, StdError>(None),
{
}

/// Law: a namespaced write followed by a namespaced read of the same
/// namespace and key returns the written value. Namespaced operations
/// are stated directly over the concatenated key `ns + key`, so this
/// is the round trip of the plain operations on that key.
pub proof fn lemma_namespaced_round_trip<V: Codec>(
    m: Map<Seq<u8>, Seq<u8>>,
    ns: Seq<u8>,
    key: Seq<u8>,
    v: V,
    r: Eventually<V>,
)
    requires
        typed_read(m.insert(ns + key, stored_encoding(v)), ns + key, r),
    ensures
        r == Ok::<Option<V>, StdError>(Some(v)),
{
    lemma_write_read_round_trip(m, ns + key, v, r);
}

/// Law: a typed read's contract pins one result, so a namespaced read
/// and a plain read of the concatenated key are observably equal.
pub proof fn lemma_typed_read_deterministic<V: Codec>(
    m: Map<Seq<u8>, Seq<u8>>,
    key: Seq<u8>,
    r1: Eventually<V>,
    r2: Eventually<V>,
)
    requires
        typed_read(m, key, r1),
        typed_read(m, key, r2),
    ensures
        r1 == r2,
{
    if m.contains_key(key) {
        let b = m[key];
        if b != absent_stored() && (exists|v: V| is_present_encoding(b, v)) {
            let v = choose|v: V| is_present_encoding(b, v);
            assert(r1 == Ok::<Option<V>, StdError>(Some(v)));
            assert(r2 == Ok::<Option<V>, StdError>(Some(v)));
        }
    }
}

/// Law: reading a key back through a type none of whose values has
/// the encoding the stored value was written with fails with a decode
/// error — never a panic, never a silently wrong value.
pub proof fn lemma_incompatible_type_read<W: Codec, V: Codec>(
    m: Map<Seq<u8>, Seq<u8>>,
    key: Seq<u8>,
    w: W,
    r: Eventually<V>,
)
    requires
        typed_read::<V>(m.insert(key, stored_encoding(w)), key, r),
        forall|v: V| v.encoding() != w.encoding(),
    ensures
        r == Err::<Option<V>, StdError>(StdError::Decode),
{
    let b = stored_encoding(w);
    assert(b[0] == 1u8);
    assert(b != absent_stored());
    assert(m.insert(key, b)[key] == b);
    assert forall|v: V| !is_present_encoding(b, v) by {
        if is_present_encoding(b, v) {
            assert(b.skip(1) =~= w.encoding());
            assert(v.encoding() == w.encoding());
        }
    };
}

/// The little-endian bytes of a 64-bit unsigned integer.
pub open spec fn u64_le_bytes(x: u64) -> Seq<u8> {
    seq![
        (x & 0xff) as u8,
        ((x >> 8) & 0xff) as u8,
        ((x >> 16) & 0xff) as u8,
        ((x >> 24) & 0xff) as u8,
        ((x >> 32) & 0xff) as u8,
        ((x >> 40) & 0xff) as u8,
        ((x >> 48) & 0xff) as u8,
        ((x >> 56) & 0xff) as u8,
    ]
}

impl Codec for u64 {
    open spec fn encoding(&self) -> Seq<u8> {
        u64_le_bytes(*self)
    }

    proof fn lemma_encoding_injective(a: &u64, b: &u64) {
        let x = *a;
        let y = *b;
        assert(u64_le_bytes(x)[0] == u64_le_bytes(y)[0]);
        assert(u64_le_bytes(x)[1] == u64_le_bytes(y)[1]);
        assert(u64_le_bytes(x)[2] == u64_le_bytes(y)[2]);
        assert(u64_le_bytes(x)[3] == u64_le_bytes(y)[3]);
        assert(u64_le_bytes(x)[4] == u64_le_bytes(y)[4]);
        assert(u64_le_bytes(x)[5] == u64_le_bytes(y)[5]);
        assert(u64_le_bytes(x)[6] == u64_le_bytes(y)[6]);
        assert(u64_le_bytes(x)[7] == u64_le_bytes(y)[7]);
        assert(x == y) by (bit_vector)
            requires
                (x & 0xff) as u8 == (y & 0xff) as u8,
                ((x >> 8) & 0xff) as u8 == ((y >> 8) & 0xff) as u8,
                ((x >> 16) & 0xff) as u8 == ((y >> 16) & 0xff) as u8,
                ((x >> 24) & 0xff) as u8 == ((y >> 24) & 0xff) as u8,
                ((x >> 32) & 0xff) as u8 == ((y >> 32) & 0xff) as u8,
                ((x >> 40) & 0xff) as u8 == ((y >> 40) & 0xff) as u8,
                ((x >> 48) & 0xff) as u8 == ((y >> 48) & 0xff) as u8,
                ((x >> 56) & 0xff) as u8 == ((y >> 56) & 0xff) as u8,
        ;
    }

    fn encode(&self) -> (r: Vec<u8>) {
        let x = *self;
        proof {
            assert(x & 0xff < 256 && (x >> 8) & 0xff < 256 && (x >> 16) & 0xff < 256 && (x >> 24)
                & 0xff < 256 && (x >> 32) & 0xff < 256 && (x >> 40) & 0xff < 256 && (x >> 48)
                & 0xff < 256 && (x >> 56) & 0xff < 256) by (bit_vector);
        }
        let mut out: Vec<u8> = Vec::new();
        out.push((x & 0xff) as u8);
        out.push(((x >> 8) & 0xff) as u8);
        out.push(((x >> 16) & 0xff) as u8);
        out.push(((x >> 24) & 0xff) as u8);
        out.push(((x >> 32) & 0xff) as u8);
        out.push(((x >> 40) & 0xff) as u8);
        out.push(((x >> 48) & 0xff) as u8);
        out.push(((x >> 56) & 0xff) as u8);
        proof {
            assert(out@ =~= u64_le_bytes(x));
        }
        out
    }

    fn decode(bytes: &[u8]) -> (r: StdResult<u64>) {
        if bytes.len() != 8 {
            return Err(StdError::Decode);
        }
        let b0 = bytes[0] as u64;
        let b1 = bytes[1] as u64;
        let b2 = bytes[2] as u64;
        let b3 = bytes[3] as u64;
        let b4 = bytes[4] as u64;
        let b5 = bytes[5] as u64;
        let b6 = bytes[6] as u64;
        let b7 = bytes[7] as u64;
        let x = b0 | (b1 << 8) | (b2 << 16) | (b3 << 24) | (b4 << 32) | (b5 << 40) | (b6 << 48) | (
        b7 << 56);
        proof {
            assert(x & 0xff == b0 && (x >> 8) & 0xff == b1 && (x >> 16) & 0xff == b2 && (x >> 24)
                & 0xff == b3 && (x >> 32) & 0xff == b4 && (x >> 40) & 0xff == b5 && (x >> 48) & 0xff
                == b6 && (x >> 56) & 0xff == b7) by (bit_vector)
                requires
                    x == b0 | (b1 << 8) | (b2 << 16) | (b3 << 24) | (b4 << 32) | (b5 << 40) | (b6
                        << 48) | (b7 << 56),
                    b0 < 256 && b1 < 256 && b2 < 256 && b3 < 256,
                    b4 < 256 && b5 < 256 && b6 < 256 && b7 < 256,
            ;
            assert(bytes@ =~= u64_le_bytes(x));
        }
        Ok(x)
    }
}

impl Codec for () {
    open spec fn encoding(&self) -> Seq<u8> {
        Seq::empty()
    }

    proof fn lemma_encoding_injective(a: &(), b: &()) {
    }

    fn encode(&self) -> (r: Vec<u8>) {
        let out: Vec<u8> = Vec::new();
        proof {
            assert(out@ =~= Seq::<u8>::empty());
        }
        out
    }

    fn decode(bytes: &[u8]) -> (r: StdResult<()>) {
        if bytes.len() == 0 {
            proof {
                assert(bytes@ =~= Seq::<u8>::empty());
            }
            Ok(())
        } else {
            Err(StdError::Decode)
        }
    }
}

impl Codec for bool {
    open spec fn encoding(&self) -> Seq<u8> {
        if *self {
            seq![1u8]
        } else {
            seq![0u8]
        }
    }

    proof fn lemma_encoding_injective(a: &bool, b: &bool) {
        if *a != *b {
            assert(seq![1u8][0] == 1u8);
            assert(seq![0u8][0] == 0u8);
            assert(false);
        }
    }

    fn encode(&self) -> (r: Vec<u8>) {
        let mut out: Vec<u8> = Vec::new();
        if *self {
            out.push(1u8);
        } else {
            out.push(0u8);
        }
        proof {
            assert(out@ =~= self.encoding());
        }
        out
    }

    fn decode(bytes: &[u8]) -> (r: StdResult<bool>) {
        if bytes.len() == 1 {
            if bytes[0] == 1u8 {
                proof {
                    assert(bytes@ =~= true.encoding());
                }
                return Ok(true);
            }
            if bytes[0] == 0u8 {
                proof {
                    assert(bytes@ =~= false.encoding());
                }
                return Ok(false);
            }
        }
        proof {
            assert(bytes@ != true.encoding() && bytes@ != false.encoding());
            assert forall|v: bool| bytes@ != v.encoding() by {};
        }
        Err(StdError::Decode)
    }
}

} // verus!
