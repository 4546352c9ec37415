use vstd::prelude::*;
use crate::instruction::{keys_decoded, keys_fit, le_u32};
use crate::state::{Identity, MultiSig};

verus! {

/// The four little-endian bytes of `n`.
pub open spec fn u32_le_bytes(n: nat) -> Seq<u8> {
    seq![(n % 256) as u8, ((n / 256) % 256) as u8, ((n / 65536) % 256) as u8, ((n / 16777216) % 256) as u8]
}

/// The keys written one after another.
pub open spec fn keys_bytes(keys: Seq<Identity>) -> Seq<u8>
    decreases keys.len(),
{
    if keys.len() == 0 {
        Seq::empty()
    } else {
        keys_bytes(keys.drop_last()) + keys.last()@
    }
}

/// The stored form of a record: the owner count, the owners, the
/// threshold, the approvals and the executed flag as 0 or 1.
pub open spec fn record_bytes(owners: Seq<Identity>, threshold: u8, approvals: u8, executed: bool) -> Seq<u8> {
    u32_le_bytes(owners.len()) + keys_bytes(owners) + seq![threshold, approvals, if executed { 1u8 } else { 0u8 }]
}

/// Whether `b` is a stored record with nothing after it.
pub open spec fn is_stored_record(b: Seq<u8>) -> bool {
    &&& keys_fit(b)
    &&& b.len() == 4 + 32 * le_u32(b) + 3
    &&& b[(4 + 32 * le_u32(b) + 2) as int] <= 1
}

/// Relies on borsh::to_vec of a tuple of the owners, threshold, approvals
/// and flag: borsh writes a vector as its u32 length then its items, an
/// array as its bytes, a bool as 0 or 1, and fails when the length does not
/// fit in u32.
#[verifier::external_body]
fn encode_fields(owners: &Vec<Identity>, threshold: u8, approvals: u8, executed: bool) -> (r: Option<Vec<u8>>)
    ensures
        r is Some <==> owners@.len() <= u32::MAX,
        r is Some ==> r->Some_0@ == record_bytes(owners@, threshold, approvals, executed),
{
    borsh::to_vec(&(owners, threshold, approvals, executed)).ok()
}

/// Relies on borsh::from_slice of the same tuple: the count and keys as
/// for any vector, one byte each for threshold and approvals, a bool that
/// must be 0 or 1, and no bytes left over.
#[verifier::external_body]
fn decode_fields(bytes: &[u8]) -> (r: Option<(Vec<Identity>, u8, u8, bool)>)
    ensures
        r is Some <==> is_stored_record(bytes@),
        r is Some ==> {
            let (owners, threshold, approvals, executed) = r->Some_0;
            let at: int = 4 + 32 * le_u32(bytes@) as int;
            &&& keys_decoded(owners@, bytes@)
            &&& threshold == bytes@[at]
            &&& approvals == bytes@[at + 1]
            &&& executed == (bytes@[at + 2] == 1)
        },
{
    borsh::from_slice::<(Vec<Identity>, u8, u8, bool)>(bytes).ok()
}

/// The count written by `u32_le_bytes` reads back as itself.
pub proof fn lemma_u32_le_round_trip(n: nat, rest: Seq<u8>)
    requires
        n <= u32::MAX,
    ensures
        le_u32(u32_le_bytes(n) + rest) == n,
{
    let b = u32_le_bytes(n) + rest;
    assert(b[0] as nat == n % 256);
    assert(b[1] as nat == (n / 256) % 256);
    assert(b[2] as nat == (n / 65536) % 256);
    assert(b[3] as nat == (n / 16777216) % 256);
    let x = n as u32;
    assert(x == (x & 0xff) + 256 * ((x >> 8u32) & 0xff) + 65536 * ((x >> 16u32) & 0xff) + 16777216 * ((x >> 24u32) & 0xff)) by (bit_vector);
    assert((x & 0xff) == x % 256) by (bit_vector);
    assert(((x >> 8u32) & 0xff) == (x / 256) % 256) by (bit_vector);
    assert(((x >> 16u32) & 0xff) == (x / 65536) % 256) by (bit_vector);
    assert(((x >> 24u32) & 0xff) == (x / 16777216) % 256) by (bit_vector);
}

/// The keys occupy 32 bytes each, in order.
pub proof fn lemma_keys_bytes(keys: Seq<Identity>)
    ensures
        keys_bytes(keys).len() == 32 * keys.len(),
        forall|i: int| 0 <= i < keys.len() ==> #[trigger] keys[i]@ == keys_bytes(keys).subrange(32 * i, 32 * i + 32),
    decreases keys.len(),
{
    if keys.len() > 0 {
        let init = keys.drop_last();
        lemma_keys_bytes(init);
        assert forall|i: int| 0 <= i < keys.len() implies #[trigger] keys[i]@ == keys_bytes(keys).subrange(32 * i, 32 * i + 32) by {
            if i < keys.len() - 1 {
                assert(init[i] == keys[i]);
                assert(keys_bytes(keys).subrange(32 * i, 32 * i + 32) =~= keys_bytes(init).subrange(32 * i, 32 * i + 32));
            } else {
                assert(keys_bytes(keys).subrange(32 * i, 32 * i + 32) =~= keys.last()@);
            }
        }
    }
}

/// Reading back the stored form of a record gives the same owners,
/// threshold, approvals and executed flag.
pub proof fn lemma_stored_round_trip(owners: Seq<Identity>, threshold: u8, approvals: u8, executed: bool)
    requires
        owners.len() <= u32::MAX,
    ensures
        is_stored_record(record_bytes(owners, threshold, approvals, executed)),
        forall|back: Seq<Identity>| keys_decoded(back, record_bytes(owners, threshold, approvals, executed))
            ==> back =~= owners,
        ({
            let b = record_bytes(owners, threshold, approvals, executed);
            let at: int = 4 + 32 * le_u32(b) as int;
            &&& b[at] == threshold
            &&& b[at + 1] == approvals
            &&& (b[at + 2] == 1) == executed
        }),
{
    let b = record_bytes(owners, threshold, approvals, executed);
    let tail = seq![threshold, approvals, if executed { 1u8 } else { 0u8 }];
    lemma_keys_bytes(owners);
    assert(b =~= u32_le_bytes(owners.len()) + (keys_bytes(owners) + tail));
    lemma_u32_le_round_trip(owners.len(), keys_bytes(owners) + tail);
    let n = owners.len() as int;
    assert(b.len() == 4 + 32 * n + 3);
    assert(b[4 + 32 * n] == threshold);
    assert(b[4 + 32 * n + 1] == approvals);
    assert(b[4 + 32 * n + 2] == if executed { 1u8 } else { 0u8 });
    assert forall|back: Seq<Identity>| keys_decoded(back, b) implies back =~= owners by {
        assert forall|i: int| 0 <= i < owners.len() implies back[i] == owners[i] by {
            assert(back[i]@ == b.subrange(4 + 32 * i, 36 + 32 * i));
            assert(b.subrange(4 + 32 * i, 36 + 32 * i) =~= keys_bytes(owners).subrange(32 * i, 32 * i + 32));
            assert(owners[i]@ == keys_bytes(owners).subrange(32 * i, 32 * i + 32));
            assert(back[i]@ == owners[i]@);
            assert(back[i] =~= owners[i]);
        }
    }
}

impl MultiSig {
    /// The stored form of the record, or `None` when it has more owners
    /// than a u32 count can say.
    pub fn pack(&self) -> (r: Option<Vec<u8>>)
        ensures
            r is Some <==> self.owners@.len() <= u32::MAX,
            r is Some ==> r->Some_0@ == record_bytes(self.owners@, self.threshold, self.approvals, self.executed),
    {
        encode_fields(&self.owners, self.threshold, self.approvals, self.executed)
    }

    /// Reads a record from its stored form, or `None` when the bytes are not
    /// exactly one stored record.
    pub fn unpack_from(bytes: &[u8]) -> (r: Option<MultiSig>)
        ensures
            r is Some <==> is_stored_record(bytes@),
            r is Some ==> {
                let m = r->Some_0;
                let at: int = 4 + 32 * le_u32(bytes@) as int;
                &&& keys_decoded(m.owners@, bytes@)
                &&& m.threshold == bytes@[at]
                &&& m.approvals == bytes@[at + 1]
                &&& m.executed == (bytes@[at + 2] == 1)
            },
    {
        match decode_fields(bytes) {
            Some((owners, threshold, approvals, executed)) => Some(MultiSig { owners, threshold, approvals, executed }),
            None => None,
        }
    }
}

} // verus!
