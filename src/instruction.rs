use vstd::prelude::*;
use crate::state::Identity;
use vstd::slice::slice_subrange;

verus! {

/// A decoded request for one of the four transitions.
pub enum MultiSigInstruction {
    Initialize { owners: Vec<Identity>, threshold: u8 },
    SubmitTransaction { transaction_id: u64 },
    Approve { transaction_id: u64 },
    Execute { transaction_id: u64 },
}

/// Why a request could not be decoded.
#[derive(PartialEq, Eq, Structural, Debug, Clone, Copy)]
pub enum DecodeError {
    /// Empty input, an unknown tag, or a payload too short for its fields.
    InvalidInstructionData,
    /// The owner list is not a well-formed count followed by that many keys.
    MalformedOwners,
}

/// The little-endian value of the first four bytes.
pub open spec fn le_u32(b: Seq<u8>) -> nat {
    b[0] as nat + 256 * b[1] as nat + 65536 * b[2] as nat + 16777216 * b[3] as nat
}

/// The little-endian value of the first eight bytes.
pub open spec fn le_u64(b: Seq<u8>) -> nat {
    le_u32(b) + 4294967296 * le_u32(b.subrange(4, 8))
}

/// Whether `b` starts with a count and at least that many 32-byte keys.
pub open spec fn keys_fit(b: Seq<u8>) -> bool {
    b.len() >= 4 && b.len() >= 4 + 32 * le_u32(b)
}

/// Whether `keys` are the keys that the count at the front of `b` announces.
pub open spec fn keys_decoded(keys: Seq<Identity>, b: Seq<u8>) -> bool {
    &&& keys.len() == le_u32(b)
    &&& forall|i: int| 0 <= i < keys.len() ==> #[trigger] keys[i]@ == b.subrange(4 + 32 * i, 36 + 32 * i)
}

/// Relies on borsh's decoding of `Vec<[u8; 32]>` from a slice: a little-endian
/// u32 count, then that many keys of 32 bytes each; bytes after them are left
/// unread, and too few bytes is an error.
#[verifier::external_body]
fn decode_keys(bytes: &[u8]) -> (r: Option<Vec<Identity>>)
    ensures
        r is Some <==> keys_fit(bytes@),
        r is Some ==> keys_decoded(r->Some_0@, bytes@),
{
    let mut rest: &[u8] = bytes;
    <Vec<Identity> as borsh::BorshDeserialize>::deserialize(&mut rest).ok()
}

/// Relies on std's `u64::from_le_bytes`: the little-endian value of the bytes.
#[verifier::external_body]
fn u64_from_le(b: [u8; 8]) -> (r: u64)
    ensures
        r as nat == le_u64(b@),
{
    u64::from_le_bytes(b)
}

/// Reads the transaction identifier at the front of `rest`.
fn read_id(rest: &[u8]) -> (r: Option<u64>)
    ensures
        r is Some <==> rest@.len() >= 8,
        r is Some ==> r->Some_0 as nat == le_u64(rest@),
{
    if rest.len() < 8 {
        return None;
    }
    let b: [u8; 8] = [rest[0], rest[1], rest[2], rest[3], rest[4], rest[5], rest[6], rest[7]];
    assert(b@ =~= rest@.subrange(0, 8));
    assert(b@.subrange(4, 8) =~= rest@.subrange(4, 8));
    Some(u64_from_le(b))
}

impl MultiSigInstruction {
    /// Decodes a request: a tag byte, then its payload. Tag 0 carries the
    /// owner list followed by the threshold, which is read at offset 32 times
    /// the number of owners within the payload; tags 1 to 3 carry a
    /// little-endian u64 identifier.
    pub fn unpack(input: &[u8]) -> (r: Result<MultiSigInstruction, DecodeError>)
        ensures
            input@.len() == 0 ==> r == Err::<MultiSigInstruction, DecodeError>(DecodeError::InvalidInstructionData),
            input@.len() > 0 && input@[0] > 3 ==> r == Err::<MultiSigInstruction, DecodeError>(DecodeError::InvalidInstructionData),
            input@.len() > 0 && input@[0] == 0 ==> {
                let rest = input@.subrange(1, input@.len() as int);
                &&& !keys_fit(rest) ==> r == Err::<MultiSigInstruction, DecodeError>(DecodeError::MalformedOwners)
                &&& keys_fit(rest) && rest.len() <= 32 * le_u32(rest)
                    ==> r == Err::<MultiSigInstruction, DecodeError>(DecodeError::InvalidInstructionData)
                &&& keys_fit(rest) && rest.len() > 32 * le_u32(rest) ==> match r {
                    Ok(MultiSigInstruction::Initialize { owners, threshold }) =>
                        keys_decoded(owners@, rest) && threshold == rest[(32 * le_u32(rest)) as int],
                    _ => false,
                }
            },
            input@.len() > 0 && 1 <= input@[0] <= 3 ==> {
                let rest = input@.subrange(1, input@.len() as int);
                &&& rest.len() < 8 ==> r == Err::<MultiSigInstruction, DecodeError>(DecodeError::InvalidInstructionData)
                &&& rest.len() >= 8 ==> match r {
                    Ok(MultiSigInstruction::SubmitTransaction { transaction_id }) =>
                        input@[0] == 1 && transaction_id as nat == le_u64(rest),
                    Ok(MultiSigInstruction::Approve { transaction_id }) =>
                        input@[0] == 2 && transaction_id as nat == le_u64(rest),
                    Ok(MultiSigInstruction::Execute { transaction_id }) =>
                        input@[0] == 3 && transaction_id as nat == le_u64(rest),
                    _ => false,
                }
            },
    {
        if input.len() == 0 {
            return Err(DecodeError::InvalidInstructionData);
        }
        let tag = input[0];
        let rest = slice_subrange(input, 1, input.len());
        assert(rest@ =~= input@.subrange(1, input@.len() as int));
        if tag == 0 {
            let owners = match decode_keys(rest) {
                Some(o) => o,
                None => return Err(DecodeError::MalformedOwners),
            };
            let at = owners.len() * 32;
            if at >= rest.len() {
                return Err(DecodeError::InvalidInstructionData);
            }
            let threshold = rest[at];
            Ok(MultiSigInstruction::Initialize { owners, threshold })
        } else if tag <= 3 {
            let transaction_id = match read_id(rest) {
                Some(v) => v,
                None => return Err(DecodeError::InvalidInstructionData),
            };
            if tag == 1 {
                Ok(MultiSigInstruction::SubmitTransaction { transaction_id })
            } else if tag == 2 {
                Ok(MultiSigInstruction::Approve { transaction_id })
            } else {
                Ok(MultiSigInstruction::Execute { transaction_id })
            }
        } else {
            Err(DecodeError::InvalidInstructionData)
        }
    }
}

} // verus!
