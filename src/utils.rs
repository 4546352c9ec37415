use vstd::prelude::*;
use crate::state::{keys_equal, Identity};

verus! {

/// Whether an account that signed (or not) under `key` is the signer `pubkey`.
pub fn is_signer(signed: bool, key: &Identity, pubkey: &Identity) -> (r: bool)
    ensures
        r == (signed && key@ == pubkey@),
{
    signed && keys_equal(key, pubkey)
}

} // verus!
