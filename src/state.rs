use vstd::prelude::*;

verus! {

/// An identity: an opaque 32-byte key, compared byte for byte.
pub type Identity = [u8; 32];

/// The persisted state of one authorization group.
pub struct MultiSig {
    pub owners: Vec<Identity>,
    pub threshold: u8,
    pub approvals: u8,
    pub executed: bool,
}

/// Whether `id` occurs among `owners`, by exact byte comparison.
pub open spec fn is_owner(owners: Seq<Identity>, id: Identity) -> bool {
    exists|i: int| 0 <= i < owners.len() && #[trigger] owners[i]@ == id@
}

/// The configuration that creation accepts.
pub open spec fn valid_config(num_owners: nat, threshold: nat) -> bool {
    1 <= threshold <= num_owners
}

impl MultiSig {
    /// The record's invariant: owners are non-empty, the threshold lies
    /// between one and their number, and an executed action had its approvals.
    pub open spec fn wf(&self) -> bool {
        &&& valid_config(self.owners@.len(), self.threshold as nat)
        &&& (self.executed ==> self.approvals >= self.threshold)
    }

    /// Whether `id` is one of this record's owners.
    pub fn has_owner(&self, id: &Identity) -> (r: bool)
        ensures
            r == is_owner(self.owners@, *id),
    {
        let mut i: usize = 0;
        while i < self.owners.len()
            invariant
                i <= self.owners@.len(),
                forall|j: int| 0 <= j < i ==> self.owners@[j]@ != id@,
            decreases self.owners@.len() - i,
        {
            if keys_equal(&self.owners[i], id) {
                return true;
            }
            i = i + 1;
        }
        false
    }
}

/// Byte-for-byte equality of two identities.
pub fn keys_equal(a: &Identity, b: &Identity) -> (r: bool)
    ensures
        r == (a@ == b@),
{
    let mut i: usize = 0;
    while i < 32
        invariant
            i <= 32,
            a@.len() == 32,
            b@.len() == 32,
            forall|j: int| 0 <= j < i ==> a@[j] == b@[j],
        decreases 32 - i,
    {
        if a[i] != b[i] {
            return false;
        }
        i = i + 1;
    }
    assert(a@ =~= b@);
    true
}

} // verus!
