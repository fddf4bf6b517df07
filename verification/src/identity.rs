use vstd::prelude::*;

verus! {

/// A 32-byte identity: a wallet, a server keypair, an execution context or a
/// program identity. Two identities are the same exactly when all 32 bytes
/// agree.
#[derive(Clone, Copy, Debug, PartialEq, Eq)]
#[verifier::ext_equal]
pub struct Identity {
    pub bytes: [u8; 32],
}

/// Byte-for-byte identity comparison: the sole admission rule of the
/// authority gate.
pub fn identity_eq(a: &Identity, b: &Identity) -> (r: bool)
    ensures
        r <==> *a == *b,
{
    let mut i: usize = 0;
    while i < 32
        invariant
            i <= 32,
            forall|j: int| 0 <= j < i ==> a.bytes@[j] == b.bytes@[j],
        decreases 32 - i,
    {
        if a.bytes[i] != b.bytes[i] {
            return false;
        }
        i += 1;
    }
    proof {
        assert(a.bytes@ =~= b.bytes@);
        assert(*a =~= *b);
    }
    true
}

} // verus!
