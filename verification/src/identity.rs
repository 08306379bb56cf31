use vstd::prelude::*;

verus! {

/// An account identity: an opaque 32-byte key. The core never interprets the
/// bytes; it only stores identities and compares them for equality.
pub type Identity = [u8; 32];

/// Equality of two identities, stated over their byte views.
pub open spec fn id_is(a: Identity, b: Identity) -> bool {
    a@ == b@
}

/// Membership of an identity in a list, stated over byte views.
pub open spec fn ids_have(ws: Seq<Identity>, k: Identity) -> bool {
    exists|i: int| 0 <= i < ws.len() && ws[i]@ == k@
}

/// Byte-for-byte comparison of two identities.
pub fn id_eq(a: &Identity, b: &Identity) -> (r: bool)
    ensures
        r == id_is(*a, *b),
{
    let mut i: usize = 0;
    while i < 32
        invariant
            i <= 32,
            forall|j: int| 0 <= j < i ==> a@[j] == b@[j],
        decreases 32 - i,
    {
        if a[i] != b[i] {
            return false;
        }
        i += 1;
    }
    proof {
        assert(a@ =~= b@);
    }
    true
}

/// Linear scan for an identity in a bounded list (the admin allowlist holds
/// at most ten entries, so no indexed structure is called for).
pub fn ids_contains(ws: &Vec<Identity>, k: &Identity) -> (r: bool)
    ensures
        r == ids_have(ws@, *k),
{
    let mut i: usize = 0;
    while i < ws.len()
        invariant
            i <= ws@.len(),
            forall|j: int| 0 <= j < i ==> ws@[j]@ != k@,
        decreases ws@.len() - i,
    {
        if id_eq(&ws[i], k) {
            return true;
        }
        i += 1;
    }
    false
}

} // verus!
