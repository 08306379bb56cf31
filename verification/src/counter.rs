use vstd::prelude::*;

verus! {

/// The per-creator vault-id allocator: one monotonic counter per creator,
/// created lazily at that creator's first vault and never deleted. Ids start
/// at one and are issued without gaps or reuse.
pub struct VaultCounter {
    pub last_id: u64,
}

/// One successful allocation: the issued id is the successor of the stored
/// one, and the counter commits to it. A failed vault creation never
/// advances the counter.
pub open spec fn counter_advance(pre: VaultCounter, id: u64, post: VaultCounter) -> bool {
    &&& pre.last_id < u64::MAX
    &&& id == pre.last_id + 1
    &&& post.last_id == id
}

} // verus!
