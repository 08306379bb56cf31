use vstd::prelude::*;

use crate::errors::KeeprError;
use crate::identity::Identity;

verus! {

/// Where the stored admin identity begins in a raw config record: the record
/// opens with an eight-byte type tag.
pub const CONFIG_ADMIN_OFFSET: usize = 8;

/// Shortest raw config record that still holds the admin identity: the
/// eight-byte tag followed by the 32 admin bytes.
pub const CONFIG_MIN_LEN: usize = 40;

/// The raw bytes name `admin` as the record's owner: the record is long
/// enough, and the 32 bytes after the tag are the caller's identity.
pub open spec fn legacy_admin_matches(data: Seq<u8>, admin: Identity) -> bool {
    &&& data.len() >= CONFIG_MIN_LEN
    &&& data.subrange(CONFIG_ADMIN_OFFSET as int, CONFIG_MIN_LEN as int) == admin@
}

/// The emergency escape hatch for schema migrations: decides, from the raw
/// bytes of a possibly outdated config record, whether `admin` owns it and the
/// record may be retired. Only the declared byte layout above is read — tag,
/// then admin — so the decision survives schema changes behind that prefix.
/// Any refusal reports `InvalidAmount`, as the normal validation never ran.
/// On acceptance the host reclaims the record's storage to the admin.
pub fn close_config(config_data: &Vec<u8>, admin: Identity) -> (r: Result<(), KeeprError>)
    ensures
        r is Ok <==> legacy_admin_matches(config_data@, admin),
        r is Err ==> r->Err_0 == KeeprError::InvalidAmount,
{
    if config_data.len() < CONFIG_MIN_LEN {
        return Err(KeeprError::InvalidAmount);
    }
    let mut i: usize = 0;
    while i < 32
        invariant
            i <= 32,
            config_data@.len() >= CONFIG_MIN_LEN,
            forall|j: int| 0 <= j < i ==> config_data@[CONFIG_ADMIN_OFFSET + j] == admin@[j],
        decreases 32 - i,
    {
        if config_data[CONFIG_ADMIN_OFFSET + i] != admin[i] {
            return Err(KeeprError::InvalidAmount);
        }
        i += 1;
    }
    proof {
        assert(config_data@.subrange(CONFIG_ADMIN_OFFSET as int, CONFIG_MIN_LEN as int)
            =~= admin@);
    }
    Ok(())
}

} // verus!
