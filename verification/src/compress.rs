//! The free-space check before compacting a distribution's disk.

use vstd::prelude::*;

verus! {

/// The room kept free beyond the disk's size for the backup: 2 GiB.
pub const BACKUP_MARGIN_BYTES: u64 = 2147483648;

/// Enough free space for the backup: more than the disk's size in bytes
/// plus the margin.
pub fn space_sufficient(free_bytes: u64, vhdx_bytes: u64) -> (r: bool)
    ensures
        r == (free_bytes > vhdx_bytes + BACKUP_MARGIN_BYTES),
{
    let needed: u128 = (vhdx_bytes as u128) + (BACKUP_MARGIN_BYTES as u128);
    (free_bytes as u128) > needed
}

} // verus!
