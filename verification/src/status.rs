//! The working-tree status of a path and the staging policy over it.

use vstd::prelude::*;

verus! {

/// Bit of a working-tree status that marks a file new to the working tree.
pub const WT_NEW: u32 = 128;

/// Bit of a working-tree status that marks a file modified in the working tree.
pub const WT_MODIFIED: u32 = 256;

/// Bit of a working-tree status that marks a file deleted from the working tree.
pub const WT_DELETED: u32 = 512;

/// Answer to the index for a path that is to be added or updated.
pub const VERDICT_ADD: i32 = 0;

/// Answer to the index for a path that is to be left as it is.
pub const VERDICT_SKIP: i32 = 1;

/// Answer to the index that ends the scan with an error. It is the code
/// that the repository library keeps for failures raised by its caller, so
/// that a scan ended by this answer can be told from one that failed by itself.
pub const VERDICT_ABORT: i32 = -7;

/// Whether `bits` has every bit of `flag` set.
pub open spec fn has_flag(bits: u32, flag: u32) -> bool {
    bits & flag == flag
}

/// The staging policy: a path belongs in the next commit exactly when its
/// working-tree status says modified, newly added or deleted.
pub open spec fn is_staged(bits: u32) -> bool {
    has_flag(bits, WT_MODIFIED) || has_flag(bits, WT_NEW) || has_flag(bits, WT_DELETED)
}

/// What the index is told about a path whose status lookup gave `status`:
/// add it, skip it, or, where the lookup failed, give up.
pub open spec fn verdict_of(status: Option<u32>) -> i32 {
    match status {
        Some(bits) => if is_staged(bits) { VERDICT_ADD } else { VERDICT_SKIP },
        None => VERDICT_ABORT,
    }
}

/// Decides whether a path with working-tree status `bits` is staged.
pub fn should_stage(bits: u32) -> (staged: bool)
    ensures
        staged == is_staged(bits),
{
    bits & WT_MODIFIED == WT_MODIFIED || bits & WT_NEW == WT_NEW || bits & WT_DELETED == WT_DELETED
}

/// Answers the index for one matched path, given the outcome of its status
/// lookup (`None` where the status could not be resolved).
pub fn staging_verdict(status: Option<u32>) -> (verdict: i32)
    ensures
        verdict == verdict_of(status),
{
    match status {
        Some(bits) => if should_stage(bits) { VERDICT_ADD } else { VERDICT_SKIP },
        None => VERDICT_ABORT,
    }
}

/// A status with none of the three working-tree bits is never staged, and one
/// with any of them always is, whatever other bits it carries.
pub proof fn lemma_staged_iff_changed(bits: u32)
    ensures
        is_staged(bits) <==> bits & (WT_MODIFIED | WT_NEW | WT_DELETED) != 0,
        !is_staged(0),
        is_staged(WT_MODIFIED) && is_staged(WT_NEW) && is_staged(WT_DELETED),
{
    assert((bits & 256u32 == 256u32 || bits & 128u32 == 128u32 || bits & 512u32 == 512u32) <==> bits
        & (256u32 | 128u32 | 512u32) != 0) by (bit_vector);
    assert(0u32 & 256u32 != 256u32 && 0u32 & 128u32 != 128u32 && 0u32 & 512u32 != 512u32)
        by (bit_vector);
    assert(256u32 & 256u32 == 256u32 && 128u32 & 128u32 == 128u32 && 512u32 & 512u32 == 512u32)
        by (bit_vector);
}

/// The answer to the index follows the three working-tree bits alone: it is
/// "add" exactly for a staged status and "skip" for every other, whatever
/// further bits the status carries, and a status that was resolved never
/// ends the scan.
pub proof fn lemma_verdict_follows_three_bits(bits: u32)
    ensures
        verdict_of(Some(bits)) == VERDICT_ADD <==> is_staged(bits),
        verdict_of(Some(bits)) == VERDICT_SKIP <==> !is_staged(bits),
        verdict_of(Some(bits)) >= 0,
        is_staged(bits) == is_staged(bits & (WT_MODIFIED | WT_NEW | WT_DELETED)),
{
    let kept = bits & (256u32 | 128u32 | 512u32);
    assert(kept & 256u32 == bits & 256u32 && kept & 128u32 == bits & 128u32 && kept & 512u32 == bits
        & 512u32) by (bit_vector)
        requires
            kept == bits & (256u32 | 128u32 | 512u32),
    ;
}

} // verus!
