//! What the operating system reports about secure execution, and how each
//! kind of report maps to a boolean.

use vstd::prelude::*;

verus! {

/// The auxiliary-vector key of the "secure" entry on Linux.
pub const AT_SECURE: u64 = 23;

/// One reading of the operating system's privilege state, in the form the
/// platform offers it.
pub enum ProbeReading {
    /// The value of the auxiliary vector's `AT_SECURE` entry (Linux).
    Auxv(u64),
    /// The return value of `issetugid()` (the BSDs, macOS, Solaris, illumos).
    SetUgid(i32),
    /// The effective and real user and group IDs (any other platform).
    Ids { euid: u32, uid: u32, egid: u32, gid: u32 },
}

/// Whether a reading says that secure execution is active.
pub open spec fn reading_is_secure(r: ProbeReading) -> bool {
    match r {
        ProbeReading::Auxv(v) => v != 0,
        ProbeReading::SetUgid(v) => v != 0,
        ProbeReading::Ids { euid, uid, egid, gid } => euid != uid || egid != gid,
    }
}

/// Maps a reading of the operating system to the secure-execution flag.
///
/// The answer depends on the reading alone: two readings of an unchanged
/// privilege state give the same answer.
pub fn is_secure_reading(r: &ProbeReading) -> (secure: bool)
    ensures
        secure == reading_is_secure(*r),
{
    match r {
        ProbeReading::Auxv(v) => *v != 0,
        ProbeReading::SetUgid(v) => *v != 0,
        ProbeReading::Ids { euid, uid, egid, gid } => *euid != *uid || *egid != *gid,
    }
}

/// An unchanged privilege state gives an unchanged answer: two readings that
/// agree map to the same flag.
pub proof fn lemma_probe_stable(a: ProbeReading, b: ProbeReading)
    requires
        a == b,
    ensures
        reading_is_secure(a) == reading_is_secure(b),
{
}

/// On the ID-comparison fallback, an effective user ID that differs from the
/// real one means secure execution, and equal user and group IDs mean none.
pub proof fn lemma_ids_fallback(r: ProbeReading)
    requires
        r is Ids,
    ensures
        r->euid != r->uid ==> reading_is_secure(r),
        r->egid != r->gid ==> reading_is_secure(r),
        r->euid == r->uid && r->egid == r->gid ==> !reading_is_secure(r),
{
}

} // verus!
