use vstd::prelude::*;

verus! {

/// Execute permission bits for owner, group and others.
pub const EXECUTE_BITS: u32 = 0o111;

/// Read, write and execute permission bits for the owner.
pub const OWNER_RWX: u32 = 0o700;

/// What a `stat` of a path reports that matters for executability.
///
/// `mode` is `None` on systems without POSIX permission bits.
#[derive(Clone, Copy, Debug, PartialEq, Eq)]
pub struct FileMeta {
    pub is_file: bool,
    pub mode: Option<u32>,
}

/// A path is executable when it names a regular file and, where the system
/// has permission bits, at least one execute bit is set.
pub open spec fn spec_is_executable(meta: Option<FileMeta>) -> bool {
    match meta {
        None => false,
        Some(m) => m.is_file && match m.mode {
            None => true,
            Some(mode) => mode & EXECUTE_BITS != 0,
        },
    }
}

/// Decides executability from the result of a `stat`; a failed `stat`
/// (`None`) means "not executable".
pub fn is_executable(meta: Option<FileMeta>) -> (r: bool)
    ensures
        r == spec_is_executable(meta),
{
    match meta {
        None => false,
        Some(m) => m.is_file && match m.mode {
            None => true,
            Some(mode) => mode & EXECUTE_BITS != 0,
        },
    }
}

/// The permission mode after adding owner read, write and execute to `mode`;
/// `None` (no permission bits on this system) stays `None`.
pub open spec fn spec_with_owner_rwx(mode: Option<u32>) -> Option<u32> {
    match mode {
        None => None,
        Some(m) => Some(m | OWNER_RWX),
    }
}

/// Computes the mode that makes a file executable: the existing bits are kept
/// and the owner's read, write and execute bits are added.
pub fn make_executable(mode: Option<u32>) -> (r: Option<u32>)
    ensures
        r == spec_with_owner_rwx(mode),
        mode is None <==> r is None,
        mode is Some ==> r->0 & mode->0 == mode->0,
        mode is Some ==> r->0 & OWNER_RWX == OWNER_RWX,
{
    match mode {
        None => None,
        Some(m) => {
            let r = m | OWNER_RWX;
            assert(r & m == m && r & OWNER_RWX == OWNER_RWX) by (bit_vector)
                requires
                    r == m | 0o700u32,
                    OWNER_RWX == 0o700u32,
            ;
            Some(r)
        },
    }
}

/// A plain file without execute bits is not executable; once owner read,
/// write and execute are added it is; adding them again changes nothing; and
/// no bit that was set before is cleared.
pub proof fn lemma_make_executable(mode: u32)
    ensures
        mode & EXECUTE_BITS == 0 ==> !spec_is_executable(
            Some(FileMeta { is_file: true, mode: Some(mode) }),
        ),
        spec_is_executable(
            Some(FileMeta { is_file: true, mode: spec_with_owner_rwx(Some(mode)) }),
        ),
        spec_with_owner_rwx(spec_with_owner_rwx(Some(mode))) == spec_with_owner_rwx(Some(mode)),
        spec_with_owner_rwx(Some(mode))->0 & mode == mode,
{
    let r = mode | OWNER_RWX;
    assert((r & EXECUTE_BITS != 0) && ((r | OWNER_RWX) == r) && (r & mode == mode)) by (bit_vector)
        requires
            r == mode | 0o700u32,
            OWNER_RWX == 0o700u32,
            EXECUTE_BITS == 0o111u32,
    ;
}

} // verus!
