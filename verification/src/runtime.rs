//! The security checks the base-directory specification demands of
//! `$XDG_RUNTIME_DIR`: the directory must have Unix access mode exactly
//! `0700` and must be owned by the calling user.
//!
//! Reading the directory's metadata and the process's effective user id
//! takes platform syscalls; a caller performs those and hands the plain
//! values in here, where the decision itself is made. A failed metadata
//! read is handed in as `None` and surfaces as the I/O error.

use vstd::prelude::*;

use crate::error::XdgError;

verus! {

/// What a metadata probe of a candidate runtime directory reports: its
/// permission bits and the user id of its owner.
#[derive(Clone, Copy, Debug, PartialEq, Eq, Structural)]
pub struct RuntimeDirMeta {
    pub mode: u32,
    pub owner_uid: u32,
}

/// The outcome of validation: the I/O error when no metadata could be read,
/// `IncorrectPermissions` when the mode is not exactly `0700`,
/// `IncorrectOwner` when the owner is not the calling user, and success
/// only when both checks pass.
pub open spec fn spec_validate_runtime_dir(meta: Option<RuntimeDirMeta>, current_uid: u32) -> Result<
    (),
    XdgError,
> {
    match meta {
        None => Err(XdgError::Io),
        Some(m) => if m.mode != 0o700 {
            Err(XdgError::IncorrectPermissions)
        } else if m.owner_uid != current_uid {
            Err(XdgError::IncorrectOwner)
        } else {
            Ok(())
        },
    }
}

/// A directory with mode exactly `0700` owned by the calling user passes
/// validation.
pub proof fn lemma_validator_accepts(m: RuntimeDirMeta, current_uid: u32)
    requires
        m.mode == 0o700,
        m.owner_uid == current_uid,
    ensures
        spec_validate_runtime_dir(Some(m), current_uid) == Ok::<(), XdgError>(()),
{
}

/// Any mode other than exactly `0700`, more restrictive ones included,
/// fails validation with `IncorrectPermissions`, whoever owns the
/// directory.
pub proof fn lemma_validator_rejects_mode(m: RuntimeDirMeta, current_uid: u32)
    requires
        m.mode != 0o700,
    ensures
        spec_validate_runtime_dir(Some(m), current_uid) == Err::<(), XdgError>(
            XdgError::IncorrectPermissions,
        ),
{
}

/// A directory with the right mode but a different owner fails validation
/// with `IncorrectOwner`.
pub proof fn lemma_validator_rejects_owner(m: RuntimeDirMeta, current_uid: u32)
    requires
        m.mode == 0o700,
        m.owner_uid != current_uid,
    ensures
        spec_validate_runtime_dir(Some(m), current_uid) == Err::<(), XdgError>(
            XdgError::IncorrectOwner,
        ),
{
}

/// A path whose metadata could not be read fails validation with the I/O
/// error, never with a permissions or ownership error.
pub proof fn lemma_validator_requires_metadata(current_uid: u32)
    ensures
        spec_validate_runtime_dir(None, current_uid) == Err::<(), XdgError>(XdgError::Io),
{
}

/// Check that a mode is exactly `0700`: owner read, write and execute, and
/// no other bit set. Any other pattern, however restrictive, fails.
pub fn check_permissions(permissions: u32) -> (r: Result<(), XdgError>)
    ensures
        r == (if permissions == 0o700 {
            Ok::<(), XdgError>(())
        } else {
            Err::<(), XdgError>(XdgError::IncorrectPermissions)
        }),
{
    if permissions == 0o700 {
        Ok(())
    } else {
        Err(XdgError::IncorrectPermissions)
    }
}

/// Check that the directory's owner is the calling user.
pub fn check_owner(owner_uid: u32, current_uid: u32) -> (r: Result<(), XdgError>)
    ensures
        r == (if owner_uid == current_uid {
            Ok::<(), XdgError>(())
        } else {
            Err::<(), XdgError>(XdgError::IncorrectOwner)
        }),
{
    if owner_uid == current_uid {
        Ok(())
    } else {
        Err(XdgError::IncorrectOwner)
    }
}

/// Validate a candidate runtime directory from its metadata, or from the
/// absence of metadata when the probe failed. The permission check runs
/// first, the ownership check second, and both must pass.
pub fn validate_runtime_dir(meta: Option<RuntimeDirMeta>, current_uid: u32) -> (r: Result<
    (),
    XdgError,
>)
    ensures
        r == spec_validate_runtime_dir(meta, current_uid),
{
    match meta {
        None => Err(XdgError::Io),
        Some(m) => {
            match check_permissions(m.mode) {
                Ok(()) => check_owner(m.owner_uid, current_uid),
                Err(e) => Err(e),
            }
        },
    }
}

} // verus!
