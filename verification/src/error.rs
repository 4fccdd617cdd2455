use vstd::prelude::*;

verus! {

/// The error taxonomy of this library.
///
/// `NoHomeDir` comes from home-style resolution when the variable yields no
/// usable value and no home directory is known. The remaining variants come
/// from runtime-directory validation: `Io` stands for a failed metadata read,
/// `IncorrectPermissions` and `IncorrectOwner` for the two security checks,
/// and `InvalidPath` for a path that cannot be handed to the ownership
/// syscall.
#[derive(Clone, Copy, Debug, PartialEq, Eq, Structural)]
pub enum XdgError {
    NoHomeDir,
    Io,
    IncorrectPermissions,
    IncorrectOwner,
    InvalidPath,
}

} // verus!
