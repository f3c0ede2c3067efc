//! The creation flags of `memfd_create(2)`, as the `nix` crate holds them.
//!
//! `nix` keeps the flags in a `bitflags` type, [`MFdFlags`]. Nothing inside such
//! a value is visible to Verus, so this module names the bits that a value
//! holds ([`flag_bits`]) and states, for each operation of the type that the
//! builder uses, what it does to those bits. These statements are taken from
//! the sources of `nix`, `bitflags` and `libc`; they are believed, not proved.

use nix::sys::memfd::MFdFlags;
use vstd::prelude::*;

verus! {

/// Makes `nix::sys::memfd::MFdFlags` known to Verus, as a type whose inside
/// it does not see.
#[verifier::external_type_specification]
#[verifier::external_body]
pub struct ExMFdFlags(nix::sys::memfd::MFdFlags);

/// The raw bits that a flag set holds: what `MFdFlags::bits` returns for it.
pub uninterp spec fn flag_bits(flags: MFdFlags) -> u32;

/// `MFdFlags::bits`: the raw bits of a flag set, as the system call takes
/// them.
#[verifier::external_body]
pub(crate) fn bits_of(flags: MFdFlags) -> (bits: u32)
    ensures
        bits == flag_bits(flags),
{
    flags.bits()
}

/// Bit of the close-on-exec flag, `MFD_CLOEXEC`.
pub const CLOEXEC_BIT: u32 = 0x0001;

/// Bit of the flag that allows sealing, `MFD_ALLOW_SEALING`.
pub const ALLOW_SEALING_BIT: u32 = 0x0002;

/// `MFdFlags::empty()`: a flag set with no bit set.
#[verifier::external_body]
pub(crate) fn empty_flags() -> (flags: MFdFlags)
    ensures
        flag_bits(flags) == 0,
{
    MFdFlags::empty()
}

/// `MFdFlags::MFD_CLOEXEC`: the flag set that holds the close-on-exec bit and
/// no other. `nix` takes the bit from `libc::MFD_CLOEXEC`, which is `0x0001`
/// on every target that has `memfd_create`.
#[verifier::external_body]
pub(crate) fn cloexec_flag() -> (flags: MFdFlags)
    ensures
        flag_bits(flags) == CLOEXEC_BIT,
{
    MFdFlags::MFD_CLOEXEC
}

/// `MFdFlags::MFD_ALLOW_SEALING`: the flag set that holds the sealing bit and
/// no other. `nix` takes the bit from `libc::MFD_ALLOW_SEALING`, which is
/// `0x0002` on every target that has `memfd_create`.
#[verifier::external_body]
pub(crate) fn allow_sealing_flag() -> (flags: MFdFlags)
    ensures
        flag_bits(flags) == ALLOW_SEALING_BIT,
{
    MFdFlags::MFD_ALLOW_SEALING
}

/// `MFdFlags::insert`: the union of both sets. Every bit of `other` is set
/// afterwards and every other bit is as it was.
#[verifier::external_body]
pub(crate) fn insert_flags(flags: &mut MFdFlags, other: MFdFlags)
    ensures
        flag_bits(*final(flags)) == flag_bits(*old(flags)) | flag_bits(other),
{
    flags.insert(other)
}

/// `MFdFlags::remove`: the difference of both sets. Every bit of `other` is
/// clear afterwards and every other bit is as it was.
#[verifier::external_body]
pub(crate) fn remove_flags(flags: &mut MFdFlags, other: MFdFlags)
    ensures
        flag_bits(*final(flags)) == flag_bits(*old(flags)) & !flag_bits(other),
{
    flags.remove(other)
}

} // verus!
