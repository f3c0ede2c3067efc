//! Verified core of a convenience layer over `memfd_create(2)`.
//!
//! `memfd_create` creates an anonymous file and returns a file descriptor that
//! refers to it. The file behaves like a regular file, and so can be modified,
//! truncated, memory-mapped, and so on.
//!
//! This crate holds what is decided before the system call is made: which
//! creation flags are set, and whether the name can be handed to the kernel.
//! [`OpenOptions`] accumulates the flags, and [`create`] turns a name and the
//! flags into the arguments of the call.

pub mod flags;
pub mod name;
pub mod options;

pub use name::NulError;
pub use options::{CreateArgs, OpenOptions, Toggles};

use name::{c_string, has_nul, is_first_nul};
use vstd::prelude::*;

verus! {

/// Assembles the arguments for creating an anonymous file called `name` with
/// no option set.
pub fn create(name: &[u8]) -> (r: Result<CreateArgs, NulError>)
    ensures
        r is Ok <==> !has_nul(name@),
        match r {
            Ok(args) => args.name@ == c_string(name@) && args.flags == 0,
            Err(e) => is_first_nul(name@, e.position as int),
        },
{
    let options = OpenOptions::new();
    assert(0u32 | 0u32 == 0u32) by (bit_vector);
    options.create(name)
}

} // verus!
