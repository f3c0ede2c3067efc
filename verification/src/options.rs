//! The options builder and the arguments that it assembles.

use crate::flags::{
    allow_sealing_flag, bits_of, cloexec_flag, empty_flags, flag_bits, insert_flags,
    remove_flags, ALLOW_SEALING_BIT, CLOEXEC_BIT,
};
use crate::name::{c_string, has_nul, is_first_nul, to_c_string, NulError};
use nix::sys::memfd::MFdFlags;
use vstd::prelude::*;

verus! {

/// What a builder holds: two options, each on or off, neither bound to the
/// other.
pub struct Toggles {
    /// Sealing operations will be allowed on the file.
    pub allow_sealing: bool,
    /// The descriptor will be closed when the process image is replaced.
    pub close_on_exec: bool,
}

impl Toggles {
    /// Both options off.
    pub open spec fn none() -> Toggles {
        Toggles { allow_sealing: false, close_on_exec: false }
    }

    /// These options, with sealing set to `on`.
    pub open spec fn with_allow_sealing(self, on: bool) -> Toggles {
        Toggles { allow_sealing: on, close_on_exec: self.close_on_exec }
    }

    /// These options, with close-on-exec set to `on`.
    pub open spec fn with_close_on_exec(self, on: bool) -> Toggles {
        Toggles { allow_sealing: self.allow_sealing, close_on_exec: on }
    }

    /// The flag bitmask that the system call is handed for these options.
    pub open spec fn mask(self) -> u32 {
        (if self.close_on_exec { CLOEXEC_BIT } else { 0u32 })
            | (if self.allow_sealing { ALLOW_SEALING_BIT } else { 0u32 })
    }
}

/// Options and flags which configure how an anonymous file is created.
pub struct OpenOptions(MFdFlags);

/// The arguments of one `memfd_create(2)` call.
#[derive(Debug)]
pub struct CreateArgs {
    /// The name of the file as a C string: no zero byte but the last.
    pub name: Vec<u8>,
    /// The bitmask of the creation flags.
    pub flags: u32,
}

impl View for OpenOptions {
    type V = Toggles;

    closed spec fn view(&self) -> Toggles {
        Toggles {
            allow_sealing: flag_bits(self.0) & ALLOW_SEALING_BIT != 0,
            close_on_exec: flag_bits(self.0) & CLOEXEC_BIT != 0,
        }
    }
}

impl OpenOptions {
    /// No bit is ever set but those of the two options.
    #[verifier::type_invariant]
    spec fn only_known_bits(self) -> bool {
        flag_bits(self.0) & !(CLOEXEC_BIT | ALLOW_SEALING_BIT) == 0
    }

    /// Creates a blank new set of options ready for configuration.
    ///
    /// All options are initially set to `false`.
    pub fn new() -> (options: OpenOptions)
        ensures
            options@ == Toggles::none(),
    {
        let flags = empty_flags();
        assert(0u32 & !(1u32 | 2u32) == 0 && 0u32 & 1u32 == 0 && 0u32 & 2u32 == 0)
            by (bit_vector);
        OpenOptions(flags)
    }

    /// Allows or forbids sealing operations on the file, and leaves the other
    /// option as it is. Returns the same builder, for chaining.
    pub fn allow_sealing(&mut self, allow_sealing: bool) -> (options: &mut OpenOptions)
        ensures
            options@ == old(self)@.with_allow_sealing(allow_sealing),
            *final(self) == *final(options),
    {
        proof {
            use_type_invariant(&*self);
        }
        let mut flags = self.0;
        let ghost before = flag_bits(flags);
        if allow_sealing {
            insert_flags(&mut flags, allow_sealing_flag());
        } else {
            remove_flags(&mut flags, allow_sealing_flag());
        }
        let ghost after = flag_bits(flags);
        assert(after & !(1u32 | 2u32) == 0 && after & 1u32 == before & 1u32 && (after & 2u32 != 0
            <==> allow_sealing)) by (bit_vector)
            requires
                before & !(1u32 | 2u32) == 0,
                after == if allow_sealing {
                    before | 2u32
                } else {
                    before & !2u32
                },
        ;
        self.0 = flags;
        self
    }

    /// Sets or clears the close-on-exec flag of the new descriptor, and leaves
    /// the other option as it is. Returns the same builder, for chaining.
    pub fn close_on_exec(&mut self, cloexec: bool) -> (options: &mut OpenOptions)
        ensures
            options@ == old(self)@.with_close_on_exec(cloexec),
            *final(self) == *final(options),
    {
        proof {
            use_type_invariant(&*self);
        }
        let mut flags = self.0;
        let ghost before = flag_bits(flags);
        if cloexec {
            insert_flags(&mut flags, cloexec_flag());
        } else {
            remove_flags(&mut flags, cloexec_flag());
        }
        let ghost after = flag_bits(flags);
        assert(after & !(1u32 | 2u32) == 0 && after & 2u32 == before & 2u32 && (after & 1u32 != 0
            <==> cloexec)) by (bit_vector)
            requires
                before & !(1u32 | 2u32) == 0,
                after == if cloexec {
                    before | 1u32
                } else {
                    before & !1u32
                },
        ;
        self.0 = flags;
        self
    }

    /// Assembles the arguments for creating an anonymous file called `name`
    /// with the options specified by `self`.
    ///
    /// A name that holds a zero byte is rejected. Every other name is accepted:
    /// it comes back as a C string, together with the bitmask of the options.
    /// Making the system call is left to the caller.
    pub fn create(&self, name: &[u8]) -> (r: Result<CreateArgs, NulError>)
        ensures
            r is Ok <==> !has_nul(name@),
            match r {
                Ok(args) => args.name@ == c_string(name@) && args.flags == self@.mask(),
                Err(e) => is_first_nul(name@, e.position as int),
            },
    {
        match to_c_string(name) {
            Ok(c) => {
                proof {
                    use_type_invariant(self);
                    let bits = flag_bits(self.0);
                    assert(bits == (if bits & 1u32 != 0 {
                        1u32
                    } else {
                        0u32
                    }) | (if bits & 2u32 != 0 {
                        2u32
                    } else {
                        0u32
                    })) by (bit_vector)
                        requires
                            bits & !(1u32 | 2u32) == 0,
                    ;
                }
                Ok(CreateArgs { name: c, flags: bits_of(self.0) })
            },
            Err(e) => Err(e),
        }
    }
}

/// A toggle set twice holds what it was set to last: a value that was set
/// before leaves no trace. So enabling an option and then disabling it gives
/// what disabling it alone gives, and setting it to the same value again
/// changes nothing.
pub proof fn lemma_last_setting_wins(t: Toggles, first: bool, last: bool)
    ensures
        t.with_allow_sealing(first).with_allow_sealing(last) == t.with_allow_sealing(last),
        t.with_close_on_exec(first).with_close_on_exec(last) == t.with_close_on_exec(last),
        t.with_allow_sealing(last).with_allow_sealing(last) == t.with_allow_sealing(last),
        t.with_close_on_exec(last).with_close_on_exec(last) == t.with_close_on_exec(last),
{
}

/// Enabling an option that was off and disabling it again gives back the
/// options as they were, whatever the other option is.
pub proof fn lemma_enable_then_disable_restores(t: Toggles)
    ensures
        !t.allow_sealing ==> t.with_allow_sealing(true).with_allow_sealing(false) == t,
        !t.close_on_exec ==> t.with_close_on_exec(true).with_close_on_exec(false) == t,
{
}

/// The two toggles are independent: setting one leaves the other as it was,
/// and the order in which both are set does not matter.
pub proof fn lemma_toggles_independent(t: Toggles, sealing: bool, cloexec: bool)
    ensures
        t.with_allow_sealing(sealing).close_on_exec == t.close_on_exec,
        t.with_close_on_exec(cloexec).allow_sealing == t.allow_sealing,
        t.with_allow_sealing(sealing).with_close_on_exec(cloexec) == t.with_close_on_exec(
            cloexec,
        ).with_allow_sealing(sealing),
{
}

/// The bitmask holds the bit of each option that is on and no other bit, so
/// the options can be read back from it.
pub proof fn lemma_mask_bits(t: Toggles)
    ensures
        t.mask() & CLOEXEC_BIT != 0 <==> t.close_on_exec,
        t.mask() & ALLOW_SEALING_BIT != 0 <==> t.allow_sealing,
        t.mask() & !(CLOEXEC_BIT | ALLOW_SEALING_BIT) == 0,
        t.mask() == match (t.close_on_exec, t.allow_sealing) {
            (false, false) => 0u32,
            (true, false) => 1u32,
            (false, true) => 2u32,
            (true, true) => 3u32,
        },
{
    assert(0u32 | 0u32 == 0u32 && 1u32 | 0u32 == 1u32 && 0u32 | 2u32 == 2u32 && 1u32 | 2u32
        == 3u32) by (bit_vector);
    assert(0u32 & 1u32 == 0 && 1u32 & 1u32 != 0 && 2u32 & 1u32 == 0 && 3u32 & 1u32 != 0)
        by (bit_vector);
    assert(0u32 & 2u32 == 0 && 1u32 & 2u32 == 0 && 2u32 & 2u32 != 0 && 3u32 & 2u32 != 0)
        by (bit_vector);
    assert(0u32 & !(1u32 | 2u32) == 0 && 1u32 & !(1u32 | 2u32) == 0 && 2u32 & !(1u32 | 2u32) == 0
        && 3u32 & !(1u32 | 2u32) == 0) by (bit_vector);
}

} // verus!
