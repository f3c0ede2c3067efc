//! Names of anonymous files.
//!
//! The kernel takes the name as a C string: the bytes of the name followed by
//! one terminating zero byte. A name that itself holds a zero byte cannot be
//! passed on and is rejected here, before any system call is attempted.

use vstd::prelude::*;

verus! {

/// Whether `name` holds a zero byte.
pub open spec fn has_nul(name: Seq<u8>) -> bool {
    exists|i: int| 0 <= i < name.len() && name[i] == 0u8
}

/// Whether `at` is the position of the first zero byte of `name`.
pub open spec fn is_first_nul(name: Seq<u8>, at: int) -> bool {
    &&& 0 <= at < name.len()
    &&& name[at] == 0u8
    &&& forall|j: int| 0 <= j < at ==> name[j] != 0u8
}

/// The C string for `name`: its bytes, then the terminator.
pub open spec fn c_string(name: Seq<u8>) -> Seq<u8> {
    name.push(0u8)
}

/// A name was rejected because it holds a zero byte.
#[derive(Clone, Copy, Debug, PartialEq, Eq)]
pub struct NulError {
    /// Where the first zero byte stands in the name.
    pub position: usize,
}

/// Turns `name` into a C string, or says where its first zero byte stands.
pub fn to_c_string(name: &[u8]) -> (r: Result<Vec<u8>, NulError>)
    ensures
        r is Ok <==> !has_nul(name@),
        match r {
            Ok(c) => c@ == c_string(name@),
            Err(e) => is_first_nul(name@, e.position as int),
        },
{
    let mut c: Vec<u8> = Vec::new();
    let mut i: usize = 0;
    while i < name.len()
        invariant
            i <= name.len(),
            c@ == name@.subrange(0, i as int),
            forall|j: int| 0 <= j < i ==> name@[j] != 0u8,
        decreases name.len() - i,
    {
        let b: u8 = name[i];
        if b == 0 {
            return Err(NulError { position: i });
        }
        c.push(b);
        assert(c@ == name@.subrange(0, i + 1));
        i += 1;
    }
    assert(name@.subrange(0, i as int) == name@);
    c.push(0);
    Ok(c)
}

} // verus!
