//! The two ends of a wait call: what is handed to the operating system, and
//! what its return value means.
//!
//! A wait call takes a pointer for each of the three descriptor sets and one
//! for the timeout. The null pointer in the place of a set says that this
//! kind of readiness is not watched at all, which is not the same as watching
//! an empty set; in the place of the timeout it says that the wait has no
//! limit. Callers of this library say the same with `None`, and only here
//! does `None` become the null pointer.
//!
//! The call itself blocks the calling thread and is made by the caller. It
//! returns the number of ready descriptors, or `-1` after a failure.

use crate::fd_set::FdSet;
use vstd::prelude::*;

verus! {

/// The return value by which a wait call reports a failure.
pub const FAILED: i32 = -1;

/// What stands in one argument slot of a wait call.
#[derive(Debug)]
pub enum Ptr<T> {
    /// The null pointer: nothing is handed over.
    Null,
    /// A pointer to a value.
    To(T),
}

impl<T> Ptr<T> {
    /// Whether this is the null pointer.
    pub open spec fn is_null(&self) -> bool {
        self is Null
    }
}

/// The pointer to hand over for a value that a wait call only reads: the
/// null pointer for `None`, else a pointer to the value.
pub fn to_ptr<T>(opt: Option<&T>) -> (p: Ptr<&T>)
    ensures
        p.is_null() <==> opt is None,
        opt matches Some(value) ==> p == Ptr::To(value),
{
    match opt {
        None => Ptr::Null,
        Some(value) => Ptr::To(value),
    }
}

/// The pointer to hand over for a descriptor set: the null pointer for
/// `None`, else a pointer to the bitmap of the set. The wait call rewrites
/// the bitmap in place, and what it has written is the set afterwards.
pub fn to_fdset_ptr(opt: Option<&mut FdSet>) -> (p: Ptr<&mut [u64; 16]>)
    ensures
        p.is_null() <==> opt is None,
        opt matches Some(set) ==> (p matches Ptr::To(words) && *words == set.words()
            && final(set).words() == *final(words)),
{
    match opt {
        None => Ptr::Null,
        Some(set) => Ptr::To(set.words_mut()),
    }
}

/// The failure of a wait call, with the error code of the operating system.
#[derive(Clone, Copy, Debug, PartialEq, Eq, Structural)]
pub struct OsError {
    pub code: i32,
}

/// What a wait call that returned `ret` has to say, where `errno` is the
/// error code that the operating system left behind.
pub open spec fn outcome_of(ret: i32, errno: i32) -> Result<usize, OsError> {
    if ret == FAILED {
        Err(OsError { code: errno })
    } else {
        Ok(ret as usize)
    }
}

/// The outcome of a wait call from its return value `ret` and the error code
/// `errno` that was current when it returned.
///
/// `-1` is the failure with code `errno`. Any other value is the number of
/// descriptors that are ready in all sets together, and `0` says that the
/// time ran out with none of them ready; `errno` then counts for nothing.
/// No wait call returns less than `-1`; such a value is handed on as the
/// unsigned number with the same bits.
pub fn wait_outcome(ret: i32, errno: i32) -> (outcome: Result<usize, OsError>)
    ensures
        outcome == outcome_of(ret, errno),
        outcome is Err <==> ret == FAILED,
        ret >= 0 ==> outcome == Ok::<usize, OsError>(ret as usize) && ret as usize == ret,
{
    if ret == FAILED {
        Err(OsError { code: errno })
    } else {
        Ok(ret as usize)
    }
}

} // verus!
