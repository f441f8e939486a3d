use vstd::prelude::*;

use crate::error::{Error, Result};

verus! {

/// The outcome of the free-VT query, given the number that the kernel wrote
/// back: a negative number means that no virtual terminal is free.
pub fn free_vt_number(num: i32) -> (r: Result<u32>)
    ensures
        num < 0 ==> r matches Err(Error::VtInUse),
        num >= 0 ==> r == Ok::<u32, Error>(num as u32),
{
    if num < 0 {
        Err(Error::VtInUse)
    } else {
        Ok(num as u32)
    }
}

} // verus!
