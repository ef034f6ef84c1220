use vstd::prelude::*;

use crate::error::{error_from_code, Error, Result};

verus! {

/// How a name matched one of the session's pattern lists.
#[derive(Debug, Clone, Copy, PartialEq, Eq, Structural)]
pub enum Match {
    /// The name matched a pattern.
    Yes,
    /// The name matched no pattern.
    No,
    /// The name matched a negated pattern.
    Inverted,
}

/// Whether a native return code reports success.
pub open spec fn ret_is_ok(ret: i32) -> bool {
    ret == 0
}

/// Turns the integer that a native mutating call returned into a typed
/// result: zero is success; any other value is the error whose code the
/// session reported (`errno`).
pub fn check_ret(ret: i32, errno: i32) -> (r: Result<()>)
    ensures
        ret_is_ok(ret) <==> r is Ok,
        !ret_is_ok(ret) ==> r == Err::<(), Error>(error_from_code(errno)),
{
    if ret == 0 {
        Ok(())
    } else {
        Err(Error::from_code(errno))
    }
}

/// Decodes the three outcomes of removing an entry from a managed list:
/// one means the entry was there and is gone, zero that it was not there,
/// any other value an error whose code the session reported (`errno`).
pub fn remove_from_native(ret: i32, errno: i32) -> (r: Result<bool>)
    ensures
        ret == 1 ==> r == Ok::<bool, Error>(true),
        ret == 0 ==> r == Ok::<bool, Error>(false),
        ret != 0 && ret != 1 ==> r == Err::<bool, Error>(error_from_code(errno)),
{
    if ret == 1 {
        Ok(true)
    } else {
        match check_ret(ret, errno) {
            Ok(()) => Ok(false),
            Err(e) => Err(e),
        }
    }
}

/// Decodes the result of matching a name against a pattern list: zero is a
/// match, a positive value a match of a negated pattern, a negative value no
/// match.
pub fn match_from_native(ret: i32) -> (m: Match)
    ensures
        ret == 0 <==> m == Match::Yes,
        ret > 0 <==> m == Match::Inverted,
        ret < 0 <==> m == Match::No,
{
    if ret == 0 {
        Match::Yes
    } else if ret > 0 {
        Match::Inverted
    } else {
        Match::No
    }
}

} // verus!
