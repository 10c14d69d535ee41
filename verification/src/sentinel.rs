//! The status convention of the boundary: every fallible entry point answers
//! through an integer, zero for success and anything else for failure. The
//! functions here turn such codes into typed results, so that no raw code
//! travels further up.

use vstd::prelude::*;

verus! {

/// Whether a status code stands for success.
pub open spec fn is_success(status: i32) -> bool {
    status == 0
}

/// What an integer lookup yields: the slot's value when the call signalled
/// success, nothing otherwise. On failure the slot is never looked at.
pub open spec fn lookup_result(status: i32, slot: i32) -> Option<i32> {
    if is_success(status) {
        Some(slot)
    } else {
        None
    }
}

/// Tells success from failure.
pub fn succeeded(status: i32) -> (ok: bool)
    ensures
        ok == is_success(status),
{
    status == 0
}

/// Decodes the answer of an integer lookup from its status code and the
/// slot that the call was given to fill.
pub fn int_result(status: i32, slot: i32) -> (value: Option<i32>)
    ensures
        value == lookup_result(status, slot),
{
    if succeeded(status) {
        Some(slot)
    } else {
        None
    }
}

/// The outcome of parsing a token as a boolean. A token that is no boolean
/// at all is its own outcome, apart from both truth values.
#[derive(Clone, Copy, Debug, PartialEq, Eq, Structural)]
pub enum MaybeBool {
    True,
    False,
    Unrecognized,
}

impl MaybeBool {
    /// The outcome that a code of the boolean-token parser stands for:
    /// 1 is true, 0 is false, and -1 marks a token that was not recognised.
    pub open spec fn of_code(code: i32) -> MaybeBool {
        if code == 1 {
            MaybeBool::True
        } else if code == 0 {
            MaybeBool::False
        } else {
            MaybeBool::Unrecognized
        }
    }

    /// Whether `code` is one of the three codes that the parser returns.
    pub open spec fn is_code(code: i32) -> bool {
        code == 1 || code == 0 || code == -1
    }

    /// Decodes the parser's result code.
    pub fn from_code(code: i32) -> (outcome: MaybeBool)
        requires
            MaybeBool::is_code(code),
        ensures
            outcome == MaybeBool::of_code(code),
    {
        if code == 1 {
            MaybeBool::True
        } else if code == 0 {
            MaybeBool::False
        } else {
            MaybeBool::Unrecognized
        }
    }
}

} // verus!
