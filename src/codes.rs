//! Codes that the caller's callbacks return, and the loop state they stand for.
use vstd::prelude::*;

verus! {

/// What the event loop does once the current event has been handled.
#[derive(PartialEq, Eq, Structural, Clone, Copy, Debug)]
pub enum ReturnCode {
    /// Stop the loop.
    Exit,
    /// Begin the next iteration at once, without blocking.
    POLL,
    /// Block until the next event arrives.
    WAIT,
}

/// A code outside `0..=2`, kept as it was received.
#[derive(PartialEq, Eq, Structural, Clone, Copy, Debug)]
pub struct InvalidCode {
    pub code: u32,
}

/// The state that a code stands for, where it stands for one.
pub open spec fn decode_spec(code: u32) -> Option<ReturnCode> {
    if code == 0 {
        Some(ReturnCode::Exit)
    } else if code == 1 {
        Some(ReturnCode::POLL)
    } else if code == 2 {
        Some(ReturnCode::WAIT)
    } else {
        None
    }
}

/// The code that stands for a state.
pub open spec fn code_of(rc: ReturnCode) -> u32 {
    match rc {
        ReturnCode::Exit => 0,
        ReturnCode::POLL => 1,
        ReturnCode::WAIT => 2,
    }
}

impl ReturnCode {
    /// Reads a code returned by a callback: `0` is `Exit`, `1` is `POLL`,
    /// `2` is `WAIT`; any other value is refused with the value itself.
    pub fn decode(code: u32) -> (r: Result<ReturnCode, InvalidCode>)
        ensures
            code == 0 ==> r == Ok::<ReturnCode, InvalidCode>(ReturnCode::Exit),
            code == 1 ==> r == Ok::<ReturnCode, InvalidCode>(ReturnCode::POLL),
            code == 2 ==> r == Ok::<ReturnCode, InvalidCode>(ReturnCode::WAIT),
            code > 2 ==> r == Err::<ReturnCode, InvalidCode>(InvalidCode { code }),
            r is Ok <==> decode_spec(code) is Some,
            r is Ok ==> Some(r->Ok_0) == decode_spec(code),
    {
        match code {
            0 => Ok(ReturnCode::Exit),
            1 => Ok(ReturnCode::POLL),
            2 => Ok(ReturnCode::WAIT),
            _ => Err(InvalidCode { code }),
        }
    }

    /// The code that a callback returns to ask for this state.
    pub fn code(&self) -> (r: u32)
        ensures
            r == code_of(*self),
            decode_spec(r) == Some(*self),
    {
        match self {
            ReturnCode::Exit => 0,
            ReturnCode::POLL => 1,
            ReturnCode::WAIT => 2,
        }
    }
}

/// Encoding a state and decoding the code gives the state back; and every code
/// that decodes is the code of what it decodes to.
pub proof fn lemma_code_round_trip(rc: ReturnCode, code: u32)
    ensures
        decode_spec(code_of(rc)) == Some(rc),
        decode_spec(code) is Some ==> code_of(decode_spec(code)->Some_0) == code,
        decode_spec(code) is Some <==> code <= 2,
{
}

} // verus!
