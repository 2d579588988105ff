use vstd::prelude::*;

use crate::error::LibError;

verus! {

/// Most commands one codec instance may hold in its queue.
pub const MAX_OPERATIONS: usize = 64;

/// Most commands the input operations may fill; the remaining slots stay free
/// for barriers (`drain`, `finish`) so that a full input queue can be awaited.
pub const MAX_INPUT_OPERATIONS: usize = 60;

/// Largest sample count one encoder read may ask for.
pub const MAX_READ_SAMPLES: u32 = 1048576;

/// `Number.MAX_SAFE_INTEGER`: the largest integer a JavaScript number holds exactly.
pub const MAX_SAFE_INTEGER: u64 = 9007199254740991;

/// Whether `value` survives the trip into a JavaScript number unchanged.
pub open spec fn is_safe_integer(value: int) -> bool {
    0 <= value <= MAX_SAFE_INTEGER
}

/// Passes `value` on when a JavaScript number represents it exactly, and
/// refuses it, naming `field`, otherwise.
pub fn safe_number(value: u64, field: &str) -> (r: Result<u64, LibError>)
    ensures
        is_safe_integer(value as int) ==> r == Ok::<u64, LibError>(value),
        !is_safe_integer(value as int) ==> (r matches Err(LibError::IntegerOverflow(f)) && f@ == field@),
{
    if value > MAX_SAFE_INTEGER {
        return Err(LibError::IntegerOverflow(field.to_owned()));
    }
    Ok(value)
}

/// Narrows a non-negative safe integer to `u32`, refusing larger values and
/// naming `field`.
pub fn safe_u32_input(value: u64, field: &str) -> (r: Result<u32, LibError>)
    ensures
        value <= u32::MAX ==> r == Ok::<u32, LibError>(value as u32),
        value > u32::MAX ==> (r matches Err(LibError::ValueOutOfRange(f)) && f@ == field@),
{
    if value > u32::MAX as u64 {
        return Err(LibError::ValueOutOfRange(field.to_owned()));
    }
    Ok(value as u32)
}

/// The limits the bridge enforces: 64 queued operations, of which input
/// takes at most 60, reads of at most 2^20 samples, and the largest integer a
/// JavaScript number holds exactly, 2^53 - 1.
pub proof fn lemma_limits()
    ensures
        MAX_OPERATIONS == 64,
        MAX_INPUT_OPERATIONS == 60,
        MAX_INPUT_OPERATIONS < MAX_OPERATIONS,
        MAX_READ_SAMPLES == 0x10_0000,
        MAX_SAFE_INTEGER + 1 == 0x20_0000_0000_0000,
        forall|v: int| is_safe_integer(v) <==> 0 <= v < 0x20_0000_0000_0000,
{
}

} // verus!
