//! The points unit: a placeholder awaiting real points logic. It declares
//! its identifier and exposes one entry point that always succeeds.

use vstd::prelude::*;

use crate::invocation::Context;
use crate::invocation::ProgramError;
use crate::log::LogBuffer;
use crate::unit::Unit;
use crate::unit::log_line;
use crate::unit::spec_log_line;

verus! {

/// The accounts bundle of `initialize`: no accounts, no signers, no data.
pub struct Initialize {}

/// The points unit's single entry point. It succeeds on every well-formed
/// context, emits exactly one diagnostic line — the points unit's fixed
/// line — and changes nothing else.
pub fn initialize(_ctx: Context<Initialize>, log: &mut LogBuffer) -> (r: Result<
    (),
    ProgramError,
>)
    ensures
        r is Ok,
        final(log)@ == old(log)@.push(spec_log_line(Unit::Points)),
{
    log.emit(log_line(Unit::Points));
    Ok(())
}

} // verus!
