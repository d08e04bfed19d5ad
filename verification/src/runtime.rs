//! Routing: what the hosting runtime does with an invocation. It builds a
//! fresh empty context, hands it to the target unit's entry point, and
//! appends the unit's diagnostic line to the log.

use vstd::prelude::*;

use crate::escrow;
use crate::invocation::Context;
use crate::invocation::ProgramError;
use crate::log::LogBuffer;
use crate::points;
use crate::quests;
use crate::registry;
use crate::unit::Unit;
use crate::unit::spec_log_line;

verus! {

/// Route one invocation to unit `u` with a fresh empty context. Every
/// invocation succeeds and appends exactly the unit's diagnostic line.
pub fn invoke(u: Unit, log: &mut LogBuffer) -> (r: Result<(), ProgramError>)
    ensures
        r is Ok,
        final(log)@ == old(log)@.push(spec_log_line(u)),
{
    match u {
        Unit::Escrow => escrow::initialize(Context::new(escrow::Initialize {}), log),
        Unit::Points => points::initialize(Context::new(points::Initialize {}), log),
        Unit::Quests => quests::initialize(Context::new(quests::Initialize {}), log),
        Unit::Registry => registry::initialize(Context::new(registry::Initialize {}), log),
    }
}

/// The log after `n` further invocations of unit `u`, starting from the
/// lines `s`: each invocation appends the unit's diagnostic line.
pub open spec fn logs_after(u: Unit, s: Seq<Seq<char>>, n: nat) -> Seq<Seq<char>>
    decreases n,
{
    if n == 0 {
        s
    } else {
        logs_after(u, s.push(spec_log_line(u)), (n - 1) as nat)
    }
}

/// Invoke unit `u` `n` times in a row, counting the successes. All `n`
/// invocations succeed, and the log grows by exactly `n` lines.
pub fn invoke_n(u: Unit, n: usize, log: &mut LogBuffer) -> (successes: usize)
    ensures
        successes == n,
        final(log)@ == logs_after(u, old(log)@, n as nat),
    decreases n,
{
    if n == 0 {
        0
    } else {
        let _ok = invoke(u, log);
        let rest = invoke_n(u, n - 1, log);
        rest + 1
    }
}

/// Repeated invocation is idempotent: `n` invocations of unit `u` leave
/// every line already in the log unchanged and append `n` copies of the
/// unit's diagnostic line, one per success. The appended lines do not
/// depend on what was in the log before, so no invocation's outcome
/// depends on prior invocations.
pub proof fn lemma_repeated_invocation(u: Unit, s: Seq<Seq<char>>, n: nat)
    ensures
        logs_after(u, s, n) == s + Seq::new(n, |i: int| spec_log_line(u)),
    decreases n,
{
    if n == 0 {
        assert(logs_after(u, s, 0) =~= s + Seq::new(0, |i: int| spec_log_line(u)));
    } else {
        lemma_repeated_invocation(u, s.push(spec_log_line(u)), (n - 1) as nat);
        assert(s.push(spec_log_line(u)) + Seq::new((n - 1) as nat, |i: int| spec_log_line(u)) =~= s
            + Seq::new(n, |i: int| spec_log_line(u)));
    }
}

} // verus!
