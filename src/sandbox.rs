//! The limits under which scripts run, and the ways a script run can fail.
use vstd::prelude::*;

verus! {

/// The most memory, in bytes, that the script runtime may allocate.
pub const MEMORY_LIMIT: usize = 262144;

/// How many instructions a script executes between two checks of its budget.
pub const CHECK_INTERVAL: u32 = 75000;

/// The instructions one script run may execute before it is aborted.
pub const INSTRUCTION_LIMIT: u64 = 75000;

/// The parts of the script language's standard library a runtime receives.
#[derive(PartialEq, Eq, Structural, Clone, Copy, Debug)]
pub enum StdLibrary {
    Base,
    Table,
    Math,
    Strings,
}

/// The standard library parts a fresh runtime is built with; no others
/// (no I/O, no OS access, no module loading).
pub fn allowed_libraries() -> (r: Vec<StdLibrary>)
    ensures
        r@ == seq![StdLibrary::Base, StdLibrary::Table, StdLibrary::Math, StdLibrary::Strings],
{
    vec![StdLibrary::Base, StdLibrary::Table, StdLibrary::Math, StdLibrary::Strings]
}

/// Why a script run failed. None of these ends the host process.
pub enum ScriptError {
    /// The text is not a well-formed script; `chunk` names its source.
    Syntax { chunk: String, message: String },
    /// The script raised an error while running.
    Runtime { message: String },
    /// The script hit the instruction or memory ceiling and was aborted.
    ResourceLimitExceeded,
    /// A script file could not be read or written.
    Io { message: String },
}

/// How the script runtime reported a failed run.
#[derive(PartialEq, Eq, Structural, Clone, Copy, Debug)]
pub enum LuaFailure {
    /// The text did not parse.
    Syntax,
    /// An allocation would have passed the memory ceiling.
    Memory,
    /// Any other error raised while running.
    Other,
}

/// The error a failed run is reported as. A run whose instruction budget is
/// exhausted hit the ceiling, whatever the runtime reported.
pub fn classify(kind: LuaFailure, chunk: String, message: String, exhausted: bool) -> (r: ScriptError)
    ensures
        exhausted ==> r == ScriptError::ResourceLimitExceeded,
        !exhausted ==> r == match kind {
            LuaFailure::Syntax => ScriptError::Syntax { chunk, message },
            LuaFailure::Memory => ScriptError::ResourceLimitExceeded,
            LuaFailure::Other => ScriptError::Runtime { message },
        },
{
    if exhausted {
        return ScriptError::ResourceLimitExceeded;
    }
    match kind {
        LuaFailure::Syntax => ScriptError::Syntax { chunk, message },
        LuaFailure::Memory => ScriptError::ResourceLimitExceeded,
        LuaFailure::Other => ScriptError::Runtime { message },
    }
}

/// The instructions a script run has used, against its ceiling.
pub struct InstructionBudget {
    pub used: u64,
    pub limit: u64,
}

impl InstructionBudget {
    /// A fresh budget for one script run.
    pub fn new(limit: u64) -> (r: InstructionBudget)
        ensures
            r.used == 0,
            r.limit == limit,
    {
        InstructionBudget { used: 0, limit }
    }

    /// Records `n` more executed instructions. Once the total reaches the
    /// ceiling the run must be aborted: the result is then
    /// `ResourceLimitExceeded` and the budget stays exhausted.
    pub fn charge(&mut self, n: u64) -> (r: Result<(), ScriptError>)
        ensures
            final(self).limit == old(self).limit,
            final(self).used == if old(self).used + n >= old(self).limit {
                old(self).limit as int
            } else {
                old(self).used + n
            },
            old(self).used + n >= old(self).limit ==> r == Err::<(), ScriptError>(
                ScriptError::ResourceLimitExceeded,
            ) && final(self).used == old(self).limit,
            old(self).used + n < old(self).limit ==> r == Ok::<(), ScriptError>(())
                && final(self).used == old(self).used + n,
    {
        if n >= self.limit || self.used >= self.limit - n {
            self.used = self.limit;
            Err(ScriptError::ResourceLimitExceeded)
        } else {
            self.used = self.used + n;
            Ok(())
        }
    }
}

/// The instructions counted after `k` checks of `n` instructions each, from
/// a fresh budget; the count stops at the ceiling, where the run is aborted.
pub open spec fn charged(limit: int, n: int, k: nat) -> int
    decreases k,
{
    if k == 0 {
        0
    } else {
        let prev = charged(limit, n, (k - 1) as nat);
        if prev + n >= limit {
            limit
        } else {
            prev + n
        }
    }
}

proof fn lemma_charged(limit: int, n: int, k: nat)
    requires
        n > 0,
        limit >= 0,
    ensures
        charged(limit, n, k) == if k * n >= limit {
            limit
        } else {
            k * n
        },
    decreases k,
{
    if k == 0 {
        assert(k * n == 0);
    } else {
        lemma_charged(limit, n, (k - 1) as nat);
        assert((k - 1) * n + n == k * n) by (nonlinear_arith);
        assert((k - 1) * n <= k * n) by (nonlinear_arith)
            requires
                n > 0,
                k > 0,
        ;
    }
}

/// A script that never stops is aborted: with a check every `interval`
/// instructions, the budget is exhausted (the check has returned
/// `ResourceLimitExceeded`) by the check numbered `limit / interval + 1`.
pub proof fn lemma_runaway_script_aborts(limit: u64, interval: u64, k: nat)
    requires
        interval > 0,
        k >= limit / interval + 1,
    ensures
        charged(limit as int, interval as int, k) == limit,
{
    lemma_charged(limit as int, interval as int, k);
    let q = limit / interval;
    assert(q * interval + limit % interval == limit) by (nonlinear_arith)
        requires
            q == limit / interval,
            interval > 0,
    ;
    assert(k * interval >= (q + 1) * interval) by (nonlinear_arith)
        requires
            k >= q + 1,
            interval > 0,
    ;
    assert((q + 1) * interval == q * interval + interval) by (nonlinear_arith);
}

} // verus!
