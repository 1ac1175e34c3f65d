use vstd::prelude::*;
use crate::error::{SimmerError, SimmerResult};

verus! {

/// The once-per-process registry lifecycle: whether the one-time start has
/// happened, whether the registry task has taken its consumption endpoint,
/// and whether shutdown has been requested. The shell drives its concurrency
/// primitives by these transitions, which is what makes startup idempotent
/// and shutdown single-use.
pub struct Lifecycle {
    started: bool,
    end_taken: bool,
    shutdown_requested: bool,
}

impl Lifecycle {
    /// Whether the one-time start has happened.
    pub closed spec fn is_started(&self) -> bool {
        self.started
    }

    /// Whether the registry task's consumption endpoint has been taken.
    pub closed spec fn is_end_taken(&self) -> bool {
        self.end_taken
    }

    /// Whether shutdown has been requested.
    pub closed spec fn is_shutdown_requested(&self) -> bool {
        self.shutdown_requested
    }

    /// A sound state: the consumption endpoint can only have been taken after
    /// the one-time start.
    pub closed spec fn wf(&self) -> bool {
        self.end_taken ==> self.started
    }

    pub fn new() -> (r: Lifecycle)
        ensures
            r.wf(),
            !r.is_started(),
            !r.is_end_taken(),
            !r.is_shutdown_requested(),
    {
        Lifecycle { started: false, end_taken: false, shutdown_requested: false }
    }

    /// The one-time start: exactly the first call wins and must set up and run
    /// the registry task; every other call finds the start already done and
    /// returns without starting a second task.
    pub fn begin_start(&mut self) -> (winner: bool)
        ensures
            start_step(*old(self), *final(self), winner),
    {
        let winner = !self.started;
        self.started = true;
        winner
    }

    /// Take the consumption endpoint for the registry task's loop: reports
    /// true exactly the first time. A second take reports false, the broken
    /// process state the shell must treat as a fatal bug, not an error value.
    pub fn take_end(&mut self) -> (fresh: bool)
        ensures
            take_end_step(*old(self), *final(self), fresh),
    {
        let fresh = !self.end_taken;
        self.end_taken = true;
        fresh
    }

    /// Request shutdown of the registry task: exactly the first request ever
    /// made succeeds; every later one reports that shutdown is already under
    /// way.
    pub fn shutdown_registry(&mut self) -> (r: SimmerResult<()>)
        ensures
            shutdown_step(*old(self), *final(self), r),
    {
        let fresh = !self.shutdown_requested;
        self.shutdown_requested = true;
        if fresh {
            Ok(())
        } else {
            Err(SimmerError::Shutdown)
        }
    }
}

/// What one call of `begin_start` does.
pub open spec fn start_step(pre: Lifecycle, post: Lifecycle, winner: bool) -> bool {
    &&& post.is_started()
    &&& winner == !pre.is_started()
    &&& post.is_end_taken() == pre.is_end_taken()
    &&& post.is_shutdown_requested() == pre.is_shutdown_requested()
    &&& (pre.wf() ==> post.wf())
}

/// What one call of `take_end` does.
pub open spec fn take_end_step(pre: Lifecycle, post: Lifecycle, fresh: bool) -> bool {
    &&& fresh == !pre.is_end_taken()
    &&& post.is_end_taken()
    &&& post.is_started() == pre.is_started()
    &&& post.is_shutdown_requested() == pre.is_shutdown_requested()
    &&& (pre.is_started() ==> post.wf())
}

/// What one call of `shutdown_registry` does.
pub open spec fn shutdown_step(pre: Lifecycle, post: Lifecycle, r: SimmerResult<()>) -> bool {
    &&& post.is_shutdown_requested()
    &&& (r is Ok <==> !pre.is_shutdown_requested())
    &&& (r matches Err(e) ==> e is Shutdown)
    &&& post.is_started() == pre.is_started()
    &&& post.is_end_taken() == pre.is_end_taken()
    &&& (pre.wf() ==> post.wf())
}

/// Single shutdown: in any run of shutdown requests from a fresh lifecycle,
/// exactly one succeeds — the first; every later request fails with the
/// shutdown error.
pub proof fn lemma_single_shutdown(
    states: Seq<Lifecycle>,
    results: Seq<SimmerResult<()>>,
)
    requires
        states.len() == results.len() + 1,
        forall|i: int|
            0 <= i < results.len() ==> shutdown_step(
                #[trigger] states[i],
                states[i + 1],
                results[i],
            ),
        results.len() >= 1,
        !states[0].is_shutdown_requested(),
    ensures
        results[0] is Ok,
        forall|i: int| 1 <= i < results.len() ==> (#[trigger] results[i]) is Err,
{
    assert forall|i: int| 1 <= i < results.len() implies (#[trigger] results[i]) is Err by {
        assert(shutdown_step(states[i - 1], states[i], results[i - 1]));
        assert(shutdown_step(states[i], states[i + 1], results[i]));
    }
}

/// Idempotent startup: in any run of start calls on a fresh lifecycle exactly
/// one caller wins — the first; afterwards the registry stays started, so no
/// later caller starts a second task.
pub proof fn lemma_idempotent_startup(states: Seq<Lifecycle>, winners: Seq<bool>)
    requires
        states.len() == winners.len() + 1,
        forall|i: int|
            0 <= i < winners.len() ==> start_step(#[trigger] states[i], states[i + 1], winners[i]),
        winners.len() >= 1,
        !states[0].is_started(),
    ensures
        winners[0],
        forall|i: int| 1 <= i < winners.len() ==> !(#[trigger] winners[i]),
        forall|i: int| 1 <= i < states.len() ==> (#[trigger] states[i]).is_started(),
{
    assert forall|i: int| 1 <= i < winners.len() implies !(#[trigger] winners[i]) by {
        assert(start_step(states[i - 1], states[i], winners[i - 1]));
        assert(start_step(states[i], states[i + 1], winners[i]));
    }
    assert forall|i: int| 1 <= i < states.len() implies (#[trigger] states[i]).is_started() by {
        assert(start_step(states[i - 1], states[i], winners[i - 1]));
    }
}

/// Startup safety: in a sound state, the winner of the one-time start finds
/// the consumption endpoint still present, so the registry task can take it.
pub proof fn lemma_winner_takes_end(
    pre: Lifecycle,
    mid: Lifecycle,
    post: Lifecycle,
    winner: bool,
    fresh: bool,
)
    requires
        pre.wf(),
        start_step(pre, mid, winner),
        take_end_step(mid, post, fresh),
        winner,
    ensures
        fresh,
{
}

} // verus!
