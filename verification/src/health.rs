//! The health flag through which a watchdog reports that the render
//! thread has died.

use vstd::prelude::*;

verus! {

/// How the render thread came to an end.
#[derive(Clone, Copy, Debug, PartialEq, Eq, Structural)]
pub enum RenderExit {
    /// The thread returned from its body.
    Completed,
    /// The thread unwound from a failure inside the frame loop.
    Panicked,
}

impl RenderExit {
    /// Whether the watchdog has a failure to report for this ending.
    pub fn is_failure(&self) -> (failure: bool)
        ensures
            failure == (*self is Panicked),
    {
        match self {
            RenderExit::Completed => false,
            RenderExit::Panicked => true,
        }
    }
}

/// The flag after the watchdog saw the render thread end in `exit`: a
/// failure lowers it, anything else leaves it alone.
pub open spec fn after_exit(healthy: bool, exit: RenderExit) -> bool {
    healthy && !(exit is Panicked)
}

/// The flag after the watchdog saw a run of endings, oldest first.
pub open spec fn after_exits(healthy: bool, exits: Seq<RenderExit>) -> bool
    decreases exits.len(),
{
    if exits.len() == 0 {
        healthy
    } else {
        after_exit(after_exits(healthy, exits.drop_last()), exits.last())
    }
}

/// `true` as long as the render thread is not known to have failed.
///
/// The flag starts healthy and has a single writer, which can only lower it.
#[derive(Debug)]
pub struct HealthFlag {
    healthy: bool,
}

impl HealthFlag {
    /// What a reader of the flag sees.
    pub closed spec fn view(&self) -> bool {
        self.healthy
    }

    /// A flag for a render thread that has just been started.
    pub fn new() -> (flag: HealthFlag)
        ensures
            flag@,
    {
        HealthFlag { healthy: true }
    }

    /// Reads the flag.
    pub fn is_healthy(&self) -> (healthy: bool)
        ensures
            healthy == self@,
    {
        self.healthy
    }

    /// Records the failure of the render thread. Lowering a flag that is
    /// already down changes nothing.
    pub fn mark_failed(&mut self)
        ensures
            !final(self)@,
            final(self)@ == after_exit(old(self)@, RenderExit::Panicked),
    {
        self.healthy = false;
    }
}

/// A flag that is down stays down, whatever the watchdog sees next.
pub proof fn lemma_never_recovers(healthy: bool, exits: Seq<RenderExit>)
    ensures
        after_exits(healthy, exits) ==> healthy,
    decreases exits.len(),
{
    if exits.len() > 0 {
        lemma_never_recovers(healthy, exits.drop_last());
    }
}

/// Over any run of endings the flag changes at most once, from healthy to
/// failed: if it is up after the first `later` endings, it was up after
/// the first `earlier` ones, for every `earlier <= later`.
pub proof fn lemma_single_transition(healthy: bool, exits: Seq<RenderExit>, earlier: int, later: int)
    requires
        0 <= earlier <= later <= exits.len(),
    ensures
        after_exits(healthy, exits.take(later)) ==> after_exits(healthy, exits.take(earlier)),
    decreases later - earlier,
{
    if earlier < later {
        lemma_single_transition(healthy, exits, earlier, later - 1);
        assert(exits.take(later).drop_last() == exits.take(later - 1));
    }
}

/// The flag is up after a run of endings exactly when it was up before
/// and no ending in the run was a failure.
pub proof fn lemma_healthy_iff_no_failure(healthy: bool, exits: Seq<RenderExit>)
    ensures
        after_exits(healthy, exits) == (healthy && forall|i: int|
            0 <= i < exits.len() ==> !(#[trigger] exits[i] is Panicked)),
    decreases exits.len(),
{
    if exits.len() > 0 {
        let init = exits.drop_last();
        lemma_healthy_iff_no_failure(healthy, init);
        if after_exits(healthy, exits) {
            assert forall|i: int| 0 <= i < exits.len() implies !(#[trigger] exits[i] is Panicked) by {
                if i < init.len() {
                    assert(init[i] == exits[i]);
                }
            }
        } else if healthy {
            if after_exits(healthy, init) {
                assert(exits[exits.len() - 1] is Panicked);
            } else {
                let i = choose|i: int| 0 <= i < init.len() && #[trigger] init[i] is Panicked;
                assert(exits[i] is Panicked);
            }
        }
    }
}

} // verus!
