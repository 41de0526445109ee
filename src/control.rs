//! The decisions of a command loop (the alarm sender, the metric consumer,
//! the collector's control loop): what to do with each thing received.
//!
//! The loop itself, with its blocking receive, belongs to the caller, which
//! hands each received command (or the closing of the channel) to
//! `LoopControl::on_signal` and acts on the decision.
use vstd::prelude::*;

verus! {

/// What a loop received, reduced to what matters for its control.
#[derive(Debug, Clone, Copy, PartialEq, Eq, Structural)]
pub enum Signal {
    /// A command to act on.
    Work,
    /// A `Stop` command.
    Stop,
    /// The channel is closed: an implicit `Stop`.
    Closed,
}

/// What the loop does with what it received.
#[derive(Debug, Clone, Copy, PartialEq, Eq, Structural)]
pub enum Decision {
    /// Act on the command.
    Handle,
    /// Leave the loop.
    Exit,
    /// Nothing: the loop has already stopped.
    Ignore,
}

/// What a loop does with a received command: hand on its payload, leave, or nothing.
#[derive(Debug)]
pub enum Step<T> {
    Deliver(T),
    Exit,
    Ignore,
}

impl<T> Step<T> {
    /// The decision that the step carries out.
    pub open spec fn decision(&self) -> Decision {
        match self {
            Step::Deliver(_) => Decision::Handle,
            Step::Exit => Decision::Exit,
            Step::Ignore => Decision::Ignore,
        }
    }
}

/// The decision on a signal, and whether the loop is stopped afterwards.
pub open spec fn decide(stopped: bool, signal: Signal) -> (bool, Decision) {
    if stopped {
        (true, Decision::Ignore)
    } else {
        match signal {
            Signal::Work => (false, Decision::Handle),
            Signal::Stop | Signal::Closed => (true, Decision::Exit),
        }
    }
}

/// The decisions on a sequence of signals, from a given state.
pub open spec fn run(stopped: bool, signals: Seq<Signal>) -> Seq<Decision>
    decreases signals.len(),
{
    if signals.len() == 0 {
        Seq::empty()
    } else {
        let (next, d) = decide(stopped, signals[0]);
        seq![d] + run(next, signals.drop_first())
    }
}

/// How many times a run of decisions leaves the loop.
pub open spec fn exits(decisions: Seq<Decision>) -> nat
    decreases decisions.len(),
{
    if decisions.len() == 0 {
        0
    } else {
        (if decisions[0] == Decision::Exit { 1nat } else { 0nat }) + exits(decisions.drop_first())
    }
}

/// Whether a command loop has stopped.
#[derive(Debug)]
pub struct LoopControl {
    pub stopped: bool,
}

impl LoopControl {
    pub fn new() -> (r: LoopControl)
        ensures
            !r.stopped,
    {
        LoopControl { stopped: false }
    }

    pub fn on_signal(&mut self, signal: Signal) -> (r: Decision)
        ensures
            (final(self).stopped, r) == decide(old(self).stopped, signal),
    {
        if self.stopped {
            Decision::Ignore
        } else {
            match signal {
                Signal::Work => Decision::Handle,
                Signal::Stop | Signal::Closed => {
                    self.stopped = true;
                    Decision::Exit
                },
            }
        }
    }
}

/// A stopped loop ignores everything, `Stop` included: it never leaves twice
/// and never acts again.
pub proof fn lemma_stopped_loop_ignores(signals: Seq<Signal>)
    ensures
        run(true, signals).len() == signals.len(),
        forall|i: int| 0 <= i < signals.len() ==> #[trigger] run(true, signals)[i] == Decision::Ignore,
        exits(run(true, signals)) == 0,
    decreases signals.len(),
{
    if signals.len() > 0 {
        lemma_stopped_loop_ignores(signals.drop_first());
        let rest = run(true, signals.drop_first());
        assert(run(true, signals) == seq![Decision::Ignore] + rest);
        assert((seq![Decision::Ignore] + rest).drop_first() =~= rest);
    }
}

/// Whatever a loop receives, `Stop` any number of times included, it leaves
/// at most once, and acts on nothing after it has left.
pub proof fn lemma_exits_at_most_once(stopped: bool, signals: Seq<Signal>)
    ensures
        run(stopped, signals).len() == signals.len(),
        exits(run(stopped, signals)) <= 1,
        stopped ==> exits(run(stopped, signals)) == 0,
        forall|i: int, j: int|
            #![trigger run(stopped, signals)[i], run(stopped, signals)[j]]
            0 <= i < j < signals.len() && run(stopped, signals)[i] == Decision::Exit
                ==> run(stopped, signals)[j] == Decision::Ignore,
    decreases signals.len(),
{
    if signals.len() > 0 {
        let (next, d) = decide(stopped, signals[0]);
        let rest = run(next, signals.drop_first());
        lemma_exits_at_most_once(next, signals.drop_first());
        assert(run(stopped, signals) == seq![d] + rest);
        assert((seq![d] + rest).drop_first() =~= rest);
        if d == Decision::Exit {
            lemma_stopped_loop_ignores(signals.drop_first());
        }
        assert forall|i: int, j: int|
            #![trigger run(stopped, signals)[i], run(stopped, signals)[j]]
            0 <= i < j < signals.len() && run(stopped, signals)[i] == Decision::Exit
                implies run(stopped, signals)[j] == Decision::Ignore by {
            assert(run(stopped, signals)[j] == rest[j - 1]);
            if i > 0 {
                assert(run(stopped, signals)[i] == rest[i - 1]);
            }
        }
    }
}

} // verus!
