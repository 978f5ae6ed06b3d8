//! The life of the daemon's core loop: settling, serving, leaving.

use crate::killbilld::daemon::startup::Settling;
use crate::killbilld::daemon::state::{Flow, FlowView};
use crate::killbilld::responder::{ExitStep, KillLatch};
use crate::text;
use vstd::prelude::*;

verus! {

/// Where the loop is.
#[derive(Debug, Clone, Copy, PartialEq, Eq, Structural)]
pub enum Phase {
    /// Waiting for the startup burst of device events to die down.
    Settling,
    /// Handling messages.
    Serving,
    /// No message is taken any more.
    Leaving,
}

/// What the loop does next.
#[derive(Debug, Clone, Copy, PartialEq, Eq, Structural)]
pub enum LoopStep {
    /// Take the next message, waiting no longer than the quiet period.
    AwaitBriefly,
    /// Startup has settled: honour `armed_at_boot`, then serve.
    Settled,
    /// Take the next message, however long it takes.
    Await,
    /// Leave the loop.
    Leave,
}

/// What is left to do once a message was handled.
#[derive(Debug, Clone, Copy, PartialEq, Eq, Structural)]
pub enum AfterMessage {
    /// Nothing.
    Proceed,
    /// Evaluate the device events that are still queued.
    Drain,
}

/// How the process ends.
#[derive(Debug, Clone, PartialEq, Eq)]
pub enum Ending {
    /// Not yet: the machine is going down, and leaving would abort that.
    Park,
    /// With an error: the kill and every fallback failed.
    KillFailed,
    /// With this error, for a supervisor to restart the daemon.
    Failed(String),
    /// Cleanly.
    Clean,
}

/// What an [`Ending`] holds.
pub enum EndingView {
    Park,
    KillFailed,
    Failed(Seq<char>),
    Clean,
}

impl View for Ending {
    type V = EndingView;

    open spec fn view(&self) -> EndingView {
        match self {
            Ending::Park => EndingView::Park,
            Ending::KillFailed => EndingView::KillFailed,
            Ending::Failed(reason) => EndingView::Failed(reason@),
            Ending::Clean => EndingView::Clean,
        }
    }
}

/// The loop's own state.
#[derive(Debug)]
pub struct Lifecycle {
    pub phase: Phase,
    pub settling: Settling,
    pub failure: Option<String>,
}

/// What a [`Lifecycle`] holds.
pub struct LifecycleView {
    pub phase: Phase,
    pub settling: Settling,
    pub failure: Option<Seq<char>>,
}

impl View for Lifecycle {
    type V = LifecycleView;

    open spec fn view(&self) -> LifecycleView {
        LifecycleView {
            phase: self.phase,
            settling: self.settling,
            failure: text::opt_view(self.failure),
        }
    }
}

impl LifecycleView {
    /// What the loop does next at `now`.
    pub open spec fn step(self, now: u64, sensor_ok: bool) -> LoopStep {
        match self.phase {
            Phase::Settling => if self.settling.is_over(now, sensor_ok) {
                LoopStep::Settled
            } else {
                LoopStep::AwaitBriefly
            },
            Phase::Serving => LoopStep::Await,
            Phase::Leaving => LoopStep::Leave,
        }
    }

    /// The state once that is under way.
    pub open spec fn stepped(self, now: u64, sensor_ok: bool) -> LifecycleView {
        if self.step(now, sensor_ok) == LoopStep::Settled {
            LifecycleView { phase: Phase::Serving, ..self }
        } else {
            self
        }
    }

    /// The state once a message was handled with this outcome; `traffic` is whether it came
    /// from the sensor.
    pub open spec fn handled(self, flow: FlowView, traffic: bool, now: u64) -> LifecycleView {
        match flow {
            FlowView::Continue => if traffic && self.phase == Phase::Settling {
                LifecycleView {
                    settling: Settling { started: self.settling.started, last_traffic: now },
                    ..self
                }
            } else {
                self
            },
            FlowView::Shutdown => LifecycleView { phase: Phase::Leaving, ..self },
            FlowView::Failed(reason) => LifecycleView {
                phase: Phase::Leaving,
                failure: Some(reason),
                ..self
            },
        }
    }

    /// What is left to do once a message was handled with this outcome.
    pub open spec fn left_to_do(self, flow: FlowView) -> AfterMessage {
        if flow is Shutdown {
            AfterMessage::Drain
        } else {
            AfterMessage::Proceed
        }
    }

    /// How the process ends. A kill that is under way comes before everything else.
    pub open spec fn ending(self, latch: KillLatch) -> EndingView {
        match latch.exit() {
            ExitStep::Park => EndingView::Park,
            ExitStep::Fail => EndingView::KillFailed,
            ExitStep::Exit => match self.failure {
                Some(reason) => EndingView::Failed(reason),
                None => EndingView::Clean,
            },
        }
    }
}

impl Lifecycle {
    /// The loop as the daemon starts.
    pub fn new(now: u64) -> (r: Self)
        ensures
            r@ == (LifecycleView {
                phase: Phase::Settling,
                settling: Settling { started: now, last_traffic: now },
                failure: None,
            }),
    {
        Lifecycle { phase: Phase::Settling, settling: Settling::new(now), failure: None }
    }

    /// What to do next at `now`, in milliseconds.
    pub fn next_step(&mut self, now: u64, sensor_ok: bool) -> (r: LoopStep)
        ensures
            r == old(self)@.step(now, sensor_ok),
            final(self)@ == old(self)@.stepped(now, sensor_ok),
    {
        match self.phase {
            Phase::Settling => if self.settling.over(now, sensor_ok) {
                self.phase = Phase::Serving;
                LoopStep::Settled
            } else {
                LoopStep::AwaitBriefly
            },
            Phase::Serving => LoopStep::Await,
            Phase::Leaving => LoopStep::Leave,
        }
    }

    /// Records the outcome of a message. A shutdown, at any time, first evaluates what is still
    /// queued: a signal must never skip a decision.
    pub fn on_handled(&mut self, flow: Flow, traffic: bool, now: u64) -> (r: AfterMessage)
        ensures
            final(self)@ == old(self)@.handled(flow@, traffic, now),
            r == old(self)@.left_to_do(flow@),
    {
        match flow {
            Flow::Continue => {
                if traffic && self.phase == Phase::Settling {
                    self.settling.note_traffic(now);
                }
                AfterMessage::Proceed
            },
            Flow::Shutdown => {
                self.phase = Phase::Leaving;
                AfterMessage::Drain
            },
            Flow::Failed(reason) => {
                self.phase = Phase::Leaving;
                self.failure = Some(reason);
                AfterMessage::Proceed
            },
        }
    }

    /// Records that no more messages can come. Startup counts as settled then; the loop ends
    /// when it would wait for the next one.
    pub fn on_closed(&mut self) -> (r: LoopStep)
        ensures
            old(self)@.phase == Phase::Settling ==> r == LoopStep::Settled && final(self)@ == (
            LifecycleView { phase: Phase::Serving, ..old(self)@ }),
            old(self)@.phase != Phase::Settling ==> r == LoopStep::Leave && final(self)@ == (
            LifecycleView { phase: Phase::Leaving, ..old(self)@ }),
    {
        if self.phase == Phase::Settling {
            self.phase = Phase::Serving;
            LoopStep::Settled
        } else {
            self.phase = Phase::Leaving;
            LoopStep::Leave
        }
    }

    /// How the process ends.
    pub fn ending(&self, latch: &KillLatch) -> (r: Ending)
        ensures
            r@ == self@.ending(*latch),
    {
        match latch.exit_step() {
            ExitStep::Park => Ending::Park,
            ExitStep::Fail => Ending::KillFailed,
            ExitStep::Exit => match &self.failure {
                Some(reason) => Ending::Failed(reason.clone()),
                None => Ending::Clean,
            },
        }
    }
}

/// Arming at boot happens once: the loop settles at most once, and never goes back to waiting
/// for startup.
pub proof fn startup_settles_once(
    s: LifecycleView,
    flow: FlowView,
    traffic: bool,
    now: u64,
    sensor_ok: bool,
)
    requires
        s.phase != Phase::Settling,
    ensures
        s.step(now, sensor_ok) != LoopStep::Settled,
        s.stepped(now, sensor_ok).phase != Phase::Settling,
        s.handled(flow, traffic, now).phase != Phase::Settling,
{
}

/// However the loop was left, the process does not end while a kill is under way, and never
/// ends cleanly once a kill has failed.
pub proof fn a_kill_outranks_every_ending(s: LifecycleView, latch: KillLatch)
    requires
        latch.in_flight,
    ensures
        !latch.failed ==> s.ending(latch) is Park,
        latch.failed ==> s.ending(latch) is KillFailed,
{
}

/// What ends the loop: a termination signal, after what is still queued was evaluated, and a
/// failure, which the process then ends with; any other message leaves it going. A loop that is
/// leaving takes no message, and a process that was told to stop ends cleanly.
pub proof fn a_signal_drains_and_leaves(
    s: LifecycleView,
    flow: FlowView,
    traffic: bool,
    now: u64,
    sensor_ok: bool,
)
    ensures
        ({
            let t = s.handled(flow, traffic, now);
            &&& flow is Shutdown ==> s.left_to_do(flow) == AfterMessage::Drain && t.step(
                now,
                sensor_ok,
            ) == LoopStep::Leave && t.failure == s.failure
            &&& flow matches FlowView::Failed(why) ==> t.step(now, sensor_ok) == LoopStep::Leave
                && t.ending(KillLatch { in_flight: false, failed: false }) == EndingView::Failed(
                why,
            )
            &&& flow is Continue ==> t.phase == s.phase && t.failure == s.failure
        }),
        s.failure is None ==> s.ending(KillLatch { in_flight: false, failed: false }) is Clean,
        s.phase == Phase::Serving ==> s.step(now, sensor_ok) == LoopStep::Await,
{
}

/// When startup has settled: five seconds after the start at the latest, and earlier once the sensor
/// watches and nothing has come from it for a quarter of a second.
pub proof fn startup_settles_when_it_is_quiet(
    s: LifecycleView,
    flow: FlowView,
    now: u64,
    later: u64,
    sensor_ok: bool,
)
    requires
        s.phase == Phase::Settling,
        s.settling.started <= s.settling.last_traffic <= now <= later,
    ensures
        s.step(now, sensor_ok) == LoopStep::Settled <==> now - s.settling.started >= 5000
            || sensor_ok && now - s.settling.last_traffic >= 250,
        flow is Continue ==> {
            let t = s.handled(flow, true, now);
            t.step(later, sensor_ok) == LoopStep::Settled <==> later - s.settling.started >= 5000
                || sensor_ok && later - now >= 250
        },
        flow is Continue ==> s.handled(flow, false, now) == s,
{
}

} // verus!
