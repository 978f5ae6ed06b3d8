//! Keeping the sensor alive: how often it is respawned, and when to give up.

use crate::killbilld::daemon::state::{Msg, MsgView};
use crate::killbilld::sensor::{SensorMessage, SensorMessageView};
use vstd::prelude::*;

verus! {

/// A sensor that ran at least this many seconds before dying counts as having
/// recovered.
pub const HEALTHY_RUN_SECS: u64 = 60;

/// How many respawns in a row are tried.
pub const MAX_RESPAWNS: u32 = 5;

/// Seconds to wait before the respawn that follows the `n`-th failure in a row.
pub open spec fn backoff_of(n: nat) -> u64 {
    if n == 1 {
        1
    } else if n == 2 {
        2
    } else if n == 3 {
        5
    } else if n == 4 {
        15
    } else {
        30
    }
}

/// What to do about a sensor that has stopped.
#[derive(Debug, Clone, Copy, PartialEq, Eq, Structural)]
pub enum SupervisorStep {
    /// Wait this long, then start it again.
    Respawn { backoff_secs: u64 },
    /// Stop trying: the daemon exits for a restart.
    GiveUp,
}

/// How many times in a row the sensor has failed.
#[derive(Debug, Clone, Copy, PartialEq, Eq, Structural)]
pub struct Supervisor {
    pub failures: u32,
}

impl Supervisor {
    /// No failures so far.
    pub fn new() -> (r: Self)
        ensures
            r.failures == 0,
    {
        Supervisor { failures: 0 }
    }

    /// The failures in a row once a run of `ran_secs` has ended.
    pub open spec fn counted(self, ran_secs: u64) -> nat {
        if ran_secs >= HEALTHY_RUN_SECS {
            1
        } else {
            self.failures as nat + 1
        }
    }

    /// What to do about a sensor that stopped after `ran_secs` seconds. Every backoff
    /// is one respawn, and the failure after the last of them gives up.
    pub fn on_stopped(&mut self, ran_secs: u64) -> (r: SupervisorStep)
        requires
            old(self).failures < u32::MAX,
        ensures
            final(self).failures == old(self).counted(ran_secs),
            r == (if old(self).counted(ran_secs) > MAX_RESPAWNS {
                SupervisorStep::GiveUp
            } else {
                SupervisorStep::Respawn { backoff_secs: backoff_of(old(self).counted(ran_secs)) }
            }),
    {
        if ran_secs >= HEALTHY_RUN_SECS {
            self.failures = 0;
        }
        self.failures += 1;
        if self.failures > MAX_RESPAWNS {
            SupervisorStep::GiveUp
        } else {
            let backoff_secs: u64 = match self.failures {
                1 => 1,
                2 => 2,
                3 => 5,
                4 => 15,
                _ => 30,
            };
            SupervisorStep::Respawn { backoff_secs }
        }
    }
}

/// A transient fault never ends the daemon: up to the limit of failures in a row the sensor
/// is respawned, after a wait that never shrinks, and a healthy run starts the count over.
pub proof fn the_full_backoff_is_used(s: Supervisor, ran_secs: u64)
    requires
        s.failures < MAX_RESPAWNS,
    ensures
        s.counted(ran_secs) <= MAX_RESPAWNS,
        ran_secs >= HEALTHY_RUN_SECS ==> s.counted(ran_secs) == 1,
        ran_secs < HEALTHY_RUN_SECS && s.failures > 0 ==> backoff_of(s.failures as nat)
            < backoff_of(s.counted(ran_secs)),
{
}

/// What the supervisor sees of the sensor thread.
#[derive(Debug)]
pub enum SupervisorEvent {
    /// The thread could not be started.
    SpawnFailed,
    /// The sensor said something.
    Message(SensorMessage),
    /// The sensor said nothing for a while.
    Quiet,
    /// The thread ended, after this many seconds.
    Gone { ran_secs: u64 },
}

/// What the supervisor does next.
#[derive(Debug)]
pub enum SupervisorAction {
    /// Send this to the core and go on listening.
    Forward(Msg),
    /// Go on listening.
    Listen,
    /// Stop the sensor thread, and end.
    StopSensor,
    /// End: the daemon is stopping and the thread is gone.
    End,
    /// Tell the core that the sensor is restarting, wait this long, and start it again.
    Restart { backoff_secs: u64 },
    /// Tell the core that the sensor has ended for good, and end.
    GiveUp,
}

/// What a [`SupervisorAction`] holds.
pub enum SupervisorActionView {
    Forward(MsgView),
    Listen,
    StopSensor,
    End,
    Restart { backoff_secs: u64 },
    GiveUp,
}

impl View for SupervisorAction {
    type V = SupervisorActionView;

    open spec fn view(&self) -> SupervisorActionView {
        match self {
            SupervisorAction::Forward(m) => SupervisorActionView::Forward(m@),
            SupervisorAction::Listen => SupervisorActionView::Listen,
            SupervisorAction::StopSensor => SupervisorActionView::StopSensor,
            SupervisorAction::End => SupervisorActionView::End,
            SupervisorAction::Restart { backoff_secs } => SupervisorActionView::Restart {
                backoff_secs: *backoff_secs,
            },
            SupervisorAction::GiveUp => SupervisorActionView::GiveUp,
        }
    }
}

/// What the core is told of a sensor's message.
pub open spec fn core_message(m: SensorMessageView) -> MsgView {
    match m {
        SensorMessageView::Started => MsgView::SensorStarted,
        SensorMessageView::Event(e) => MsgView::Sensor(e),
        SensorMessageView::EventsLost => MsgView::SensorLost,
    }
}

impl Supervisor {
    /// What the supervisor does about an event; `stop` is whether the daemon is stopping.
    pub open spec fn action(self, event: SupervisorEvent, stop: bool) -> SupervisorActionView {
        match event {
            SupervisorEvent::SpawnFailed => SupervisorActionView::GiveUp,
            SupervisorEvent::Message(m) => SupervisorActionView::Forward(core_message(m@)),
            SupervisorEvent::Quiet => if stop {
                SupervisorActionView::StopSensor
            } else {
                SupervisorActionView::Listen
            },
            SupervisorEvent::Gone { ran_secs } => if stop {
                SupervisorActionView::End
            } else if self.counted(ran_secs) > MAX_RESPAWNS {
                SupervisorActionView::GiveUp
            } else {
                SupervisorActionView::Restart { backoff_secs: backoff_of(self.counted(ran_secs)) }
            },
        }
    }

    /// What to do about an event; `stop` is whether the daemon is stopping. Every message goes
    /// to the core, and a sensor that is gone while the daemon runs is restarted or reported:
    /// the core is never left to believe in a sensor that is not watching.
    pub fn on_event(&mut self, event: SupervisorEvent, stop: bool) -> (r: SupervisorAction)
        requires
            old(self).failures < u32::MAX,
        ensures
            r@ == old(self).action(event, stop),
            final(self).failures == (match event {
                SupervisorEvent::Gone { ran_secs } => if stop {
                    old(self).failures as nat
                } else {
                    old(self).counted(ran_secs)
                },
                _ => old(self).failures as nat,
            }),
    {
        match event {
            SupervisorEvent::SpawnFailed => SupervisorAction::GiveUp,
            SupervisorEvent::Message(m) => SupervisorAction::Forward(
                match m {
                    SensorMessage::Started => Msg::SensorStarted,
                    SensorMessage::Event(e) => Msg::Sensor(e),
                    SensorMessage::EventsLost => Msg::SensorLost,
                },
            ),
            SupervisorEvent::Quiet => if stop {
                SupervisorAction::StopSensor
            } else {
                SupervisorAction::Listen
            },
            SupervisorEvent::Gone { ran_secs } => if stop {
                SupervisorAction::End
            } else {
                match self.on_stopped(ran_secs) {
                    SupervisorStep::GiveUp => SupervisorAction::GiveUp,
                    SupervisorStep::Respawn { backoff_secs } => SupervisorAction::Restart {
                        backoff_secs,
                    },
                }
            },
        }
    }
}

/// While the daemon runs, a sensor that is gone is restarted or given up for good, and both are
/// told to the core; a supervisor that goes on has fewer failures in a row than end it.
pub proof fn a_gone_sensor_is_never_ignored(s: Supervisor, event: SupervisorEvent)
    ensures
        match event {
            SupervisorEvent::SpawnFailed => s.action(event, false) is GiveUp,
            SupervisorEvent::Gone { ran_secs } => s.action(event, false) is GiveUp
                || s.action(event, false) is Restart && s.counted(ran_secs) <= MAX_RESPAWNS,
            SupervisorEvent::Message(_) => s.action(event, false) is Forward,
            SupervisorEvent::Quiet => s.action(event, false) is Listen,
        },
{
}

/// How long a failing sensor is put up with: five respawns in a row, each after a longer wait than
/// the one before, fifty-three seconds of waiting in all, and the sixth failure gives up; a run of a
/// minute or more starts the count over.
pub proof fn a_failing_sensor_gets_five_more_chances(s: Supervisor, ran_secs: u64)
    ensures
        s.action(SupervisorEvent::Gone { ran_secs }, false) is GiveUp <==> ran_secs < 60
            && s.failures >= 5,
        s.action(SupervisorEvent::Gone { ran_secs }, false) matches SupervisorActionView::Restart {
            backoff_secs,
        } ==> 1 <= backoff_secs <= 30,
        backoff_of(1) + backoff_of(2) + backoff_of(3) + backoff_of(4) + backoff_of(5) == 53,
        backoff_of(1) == 1 && backoff_of(5) == 30,
        forall|n: nat| 1 <= n < 5 ==> #[trigger] backoff_of(n) < backoff_of(n + 1),
{
    assert(backoff_of(2) == backoff_of(1 + 1));
}

/// What the sensor says reaches the core as what it is, whether or not the daemon is stopping.
pub proof fn the_core_hears_what_the_sensor_says(s: Supervisor, m: SensorMessage, stop: bool)
    ensures
        s.action(SupervisorEvent::Message(m), stop) matches SupervisorActionView::Forward(msg) && (
        match m {
            SensorMessage::Started => msg is SensorStarted,
            SensorMessage::EventsLost => msg is SensorLost,
            SensorMessage::Event(e) => msg == MsgView::Sensor(e@),
        }),
        stop ==> !(s.action(SupervisorEvent::Gone { ran_secs: 0 }, stop) is Restart),
        stop ==> s.action(SupervisorEvent::Quiet, stop) is StopSensor,
{
}

} // verus!
