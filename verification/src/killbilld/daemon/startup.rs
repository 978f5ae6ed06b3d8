//! Starting: settling before `armed_at_boot` is honoured, and reading the command line.

use crate::killbilld::daemon::authority;
use crate::killbilld::daemon::journal;
use crate::killbilld::daemon::state::{Core, CoreView, Effect, Msg, MsgView, RunOptions};
use crate::killbilld::daemon::step;
use crate::killbilld::daemon::step::Step;
use crate::killbilld::responder::{HostProbe, HostProbeView};
use crate::text;
use vstd::prelude::*;

verus! {

/// How long the inbox must be quiet of sensor traffic before `armed_at_boot` arms, in
/// milliseconds. Lets a device present at boot be recorded as an observation.
pub const STARTUP_QUIET_MS: u64 = 250;

/// Ceiling on the settling wait, so a sensor that never starts does not hold it forever.
pub const STARTUP_CEILING_MS: u64 = 5000;

/// The `armed_at_boot` decision once the startup burst has settled.
#[derive(Debug, Clone, Copy, PartialEq, Eq, Structural)]
pub enum BootArm {
    /// `armed_at_boot` is not set.
    NotRequested,
    /// Arm now: the sensor is watching and no gap occurred.
    Now,
    /// The sensor is not up yet; leave the arm pending for a later start.
    WhenSensorStarts,
    /// A gap occurred during startup: refuse.
    RefuseGap,
}

/// The decision on arming at boot.
pub open spec fn boot_arm_decision(
    armed_at_boot: bool,
    events_lost: bool,
    sensor_ok: bool,
) -> BootArm {
    if !armed_at_boot {
        BootArm::NotRequested
    } else if events_lost {
        BootArm::RefuseGap
    } else if sensor_ok {
        BootArm::Now
    } else {
        BootArm::WhenSensorStarts
    }
}

/// The decision on arming at boot.
pub fn boot_arm_after_settle(armed_at_boot: bool, events_lost: bool, sensor_ok: bool) -> (r:
    BootArm)
    ensures
        r == boot_arm_decision(armed_at_boot, events_lost, sensor_ok),
{
    if !armed_at_boot {
        BootArm::NotRequested
    } else if events_lost {
        BootArm::RefuseGap
    } else if sensor_ok {
        BootArm::Now
    } else {
        BootArm::WhenSensorStarts
    }
}

/// What the core does once startup has settled.
pub open spec fn after_settle(s: Step, host: HostProbeView, at: Seq<char>) -> Step {
    let wish = Step { core: CoreView { boot_arm_pending: true, ..s.core }, ..s };
    match boot_arm_decision(s.core.config.armed_at_boot, s.core.events_lost, s.core.sensor_ok) {
        BootArm::NotRequested => s,
        BootArm::RefuseGap => s.log(journal::boot_arm_gap()),
        BootArm::Now => step::boot_arm(wish, host, at),
        BootArm::WhenSensorStarts => wish.log(journal::boot_arm_waits()),
    }
}

impl Core {
    /// Honour `armed_at_boot` once startup has settled. Says what was decided.
    pub fn after_settle(&mut self, fx: &mut Vec<Effect>, host: &HostProbe, at: &str) -> (r: BootArm)
        requires
            old(self).wf(),
        ensures
            final(self).wf(),
            authority::now(final(self), final(fx)) == after_settle(
                authority::now(old(self), old(fx)),
                host@,
                at@,
            ),
            r == boot_arm_decision(
                old(self)@.config.armed_at_boot,
                old(self)@.events_lost,
                old(self)@.sensor_ok,
            ),
    {
        let decision = boot_arm_after_settle(
            self.config.armed_at_boot,
            self.events_lost,
            self.sensor_ok,
        );
        match decision {
            BootArm::NotRequested => {},
            BootArm::RefuseGap => {
                authority::log(fx, journal::boot_arm_gap_line());
            },
            BootArm::Now => {
                self.boot_arm_pending = true;
                self.try_boot_arm(fx, host, at);
            },
            BootArm::WhenSensorStarts => {
                self.boot_arm_pending = true;
                authority::log(fx, journal::boot_arm_waits_line());
            },
        }
        decision
    }
}

/// Whether a message is sensor traffic, which keeps startup from settling.
pub open spec fn is_traffic(msg: MsgView) -> bool {
    msg is Sensor || msg is SensorLost || msg is SensorStarted || msg is SensorRestarting
}

/// Whether a message is sensor traffic.
pub fn sensor_traffic(msg: &Msg) -> (r: bool)
    ensures
        r == is_traffic(msg@),
{
    match msg {
        Msg::Sensor(_) | Msg::SensorLost | Msg::SensorStarted | Msg::SensorRestarting => true,
        _ => false,
    }
}

/// The startup clock, in milliseconds.
#[derive(Debug, Clone, Copy, PartialEq, Eq, Structural)]
pub struct Settling {
    pub started: u64,
    pub last_traffic: u64,
}

/// The time from `then` to `now`, none if the clock went back.
pub open spec fn elapsed(then: u64, now: u64) -> int {
    if now >= then {
        now - then
    } else {
        0
    }
}

impl Settling {
    pub fn new(now: u64) -> (r: Self)
        ensures
            r == (Settling { started: now, last_traffic: now }),
    {
        Settling { started: now, last_traffic: now }
    }

    /// Whether startup is over: the ceiling is reached, or the sensor is watching and has
    /// been quiet long enough.
    pub open spec fn is_over(self, now: u64, sensor_ok: bool) -> bool {
        elapsed(self.started, now) >= STARTUP_CEILING_MS || sensor_ok && elapsed(
            self.last_traffic,
            now,
        ) >= STARTUP_QUIET_MS
    }

    /// Whether startup is over.
    pub fn over(&self, now: u64, sensor_ok: bool) -> (r: bool)
        ensures
            r == self.is_over(now, sensor_ok),
    {
        now.saturating_sub(self.started) >= STARTUP_CEILING_MS || sensor_ok && now.saturating_sub(
            self.last_traffic,
        ) >= STARTUP_QUIET_MS
    }

    /// Records sensor traffic.
    pub fn note_traffic(&mut self, now: u64)
        ensures
            *final(self) == (Settling { started: old(self).started, last_traffic: now }),
    {
        self.last_traffic = now;
    }
}

/// Settling always ends, sensor or not.
pub proof fn settling_ends(s: Settling, now: u64, sensor_ok: bool)
    requires
        now >= s.started + STARTUP_CEILING_MS,
    ensures
        s.is_over(now, sensor_ok),
{
}

/// Where config is read from unless the command line says otherwise.
pub open spec fn default_config_path() -> Seq<char> {
    "/etc/killbill/config.toml"@
}

/// Where the control socket is unless the command line says otherwise.
pub open spec fn default_socket_path() -> Seq<char> {
    "/run/killbilld.sock"@
}

/// What the command line asks for.
#[derive(Debug, Clone, PartialEq, Eq)]
pub enum Invocation {
    Run(RunOptions),
    Help,
    Version,
}

/// What an [`Invocation`] holds.
pub enum InvocationView {
    Run { config_path: Seq<char>, socket_path: Seq<char> },
    Help,
    Version,
}

impl View for Invocation {
    type V = InvocationView;

    open spec fn view(&self) -> InvocationView {
        match self {
            Invocation::Run(o) => InvocationView::Run {
                config_path: o.config_path@,
                socket_path: o.socket_path@,
            },
            Invocation::Help => InvocationView::Help,
            Invocation::Version => InvocationView::Version,
        }
    }
}

/// What the arguments from the `i`-th on ask for, with these paths so far. The first request
/// for help or the version, or the first mistake, ends the reading.
pub open spec fn parsed(
    args: Seq<Seq<char>>,
    i: int,
    config_path: Seq<char>,
    socket_path: Seq<char>,
) -> Result<InvocationView, Seq<char>>
    decreases args.len() - i,
{
    if i >= args.len() {
        Ok(InvocationView::Run { config_path, socket_path })
    } else if args[i] == "-c"@ || args[i] == "--config"@ {
        if i + 1 < args.len() {
            parsed(args, i + 2, args[i + 1], socket_path)
        } else {
            Err("--config needs a path"@)
        }
    } else if args[i] == "-s"@ || args[i] == "--socket"@ {
        if i + 1 < args.len() {
            parsed(args, i + 2, config_path, args[i + 1])
        } else {
            Err("--socket needs a path"@)
        }
    } else if args[i] == "-h"@ || args[i] == "--help"@ {
        Ok(InvocationView::Help)
    } else if args[i] == "-V"@ || args[i] == "--version"@ {
        Ok(InvocationView::Version)
    } else {
        Err("unexpected argument "@ + text::debug_text(args[i]) + " (try --help)"@)
    }
}

/// Whether an argument is one of two spellings.
fn is_either(arg: &String, a: &str, b: &str) -> (r: bool)
    ensures
        r == (arg@ == a@ || arg@ == b@),
{
    text::same_text(arg.as_str(), a) || text::same_text(arg.as_str(), b)
}

/// What the command line, without the program's name, asks for.
pub fn parse_args(args: &Vec<String>) -> (r: Result<Invocation, String>)
    ensures
        match parsed(text::views(args@), 0, default_config_path(), default_socket_path()) {
            Ok(v) => r matches Ok(i) && i@ == v,
            Err(e) => r matches Err(s) && s@ == e,
        },
{
    let ghost all = text::views(args@);
    let mut config_path = "/etc/killbill/config.toml".to_owned();
    let mut socket_path = "/run/killbilld.sock".to_owned();
    let mut i: usize = 0;
    while i < args.len()
        invariant
            i <= args@.len(),
            all == text::views(args@),
            parsed(all, 0, default_config_path(), default_socket_path()) == parsed(
                all,
                i as int,
                config_path@,
                socket_path@,
            ),
        decreases args@.len() - i,
    {
        let len: usize = args.len();
        assert(all[i as int] == args@[i as int]@);
        assert(i + 1 < len ==> all[i + 1] == args@[i + 1]@);
        if is_either(&args[i], "-c", "--config") {
            if i + 1 >= len {
                return Err("--config needs a path".to_owned());
            }
            config_path = args[i + 1].clone();
            i += 2;
        } else if is_either(&args[i], "-s", "--socket") {
            if i + 1 >= len {
                return Err("--socket needs a path".to_owned());
            }
            socket_path = args[i + 1].clone();
            i += 2;
        } else if is_either(&args[i], "-h", "--help") {
            return Ok(Invocation::Help);
        } else if is_either(&args[i], "-V", "--version") {
            return Ok(Invocation::Version);
        } else {
            return Err(
                "unexpected argument ".to_owned().concat(
                    text::quoted(args[i].as_str()).as_str(),
                ).concat(" (try --help)"),
            );
        }
    }
    Ok(Invocation::Run(RunOptions { config_path, socket_path }))
}

/// What the command line may say: nothing, and the usual paths are taken; either path, by its short
/// or its long name; both, in either order; and a later path in place of an earlier one.
pub proof fn paths_are_read_from_the_command_line(
    c: Seq<char>,
    s: Seq<char>,
    config_name: Seq<char>,
    socket_name: Seq<char>,
)
    requires
        config_name == "-c"@ || config_name == "--config"@,
        socket_name == "-s"@ || socket_name == "--socket"@,
    ensures
        asked(Seq::empty()) == Ok::<InvocationView, Seq<char>>(
            InvocationView::Run {
                config_path: "/etc/killbill/config.toml"@,
                socket_path: "/run/killbilld.sock"@,
            },
        ),
        asked(seq![config_name, c]) == Ok::<InvocationView, Seq<char>>(
            InvocationView::Run { config_path: c, socket_path: "/run/killbilld.sock"@ },
        ),
        asked(seq![socket_name, s]) == Ok::<InvocationView, Seq<char>>(
            InvocationView::Run { config_path: "/etc/killbill/config.toml"@, socket_path: s },
        ),
        asked(seq![config_name, c, socket_name, s]) == Ok::<InvocationView, Seq<char>>(
            InvocationView::Run { config_path: c, socket_path: s },
        ),
        asked(seq![socket_name, s, config_name, c]) == Ok::<InvocationView, Seq<char>>(
            InvocationView::Run { config_path: c, socket_path: s },
        ),
        asked(seq![config_name, s, config_name, c]) == Ok::<InvocationView, Seq<char>>(
            InvocationView::Run { config_path: c, socket_path: "/run/killbilld.sock"@ },
        ),
        asked(seq![config_name]) is Err,
        asked(seq![socket_name]) is Err,
{
    reveal_strlit("-c");
    reveal_strlit("--config");
    reveal_strlit("-s");
    reveal_strlit("--socket");
    assert("-c"@.len() == 2 && "-s"@.len() == 2 && "--config"@.len() == 8 && "--socket"@.len() == 8);
    assert("-c"@[1] != "-s"@[1]);
    assert("--config"@[2] != "--socket"@[2]);
    reveal_with_fuel(parsed, 4);
}

/// What the arguments ask for, with the usual paths where they name none.
pub open spec fn asked(args: Seq<Seq<char>>) -> Result<InvocationView, Seq<char>> {
    parsed(args, 0, "/etc/killbill/config.toml"@, "/run/killbilld.sock"@)
}

/// Help and the version are given where they come first, whatever follows; an argument that is none
/// of the known ones is an error that names it.
pub proof fn other_arguments_are_answered_or_named(arg: Seq<char>, rest: Seq<Seq<char>>)
    ensures
        arg == "-h"@ || arg == "--help"@ ==> asked(seq![arg] + rest) == Ok::<
            InvocationView,
            Seq<char>,
        >(InvocationView::Help),
        arg == "-V"@ || arg == "--version"@ ==> asked(seq![arg] + rest) == Ok::<
            InvocationView,
            Seq<char>,
        >(InvocationView::Version),
        arg != "-c"@ && arg != "--config"@ && arg != "-s"@ && arg != "--socket"@ && arg != "-h"@
            && arg != "--help"@ && arg != "-V"@ && arg != "--version"@ ==> (asked(
            seq![arg] + rest,
        ) matches Err(e) && text::shows(e, text::debug_text(arg))),
{
    reveal_strlit("-c");
    reveal_strlit("--config");
    reveal_strlit("-s");
    reveal_strlit("--socket");
    reveal_strlit("-h");
    reveal_strlit("--help");
    reveal_strlit("-V");
    reveal_strlit("--version");
    assert("-h"@.len() == 2 && "-V"@.len() == 2 && "-c"@.len() == 2 && "-s"@.len() == 2);
    assert("--help"@.len() == 6 && "--version"@.len() == 9 && "--config"@.len() == 8
        && "--socket"@.len() == 8);
    assert("-h"@[1] != "-c"@[1] && "-h"@[1] != "-s"@[1] && "-h"@[1] != "-V"@[1]);
    assert("-V"@[1] != "-c"@[1] && "-V"@[1] != "-s"@[1]);
    let args = seq![arg] + rest;
    assert(args[0] == arg);
    text::what_is_added_shows("unexpected argument "@, text::debug_text(arg), " (try --help)"@);
    text::what_is_added_shows("unexpected argument "@, text::debug_text(arg), Seq::empty());
    text::what_shows_stays(
        "unexpected argument "@ + text::debug_text(arg),
        text::debug_text(arg),
        " (try --help)"@,
    );
}

/// What keeps startup from settling is what the sensor says, but for its end.
pub proof fn only_the_sensor_delays_startup(msg: MsgView)
    ensures
        is_traffic(msg) <==> msg is Sensor || msg is SensorLost || msg is SensorStarted
            || msg is SensorRestarting,
{
}

} // verus!
