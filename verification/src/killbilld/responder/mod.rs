//! Responders: what a kill decision *does*.
//!
//! The policy engine produces an [`Action`]; a responder turns it into a
//! [`Response`], which the program carries out. Responders are independent
//! subscribers, never a chain: each gets its own copy of the action, and no
//! responder can see, wait on, or fail another. The poweroff responder comes
//! first.

pub mod logger;
pub mod luks_destroy;
pub mod poweroff;

use crate::killbilld::config::{Config, ConfigView};
use crate::killbilld::responder::logger::LoggerResponder;
use crate::killbilld::responder::luks_destroy::LuksDestroyResponder;
use crate::killbilld::responder::poweroff::PoweroffResponder;
use crate::proto::action::{Action, PowerAction};
use crate::text;
use vstd::prelude::*;

verus! {

/// How loud a log line is.
#[derive(Debug, Clone, Copy, PartialEq, Eq, Structural)]
pub enum LogLevel {
    Debug,
    Info,
    Warn,
    Error,
}

/// One structured log line: a message and named fields.
#[derive(Debug, Clone, PartialEq, Eq)]
pub struct LogLine {
    pub level: LogLevel,
    pub message: String,
    pub fields: Vec<LogField>,
}

/// One named field of a log line.
#[derive(Debug, Clone, PartialEq, Eq)]
pub struct LogField {
    pub name: &'static str,
    pub value: String,
}

/// What a [`LogField`] holds.
pub struct LogFieldView {
    pub name: Seq<char>,
    pub value: Seq<char>,
}

/// What a [`LogLine`] holds.
pub struct LogLineView {
    pub level: LogLevel,
    pub message: Seq<char>,
    pub fields: Seq<LogFieldView>,
}

impl View for LogField {
    type V = LogFieldView;

    open spec fn view(&self) -> LogFieldView {
        LogFieldView { name: self.name@, value: self.value@ }
    }
}

impl View for LogLine {
    type V = LogLineView;

    open spec fn view(&self) -> LogLineView {
        LogLineView {
            level: self.level,
            message: self.message@,
            fields: text::views(self.fields@),
        }
    }
}

impl LogLineView {
    /// A message without fields.
    pub open spec fn plain(level: LogLevel, message: Seq<char>) -> LogLineView {
        LogLineView { level, message, fields: Seq::empty() }
    }

    /// The line with one more field.
    pub open spec fn with(self, name: Seq<char>, value: Seq<char>) -> LogLineView {
        LogLineView { fields: self.fields.push(LogFieldView { name, value }), ..self }
    }
}

impl LogLine {
    /// A message without fields.
    pub fn plain(level: LogLevel, message: String) -> (r: Self)
        ensures
            r@ == LogLineView::plain(level, message@),
    {
        let r = LogLine { level, message, fields: Vec::new() };
        assert(r@.fields =~= Seq::<LogFieldView>::empty());
        r
    }

    /// The line with one more field.
    pub fn with(self, name: &'static str, value: String) -> (r: Self)
        ensures
            r@ == self@.with(name@, value@),
    {
        let mut fields = self.fields;
        fields.push(LogField { name, value });
        let r = LogLine { level: self.level, message: self.message, fields };
        assert(r@.fields =~= self@.with(name@, value@).fields);
        r
    }
}

/// The word for a flag.
pub open spec fn flag_word(b: bool) -> Seq<char> {
    if b {
        "true"@
    } else {
        "false"@
    }
}

/// The word for a flag.
pub fn flag_text(b: bool) -> (r: &'static str)
    ensures
        r@ == flag_word(b),
{
    if b {
        "true"
    } else {
        "false"
    }
}

/// What a responder wants done.
#[derive(Debug, Clone, PartialEq, Eq)]
pub enum Response {
    /// Nothing.
    Silent,
    /// Write this line to the log.
    Log(LogLine),
    /// Cut the power now, before anything else.
    Power(PowerAction),
}

/// What a [`Response`] holds.
pub enum ResponseView {
    Silent,
    Log(LogLineView),
    Power(PowerAction),
}

impl View for Response {
    type V = ResponseView;

    open spec fn view(&self) -> ResponseView {
        match self {
            Response::Silent => ResponseView::Silent,
            Response::Log(line) => ResponseView::Log(line@),
            Response::Power(p) => ResponseView::Power(*p),
        }
    }
}

/// A single, independent reaction to a kill [`Action`]. It holds only what config gave it, and
/// assumes nothing of any other responder.
///
/// The spec functions say what the executable methods give. An impl that is to be verified states
/// all three of them; their defaults say nothing, and are there for a program that brings a
/// responder of its own outside of Verus.
pub trait Responder {
    /// What the responder is called.
    open spec fn called(&self) -> Seq<char> {
        arbitrary()
    }

    /// What the responder wants done about an action.
    open spec fn response(&self, action: Action) -> ResponseView {
        arbitrary()
    }

    /// Why the responder could not act on this host.
    open spec fn obstacle(&self, host: HostProbeView) -> Option<Seq<char>> {
        arbitrary()
    }

    /// Stable identifier for logs. One word, kebab-case.
    fn name(&self) -> (r: &'static str)
        ensures
            r@ == self.called(),
    ;

    /// React to `action`.
    fn respond(&self, action: &Action) -> (r: Response)
        ensures
            r@ == self.response(*action),
    ;

    /// Checked from the arm path only. A responder that cannot possibly act
    /// returns `Err` so the daemon refuses to arm instead of reporting itself
    /// armed and failing at kill time.
    fn preflight(&self, host: &HostProbe) -> (r: Result<(), ResponderNotReady>)
        ensures
            match self.obstacle(host@) {
                None => r is Ok,
                Some(reason) => r matches Err(e) && e@ == (NotReadyView {
                    responder: self.called(),
                    reason,
                }),
            },
    ;
}

/// A responder that the daemon brings along.
#[derive(Debug, Clone, PartialEq, Eq)]
pub enum BuiltinResponder {
    Poweroff(PoweroffResponder),
    Logger(LoggerResponder),
    LuksDestroy(LuksDestroyResponder),
}

/// What a [`BuiltinResponder`] holds.
pub enum ResponderView {
    Poweroff,
    Logger,
    LuksDestroy { target: Seq<char> },
}

impl View for BuiltinResponder {
    type V = ResponderView;

    open spec fn view(&self) -> ResponderView {
        match self {
            BuiltinResponder::Poweroff(_) => ResponderView::Poweroff,
            BuiltinResponder::Logger(_) => ResponderView::Logger,
            BuiltinResponder::LuksDestroy(l) => ResponderView::LuksDestroy { target: l.target@ },
        }
    }
}

/// Whether a destruction target is what it should be.
#[derive(Debug, Clone, Copy, PartialEq, Eq, Structural)]
pub enum TargetState {
    /// There is a block device at the path.
    BlockDevice,
    /// There is something else at the path.
    OtherFile,
    /// There is nothing at the path, or it cannot be examined.
    Missing,
}

/// What was found at one destruction target.
#[derive(Debug, Clone, PartialEq, Eq)]
pub struct TargetProbe {
    pub path: String,
    pub state: TargetState,
}

/// What a [`TargetProbe`] holds.
pub struct TargetProbeView {
    pub path: Seq<char>,
    pub state: TargetState,
}

impl View for TargetProbe {
    type V = TargetProbeView;

    open spec fn view(&self) -> TargetProbeView {
        TargetProbeView { path: self.path@, state: self.state }
    }
}

/// What the host can do, as far as it was examined.
#[derive(Debug, Clone, PartialEq, Eq)]
pub struct HostProbe {
    /// Whether this is Linux, the only platform that the daemon can protect.
    pub on_linux: bool,
    /// Why the USB sensor could not be opened; `None` if it could.
    pub sensor_error: Option<String>,
    /// The text of `/proc/self/status`, if it could be read.
    pub process_status: Option<String>,
    /// What was found at the destruction targets that were examined.
    pub targets: Vec<TargetProbe>,
}

/// What a [`HostProbe`] holds.
pub struct HostProbeView {
    pub on_linux: bool,
    pub sensor_error: Option<Seq<char>>,
    pub process_status: Option<Seq<char>>,
    pub targets: Seq<TargetProbeView>,
}

impl View for HostProbe {
    type V = HostProbeView;

    open spec fn view(&self) -> HostProbeView {
        HostProbeView {
            on_linux: self.on_linux,
            sensor_error: text::opt_view(self.sensor_error),
            process_status: text::opt_view(self.process_status),
            targets: text::views(self.targets@),
        }
    }
}

/// What was found at `path`; a path that was not examined counts as missing.
pub open spec fn target_state(targets: Seq<TargetProbeView>, path: Seq<char>) -> TargetState
    decreases targets.len(),
{
    if targets.len() == 0 {
        TargetState::Missing
    } else if targets[0].path == path {
        targets[0].state
    } else {
        target_state(targets.skip(1), path)
    }
}

impl HostProbe {
    /// What was found at `path`; a path that was not examined counts as missing.
    pub fn target(&self, path: &str) -> (r: TargetState)
        ensures
            r == target_state(self@.targets, path@),
    {
        let ghost all = text::views(self.targets@);
        let mut i: usize = 0;
        assert(all.skip(0) == all);
        while i < self.targets.len()
            invariant
                i <= self.targets@.len(),
                all == text::views(self.targets@),
                target_state(all, path@) == target_state(all.skip(i as int), path@),
            decreases self.targets@.len() - i,
        {
            proof {
                assert(all.skip(i as int)[0] == self.targets@[i as int]@);
                assert(all.skip(i as int).skip(1) == all.skip(i + 1));
            }
            if text::same_text(self.targets[i].path.as_str(), path) {
                return self.targets[i].state;
            }
            i += 1;
        }
        TargetState::Missing
    }
}

/// A responder reported, at arm time, that it cannot act. The daemon refuses to
/// arm and surfaces every one of these.
#[derive(Debug, Clone, PartialEq, Eq)]
pub struct ResponderNotReady {
    pub responder: &'static str,
    pub reason: String,
}

/// What a [`ResponderNotReady`] holds.
pub struct NotReadyView {
    pub responder: Seq<char>,
    pub reason: Seq<char>,
}

impl View for ResponderNotReady {
    type V = NotReadyView;

    open spec fn view(&self) -> NotReadyView {
        NotReadyView { responder: self.responder@, reason: self.reason@ }
    }
}

impl NotReadyView {
    /// The message for the operator.
    pub open spec fn text(self) -> Seq<char> {
        "responder "@ + text::debug_text(self.responder) + " is not ready: "@ + self.reason
    }
}

impl ResponderNotReady {
    /// The message for the operator.
    pub fn to_text(&self) -> (r: String)
        ensures
            r@ == self@.text(),
    {
        "responder ".to_owned().concat(text::quoted(self.responder).as_str()).concat(
            " is not ready: ",
        ).concat(self.reason.as_str())
    }
}

impl ResponderView {
    /// Stable identifier for logs. One word, kebab-case.
    pub open spec fn name(self) -> Seq<char> {
        match self {
            ResponderView::Poweroff => "poweroff"@,
            ResponderView::Logger => "logger"@,
            ResponderView::LuksDestroy { .. } => "luks-destroy"@,
        }
    }

    /// What the responder wants done about an action.
    pub open spec fn response(self, action: Action) -> ResponseView {
        match self {
            ResponderView::Poweroff => poweroff::poweroff_response(action),
            ResponderView::Logger => ResponseView::Log(logger::kill_line(action)),
            ResponderView::LuksDestroy { target } => luks_destroy::luks_response(target, action),
        }
    }

    /// Why the responder could not act on this host.
    pub open spec fn obstacle(self, host: HostProbeView) -> Option<Seq<char>> {
        match self {
            ResponderView::Poweroff => poweroff::power_obstacle(
                host.on_linux,
                host.process_status,
            ),
            ResponderView::Logger => None,
            ResponderView::LuksDestroy { target } => luks_destroy::target_obstacle(
                target,
                target_state(host.targets, target),
            ),
        }
    }
}

impl Responder for BuiltinResponder {
    open spec fn called(&self) -> Seq<char> {
        self@.name()
    }

    open spec fn response(&self, action: Action) -> ResponseView {
        self@.response(action)
    }

    open spec fn obstacle(&self, host: HostProbeView) -> Option<Seq<char>> {
        self@.obstacle(host)
    }

    fn name(&self) -> (r: &'static str) {
        match self {
            BuiltinResponder::Poweroff(r) => r.name(),
            BuiltinResponder::Logger(r) => r.name(),
            BuiltinResponder::LuksDestroy(r) => r.name(),
        }
    }

    fn respond(&self, action: &Action) -> (r: Response) {
        match self {
            BuiltinResponder::Poweroff(r) => r.respond(action),
            BuiltinResponder::Logger(r) => r.respond(action),
            BuiltinResponder::LuksDestroy(r) => r.respond(action),
        }
    }

    fn preflight(&self, host: &HostProbe) -> (r: Result<(), ResponderNotReady>) {
        match self {
            BuiltinResponder::Poweroff(r) => r.preflight(host),
            BuiltinResponder::Logger(r) => r.preflight(host),
            BuiltinResponder::LuksDestroy(r) => r.preflight(host),
        }
    }
}

/// Whether `action` will actually try to power the machine down.
pub open spec fn powers_down(action: Action) -> bool {
    !action.dry_run && action.power != PowerAction::NoAction
}

/// Whether `action` will actually try to power the machine down.
pub fn attempts_power(action: &Action) -> (r: bool)
    ensures
        r == powers_down(*action),
{
    !action.dry_run && action.power != PowerAction::NoAction
}

/// Remembers whether a real kill is under way, and whether it has failed. Neither
/// is ever taken back.
#[derive(Debug, Clone, Copy, PartialEq, Eq, Structural)]
pub struct KillLatch {
    /// A kill that attempts a power action was dispatched.
    pub in_flight: bool,
    /// Every way to power down was tried, and the machine is still up.
    pub failed: bool,
}

/// What the process may do when it is asked to stop.
#[derive(Debug, Clone, Copy, PartialEq, Eq, Structural)]
pub enum ExitStep {
    /// Stop normally.
    Exit,
    /// Wait: the machine is going down, and leaving would abort that.
    Park,
    /// The kill failed: leave with an error so a supervisor restarts the daemon.
    Fail,
}

impl KillLatch {
    /// The latch once `action` was handed to the responders.
    pub open spec fn dispatched(self, action: Action) -> KillLatch {
        KillLatch { in_flight: self.in_flight || powers_down(action), failed: self.failed }
    }

    /// What the process may do when it is asked to stop.
    pub open spec fn exit(self) -> ExitStep {
        if !self.in_flight {
            ExitStep::Exit
        } else if self.failed {
            ExitStep::Fail
        } else {
            ExitStep::Park
        }
    }

    /// No kill so far.
    pub fn new() -> (r: Self)
        ensures
            r == (KillLatch { in_flight: false, failed: false }),
    {
        KillLatch { in_flight: false, failed: false }
    }

    /// Records that `action` is about to be handed to the responders. A dry run
    /// or a kill without a power action leaves no trace.
    pub fn on_dispatch(&mut self, action: &Action)
        ensures
            *final(self) == old(self).dispatched(*action),
    {
        if attempts_power(action) {
            self.in_flight = true;
        }
    }

    /// Records that every way to power down has failed.
    pub fn mark_kill_failed(&mut self)
        ensures
            *final(self) == (KillLatch { in_flight: old(self).in_flight, failed: true }),
    {
        self.failed = true;
    }

    /// `true` once a real kill has been dispatched.
    #[must_use]
    pub fn kill_in_flight(&self) -> (r: bool)
        ensures
            r == self.in_flight,
    {
        self.in_flight
    }

    /// `true` once every way to power down has failed.
    #[must_use]
    pub fn kill_failed(&self) -> (r: bool)
        ensures
            r == self.failed,
    {
        self.failed
    }

    /// What the process may do when it is asked to stop.
    pub fn exit_step(&self) -> (r: ExitStep)
        ensures
            r == self.exit(),
    {
        if !self.in_flight {
            ExitStep::Exit
        } else if self.failed {
            ExitStep::Fail
        } else {
            ExitStep::Park
        }
    }
}

/// The obstacles of the responders that have one, in order.
pub open spec fn obstacles(responders: Seq<ResponderView>, host: HostProbeView) -> Seq<NotReadyView>
    decreases responders.len(),
{
    if responders.len() == 0 {
        Seq::empty()
    } else {
        let before = obstacles(responders.drop_last(), host);
        match responders.last().obstacle(host) {
            Some(reason) => before.push(
                NotReadyView { responder: responders.last().name(), reason },
            ),
            None => before,
        }
    }
}

/// The obstacles of the responders that have one, in order, whatever kind they are.
pub open spec fn obstacles_of<R: Responder>(responders: Seq<R>, host: HostProbeView) -> Seq<
    NotReadyView,
>
    decreases responders.len(),
{
    if responders.len() == 0 {
        Seq::empty()
    } else {
        let before = obstacles_of(responders.drop_last(), host);
        match responders.last().obstacle(host) {
            Some(reason) => before.push(
                NotReadyView { responder: responders.last().called(), reason },
            ),
            None => before,
        }
    }
}

proof fn obstacles_are_those_of_the_views(responders: Seq<BuiltinResponder>, host: HostProbeView)
    ensures
        obstacles_of(responders, host) == obstacles(text::views(responders), host),
    decreases responders.len(),
{
    if responders.len() > 0 {
        obstacles_are_those_of_the_views(responders.drop_last(), host);
        assert(text::views(responders).drop_last() =~= text::views(responders.drop_last()));
        assert(text::views(responders).last() == responders.last()@);
    }
}

/// Run every responder's [`Responder::preflight`]. Returns all failures; the
/// daemon refuses to arm if there is one.
#[must_use]
pub fn preflight<R: Responder>(responders: &Vec<R>, host: &HostProbe) -> (r: Vec<
    ResponderNotReady,
>)
    ensures
        text::views(r@) == obstacles_of(responders@, host@),
{
    let mut failures: Vec<ResponderNotReady> = Vec::new();
    let mut i: usize = 0;
    assert(text::views(failures@) =~= Seq::<NotReadyView>::empty());
    while i < responders.len()
        invariant
            i <= responders@.len(),
            text::views(failures@) == obstacles_of(responders@.take(i as int), host@),
        decreases responders@.len() - i,
    {
        let ghost had = text::views(failures@);
        proof {
            assert(responders@.take(i + 1).drop_last() == responders@.take(i as int));
        }
        match responders[i].preflight(host) {
            Ok(()) => {},
            Err(e) => {
                failures.push(e);
                assert(text::views(failures@) == had.push(e@));
            },
        }
        i += 1;
    }
    assert(responders@.take(i as int) == responders@);
    failures
}

/// What would keep the responders of a config from acting on this host.
#[must_use]
pub fn not_ready(cfg: &Config, host: &HostProbe) -> (r: Vec<ResponderNotReady>)
    ensures
        text::views(r@) == obstacles(responders_of(cfg@), host@),
{
    let responders = build_responders(cfg);
    proof {
        obstacles_are_those_of_the_views(responders@, host@);
    }
    preflight(&responders, host)
}

/// The responder set of a config: the poweroff first, then the logger, then the
/// destruction stub if the config has an acknowledged target.
pub open spec fn responders_of(cfg: ConfigView) -> Seq<ResponderView> {
    match cfg.luks_destroy {
        Some(target) => seq![
            ResponderView::Poweroff,
            ResponderView::Logger,
            ResponderView::LuksDestroy { target },
        ],
        None => seq![ResponderView::Poweroff, ResponderView::Logger],
    }
}

/// Assemble the responder set for a validated config.
pub fn build_responders(cfg: &Config) -> (r: Vec<BuiltinResponder>)
    ensures
        text::views(r@) == responders_of(cfg@),
{
    let mut responders: Vec<BuiltinResponder> = Vec::new();
    responders.push(BuiltinResponder::Poweroff(PoweroffResponder));
    responders.push(BuiltinResponder::Logger(LoggerResponder));
    match &cfg.luks_destroy {
        Some(luks) => {
            responders.push(
                BuiltinResponder::LuksDestroy(LuksDestroyResponder::new(luks.target_header.clone())),
            );
        },
        None => {},
    }
    assert(text::views(responders@) =~= responders_of(cfg@));
    responders
}

/// The kill path starts with the poweroff: whatever the config, the first responder is the
/// one that cuts the power, and it does so at once for every action that is to power down.
pub proof fn power_is_cut_first(cfg: ConfigView, action: Action)
    ensures
        responders_of(cfg).len() > 0,
        powers_down(action) <==> responders_of(cfg)[0].response(action) == ResponseView::Power(
            action.power,
        ),
{
}

/// No responder but the first ever touches the power, and nothing touches it in a dry run.
pub proof fn only_the_first_responder_cuts_power(cfg: ConfigView, action: Action, i: int)
    requires
        0 <= i < responders_of(cfg).len(),
    ensures
        responders_of(cfg)[i].response(action) is Power ==> i == 0 && !action.dry_run,
{
}

/// A signal never aborts a pending kill: once a real kill was dispatched the process does not
/// exit normally, whatever is dispatched after it, and a dry run never holds the process back.
pub proof fn a_pending_kill_is_never_skipped(latch: KillLatch, action: Action)
    ensures
        powers_down(action) ==> latch.dispatched(action).exit() != ExitStep::Exit,
        latch.exit() != ExitStep::Exit ==> latch.dispatched(action).exit() == latch.exit(),
        action.dry_run ==> latch.dispatched(action) == latch,
{
}

/// What a kill does to the machine: the power action is carried out exactly where the action is no
/// dry run and names one, it is the one that is named, and no other responder carries one out.
pub proof fn a_real_kill_does_what_it_names(cfg: ConfigView, action: Action, power: PowerAction)
    ensures
        ({
            let all = responders_of(cfg);
            &&& all.len() >= 2
            &&& all[0].response(action) == ResponseView::Power(power) <==> !action.dry_run
                && action.power == power && power != PowerAction::NoAction
            &&& forall|i: int|
                1 <= i < all.len() ==> !((#[trigger] all[i]).response(action) is Power)
            &&& all.len() == 3 <==> cfg.luks_destroy is Some
        }),
{
}

/// Every kill leaves a line that says why it fired, as an error where it was real and as a warning
/// where it was a dry run, which says that nothing was done.
pub proof fn every_kill_is_logged(cfg: ConfigView, action: Action)
    ensures
        responders_of(cfg)[1].response(action) matches ResponseView::Log(line) && {
            &&& text::shows(line.message, action.reason.text())
            &&& line.level == LogLevel::Error <==> !action.dry_run
            &&& action.dry_run ==> text::shows_at(line.message, "DRY RUN"@, 0)
            &&& !action.dry_run ==> text::shows_at(line.message, "KILL"@, 0)
        },
{
    reveal_strlit("DRY RUN");
    reveal_strlit("KILL");
    reveal_strlit("DRY RUN — a kill decision fired; no action was taken: ");
    reveal_strlit("KILL — responding to: ");
    let dry = "DRY RUN — a kill decision fired; no action was taken: "@;
    let wet = "KILL — responding to: "@;
    let why = action.reason.text();
    text::what_is_added_shows(dry, why, Seq::empty());
    text::what_is_added_shows(wet, why, Seq::empty());
    assert((dry + why).subrange(0, 7) =~= "DRY RUN"@);
    assert((wet + why).subrange(0, 4) =~= "KILL"@);
}

/// Destruction is spoken of exactly where a kill asks for it and a target is configured, and then the
/// line names that target.
pub proof fn destruction_names_its_target(cfg: ConfigView, action: Action)
    requires
        cfg.luks_destroy is Some,
    ensures
        ({
            let said = responders_of(cfg)[2].response(action);
            &&& said is Silent <==> !action.luks_destroy
            &&& action.luks_destroy ==> (said matches ResponseView::Log(line) && line.fields.len()
                >= 1 && line.fields[0].name == "target_header"@ && line.fields[0].value
                == cfg.luks_destroy->0)
        }),
{
}

/// The responders of a config are all ready exactly where the machine can be powered off and the
/// destruction target, if there is one, is a block device; each that is not is named, with why.
pub proof fn every_obstacle_is_named(cfg: ConfigView, host: HostProbeView)
    ensures
        ({
            let power = poweroff::power_obstacle(host.on_linux, host.process_status);
            let found = obstacles(responders_of(cfg), host);
            &&& found.len() == 0 <==> power is None && (cfg.luks_destroy matches Some(t)
                ==> target_state(host.targets, t) == TargetState::BlockDevice)
            &&& power matches Some(why) ==> found.len() >= 1 && found[0].responder == "poweroff"@
                && found[0].reason == why
            &&& cfg.luks_destroy matches Some(t) ==> (target_state(host.targets, t)
                != TargetState::BlockDevice ==> found.len() >= 1 && found.last().responder
                == "luks-destroy"@)
        }),
{
    reveal_with_fuel(obstacles, 4);
    let all = responders_of(cfg);
    if let Some(t) = cfg.luks_destroy {
        assert(all.drop_last() =~= seq![ResponderView::Poweroff, ResponderView::Logger]);
        assert(all.drop_last().drop_last() =~= seq![ResponderView::Poweroff]);
        assert(all.drop_last().drop_last().drop_last() =~= Seq::empty());
    } else {
        assert(all.drop_last() =~= seq![ResponderView::Poweroff]);
        assert(all.drop_last().drop_last() =~= Seq::empty());
    }
}

/// What was found at a path is what its probe says, and a path that was not probed is missing.
pub proof fn a_target_is_what_its_probe_found(targets: Seq<TargetProbeView>, path: Seq<char>, i: int)
    ensures
        0 <= i < targets.len() && targets[i].path == path && (forall|j: int|
            0 <= j < i ==> (#[trigger] targets[j]).path != path) ==> target_state(targets, path)
            == targets[i].state,
        (forall|j: int| 0 <= j < targets.len() ==> (#[trigger] targets[j]).path != path)
            ==> target_state(targets, path) == TargetState::Missing,
    decreases targets.len(),
{
    if targets.len() > 0 {
        let rest = targets.skip(1);
        a_target_is_what_its_probe_found(rest, path, i - 1);
        assert forall|j: int| 0 <= j < rest.len() implies rest[j] == #[trigger] targets[j + 1] by {}
        if 0 < i < targets.len() && forall|j: int|
            0 <= j < i ==> (#[trigger] targets[j]).path != path {
            assert forall|j: int| 0 <= j < i - 1 implies (#[trigger] rest[j]).path != path by {
                assert(rest[j] == targets[j + 1]);
            }
            assert(targets[0].path != path);
        }
        if forall|j: int| 0 <= j < targets.len() ==> (#[trigger] targets[j]).path != path {
            assert(targets[0].path != path);
            assert forall|j: int| 0 <= j < rest.len() implies (#[trigger] rest[j]).path != path by {
                assert(rest[j] == targets[j + 1]);
            }
        }
    }
}

/// The process may leave exactly where no real kill was dispatched; a dry run and a kill without a
/// power action hold nothing back, and a kill that failed lets it leave with an error.
pub proof fn a_real_kill_holds_the_process(latch: KillLatch, action: Action)
    ensures
        (KillLatch { in_flight: false, failed: false }).exit() == ExitStep::Exit,
        !action.dry_run && action.power != PowerAction::NoAction && !latch.failed
            ==> latch.dispatched(action).exit() == ExitStep::Park,
        action.dry_run || action.power == PowerAction::NoAction ==> latch.dispatched(action)
            == latch,
        latch.in_flight ==> latch.exit() != ExitStep::Exit,
        latch.in_flight && latch.failed ==> latch.exit() == ExitStep::Fail,
{
}

} // verus!
