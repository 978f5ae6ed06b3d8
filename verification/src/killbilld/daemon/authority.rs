//! The core itself: each message changes the state and adds effects, exactly as
//! [`step`](crate::killbilld::daemon::step) says.

use crate::killbilld::config;
use crate::killbilld::config::{
    Config, RawConfig, RawWhitelistEntry, RawWhitelistEntryView, SensorGapAction,
};
use crate::killbilld::control;
use crate::killbilld::control::PeerCred;
use crate::killbilld::daemon::journal;
use crate::killbilld::daemon::state::{
    Change, Core, CoreView, Delivery, Effect, EffectView, Flow, Msg, MsgView, Pending, Subscriber,
    BACKLOG_LIMIT, MAX_MISSES, MAX_SUBSCRIBERS,
};
use crate::killbilld::daemon::step;
use crate::killbilld::daemon::step::Step;
use crate::killbilld::daemon::tracker::DeviceTracker;
use crate::killbilld::device_table::DeviceTable;
use crate::killbilld::policy;
use crate::killbilld::policy::Decision;
use crate::killbilld::responder;
use crate::killbilld::responder::{
    HostProbe, LogLine, NotReadyView, ResponderNotReady,
};
use crate::killbilld::sensor::netlink::UsbNetlinkSensor;
use crate::proto::action::{Action, KillReason};
use crate::proto::protocol::{
    Command, ConfigChange, ConfigPayload, DeviceInfo, Event, LuksDestroyInfo,
    OnSensorGap, Reply, StatusPayload, StreamEvent, StreamEventView, WhitelistEntry,
    WhitelistEntryView,
};
use crate::proto::sensor_event;
use crate::proto::sensor_event::{
    DeviceIdentity, DeviceIdentityView, EventKind, SensorEvent, SensorSource, UsbId,
};
use crate::text;
use vstd::prelude::*;

verus! {

/// The core and the effects so far.
pub open spec fn now(core: &Core, fx: &Vec<Effect>) -> Step {
    Step { core: core@, fx: text::views(fx@) }
}

/// Adds an effect.
fn emit(fx: &mut Vec<Effect>, e: Effect)
    ensures
        text::views(final(fx)@) == text::views(old(fx)@).push(e@),
{
    let ghost had = text::views(fx@);
    fx.push(e);
    assert(text::views(fx@) == had.push(e@));
}

/// Adds an answer.
fn answer(fx: &mut Vec<Effect>, to: u64, reply: Reply)
    ensures
        text::views(final(fx)@) == text::views(old(fx)@).push(
            (EffectView::Answer { to, reply: reply@ }),
        ),
{
    emit(fx, Effect::Answer { to, reply });
}

/// Adds a line for the log.
pub fn log(fx: &mut Vec<Effect>, line: LogLine)
    ensures
        text::views(final(fx)@) == text::views(old(fx)@).push(EffectView::Log(line@)),
{
    emit(fx, Effect::Log(line));
}

/// The failures of a preflight in one line.
pub fn join_failures(failures: &Vec<ResponderNotReady>) -> (r: String)
    ensures
        r@ == step::joined(text::views(failures@)),
{
    let ghost all = text::views(failures@);
    let mut s = String::new();
    let mut i: usize = 0;
    assert(all.take(0) == Seq::<NotReadyView>::empty());
    while i < failures.len()
        invariant
            i <= failures@.len(),
            all == text::views(failures@),
            s@ == step::joined(all.take(i as int)),
        decreases failures@.len() - i,
    {
        proof {
            assert(all.take(i + 1).drop_last() == all.take(i as int));
            assert(all.take(i + 1).last() == failures@[i as int]@);
        }
        if i > 0 {
            s.append("; ");
            s.append(failures[i].to_text().as_str());
        } else {
            s = failures[i].to_text();
        }
        i += 1;
    }
    assert(all.take(i as int) == all);
    s
}

/// Whether a text writes this id, in either case.
fn writes_id(written: &str, id: UsbId) -> (r: bool)
    ensures
        r == (sensor_event::usb_id_of(written@) == Some(id)),
{
    match UsbId::parse(written) {
        Ok(read) => read == id,
        Err(_) => false,
    }
}

/// The name of a command in messages.
pub fn command_name(cmd: &Command) -> (r: &'static str)
    ensures
        r@ == step::command_name(cmd@),
{
    match cmd {
        Command::GetStatus => "status",
        Command::ListDevices => "list-devices",
        Command::Arm => "arm",
        Command::Disarm => "disarm",
        Command::WhitelistAdd(_) => "whitelist-add",
        Command::WhitelistRemove(_) => "whitelist-remove",
        Command::WhitelistList => "whitelist-list",
        Command::RunDryRun => "dry-run",
        Command::ReloadConfig => "reload",
        Command::GetConfig => "config-show",
        Command::ConfigSet(_) => "config-set",
        Command::SetLuksDestroyEngaged(_) => "luks-engage",
        Command::Subscribe => "subscribe",
    }
}

/// The config of an empty file.
fn default_config() -> (r: Config)
    ensures
        r@ == config::resolved(config::default_raw()),
{
    proof {
        config::the_default_config_is_valid();
    }
    match config::validate(RawConfig::default()) {
        Ok(c) => c,
        Err(_) => {
            assert(false);
            vstd::pervasive::unreached()
        },
    }
}

impl Core {
    /// The core as it starts, from what reading the config file gave.
    pub fn load(config_path: String, file: Result<RawConfig, String>) -> (r: Self)
        ensures
            r@ == step::loaded(
                config_path@,
                match file {
                    Ok(raw) => Ok(raw@),
                    Err(e) => Err(e@),
                },
            ),
            r.wf(),
    {
        proof {
            config::the_default_config_is_valid();
        }
        let (raw, config, config_error) = match file {
            Ok(raw) => match config::validate(raw.clone()) {
                Ok(config) => (raw, config, None),
                Err(report) => (RawConfig::default(), default_config(), Some(report.to_text())),
            },
            Err(e) => (RawConfig::default(), default_config(), Some(e)),
        };
        let core = Core {
            config_path,
            raw,
            config,
            config_error,
            armed: false,
            devices: DeviceTracker::new(),
            subscribers: Vec::new(),
            // Optimism is not allowed here: the sensor is "not ok" until it has told us
            // that its socket opened.
            sensor_ok: false,
            events_lost: false,
            gap_kill_dispatched: false,
            config_stale: false,
            disk_error: None,
            boot_arm_pending: false,
            pending: None,
            luks_destroy_engaged: false,
            backlog: Vec::new(),
        };
        assert(text::views(core.backlog@) =~= Seq::<StreamEventView>::empty());
        assert(core.subscribers@ =~= Seq::<Subscriber>::empty());
        core
    }

    /// What the log says of the config that the daemon starts on.
    pub fn startup_line(&self) -> (r: LogLine)
        ensures
            r@ == step::startup_line(self@),
    {
        match &self.config_error {
            Some(e) => journal::config_invalid_line(e.as_str()),
            None => journal::config_loaded_line(&self.config),
        }
    }

    /// Sends `event` to every subscriber, and keeps it for later ones.
    fn broadcast(&mut self, fx: &mut Vec<Effect>, at: &str, event: Event)
        requires
            old(self).wf(),
        ensures
            final(self).wf(),
            now(final(self), final(fx)) == now(old(self), old(fx)).publish(at@, event@),
    {
        proof {
            reveal(Step::publish);
        }
        let stamped = StreamEvent { at: at.to_owned(), event };
        let ghost had = text::views(self.backlog@);
        if self.backlog.len() >= BACKLOG_LIMIT {
            self.backlog.remove(0);
        }
        self.backlog.push(stamped.clone());
        proof {
            let longer = had.push(stamped@);
            assert(text::views(self.backlog@) =~= if longer.len() > BACKLOG_LIMIT {
                longer.skip(1)
            } else {
                longer
            });
        }
        emit(fx, Effect::Publish(stamped));
    }

    // --- sensor events ---------------------------------------------------

    /// The sensor is watching: a pending boot arm is tried.
    pub fn on_sensor_started(&mut self, fx: &mut Vec<Effect>, host: &HostProbe, at: &str)
        requires
            old(self).wf(),
        ensures
            final(self).wf(),
            now(final(self), final(fx)) == step::sensor_started(now(old(self), old(fx)), host@, at@),
    {
        proof {
            reveal(step::sensor_started);
        }
        self.sensor_ok = true;
        log(fx, journal::watching_line());
        if self.boot_arm_pending && !self.armed {
            self.try_boot_arm(fx, host, at);
        }
    }

    /// A device was plugged in or taken out.
    #[verifier::rlimit(40)]
    pub fn on_sensor_event(&mut self, fx: &mut Vec<Effect>, event: SensorEvent, at: &str)
        requires
            old(self).wf(),
        ensures
            final(self).wf(),
            now(final(self), final(fx)) == step::sensor_event(
                now(old(self), old(fx)),
                event@,
                at@,
            ),
    {
        proof {
            reveal(step::sensor_event);
        }
        let synthesized = event.raw.contains_key("SYNTH_UUID");
        let synthetic = event.kind == EventKind::Added && synthesized;
        // Decide against the table as it was *before* this event.
        let decision = policy::decide(
            &event,
            &self.config,
            &self.devices.table,
            self.luks_destroy_engaged,
        );
        // The kill path: nothing comes between the decision and this dispatch.
        match decision {
            Decision::Act(action) => {
                if self.armed && !synthetic {
                    emit(fx, Effect::Dispatch(action));
                }
            },
            Decision::Ignore => {},
        }
        let line = match decision {
            Decision::Ignore => journal::allowed_line(event.kind, event.identity.usb_id),
            Decision::Act(action) => if self.armed && !synthetic {
                journal::dispatched_line(&action, synthesized)
            } else if synthetic {
                journal::announced_again_line(&action)
            } else {
                journal::not_armed_line(&action)
            },
        };
        let info = self.device_info(&event.identity);
        match event.kind {
            EventKind::Added => {
                self.devices.add(event.identity);
                self.broadcast(fx, at, Event::DeviceAdded(info));
            },
            EventKind::Removed => {
                self.devices.remove(&event.identity);
                self.broadcast(fx, at, Event::DeviceRemoved(info));
            },
        }
        log(fx, line);
    }

    /// The kill that a device event calls for, so that it can be dispatched before anything is
    /// recorded.
    pub fn kill_for(&self, event: &SensorEvent) -> (r: Option<Action>)
        ensures
            r == step::event_kill(self@, event@),
    {
        let synthetic = event.kind == EventKind::Added && event.raw.contains_key("SYNTH_UUID");
        if !self.armed || synthetic {
            return None;
        }
        match policy::decide(event, &self.config, &self.devices.table, self.luks_destroy_engaged) {
            Decision::Act(action) => Some(action),
            Decision::Ignore => None,
        }
    }

    /// The kill for a sensor gap, if one is due: the power action only, since destruction is
    /// reserved for an actual device event.
    fn gap_kill(&self) -> (r: Option<Action>)
        ensures
            r == if step::gap_kills(self@) {
                Some(step::gap_action(self@.config))
            } else {
                None
            },
    {
        if self.config.on_sensor_gap == SensorGapAction::Kill && self.armed
            && !self.gap_kill_dispatched {
            Some(
                Action {
                    reason: KillReason::SensorGap,
                    power: self.config.power_action,
                    luks_destroy: false,
                    dry_run: self.config.dry_run,
                },
            )
        } else {
            None
        }
    }

    /// The kill that a message calls for. It is the first effect of handling the message, and
    /// the only kill among them.
    pub fn kill_for_msg(&self, msg: &Msg) -> (r: Option<Action>)
        ensures
            r == step::kill_of(self@, msg@),
    {
        match msg {
            Msg::Sensor(event) => self.kill_for(event),
            Msg::SensorLost | Msg::SensorRestarting | Msg::SensorEnded => self.gap_kill(),
            _ => None,
        }
    }

    /// Dispatch a sensor-gap kill if one is due. Called by every gap handler before
    /// anything else, and before the sticky `events_lost` flag is looked at.
    pub fn maybe_dispatch_gap_kill(&mut self, fx: &mut Vec<Effect>)
        requires
            old(self).wf(),
        ensures
            final(self).wf(),
            now(final(self), final(fx)) == step::gap_kill(now(old(self), old(fx))),
    {
        match self.gap_kill() {
            Some(action) => {
                self.gap_kill_dispatched = true;
                emit(fx, Effect::Dispatch(action));
                log(fx, journal::gap_dispatched_line(&self.config));
            },
            None => {},
        }
    }

    /// What the log says of a gap beside the kill.
    fn log_gap(&self, fx: &mut Vec<Effect>, warned: LogLine, disarmed: LogLine)
        ensures
            now(self, final(fx)) == step::gap_logged(now(self, old(fx)), warned@, disarmed@),
    {
        match self.config.on_sensor_gap {
            SensorGapAction::Warn => {
                log(fx, warned);
            },
            SensorGapAction::Kill => {
                if !self.armed {
                    log(fx, disarmed);
                }
            },
        }
    }

    /// The sensor lost events.
    #[verifier::rlimit(40)]
    pub fn on_sensor_lost(&mut self, fx: &mut Vec<Effect>, at: &str)
        requires
            old(self).wf(),
        ensures
            final(self).wf(),
            now(final(self), final(fx)) == step::sensor_lost(now(old(self), old(fx)), at@),
    {
        proof {
            reveal(step::sensor_lost);
        }
        self.maybe_dispatch_gap_kill(fx);
        if self.events_lost {
            return;
        }
        self.events_lost = true;
        self.broadcast(fx, at, Event::EventsLost);
        self.log_gap(fx, journal::lost_warned_line(), journal::lost_disarmed_line());
    }

    /// The sensor thread exited and is being respawned. Armed state is untouched; a
    /// respawn window is a gap like any other.
    #[verifier::rlimit(40)]
    pub fn on_sensor_restarting(&mut self, fx: &mut Vec<Effect>, at: &str)
        requires
            old(self).wf(),
        ensures
            final(self).wf(),
            now(final(self), final(fx)) == step::sensor_restarting(now(old(self), old(fx)), at@),
    {
        proof {
            reveal(step::sensor_restarting);
        }
        self.sensor_ok = false;
        self.maybe_dispatch_gap_kill(fx);
        let first_gap = !self.events_lost;
        self.events_lost = true;
        // A pending boot arm must not survive the gap.
        if self.boot_arm_pending {
            self.boot_arm_pending = false;
            log(fx, journal::boot_arm_cleared_line());
        }
        self.broadcast(fx, at, Event::SensorStopped);
        if first_gap {
            self.broadcast(fx, at, Event::EventsLost);
        }
        self.log_gap(fx, journal::stopped_warned_line(), journal::stopped_disarmed_line());
    }

    /// The sensor cannot be kept running. Armed state is untouched.
    pub fn on_sensor_ended(&mut self, fx: &mut Vec<Effect>, at: &str)
        requires
            old(self).wf(),
        ensures
            final(self).wf(),
            now(final(self), final(fx)) == step::sensor_ended(now(old(self), old(fx)), at@),
    {
        proof {
            reveal(step::sensor_ended);
        }
        self.sensor_ok = false;
        self.maybe_dispatch_gap_kill(fx);
        if !self.events_lost {
            self.events_lost = true;
            self.broadcast(fx, at, Event::EventsLost);
        }
        self.broadcast(fx, at, Event::SensorStopped);
        log(fx, journal::ended_line());
    }

    // --- arming ----------------------------------------------------------

    /// Why the core does not arm.
    fn arm_refusal(&self, host: &HostProbe) -> (r: Option<String>)
        ensures
            text::opt_view(r) == step::arm_refusal(self@, host@),
    {
        match &self.config_error {
            Some(e) => {
                return Some(
                    "refusing to arm — the configuration is invalid:\n".to_owned().concat(
                        e.as_str(),
                    ),
                );
            },
            None => {},
        }
        if !self.sensor_ok {
            return Some(
                "refusing to arm — the USB sensor is not running, so device changes would go unseen (invariant 7)".to_owned(),
            );
        }
        if self.events_lost {
            return Some(
                "refusing to arm — the USB sensor has lost events and can no longer account for the device set; restart killbilld".to_owned(),
            );
        }
        if self.config.sensors.len() > 0 {
            match &host.sensor_error {
                Some(e) => {
                    return Some(
                        "refusing to arm — sensor ".to_owned().concat(
                            UsbNetlinkSensor::new().name(),
                        ).concat(": ").concat(e.as_str()),
                    );
                },
                None => {},
            }
        }
        let failures = responder::not_ready(&self.config, host);
        assert(text::views(failures@).len() == failures@.len());
        if failures.len() > 0 {
            return Some(
                "refusing to arm — ".to_owned().concat(join_failures(&failures).as_str()),
            );
        }
        None
    }

    /// Arm protection for `peer`, or say why not.
    pub fn arm(
        &mut self,
        fx: &mut Vec<Effect>,
        peer: PeerCred,
        host: &HostProbe,
        at: &str,
    ) -> (r: Result<(), String>)
        requires
            old(self).wf(),
        ensures
            final(self).wf(),
            now(final(self), final(fx)) == step::arm(now(old(self), old(fx)), peer, host@, at@),
            match step::arm_result(old(self)@, host@) {
                None => r is Ok,
                Some(reason) => r matches Err(e) && e@ == reason,
            },
    {
        if self.armed {
            return Ok(());
        }
        match self.arm_refusal(host) {
            Some(reason) => Err(reason),
            None => {
                self.armed = true;
                log(fx, journal::armed_line(peer, &self.config));
                self.broadcast(fx, at, Event::Armed);
                Ok(())
            },
        }
    }

    /// Try the `armed_at_boot` arm; the wish is kept until it succeeds.
    pub fn try_boot_arm(&mut self, fx: &mut Vec<Effect>, host: &HostProbe, at: &str)
        requires
            old(self).wf(),
        ensures
            final(self).wf(),
            now(final(self), final(fx)) == step::boot_arm(now(old(self), old(fx)), host@, at@),
    {
        match self.arm(fx, PeerCred::system(), host, at) {
            Ok(()) => {
                self.boot_arm_pending = false;
            },
            Err(reason) => {
                log(fx, journal::boot_arm_failed_line(reason.as_str()));
            },
        }
    }

    /// Disarm protection for `peer`.
    pub fn disarm(&mut self, fx: &mut Vec<Effect>, peer: PeerCred, at: &str)
        requires
            old(self).wf(),
        ensures
            final(self).wf(),
            now(final(self), final(fx)) == step::disarm(now(old(self), old(fx)), peer, at@),
    {
        if self.armed {
            self.armed = false;
            log(fx, journal::disarmed_line(peer));
            self.broadcast(fx, at, Event::Disarmed);
        } else {
            log(fx, journal::disarmed_already_line(peer));
        }
    }

    // --- snapshots -------------------------------------------------------

    /// The snapshot that answers a status request.
    pub fn status(&self) -> (r: StatusPayload)
        ensures
            r@ == step::status(self@),
    {
        assert(self@.config.whitelist.len() == self.config.whitelist@.len());
        assert(self@.devices.connected.len() == self.devices.connected@.len());
        StatusPayload {
            armed: self.armed,
            dry_run: self.config.dry_run,
            power_action: self.config.power_action,
            whitelist_len: self.config.whitelist.len(),
            device_count: self.devices.connected.len(),
            config_error: self.config_error.clone(),
            sensor_ok: self.sensor_ok,
            events_lost: self.events_lost,
            config_stale: self.config_stale,
        }
    }

    /// What clients are told of a device.
    pub fn device_info(&self, identity: &DeviceIdentity) -> (r: DeviceInfo)
        ensures
            r@ == step::device_info(self@.config, identity@),
    {
        DeviceInfo {
            source: SensorSource::Usb,
            id: identity.usb_id,
            serial: identity.serial.clone(),
            label: identity.label.clone(),
            whitelisted: match identity.usb_id {
                Some(id) => policy::allowed_count(&self.config.whitelist, id).is_some(),
                None => false,
            },
        }
    }

    /// The devices as clients see them.
    pub fn device_list(&self) -> (r: Vec<DeviceInfo>)
        ensures
            text::views(r@) == step::device_list(self@),
    {
        let mut r: Vec<DeviceInfo> = Vec::new();
        let mut i: usize = 0;
        while i < self.devices.connected.len()
            invariant
                i <= self.devices.connected@.len(),
                r@.len() == i,
                forall|k: int|
                    0 <= k < i ==> (#[trigger] r@[k])@ == step::device_info(
                        self@.config,
                        self.devices.connected@[k]@,
                    ),
            decreases self.devices.connected@.len() - i,
        {
            r.push(self.device_info(&self.devices.connected[i]));
            i += 1;
        }
        assert(text::views(r@) =~= step::device_list(self@));
        r
    }

    /// The whitelist as clients see it.
    pub fn whitelist_entries(&self) -> (r: Vec<WhitelistEntry>)
        ensures
            text::views(r@) == step::whitelist_entries(self@.config),
    {
        let mut r: Vec<WhitelistEntry> = Vec::new();
        let mut i: usize = 0;
        while i < self.config.whitelist.len()
            invariant
                i <= self.config.whitelist@.len(),
                r@.len() == i,
                forall|k: int|
                    0 <= k < i ==> (#[trigger] r@[k])@ == (WhitelistEntryView {
                        id: self.config.whitelist@[k].id,
                        label: text::opt_view(self.config.whitelist@[k].label),
                        max_count: Some(self.config.whitelist@[k].max_count),
                    }),
            decreases self.config.whitelist@.len() - i,
        {
            let w = &self.config.whitelist[i];
            r.push(
                WhitelistEntry { id: w.id, label: w.label.clone(), max_count: Some(w.max_count) },
            );
            i += 1;
        }
        assert(text::views(r@) =~= step::whitelist_entries(self@.config));
        r
    }

    /// The config as clients see it.
    pub fn config_payload(&self) -> (r: ConfigPayload)
        ensures
            r@ == step::config_payload(self@),
    {
        let luks_destroy = match &self.config.luks_destroy {
            Some(l) => Some(
                LuksDestroyInfo {
                    acknowledged: true,
                    target_header: l.target_header.clone(),
                    engaged: self.luks_destroy_engaged,
                },
            ),
            None => None,
        };
        let validation_error = if self.config_error.is_some() {
            self.config_error.clone()
        } else {
            self.disk_error.clone()
        };
        ConfigPayload {
            armed_at_boot: self.config.armed_at_boot,
            sensors: text::copy_all(&self.raw.detection.sensors),
            dry_run: self.config.dry_run,
            power_action: self.config.power_action,
            on_sensor_gap: match self.config.on_sensor_gap {
                SensorGapAction::Warn => OnSensorGap::Warn,
                SensorGapAction::Kill => OnSensorGap::Kill,
            },
            luks_destroy,
            validation_error,
        }
    }

    // --- dry run ---------------------------------------------------------

    /// The table of every device but the `skip`-th.
    fn others(&self, skip: usize) -> (r: DeviceTable)
        requires
            skip < self.devices.connected@.len(),
        ensures
            r@ == crate::killbilld::device_table::all_inserted(
                step::ids_of(self@.devices.connected.remove(skip as int)),
            ),
    {
        let ghost rest = self@.devices.connected.remove(skip as int);
        let mut ids: Vec<UsbId> = Vec::new();
        let mut i: usize = 0;
        let ghost mut seen: int = 0;
        assert(rest.take(0) == Seq::<DeviceIdentityView>::empty());
        while i < self.devices.connected.len()
            invariant
                i <= self.devices.connected@.len(),
                skip < self.devices.connected@.len(),
                rest == self@.devices.connected.remove(skip as int),
                seen == (if i <= skip {
                    i as int
                } else {
                    i - 1
                }),
                ids@ == step::ids_of(rest.take(seen)),
            decreases self.devices.connected@.len() - i,
        {
            if i != skip {
                proof {
                    assert(rest[seen] == self.devices.connected@[i as int]@);
                    assert(rest.take(seen + 1).drop_last() == rest.take(seen));
                    assert(rest.take(seen + 1).last() == rest[seen]);
                    seen = seen + 1;
                }
                match self.devices.connected[i].usb_id {
                    Some(id) => {
                        ids.push(id);
                    },
                    None => {},
                }
            }
            i += 1;
        }
        assert(rest.take(seen) == rest);
        DeviceTable::from_ids(ids.as_slice())
    }

    /// The kill reasons that the connected devices would give.
    pub fn dry_run_reasons(&self) -> (r: Vec<KillReason>)
        ensures
            r@ == step::dry_run_reasons(
                self@.devices.connected,
                self@.config,
                self@.devices.connected.len(),
            ),
    {
        let mut reasons: Vec<KillReason> = Vec::new();
        let mut i: usize = 0;
        assert(self@.devices.connected.len() == self.devices.connected@.len());
        while i < self.devices.connected.len()
            invariant
                i <= self.devices.connected@.len(),
                self@.devices.connected.len() == self.devices.connected@.len(),
                reasons@ == step::dry_run_reasons(
                    self@.devices.connected,
                    self@.config,
                    i as nat,
                ),
            decreases self.devices.connected@.len() - i,
        {
            let others = self.others(i);
            assert(self@.devices.connected[i as int] == self.devices.connected@[i as int]@);
            match policy::decide_change(
                EventKind::Added,
                self.devices.connected[i].usb_id,
                &self.config,
                &others,
                self.luks_destroy_engaged,
            ) {
                Decision::Act(action) => {
                    reasons.push(action.reason);
                },
                Decision::Ignore => {},
            }
            i += 1;
        }
        reasons
    }

    /// Evaluate the connected devices as if each had just been plugged in.
    #[verifier::rlimit(40)]
    pub fn run_dry_run(&mut self, fx: &mut Vec<Effect>, to: u64, at: &str)
        requires
            old(self).wf(),
        ensures
            final(self).wf(),
            now(final(self), final(fx)) == step::dry_run(now(old(self), old(fx)), to, at@),
    {
        let ghost start = now(self, fx);
        let reasons = self.dry_run_reasons();
        let mut i: usize = 0;
        assert(reasons@.take(0) == Seq::<KillReason>::empty());
        while i < reasons.len()
            invariant
                i <= reasons@.len(),
                self.wf(),
                now(self, fx) == step::publish_reasons(start, reasons@.take(i as int), at@),
            decreases reasons@.len() - i,
        {
            proof {
                assert(reasons@.take(i + 1).drop_last() == reasons@.take(i as int));
            }
            self.broadcast(fx, at, Event::WouldKill(reasons[i]));
            i += 1;
        }
        assert(reasons@.take(i as int) == reasons@);
        log(fx, journal::dry_run_done_line(reasons.len()));
        answer(fx, to, Reply::DryRun(reasons));
    }

    // --- config changes --------------------------------------------------

    /// Why a config change is refused before it is looked at.
    fn config_change_refusal(&self, change: Change) -> (r: Option<String>)
        ensures
            text::opt_view(r) == step::change_refusal(self@, change),
    {
        match &self.config_error {
            Some(e) => {
                return Some(
                    "refusing to ".to_owned().concat(change.as_str()).concat(
                        ": the running configuration is invalid. Fix ",
                    ).concat(self.config_path.as_str()).concat(
                        " on disk and run `reload` first.\n",
                    ).concat(e.as_str()),
                );
            },
            None => {},
        }
        if self.pending.is_some() {
            return Some(
                "a configuration change is already being written; retry shortly".to_owned(),
            );
        }
        None
    }

    /// Validate `raw`; if it passes (and, while armed, keeps every responder able to
    /// act), hand it to the writer. The swap and the reply follow once it is written.
    #[verifier::rlimit(40)]
    fn begin_apply(
        &mut self,
        fx: &mut Vec<Effect>,
        raw: RawConfig,
        change: Change,
        to: u64,
        host: &HostProbe,
    )
        requires
            old(self).wf(),
        ensures
            final(self).wf(),
            now(final(self), final(fx)) == step::begin_apply(
                now(old(self), old(fx)),
                raw@,
                change,
                to,
                host@,
            ),
    {
        let config = match config::validate(raw.clone()) {
            Ok(config) => config,
            Err(report) => {
                log(
                    fx,
                    journal::change_invalid_line(change.as_str(), report.to_text().as_str()),
                );
                answer(
                    fx,
                    to,
                    Reply::Error(
                        change.as_str().to_owned().concat(" rejected:\n").concat(
                            report.to_text().as_str(),
                        ),
                    ),
                );
                return;
            },
        };
        if self.armed {
            let failures = responder::not_ready(&config, host);
            assert(text::views(failures@).len() == failures@.len());
            if failures.len() > 0 {
                log(
                    fx,
                    journal::change_unready_line(
                        change.as_str(),
                        join_failures(&failures).as_str(),
                    ),
                );
                answer(
                    fx,
                    to,
                    Reply::Error(
                        change.as_str().to_owned().concat(
                            " rejected — while armed, a responder would no longer be able to act: ",
                        ).concat(join_failures(&failures).as_str()),
                    ),
                );
                return;
            }
        }
        let copy = raw.clone();
        self.pending = Some(Pending::Write { raw, config, change, to });
        emit(fx, Effect::Persist(copy));
    }

    /// The whitelist as written, without the entries for `id`.
    fn entries_without(&self, id: UsbId) -> (r: RawConfig)
        ensures
            r@ == step::without_entry(self@.raw, id),
    {
        let mut raw = self.raw.clone();
        let ghost all = text::views(self.raw.whitelist@);
        let ghost keep = step::is_for_another(id);
        let mut kept: Vec<RawWhitelistEntry> = Vec::new();
        let mut i: usize = 0;
        assert(all.take(0).filter(keep) == Seq::<RawWhitelistEntryView>::empty()) by {
            reveal(Seq::filter);
        }
        assert(text::views(kept@) =~= Seq::<RawWhitelistEntryView>::empty());
        while i < self.raw.whitelist.len()
            invariant
                i <= self.raw.whitelist@.len(),
                all == text::views(self.raw.whitelist@),
                keep == step::is_for_another(id),
                text::views(kept@) == all.take(i as int).filter(keep),
            decreases self.raw.whitelist@.len() - i,
        {
            let ghost had = text::views(kept@);
            proof {
                reveal(Seq::filter);
                assert(all.take(i + 1).drop_last() == all.take(i as int));
                assert(all.take(i + 1).last() == self.raw.whitelist@[i as int]@);
            }
            if !writes_id(self.raw.whitelist[i].id.as_str(), id) {
                kept.push(self.raw.whitelist[i].clone());
                assert(text::views(kept@) == had.push(self.raw.whitelist@[i as int]@));
            }
            i += 1;
        }
        assert(all.take(i as int) == all);
        raw.whitelist = kept;
        raw
    }

    /// Whether the whitelist as written has an entry for `id`.
    fn has_entry(&self, id: UsbId) -> (r: bool)
        ensures
            r == step::has_entry(self@.raw, id),
    {
        let ghost all = text::views(self.raw.whitelist@);
        let mut i: usize = 0;
        while i < self.raw.whitelist.len()
            invariant
                i <= self.raw.whitelist@.len(),
                all == text::views(self.raw.whitelist@),
                forall|k: int|
                    0 <= k < i ==> sensor_event::usb_id_of((#[trigger] all[k]).id) != Some(id),
            decreases self.raw.whitelist@.len() - i,
        {
            assert(all[i as int] == self.raw.whitelist@[i as int]@);
            if writes_id(self.raw.whitelist[i].id.as_str(), id) {
                return true;
            }
            i += 1;
        }
        false
    }

    /// Add a whitelist entry, in place of one with the same id.
    pub fn whitelist_add(
        &mut self,
        fx: &mut Vec<Effect>,
        entry: WhitelistEntry,
        to: u64,
        host: &HostProbe,
    )
        requires
            old(self).wf(),
        ensures
            final(self).wf(),
            now(final(self), final(fx)) == step::change_config(
                now(old(self), old(fx)),
                step::with_entry(old(self)@.raw, entry@),
                Change::WhitelistAdd,
                to,
                host@,
            ),
    {
        match self.config_change_refusal(Change::WhitelistAdd) {
            Some(reason) => {
                answer(fx, to, Reply::Error(reason));
            },
            None => {
                let mut raw = self.entries_without(entry.id);
                let ghost rest = raw@;
                raw.whitelist.push(
                    RawWhitelistEntry {
                        id: entry.id.to_text(),
                        label: entry.label,
                        max_count: entry.max_count,
                    },
                );
                assert(raw@.whitelist == rest.whitelist.push(raw.whitelist@.last()@));
                self.begin_apply(fx, raw, Change::WhitelistAdd, to, host);
            },
        }
    }

    /// Remove the whitelist entry for `id`.
    pub fn whitelist_remove(
        &mut self,
        fx: &mut Vec<Effect>,
        id: UsbId,
        to: u64,
        host: &HostProbe,
    )
        requires
            old(self).wf(),
        ensures
            final(self).wf(),
            now(final(self), final(fx)) == step::whitelist_remove(
                now(old(self), old(fx)),
                id,
                to,
                host@,
            ),
    {
        match self.config_change_refusal(Change::WhitelistRemove) {
            Some(reason) => {
                answer(fx, to, Reply::Error(reason));
            },
            None => {
                if !self.has_entry(id) {
                    answer(
                        fx,
                        to,
                        Reply::Error(
                            "no whitelist entry for ".to_owned().concat(id.to_text().as_str()),
                        ),
                    );
                    return;
                }
                let raw = self.entries_without(id);
                self.begin_apply(fx, raw, Change::WhitelistRemove, to, host);
            },
        }
    }

    /// Change one field of the config.
    pub fn config_set(
        &mut self,
        fx: &mut Vec<Effect>,
        change: ConfigChange,
        to: u64,
        host: &HostProbe,
    )
        requires
            old(self).wf(),
        ensures
            final(self).wf(),
            now(final(self), final(fx)) == step::change_config(
                now(old(self), old(fx)),
                step::with_change(old(self)@.raw, change@),
                Change::ConfigSet,
                to,
                host@,
            ),
    {
        match self.config_change_refusal(Change::ConfigSet) {
            Some(reason) => {
                answer(fx, to, Reply::Error(reason));
            },
            None => {
                let mut raw = self.raw.clone();
                match change {
                    ConfigChange::DryRun(b) => {
                        raw.response.dry_run = b;
                    },
                    ConfigChange::PowerAction(p) => {
                        raw.response.power_action = Some(p.as_str().to_owned());
                    },
                    ConfigChange::ArmedAtBoot(b) => {
                        raw.general.armed_at_boot = b;
                    },
                    ConfigChange::Sensors(v) => {
                        raw.detection.sensors = v;
                    },
                    ConfigChange::OnSensorGap(g) => {
                        raw.response.on_sensor_gap = Some(g.as_str().to_owned());
                    },
                }
                self.begin_apply(fx, raw, Change::ConfigSet, to, host);
            },
        }
    }

    /// Engage or disengage header destruction.
    pub fn set_luks_destroy_engaged(&mut self, fx: &mut Vec<Effect>, engaged: bool, to: u64)
        requires
            old(self).wf(),
        ensures
            final(self).wf(),
            now(final(self), final(fx)) == step::set_engaged(now(old(self), old(fx)), engaged, to),
    {
        if self.config.luks_destroy.is_none() {
            answer(
                fx,
                to,
                Reply::Error(
                    "refusing to engage or disengage LUKS header destruction: the running configuration has no acknowledged [response.luks_destroy]".to_owned(),
                ),
            );
            return;
        }
        self.luks_destroy_engaged = engaged;
        answer(fx, to, Reply::Done);
    }

    /// Ask for the config file to be read again.
    pub fn reload(&mut self, fx: &mut Vec<Effect>, to: u64)
        requires
            old(self).wf(),
        ensures
            final(self).wf(),
            now(final(self), final(fx)) == step::reload(now(old(self), old(fx)), to),
    {
        if self.pending.is_some() {
            answer(
                fx,
                to,
                Reply::Error(
                    "a configuration change is already being processed; retry".to_owned(),
                ),
            );
            return;
        }
        self.pending = Some(Pending::Reload { to });
        emit(fx, Effect::Reload);
    }

    /// Swap in a validated config. The gap kill is enabled again: an operator's config
    /// change is a fresh look at the situation. `events_lost` stays.
    pub fn swap_config(
        &mut self,
        fx: &mut Vec<Effect>,
        raw: RawConfig,
        config: Config,
        label: &str,
    )
        requires
            old(self).wf(),
            old(self).pending is None,
            config::config_errors(raw@).len() == 0,
            config@ == config::resolved(raw@),
        ensures
            final(self).wf(),
            now(final(self), final(fx)) == step::swap(now(old(self), old(fx)), raw@, label@),
    {
        let was_dry_run = self.config.dry_run;
        let was_power = self.config.power_action;
        let same_target = match (&self.config.luks_destroy, &config.luks_destroy) {
            (Some(a), Some(b)) => text::same_text(
                a.target_header.as_str(),
                b.target_header.as_str(),
            ),
            (None, None) => true,
            _ => false,
        };
        self.raw = raw;
        self.config = config;
        self.config_error = None;
        self.config_stale = false;
        self.disk_error = None;
        self.gap_kill_dispatched = false;
        if !same_target {
            self.luks_destroy_engaged = false;
        }
        log(fx, journal::updated_line(label));
        if self.armed {
            if self.config.dry_run && !was_dry_run {
                log(fx, journal::dry_run_set_line(label));
            }
            if self.config.power_action != was_power {
                log(
                    fx,
                    journal::power_changed_line(label, was_power, self.config.power_action),
                );
            }
        }
    }

    /// The writer is done with a change.
    #[verifier::rlimit(40)]
    pub fn on_config_written(
        &mut self,
        fx: &mut Vec<Effect>,
        result: Result<(), String>,
        at: &str,
    )
        requires
            old(self).wf(),
        ensures
            final(self).wf(),
            now(final(self), final(fx)) == step::config_written(
                now(old(self), old(fx)),
                match result {
                    Ok(_) => Ok(()),
                    Err(e) => Err(e@),
                },
                at@,
            ),
    {
        proof {
            reveal(step::config_written);
        }
        let taken = self.pending.take();
        match taken {
            Some(Pending::Write { raw, config, change, to }) => match result {
                Ok(()) => {
                    self.swap_config(fx, raw, config, change.as_str());
                    self.broadcast(fx, at, change.to_event());
                    answer(fx, to, Reply::Done);
                },
                Err(e) => {
                    log(fx, journal::not_persisted_line(change.as_str(), e.as_str()));
                    answer(
                        fx,
                        to,
                        Reply::Error(
                            change.as_str().to_owned().concat(
                                ": could not write the config file: ",
                            ).concat(e.as_str()),
                        ),
                    );
                },
            },
            other => {
                self.pending = other;
            },
        }
    }

    /// A reload is rejected: the running config and armed state stay.
    fn reload_failed(
        &mut self,
        fx: &mut Vec<Effect>,
        to: u64,
        line: LogLine,
        reason: String,
        disk_error: Option<String>,
        at: &str,
    )
        requires
            old(self).wf(),
        ensures
            final(self).wf(),
            now(final(self), final(fx)) == step::reload_failed(
                now(old(self), old(fx)),
                to,
                line@,
                reason@,
                text::opt_view(disk_error),
                at@,
            ),
    {
        self.config_stale = true;
        self.disk_error = disk_error;
        log(fx, line);
        self.broadcast(fx, at, Event::ReloadFailed(reason.clone()));
        answer(fx, to, Reply::Error(reason));
    }

    /// The writer has read the config file again.
    #[verifier::rlimit(40)]
    pub fn on_config_reloaded(
        &mut self,
        fx: &mut Vec<Effect>,
        loaded: Result<RawConfig, String>,
        host: &HostProbe,
        at: &str,
    )
        requires
            old(self).wf(),
        ensures
            final(self).wf(),
            now(final(self), final(fx)) == step::config_reloaded(
                now(old(self), old(fx)),
                match loaded {
                    Ok(raw) => Ok(raw@),
                    Err(e) => Err(e@),
                },
                host@,
                at@,
            ),
    {
        proof {
            reveal(step::config_reloaded);
        }
        let taken = self.pending.take();
        let to: u64 = match taken {
            Some(Pending::Reload { to }) => to,
            other => {
                self.pending = other;
                return;
            },
        };
        let raw = match loaded {
            Ok(raw) => raw,
            Err(e) => {
                let reason =
                    "reload failed — the config file could not be read: ".to_owned().concat(
                    e.as_str(),
                );
                let line = journal::reload_unreadable_line(e.as_str());
                self.reload_failed(fx, to, line, reason, Some(e), at);
                return;
            },
        };
        let config = match config::validate(raw.clone()) {
            Ok(config) => config,
            Err(report) => {
                let text_of_report = report.to_text();
                let reason =
                    "reload failed — the config on disk is invalid; keeping the running config and armed state (invariant 2):\n".to_owned().concat(
                text_of_report.as_str());
                let line = journal::reload_invalid_line(text_of_report.as_str());
                self.reload_failed(fx, to, line, reason, Some(text_of_report), at);
                return;
            },
        };
        if self.armed {
            let failures = responder::not_ready(&config, host);
            assert(text::views(failures@).len() == failures@.len());
            if failures.len() > 0 {
                let detail = join_failures(&failures);
                let reason =
                    "reload rejected — while armed, a responder would no longer be able to act: ".to_owned().concat(
                detail.as_str());
                let line = journal::reload_unready_line(detail.as_str());
                self.reload_failed(fx, to, line, reason, None, at);
                return;
            }
        }
        self.swap_config(fx, raw, config, "reload");
        self.broadcast(fx, at, Event::ConfigChanged);
        answer(fx, to, Reply::Done);
    }

    /// The writer is gone.
    pub fn on_writer_gone(&mut self, fx: &mut Vec<Effect>)
        requires
            old(self).wf(),
        ensures
            final(self).wf(),
            now(final(self), final(fx)) == step::writer_gone(now(old(self), old(fx))),
    {
        match self.pending.take() {
            Some(Pending::Write { raw, config, change, to }) => {
                answer(fx, to, control::shutting_down());
            },
            Some(Pending::Reload { to }) => {
                answer(fx, to, control::shutting_down());
            },
            None => {},
        }
    }

    // --- commands --------------------------------------------------------

    /// A command from a client.
    #[verifier::rlimit(40)]
    pub fn on_command(
        &mut self,
        fx: &mut Vec<Effect>,
        cmd: Command,
        peer: PeerCred,
        to: u64,
        host: &HostProbe,
        at: &str,
    )
        requires
            old(self).wf(),
        ensures
            final(self).wf(),
            now(final(self), final(fx)) == step::command(
                now(old(self), old(fx)),
                cmd@,
                peer,
                to,
                host@,
                at@,
            ),
    {
        proof {
            reveal(step::command);
        }
        if !control::authorized(&cmd, &peer) {
            log(fx, journal::denied_line(peer, command_name(&cmd)));
            answer(
                fx,
                to,
                Reply::Error(
                    "permission denied: ".to_owned().concat(command_name(&cmd)).concat(
                        " requires uid 0 (peer uid ",
                    ).concat(text::decimal_text(peer.uid as u64).as_str()).concat(")"),
                ),
            );
            return;
        }
        match cmd {
            Command::GetStatus => {
                let payload = self.status();
                answer(fx, to, Reply::Status(payload));
            },
            Command::ListDevices => {
                let devices = self.device_list();
                answer(fx, to, Reply::Devices(devices));
            },
            Command::WhitelistList => {
                let entries = self.whitelist_entries();
                answer(fx, to, Reply::Whitelist(entries));
            },
            Command::Arm => {
                match self.arm(fx, peer, host, at) {
                    Ok(()) => {
                        answer(fx, to, Reply::Done);
                    },
                    Err(reason) => {
                        log(fx, journal::arm_refused_line(peer, reason.as_str()));
                        answer(fx, to, Reply::Error(reason));
                    },
                }
            },
            Command::Disarm => {
                self.disarm(fx, peer, at);
                answer(fx, to, Reply::Done);
            },
            Command::RunDryRun => {
                self.run_dry_run(fx, to, at);
            },
            Command::WhitelistAdd(entry) => {
                self.whitelist_add(fx, entry, to, host);
            },
            Command::WhitelistRemove(id) => {
                self.whitelist_remove(fx, id, to, host);
            },
            Command::ReloadConfig => {
                self.reload(fx, to);
            },
            Command::GetConfig => {
                let payload = self.config_payload();
                answer(fx, to, Reply::Config(payload));
            },
            Command::ConfigSet(change) => {
                self.config_set(fx, change, to, host);
            },
            Command::SetLuksDestroyEngaged(engaged) => {
                self.set_luks_destroy_engaged(fx, engaged, to);
            },
            Command::Subscribe => {
                answer(
                    fx,
                    to,
                    Reply::Error(
                        "Subscribe is a streaming command handled by the connection layer".to_owned(),
                    ),
                );
            },
        }
    }

    // --- subscribers -----------------------------------------------------

    /// The past events, oldest first.
    fn copy_backlog(&self) -> (r: Vec<StreamEvent>)
        ensures
            text::views(r@) == self@.backlog,
    {
        let mut r: Vec<StreamEvent> = Vec::new();
        let mut i: usize = 0;
        while i < self.backlog.len()
            invariant
                i <= self.backlog@.len(),
                r@ == self.backlog@.take(i as int),
            decreases self.backlog@.len() - i,
        {
            r.push(self.backlog[i].clone());
            i += 1;
            assert(self.backlog@.take(i as int) == self.backlog@.take(i - 1).push(
                self.backlog@[i - 1],
            ));
        }
        assert(self.backlog@.take(i as int) == self.backlog@);
        r
    }

    /// An event subscription from a client.
    pub fn subscribe(&mut self, fx: &mut Vec<Effect>, peer: PeerCred, subscriber: u64, to: u64)
        requires
            old(self).wf(),
        ensures
            final(self).wf(),
            now(final(self), final(fx)) == step::subscribe(
                now(old(self), old(fx)),
                peer,
                subscriber,
                to,
            ),
    {
        proof {
            reveal(step::subscribe);
        }
        // The event stream carries device ids, serials, and arm transitions: more than
        // `status`.
        if !peer.is_root() {
            log(fx, journal::subscription_denied_line(peer));
            answer(
                fx,
                to,
                Reply::Error(
                    "permission denied: the event stream requires uid 0 (peer uid ".to_owned().concat(
                        text::decimal_text(peer.uid as u64).as_str(),
                    ).concat(")"),
                ),
            );
            return;
        }
        if self.subscribers.len() >= MAX_SUBSCRIBERS {
            log(fx, journal::subscribers_full_line());
            answer(
                fx,
                to,
                Reply::Error("too many event subscribers; try again shortly".to_owned()),
            );
            return;
        }
        self.subscribers.push(Subscriber { token: subscriber, consecutive_misses: 0 });
        answer(fx, to, Reply::Done);
        let events = self.copy_backlog();
        emit(fx, Effect::Replay { subscriber, events });
    }

    /// Records how the deliveries of one event went, one outcome for each subscriber in
    /// order. A subscriber that is gone, or has missed too many events in a row, is
    /// dropped.
    pub fn on_deliveries(&mut self, outcomes: &Vec<Delivery>)
        requires
            old(self).wf(),
            outcomes@.len() == old(self)@.subscribers.len(),
        ensures
            final(self).wf(),
            final(self)@ == (CoreView {
                subscribers: step::after_deliveries(
                    old(self)@.subscribers,
                    outcomes@,
                    outcomes@.len(),
                ),
                ..old(self)@
            }),
    {
        let ghost before = self.subscribers@;
        let mut kept: Vec<Subscriber> = Vec::new();
        let mut i: usize = 0;
        while i < self.subscribers.len()
            invariant
                i <= self.subscribers@.len(),
                self.subscribers@ == before,
                outcomes@.len() == before.len(),
                forall|k: int|
                    0 <= k < before.len() ==> (#[trigger] before[k]).consecutive_misses < MAX_MISSES,
                kept@ == step::after_deliveries(before, outcomes@, i as nat),
                kept@.len() <= i,
                forall|k: int|
                    0 <= k < kept@.len() ==> (#[trigger] kept@[k]).consecutive_misses < MAX_MISSES,
            decreases self.subscribers@.len() - i,
        {
            let sub = self.subscribers[i];
            assert(before[i as int].consecutive_misses < MAX_MISSES);
            match outcomes[i] {
                Delivery::Sent => {
                    kept.push(Subscriber { token: sub.token, consecutive_misses: 0 });
                },
                Delivery::Full => {
                    let misses: u32 = sub.consecutive_misses + 1;
                    if misses < MAX_MISSES {
                        kept.push(Subscriber { token: sub.token, consecutive_misses: misses });
                    }
                },
                Delivery::Disconnected => {},
            }
            i += 1;
        }
        self.subscribers = kept;
    }

    // --- the inbox -------------------------------------------------------

    /// Handle one message, and say whether the loop goes on.
    #[verifier::rlimit(40)]
    pub fn handle_msg(
        &mut self,
        fx: &mut Vec<Effect>,
        msg: Msg,
        host: &HostProbe,
        at: &str,
    ) -> (r: Flow)
        requires
            old(self).wf(),
        ensures
            final(self).wf(),
            now(final(self), final(fx)) == step::handled(
                now(old(self), old(fx)),
                msg@,
                host@,
                at@,
            ),
            r@ == step::flow(msg@),
    {
        match msg {
            Msg::SensorStarted => {
                self.on_sensor_started(fx, host, at);
            },
            Msg::Sensor(event) => {
                self.on_sensor_event(fx, event, at);
            },
            Msg::SensorLost => {
                self.on_sensor_lost(fx, at);
            },
            Msg::SensorRestarting => {
                self.on_sensor_restarting(fx, at);
            },
            Msg::SensorEnded => {
                self.on_sensor_ended(fx, at);
                return Flow::Failed("the USB sensor could not be kept running".to_owned());
            },
            Msg::Command { cmd, peer, to } => {
                self.on_command(fx, cmd, peer, to, host, at);
            },
            Msg::Subscribe { peer, subscriber, to } => {
                self.subscribe(fx, peer, subscriber, to);
            },
            Msg::ConfigWritten(result) => {
                self.on_config_written(fx, result, at);
            },
            Msg::ConfigReloaded(loaded) => {
                self.on_config_reloaded(fx, loaded, host, at);
            },
            Msg::WriterGone => {
                self.on_writer_gone(fx);
            },
            Msg::Shutdown => {
                return Flow::Shutdown;
            },
        }
        Flow::Continue
    }

    /// Handle a message that was still queued when the daemon began to stop. Every
    /// message that can dispatch a kill is honoured; requests and writer replies are
    /// dropped.
    fn drain_one(&mut self, fx: &mut Vec<Effect>, msg: Msg, at: &str)
        requires
            old(self).wf(),
        ensures
            final(self).wf(),
            now(final(self), final(fx)) == step::drained_one(now(old(self), old(fx)), msg@, at@),
    {
        match msg {
            Msg::Sensor(event) => {
                self.on_sensor_event(fx, event, at);
            },
            Msg::SensorLost => {
                self.on_sensor_lost(fx, at);
            },
            Msg::SensorRestarting => {
                self.on_sensor_restarting(fx, at);
            },
            Msg::SensorEnded => {
                self.on_sensor_ended(fx, at);
            },
            _ => {},
        }
    }

    /// Evaluate every sensor observation still queued, oldest first, so that a signal
    /// never skips a decision. Returns how many device events there were.
    pub fn drain_pending_sensor_events(
        &mut self,
        fx: &mut Vec<Effect>,
        queue: Vec<Msg>,
        at: &str,
    ) -> (r: usize)
        requires
            old(self).wf(),
        ensures
            final(self).wf(),
            now(final(self), final(fx)) == step::drained(
                now(old(self), old(fx)),
                text::views(queue@),
                at@,
            ),
            r == step::device_events(text::views(queue@)),
    {
        let ghost start = now(self, fx);
        let ghost all = text::views(queue@);
        let mut queue = queue;
        let mut drained: usize = 0;
        let ghost mut done: int = 0;
        let len: usize = queue.len();
        assert(all.take(0) == Seq::<MsgView>::empty());
        assert(all.skip(0) == all);
        while queue.len() > 0
            invariant
                self.wf(),
                all.len() == len,
                0 <= done <= len,
                done + queue@.len() == len,
                text::views(queue@) == all.skip(done),
                now(self, fx) == step::drained(start, all.take(done), at@),
                drained == step::device_events(all.take(done)),
                drained <= done,
            decreases queue@.len(),
        {
            let ghost rest = text::views(queue@);
            let ghost first = queue@[0]@;
            let msg = queue.remove(0);
            proof {
                assert(rest[0] == first);
                assert(all[done] == first);
                assert(text::views(queue@) =~= rest.skip(1));
                assert(rest.skip(1) =~= all.skip(done + 1));
                assert(all.take(done + 1).drop_last() =~= all.take(done));
                assert(all.take(done + 1).last() == first);
            }
            match &msg {
                Msg::Sensor(_) => {
                    drained += 1;
                },
                _ => {},
            }
            self.drain_one(fx, msg, at);
            proof {
                done = done + 1;
            }
        }
        assert(all.take(done) =~= all);
        drained
    }

    /// Whether handling a message asks whether the sensor can be opened.
    pub fn asks_sensor(&self, msg: &Msg) -> (r: bool)
        ensures
            r == step::asks_sensor(self@, msg@),
    {
        match msg {
            Msg::SensorStarted => self.boot_arm_pending && !self.armed,
            Msg::Command { cmd: Command::Arm, peer, .. } => peer.is_root() && !self.armed,
            _ => false,
        }
    }

    /// Whether handling a message asks what the host can do. Where it does not, any probe will
    /// do, and none need be made.
    pub fn asks_host(&self, msg: &Msg) -> (r: bool)
        ensures
            r == step::asks_host(self@, msg@),
    {
        if self.asks_sensor(msg) {
            return true;
        }
        self.armed && match msg {
            Msg::Command { cmd, peer, .. } => match cmd {
                Command::WhitelistAdd(_)
                | Command::WhitelistRemove(_)
                | Command::ConfigSet(_) => peer.is_root(),
                _ => false,
            },
            Msg::ConfigReloaded(_) => true,
            _ => false,
        }
    }

    /// The destruction targets that a preflight may ask about: the running config's, and
    /// that of a config just read from disk.
    pub fn targets_to_probe(&self, reloaded: Option<&RawConfig>) -> (r: Vec<String>)
        ensures
            text::views(r@) == (match self@.config.luks_destroy {
                Some(t) => seq![t],
                None => Seq::empty(),
            }) + (match reloaded {
                Some(raw) => match raw@.luks_destroy {
                    Some(l) => match l.target_header {
                        Some(t) => seq![t],
                        None => Seq::empty(),
                    },
                    None => Seq::empty(),
                },
                None => Seq::empty(),
            }),
    {
        let mut r: Vec<String> = Vec::new();
        match &self.config.luks_destroy {
            Some(l) => {
                r.push(l.target_header.clone());
            },
            None => {},
        }
        let ghost first = text::views(r@);
        assert(first =~= match self@.config.luks_destroy {
            Some(t) => seq![t],
            None => Seq::empty(),
        });
        match reloaded {
            Some(raw) => match &raw.response.luks_destroy {
                Some(l) => match &l.target_header {
                    Some(t) => {
                        r.push(t.clone());
                        assert(text::views(r@) =~= first + seq![t@]);
                    },
                    None => {},
                },
                None => {},
            },
            None => {},
        }
        assert(text::views(r@) =~= first + (match reloaded {
            Some(raw) => match raw@.luks_destroy {
                Some(l) => match l.target_header {
                    Some(t) => seq![t],
                    None => Seq::empty(),
                },
                None => Seq::empty(),
            },
            None => Seq::empty(),
        }));
        r
    }
}

} // verus!
