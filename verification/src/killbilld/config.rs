//! Configuration: the file as written, the validated form, and fail-closed validation.
//!
//! The daemon refuses to arm on an invalid config and says exactly why: it never
//! guesses intent and never fires on a half-understood file.
//!
//! * [`RawConfig`]: the file exactly as written. Every field optional.
//! * [`Config`]: the validated, fully-resolved form the daemon runs on. Produced
//!   by [`validate`], or a [`ValidationReport`] listing *every* problem.

pub mod laws;

use crate::proto::action::PowerAction;
use crate::proto::sensor_event;
use crate::proto::sensor_event::UsbId;
use crate::text;
use vstd::prelude::*;

verus! {

/// The configuration file before validation.
#[derive(Debug, PartialEq, Eq)]
pub struct RawConfig {
    pub general: RawGeneral,
    pub detection: RawDetection,
    pub whitelist: Vec<RawWhitelistEntry>,
    pub response: RawResponse,
}

#[derive(Debug, Clone, Copy, PartialEq, Eq)]
pub struct RawGeneral {
    pub armed_at_boot: bool,
}

#[derive(Debug, PartialEq, Eq)]
pub struct RawDetection {
    pub sensors: Vec<String>,
}

#[derive(Debug, PartialEq, Eq)]
pub struct RawWhitelistEntry {
    pub id: String,
    pub label: Option<String>,
    pub max_count: Option<u32>,
}

#[derive(Debug, PartialEq, Eq)]
pub struct RawResponse {
    pub dry_run: bool,
    pub power_action: Option<String>,
    /// Rejected when `true`: see [`ConfigError::LockScreenFirstUnsupported`]. Kept
    /// here so the rejection can be specific rather than an "unknown key".
    pub lock_screen_first: bool,
    /// What to do if the USB sensor reports lost events: `"warn"` (default) or
    /// `"kill"` (treat the gap as an unauthorized change and fire).
    pub on_sensor_gap: Option<String>,
    /// Absent from the default config entirely. Its mere presence means the
    /// operator is asking for LUKS header destruction, which then must be
    /// acknowledged and targeted correctly or the whole config is rejected.
    pub luks_destroy: Option<RawLuksDestroy>,
}

#[derive(Debug, PartialEq, Eq)]
pub struct RawLuksDestroy {
    pub i_understand_this_is_irreversible: bool,
    pub target_header: Option<String>,
}

/// What a [`RawWhitelistEntry`] holds.
pub struct RawWhitelistEntryView {
    pub id: Seq<char>,
    pub label: Option<Seq<char>>,
    pub max_count: Option<u32>,
}

/// What a [`RawLuksDestroy`] holds.
pub struct RawLuksDestroyView {
    pub acknowledged: bool,
    pub target_header: Option<Seq<char>>,
}

/// What a [`RawConfig`] holds.
pub struct RawConfigView {
    pub armed_at_boot: bool,
    pub sensors: Seq<Seq<char>>,
    pub whitelist: Seq<RawWhitelistEntryView>,
    pub dry_run: bool,
    pub power_action: Option<Seq<char>>,
    pub lock_screen_first: bool,
    pub on_sensor_gap: Option<Seq<char>>,
    pub luks_destroy: Option<RawLuksDestroyView>,
}

impl View for RawWhitelistEntry {
    type V = RawWhitelistEntryView;

    open spec fn view(&self) -> RawWhitelistEntryView {
        RawWhitelistEntryView {
            id: self.id@,
            label: text::opt_view(self.label),
            max_count: self.max_count,
        }
    }
}

impl View for RawLuksDestroy {
    type V = RawLuksDestroyView;

    open spec fn view(&self) -> RawLuksDestroyView {
        RawLuksDestroyView {
            acknowledged: self.i_understand_this_is_irreversible,
            target_header: text::opt_view(self.target_header),
        }
    }
}

impl View for RawConfig {
    type V = RawConfigView;

    open spec fn view(&self) -> RawConfigView {
        RawConfigView {
            armed_at_boot: self.general.armed_at_boot,
            sensors: text::views(self.detection.sensors@),
            whitelist: text::views(self.whitelist@),
            dry_run: self.response.dry_run,
            power_action: text::opt_view(self.response.power_action),
            lock_screen_first: self.response.lock_screen_first,
            on_sensor_gap: text::opt_view(self.response.on_sensor_gap),
            luks_destroy: text::opt_view(self.response.luks_destroy),
        }
    }
}

impl Clone for RawWhitelistEntry {
    fn clone(&self) -> (r: Self)
        ensures
            r == *self,
    {
        RawWhitelistEntry {
            id: self.id.clone(),
            label: self.label.clone(),
            max_count: self.max_count,
        }
    }
}

impl Clone for RawLuksDestroy {
    fn clone(&self) -> (r: Self)
        ensures
            r == *self,
    {
        RawLuksDestroy {
            i_understand_this_is_irreversible: self.i_understand_this_is_irreversible,
            target_header: self.target_header.clone(),
        }
    }
}

impl Clone for RawConfig {
    fn clone(&self) -> (r: Self)
        ensures
            r@ == self@,
    {
        let luks_destroy = match &self.response.luks_destroy {
            Some(l) => Some(l.clone()),
            None => None,
        };
        RawConfig {
            general: self.general,
            detection: RawDetection { sensors: text::copy_all(&self.detection.sensors) },
            whitelist: copy_entries(&self.whitelist),
            response: RawResponse {
                dry_run: self.response.dry_run,
                power_action: self.response.power_action.clone(),
                lock_screen_first: self.response.lock_screen_first,
                on_sensor_gap: self.response.on_sensor_gap.clone(),
                luks_destroy,
            },
        }
    }
}

/// A copy of the whitelist as written.
fn copy_entries(v: &Vec<RawWhitelistEntry>) -> (r: Vec<RawWhitelistEntry>)
    ensures
        r@ == v@,
{
    let mut r: Vec<RawWhitelistEntry> = Vec::new();
    let mut i: usize = 0;
    while i < v.len()
        invariant
            i <= v@.len(),
            r@ == v@.take(i as int),
        decreases v@.len() - i,
    {
        r.push(v[i].clone());
        i += 1;
        assert(v@.take(i as int) == v@.take(i - 1).push(v@[i - 1]));
    }
    assert(r@ == v@);
    r
}

/// The sensors of a config that names none.
pub fn default_sensors() -> (r: Vec<String>)
    ensures
        text::views(r@) == seq!["usb"@],
{
    let mut r: Vec<String> = Vec::new();
    r.push("usb".to_owned());
    assert(text::views(r@) =~= seq!["usb"@]);
    r
}

/// The config of an empty file.
pub open spec fn default_raw() -> RawConfigView {
    RawConfigView {
        armed_at_boot: false,
        sensors: seq!["usb"@],
        whitelist: Seq::empty(),
        dry_run: false,
        power_action: None,
        lock_screen_first: false,
        on_sensor_gap: None,
        luks_destroy: None,
    }
}

impl Default for RawConfig {
    fn default() -> (r: Self)
        ensures
            r@ == default_raw(),
    {
        let r = RawConfig {
            general: RawGeneral { armed_at_boot: false },
            detection: RawDetection { sensors: default_sensors() },
            whitelist: Vec::new(),
            response: RawResponse {
                dry_run: false,
                power_action: None,
                lock_screen_first: false,
                on_sensor_gap: None,
                luks_destroy: None,
            },
        };
        assert(r@.whitelist =~= Seq::<RawWhitelistEntryView>::empty());
        r
    }
}

/// A validated configuration. Every value is resolved. The way to obtain one is
/// [`validate`].
#[derive(Debug, PartialEq, Eq)]
pub struct Config {
    pub armed_at_boot: bool,
    pub sensors: Vec<SensorName>,
    pub whitelist: Vec<WhitelistRule>,
    pub dry_run: bool,
    pub power_action: PowerAction,
    /// Resolved from `response.on_sensor_gap`; defaults to [`SensorGapAction::Warn`].
    pub on_sensor_gap: SensorGapAction,
    /// `Some` only if `[response.luks_destroy]` was present *and* fully valid
    /// *and* acknowledged. `None` is the normal case.
    pub luks_destroy: Option<LuksDestroy>,
}

/// What the daemon does when the USB sensor reports that some add/remove events
/// were missed.
#[derive(Debug, Clone, Copy, PartialEq, Eq, Structural)]
pub enum SensorGapAction {
    /// Set `events_lost` in `status`, log loudly, keep running.
    Warn,
    /// Treat the gap as an unauthorized change: fire a kill.
    Kill,
}

impl Default for SensorGapAction {
    fn default() -> (r: Self)
        ensures
            r == SensorGapAction::Warn,
    {
        SensorGapAction::Warn
    }
}

/// A sensor the daemon should start.
#[derive(Debug, Clone, Copy, PartialEq, Eq, Structural)]
pub enum SensorName {
    Usb,
}

/// A validated whitelist entry.
#[derive(Debug, PartialEq, Eq)]
pub struct WhitelistRule {
    pub id: UsbId,
    pub label: Option<String>,
    /// Resolved: a missing `max_count` becomes `1`.
    pub max_count: u32,
}

/// A validated LUKS-header-destruction target: a `LuksDestroy` value existing
/// *is* the acknowledgment.
#[derive(Debug, Clone, PartialEq, Eq)]
pub struct LuksDestroy {
    pub target_header: String,
}

/// What a [`WhitelistRule`] holds.
pub struct WhitelistRuleView {
    pub id: UsbId,
    pub label: Option<Seq<char>>,
    pub max_count: u32,
}

/// What a [`Config`] holds.
pub struct ConfigView {
    pub armed_at_boot: bool,
    pub sensors: Seq<SensorName>,
    pub whitelist: Seq<WhitelistRuleView>,
    pub dry_run: bool,
    pub power_action: PowerAction,
    pub on_sensor_gap: SensorGapAction,
    pub luks_destroy: Option<Seq<char>>,
}

impl View for WhitelistRule {
    type V = WhitelistRuleView;

    open spec fn view(&self) -> WhitelistRuleView {
        WhitelistRuleView {
            id: self.id,
            label: text::opt_view(self.label),
            max_count: self.max_count,
        }
    }
}

impl View for LuksDestroy {
    type V = Seq<char>;

    open spec fn view(&self) -> Seq<char> {
        self.target_header@
    }
}

impl View for Config {
    type V = ConfigView;

    open spec fn view(&self) -> ConfigView {
        ConfigView {
            armed_at_boot: self.armed_at_boot,
            sensors: self.sensors@,
            whitelist: text::views(self.whitelist@),
            dry_run: self.dry_run,
            power_action: self.power_action,
            on_sensor_gap: self.on_sensor_gap,
            luks_destroy: text::opt_view(self.luks_destroy),
        }
    }
}

/// One reason a config was rejected. [`validate`] collects *all* of these before
/// returning, so the operator can fix everything in one pass.
#[derive(Debug, Clone, PartialEq, Eq)]
pub enum ConfigError {
    NoSensors,
    UnknownSensor { name: String },
    MalformedWhitelistId { index: usize, id: String },
    DuplicateWhitelistId { index: usize, id: UsbId },
    ZeroMaxCount { index: usize, id: UsbId },
    BadPowerAction { value: String },
    BadSensorGapAction { value: String },
    LockScreenFirstUnsupported,
    LuksDestroyNotAcknowledged,
    LuksDestroyMissingTarget,
    LuksDestroyTargetNotAbsolute { path: String },
    LuksDestroyTargetHasParentRefs { path: String },
    LuksDestroyTargetHasControlChars { path: String },
    LuksDestroyTargetNotUnderDev { path: String },
}

/// What a [`ConfigError`] holds.
pub enum ConfigErrorView {
    NoSensors,
    UnknownSensor { name: Seq<char> },
    MalformedWhitelistId { index: nat, id: Seq<char> },
    DuplicateWhitelistId { index: nat, id: UsbId },
    ZeroMaxCount { index: nat, id: UsbId },
    BadPowerAction { value: Seq<char> },
    BadSensorGapAction { value: Seq<char> },
    LockScreenFirstUnsupported,
    LuksDestroyNotAcknowledged,
    LuksDestroyMissingTarget,
    LuksDestroyTargetNotAbsolute { path: Seq<char> },
    LuksDestroyTargetHasParentRefs { path: Seq<char> },
    LuksDestroyTargetHasControlChars { path: Seq<char> },
    LuksDestroyTargetNotUnderDev { path: Seq<char> },
}

impl View for ConfigError {
    type V = ConfigErrorView;

    open spec fn view(&self) -> ConfigErrorView {
        match self {
            ConfigError::NoSensors => ConfigErrorView::NoSensors,
            ConfigError::UnknownSensor { name } => ConfigErrorView::UnknownSensor { name: name@ },
            ConfigError::MalformedWhitelistId { index, id } => {
                ConfigErrorView::MalformedWhitelistId { index: *index as nat, id: id@ }
            },
            ConfigError::DuplicateWhitelistId { index, id } => {
                ConfigErrorView::DuplicateWhitelistId { index: *index as nat, id: *id }
            },
            ConfigError::ZeroMaxCount { index, id } => {
                ConfigErrorView::ZeroMaxCount { index: *index as nat, id: *id }
            },
            ConfigError::BadPowerAction { value } => {
                ConfigErrorView::BadPowerAction { value: value@ }
            },
            ConfigError::BadSensorGapAction { value } => {
                ConfigErrorView::BadSensorGapAction { value: value@ }
            },
            ConfigError::LockScreenFirstUnsupported => ConfigErrorView::LockScreenFirstUnsupported,
            ConfigError::LuksDestroyNotAcknowledged => ConfigErrorView::LuksDestroyNotAcknowledged,
            ConfigError::LuksDestroyMissingTarget => ConfigErrorView::LuksDestroyMissingTarget,
            ConfigError::LuksDestroyTargetNotAbsolute { path } => {
                ConfigErrorView::LuksDestroyTargetNotAbsolute { path: path@ }
            },
            ConfigError::LuksDestroyTargetHasParentRefs { path } => {
                ConfigErrorView::LuksDestroyTargetHasParentRefs { path: path@ }
            },
            ConfigError::LuksDestroyTargetHasControlChars { path } => {
                ConfigErrorView::LuksDestroyTargetHasControlChars { path: path@ }
            },
            ConfigError::LuksDestroyTargetNotUnderDev { path } => {
                ConfigErrorView::LuksDestroyTargetNotUnderDev { path: path@ }
            },
        }
    }
}

impl ConfigErrorView {
    /// The line that tells the operator what to fix.
    pub open spec fn text(self) -> Seq<char> {
        match self {
            ConfigErrorView::NoSensors => "detection.sensors is empty — nothing would be watched"@,
            ConfigErrorView::UnknownSensor { name } => "unknown sensor "@ + text::debug_text(name)
                + " (v1 supports only \"usb\")"@,
            ConfigErrorView::MalformedWhitelistId { index, id } => "whitelist entry "@
                + text::decimal(index) + ": id "@ + text::debug_text(id)
                + " is not a valid `vvvv:pppp` USB id"@,
            ConfigErrorView::DuplicateWhitelistId { index, id } => "whitelist entry "@
                + text::decimal(index) + ": id "@ + id.text() + " appears more than once"@,
            ConfigErrorView::ZeroMaxCount { index, id } => "whitelist entry "@ + text::decimal(
                index,
            ) + " ("@ + id.text() + "): max_count must be at least 1"@,
            ConfigErrorView::BadPowerAction { value } => "response.power_action "@
                + text::debug_text(value) + " is not one of poweroff, halt, none"@,
            ConfigErrorView::BadSensorGapAction { value } => "response.on_sensor_gap "@
                + text::debug_text(value) + " is not one of warn, kill"@,
            ConfigErrorView::LockScreenFirstUnsupported => {
                "response.lock_screen_first = true is not supported in v1: a pre-poweroff wait would contend with the sacred kill path (invariant 1), and a fire-and-forget lock never completes before power is cut. Set it to false or remove the line."@
            },
            ConfigErrorView::LuksDestroyNotAcknowledged => {
                "[response.luks_destroy] is present but not acknowledged: set `i_understand_this_is_irreversible = true` to enable it, or remove the section"@
            },
            ConfigErrorView::LuksDestroyMissingTarget => {
                "[response.luks_destroy]: target_header is required"@
            },
            ConfigErrorView::LuksDestroyTargetNotAbsolute { path } => {
                "[response.luks_destroy]: target_header "@ + text::debug_text(path)
                    + " must be an absolute path"@
            },
            ConfigErrorView::LuksDestroyTargetHasParentRefs { path } => {
                "[response.luks_destroy]: target_header "@ + text::debug_text(path)
                    + " must not contain `..`"@
            },
            ConfigErrorView::LuksDestroyTargetHasControlChars { path } => {
                "[response.luks_destroy]: target_header "@ + text::debug_text(path)
                    + " must be plain ASCII with no control characters (a /dev node name always is)"@
            },
            ConfigErrorView::LuksDestroyTargetNotUnderDev { path } => {
                "[response.luks_destroy]: target_header "@ + text::debug_text(path)
                    + " must be a block device under /dev/ (this is the antidote to the `dirname('/etc')` disaster)"@
            },
        }
    }
}

/// `[response.luks_destroy]: target_header "path"` and what is wrong with it.
fn target_text(path: &String, what: &str) -> (r: String)
    ensures
        r@ == "[response.luks_destroy]: target_header "@ + text::debug_text(path@) + what@,
{
    "[response.luks_destroy]: target_header ".to_owned().concat(
        text::quoted(path.as_str()).as_str(),
    ).concat(what)
}

impl ConfigError {
    /// The line that tells the operator what to fix.
    pub fn to_text(&self) -> (r: String)
        ensures
            r@ == self@.text(),
    {
        match self {
            ConfigError::NoSensors => {
                "detection.sensors is empty — nothing would be watched".to_owned()
            },
            ConfigError::UnknownSensor { name } => "unknown sensor ".to_owned().concat(
                text::quoted(name.as_str()).as_str(),
            ).concat(" (v1 supports only \"usb\")"),
            ConfigError::MalformedWhitelistId { index, id } => "whitelist entry ".to_owned().concat(
                text::decimal_text(*index as u64).as_str(),
            ).concat(": id ").concat(text::quoted(id.as_str()).as_str()).concat(
                " is not a valid `vvvv:pppp` USB id",
            ),
            ConfigError::DuplicateWhitelistId { index, id } => "whitelist entry ".to_owned().concat(
                text::decimal_text(*index as u64).as_str(),
            ).concat(": id ").concat(id.to_text().as_str()).concat(" appears more than once"),
            ConfigError::ZeroMaxCount { index, id } => "whitelist entry ".to_owned().concat(
                text::decimal_text(*index as u64).as_str(),
            ).concat(" (").concat(id.to_text().as_str()).concat("): max_count must be at least 1"),
            ConfigError::BadPowerAction { value } => "response.power_action ".to_owned().concat(
                text::quoted(value.as_str()).as_str(),
            ).concat(" is not one of poweroff, halt, none"),
            ConfigError::BadSensorGapAction { value } => {
                "response.on_sensor_gap ".to_owned().concat(
                    text::quoted(value.as_str()).as_str(),
                ).concat(" is not one of warn, kill")
            },
            ConfigError::LockScreenFirstUnsupported => {
                "response.lock_screen_first = true is not supported in v1: a pre-poweroff wait would contend with the sacred kill path (invariant 1), and a fire-and-forget lock never completes before power is cut. Set it to false or remove the line.".to_owned()
            },
            ConfigError::LuksDestroyNotAcknowledged => {
                "[response.luks_destroy] is present but not acknowledged: set `i_understand_this_is_irreversible = true` to enable it, or remove the section".to_owned()
            },
            ConfigError::LuksDestroyMissingTarget => {
                "[response.luks_destroy]: target_header is required".to_owned()
            },
            ConfigError::LuksDestroyTargetNotAbsolute { path } => target_text(
                path,
                " must be an absolute path",
            ),
            ConfigError::LuksDestroyTargetHasParentRefs { path } => target_text(
                path,
                " must not contain `..`",
            ),
            ConfigError::LuksDestroyTargetHasControlChars { path } => target_text(
                path,
                " must be plain ASCII with no control characters (a /dev node name always is)",
            ),
            ConfigError::LuksDestroyTargetNotUnderDev { path } => target_text(
                path,
                " must be a block device under /dev/ (this is the antidote to the `dirname('/etc')` disaster)",
            ),
        }
    }
}

/// Every reason the config was rejected.
#[derive(Debug, PartialEq, Eq)]
pub struct ValidationReport {
    pub errors: Vec<ConfigError>,
}

/// One line for each problem.
pub open spec fn problem_lines(errors: Seq<ConfigErrorView>) -> Seq<char>
    decreases errors.len(),
{
    if errors.len() == 0 {
        Seq::empty()
    } else {
        problem_lines(errors.drop_last()) + "  - "@ + errors.last().text() + "\n"@
    }
}

/// The report: a headline with the number of problems, then a line for each.
pub open spec fn report_text(errors: Seq<ConfigErrorView>) -> Seq<char> {
    "configuration is invalid ("@ + text::decimal(errors.len()) + " problems):\n"@ + problem_lines(
        errors,
    )
}

impl ValidationReport {
    /// The report: a headline with the number of problems, then a line for each.
    pub fn to_text(&self) -> (r: String)
        ensures
            r@ == report_text(text::views(self.errors@)),
    {
        let mut s = "configuration is invalid (".to_owned().concat(
            text::decimal_text(self.errors.len() as u64).as_str(),
        ).concat(" problems):\n");
        let ghost head = s@;
        let ghost all = text::views(self.errors@);
        let mut i: usize = 0;
        assert(all.take(0) == Seq::<ConfigErrorView>::empty());
        assert(s@ == head + problem_lines(all.take(0)));
        while i < self.errors.len()
            invariant
                i <= self.errors@.len(),
                all == text::views(self.errors@),
                s@ == head + problem_lines(all.take(i as int)),
            decreases self.errors@.len() - i,
        {
            let ghost before = s@;
            s.append("  - ");
            s.append(self.errors[i].to_text().as_str());
            s.append("\n");
            i += 1;
            proof {
                assert(all.take(i as int).drop_last() == all.take(i - 1));
                assert(all.take(i as int).last() == self.errors@[i - 1]@);
                assert(s@ == head + problem_lines(all.take(i as int)));
            }
        }
        assert(all.take(i as int) == all);
        s
    }
}

/// What is wrong with the sensor list.
pub open spec fn sensor_errors(names: Seq<Seq<char>>) -> Seq<ConfigErrorView> {
    if names.len() == 0 {
        seq![ConfigErrorView::NoSensors]
    } else {
        unknown_sensors(names)
    }
}

/// One error for each name that is no sensor.
pub open spec fn unknown_sensors(names: Seq<Seq<char>>) -> Seq<ConfigErrorView>
    decreases names.len(),
{
    if names.len() == 0 {
        Seq::empty()
    } else if names.last() == "usb"@ {
        unknown_sensors(names.drop_last())
    } else {
        unknown_sensors(names.drop_last()).push(
            ConfigErrorView::UnknownSensor { name: names.last() },
        )
    }
}

/// The sensors that the list names, each once.
pub open spec fn sensor_names(names: Seq<Seq<char>>) -> Seq<SensorName> {
    if names.contains("usb"@) {
        seq![SensorName::Usb]
    } else {
        Seq::empty()
    }
}

/// The rules and the errors that whitelist entries give.
pub struct WhitelistScan {
    pub rules: Seq<WhitelistRuleView>,
    pub errors: Seq<ConfigErrorView>,
}

/// Whether a rule has this id.
pub open spec fn has_rule(rules: Seq<WhitelistRuleView>, id: UsbId) -> bool {
    exists|i: int| 0 <= i < rules.len() && (#[trigger] rules[i]).id == id
}

/// What the first `n` entries give. An entry is rejected for a malformed id, for an id that
/// an accepted entry has, or for a count of zero, in that order; a missing count means one.
pub open spec fn scan_whitelist(entries: Seq<RawWhitelistEntryView>, n: nat) -> WhitelistScan
    decreases n,
{
    if n == 0 {
        WhitelistScan { rules: Seq::empty(), errors: Seq::empty() }
    } else {
        let before = scan_whitelist(entries, (n - 1) as nat);
        let index = (n - 1) as nat;
        let entry = entries[index as int];
        match sensor_event::usb_id_of(entry.id) {
            None => WhitelistScan {
                errors: before.errors.push(
                    ConfigErrorView::MalformedWhitelistId { index, id: entry.id },
                ),
                ..before
            },
            Some(id) => if has_rule(before.rules, id) {
                WhitelistScan {
                    errors: before.errors.push(ConfigErrorView::DuplicateWhitelistId { index, id }),
                    ..before
                }
            } else if entry.max_count == Some(0u32) {
                WhitelistScan {
                    errors: before.errors.push(ConfigErrorView::ZeroMaxCount { index, id }),
                    ..before
                }
            } else {
                WhitelistScan {
                    rules: before.rules.push(
                        WhitelistRuleView {
                            id,
                            label: entry.label,
                            max_count: match entry.max_count {
                                Some(m) => m,
                                None => 1,
                            },
                        },
                    ),
                    ..before
                }
            },
        }
    }
}

/// The power action that config names; a missing one means power off.
pub open spec fn power_action_of(value: Option<Seq<char>>) -> Option<PowerAction> {
    match value {
        None => Some(PowerAction::PowerOff),
        Some(v) => if v == "poweroff"@ {
            Some(PowerAction::PowerOff)
        } else if v == "halt"@ {
            Some(PowerAction::Halt)
        } else if v == "none"@ {
            Some(PowerAction::NoAction)
        } else {
            None
        },
    }
}

/// The gap action that config names; a missing one means a warning.
pub open spec fn sensor_gap_of(value: Option<Seq<char>>) -> Option<SensorGapAction> {
    match value {
        None => Some(SensorGapAction::Warn),
        Some(v) => if v == "warn"@ {
            Some(SensorGapAction::Warn)
        } else if v == "kill"@ {
            Some(SensorGapAction::Kill)
        } else {
            None
        },
    }
}

/// Whether a character is a control character or outside ASCII.
pub open spec fn is_unprintable(c: char) -> bool {
    c < ' ' || '~' < c
}

/// The parts of a path: what stands between its slashes, but for empty parts and `.`.
pub open spec fn path_parts(path: Seq<char>) -> Seq<Seq<char>> {
    text::split(path, '/').filter(|p: Seq<char>| p.len() > 0 && p != "."@)
}

/// Whether a path lies under `/dev/`, and is not `/dev` itself.
pub open spec fn is_dev_path(path: Seq<char>) -> bool {
    path.len() > 0 && path[0] == '/' && path_parts(path).len() >= 2 && path_parts(path)[0]
        == "dev"@
}

/// What is wrong with a target path, the gravest first.
pub open spec fn target_error(path: Seq<char>) -> Option<ConfigErrorView> {
    if path.len() == 0 {
        Some(ConfigErrorView::LuksDestroyMissingTarget)
    } else if exists|i: int| 0 <= i < path.len() && is_unprintable(#[trigger] path[i]) {
        Some(
            ConfigErrorView::LuksDestroyTargetHasControlChars { path: text::escaped(path) },
        )
    } else if path[0] != '/' {
        Some(ConfigErrorView::LuksDestroyTargetNotAbsolute { path })
    } else if path_parts(path).contains(".."@) {
        Some(ConfigErrorView::LuksDestroyTargetHasParentRefs { path })
    } else if !is_dev_path(path) {
        Some(ConfigErrorView::LuksDestroyTargetNotUnderDev { path })
    } else {
        None
    }
}

/// What is wrong with the destruction section.
pub open spec fn luks_errors(raw: Option<RawLuksDestroyView>) -> Seq<ConfigErrorView> {
    match raw {
        None => Seq::empty(),
        Some(l) => {
            let unacknowledged = if l.acknowledged {
                Seq::empty()
            } else {
                seq![ConfigErrorView::LuksDestroyNotAcknowledged]
            };
            let target = match l.target_header {
                None => Some(ConfigErrorView::LuksDestroyMissingTarget),
                Some(path) => target_error(path),
            };
            match target {
                Some(e) => unacknowledged.push(e),
                None => unacknowledged,
            }
        },
    }
}

/// Everything that is wrong with a config, in the order of the report.
#[verifier::opaque]
pub open spec fn config_errors(raw: RawConfigView) -> Seq<ConfigErrorView> {
    sensor_errors(raw.sensors) + scan_whitelist(raw.whitelist, raw.whitelist.len()).errors + (
    match power_action_of(raw.power_action) {
        Some(_) => Seq::empty(),
        None => seq![ConfigErrorView::BadPowerAction { value: raw.power_action->0 }],
    }) + (match sensor_gap_of(raw.on_sensor_gap) {
        Some(_) => Seq::empty(),
        None => seq![ConfigErrorView::BadSensorGapAction { value: raw.on_sensor_gap->0 }],
    }) + luks_errors(raw.luks_destroy) + (if raw.lock_screen_first {
        seq![ConfigErrorView::LockScreenFirstUnsupported]
    } else {
        Seq::empty()
    })
}

/// The config that a raw config without errors stands for.
#[verifier::opaque]
pub open spec fn resolved(raw: RawConfigView) -> ConfigView {
    ConfigView {
        armed_at_boot: raw.armed_at_boot,
        sensors: sensor_names(raw.sensors),
        whitelist: scan_whitelist(raw.whitelist, raw.whitelist.len()).rules,
        dry_run: raw.dry_run,
        power_action: power_action_of(raw.power_action)->0,
        on_sensor_gap: sensor_gap_of(raw.on_sensor_gap)->0,
        luks_destroy: match raw.luks_destroy {
            Some(l) => l.target_header,
            None => None,
        },
    }
}

impl ConfigView {
    /// What holds of every validated config: it watches USB, no id is listed twice, every
    /// count is at least one, and a destruction target is a plain path under `/dev/`.
    pub open spec fn wf(self) -> bool {
        &&& self.sensors == seq![SensorName::Usb]
        &&& forall|i: int, j: int|
            0 <= i < j < self.whitelist.len() ==> (#[trigger] self.whitelist[i]).id != (
            #[trigger] self.whitelist[j]).id
        &&& forall|i: int|
            0 <= i < self.whitelist.len() ==> (#[trigger] self.whitelist[i]).max_count >= 1
        &&& self.luks_destroy matches Some(path) ==> target_error(path) is None
    }
}

/// What the first entries give does not depend on the ones after them.
proof fn scan_looks_only_back(entries: Seq<RawWhitelistEntryView>, m: nat, n: nat)
    requires
        n <= m <= entries.len(),
    ensures
        scan_whitelist(entries.take(m as int), n) == scan_whitelist(entries, n),
    decreases n,
{
    if n > 0 {
        scan_looks_only_back(entries, m, (n - 1) as nat);
        assert(entries.take(m as int)[n - 1] == entries[n - 1]);
    }
}

/// What a whole list gives.
pub open spec fn scanned(entries: Seq<RawWhitelistEntryView>) -> WhitelistScan {
    scan_whitelist(entries, entries.len())
}

/// What one more entry adds to what a list gives.
proof fn scan_of_one_more(entries: Seq<RawWhitelistEntryView>, entry: RawWhitelistEntryView)
    ensures
        scan_whitelist(entries.push(entry), entries.len()) == scanned(entries),
{
    scan_looks_only_back(entries.push(entry), entries.len(), entries.len());
    assert(entries.push(entry).take(entries.len() as int) =~= entries);
}

/// A rule comes from an entry that writes its id.
pub proof fn a_rule_has_an_entry(entries: Seq<RawWhitelistEntryView>, n: nat, id: UsbId)
    requires
        n <= entries.len(),
        has_rule(scan_whitelist(entries, n).rules, id),
    ensures
        exists|i: int|
            0 <= i < n && sensor_event::usb_id_of((#[trigger] entries[i]).id) == Some(id),
    decreases n,
{
    if n > 0 {
        let before = scan_whitelist(entries, (n - 1) as nat).rules;
        if has_rule(before, id) {
            a_rule_has_an_entry(entries, (n - 1) as nat, id);
        } else {
            let rules = scan_whitelist(entries, n).rules;
            let i = choose|i: int| 0 <= i < rules.len() && (#[trigger] rules[i]).id == id;
            assert(i >= before.len()) by {
                if i < before.len() {
                    assert(before[i].id == id);
                }
            }
            assert(sensor_event::usb_id_of(entries[n - 1].id) == Some(id));
        }
    }
}

/// Leaving entries out of a list without errors gives one without errors, and no new rule.
pub proof fn leaving_out_keeps_a_list_valid(
    entries: Seq<RawWhitelistEntryView>,
    keep: spec_fn(RawWhitelistEntryView) -> bool,
)
    requires
        scanned(entries).errors.len() == 0,
    ensures
        scanned(entries.filter(keep)).errors.len() == 0,
        forall|id: UsbId| #[trigger]
            has_rule(scanned(entries.filter(keep)).rules, id) ==> has_rule(
                scanned(entries).rules,
                id,
            ),
    decreases entries.len(),
{
    reveal(Seq::filter);
    if entries.len() > 0 {
        let rest = entries.drop_last();
        let last = entries.last();
        assert(rest.push(last) =~= entries);
        scan_of_one_more(rest, last);
        let before = scanned(rest);
        assert(before.errors.len() == 0);
        leaving_out_keeps_a_list_valid(rest, keep);
        let kept = rest.filter(keep);
        let id = sensor_event::usb_id_of(last.id)->0;
        let rules = scanned(entries).rules;
        assert(rules[before.rules.len() as int].id == id);
        assert forall|k: UsbId| has_rule(before.rules, k) implies #[trigger] has_rule(rules, k) by {
            let i = choose|i: int|
                0 <= i < before.rules.len() && (#[trigger] before.rules[i]).id == k;
            assert(rules[i].id == k);
        }
        if keep(last) {
            assert(entries.filter(keep) == kept.push(last));
            scan_of_one_more(kept, last);
            assert(!has_rule(scanned(kept).rules, id));
            let now = scanned(entries.filter(keep));
            assert forall|k: UsbId| #[trigger] has_rule(now.rules, k) implies has_rule(rules, k) by {
                let i = choose|i: int| 0 <= i < now.rules.len() && (#[trigger] now.rules[i]).id == k;
                if i < scanned(kept).rules.len() {
                    assert(scanned(kept).rules[i].id == k);
                    assert(has_rule(scanned(kept).rules, k));
                }
            }
        }
    }
}

/// An entry that writes an id, with a count that is not zero, can be added to a list without
/// errors that has no entry for that id.
pub proof fn a_new_entry_keeps_a_list_valid(
    entries: Seq<RawWhitelistEntryView>,
    entry: RawWhitelistEntryView,
)
    requires
        scanned(entries).errors.len() == 0,
        sensor_event::usb_id_of(entry.id) is Some,
        !has_rule(scanned(entries).rules, sensor_event::usb_id_of(entry.id)->0),
        entry.max_count != Some(0u32),
    ensures
        scanned(entries.push(entry)).errors.len() == 0,
        scanned(entries.push(entry)).rules == scanned(entries).rules.push(
            WhitelistRuleView {
                id: sensor_event::usb_id_of(entry.id)->0,
                label: entry.label,
                max_count: match entry.max_count {
                    Some(m) => m,
                    None => 1,
                },
            },
        ),
{
    scan_of_one_more(entries, entry);
}

proof fn scan_is_sound(entries: Seq<RawWhitelistEntryView>, n: nat)
    ensures
        ({
            let rules = scan_whitelist(entries, n).rules;
            &&& forall|i: int, j: int|
                0 <= i < j < rules.len() ==> (#[trigger] rules[i]).id != (#[trigger] rules[j]).id
            &&& forall|i: int| 0 <= i < rules.len() ==> (#[trigger] rules[i]).max_count >= 1
        }),
    decreases n,
{
    if n > 0 {
        scan_is_sound(entries, (n - 1) as nat);
    }
}

proof fn no_unknown_sensor(names: Seq<Seq<char>>)
    requires
        unknown_sensors(names).len() == 0,
        names.len() > 0,
    ensures
        names.contains("usb"@),
{
    assert(names.last() == "usb"@);
    assert(names[names.len() - 1] == "usb"@);
}

/// A config without errors resolves to one that is well formed.
pub proof fn a_valid_config_is_well_formed(raw: RawConfigView)
    requires
        config_errors(raw).len() == 0,
    ensures
        resolved(raw).wf(),
{
    reveal(config_errors);
    reveal(resolved);
    scan_is_sound(raw.whitelist, raw.whitelist.len());
    assert(sensor_errors(raw.sensors).len() == 0);
    no_unknown_sensor(raw.sensors);
    assert(luks_errors(raw.luks_destroy).len() == 0);
}

/// Destruction needs the acknowledgment: a config that has the section without it is
/// rejected whole, whatever else it says.
pub proof fn destruction_needs_the_acknowledgment(raw: RawConfigView)
    requires
        raw.luks_destroy matches Some(l) && !l.acknowledged,
    ensures
        config_errors(raw).contains(ConfigErrorView::LuksDestroyNotAcknowledged),
{
    reveal(config_errors);
    let e = ConfigErrorView::LuksDestroyNotAcknowledged;
    let luks = luks_errors(raw.luks_destroy);
    assert(luks[0] == e);
    let before = sensor_errors(raw.sensors) + scan_whitelist(
        raw.whitelist,
        raw.whitelist.len(),
    ).errors + (match power_action_of(raw.power_action) {
        Some(_) => Seq::empty(),
        None => seq![ConfigErrorView::BadPowerAction { value: raw.power_action->0 }],
    }) + (match sensor_gap_of(raw.on_sensor_gap) {
        Some(_) => Seq::empty(),
        None => seq![ConfigErrorView::BadSensorGapAction { value: raw.on_sensor_gap->0 }],
    });
    assert(config_errors(raw)[before.len() as int] == e);
}

/// Every whitelist entry is either accepted or named in the report: there are as many rules
/// and errors together as entries.
pub proof fn no_entry_is_dropped(entries: Seq<RawWhitelistEntryView>, n: nat)
    ensures
        scan_whitelist(entries, n).rules.len() + scan_whitelist(entries, n).errors.len() == n,
    decreases n,
{
    if n > 0 {
        no_entry_is_dropped(entries, (n - 1) as nat);
    }
}

/// The config of an empty file is valid: nothing whitelisted, disarmed at boot, powering off.
pub proof fn the_default_config_is_valid()
    ensures
        config_errors(default_raw()).len() == 0,
        resolved(default_raw()) == (ConfigView {
            armed_at_boot: false,
            sensors: seq![SensorName::Usb],
            whitelist: Seq::empty(),
            dry_run: false,
            power_action: PowerAction::PowerOff,
            on_sensor_gap: SensorGapAction::Warn,
            luks_destroy: None,
        }),
{
    reveal(config_errors);
    reveal(resolved);
    let names = seq!["usb"@];
    assert(names.last() == "usb"@);
    assert(names[0] == "usb"@);
    reveal_with_fuel(unknown_sensors, 2);
}

/// Reads the sensor list.
fn validate_sensors(names: &Vec<String>, errors: &mut Vec<ConfigError>) -> (r: Vec<SensorName>)
    ensures
        r@ == sensor_names(text::views(names@)),
        text::views(final(errors)@) == text::views(old(errors)@) + sensor_errors(
            text::views(names@),
        ),
{
    let ghost start = text::views(errors@);
    let ghost all = text::views(names@);
    let mut sensors: Vec<SensorName> = Vec::new();
    if names.len() == 0 {
        errors.push(ConfigError::NoSensors);
        assert(text::views(errors@) == start.push(ConfigErrorView::NoSensors));
        assert(!all.contains("usb"@));
        return sensors;
    }
    let mut i: usize = 0;
    assert(all.take(0) == Seq::<Seq<char>>::empty());
    while i < names.len()
        invariant
            i <= names@.len(),
            all == text::views(names@),
            text::views(errors@) == start + unknown_sensors(all.take(i as int)),
            sensors@ == sensor_names(all.take(i as int)),
        decreases names@.len() - i,
    {
        let ghost before = text::views(errors@);
        let ghost name = all[i as int];
        proof {
            assert(all.take(i + 1).drop_last() == all.take(i as int));
            assert(all.take(i + 1).last() == name);
            assert(name == names@[i as int]@);
            assert(all.take(i + 1)[i as int] == name);
            let t = all.take(i as int);
            let u = all.take(i + 1);
            assert(u == t.push(name));
            if t.contains("usb"@) {
                let k = choose|k: int| 0 <= k < t.len() && #[trigger] t[k] == "usb"@;
                assert(u[k] == "usb"@);
            }
            if u.contains("usb"@) && name != "usb"@ {
                let k = choose|k: int| 0 <= k < u.len() && #[trigger] u[k] == "usb"@;
                assert(t[k] == "usb"@);
            }
        }
        if text::same_text(names[i].as_str(), "usb") {
            if sensors.len() == 0 {
                sensors.push(SensorName::Usb);
            }
        } else {
            errors.push(ConfigError::UnknownSensor { name: names[i].clone() });
            assert(text::views(errors@) == before.push(ConfigErrorView::UnknownSensor { name }));
        }
        i += 1;
    }
    assert(all.take(i as int) == all);
    sensors
}

/// Whether a rule has this id.
fn rules_have(rules: &Vec<WhitelistRule>, id: UsbId) -> (r: bool)
    ensures
        r == has_rule(text::views(rules@), id),
{
    let ghost all = text::views(rules@);
    let mut i: usize = 0;
    while i < rules.len()
        invariant
            i <= rules@.len(),
            all == text::views(rules@),
            forall|k: int| 0 <= k < i ==> (#[trigger] all[k]).id != id,
        decreases rules@.len() - i,
    {
        if rules[i].id == id {
            assert(all[i as int].id == id);
            return true;
        }
        i += 1;
    }
    false
}

/// Reads the whitelist.
fn validate_whitelist(raw: &Vec<RawWhitelistEntry>, errors: &mut Vec<ConfigError>) -> (r: Vec<
    WhitelistRule,
>)
    ensures
        text::views(r@) == scan_whitelist(text::views(raw@), raw@.len()).rules,
        text::views(final(errors)@) == text::views(old(errors)@) + scan_whitelist(
            text::views(raw@),
            raw@.len(),
        ).errors,
{
    let ghost start = text::views(errors@);
    let ghost all = text::views(raw@);
    let mut rules: Vec<WhitelistRule> = Vec::new();
    let mut index: usize = 0;
    while index < raw.len()
        invariant
            index <= raw@.len(),
            all == text::views(raw@),
            text::views(errors@) == start + scan_whitelist(all, index as nat).errors,
            text::views(rules@) == scan_whitelist(all, index as nat).rules,
        decreases raw@.len() - index,
    {
        let ghost had = text::views(errors@);
        let ghost kept = text::views(rules@);
        let entry = &raw[index];
        assert(all[index as int] == entry@);
        match UsbId::parse(entry.id.as_str()) {
            Err(_) => {
                errors.push(ConfigError::MalformedWhitelistId { index, id: entry.id.clone() });
                assert(text::views(errors@) == had.push(errors@.last()@));
            },
            Ok(id) => {
                let max_count: u32 = match entry.max_count {
                    Some(m) => m,
                    None => 1,
                };
                if rules_have(&rules, id) {
                    errors.push(ConfigError::DuplicateWhitelistId { index, id });
                    assert(text::views(errors@) == had.push(errors@.last()@));
                } else if max_count == 0 {
                    errors.push(ConfigError::ZeroMaxCount { index, id });
                    assert(text::views(errors@) == had.push(errors@.last()@));
                } else {
                    rules.push(WhitelistRule { id, label: entry.label.clone(), max_count });
                    assert(text::views(rules@) == kept.push(rules@.last()@));
                }
            },
        }
        index += 1;
    }
    rules
}

/// The power action that config names.
pub fn parse_power_action(value: Option<&str>) -> (r: Option<PowerAction>)
    ensures
        r == power_action_of(text::opt_view(value)),
{
    match value {
        None => Some(PowerAction::PowerOff),
        Some(v) => if text::same_text(v, "poweroff") {
            Some(PowerAction::PowerOff)
        } else if text::same_text(v, "halt") {
            Some(PowerAction::Halt)
        } else if text::same_text(v, "none") {
            Some(PowerAction::NoAction)
        } else {
            None
        },
    }
}

/// The gap action that config names.
pub fn parse_sensor_gap(value: Option<&str>) -> (r: Option<SensorGapAction>)
    ensures
        r == sensor_gap_of(text::opt_view(value)),
{
    match value {
        None => Some(SensorGapAction::Warn),
        Some(v) => if text::same_text(v, "warn") {
            Some(SensorGapAction::Warn)
        } else if text::same_text(v, "kill") {
            Some(SensorGapAction::Kill)
        } else {
            None
        },
    }
}

/// The text of an optional string.
fn as_text(o: &Option<String>) -> (r: Option<&str>)
    ensures
        text::opt_view(r) == text::opt_view(*o),
{
    match o {
        Some(s) => Some(s.as_str()),
        None => None,
    }
}

/// Reads the power action.
fn validate_power_action(value: &Option<String>, errors: &mut Vec<ConfigError>) -> (r: PowerAction)
    ensures
        match power_action_of(text::opt_view(*value)) {
            Some(p) => r == p && final(errors)@ == old(errors)@,
            None => text::views(final(errors)@) == text::views(old(errors)@).push(
                ConfigErrorView::BadPowerAction { value: text::opt_view(*value)->0 },
            ),
        },
{
    match (parse_power_action(as_text(value)), value) {
        (Some(p), _) => p,
        (None, Some(v)) => {
            let ghost had = text::views(errors@);
            errors.push(ConfigError::BadPowerAction { value: v.clone() });
            assert(text::views(errors@) == had.push(errors@.last()@));
            PowerAction::PowerOff
        },
        (None, None) => PowerAction::PowerOff,
    }
}

/// Reads the gap action.
fn validate_sensor_gap(value: &Option<String>, errors: &mut Vec<ConfigError>) -> (r:
    SensorGapAction)
    ensures
        match sensor_gap_of(text::opt_view(*value)) {
            Some(g) => r == g && final(errors)@ == old(errors)@,
            None => text::views(final(errors)@) == text::views(old(errors)@).push(
                ConfigErrorView::BadSensorGapAction { value: text::opt_view(*value)->0 },
            ),
        },
{
    match (parse_sensor_gap(as_text(value)), value) {
        (Some(g), _) => g,
        (None, Some(v)) => {
            let ghost had = text::views(errors@);
            errors.push(ConfigError::BadSensorGapAction { value: v.clone() });
            assert(text::views(errors@) == had.push(errors@.last()@));
            SensorGapAction::Warn
        },
        (None, None) => SensorGapAction::Warn,
    }
}

/// Whether a character is a control character or outside ASCII.
fn unprintable(c: char) -> (r: bool)
    ensures
        r == is_unprintable(c),
{
    let n: u32 = c as u32;
    n < 32 || n > 126
}

/// Whether a control character or one outside ASCII occurs.
fn has_unprintable(s: &Vec<char>) -> (r: bool)
    ensures
        r == exists|i: int| 0 <= i < s@.len() && is_unprintable(#[trigger] s@[i]),
{
    let mut i: usize = 0;
    while i < s.len()
        invariant
            i <= s@.len(),
            forall|k: int| 0 <= k < i ==> !is_unprintable(#[trigger] s@[k]),
        decreases s@.len() - i,
    {
        if unprintable(s[i]) {
            return true;
        }
        i += 1;
    }
    false
}

/// The parts of a path.
fn parts_of(path: &Vec<char>) -> (r: Vec<String>)
    ensures
        text::views(r@) == path_parts(path@),
{
    let pieces = text::split_chars(path, '/');
    let mut r: Vec<String> = Vec::new();
    let ghost all = text::views(pieces@);
    let ghost keep = |p: Seq<char>| p.len() > 0 && p != "."@;
    let mut i: usize = 0;
    assert(all.take(0).filter(keep) == Seq::<Seq<char>>::empty()) by {
        reveal(Seq::filter);
    }
    while i < pieces.len()
        invariant
            i <= pieces@.len(),
            all == text::views(pieces@),
            keep == (|p: Seq<char>| p.len() > 0 && p != "."@),
            text::views(r@) == all.take(i as int).filter(keep),
        decreases pieces@.len() - i,
    {
        let ghost before = text::views(r@);
        proof {
            reveal(Seq::filter);
            assert(all.take(i + 1).drop_last() == all.take(i as int));
            assert(all.take(i + 1).last() == pieces@[i as int]@);
        }
        let piece = text::string_of(pieces[i].as_slice());
        if pieces[i].len() > 0 && !text::same_text(piece.as_str(), ".") {
            r.push(piece);
            assert(text::views(r@) == before.push(pieces@[i as int]@));
        }
        i += 1;
    }
    assert(all.take(i as int) == all);
    r
}

/// Whether `word` is one of `names`.
pub fn names_contain(names: &Vec<String>, word: &str) -> (r: bool)
    ensures
        r == text::views(names@).contains(word@),
{
    let ghost all = text::views(names@);
    let mut i: usize = 0;
    while i < names.len()
        invariant
            i <= names@.len(),
            all == text::views(names@),
            forall|k: int| 0 <= k < i ==> #[trigger] all[k] != word@,
        decreases names@.len() - i,
    {
        if text::same_text(names[i].as_str(), word) {
            assert(all[i as int] == word@);
            return true;
        }
        i += 1;
    }
    false
}

/// What is wrong with a target path.
fn check_target(path: &str) -> (r: Option<ConfigError>)
    ensures
        text::opt_view(r) == target_error(path@),
{
    let chars = text::chars_of(path);
    if chars.len() == 0 {
        Some(ConfigError::LuksDestroyMissingTarget)
    } else if has_unprintable(&chars) {
        // The target is logged, and the log is the operator's only account of what
        // happened: reject anything that could forge or obfuscate a log line.
        Some(ConfigError::LuksDestroyTargetHasControlChars { path: text::escape(&chars) })
    } else if chars[0] != '/' {
        Some(ConfigError::LuksDestroyTargetNotAbsolute { path: path.to_owned() })
    } else {
        let parts = parts_of(&chars);
        assert(text::views(parts@).len() == parts@.len());
        if names_contain(&parts, "..") {
            Some(ConfigError::LuksDestroyTargetHasParentRefs { path: path.to_owned() })
        } else if parts.len() < 2 || !text::same_text(parts[0].as_str(), "dev") {
            // A LUKS header lives on a block device, always `/dev/...`. Requiring that is
            // the fail-closed choice: anything unexpected is refused.
            assert(parts@.len() >= 2 ==> text::views(parts@)[0] == parts@[0]@);
            Some(ConfigError::LuksDestroyTargetNotUnderDev { path: path.to_owned() })
        } else {
            assert(text::views(parts@)[0] == parts@[0]@);
            None
        }
    }
}

/// Reads the destruction section.
fn validate_luks_destroy(raw: &Option<RawLuksDestroy>, errors: &mut Vec<ConfigError>) -> (r: Option<
    LuksDestroy,
>)
    ensures
        text::views(final(errors)@) == text::views(old(errors)@) + luks_errors(
            text::opt_view(*raw),
        ),
        luks_errors(text::opt_view(*raw)).len() == 0 ==> text::opt_view(r) == (match *raw {
            Some(l) => text::opt_view(l.target_header),
            None => None,
        }),
        luks_errors(text::opt_view(*raw)).len() > 0 ==> r is None,
{
    let ghost start = text::views(errors@);
    match raw {
        None => {
            assert(text::views(errors@) == start + Seq::<ConfigErrorView>::empty());
            None
        },
        Some(l) => {
            let mut clean = l.i_understand_this_is_irreversible;
            if !l.i_understand_this_is_irreversible {
                errors.push(ConfigError::LuksDestroyNotAcknowledged);
            }
            let ghost mid = text::views(errors@);
            assert(mid == start + (if l.i_understand_this_is_irreversible {
                Seq::empty()
            } else {
                seq![ConfigErrorView::LuksDestroyNotAcknowledged]
            }));
            let problem = match &l.target_header {
                None => Some(ConfigError::LuksDestroyMissingTarget),
                Some(path) => check_target(path.as_str()),
            };
            match problem {
                Some(e) => {
                    clean = false;
                    errors.push(e);
                    assert(text::views(errors@) == mid.push(e@));
                },
                None => {},
            }
            assert(text::views(errors@) == start + luks_errors(text::opt_view(*raw)));
            match &l.target_header {
                Some(path) if clean => Some(LuksDestroy { target_header: path.clone() }),
                _ => None,
            }
        },
    }
}

/// Validate a [`RawConfig`] into a [`Config`], or return *every* problem found.
///
/// Fail-closed: any error at all means the daemon must not arm. Validation never
/// partially accepts a config.
pub fn validate(raw: RawConfig) -> (r: Result<Config, ValidationReport>)
    ensures
        match r {
            Ok(config) => config_errors(raw@).len() == 0 && config@ == resolved(raw@)
                && config@.wf(),
            Err(report) => config_errors(raw@).len() > 0 && text::views(report.errors@)
                == config_errors(raw@),
        },
{
    proof {
        reveal(config_errors);
        reveal(resolved);
    }
    let mut errors: Vec<ConfigError> = Vec::new();
    assert(text::views(errors@) =~= Seq::<ConfigErrorView>::empty());
    let sensors = validate_sensors(&raw.detection.sensors, &mut errors);
    let whitelist = validate_whitelist(&raw.whitelist, &mut errors);
    let power_action = validate_power_action(&raw.response.power_action, &mut errors);
    let on_sensor_gap = validate_sensor_gap(&raw.response.on_sensor_gap, &mut errors);
    let luks_destroy = validate_luks_destroy(&raw.response.luks_destroy, &mut errors);
    let ghost mid = text::views(errors@);
    if raw.response.lock_screen_first {
        errors.push(ConfigError::LockScreenFirstUnsupported);
        assert(text::views(errors@) == mid.push(ConfigErrorView::LockScreenFirstUnsupported));
    }
    assert(text::views(errors@) == config_errors(raw@));
    assert(text::views(errors@).len() == errors@.len());
    if errors.len() == 0 {
        proof {
            a_valid_config_is_well_formed(raw@);
            assert(luks_errors(raw@.luks_destroy).len() == 0);
        }
        Ok(
            Config {
                armed_at_boot: raw.general.armed_at_boot,
                sensors,
                whitelist,
                dry_run: raw.response.dry_run,
                power_action,
                on_sensor_gap,
                luks_destroy,
            },
        )
    } else {
        Err(ValidationReport { errors })
    }
}

} // verus!
