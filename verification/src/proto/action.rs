//! What a kill decision does.
//!
//! The policy engine produces an [`Action`]; responders consume it. Responders
//! are independent subscribers to the same `Action`, never a pipeline.

use crate::proto::sensor_event::UsbId;
use crate::text;
use vstd::prelude::*;

verus! {

/// The power operation a kill performs. Mirrors `response.power_action` in config.
#[derive(Debug, Clone, Copy, PartialEq, Eq, Structural)]
pub enum PowerAction {
    /// Power the machine off so the encrypted disk locks again. The default.
    PowerOff,
    /// Halt the CPU without cutting power.
    Halt,
    /// Take no power action. The decision still fires, but the machine stays up.
    NoAction,
}

impl Default for PowerAction {
    fn default() -> (r: Self)
        ensures
            r == PowerAction::PowerOff,
    {
        PowerAction::PowerOff
    }
}

impl PowerAction {
    /// The word that config and messages use.
    pub open spec fn word(self) -> Seq<char> {
        match self {
            PowerAction::PowerOff => "poweroff"@,
            PowerAction::Halt => "halt"@,
            PowerAction::NoAction => "none"@,
        }
    }

    /// The word that config and messages use.
    pub fn as_str(&self) -> (r: &'static str)
        ensures
            r@ == self.word(),
    {
        match self {
            PowerAction::PowerOff => "poweroff",
            PowerAction::Halt => "halt",
            PowerAction::NoAction => "none",
        }
    }
}

/// Why the policy engine decided an event warrants a kill.
#[derive(Debug, Clone, Copy, PartialEq, Eq, Structural)]
pub enum KillReason {
    /// A device whose id is not on the whitelist was connected.
    UnknownDevice { id: UsbId },
    /// A device with no readable USB id was connected.
    UnidentifiedDevice,
    /// A whitelisted device was connected, but more copies are now present than
    /// its `max_count` allows. `seen` counts the device from this event.
    CountExceeded { id: UsbId, max: u32, seen: u32 },
    /// A whitelisted device was disconnected.
    WhitelistedDeviceRemoved { id: UsbId },
    /// Any other device was disconnected (`id` absent if it had no readable id).
    DeviceRemoved { id: Option<UsbId> },
    /// The sensor lost events, and config asks for that to count as a change.
    SensorGap,
}

impl KillReason {
    /// The sentence that logs and clients show.
    pub open spec fn text(self) -> Seq<char> {
        match self {
            KillReason::UnknownDevice { id } => "unknown device "@ + id.text() + " was connected"@,
            KillReason::UnidentifiedDevice => "a device with no readable USB id was connected"@,
            KillReason::CountExceeded { id, max, seen } => "too many copies of "@ + id.text()
                + " connected ("@ + text::decimal(seen as nat) + " present, limit "@ + text::decimal(
                max as nat,
            ) + ")"@,
            KillReason::WhitelistedDeviceRemoved { id } => "whitelisted device "@ + id.text()
                + " was disconnected"@,
            KillReason::DeviceRemoved { id: Some(id) } => "device "@ + id.text()
                + " was disconnected"@,
            KillReason::DeviceRemoved { id: None } => "an unidentified device was disconnected"@,
            KillReason::SensorGap => "the sensor lost device events"@,
        }
    }

    /// The sentence that logs and clients show.
    pub fn to_text(&self) -> (r: String)
        ensures
            r@ == self.text(),
    {
        match self {
            KillReason::UnknownDevice { id } => "unknown device ".to_owned().concat(
                id.to_text().as_str(),
            ).concat(" was connected"),
            KillReason::UnidentifiedDevice => {
                "a device with no readable USB id was connected".to_owned()
            },
            KillReason::CountExceeded { id, max, seen } => "too many copies of ".to_owned().concat(
                id.to_text().as_str(),
            ).concat(" connected (").concat(text::decimal_text(*seen as u64).as_str()).concat(
                " present, limit ",
            ).concat(text::decimal_text(*max as u64).as_str()).concat(")"),
            KillReason::WhitelistedDeviceRemoved { id } => "whitelisted device ".to_owned().concat(
                id.to_text().as_str(),
            ).concat(" was disconnected"),
            KillReason::DeviceRemoved { id: Some(id) } => "device ".to_owned().concat(
                id.to_text().as_str(),
            ).concat(" was disconnected"),
            KillReason::DeviceRemoved { id: None } => {
                "an unidentified device was disconnected".to_owned()
            },
            KillReason::SensorGap => "the sensor lost device events".to_owned(),
        }
    }
}

/// A kill decision, ready to fan out to every responder.
#[derive(Debug, Clone, Copy, PartialEq, Eq, Structural)]
pub struct Action {
    /// What triggered the decision.
    pub reason: KillReason,
    /// The power operation to perform.
    pub power: PowerAction,
    /// Whether the fenced LUKS-header-destruction responder should engage. Even
    /// when `true` that responder only logs: the wipe is a stub.
    pub luks_destroy: bool,
    /// When `true`, responders log what they *would* do and perform no
    /// destructive or power action.
    pub dry_run: bool,
}

/// A reason says what happened and to what: it names the device's id where there is one, tells a
/// connection from a disconnection, and says how many copies there are before how many may be.
pub proof fn a_reason_says_what_happened(id: UsbId, max: u32, seen: u32)
    ensures
        text::shows((KillReason::UnknownDevice { id }).text(), id.text() + " was connected"@),
        text::shows_at((KillReason::UnknownDevice { id }).text(), "unknown device "@, 0),
        text::shows(
            (KillReason::WhitelistedDeviceRemoved { id }).text(),
            id.text() + " was disconnected"@,
        ),
        text::shows_at(
            (KillReason::WhitelistedDeviceRemoved { id }).text(),
            "whitelisted device "@,
            0,
        ),
        text::shows(
            (KillReason::DeviceRemoved { id: Some(id) }).text(),
            id.text() + " was disconnected"@,
        ),
        text::shows_at((KillReason::DeviceRemoved { id: Some(id) }).text(), "device "@, 0),
        ({
            let t = (KillReason::CountExceeded { id, max, seen }).text();
            &&& text::shows_at(t, "too many copies of "@ + id.text(), 0)
            &&& text::shows(t, " connected ("@ + text::decimal(seen as nat))
            &&& text::shows(t, " present, limit "@ + text::decimal(max as nat))
        }),
        KillReason::UnidentifiedDevice.text() == "a device with no readable USB id was connected"@,
        (KillReason::DeviceRemoved { id: None }).text() == "an unidentified device was disconnected"@,
        KillReason::SensorGap.text() == "the sensor lost device events"@,
{
    let n = id.text();
    text::what_is_added_shows("unknown device "@, n, " was connected"@);
    text::what_is_added_shows("whitelisted device "@, n, " was disconnected"@);
    text::what_is_added_shows("device "@, n, " was disconnected"@);
    starts_with("unknown device "@, n, " was connected"@);
    starts_with("whitelisted device "@, n, " was disconnected"@);
    starts_with("device "@, n, " was disconnected"@);
    let present = text::decimal(seen as nat);
    let limit = text::decimal(max as nat);
    let t0 = "too many copies of "@ + n;
    let t1 = t0 + " connected ("@ + present;
    let t2 = t1 + " present, limit "@ + limit;
    assert((KillReason::CountExceeded { id, max, seen }).text() == t2 + ")"@);
    assert(t0.subrange(0, t0.len() as int) =~= t0);
    text::a_start_stays(t0, t0, " connected ("@);
    text::a_start_stays(t0 + " connected ("@, t0, present);
    text::a_start_stays(t1, t0, " present, limit "@);
    text::a_start_stays(t1 + " present, limit "@, t0, limit);
    text::a_start_stays(t2, t0, ")"@);
    text::what_is_added_shows(t0, " connected ("@, present);
    text::what_shows_stays(t1, " connected ("@ + present, " present, limit "@);
    text::what_shows_stays(t1 + " present, limit "@, " connected ("@ + present, limit);
    text::what_shows_stays(t2, " connected ("@ + present, ")"@);
    text::what_is_added_shows(t1, " present, limit "@, limit);
    text::what_shows_stays(t2, " present, limit "@ + limit, ")"@);
}

proof fn starts_with(a: Seq<char>, b: Seq<char>, c: Seq<char>)
    ensures
        text::shows_at(a + b + c, a, 0),
{
    assert((a + b + c).subrange(0, a.len() as int) =~= a);
}

} // verus!
