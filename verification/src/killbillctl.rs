//! The command-line client: what each subcommand asks the daemon, and what it prints.

pub mod laws;

use crate::proto::action::KillReason;
use crate::proto::debug;
use crate::proto::protocol;
use crate::proto::protocol::{
    Command, CommandView, ConfigChange, ConfigChangeView, ConfigPayload, ConfigPayloadView,
    DeviceInfo, DeviceInfoView, Event, EventView, Reply, ReplyView, StatusPayload, StatusView,
    StreamEvent, WhitelistEntry, WhitelistEntryView,
};
use crate::proto::sensor_event;
use crate::proto::sensor_event::UsbId;
use crate::text;
use vstd::prelude::*;

verus! {

/// A subcommand that sends one command and prints one reply.
#[derive(Debug, Clone, PartialEq, Eq)]
pub enum Subcommand {
    Status,
    Devices,
    Arm,
    Disarm,
    /// Dry-run the policy over connected devices.
    Test,
    Reload,
    WhitelistList,
    WhitelistAdd { id: String, label: Option<String>, max_count: Option<u32> },
    WhitelistRemove { id: String },
    ConfigShow,
    ConfigSet(ConfigChange),
    LuksEngage(bool),
}

/// What a [`Subcommand`] holds.
pub enum SubcommandView {
    Status,
    Devices,
    Arm,
    Disarm,
    Test,
    Reload,
    WhitelistList,
    WhitelistAdd { id: Seq<char>, label: Option<Seq<char>>, max_count: Option<u32> },
    WhitelistRemove { id: Seq<char> },
    ConfigShow,
    ConfigSet(ConfigChangeView),
    LuksEngage(bool),
}

impl View for Subcommand {
    type V = SubcommandView;

    open spec fn view(&self) -> SubcommandView {
        match self {
            Subcommand::Status => SubcommandView::Status,
            Subcommand::Devices => SubcommandView::Devices,
            Subcommand::Arm => SubcommandView::Arm,
            Subcommand::Disarm => SubcommandView::Disarm,
            Subcommand::Test => SubcommandView::Test,
            Subcommand::Reload => SubcommandView::Reload,
            Subcommand::WhitelistList => SubcommandView::WhitelistList,
            Subcommand::WhitelistAdd { id, label, max_count } => SubcommandView::WhitelistAdd {
                id: id@,
                label: text::opt_view(*label),
                max_count: *max_count,
            },
            Subcommand::WhitelistRemove { id } => SubcommandView::WhitelistRemove { id: id@ },
            Subcommand::ConfigShow => SubcommandView::ConfigShow,
            Subcommand::ConfigSet(c) => SubcommandView::ConfigSet(c@),
            Subcommand::LuksEngage(b) => SubcommandView::LuksEngage(*b),
        }
    }
}

/// The command that a subcommand sends, or why it sends none.
pub open spec fn command_of(sub: SubcommandView) -> Result<CommandView, Seq<char>> {
    match sub {
        SubcommandView::Status => Ok(CommandView::GetStatus),
        SubcommandView::Devices => Ok(CommandView::ListDevices),
        SubcommandView::Arm => Ok(CommandView::Arm),
        SubcommandView::Disarm => Ok(CommandView::Disarm),
        SubcommandView::Test => Ok(CommandView::RunDryRun),
        SubcommandView::Reload => Ok(CommandView::ReloadConfig),
        SubcommandView::WhitelistList => Ok(CommandView::WhitelistList),
        SubcommandView::WhitelistAdd { id, label, max_count } => match sensor_event::usb_id_of(
            id,
        ) {
            Some(id) => Ok(CommandView::WhitelistAdd(WhitelistEntryView { id, label, max_count })),
            None => Err(
                text::debug_text(id)
                    + " is not a valid USB id — expected vvvv:pppp lowercase hex"@,
            ),
        },
        SubcommandView::WhitelistRemove { id } => match sensor_event::usb_id_of(id) {
            Some(id) => Ok(CommandView::WhitelistRemove(id)),
            None => Err(text::debug_text(id) + " is not a valid USB id"@),
        },
        SubcommandView::ConfigShow => Ok(CommandView::GetConfig),
        SubcommandView::ConfigSet(c) => Ok(CommandView::ConfigSet(c)),
        SubcommandView::LuksEngage(b) => Ok(CommandView::SetLuksDestroyEngaged(b)),
    }
}

/// The command that a subcommand sends, or why it sends none.
pub fn to_command(sub: &Subcommand) -> (r: Result<Command, String>)
    ensures
        match command_of(sub@) {
            Ok(c) => r matches Ok(cmd) && cmd@ == c,
            Err(e) => r matches Err(s) && s@ == e,
        },
{
    match sub {
        Subcommand::Status => Ok(Command::GetStatus),
        Subcommand::Devices => Ok(Command::ListDevices),
        Subcommand::Arm => Ok(Command::Arm),
        Subcommand::Disarm => Ok(Command::Disarm),
        Subcommand::Test => Ok(Command::RunDryRun),
        Subcommand::Reload => Ok(Command::ReloadConfig),
        Subcommand::WhitelistList => Ok(Command::WhitelistList),
        Subcommand::WhitelistAdd { id, label, max_count } => match UsbId::parse(id.as_str()) {
            Ok(id) => Ok(
                Command::WhitelistAdd(
                    WhitelistEntry { id, label: label.clone(), max_count: *max_count },
                ),
            ),
            Err(_) => Err(
                text::quoted(id.as_str()).concat(
                    " is not a valid USB id — expected vvvv:pppp lowercase hex",
                ),
            ),
        },
        Subcommand::WhitelistRemove { id } => match UsbId::parse(id.as_str()) {
            Ok(id) => Ok(Command::WhitelistRemove(id)),
            Err(_) => Err(text::quoted(id.as_str()).concat(" is not a valid USB id")),
        },
        Subcommand::ConfigShow => Ok(Command::GetConfig),
        Subcommand::ConfigSet(c) => Ok(Command::ConfigSet(c.clone())),
        Subcommand::LuksEngage(b) => Ok(Command::SetLuksDestroyEngaged(*b)),
    }
}

/// What a subcommand asks besides: the whitelist is listed with what is connected.
pub open spec fn also_asked(sub: SubcommandView) -> Option<CommandView> {
    if sub is WhitelistList {
        Some(CommandView::ListDevices)
    } else {
        None
    }
}

/// What a subcommand asks besides its command.
pub fn also_asks(sub: &Subcommand) -> (r: Option<Command>)
    ensures
        text::opt_view(r) == also_asked(sub@),
{
    match sub {
        Subcommand::WhitelistList => Some(Command::ListDevices),
        _ => None,
    }
}

/// `yes` or `no`.
pub open spec fn yes_no_of(b: bool) -> Seq<char> {
    if b {
        "yes"@
    } else {
        "no"@
    }
}

/// `yes` or `no`.
pub fn yes_no(b: bool) -> (r: &'static str)
    ensures
        r@ == yes_no_of(b),
{
    if b {
        "yes"
    } else {
        "no"
    }
}

/// What a status snapshot prints.
pub open spec fn status_text(s: StatusView) -> Seq<char> {
    "armed:         "@ + yes_no_of(s.armed) + "\ndry-run:       "@ + yes_no_of(s.dry_run)
        + "\npower action:  "@ + s.power_action.word() + "\nsensor:        "@ + (if s.sensor_ok {
        "ok"@
    } else {
        "STOPPED"@
    }) + (if s.events_lost {
        "\n               EVENTS LOST — some device changes were missed; restart killbilld"@
    } else {
        Seq::empty()
    }) + "\nwhitelist:     "@ + text::decimal(s.whitelist_len as nat) + " entries\ndevices seen:  "@
        + text::decimal(s.device_count as nat) + "\nconfig:        "@ + (match s.config_error {
        Some(e) => "INVALID — will not arm\n\n"@ + e + "\n"@,
        None => if s.config_stale {
            "STALE — a reload was rejected; the running config differs from the file on disk. Fix the file and run `killbillctl reload`.\n"@
        } else {
            "ok\n"@
        },
    })
}

/// What a status snapshot prints.
pub fn print_status(s: &StatusPayload) -> (r: String)
    ensures
        r@ == status_text(s@),
{
    let sensor = if s.sensor_ok {
        "ok"
    } else {
        "STOPPED"
    };
    let lost = if s.events_lost {
        "\n               EVENTS LOST — some device changes were missed; restart killbilld".to_owned()
    } else {
        String::new()
    };
    let config = match &s.config_error {
        Some(e) => "INVALID — will not arm\n\n".to_owned().concat(e.as_str()).concat("\n"),
        None => if s.config_stale {
            "STALE — a reload was rejected; the running config differs from the file on disk. Fix the file and run `killbillctl reload`.\n".to_owned()
        } else {
            "ok\n".to_owned()
        },
    };
    "armed:         ".to_owned().concat(yes_no(s.armed)).concat("\ndry-run:       ").concat(
        yes_no(s.dry_run),
    ).concat("\npower action:  ").concat(s.power_action.as_str()).concat(
        "\nsensor:        ",
    ).concat(sensor).concat(lost.as_str()).concat("\nwhitelist:     ").concat(
        text::decimal_text(s.whitelist_len as u64).as_str(),
    ).concat(" entries\ndevices seen:  ").concat(
        text::decimal_text(s.device_count as u64).as_str(),
    ).concat("\nconfig:        ").concat(config.as_str())
}

/// An id, or the stand-in for one that could not be read.
pub open spec fn id_text(id: Option<UsbId>) -> Seq<char> {
    match id {
        Some(i) => i.text(),
        None => "????:????"@,
    }
}

/// An id, or the stand-in for one that could not be read.
pub fn show_id(id: Option<UsbId>) -> (r: String)
    ensures
        r@ == id_text(id),
{
    match id {
        Some(i) => i.to_text(),
        None => "????:????".to_owned(),
    }
}

/// A device string made safe; nothing if there is none.
pub open spec fn safe_text(s: Option<Seq<char>>) -> Seq<char> {
    match s {
        Some(s) => protocol::sanitized(s),
        None => Seq::empty(),
    }
}

/// A device string made safe; nothing if there is none.
pub fn show_safe(s: &Option<String>) -> (r: String)
    ensures
        r@ == safe_text(text::opt_view(*s)),
{
    match s {
        Some(s) => protocol::sanitize_device_string(s.as_str()),
        None => String::new(),
    }
}

/// The line for one device.
pub open spec fn device_row(d: DeviceInfoView) -> Seq<char> {
    (if d.whitelisted {
        "ok "@
    } else {
        "NEW"@
    }) + "  "@ + id_text(d.id) + "  "@ + safe_text(d.label) + " "@ + safe_text(d.serial) + "\n"@
}

/// The lines for the devices.
pub open spec fn device_rows(devices: Seq<DeviceInfoView>) -> Seq<char>
    decreases devices.len(),
{
    if devices.len() == 0 {
        Seq::empty()
    } else {
        device_rows(devices.drop_last()) + device_row(devices.last())
    }
}

/// What the device list prints.
pub open spec fn devices_text(devices: Seq<DeviceInfoView>) -> Seq<char> {
    if devices.len() == 0 {
        "(no devices tracked — the daemon sees devices from when it started)\n"@
    } else {
        device_rows(devices)
    }
}

fn show_device(d: &DeviceInfo) -> (r: String)
    ensures
        r@ == device_row(d@),
{
    let mark = if d.whitelisted {
        "ok "
    } else {
        "NEW"
    };
    mark.to_owned().concat("  ").concat(show_id(d.id).as_str()).concat("  ").concat(
        show_safe(&d.label).as_str(),
    ).concat(" ").concat(show_safe(&d.serial).as_str()).concat("\n")
}

/// What the device list prints.
pub fn print_devices(devices: &Vec<DeviceInfo>) -> (r: String)
    ensures
        r@ == devices_text(text::views(devices@)),
{
    let ghost all = text::views(devices@);
    if devices.len() == 0 {
        return "(no devices tracked — the daemon sees devices from when it started)\n".to_owned();
    }
    let mut s = String::new();
    let mut i: usize = 0;
    assert(all.take(0) == Seq::<DeviceInfoView>::empty());
    while i < devices.len()
        invariant
            i <= devices@.len(),
            all == text::views(devices@),
            s@ == device_rows(all.take(i as int)),
        decreases devices@.len() - i,
    {
        proof {
            assert(all.take(i + 1).drop_last() == all.take(i as int));
            assert(all.take(i + 1).last() == devices@[i as int]@);
        }
        s.append(show_device(&devices[i]).as_str());
        i += 1;
    }
    assert(all.take(i as int) == all);
    s
}

/// The ids of the devices that have one.
pub open spec fn connected_ids_of(devices: Seq<DeviceInfoView>) -> Seq<UsbId>
    decreases devices.len(),
{
    if devices.len() == 0 {
        Seq::empty()
    } else {
        let before = connected_ids_of(devices.drop_last());
        match devices.last().id {
            Some(id) => before.push(id),
            None => before,
        }
    }
}

/// The ids of the devices that have one.
pub fn connected_ids(devices: &Vec<DeviceInfo>) -> (r: Vec<UsbId>)
    ensures
        r@ == connected_ids_of(text::views(devices@)),
{
    let ghost all = text::views(devices@);
    let mut r: Vec<UsbId> = Vec::new();
    let mut i: usize = 0;
    assert(all.take(0) == Seq::<DeviceInfoView>::empty());
    while i < devices.len()
        invariant
            i <= devices@.len(),
            all == text::views(devices@),
            r@ == connected_ids_of(all.take(i as int)),
        decreases devices@.len() - i,
    {
        proof {
            assert(all.take(i + 1).drop_last() == all.take(i as int));
            assert(all.take(i + 1).last() == devices@[i as int]@);
        }
        if let Some(id) = devices[i].id {
            r.push(id);
        }
        i += 1;
    }
    assert(all.take(i as int) == all);
    r
}

/// An id is connected where some device has it.
pub proof fn a_connected_id_has_a_device(devices: Seq<DeviceInfoView>, id: UsbId)
    ensures
        connected_ids_of(devices).contains(id) <==> exists|i: int|
            0 <= i < devices.len() && (#[trigger] devices[i]).id == Some(id),
    decreases devices.len(),
{
    if devices.len() > 0 {
        let rest = devices.drop_last();
        a_connected_id_has_a_device(rest, id);
        let ids = connected_ids_of(rest);
        if connected_ids_of(devices).contains(id) {
            if devices.last().id == Some(id) {
                assert(devices[devices.len() - 1].id == Some(id));
            } else {
                let k = connected_ids_of(devices).index_of(id);
                assert(ids.contains(id)) by {
                    assert(ids[k] == id);
                }
                let i = choose|i: int| 0 <= i < rest.len() && (#[trigger] rest[i]).id == Some(id);
                assert(devices[i].id == Some(id));
            }
        }
        if exists|i: int| 0 <= i < devices.len() && (#[trigger] devices[i]).id == Some(id) {
            let i = choose|i: int| 0 <= i < devices.len() && (#[trigger] devices[i]).id == Some(id);
            if i < rest.len() {
                assert(rest[i].id == Some(id));
                let k = ids.index_of(id);
                assert(connected_ids_of(devices)[k] == id);
            } else {
                assert(connected_ids_of(devices)[ids.len() as int] == id);
            }
        }
    }
}

/// Whether an id is among some.
fn is_among(ids: &Vec<UsbId>, id: UsbId) -> (r: bool)
    ensures
        r == ids@.contains(id),
{
    let mut i: usize = 0;
    while i < ids.len()
        invariant
            i <= ids@.len(),
            forall|k: int| 0 <= k < i ==> #[trigger] ids@[k] != id,
        decreases ids@.len() - i,
    {
        if ids[i] == id {
            return true;
        }
        i += 1;
    }
    false
}

/// The line for one whitelist entry: whether a device with its id is connected, the id, the
/// count, and the label.
pub open spec fn entry_row(e: WhitelistEntryView, connected: bool) -> Seq<char> {
    (if connected {
        "connected  "@
    } else {
        "absent     "@
    }) + e.id.text() + "  max="@ + text::decimal(
        match e.max_count {
            Some(n) => n as nat,
            None => 1,
        },
    ) + "  "@ + safe_text(e.label) + "\n"@
}

/// The lines for the whitelist.
pub open spec fn entry_rows(entries: Seq<WhitelistEntryView>, connected: Seq<UsbId>) -> Seq<char>
    decreases entries.len(),
{
    if entries.len() == 0 {
        Seq::empty()
    } else {
        entry_rows(entries.drop_last(), connected) + entry_row(
            entries.last(),
            connected.contains(entries.last().id),
        )
    }
}

/// What the whitelist prints.
pub open spec fn whitelist_text(entries: Seq<WhitelistEntryView>, connected: Seq<UsbId>) -> Seq<
    char,
> {
    if entries.len() == 0 {
        "(whitelist is empty — every device is unknown while armed)\n"@
    } else {
        entry_rows(entries, connected)
    }
}

fn show_entry(e: &WhitelistEntry, connected: bool) -> (r: String)
    ensures
        r@ == entry_row(e@, connected),
{
    let max: u32 = match e.max_count {
        Some(n) => n,
        None => 1,
    };
    let mark = if connected {
        "connected  "
    } else {
        "absent     "
    };
    mark.to_owned().concat(e.id.to_text().as_str()).concat("  max=").concat(
        text::decimal_text(max as u64).as_str(),
    ).concat("  ").concat(show_safe(&e.label).as_str()).concat("\n")
}

/// What the whitelist prints, with the ids that are connected.
pub fn print_whitelist(entries: &Vec<WhitelistEntry>, connected: &Vec<UsbId>) -> (r: String)
    ensures
        r@ == whitelist_text(text::views(entries@), connected@),
{
    let ghost all = text::views(entries@);
    if entries.len() == 0 {
        return "(whitelist is empty — every device is unknown while armed)\n".to_owned();
    }
    let mut s = String::new();
    let mut i: usize = 0;
    assert(all.take(0) == Seq::<WhitelistEntryView>::empty());
    while i < entries.len()
        invariant
            i <= entries@.len(),
            all == text::views(entries@),
            s@ == entry_rows(all.take(i as int), connected@),
        decreases entries@.len() - i,
    {
        proof {
            assert(all.take(i + 1).drop_last() == all.take(i as int));
            assert(all.take(i + 1).last() == entries@[i as int]@);
        }
        let here = is_among(connected, entries[i].id);
        s.append(show_entry(&entries[i], here).as_str());
        i += 1;
    }
    assert(all.take(i as int) == all);
    s
}

/// Names between commas.
pub fn join_names(items: &Vec<String>) -> (r: String)
    ensures
        r@ == debug::commas(text::views(items@)),
{
    let ghost all = text::views(items@);
    let mut s = String::new();
    let mut i: usize = 0;
    assert(all.take(0) == Seq::<Seq<char>>::empty());
    while i < items.len()
        invariant
            i <= items@.len(),
            all == text::views(items@),
            s@ == debug::commas(all.take(i as int)),
        decreases items@.len() - i,
    {
        proof {
            assert(all.take(i + 1).drop_last() == all.take(i as int));
            assert(all.take(i + 1).last() == items@[i as int]@);
        }
        if i > 0 {
            s.append(", ");
            s.append(items[i].as_str());
        } else {
            s = items[i].clone();
        }
        i += 1;
    }
    assert(all.take(i as int) == all);
    s
}

/// What the running config prints.
pub open spec fn config_text(c: ConfigPayloadView) -> Seq<char> {
    "armed_at_boot: "@ + yes_no_of(c.armed_at_boot) + "\nsensors:       "@ + debug::commas(
        c.sensors,
    ) + "\ndry_run:       "@ + yes_no_of(c.dry_run) + "\npower_action:  "@ + c.power_action.word()
        + "\non_sensor_gap: "@ + c.on_sensor_gap.word() + "\nluks_destroy:  "@ + (
    match c.luks_destroy {
        Some(l) => "configured, target "@ + protocol::sanitized(l.target_header)
            + "  (engaged: "@ + (if l.engaged {
            "YES"@
        } else {
            "no"@
        }) + ")\n"@,
        None => "not configured\n"@,
    }) + (match c.validation_error {
        Some(e) => {
            "\nNOTE: the config file on disk is currently INVALID; the above is the last-good running configuration, not what's in the file:\n"@
                + e + "\n"@
        },
        None => Seq::empty(),
    })
}

/// What the running config prints.
pub fn print_config(c: &ConfigPayload) -> (r: String)
    ensures
        r@ == config_text(c@),
{
    let luks = match &c.luks_destroy {
        Some(l) => "configured, target ".to_owned().concat(
            protocol::sanitize_device_string(l.target_header.as_str()).as_str(),
        ).concat("  (engaged: ").concat(
            if l.engaged {
                "YES"
            } else {
                "no"
            },
        ).concat(")\n"),
        None => "not configured\n".to_owned(),
    };
    let note = match &c.validation_error {
        Some(e) => {
            "\nNOTE: the config file on disk is currently INVALID; the above is the last-good running configuration, not what's in the file:\n".to_owned().concat(
            e.as_str()).concat("\n")
        },
        None => String::new(),
    };
    "armed_at_boot: ".to_owned().concat(yes_no(c.armed_at_boot)).concat("\nsensors:       ").concat(
        join_names(&c.sensors).as_str(),
    ).concat("\ndry_run:       ").concat(yes_no(c.dry_run)).concat("\npower_action:  ").concat(
        c.power_action.as_str(),
    ).concat("\non_sensor_gap: ").concat(c.on_sensor_gap.as_str()).concat(
        "\nluks_destroy:  ",
    ).concat(luks.as_str()).concat(note.as_str())
}

/// One line for each reason.
pub open spec fn reason_rows(reasons: Seq<KillReason>) -> Seq<char>
    decreases reasons.len(),
{
    if reasons.len() == 0 {
        Seq::empty()
    } else {
        reason_rows(reasons.drop_last()) + ("  - "@ + reasons.last().text() + "\n"@)
    }
}

/// What a dry run prints.
pub open spec fn dry_run_text(reasons: Seq<KillReason>) -> Seq<char> {
    if reasons.len() == 0 {
        "dry run: nothing currently connected would trigger a kill\n"@
    } else {
        "dry run: "@ + text::decimal(reasons.len()) + " device(s) would trigger a kill:\n"@
            + reason_rows(reasons)
    }
}

/// What a dry run prints.
pub fn print_dry_run(reasons: &Vec<KillReason>) -> (r: String)
    ensures
        r@ == dry_run_text(reasons@),
{
    if reasons.len() == 0 {
        return "dry run: nothing currently connected would trigger a kill\n".to_owned();
    }
    let mut rows = String::new();
    let mut i: usize = 0;
    assert(reasons@.take(0) == Seq::<KillReason>::empty());
    while i < reasons.len()
        invariant
            i <= reasons@.len(),
            rows@ == reason_rows(reasons@.take(i as int)),
        decreases reasons@.len() - i,
    {
        proof {
            assert(reasons@.take(i + 1).drop_last() == reasons@.take(i as int));
        }
        rows.append(
            "  - ".to_owned().concat(reasons[i].to_text().as_str()).concat("\n").as_str(),
        );
        i += 1;
    }
    assert(reasons@.take(i as int) == reasons@);
    "dry run: ".to_owned().concat(text::decimal_text(reasons.len() as u64).as_str()).concat(
        " device(s) would trigger a kill:\n",
    ).concat(rows.as_str())
}

/// The message for a reply that does not answer the command.
pub open spec fn unexpected(reply: ReplyView) -> Seq<char> {
    "unexpected reply: "@ + debug::of_reply(reply)
}

/// The output of a command that is answered with plain success.
pub open spec fn plain_result(reply: ReplyView, success: Seq<char>) -> Result<
    Seq<char>,
    Seq<char>,
> {
    match reply {
        ReplyView::Done => Ok(success + "\n"@),
        ReplyView::Error(e) => Err(e),
        _ => Err(unexpected(reply)),
    }
}

/// What the whitelist prints for its reply and the reply that lists the devices.
pub open spec fn whitelist_result(reply: ReplyView, also: Option<ReplyView>) -> Result<
    Seq<char>,
    Seq<char>,
> {
    match (reply, also) {
        (ReplyView::Whitelist(w), Some(ReplyView::Devices(d))) => Ok(
            whitelist_text(w, connected_ids_of(d)),
        ),
        (ReplyView::Whitelist(_), Some(ReplyView::Error(e))) => Err(e),
        (ReplyView::Whitelist(_), Some(other)) => Err(unexpected(other)),
        (ReplyView::Whitelist(_), None) => Err("the connected devices were not asked for"@),
        _ => Err(unexpected(reply)),
    }
}

/// What a subcommand prints for a reply, and for the one to what it asked besides, or the error
/// it ends with.
pub open spec fn result_of(
    sub: SubcommandView,
    reply: ReplyView,
    also: Option<ReplyView>,
) -> Result<Seq<char>, Seq<char>> {
    match sub {
        SubcommandView::Status => match reply {
            ReplyView::Status(s) => Ok(status_text(s)),
            ReplyView::Error(e) => Err(e),
            _ => Err(unexpected(reply)),
        },
        SubcommandView::Devices => match reply {
            ReplyView::Devices(d) => Ok(devices_text(d)),
            ReplyView::Error(e) => Err(e),
            _ => Err(unexpected(reply)),
        },
        SubcommandView::Test => match reply {
            ReplyView::DryRun(r) => Ok(dry_run_text(r)),
            ReplyView::Error(e) => Err(e),
            _ => Err(unexpected(reply)),
        },
        SubcommandView::ConfigShow => match reply {
            ReplyView::Config(c) => Ok(config_text(c)),
            ReplyView::Error(e) => Err(e),
            _ => Err(unexpected(reply)),
        },
        SubcommandView::WhitelistList => whitelist_result(reply, also),
        SubcommandView::Arm => plain_result(reply, "armed"@),
        SubcommandView::Disarm => plain_result(reply, "disarmed"@),
        SubcommandView::Reload => plain_result(reply, "config reloaded"@),
        SubcommandView::WhitelistAdd { .. } => plain_result(reply, "whitelist updated"@),
        SubcommandView::WhitelistRemove { .. } => plain_result(reply, "whitelist updated"@),
        SubcommandView::ConfigSet(_) => plain_result(reply, "config updated"@),
        SubcommandView::LuksEngage(true) => plain_result(
            reply,
            "LUKS header destruction ENGAGED — recorded only: the v1 wipe is a stub, so a kill while armed will NOT touch the header (invariant 3)"@,
        ),
        SubcommandView::LuksEngage(false) => plain_result(
            reply,
            "LUKS header destruction disengaged"@,
        ),
    }
}

/// Whether a result has these contents.
pub open spec fn result_is(r: Result<String, String>, v: Result<Seq<char>, Seq<char>>) -> bool {
    match v {
        Ok(s) => r matches Ok(t) && t@ == s,
        Err(e) => r matches Err(t) && t@ == e,
    }
}

/// The output of a command that is answered with plain success.
fn ok_or_error(reply: &Reply, success: &str) -> (r: Result<String, String>)
    ensures
        result_is(r, plain_result(reply@, success@)),
{
    match reply {
        Reply::Done => Ok(success.to_owned().concat("\n")),
        Reply::Error(e) => Err(e.clone()),
        other => Err(unexpected_text(other)),
    }
}

fn unexpected_text(reply: &Reply) -> (r: String)
    ensures
        r@ == unexpected(reply@),
{
    "unexpected reply: ".to_owned().concat(debug::reply_text(reply).as_str())
}

fn render_whitelist(reply: &Reply, also: &Option<Reply>) -> (r: Result<String, String>)
    ensures
        result_is(r, whitelist_result(reply@, text::opt_view(*also))),
{
    match reply {
        Reply::Whitelist(w) => match also {
            Some(Reply::Devices(d)) => Ok(print_whitelist(w, &connected_ids(d))),
            Some(Reply::Error(e)) => Err(e.clone()),
            Some(other) => Err(unexpected_text(other)),
            None => Err("the connected devices were not asked for".to_owned()),
        },
        other => Err(unexpected_text(other)),
    }
}

/// What a subcommand prints for a reply, and for the one to what it asked besides, or the error
/// it ends with.
pub fn render_reply(sub: &Subcommand, reply: &Reply, also: &Option<Reply>) -> (r: Result<
    String,
    String,
>)
    ensures
        result_is(r, result_of(sub@, reply@, text::opt_view(*also))),
{
    match sub {
        Subcommand::Status => match reply {
            Reply::Status(s) => Ok(print_status(s)),
            Reply::Error(e) => Err(e.clone()),
            other => Err(unexpected_text(other)),
        },
        Subcommand::Devices => match reply {
            Reply::Devices(d) => Ok(print_devices(d)),
            Reply::Error(e) => Err(e.clone()),
            other => Err(unexpected_text(other)),
        },
        Subcommand::Test => match reply {
            Reply::DryRun(v) => Ok(print_dry_run(v)),
            Reply::Error(e) => Err(e.clone()),
            other => Err(unexpected_text(other)),
        },
        Subcommand::ConfigShow => match reply {
            Reply::Config(c) => Ok(print_config(c)),
            Reply::Error(e) => Err(e.clone()),
            other => Err(unexpected_text(other)),
        },
        Subcommand::WhitelistList => render_whitelist(reply, also),
        Subcommand::Arm => ok_or_error(reply, "armed"),
        Subcommand::Disarm => ok_or_error(reply, "disarmed"),
        Subcommand::Reload => ok_or_error(reply, "config reloaded"),
        Subcommand::WhitelistAdd { .. } => ok_or_error(reply, "whitelist updated"),
        Subcommand::WhitelistRemove { .. } => ok_or_error(reply, "whitelist updated"),
        Subcommand::ConfigSet(_) => ok_or_error(reply, "config updated"),
        Subcommand::LuksEngage(engaged) => if *engaged {
            ok_or_error(
                reply,
                "LUKS header destruction ENGAGED — recorded only: the v1 wipe is a stub, so a kill while armed will NOT touch the header (invariant 3)",
            )
        } else {
            ok_or_error(reply, "LUKS header destruction disengaged")
        },
    }
}

/// An error reply is never printed as success: whatever was asked, it ends in an error.
pub proof fn a_refusal_is_an_error(
    sub: SubcommandView,
    message: Seq<char>,
    reply: ReplyView,
    also: Option<ReplyView>,
)
    ensures
        result_of(sub, ReplyView::Error(message), also) is Err,
        also_asked(sub) is Some ==> result_of(
            sub,
            reply,
            Some(ReplyView::Error(message)),
        ) is Err,
{
}

/// What the subscription's first frame means: events follow, or the error it ends with.
pub fn subscription_ack(reply: &Reply) -> (r: Result<(), String>)
    ensures
        match reply@ {
            ReplyView::Done => r is Ok,
            ReplyView::Error(e) => r matches Err(t) && t@ == "subscription refused: "@ + e,
            other => r matches Err(t) && t@ == "unexpected reply to Subscribe: "@
                + debug::of_reply(other),
        },
{
    match reply {
        Reply::Done => Ok(()),
        Reply::Error(e) => Err("subscription refused: ".to_owned().concat(e.as_str())),
        other => Err(
            "unexpected reply to Subscribe: ".to_owned().concat(debug::reply_text(other).as_str()),
        ),
    }
}

/// What an event prints.
pub open spec fn event_text(event: EventView) -> Seq<char> {
    match event {
        EventView::DeviceAdded(d) => "+ device "@ + id_text(d.id),
        EventView::DeviceRemoved(d) => "- device "@ + id_text(d.id),
        EventView::Armed => "! armed"@,
        EventView::Disarmed => "! disarmed"@,
        EventView::WouldKill(reason) => "! would kill: "@ + reason.text(),
        EventView::SensorStopped => {
            "!! USB sensor stopped — daemon is respawning it, or exiting for a restart"@
        },
        EventView::EventsLost => "!! USB events lost — some device changes were missed"@,
        EventView::WhitelistChanged => "* whitelist changed"@,
        EventView::ConfigChanged => "* config changed"@,
        EventView::ReloadFailed(reason) => "!! reload failed: "@ + reason,
    }
}

/// What an event prints.
pub fn render_event(event: &Event) -> (r: String)
    ensures
        r@ == event_text(event@),
{
    match event {
        Event::DeviceAdded(d) => "+ device ".to_owned().concat(show_id(d.id).as_str()),
        Event::DeviceRemoved(d) => "- device ".to_owned().concat(show_id(d.id).as_str()),
        Event::Armed => "! armed".to_owned(),
        Event::Disarmed => "! disarmed".to_owned(),
        Event::WouldKill(reason) => "! would kill: ".to_owned().concat(reason.to_text().as_str()),
        Event::SensorStopped => {
            "!! USB sensor stopped — daemon is respawning it, or exiting for a restart".to_owned()
        },
        Event::EventsLost => "!! USB events lost — some device changes were missed".to_owned(),
        Event::WhitelistChanged => "* whitelist changed".to_owned(),
        Event::ConfigChanged => "* config changed".to_owned(),
        Event::ReloadFailed(reason) => "!! reload failed: ".to_owned().concat(reason.as_str()),
    }
}

/// The line for one event of the stream.
pub open spec fn stream_text(at: Seq<char>, event: EventView) -> Seq<char> {
    at + "  "@ + event_text(event) + "\n"@
}

/// What to do next on the event stream.
pub open spec fn next_on_stream(follow: bool, read: StreamRead) -> StreamStep {
    match read {
        StreamRead::Closed => StreamStep::Stop,
        StreamRead::Frame => StreamStep::Print,
        StreamRead::TimedOut => if follow {
            StreamStep::Fail
        } else {
            StreamStep::Stop
        },
        StreamRead::Failed => StreamStep::Fail,
    }
}

/// The line for one event of the stream.
pub fn stream_line(e: &StreamEvent) -> (r: String)
    ensures
        r@ == stream_text(e.at@, e.event@),
{
    e.at.clone().concat("  ").concat(render_event(&e.event).as_str()).concat("\n")
}

/// What a read on the event stream gave.
#[derive(Debug, Clone, Copy, PartialEq, Eq, Structural)]
pub enum StreamRead {
    /// The daemon closed the stream.
    Closed,
    /// A frame.
    Frame,
    /// Nothing came in time.
    TimedOut,
    /// Reading failed.
    Failed,
}

/// What to do next on the event stream.
#[derive(Debug, Clone, Copy, PartialEq, Eq, Structural)]
pub enum StreamStep {
    /// Print the frame and go on.
    Print,
    /// Done.
    Stop,
    /// End with an error.
    Fail,
}

/// What to do next on the event stream: without following, silence ends it, because the
/// daemon sends the whole backlog at once.
pub fn stream_step(follow: bool, read: StreamRead) -> (r: StreamStep)
    ensures
        r == next_on_stream(follow, read),
{
    match read {
        StreamRead::Closed => StreamStep::Stop,
        StreamRead::Frame => StreamStep::Print,
        StreamRead::TimedOut => if follow {
            StreamStep::Fail
        } else {
            StreamStep::Stop
        },
        StreamRead::Failed => StreamStep::Fail,
    }
}

} // verus!
