//! Replies in full, field by field, for messages about a reply that was not expected.

use crate::proto::action::{KillReason, PowerAction};
use crate::proto::protocol::{
    ConfigPayload, ConfigPayloadView, DeviceInfo, DeviceInfoView, LuksDestroyInfo,
    LuksDestroyInfoView, OnSensorGap, Reply, ReplyView, StatusPayload, StatusView, WhitelistEntry,
    WhitelistEntryView,
};
use crate::proto::sensor_event::UsbId;
use crate::text;
use vstd::prelude::*;

verus! {

/// A flag.
pub open spec fn of_flag(b: bool) -> Seq<char> {
    if b {
        "true"@
    } else {
        "false"@
    }
}

/// An optional value, once the value itself is rendered.
pub open spec fn of_option(o: Option<Seq<char>>) -> Seq<char> {
    match o {
        Some(s) => "Some("@ + s + ")"@,
        None => "None"@,
    }
}

/// An optional text.
pub open spec fn of_text(o: Option<Seq<char>>) -> Seq<char> {
    of_option(
        match o {
            Some(s) => Some(text::debug_text(s)),
            None => None,
        },
    )
}

/// Items between commas.
pub open spec fn commas(items: Seq<Seq<char>>) -> Seq<char>
    decreases items.len(),
{
    if items.len() == 0 {
        Seq::empty()
    } else if items.len() == 1 {
        items[0]
    } else {
        commas(items.drop_last()) + ", "@ + items.last()
    }
}

/// A list of rendered items.
pub open spec fn of_list(items: Seq<Seq<char>>) -> Seq<char> {
    "["@ + commas(items) + "]"@
}

/// An id.
pub open spec fn of_id(id: UsbId) -> Seq<char> {
    "UsbId { vendor: "@ + text::decimal(id.vendor as nat) + ", product: "@ + text::decimal(
        id.product as nat,
    ) + " }"@
}

/// An optional id.
pub open spec fn of_opt_id(o: Option<UsbId>) -> Seq<char> {
    of_option(
        match o {
            Some(id) => Some(of_id(id)),
            None => None,
        },
    )
}

/// A power action.
pub open spec fn of_power(p: PowerAction) -> Seq<char> {
    match p {
        PowerAction::PowerOff => "PowerOff"@,
        PowerAction::Halt => "Halt"@,
        PowerAction::NoAction => "None"@,
    }
}

/// A gap action.
pub open spec fn of_gap(g: OnSensorGap) -> Seq<char> {
    match g {
        OnSensorGap::Warn => "Warn"@,
        OnSensorGap::Kill => "Kill"@,
    }
}

/// A kill reason.
pub open spec fn of_reason(r: KillReason) -> Seq<char> {
    match r {
        KillReason::UnknownDevice { id } => "UnknownDevice { id: "@ + of_id(id) + " }"@,
        KillReason::UnidentifiedDevice => "UnidentifiedDevice"@,
        KillReason::CountExceeded { id, max, seen } => "CountExceeded { id: "@ + of_id(id)
            + ", max: "@ + text::decimal(max as nat) + ", seen: "@ + text::decimal(seen as nat)
            + " }"@,
        KillReason::WhitelistedDeviceRemoved { id } => "WhitelistedDeviceRemoved { id: "@ + of_id(
            id,
        ) + " }"@,
        KillReason::DeviceRemoved { id } => "DeviceRemoved { id: "@ + of_opt_id(id) + " }"@,
        KillReason::SensorGap => "SensorGap"@,
    }
}

/// A status snapshot.
pub open spec fn of_status(s: StatusView) -> Seq<char> {
    "StatusPayload { armed: "@ + of_flag(s.armed) + ", dry_run: "@ + of_flag(s.dry_run)
        + ", power_action: "@ + of_power(s.power_action) + ", whitelist_len: "@ + text::decimal(
        s.whitelist_len as nat,
    ) + ", device_count: "@ + text::decimal(s.device_count as nat) + ", config_error: "@ + of_text(
        s.config_error,
    ) + ", sensor_ok: "@ + of_flag(s.sensor_ok) + ", events_lost: "@ + of_flag(s.events_lost)
        + ", config_stale: "@ + of_flag(s.config_stale) + " }"@
}

/// A device.
pub open spec fn of_device(d: DeviceInfoView) -> Seq<char> {
    "DeviceInfo { source: Usb, id: "@ + of_opt_id(d.id) + ", serial: "@ + of_text(d.serial)
        + ", label: "@ + of_text(d.label) + ", whitelisted: "@ + of_flag(d.whitelisted) + " }"@
}

/// A whitelist entry.
pub open spec fn of_entry(e: WhitelistEntryView) -> Seq<char> {
    "WhitelistEntry { id: "@ + of_id(e.id) + ", label: "@ + of_text(e.label) + ", max_count: "@
        + of_option(
        match e.max_count {
            Some(n) => Some(text::decimal(n as nat)),
            None => None,
        },
    ) + " }"@
}

/// A destruction target.
pub open spec fn of_luks(l: LuksDestroyInfoView) -> Seq<char> {
    "LuksDestroyInfo { acknowledged: "@ + of_flag(l.acknowledged) + ", target_header: "@
        + text::debug_text(l.target_header) + ", engaged: "@ + of_flag(l.engaged) + " }"@
}

/// A config snapshot.
pub open spec fn of_config(c: ConfigPayloadView) -> Seq<char> {
    "ConfigPayload { armed_at_boot: "@ + of_flag(c.armed_at_boot) + ", sensors: "@ + of_list(
        c.sensors.map_values(|n: Seq<char>| text::debug_text(n)),
    ) + ", dry_run: "@ + of_flag(c.dry_run) + ", power_action: "@ + of_power(c.power_action)
        + ", on_sensor_gap: "@ + of_gap(c.on_sensor_gap) + ", luks_destroy: "@ + of_option(
        match c.luks_destroy {
            Some(l) => Some(of_luks(l)),
            None => None,
        },
    ) + ", validation_error: "@ + of_text(c.validation_error) + " }"@
}

/// A reply.
#[verifier::opaque]
pub open spec fn of_reply(r: ReplyView) -> Seq<char> {
    match r {
        ReplyView::Done => "Ok"@,
        ReplyView::Status(s) => "Status("@ + of_status(s) + ")"@,
        ReplyView::Devices(v) => "Devices("@ + of_list(
            v.map_values(|d: DeviceInfoView| of_device(d)),
        ) + ")"@,
        ReplyView::Whitelist(v) => "Whitelist("@ + of_list(
            v.map_values(|e: WhitelistEntryView| of_entry(e)),
        ) + ")"@,
        ReplyView::DryRun(v) => "DryRun("@ + of_list(v.map_values(|k: KillReason| of_reason(k)))
            + ")"@,
        ReplyView::Config(c) => "Config("@ + of_config(c) + ")"@,
        ReplyView::Error(m) => "Error("@ + text::debug_text(m) + ")"@,
    }
}

fn flag(b: bool) -> (r: &'static str)
    ensures
        r@ == of_flag(b),
{
    if b {
        "true"
    } else {
        "false"
    }
}

fn option(o: Option<String>) -> (r: String)
    ensures
        r@ == of_option(text::opt_view(o)),
{
    match o {
        Some(s) => "Some(".to_owned().concat(s.as_str()).concat(")"),
        None => "None".to_owned(),
    }
}

fn opt_text(o: &Option<String>) -> (r: String)
    ensures
        r@ == of_text(text::opt_view(*o)),
{
    match o {
        Some(s) => option(Some(text::quoted(s.as_str()))),
        None => option(None),
    }
}

fn list(items: &Vec<String>) -> (r: String)
    ensures
        r@ == of_list(text::views(items@)),
{
    let ghost all = text::views(items@);
    let mut s = String::new();
    let mut i: usize = 0;
    assert(all.take(0) == Seq::<Seq<char>>::empty());
    while i < items.len()
        invariant
            i <= items@.len(),
            all == text::views(items@),
            s@ == commas(all.take(i as int)),
        decreases items@.len() - i,
    {
        proof {
            assert(all.take(i + 1).drop_last() == all.take(i as int));
            assert(all.take(i + 1).last() == items@[i as int]@);
        }
        if i > 0 {
            s.append(", ");
            s.append(items[i].as_str());
        } else {
            s = items[i].clone();
        }
        i += 1;
    }
    assert(all.take(i as int) == all);
    "[".to_owned().concat(s.as_str()).concat("]")
}

fn usb_id(id: UsbId) -> (r: String)
    ensures
        r@ == of_id(id),
{
    "UsbId { vendor: ".to_owned().concat(text::decimal_text(id.vendor as u64).as_str()).concat(
        ", product: ",
    ).concat(text::decimal_text(id.product as u64).as_str()).concat(" }")
}

fn opt_id(o: Option<UsbId>) -> (r: String)
    ensures
        r@ == of_opt_id(o),
{
    match o {
        Some(i) => option(Some(usb_id(i))),
        None => option(None),
    }
}

fn power(p: PowerAction) -> (r: &'static str)
    ensures
        r@ == of_power(p),
{
    match p {
        PowerAction::PowerOff => "PowerOff",
        PowerAction::Halt => "Halt",
        PowerAction::NoAction => "None",
    }
}

fn gap(g: OnSensorGap) -> (r: &'static str)
    ensures
        r@ == of_gap(g),
{
    match g {
        OnSensorGap::Warn => "Warn",
        OnSensorGap::Kill => "Kill",
    }
}

fn reason(k: &KillReason) -> (r: String)
    ensures
        r@ == of_reason(*k),
{
    match k {
        KillReason::UnknownDevice { id: i } => "UnknownDevice { id: ".to_owned().concat(
            usb_id(*i).as_str(),
        ).concat(" }"),
        KillReason::UnidentifiedDevice => "UnidentifiedDevice".to_owned(),
        KillReason::CountExceeded { id: i, max, seen } => {
            "CountExceeded { id: ".to_owned().concat(usb_id(*i).as_str()).concat(", max: ").concat(
                text::decimal_text(*max as u64).as_str(),
            ).concat(", seen: ").concat(text::decimal_text(*seen as u64).as_str()).concat(" }")
        },
        KillReason::WhitelistedDeviceRemoved { id: i } => {
            "WhitelistedDeviceRemoved { id: ".to_owned().concat(usb_id(*i).as_str()).concat(" }")
        },
        KillReason::DeviceRemoved { id: i } => "DeviceRemoved { id: ".to_owned().concat(
            opt_id(*i).as_str(),
        ).concat(" }"),
        KillReason::SensorGap => "SensorGap".to_owned(),
    }
}

fn status(s: &StatusPayload) -> (r: String)
    ensures
        r@ == of_status(s@),
{
    "StatusPayload { armed: ".to_owned().concat(flag(s.armed)).concat(", dry_run: ").concat(
        flag(s.dry_run),
    ).concat(", power_action: ").concat(power(s.power_action)).concat(", whitelist_len: ").concat(
        text::decimal_text(s.whitelist_len as u64).as_str(),
    ).concat(", device_count: ").concat(text::decimal_text(s.device_count as u64).as_str()).concat(
        ", config_error: ",
    ).concat(opt_text(&s.config_error).as_str()).concat(", sensor_ok: ").concat(
        flag(s.sensor_ok),
    ).concat(", events_lost: ").concat(flag(s.events_lost)).concat(", config_stale: ").concat(
        flag(s.config_stale),
    ).concat(" }")
}

fn device(d: &DeviceInfo) -> (r: String)
    ensures
        r@ == of_device(d@),
{
    "DeviceInfo { source: Usb, id: ".to_owned().concat(opt_id(d.id).as_str()).concat(
        ", serial: ",
    ).concat(opt_text(&d.serial).as_str()).concat(", label: ").concat(
        opt_text(&d.label).as_str(),
    ).concat(", whitelisted: ").concat(flag(d.whitelisted)).concat(" }")
}

fn entry(e: &WhitelistEntry) -> (r: String)
    ensures
        r@ == of_entry(e@),
{
    let count = match e.max_count {
        Some(n) => option(Some(text::decimal_text(n as u64))),
        None => option(None),
    };
    "WhitelistEntry { id: ".to_owned().concat(usb_id(e.id).as_str()).concat(", label: ").concat(
        opt_text(&e.label).as_str(),
    ).concat(", max_count: ").concat(count.as_str()).concat(" }")
}

fn luks(l: &LuksDestroyInfo) -> (r: String)
    ensures
        r@ == of_luks(l@),
{
    "LuksDestroyInfo { acknowledged: ".to_owned().concat(flag(l.acknowledged)).concat(
        ", target_header: ",
    ).concat(text::quoted(l.target_header.as_str()).as_str()).concat(", engaged: ").concat(
        flag(l.engaged),
    ).concat(" }")
}

fn names(v: &Vec<String>) -> (r: String)
    ensures
        r@ == of_list(text::views(v@).map_values(|n: Seq<char>| text::debug_text(n))),
{
    let mut items: Vec<String> = Vec::new();
    let mut i: usize = 0;
    while i < v.len()
        invariant
            i <= v@.len(),
            items@.len() == i,
            forall|k: int| 0 <= k < i ==> (#[trigger] items@[k])@ == text::debug_text(v@[k]@),
        decreases v@.len() - i,
    {
        items.push(text::quoted(v[i].as_str()));
        i += 1;
    }
    assert(text::views(items@) =~= text::views(v@).map_values(|n: Seq<char>| text::debug_text(n)));
    list(&items)
}

fn config(c: &ConfigPayload) -> (r: String)
    ensures
        r@ == of_config(c@),
{
    let target = match &c.luks_destroy {
        Some(l) => option(Some(luks(l))),
        None => option(None),
    };
    "ConfigPayload { armed_at_boot: ".to_owned().concat(flag(c.armed_at_boot)).concat(
        ", sensors: ",
    ).concat(names(&c.sensors).as_str()).concat(", dry_run: ").concat(flag(c.dry_run)).concat(
        ", power_action: ",
    ).concat(power(c.power_action)).concat(", on_sensor_gap: ").concat(
        gap(c.on_sensor_gap),
    ).concat(", luks_destroy: ").concat(target.as_str()).concat(", validation_error: ").concat(
        opt_text(&c.validation_error).as_str(),
    ).concat(" }")
}

fn devices(v: &Vec<DeviceInfo>) -> (r: String)
    ensures
        r@ == of_list(text::views(v@).map_values(|d: DeviceInfoView| of_device(d))),
{
    let mut items: Vec<String> = Vec::new();
    let mut i: usize = 0;
    while i < v.len()
        invariant
            i <= v@.len(),
            items@.len() == i,
            forall|k: int| 0 <= k < i ==> (#[trigger] items@[k])@ == of_device(v@[k]@),
        decreases v@.len() - i,
    {
        items.push(device(&v[i]));
        i += 1;
    }
    assert(text::views(items@) =~= text::views(v@).map_values(|d: DeviceInfoView| of_device(d)));
    list(&items)
}

fn entries(v: &Vec<WhitelistEntry>) -> (r: String)
    ensures
        r@ == of_list(text::views(v@).map_values(|e: WhitelistEntryView| of_entry(e))),
{
    let mut items: Vec<String> = Vec::new();
    let mut i: usize = 0;
    while i < v.len()
        invariant
            i <= v@.len(),
            items@.len() == i,
            forall|k: int| 0 <= k < i ==> (#[trigger] items@[k])@ == of_entry(v@[k]@),
        decreases v@.len() - i,
    {
        items.push(entry(&v[i]));
        i += 1;
    }
    assert(text::views(items@) =~= text::views(v@).map_values(|e: WhitelistEntryView| of_entry(e)));
    list(&items)
}

fn reasons(v: &Vec<KillReason>) -> (r: String)
    ensures
        r@ == of_list(v@.map_values(|k: KillReason| of_reason(k))),
{
    let mut items: Vec<String> = Vec::new();
    let mut i: usize = 0;
    while i < v.len()
        invariant
            i <= v@.len(),
            items@.len() == i,
            forall|k: int| 0 <= k < i ==> (#[trigger] items@[k])@ == of_reason(v@[k]),
        decreases v@.len() - i,
    {
        items.push(reason(&v[i]));
        i += 1;
    }
    assert(text::views(items@) =~= v@.map_values(|k: KillReason| of_reason(k)));
    list(&items)
}

/// A reply in full.
pub fn reply_text(reply: &Reply) -> (r: String)
    ensures
        r@ == of_reply(reply@),
{
    proof {
        reveal(of_reply);
    }
    match reply {
        Reply::Done => "Ok".to_owned(),
        Reply::Status(s) => "Status(".to_owned().concat(status(s).as_str()).concat(")"),
        Reply::Devices(v) => "Devices(".to_owned().concat(devices(v).as_str()).concat(")"),
        Reply::Whitelist(v) => "Whitelist(".to_owned().concat(entries(v).as_str()).concat(")"),
        Reply::DryRun(v) => "DryRun(".to_owned().concat(reasons(v).as_str()).concat(")"),
        Reply::Config(c) => "Config(".to_owned().concat(config(c).as_str()).concat(")"),
        Reply::Error(m) => "Error(".to_owned().concat(text::quoted(m.as_str()).as_str()).concat(
            ")",
        ),
    }
}

} // verus!
