//! The connected-device set: counts for the policy engine, and a list for clients.

use crate::killbilld::device_table;
use crate::killbilld::device_table::DeviceTable;
use crate::proto::sensor_event::{DeviceIdentity, DeviceIdentityView, UsbId};
use crate::text;
use vstd::prelude::*;

verus! {

/// The connected-device set.
#[derive(Debug)]
pub struct DeviceTracker {
    pub table: DeviceTable,
    pub connected: Vec<DeviceIdentity>,
}

/// What a [`DeviceTracker`] holds.
pub struct TrackerView {
    pub table: Map<UsbId, u32>,
    pub connected: Seq<DeviceIdentityView>,
}

impl View for DeviceTracker {
    type V = TrackerView;

    open spec fn view(&self) -> TrackerView {
        TrackerView { table: self.table@, connected: text::views(self.connected@) }
    }
}

/// Whether two identities are taken for the same device: the same id and the same serial.
pub open spec fn same_device(a: DeviceIdentityView, b: DeviceIdentityView) -> bool {
    a.usb_id == b.usb_id && a.serial == b.serial
}

/// A list without its first entry for this device.
pub open spec fn without_device(list: Seq<DeviceIdentityView>, identity: DeviceIdentityView) -> Seq<
    DeviceIdentityView,
>
    decreases list.len(),
{
    if list.len() == 0 {
        list
    } else if same_device(list[0], identity) {
        list.skip(1)
    } else {
        seq![list[0]] + without_device(list.skip(1), identity)
    }
}

impl TrackerView {
    /// The set once a device was plugged in.
    pub open spec fn added(self, identity: DeviceIdentityView) -> TrackerView {
        TrackerView {
            table: match identity.usb_id {
                Some(id) => device_table::inserted(self.table, id),
                None => self.table,
            },
            connected: self.connected.push(identity),
        }
    }

    /// The set once a device was taken out.
    pub open spec fn removed(self, identity: DeviceIdentityView) -> TrackerView {
        TrackerView {
            table: match identity.usb_id {
                Some(id) => device_table::removed(self.table, id),
                None => self.table,
            },
            connected: without_device(self.connected, identity),
        }
    }
}

proof fn without_first_match(list: Seq<DeviceIdentityView>, identity: DeviceIdentityView, at: int)
    requires
        0 <= at < list.len(),
        same_device(list[at], identity),
        forall|i: int| 0 <= i < at ==> !same_device(#[trigger] list[i], identity),
    ensures
        without_device(list, identity) == list.remove(at),
    decreases list.len(),
{
    if at == 0 {
        assert(list.remove(0) =~= list.skip(1));
    } else {
        let rest = list.skip(1);
        assert forall|i: int| 0 <= i < at - 1 implies !same_device(#[trigger] rest[i], identity) by {
            assert(rest[i] == list[i + 1]);
        }
        without_first_match(rest, identity, at - 1);
        assert(list.remove(at) =~= seq![list[0]] + rest.remove(at - 1));
    }
}

proof fn without_no_match(list: Seq<DeviceIdentityView>, identity: DeviceIdentityView)
    requires
        forall|i: int| 0 <= i < list.len() ==> !same_device(#[trigger] list[i], identity),
    ensures
        without_device(list, identity) == list,
    decreases list.len(),
{
    if list.len() > 0 {
        let rest = list.skip(1);
        assert forall|i: int| 0 <= i < rest.len() implies !same_device(
            #[trigger] rest[i],
            identity,
        ) by {
            assert(rest[i] == list[i + 1]);
        }
        without_no_match(rest, identity);
        assert(list =~= seq![list[0]] + rest);
    }
}

impl DeviceTracker {
    /// Nothing is plugged in.
    pub fn new() -> (r: Self)
        ensures
            r@ == (TrackerView { table: Map::empty(), connected: Seq::empty() }),
    {
        let r = DeviceTracker { table: DeviceTable::new(), connected: Vec::new() };
        assert(text::views(r.connected@) =~= Seq::<DeviceIdentityView>::empty());
        r
    }

    /// Records a device that was plugged in.
    pub fn add(&mut self, identity: DeviceIdentity)
        ensures
            final(self)@ == old(self)@.added(identity@),
    {
        let ghost had = text::views(self.connected@);
        match identity.usb_id {
            Some(id) => {
                self.table.insert(id);
            },
            None => {},
        }
        self.connected.push(identity);
        assert(text::views(self.connected@) == had.push(identity@));
    }

    /// Records a device that was taken out: one less of its id, and the first listed
    /// device with its id and serial.
    pub fn remove(&mut self, identity: &DeviceIdentity)
        ensures
            final(self)@ == old(self)@.removed(identity@),
    {
        let ghost had = text::views(self.connected@);
        match identity.usb_id {
            Some(id) => {
                self.table.remove(id);
            },
            None => {},
        }
        match position(&self.connected, identity) {
            Some(i) => {
                proof {
                    without_first_match(had, identity@, i as int);
                }
                self.connected.remove(i);
                assert(text::views(self.connected@) == had.remove(i as int));
            },
            None => {
                proof {
                    without_no_match(had, identity@);
                }
            },
        }
    }
}

/// Whether two optional ids are the same.
pub fn same_id(a: Option<UsbId>, b: Option<UsbId>) -> (r: bool)
    ensures
        r == (a == b),
{
    match (a, b) {
        (Some(x), Some(y)) => x == y,
        (None, None) => true,
        _ => false,
    }
}

/// Where the list first has this device.
fn position(list: &Vec<DeviceIdentity>, identity: &DeviceIdentity) -> (r: Option<usize>)
    ensures
        ({
            let all = text::views(list@);
            match r {
                Some(at) => at < all.len() && same_device(all[at as int], identity@) && forall|
                    i: int,
                |
                    0 <= i < at ==> !same_device(#[trigger] all[i], identity@),
                None => forall|i: int|
                    0 <= i < all.len() ==> !same_device(#[trigger] all[i], identity@),
            }
        }),
{
    let ghost all = text::views(list@);
    let mut i: usize = 0;
    while i < list.len()
        invariant
            i <= list@.len(),
            all == text::views(list@),
            forall|k: int| 0 <= k < i ==> !same_device(#[trigger] all[k], identity@),
        decreases list@.len() - i,
    {
        assert(all[i as int] == list@[i as int]@);
        if same_id(list[i].usb_id, identity.usb_id) && text::same_opt_text(
            &list[i].serial,
            &identity.serial,
        ) {
            return Some(i);
        }
        i += 1;
    }
    None
}

/// A device that is plugged in and taken out again leaves the list as it was, if no device
/// that could be taken for it was there before.
pub proof fn unplugging_undoes_plugging(t: TrackerView, identity: DeviceIdentityView)
    requires
        forall|i: int| 0 <= i < t.connected.len() ==> !same_device(
            #[trigger] t.connected[i],
            identity,
        ),
        identity.usb_id matches Some(id) ==> device_table::count_of(t.table, id) < u32::MAX && (
        t.table.dom().contains(id) ==> t.table[id] >= 1),
    ensures
        t.added(identity).removed(identity) == t,
{
    let list = t.connected.push(identity);
    without_first_match(list, identity, t.connected.len() as int);
    assert(list.remove(t.connected.len() as int) =~= t.connected);
    match identity.usb_id {
        Some(id) => device_table::remove_undoes_insert(t.table, id),
        None => {},
    }
}

/// Taking a device out of the list takes out one entry, the first with the same id and the same
/// serial, and none where there is no such entry.
pub proof fn one_device_leaves(list: Seq<DeviceIdentityView>, identity: DeviceIdentityView)
    ensures
        ({
            let after = without_device(list, identity);
            ||| after == list && forall|i: int|
                0 <= i < list.len() ==> (#[trigger] list[i]).usb_id != identity.usb_id
                    || list[i].serial != identity.serial
            ||| exists|i: int|
                #![trigger list[i]]
                0 <= i < list.len() && list[i].usb_id == identity.usb_id && list[i].serial
                    == identity.serial && after == list.remove(i) && forall|j: int|
                    0 <= j < i ==> (#[trigger] list[j]).usb_id != identity.usb_id || list[j].serial
                        != identity.serial
        }),
    decreases list.len(),
{
    if list.len() > 0 {
        if list[0].usb_id == identity.usb_id && list[0].serial == identity.serial {
            without_first_match(list, identity, 0);
        } else {
            let rest = list.skip(1);
            one_device_leaves(rest, identity);
            assert forall|i: int| 1 <= i < list.len() implies rest[i - 1] == #[trigger] list[i] by {}
            if exists|i: int|
                #![trigger rest[i]]
                0 <= i < rest.len() && rest[i].usb_id == identity.usb_id && rest[i].serial
                    == identity.serial && without_device(rest, identity) == rest.remove(i)
                    && forall|j: int|
                    0 <= j < i ==> (#[trigger] rest[j]).usb_id != identity.usb_id || rest[j].serial
                        != identity.serial {
                let i = choose|i: int|
                    #![trigger rest[i]]
                    0 <= i < rest.len() && rest[i].usb_id == identity.usb_id && rest[i].serial
                        == identity.serial && without_device(rest, identity) == rest.remove(i)
                        && forall|j: int|
                        0 <= j < i ==> (#[trigger] rest[j]).usb_id != identity.usb_id
                            || rest[j].serial != identity.serial;
                assert forall|j: int| 0 <= j < i + 1 implies !same_device(
                    #[trigger] list[j],
                    identity,
                ) by {
                    if j > 0 {
                        assert(list[j] == rest[j - 1]);
                    }
                }
                assert(list[i + 1] == rest[i]);
                without_first_match(list, identity, i + 1);
            } else {
                assert forall|i: int| 0 <= i < list.len() implies !same_device(
                    #[trigger] list[i],
                    identity,
                ) by {
                    if i > 0 {
                        assert(list[i] == rest[i - 1]);
                    }
                }
                without_no_match(list, identity);
            }
        }
    }
}

} // verus!
