//! The daemon's view of what is currently plugged in.
//!
//! A count per USB id (a hub or a headset can legitimately present the same id
//! more than once). The daemon owns every mutation; the policy engine only reads
//! it, to answer "how many of this id are already here?".

use crate::proto::sensor_event::UsbId;
use vstd::prelude::*;

verus! {

/// Connected-device counts, keyed by USB id.
#[derive(Debug)]
pub struct DeviceTable {
    counts: Vec<(UsbId, u32)>,
}

/// Whether a list of counts has this id.
spec fn listed(counts: Seq<(UsbId, u32)>, id: UsbId) -> bool {
    exists|i: int| 0 <= i < counts.len() && (#[trigger] counts[i]).0 == id
}

/// Where a list of counts has this id.
spec fn place(counts: Seq<(UsbId, u32)>, id: UsbId) -> int {
    choose|i: int| 0 <= i < counts.len() && (#[trigger] counts[i]).0 == id
}

/// The counts as a map. An id without a device is not in it.
spec fn as_map(counts: Seq<(UsbId, u32)>) -> Map<UsbId, u32> {
    Map::new(
        |id: UsbId| listed(counts, id) && counts[place(counts, id)].1 >= 1,
        |id: UsbId| counts[place(counts, id)].1,
    )
}

/// No id stands twice, and every count is at least one.
spec fn proper(counts: Seq<(UsbId, u32)>) -> bool {
    &&& forall|i: int, j: int|
        0 <= i < j < counts.len() ==> (#[trigger] counts[i]).0 != (#[trigger] counts[j]).0
    &&& forall|i: int| 0 <= i < counts.len() ==> (#[trigger] counts[i]).1 >= 1
}

/// How many devices a map of counts stands for.
pub open spec fn total_of(m: Map<UsbId, u32>) -> nat
    decreases m.dom().len(),
    when m.dom().finite()
{
    if m.dom().len() == 0 {
        0
    } else {
        let id = m.dom().choose();
        m[id] as nat + total_of(m.remove(id))
    }
}

/// How many devices with this id a map of counts has.
pub open spec fn count_of(m: Map<UsbId, u32>, id: UsbId) -> u32 {
    if m.dom().contains(id) {
        m[id]
    } else {
        0
    }
}

/// The counts after one more device with this id; a count stops at its ceiling.
pub open spec fn inserted(m: Map<UsbId, u32>, id: UsbId) -> Map<UsbId, u32> {
    m.insert(
        id,
        if count_of(m, id) < u32::MAX {
            (count_of(m, id) + 1) as u32
        } else {
            u32::MAX
        },
    )
}

/// The counts after one device with this id has gone; an id that is not there stays away.
pub open spec fn removed(m: Map<UsbId, u32>, id: UsbId) -> Map<UsbId, u32> {
    if count_of(m, id) > 1 {
        m.insert(id, (count_of(m, id) - 1) as u32)
    } else {
        m.remove(id)
    }
}

/// Any id may be taken out first: the total is that id's count and the rest.
pub proof fn total_splits(m: Map<UsbId, u32>, id: UsbId)
    requires
        m.dom().finite(),
        m.dom().contains(id),
    ensures
        total_of(m) == m[id] as nat + total_of(m.remove(id)),
    decreases m.dom().len(),
{
    let first = m.dom().choose();
    assert(m.dom().contains(first));
    if first != id {
        let a = m.remove(first);
        let b = m.remove(id);
        assert(a.dom().contains(id) && b.dom().contains(first));
        total_splits(a, id);
        total_splits(b, first);
        assert(a.remove(id) =~= b.remove(first));
    }
}

/// Whether every id that is there has a device, and there are finitely many.
pub open spec fn positive(m: Map<UsbId, u32>) -> bool {
    &&& m.dom().finite()
    &&& forall|id: UsbId| m.dom().contains(id) ==> #[trigger] m[id] >= 1
}

/// What every table holds: only ids with at least one device, and finitely many.
pub proof fn every_listed_id_has_a_device(table: &DeviceTable)
    ensures
        positive(table@),
{
    let counts = table.counts@;
    let ids = counts.map_values(|p: (UsbId, u32)| p.0);
    assert forall|id: UsbId| table@.dom().contains(id) implies ids.to_set().contains(id) by {
        let i = place(counts, id);
        assert(ids[i] == id);
    }
    vstd::seq_lib::seq_to_set_is_finite(ids);
    vstd::set_lib::lemma_len_subset(table@.dom(), ids.to_set());
}

/// There are at least as many devices as distinct ids, and none of either only where there is
/// nothing at all.
pub proof fn each_id_counts_in_the_total(m: Map<UsbId, u32>)
    requires
        positive(m),
    ensures
        total_of(m) >= m.dom().len(),
        total_of(m) == 0 <==> m == Map::<UsbId, u32>::empty(),
        m.dom().len() == 0 <==> m == Map::<UsbId, u32>::empty(),
    decreases m.dom().len(),
{
    if m.dom().len() == 0 {
        assert(m.dom() =~= Set::empty());
        assert(m =~= Map::empty());
    } else {
        let id = m.dom().choose();
        assert(m.dom().contains(id));
        assert(m[id] >= 1);
        let rest = m.remove(id);
        assert(rest.dom() =~= m.dom().remove(id));
        assert forall|k: UsbId| rest.dom().contains(k) implies #[trigger] rest[k] >= 1 by {
            assert(m[k] >= 1);
        }
        each_id_counts_in_the_total(rest);
    }
}

/// The table's own promises, for every table: plugging a device in and taking it out again
/// restores it, unless the count had reached its ceiling; each device counts for one; and
/// there are at least as many devices as distinct ids, with none of either only when empty.
pub proof fn what_every_table_keeps(table: &DeviceTable, id: UsbId)
    ensures
        count_of(table@, id) < u32::MAX ==> removed(inserted(table@, id), id) == table@,
        count_of(table@, id) < u32::MAX ==> total_of(inserted(table@, id)) == total_of(table@) + 1,
        total_of(table@) >= table@.dom().len(),
        total_of(table@) == 0 <==> table@ == Map::<UsbId, u32>::empty(),
        table@.dom().len() == 0 <==> table@ == Map::<UsbId, u32>::empty(),
{
    every_listed_id_has_a_device(table);
    each_id_counts_in_the_total(table@);
    if count_of(table@, id) < u32::MAX {
        remove_undoes_insert(table@, id);
        insert_adds_one(table@, id);
    }
}

/// Plugging a device in and taking it out again leaves the counts as they were, unless its
/// count had reached the ceiling.
pub proof fn remove_undoes_insert(m: Map<UsbId, u32>, id: UsbId)
    requires
        count_of(m, id) < u32::MAX,
        m.dom().contains(id) ==> m[id] >= 1,
    ensures
        removed(inserted(m, id), id) == m,
{
    assert(removed(inserted(m, id), id) =~= m);
}

/// A change to one id leaves the count of every other id alone.
pub proof fn other_ids_are_untouched(m: Map<UsbId, u32>, id: UsbId, other: UsbId)
    requires
        id != other,
    ensures
        count_of(inserted(m, id), other) == count_of(m, other),
        count_of(removed(m, id), other) == count_of(m, other),
{
}

/// Each device counts for one in the total.
pub proof fn insert_adds_one(m: Map<UsbId, u32>, id: UsbId)
    requires
        m.dom().finite(),
        count_of(m, id) < u32::MAX,
    ensures
        total_of(inserted(m, id)) == total_of(m) + 1,
{
    let n = inserted(m, id);
    total_splits(n, id);
    assert(n.remove(id) =~= m.remove(id));
    if m.dom().contains(id) {
        total_splits(m, id);
    } else {
        assert(m.remove(id) =~= m);
    }
}

/// Each device that goes takes one from the total.
pub proof fn remove_takes_one(m: Map<UsbId, u32>, id: UsbId)
    requires
        m.dom().finite(),
        m.dom().contains(id),
        m[id] >= 1,
    ensures
        total_of(removed(m, id)) + 1 == total_of(m),
{
    total_splits(m, id);
    if m[id] > 1 {
        total_splits(removed(m, id), id);
        assert(removed(m, id).remove(id) =~= m.remove(id));
    }
}

proof fn place_is_unique(counts: Seq<(UsbId, u32)>, i: int)
    requires
        proper(counts),
        0 <= i < counts.len(),
    ensures
        listed(counts, counts[i].0),
        place(counts, counts[i].0) == i,
        as_map(counts).dom().contains(counts[i].0),
        as_map(counts)[counts[i].0] == counts[i].1,
{
    assert(listed(counts, counts[i].0));
    let p = place(counts, counts[i].0);
    assert(counts[p].0 == counts[i].0);
}

/// A shorter list stands for a smaller map.
proof fn last_is_removed(counts: Seq<(UsbId, u32)>)
    requires
        proper(counts),
        counts.len() > 0,
    ensures
        proper(counts.drop_last()),
        as_map(counts.drop_last()) == as_map(counts).remove(counts.last().0),
{
    let c = counts.drop_last();
    let last = counts.last().0;
    assert forall|id: UsbId| as_map(c).dom().contains(id) == as_map(counts).remove(
        last,
    ).dom().contains(id) by {
        if listed(c, id) {
            let i = place(c, id);
            assert(counts[i].0 == id);
            assert(counts[i].0 != counts[counts.len() - 1].0);
        }
        if listed(counts, id) && id != last {
            let i = place(counts, id);
            assert(c[i].0 == id);
        }
    }
    assert forall|id: UsbId| as_map(c).dom().contains(id) implies as_map(c)[id] == as_map(
        counts,
    )[id] by {
        let i = place(c, id);
        place_is_unique(c, i);
        place_is_unique(counts, i);
    }
    assert(as_map(c) =~= as_map(counts).remove(last));
}

proof fn sizes_agree(counts: Seq<(UsbId, u32)>)
    requires
        proper(counts),
    ensures
        as_map(counts).dom().finite(),
        as_map(counts).dom().len() == counts.len(),
        total_of(as_map(counts)) == sum(counts),
    decreases counts.len(),
{
    if counts.len() == 0 {
        assert(as_map(counts).dom() =~= Set::empty());
    } else {
        last_is_removed(counts);
        sizes_agree(counts.drop_last());
        let m = as_map(counts);
        let last = counts.last();
        place_is_unique(counts, counts.len() - 1);
        assert(m.dom() =~= m.remove(last.0).dom().insert(last.0));
        total_splits(m, last.0);
    }
}

/// The sum of a list of counts.
spec fn sum(counts: Seq<(UsbId, u32)>) -> nat
    decreases counts.len(),
{
    if counts.len() == 0 {
        0
    } else {
        sum(counts.drop_last()) + counts.last().1 as nat
    }
}

proof fn sum_grows(counts: Seq<(UsbId, u32)>, i: int)
    requires
        0 <= i <= counts.len(),
    ensures
        sum(counts.take(i)) <= sum(counts),
    decreases counts.len() - i,
{
    if i < counts.len() {
        sum_grows(counts, i + 1);
        assert(counts.take(i + 1).drop_last() == counts.take(i));
    } else {
        assert(counts.take(i) == counts);
    }
}

impl View for DeviceTable {
    type V = Map<UsbId, u32>;

    closed spec fn view(&self) -> Map<UsbId, u32> {
        as_map(self.counts@)
    }
}

/// Where the list has this id.
fn position(counts: &Vec<(UsbId, u32)>, id: UsbId) -> (r: Option<usize>)
    ensures
        match r {
            Some(i) => i < counts@.len() && counts@[i as int].0 == id,
            None => !listed(counts@, id),
        },
{
    let mut i: usize = 0;
    while i < counts.len()
        invariant
            i <= counts@.len(),
            forall|k: int| 0 <= k < i ==> (#[trigger] counts@[k]).0 != id,
        decreases counts@.len() - i,
    {
        if counts[i].0 == id {
            return Some(i);
        }
        i += 1;
    }
    None
}

impl DeviceTable {
    #[verifier::type_invariant]
    spec fn inv(self) -> bool {
        proper(self.counts@)
    }

    /// An empty table.
    pub fn new() -> (r: Self)
        ensures
            r@ == Map::<UsbId, u32>::empty(),
    {
        let r = DeviceTable { counts: Vec::new() };
        assert(r@ =~= Map::<UsbId, u32>::empty());
        r
    }

    /// How many devices with this id are currently connected.
    pub fn count(&self, id: UsbId) -> (r: u32)
        ensures
            r == count_of(self@, id),
    {
        proof {
            use_type_invariant(self);
        }
        match position(&self.counts, id) {
            Some(i) => {
                proof {
                    place_is_unique(self.counts@, i as int);
                }
                self.counts[i].1
            },
            None => 0,
        }
    }

    /// Total number of connected devices across all ids.
    pub fn total(&self) -> (r: usize)
        requires
            total_of(self@) <= usize::MAX,
        ensures
            r == total_of(self@),
    {
        proof {
            use_type_invariant(self);
            sizes_agree(self.counts@);
        }
        let mut sum: usize = 0;
        let mut i: usize = 0;
        assert(self.counts@.take(0) == Seq::<(UsbId, u32)>::empty());
        while i < self.counts.len()
            invariant
                i <= self.counts@.len(),
                sum == self::sum(self.counts@.take(i as int)),
                self::sum(self.counts@) <= usize::MAX,
            decreases self.counts@.len() - i,
        {
            proof {
                sum_grows(self.counts@, i + 1);
                assert(self.counts@.take(i + 1).drop_last() == self.counts@.take(i as int));
            }
            sum += self.counts[i].1 as usize;
            i += 1;
        }
        assert(self.counts@.take(i as int) == self.counts@);
        sum
    }

    /// Number of distinct ids present.
    pub fn distinct(&self) -> (r: usize)
        ensures
            r == self@.dom().len(),
    {
        proof {
            use_type_invariant(self);
            sizes_agree(self.counts@);
        }
        self.counts.len()
    }

    /// Record one device with this id as connected. Returns the new count.
    pub fn insert(&mut self, id: UsbId) -> (r: u32)
        ensures
            final(self)@ == inserted(old(self)@, id),
            r == count_of(final(self)@, id),
    {
        proof {
            use_type_invariant(&*self);
        }
        let ghost before = self.counts@;
        let mut counts: Vec<(UsbId, u32)> = Vec::new();
        std::mem::swap(&mut counts, &mut self.counts);
        let found = position(&counts, id);
        let count: u32 = match found {
            Some(i) => {
                proof {
                    place_is_unique(before, i as int);
                }
                let c: u32 = counts[i].1.saturating_add(1);
                counts.set(i, (id, c));
                c
            },
            None => {
                counts.push((id, 1));
                1
            },
        };
        proof {
            assert(proper(counts@));
            updated_map(before, counts@, id, count, match found {
                Some(i) => i as int,
                None => before.len() as int,
            });
        }
        self.counts = counts;
        count
    }

    /// Record one device with this id as disconnected. Returns the new count.
    /// Removing an id that isn't tracked is a no-op and returns 0.
    pub fn remove(&mut self, id: UsbId) -> (r: u32)
        ensures
            final(self)@ == removed(old(self)@, id),
            r == count_of(final(self)@, id),
    {
        proof {
            use_type_invariant(&*self);
        }
        let ghost before = self.counts@;
        let mut counts: Vec<(UsbId, u32)> = Vec::new();
        std::mem::swap(&mut counts, &mut self.counts);
        let count: u32 = match position(&counts, id) {
            Some(i) => {
                proof {
                    place_is_unique(before, i as int);
                }
                if counts[i].1 > 1 {
                    let c: u32 = counts[i].1 - 1;
                    counts.set(i, (id, c));
                    proof {
                        updated_map(before, counts@, id, c, i as int);
                    }
                    c
                } else {
                    counts.remove(i);
                    proof {
                        taken_out(before, i as int);
                    }
                    0
                }
            },
            None => {
                assert(as_map(before).remove(id) =~= as_map(before));
                0
            },
        };
        self.counts = counts;
        count
    }

    /// The table after one insertion for each id.
    pub fn from_ids(ids: &[UsbId]) -> (r: Self)
        ensures
            r@ == all_inserted(ids@),
    {
        let mut table = DeviceTable::new();
        let mut i: usize = 0;
        assert(ids@.take(0) == Seq::<UsbId>::empty());
        while i < ids.len()
            invariant
                i <= ids@.len(),
                table@ == all_inserted(ids@.take(i as int)),
            decreases ids@.len() - i,
        {
            table.insert(ids[i]);
            i += 1;
            assert(ids@.take(i as int).drop_last() == ids@.take(i - 1));
        }
        assert(ids@.take(i as int) == ids@);
        table
    }
}

/// The counts after one insertion for each id.
pub open spec fn all_inserted(ids: Seq<UsbId>) -> Map<UsbId, u32>
    decreases ids.len(),
{
    if ids.len() == 0 {
        Map::empty()
    } else {
        inserted(all_inserted(ids.drop_last()), ids.last())
    }
}

/// A list that differs from another at one place stands for an updated map.
proof fn updated_map(
    before: Seq<(UsbId, u32)>,
    after: Seq<(UsbId, u32)>,
    id: UsbId,
    count: u32,
    at: int,
)
    requires
        proper(before),
        proper(after),
        0 <= at < after.len(),
        after[at] == (id, count),
        at < before.len() ==> before[at].0 == id && after.len() == before.len(),
        at == before.len() ==> after.len() == before.len() + 1 && !listed(before, id),
        at <= before.len(),
        forall|i: int| 0 <= i < before.len() && i != at ==> #[trigger] after[i] == before[i],
    ensures
        as_map(after) == as_map(before).insert(id, count),
{
    let a = as_map(after);
    let b = as_map(before).insert(id, count);
    assert forall|k: UsbId| a.dom().contains(k) == b.dom().contains(k) by {
        if listed(after, k) && k != id {
            let i = place(after, k);
            assert(before[i].0 == k);
        }
        if listed(before, k) && k != id {
            let i = place(before, k);
            assert(after[i].0 == k);
        }
        if k == id {
            assert(after[at].0 == k);
        }
    }
    assert forall|k: UsbId| a.dom().contains(k) implies a[k] == b[k] by {
        let i = place(after, k);
        place_is_unique(after, i);
        place_is_unique(after, at);
        if k != id {
            place_is_unique(before, i);
        }
    }
    assert(a =~= b);
}

/// A list without one of its entries stands for the map without that id.
proof fn taken_out(before: Seq<(UsbId, u32)>, at: int)
    requires
        proper(before),
        0 <= at < before.len(),
    ensures
        proper(before.remove(at)),
        as_map(before.remove(at)) == as_map(before).remove(before[at].0),
{
    let after = before.remove(at);
    let id = before[at].0;
    assert forall|i: int, j: int| 0 <= i < j < after.len() implies (#[trigger] after[i]).0 != (
    #[trigger] after[j]).0 by {
        let p = if i < at {
            i
        } else {
            i + 1
        };
        let q = if j < at {
            j
        } else {
            j + 1
        };
        assert(after[i] == before[p] && after[j] == before[q]);
    }
    assert forall|i: int| 0 <= i < after.len() implies (#[trigger] after[i]).1 >= 1 by {
        let p = if i < at {
            i
        } else {
            i + 1
        };
        assert(after[i] == before[p]);
    }
    let a = as_map(after);
    let b = as_map(before).remove(id);
    assert forall|k: UsbId| a.dom().contains(k) == b.dom().contains(k) by {
        if listed(after, k) {
            let i = place(after, k);
            let p = if i < at {
                i
            } else {
                i + 1
            };
            assert(after[i] == before[p]);
            assert(before[p].0 != before[at].0);
        }
        if listed(before, k) && k != id {
            let p = place(before, k);
            let i = if p < at {
                p
            } else {
                p - 1
            };
            assert(after[i] == before[p]);
        }
    }
    assert forall|k: UsbId| a.dom().contains(k) implies a[k] == b[k] by {
        let i = place(after, k);
        let p = if i < at {
            i
        } else {
            i + 1
        };
        assert(after[i] == before[p]);
        place_is_unique(after, i);
        place_is_unique(before, p);
    }
    assert(a =~= b);
}

/// Whether the counts of `a` are counts of `b` too.
fn is_within(a: &DeviceTable, b: &DeviceTable) -> (r: bool)
    ensures
        r == forall|id: UsbId| #[trigger]
            a@.dom().contains(id) ==> count_of(b@, id) == count_of(a@, id),
{
    proof {
        use_type_invariant(a);
    }
    let mut i: usize = 0;
    while i < a.counts.len()
        invariant
            i <= a.counts@.len(),
            proper(a.counts@),
            forall|k: int|
                0 <= k < i ==> count_of(b@, (#[trigger] a.counts@[k]).0) == a.counts@[k].1,
        decreases a.counts@.len() - i,
    {
        proof {
            place_is_unique(a.counts@, i as int);
        }
        if b.count(a.counts[i].0) != a.counts[i].1 {
            assert(a@.dom().contains(a.counts@[i as int].0));
            return false;
        }
        i += 1;
    }
    proof {
        assert forall|id: UsbId| #[trigger] a@.dom().contains(id) implies count_of(b@, id)
            == count_of(a@, id) by {
            let w = place(a.counts@, id);
            assert(a.counts@[w].0 == id);
        }
    }
    true
}

impl PartialEq for DeviceTable {
    fn eq(&self, other: &DeviceTable) -> (r: bool) {
        let r = is_within(self, other) && is_within(other, self);
        proof {
            every_listed_id_has_a_device(self);
            every_listed_id_has_a_device(other);
            if r {
                assert forall|id: UsbId| self@.dom().contains(id) == other@.dom().contains(id) by {
                    assert(self@.dom().contains(id) ==> self@[id] >= 1);
                    assert(other@.dom().contains(id) ==> other@[id] >= 1);
                }
                assert forall|id: UsbId| #[trigger] self@.dom().contains(id) implies self@[id]
                    == other@[id] by {
                    assert(count_of(other@, id) == count_of(self@, id));
                }
                assert(self@ =~= other@);
            }
        }
        r
    }
}

impl vstd::std_specs::cmp::PartialEqSpecImpl for DeviceTable {
    open spec fn obeys_eq_spec() -> bool {
        true
    }

    open spec fn eq_spec(&self, other: &DeviceTable) -> bool {
        self@ == other@
    }
}

impl Eq for DeviceTable {

}

impl Clone for DeviceTable {
    fn clone(&self) -> (r: Self)
        ensures
            r@ == self@,
    {
        proof {
            use_type_invariant(self);
        }
        let mut counts: Vec<(UsbId, u32)> = Vec::new();
        let mut i: usize = 0;
        while i < self.counts.len()
            invariant
                i <= self.counts@.len(),
                counts@ == self.counts@.take(i as int),
            decreases self.counts@.len() - i,
        {
            counts.push(self.counts[i]);
            i += 1;
            assert(self.counts@.take(i as int) == self.counts@.take(i - 1).push(
                self.counts@[i - 1],
            ));
        }
        assert(counts@ =~= self.counts@);
        DeviceTable { counts }
    }
}

impl Default for DeviceTable {
    fn default() -> (r: Self)
        ensures
            r@ == Map::<UsbId, u32>::empty(),
    {
        DeviceTable::new()
    }
}

} // verus!
