//! Normalized sensor input.
//!
//! A [`SensorEvent`] is what the policy engine sees. Where it came from is
//! invisible past this point.

use crate::text;
use vstd::arithmetic::div_mod::lemma_fundamental_div_mod_converse;
use vstd::prelude::*;

verus! {

/// Where a [`SensorEvent`] originated.
#[derive(Debug, Clone, Copy, PartialEq, Eq, Hash, Structural)]
pub enum SensorSource {
    /// USB device add/remove, via the kernel netlink uevent socket.
    Usb,
}

impl SensorSource {
    /// The name that logs and clients show.
    pub open spec fn word(self) -> Seq<char> {
        "usb"@
    }

    /// The name that logs and clients show.
    pub fn as_str(&self) -> (r: &'static str)
        ensures
            r@ == self.word(),
    {
        "usb"
    }
}

/// The kind of change a sensor observed.
#[derive(Debug, Clone, Copy, PartialEq, Eq, Hash, Structural)]
pub enum EventKind {
    /// A device appeared.
    Added,
    /// A device went away.
    Removed,
}

/// A USB vendor/product pair.
///
/// Rendered as `vvvv:pppp` in lowercase hex (e.g. `1050:0407`). Parsing is
/// strict: exactly four hex digits on each side of a single colon.
#[derive(Debug, Clone, Copy, PartialEq, Eq, PartialOrd, Ord, Hash, Structural)]
pub struct UsbId {
    pub vendor: u16,
    pub product: u16,
}

/// The value of a hex digit of either case.
pub open spec fn hex_value(c: char) -> Option<nat> {
    if '0' <= c <= '9' {
        Some((c as nat - 48) as nat)
    } else if 'a' <= c <= 'f' {
        Some((c as nat - 87) as nat)
    } else if 'A' <= c <= 'F' {
        Some((c as nat - 55) as nat)
    } else {
        None
    }
}

/// The number that four hex digits write.
pub open spec fn hex4_value(s: Seq<char>) -> Option<u16> {
    if s.len() == 4 {
        match (hex_value(s[0]), hex_value(s[1]), hex_value(s[2]), hex_value(s[3])) {
            (Some(a), Some(b), Some(c), Some(d)) => Some(
                (4096 * a + 256 * b + 16 * c + d) as u16,
            ),
            _ => None,
        }
    } else {
        None
    }
}

/// The id that a string writes: four hex digits, a colon, four hex digits.
pub open spec fn usb_id_of(s: Seq<char>) -> Option<UsbId> {
    if s.len() == 9 && s[4] == ':' {
        match (hex4_value(s.take(4)), hex4_value(s.skip(5))) {
            (Some(vendor), Some(product)) => Some(UsbId { vendor, product }),
            _ => None,
        }
    } else {
        None
    }
}

/// The value of a hex digit of either case.
pub fn hex_digit(c: char) -> (r: Option<u8>)
    ensures
        match hex_value(c) {
            Some(v) => r matches Some(d) && d == v && d < 16,
            None => r is None,
        },
{
    let n: u32 = c as u32;
    if 48 <= n && n <= 57 {
        Some((n - 48) as u8)
    } else if 97 <= n && n <= 102 {
        Some((n - 87) as u8)
    } else if 65 <= n && n <= 70 {
        Some((n - 55) as u8)
    } else {
        None
    }
}

/// The number that the four characters from `at` on write in hex.
fn hex4_at(s: &Vec<char>, at: usize) -> (r: Option<u16>)
    requires
        at + 4 <= s@.len() <= usize::MAX,
    ensures
        r == hex4_value(s@.subrange(at as int, at + 4)),
{
    match (hex_digit(s[at]), hex_digit(s[at + 1]), hex_digit(s[at + 2]), hex_digit(s[at + 3])) {
        (Some(a), Some(b), Some(c), Some(d)) => Some(
            4096 * (a as u16) + 256 * (b as u16) + 16 * (c as u16) + d as u16,
        ),
        _ => None,
    }
}

impl UsbId {
    /// Construct from raw vendor/product numbers.
    pub fn new(vendor: u16, product: u16) -> (r: Self)
        ensures
            r == (UsbId { vendor, product }),
    {
        UsbId { vendor, product }
    }

    /// `vvvv:pppp`.
    pub open spec fn text(self) -> Seq<char> {
        text::hex4(self.vendor).push(':') + text::hex4(self.product)
    }

    /// `vvvv:pppp`.
    pub fn to_text(&self) -> (r: String)
        ensures
            r@ == self.text(),
    {
        let mut s = text::hex4_text(self.vendor);
        s.push(':');
        s.append(text::hex4_text(self.product).as_str());
        s
    }

    /// Reads `vvvv:pppp`, hex digits of either case.
    pub fn parse(s: &str) -> (r: Result<UsbId, UsbIdParseError>)
        ensures
            match usb_id_of(s@) {
                Some(id) => r == Ok::<UsbId, UsbIdParseError>(id),
                None => r matches Err(e) && e.input@ == s@,
            },
    {
        let chars = text::chars_of(s);
        if chars.len() == 9 && chars[4] == ':' {
            assert(chars@.subrange(0, 4) == chars@.take(4));
            assert(chars@.subrange(5, 9) == chars@.skip(5));
            match (hex4_at(&chars, 0), hex4_at(&chars, 5)) {
                (Some(vendor), Some(product)) => Ok(UsbId { vendor, product }),
                _ => Err(UsbIdParseError { input: s.to_owned() }),
            }
        } else {
            Err(UsbIdParseError { input: s.to_owned() })
        }
    }
}

impl std::str::FromStr for UsbId {
    type Err = UsbIdParseError;

    fn from_str(s: &str) -> (r: Result<UsbId, UsbIdParseError>)
        ensures
            match usb_id_of(s@) {
                Some(id) => r == Ok::<UsbId, UsbIdParseError>(id),
                None => r matches Err(e) && e.input@ == s@,
            },
    {
        UsbId::parse(s)
    }
}

/// What is written is read back: every id survives rendering and parsing.
pub proof fn usb_id_round_trip(id: UsbId)
    ensures
        usb_id_of(id.text()) == Some(id),
{
    let s = id.text();
    assert(s.len() == 9 && s[4] == ':');
    assert(s.take(4) == text::hex4(id.vendor));
    assert(s.skip(5) == text::hex4(id.product));
    hex4_round_trip(id.vendor);
    hex4_round_trip(id.product);
}

proof fn hex_digit_round_trip(d: nat)
    requires
        d < 16,
    ensures
        hex_value(text::digit(d)) == Some(d),
{
}

proof fn hex4_round_trip(n: u16)
    ensures
        hex4_value(text::hex4(n)) == Some(n),
{
    hex_digit_round_trip((n / 4096) as nat);
    hex_digit_round_trip((n / 256 % 16) as nat);
    hex_digit_round_trip((n / 16 % 16) as nat);
    hex_digit_round_trip((n % 16) as nat);
    let a = n / 4096;
    let b = n / 256 % 16;
    let c = n / 16 % 16;
    let d = n % 16;
    assert(4096 * a + 256 * b + 16 * c + d == n) by {
        assert(n / 16 == 16 * (n / 256) + c);
        assert(n / 256 == 16 * a + b);
    }
}

/// A hex digit is written in lower case, whatever case it was read in.
proof fn hex_digit_is_lowered(c: char)
    ensures
        hex_value(c) matches Some(d) ==> d < 16 && text::digit(d) == text::lower(c),
{
}

/// The hex digits of a number are the ones it was put together from.
proof fn hex_digits_come_apart(a: nat, b: nat, c: nat, d: nat, n: u16)
    requires
        a < 16,
        b < 16,
        c < 16,
        d < 16,
        n == 4096 * a + 256 * b + 16 * c + d,
    ensures
        n / 4096 == a,
        n / 256 % 16 == b,
        n / 16 % 16 == c,
        n % 16 == d,
{
    let (a, b, c, d, n) = (a as int, b as int, c as int, d as int, n as int);
    lemma_fundamental_div_mod_converse(n, 4096, a, 256 * b + 16 * c + d);
    lemma_fundamental_div_mod_converse(n, 256, 16 * a + b, 16 * c + d);
    lemma_fundamental_div_mod_converse(16 * a + b, 16, a, b);
    lemma_fundamental_div_mod_converse(n, 16, 256 * a + 16 * b + c, d);
    lemma_fundamental_div_mod_converse(256 * a + 16 * b + c, 16, 16 * a + b, c);
}

proof fn hex4_is_lowered(s: Seq<char>)
    ensures
        hex4_value(s) matches Some(n) ==> text::hex4(n) == s.map_values(|c: char| text::lower(c)),
{
    if let Some(n) = hex4_value(s) {
        hex_digit_is_lowered(s[0]);
        hex_digit_is_lowered(s[1]);
        hex_digit_is_lowered(s[2]);
        hex_digit_is_lowered(s[3]);
        hex_digits_come_apart(
            hex_value(s[0])->0,
            hex_value(s[1])->0,
            hex_value(s[2])->0,
            hex_value(s[3])->0,
            n,
        );
        assert(text::hex4(n) =~= s.map_values(|c: char| text::lower(c)));
    }
}

/// An id that is read is written as it was read, in lower case.
pub proof fn a_read_id_is_written_in_lower_case(s: Seq<char>)
    ensures
        usb_id_of(s) matches Some(id) ==> id.text() == s.map_values(|c: char| text::lower(c)),
{
    if let Some(id) = usb_id_of(s) {
        hex4_is_lowered(s.take(4));
        hex4_is_lowered(s.skip(5));
        assert(id.text() =~= s.map_values(|c: char| text::lower(c)));
    }
}

/// Two ids that render alike are the same id.
pub proof fn usb_id_text_is_injective(a: UsbId, b: UsbId)
    requires
        a.text() == b.text(),
    ensures
        a == b,
{
    usb_id_round_trip(a);
    usb_id_round_trip(b);
}

/// Returned when a string is not a well-formed `vvvv:pppp` USB id.
#[derive(Debug, Clone, PartialEq, Eq)]
pub struct UsbIdParseError {
    pub input: String,
}

impl UsbIdParseError {
    /// The message that names the rejected input.
    pub fn to_text(&self) -> (r: String)
        ensures
            r@ == "invalid USB id "@ + text::debug_text(self.input@)
                + ": expected four hex digits, a colon, four hex digits (e.g. 1050:0407)"@,
    {
        "invalid USB id ".to_owned().concat(text::quoted(self.input.as_str()).as_str()).concat(
            ": expected four hex digits, a colon, four hex digits (e.g. 1050:0407)",
        )
    }
}

/// Best-effort identity for a device a sensor saw.
///
/// Every field is optional because an unusual device may not carry all of them.
#[derive(Debug, Clone, PartialEq, Eq)]
pub struct DeviceIdentity {
    /// Vendor/product id, when the sensor could read one.
    pub usb_id: Option<UsbId>,
    /// Device serial string, when present.
    pub serial: Option<String>,
    /// Human-readable product/manufacturer string, when present.
    pub label: Option<String>,
}

/// What a [`DeviceIdentity`] holds.
pub struct DeviceIdentityView {
    pub usb_id: Option<UsbId>,
    pub serial: Option<Seq<char>>,
    pub label: Option<Seq<char>>,
}

impl View for DeviceIdentity {
    type V = DeviceIdentityView;

    open spec fn view(&self) -> DeviceIdentityView {
        DeviceIdentityView {
            usb_id: self.usb_id,
            serial: text::opt_view(self.serial),
            label: text::opt_view(self.label),
        }
    }
}

impl Default for DeviceIdentity {
    fn default() -> (r: Self)
        ensures
            r@ == (DeviceIdentityView { usb_id: None, serial: None, label: None }),
    {
        DeviceIdentity { usb_id: None, serial: None, label: None }
    }
}

/// The key/value payload of an event: one value for each key. Two are equal when they hold the
/// same fields, whatever the order they came in.
#[derive(Debug)]
pub struct RawFields {
    entries: Vec<(String, String)>,
}

impl RawFields {
    /// No key occurs twice.
    #[verifier::type_invariant]
    spec fn keys_are_distinct(self) -> bool {
        forall|i: int, j: int|
            0 <= i < j < self.entries@.len() ==> (#[trigger] self.entries@[i]).0@ != (
            #[trigger] self.entries@[j]).0@
    }

    spec fn has(self, key: Seq<char>) -> bool {
        exists|i: int| 0 <= i < self.entries@.len() && (#[trigger] self.entries@[i]).0@ == key
    }

    spec fn place(self, key: Seq<char>) -> int {
        choose|i: int| 0 <= i < self.entries@.len() && (#[trigger] self.entries@[i]).0@ == key
    }
}

impl View for RawFields {
    type V = Map<Seq<char>, Seq<char>>;

    closed spec fn view(&self) -> Map<Seq<char>, Seq<char>> {
        Map::new(|key: Seq<char>| self.has(key), |key: Seq<char>| self.entries@[self.place(key)].1@)
    }
}

impl RawFields {
    /// No fields.
    pub fn new() -> (r: Self)
        ensures
            r@ == Map::<Seq<char>, Seq<char>>::empty(),
    {
        let r = RawFields { entries: Vec::new() };
        assert(r@ =~= Map::<Seq<char>, Seq<char>>::empty());
        r
    }

    /// Where `key` stands, if it is there.
    fn find(&self, key: &str) -> (r: Option<usize>)
        ensures
            r matches Some(i) ==> i < self.entries@.len() && self.entries@[i as int].0@ == key@,
            r is None ==> !self.has(key@),
    {
        position_of(&self.entries, key)
    }

    /// The value stored for `key`.
    pub fn get(&self, key: &str) -> (r: Option<&String>)
        ensures
            match r {
                Some(v) => self@.dom().contains(key@) && v@ == self@[key@],
                None => !self@.dom().contains(key@),
            },
    {
        proof {
            use_type_invariant(self);
        }
        match self.find(key) {
            Some(i) => {
                proof {
                    let j = self.place(key@);
                    assert(self.entries@[i as int].0@ == self.entries@[j].0@);
                }
                Some(&self.entries[i].1)
            },
            None => None,
        }
    }

    /// Whether `key` has a value.
    pub fn contains_key(&self, key: &str) -> (r: bool)
        ensures
            r == self@.dom().contains(key@),
    {
        self.get(key).is_some()
    }

    /// Stores `value` for `key`, in place of an earlier value.
    pub fn insert(&mut self, key: String, value: String)
        ensures
            final(self)@ == old(self)@.insert(key@, value@),
    {
        proof {
            use_type_invariant(&*self);
        }
        let ghost before = *self;
        let mut entries: Vec<(String, String)> = Vec::new();
        std::mem::swap(&mut entries, &mut self.entries);
        let found = position_of(&entries, key.as_str());
        match found {
            Some(i) => {
                entries.set(i, (key, value));
            },
            None => {
                entries.push((key, value));
            },
        }
        proof {
            assert forall|a: int, b: int| 0 <= a < b < entries@.len() implies (
            #[trigger] entries@[a]).0@ != (#[trigger] entries@[b]).0@ by {}
        }
        self.entries = entries;
        let ghost after = *self;
        proof {
            assert forall|k: Seq<char>| after.has(k) == (before.has(k) || k == key@) by {
                if before.has(k) {
                    let w = before.place(k);
                    assert(after.entries@[w].0@ == k);
                }
                if k == key@ {
                    match found {
                        Some(i) => assert(after.entries@[i as int].0@ == k),
                        None => assert(after.entries@[before.entries@.len() as int].0@ == k),
                    }
                }
                if after.has(k) && k != key@ {
                    let w = after.place(k);
                    assert(before.entries@[w].0@ == k);
                }
            }
            assert forall|k: Seq<char>| after.has(k) implies after@[k] == before@.insert(
                key@,
                value@,
            )[k] by {
                let w = after.place(k);
                if k == key@ {
                    match found {
                        Some(i) => assert(after.entries@[i as int].0@ == after.entries@[w].0@),
                        None => assert(after.entries@[before.entries@.len() as int].0@
                            == after.entries@[w].0@),
                    }
                } else {
                    let v = before.place(k);
                    assert(before.has(k));
                    assert(after.entries@[v].0@ == after.entries@[w].0@);
                }
            }
            assert forall|k: Seq<char>| after@.dom().contains(k) == before@.insert(
                key@,
                value@,
            ).dom().contains(k) by {
                assert(after.has(k) == (before.has(k) || k == key@));
            }
            assert(after@.dom() =~= before@.insert(key@, value@).dom());
            assert(after@ =~= before@.insert(key@, value@));
        }
    }
}

impl RawFields {
    /// Whether every field is among another's, with the same value.
    fn is_within(&self, other: &RawFields) -> (r: bool)
        ensures
            r == (forall|key: Seq<char>| #[trigger] self@.dom().contains(key) ==> other@.dom().contains(
                key,
            ) && other@[key] == self@[key]),
    {
        proof {
            use_type_invariant(self);
        }
        let mut i: usize = 0;
        while i < self.entries.len()
            invariant
                i <= self.entries@.len(),
                self.keys_are_distinct(),
                forall|k: int|
                    0 <= k < i ==> other@.dom().contains((#[trigger] self.entries@[k]).0@)
                        && other@[self.entries@[k].0@] == self.entries@[k].1@,
            decreases self.entries@.len() - i,
        {
            let ghost key = self.entries@[i as int].0@;
            proof {
                assert(self.has(key));
                let w = self.place(key);
                assert(self.entries@[w].0@ == self.entries@[i as int].0@);
                assert(self@.dom().contains(key) && self@[key] == self.entries@[i as int].1@);
            }
            match other.get(self.entries[i].0.as_str()) {
                Some(v) => {
                    if !text::same_text(v.as_str(), self.entries[i].1.as_str()) {
                        return false;
                    }
                },
                None => {
                    return false;
                },
            }
            i += 1;
        }
        proof {
            assert forall|key: Seq<char>| #[trigger] self@.dom().contains(
                key,
            ) implies other@.dom().contains(key) && other@[key] == self@[key] by {
                let w = self.place(key);
                assert(self.entries@[w].0@ == key);
            }
        }
        true
    }
}

impl PartialEq for RawFields {
    fn eq(&self, other: &RawFields) -> (r: bool) {
        let r = self.is_within(other) && other.is_within(self);
        proof {
            if r {
                assert(self@.dom() =~= other@.dom());
                assert(self@ =~= other@);
            }
        }
        r
    }
}

impl vstd::std_specs::cmp::PartialEqSpecImpl for RawFields {
    open spec fn obeys_eq_spec() -> bool {
        true
    }

    open spec fn eq_spec(&self, other: &RawFields) -> bool {
        self@ == other@
    }
}

impl Eq for RawFields {

}

/// Where `key` stands in `entries`, if it is there.
fn position_of(entries: &Vec<(String, String)>, key: &str) -> (r: Option<usize>)
    ensures
        r matches Some(i) ==> i < entries@.len() && entries@[i as int].0@ == key@,
        r is None ==> forall|k: int|
            0 <= k < entries@.len() ==> (#[trigger] entries@[k]).0@ != key@,
{
    let mut i: usize = 0;
    while i < entries.len()
        invariant
            i <= entries@.len(),
            forall|k: int| 0 <= k < i ==> (#[trigger] entries@[k]).0@ != key@,
        decreases entries@.len() - i,
    {
        if text::same_text(entries[i].0.as_str(), key) {
            return Some(i);
        }
        i += 1;
    }
    None
}

/// One normalized event from a sensor.
#[derive(Debug, PartialEq, Eq)]
pub struct SensorEvent {
    pub source: SensorSource,
    pub kind: EventKind,
    pub identity: DeviceIdentity,
    /// The raw key/value payload the sensor parsed (uevent lines, for USB).
    /// Kept for logging and debugging; the policy engine ignores it.
    pub raw: RawFields,
}

/// What a [`SensorEvent`] holds.
pub struct SensorEventView {
    pub source: SensorSource,
    pub kind: EventKind,
    pub identity: DeviceIdentityView,
    pub raw: Map<Seq<char>, Seq<char>>,
}

impl View for SensorEvent {
    type V = SensorEventView;

    open spec fn view(&self) -> SensorEventView {
        SensorEventView {
            source: self.source,
            kind: self.kind,
            identity: self.identity@,
            raw: self.raw@,
        }
    }
}

/// Hex digits are read by their place among the usual ones, in either case, and nothing else is
/// one.
pub proof fn hex_digits_are_the_usual_ones(c: char)
    ensures
        hex_value(c) matches Some(d) ==> d < 16 && ("0123456789abcdef"@[d as int] == c
            || "0123456789ABCDEF"@[d as int] == c),
        hex_value(c) is None ==> !"0123456789abcdef"@.contains(c)
            && !"0123456789ABCDEF"@.contains(c),
{
    reveal_strlit("0123456789abcdef");
    reveal_strlit("0123456789ABCDEF");
}

/// An id is written vendor first, then a colon, then the product, each as the number that its
/// four hex digits make.
pub proof fn an_id_is_written_vendor_first(id: UsbId)
    ensures
        id.text().len() == 9,
        text::value_in(16, id.text().take(4)) == id.vendor,
        id.text()[4] == ':',
        text::value_in(16, id.text().skip(5)) == id.product,
{
    text::four_digits_are_their_number(id.vendor);
    text::four_digits_are_their_number(id.product);
    assert(id.text().take(4) =~= text::hex4(id.vendor));
    assert(id.text().skip(5) =~= text::hex4(id.product));
}

/// What is said of an event is said of what was seen: its kind, the device's id and serial, and the
/// fields as they came.
pub proof fn an_event_is_taken_for_what_it_is(e: &SensorEvent)
    ensures
        e@.kind == e.kind,
        e@.identity.usb_id == e.identity.usb_id,
        e@.identity.serial == text::opt_view(e.identity.serial),
        e@.identity.label == text::opt_view(e.identity.label),
        e@.raw == e.raw@,
{
}

} // verus!
