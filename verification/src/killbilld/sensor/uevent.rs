//! The pure uevent parser: raw kernel netlink bytes to [`SensorEvent`].
//!
//! A message on the kernel's uevent group is a NUL-separated list: a leading
//! `ACTION@DEVPATH` summary line, then `KEY=VALUE` pairs. `PRODUCT` for a
//! `usb_device` is `vendor/product/bcd` in hex with no leading zeros.
//!
//! * `Ok(Some(event))`: a USB device was added or removed. If its id could not
//!   be read, `identity.usb_id` is `None`; it is never dropped.
//! * `Ok(None)`: a well-formed uevent that is not a USB device add/remove.
//! * `Err(_)`: the bytes could not be understood as a uevent at all.
//!
//! `identity.serial` is sanitized here; `raw` keeps every pair verbatim.

use crate::proto::protocol;
use crate::proto::sensor_event;
use crate::proto::sensor_event::{
    DeviceIdentity, DeviceIdentityView, EventKind, RawFields, SensorEvent, SensorEventView,
    SensorSource, UsbId,
};
use crate::text;
use vstd::prelude::*;

verus! {

/// `std::str::Utf8Error`, why bytes are not UTF-8.
#[verifier::external_type_specification]
#[verifier::external_body]
pub struct ExUtf8Error(std::str::Utf8Error);

/// `std::str::from_utf8` accepts exactly the valid UTF-8 byte strings and gives the
/// characters that they encode.
pub assume_specification<'a>[ std::str::from_utf8 ](v: &'a [u8]) -> (r: Result<
    &'a str,
    std::str::Utf8Error,
>)
    ensures
        match r {
            Ok(s) => vstd::utf8::valid_utf8(v@) && s@ == vstd::utf8::decode_utf8(v@),
            Err(_) => !vstd::utf8::valid_utf8(v@),
        },
;

/// The bytes handed to [`parse_uevent`] were not a uevent we could parse.
#[derive(Debug, Clone, PartialEq, Eq)]
pub enum UeventParseError {
    /// A zero-length datagram.
    Empty,
    /// A `libudev`-framed message: something is wrong with the socket setup.
    LibudevFraming,
    /// A byte payload that is not valid UTF-8.
    NotUtf8,
    /// A segment that is not `KEY=VALUE` (and is not the leading summary line).
    MalformedSegment { segment: String },
    /// No `ACTION=` among the pairs.
    MissingAction,
}

/// What a [`UeventParseError`] holds.
pub enum UeventParseErrorView {
    Empty,
    LibudevFraming,
    NotUtf8,
    MalformedSegment { segment: Seq<char> },
    MissingAction,
}

impl View for UeventParseError {
    type V = UeventParseErrorView;

    open spec fn view(&self) -> UeventParseErrorView {
        match self {
            UeventParseError::Empty => UeventParseErrorView::Empty,
            UeventParseError::LibudevFraming => UeventParseErrorView::LibudevFraming,
            UeventParseError::NotUtf8 => UeventParseErrorView::NotUtf8,
            UeventParseError::MalformedSegment { segment } => {
                UeventParseErrorView::MalformedSegment { segment: segment@ }
            },
            UeventParseError::MissingAction => UeventParseErrorView::MissingAction,
        }
    }
}

impl UeventParseErrorView {
    /// The message for the log.
    pub open spec fn text(self) -> Seq<char> {
        match self {
            UeventParseErrorView::Empty => "empty uevent payload"@,
            UeventParseErrorView::LibudevFraming => {
                "received a libudev-framed message on the kernel uevent group"@
            },
            UeventParseErrorView::NotUtf8 => "uevent payload is not valid UTF-8"@,
            UeventParseErrorView::MalformedSegment { segment } => "uevent segment "@
                + text::debug_text(segment) + " is not KEY=VALUE"@,
            UeventParseErrorView::MissingAction => "uevent has no ACTION"@,
        }
    }
}

impl UeventParseError {
    /// The message for the log.
    pub fn to_text(&self) -> (r: String)
        ensures
            r@ == self@.text(),
    {
        match self {
            UeventParseError::Empty => "empty uevent payload".to_owned(),
            UeventParseError::LibudevFraming => {
                "received a libudev-framed message on the kernel uevent group".to_owned()
            },
            UeventParseError::NotUtf8 => "uevent payload is not valid UTF-8".to_owned(),
            UeventParseError::MalformedSegment { segment } => "uevent segment ".to_owned().concat(
                text::quoted(segment.as_str()).as_str(),
            ).concat(" is not KEY=VALUE"),
            UeventParseError::MissingAction => "uevent has no ACTION".to_owned(),
        }
    }
}

/// The number that hex digits of either case write.
pub open spec fn hex_number(s: Seq<char>) -> Option<nat>
    decreases s.len(),
{
    if s.len() == 0 {
        Some(0)
    } else {
        match (hex_number(s.drop_last()), sensor_event::hex_value(s.last())) {
            (Some(n), Some(d)) => Some(16 * n + d),
            _ => None,
        }
    }
}

/// The number that `s` writes in hex, if it is at most `max`: an optional plus sign, then
/// one digit or more, leading zeros allowed.
pub open spec fn hex_up_to(s: Seq<char>, max: nat) -> Option<nat> {
    let digits = if s.len() > 0 && s[0] == '+' {
        s.skip(1)
    } else {
        s
    };
    match hex_number(digits) {
        Some(n) => if digits.len() > 0 && n <= max {
            Some(n)
        } else {
            None
        },
        None => None,
    }
}

proof fn hex_number_grows(s: Seq<char>, i: int)
    requires
        0 <= i <= s.len(),
    ensures
        hex_number(s.take(i)) is None ==> hex_number(s) is None,
        hex_number(s.take(i)) is Some && hex_number(s) is Some ==> hex_number(s.take(i))->0
            <= hex_number(s)->0,
    decreases s.len() - i,
{
    if i == s.len() {
        assert(s.take(i) == s);
    } else {
        hex_number_grows(s, i + 1);
        assert(s.take(i + 1).drop_last() == s.take(i));
    }
}

/// The number that `s` writes in hex, if it is at most `max`.
pub fn parse_hex(s: &Vec<char>, max: u64) -> (r: Option<u64>)
    ensures
        match hex_up_to(s@, max as nat) {
            Some(n) => r matches Some(v) && v == n,
            None => r is None,
        },
{
    let start: usize = if s.len() > 0 && s[0] == '+' {
        1
    } else {
        0
    };
    let ghost digits = s@.skip(start as int);
    assert(start == 0 ==> digits == s@);
    if start == s.len() {
        return None;
    }
    let mut value: u64 = 0;
    let mut i: usize = start;
    while i < s.len()
        invariant
            start <= i <= s@.len(),
            start < s@.len(),
            digits == s@.skip(start as int),
            digits == (if s@.len() > 0 && s@[0] == '+' {
                s@.skip(1)
            } else {
                s@
            }),
            value <= max,
            hex_number(digits.take(i - start)) == Some(value as nat),
        decreases s@.len() - i,
    {
        let ghost k = i - start;
        proof {
            hex_number_grows(digits, k + 1);
            assert(digits.take(k + 1).drop_last() == digits.take(k));
            assert(digits.take(k + 1).last() == s@[i as int]);
        }
        match sensor_event::hex_digit(s[i]) {
            Some(d) => {
                let next: u128 = 16 * (value as u128) + d as u128;
                if next > max as u128 {
                    return None;
                }
                value = next as u64;
            },
            None => {
                return None;
            },
        }
        i += 1;
    }
    assert(digits.take(i - start) == digits);
    Some(value)
}

/// The id in a `PRODUCT` value, `vendor/product/bcdDevice`: its first two parts in hex.
pub open spec fn product_id(s: Seq<char>) -> Option<UsbId> {
    let parts = text::split(s, '/');
    if parts.len() < 2 {
        None
    } else {
        match (hex_up_to(parts[0], u16::MAX as nat), hex_up_to(parts[1], u16::MAX as nat)) {
            (Some(vendor), Some(product)) => Some(
                UsbId { vendor: vendor as u16, product: product as u16 },
            ),
            _ => None,
        }
    }
}

/// The id in a `PRODUCT` value. Returns `None` for anything that is not two
/// parseable hex `u16`s: an unidentified device, not an error.
pub fn parse_product(product: &str) -> (r: Option<UsbId>)
    ensures
        r == product_id(product@),
{
    let parts = text::split_chars(&text::chars_of(product), '/');
    assert(text::views(parts@).len() == parts@.len());
    if parts.len() < 2 {
        return None;
    }
    assert(text::views(parts@)[0] == parts@[0]@ && text::views(parts@)[1] == parts@[1]@);
    match (parse_hex(&parts[0], 65535), parse_hex(&parts[1], 65535)) {
        (Some(vendor), Some(product)) => Some(UsbId::new(vendor as u16, product as u16)),
        _ => None,
    }
}

/// The parts of a message between its NUL characters, empty ones left out.
pub open spec fn segments(s: Seq<char>) -> Seq<Seq<char>> {
    text::split(s, '\0').filter(|p: Seq<char>| p.len() > 0)
}

/// Whether a segment is an `ACTION@DEVPATH` summary line.
pub open spec fn is_summary(s: Seq<char>) -> bool {
    s.contains('@') && !s.contains('=')
}

/// The pairs that the first `n` segments give, or the first of them that is no pair. A later
/// value for a key takes the place of an earlier one; a leading summary line is skipped.
pub open spec fn fields(segs: Seq<Seq<char>>, n: nat) -> Result<
    Map<Seq<char>, Seq<char>>,
    Seq<char>,
>
    decreases n,
{
    if n == 0 {
        Ok(Map::empty())
    } else {
        let last = segs[n - 1];
        match fields(segs, (n - 1) as nat) {
            Err(e) => Err(e),
            Ok(m) => if n == 1 && is_summary(last) {
                Ok(m)
            } else {
                match text::find(last, '=') {
                    Some(i) => Ok(m.insert(last.take(i), last.skip(i + 1))),
                    None => Err(last),
                }
            },
        }
    }
}

/// Whether `key` has exactly this value.
pub open spec fn field_is(m: Map<Seq<char>, Seq<char>>, key: Seq<char>, value: Seq<char>) -> bool {
    m.dom().contains(key) && m[key] == value
}

/// The event that the pairs of a uevent describe, if it is a USB device add or remove.
pub open spec fn device_event(m: Map<Seq<char>, Seq<char>>) -> Option<SensorEventView> {
    let added = field_is(m, "ACTION"@, "add"@);
    let removed = field_is(m, "ACTION"@, "remove"@);
    if (added || removed) && field_is(m, "SUBSYSTEM"@, "usb"@) && field_is(
        m,
        "DEVTYPE"@,
        "usb_device"@,
    ) {
        Some(
            SensorEventView {
                source: SensorSource::Usb,
                kind: if added {
                    EventKind::Added
                } else {
                    EventKind::Removed
                },
                identity: DeviceIdentityView {
                    usb_id: if m.dom().contains("PRODUCT"@) {
                        product_id(m["PRODUCT"@])
                    } else {
                        None
                    },
                    serial: if m.dom().contains("SERIAL"@) {
                        Some(protocol::sanitized(m["SERIAL"@]))
                    } else {
                        None
                    },
                    label: None,
                },
                raw: m,
            },
        )
    } else {
        None
    }
}

/// What a datagram says.
pub open spec fn uevent(bytes: Seq<u8>) -> Result<Option<SensorEventView>, UeventParseErrorView> {
    if bytes.len() == 0 {
        Err(UeventParseErrorView::Empty)
    } else if libudev_magic().is_prefix_of(bytes) {
        Err(UeventParseErrorView::LibudevFraming)
    } else if !vstd::utf8::valid_utf8(bytes) {
        Err(UeventParseErrorView::NotUtf8)
    } else {
        let segs = segments(vstd::utf8::decode_utf8(bytes));
        match fields(segs, segs.len()) {
            Err(segment) => Err(UeventParseErrorView::MalformedSegment { segment }),
            Ok(m) => if !m.dom().contains("ACTION"@) {
                Err(UeventParseErrorView::MissingAction)
            } else {
                Ok(device_event(m))
            },
        }
    }
}

/// `libudev` in ASCII, which opens the messages of udev's own re-broadcast.
pub open spec fn libudev_magic() -> Seq<u8> {
    seq![108u8, 105, 98, 117, 100, 101, 118]
}

/// Whether the bytes open with `libudev`.
fn is_libudev(bytes: &[u8]) -> (r: bool)
    ensures
        r == libudev_magic().is_prefix_of(bytes@),
{
    bytes.len() >= 7 && bytes[0] == 108 && bytes[1] == 105 && bytes[2] == 98 && bytes[3] == 117
        && bytes[4] == 100 && bytes[5] == 101 && bytes[6] == 118
}

/// The parts of a message between its NUL characters, empty ones left out.
fn split_segments(s: &Vec<char>) -> (r: Vec<Vec<char>>)
    ensures
        text::views(r@) == segments(s@),
{
    let parts = text::split_chars(s, '\0');
    let mut r: Vec<Vec<char>> = Vec::new();
    let mut i: usize = 0;
    let ghost all = text::views(parts@);
    let ghost keep = |p: Seq<char>| p.len() > 0;
    assert(all.take(0).filter(keep) == Seq::<Seq<char>>::empty()) by {
        reveal(Seq::filter);
    }
    while i < parts.len()
        invariant
            i <= parts@.len(),
            all == text::views(parts@),
            keep == (|p: Seq<char>| p.len() > 0),
            text::views(r@) == all.take(i as int).filter(keep),
        decreases parts@.len() - i,
    {
        let ghost before = text::views(r@);
        proof {
            reveal(Seq::filter);
            assert(all.take(i + 1).drop_last() == all.take(i as int));
            assert(all.take(i + 1).last() == parts@[i as int]@);
        }
        if parts[i].len() > 0 {
            let piece = text::slice_chars(&parts[i], 0, parts[i].len());
            assert(piece@ == parts@[i as int]@);
            r.push(piece);
            assert(text::views(r@) == before.push(parts@[i as int]@));
        }
        i += 1;
    }
    assert(all.take(i as int) == all);
    r
}

/// The pairs of a message, or the first segment that is no pair.
fn read_fields(segs: &Vec<Vec<char>>) -> (r: Result<RawFields, String>)
    ensures
        match fields(text::views(segs@), segs@.len()) {
            Ok(m) => r matches Ok(f) && f@ == m,
            Err(e) => r matches Err(s) && s@ == e,
        },
{
    let ghost all = text::views(segs@);
    let mut pairs = RawFields::new();
    let mut i: usize = 0;
    while i < segs.len()
        invariant
            i <= segs@.len(),
            all == text::views(segs@),
            fields(all, i as nat) == Ok::<Map<Seq<char>, Seq<char>>, Seq<char>>(pairs@),
        decreases segs@.len() - i,
    {
        let seg = &segs[i];
        assert(all[i as int] == seg@);
        let equals = text::find_char(seg, '=');
        let at_sign = text::find_char(seg, '@');
        proof {
            text::find_is_first(seg@, '=');
            text::find_is_first(seg@, '@');
            assert(equals is Some == seg@.contains('='));
            assert(at_sign is Some == seg@.contains('@'));
        }
        if i == 0 && at_sign.is_some() && equals.is_none() {
        } else {
            match equals {
                Some(k) => {
                    let len: usize = seg.len();
                    let key = text::slice_chars(seg, 0, k);
                    let value = text::slice_chars(seg, k + 1, len);
                    assert(key@ == seg@.take(k as int) && value@ == seg@.skip(k + 1));
                    pairs.insert(text::string_of(key.as_slice()), text::string_of(value.as_slice()));
                },
                None => {
                    proof {
                        fields_fail_early(all, (i + 1) as nat, all.len());
                    }
                    return Err(text::string_of(seg.as_slice()));
                },
            }
        }
        i += 1;
    }
    Ok(pairs)
}

proof fn fields_fail_early(segs: Seq<Seq<char>>, n: nat, m: nat)
    requires
        n <= m,
        fields(segs, n) is Err,
    ensures
        fields(segs, m) == fields(segs, n),
    decreases m,
{
    if n < m {
        fields_fail_early(segs, n, (m - 1) as nat);
    }
}

/// Whether `key` has exactly this value.
fn field_equals(f: &RawFields, key: &str, value: &str) -> (r: bool)
    ensures
        r == field_is(f@, key@, value@),
{
    match f.get(key) {
        Some(v) => text::same_text(v.as_str(), value),
        None => false,
    }
}

/// Parse one raw netlink uevent datagram.
pub fn parse_uevent(bytes: &[u8]) -> (r: Result<Option<SensorEvent>, UeventParseError>)
    ensures
        match uevent(bytes@) {
            Ok(None) => r == Ok::<Option<SensorEvent>, UeventParseError>(None),
            Ok(Some(event)) => r matches Ok(Some(e)) && e@ == event,
            Err(error) => r matches Err(e) && e@ == error,
        },
{
    if bytes.len() == 0 {
        return Err(UeventParseError::Empty);
    }
    if is_libudev(bytes) {
        return Err(UeventParseError::LibudevFraming);
    }
    let text_of_message = match std::str::from_utf8(bytes) {
        Ok(s) => s,
        Err(_) => {
            return Err(UeventParseError::NotUtf8);
        },
    };
    let segs = split_segments(&text::chars_of(text_of_message));
    assert(text::views(segs@).len() == segs@.len());
    let pairs = match read_fields(&segs) {
        Ok(f) => f,
        Err(segment) => {
            return Err(UeventParseError::MalformedSegment { segment });
        },
    };
    if !pairs.contains_key("ACTION") {
        return Err(UeventParseError::MissingAction);
    }
    let added = field_equals(&pairs, "ACTION", "add");
    let removed = field_equals(&pairs, "ACTION", "remove");
    if !added && !removed {
        return Ok(None);
    }
    // Whole devices are tracked, not their interfaces, and only the USB subsystem.
    if !field_equals(&pairs, "SUBSYSTEM", "usb") || !field_equals(&pairs, "DEVTYPE", "usb_device") {
        return Ok(None);
    }
    let usb_id = match pairs.get("PRODUCT") {
        Some(p) => parse_product(p.as_str()),
        None => None,
    };
    let serial = match pairs.get("SERIAL") {
        Some(s) => Some(protocol::sanitize_device_string(s.as_str())),
        None => None,
    };
    Ok(
        Some(
            SensorEvent {
                source: SensorSource::Usb,
                kind: if added {
                    EventKind::Added
                } else {
                    EventKind::Removed
                },
                identity: DeviceIdentity { usb_id, serial, label: None },
                raw: pairs,
            },
        ),
    )
}

/// A USB device change is never lost for want of an id: whatever `PRODUCT` says, an add or
/// remove of a whole USB device is an event.
pub proof fn a_device_change_is_always_an_event(m: Map<Seq<char>, Seq<char>>)
    requires
        field_is(m, "ACTION"@, "add"@) || field_is(m, "ACTION"@, "remove"@),
        field_is(m, "SUBSYSTEM"@, "usb"@),
        field_is(m, "DEVTYPE"@, "usb_device"@),
    ensures
        device_event(m) is Some,
        device_event(m)->0.raw == m,
        device_event(m)->0.identity.usb_id is None <==> !m.dom().contains("PRODUCT"@) || product_id(
            m["PRODUCT"@],
        ) is None,
{
}

/// Every serial that leaves the parser is safe to print.
pub proof fn serials_are_plain(bytes: Seq<u8>)
    ensures
        match uevent(bytes) {
            Ok(Some(event)) => match event.identity.serial {
                Some(s) => protocol::is_safe(s),
                None => true,
            },
            _ => true,
        },
{
    match uevent(bytes) {
        Ok(Some(event)) => protocol::sanitized_is_plain(event.raw["SERIAL"@]),
        _ => {},
    }
}

proof fn written_hex_is_read(n: nat)
    ensures
        hex_number(text::hexadecimal(n)) == Some(n),
        text::hexadecimal(n).len() > 0,
        !text::hexadecimal(n).contains('/'),
        text::hexadecimal(n)[0] != '+',
    decreases n,
{
    let s = text::hexadecimal(n);
    if n < 16 {
        assert(s.drop_last() =~= Seq::empty());
        assert(hex_number(s.drop_last()) == Some(0nat));
    } else {
        written_hex_is_read(n / 16);
        let front = text::hexadecimal(n / 16);
        assert(s.drop_last() =~= front);
        assert(s[0] == front[0]);
        assert forall|i: int| 0 <= i < s.len() implies s[i] != '/' by {
            if i < front.len() {
                assert(front.contains(front[i]));
            }
        }
    }
}

/// A number in hex is read back, and has nothing in it but its digits.
pub proof fn written_hex_is_plain(n: nat)
    ensures
        hex_number(text::hexadecimal(n)) == Some(n),
        text::hexadecimal(n).len() > 0,
        n <= u64::MAX ==> hex_up_to(text::hexadecimal(n), u64::MAX as nat) == Some(n),
        forall|i: int|
            0 <= i < text::hexadecimal(n).len() ==> '0' <= #[trigger] text::hexadecimal(n)[i]
                <= 'f',
    decreases n,
{
    written_hex_is_read(n);
    if n >= 16 {
        written_hex_is_plain(n / 16);
        let front = text::hexadecimal(n / 16);
        let s = text::hexadecimal(n);
        assert forall|i: int| 0 <= i < s.len() implies '0' <= #[trigger] s[i] <= 'f' by {
            if i < front.len() {
                assert(s[i] == front[i]);
            }
        }
    }
}

/// What the kernel writes is read back: for every vendor and product, their numbers in hex
/// without leading zeros, with a slash between them and anything at all after a second slash,
/// give exactly that id.
pub proof fn every_product_is_read(vendor: u16, product: u16, rest: Seq<char>)
    ensures
        product_id(
            text::hexadecimal(vendor as nat) + seq!['/'] + text::hexadecimal(product as nat) + seq![
                '/',
            ] + rest,
        ) == Some(UsbId { vendor, product }),
        product_id(
            text::hexadecimal(vendor as nat) + seq!['/'] + text::hexadecimal(product as nat),
        ) == Some(UsbId { vendor, product }),
{
    let v = text::hexadecimal(vendor as nat);
    let p = text::hexadecimal(product as nat);
    written_hex_is_read(vendor as nat);
    written_hex_is_read(product as nat);
    let two = seq![v, p];
    assert(two.skip(1) =~= seq![p]);
    assert(text::joined_by(seq![p], '/') == p);
    assert(text::joined_by(two, '/') =~= v + seq!['/'] + p);
    text::splitting_undoes_joining(two, '/');
    let tail = text::split(rest, '/');
    text::splitting_loses_nothing(rest, '/');
    let all = seq![v, p] + tail;
    assert(all.skip(1) =~= seq![p] + tail);
    assert(all.skip(1).skip(1) =~= tail);
    assert(text::joined_by(all.skip(1), '/') == p + seq!['/'] + rest);
    assert(text::joined_by(all, '/') =~= v + seq!['/'] + p + seq!['/'] + rest);
    assert forall|i: int| 0 <= i < all.len() implies !(#[trigger] all[i]).contains('/') by {
        if i >= 2 {
            assert(all[i] == tail[i - 2]);
        }
    }
    text::splitting_undoes_joining(all, '/');
}

/// A `PRODUCT` that is read as an id writes that id: its first two parts are the vendor's and
/// the product's number in hex, in that order.
pub proof fn a_read_product_writes_its_id(s: Seq<char>)
    ensures
        product_id(s) matches Some(id) ==> text::split(s, '/').len() >= 2 && hex_up_to(
            text::split(s, '/')[0],
            0xffff,
        ) == Some(id.vendor as nat) && hex_up_to(text::split(s, '/')[1], 0xffff) == Some(
            id.product as nat,
        ),
        text::split(s, '/').len() < 2 ==> product_id(s) is None,
{
}

/// A pair as a uevent writes it.
pub open spec fn pair_text(pair: (Seq<char>, Seq<char>)) -> Seq<char> {
    pair.0 + seq!['='] + pair.1
}

/// The parts of a message: the summary line, then the pairs.
pub open spec fn message_parts(summary: Seq<char>, pairs: Seq<(Seq<char>, Seq<char>)>) -> Seq<
    Seq<char>,
> {
    Seq::new(
        pairs.len() + 1,
        |i: int|
            if i == 0 {
                summary
            } else {
                pair_text(pairs[i - 1])
            },
    )
}

/// A message as the kernel writes it: the summary line, then the pairs, each ended by a NUL.
pub open spec fn message_text(summary: Seq<char>, pairs: Seq<(Seq<char>, Seq<char>)>) -> Seq<char> {
    text::joined_by(message_parts(summary, pairs).push(Seq::empty()), '\0')
}

/// Whether a pair can be written: neither part holds a NUL, and the key no `=`.
pub open spec fn is_writable(pair: (Seq<char>, Seq<char>)) -> bool {
    !pair.0.contains('=') && !pair.0.contains('\0') && !pair.1.contains('\0')
}

/// Whether a message can be written with these parts: nothing holds a NUL, the summary has an `@`
/// and no `=`, no key has an `=`, and no key comes twice.
pub open spec fn can_be_written(summary: Seq<char>, pairs: Seq<(Seq<char>, Seq<char>)>) -> bool {
    &&& summary.contains('@') && !summary.contains('=') && !summary.contains('\0')
    &&& forall|i: int| 0 <= i < pairs.len() ==> is_writable(#[trigger] pairs[i])
    &&& forall|i: int, j: int|
        0 <= i < j < pairs.len() ==> (#[trigger] pairs[i]).0 != (#[trigger] pairs[j]).0
}

proof fn a_pair_has_one_place_to_part(pair: (Seq<char>, Seq<char>))
    requires
        is_writable(pair),
    ensures
        !pair_text(pair).contains('\0'),
        pair_text(pair).contains('='),
        pair_text(pair).len() > 0,
        text::find(pair_text(pair), '=') == Some(pair.0.len() as int),
        pair_text(pair).take(pair.0.len() as int) == pair.0,
        pair_text(pair).skip(pair.0.len() as int + 1) == pair.1,
{
    let t = pair_text(pair);
    let n = pair.0.len() as int;
    assert(t[n] == '=');
    assert forall|k: int| 0 <= k < t.len() implies t[k] != '\0' by {
        if k < n {
            assert(pair.0.contains(pair.0[k]));
        } else if k > n {
            assert(pair.1.contains(pair.1[k - n - 1]));
        }
    }
    assert forall|k: int| 0 <= k < n implies t[k] != '=' by {
        assert(pair.0.contains(pair.0[k]));
    }
    text::find_at(t, '=', n);
    assert(t.take(n) =~= pair.0);
    assert(t.skip(n + 1) =~= pair.1);
}

proof fn parts_come_apart(parts: Seq<Seq<char>>)
    requires
        parts.len() > 0,
        forall|i: int|
            0 <= i < parts.len() ==> (#[trigger] parts[i]).len() > 0 && !parts[i].contains('\0'),
    ensures
        segments(text::joined_by(parts.push(Seq::empty()), '\0')) == parts,
{
    let all = parts.push(Seq::empty());
    let keep = |p: Seq<char>| p.len() > 0;
    assert forall|i: int| 0 <= i < all.len() implies !(#[trigger] all[i]).contains('\0') by {
        if i < parts.len() {
            assert(all[i] == parts[i]);
        }
    }
    text::splitting_undoes_joining(all, '\0');
    assert forall|i: int| 0 <= i < parts.len() implies keep(#[trigger] parts[i]) by {}
    keeping_all(parts, keep);
    assert(all.filter(keep) == parts) by {
        reveal(Seq::filter);
        assert(all.drop_last() =~= parts);
    }
}

proof fn segments_of_a_message(summary: Seq<char>, pairs: Seq<(Seq<char>, Seq<char>)>)
    requires
        can_be_written(summary, pairs),
    ensures
        segments(message_text(summary, pairs)) == message_parts(summary, pairs),
{
    let parts = message_parts(summary, pairs);
    assert forall|i: int| 0 <= i < parts.len() implies (#[trigger] parts[i]).len() > 0
        && !parts[i].contains('\0') by {
        if i == 0 {
            let k = summary.index_of('@');
            assert(summary[k] == '@');
        } else {
            a_pair_has_one_place_to_part(pairs[i - 1]);
        }
    }
    parts_come_apart(parts);
}

proof fn keeping_all(s: Seq<Seq<char>>, keep: spec_fn(Seq<char>) -> bool)
    requires
        forall|i: int| 0 <= i < s.len() ==> keep(#[trigger] s[i]),
    ensures
        s.filter(keep) == s,
    decreases s.len(),
{
    reveal(Seq::filter);
    if s.len() > 0 {
        keeping_all(s.drop_last(), keep);
        assert(s.drop_last().push(s.last()) =~= s);
    }
}

/// Whether a map holds exactly the first `n` of these pairs.
pub open spec fn holds_pairs(
    m: Map<Seq<char>, Seq<char>>,
    pairs: Seq<(Seq<char>, Seq<char>)>,
    n: nat,
) -> bool {
    &&& forall|i: int|
        0 <= i < n ==> m.contains_key((#[trigger] pairs[i]).0) && m[pairs[i].0] == pairs[i].1
    &&& forall|key: Seq<char>| #[trigger]
        m.contains_key(key) ==> exists|i: int| 0 <= i < n && (#[trigger] pairs[i]).0 == key
}

proof fn fields_of_a_message(summary: Seq<char>, pairs: Seq<(Seq<char>, Seq<char>)>, n: nat)
    requires
        can_be_written(summary, pairs),
        n <= pairs.len(),
    ensures
        fields(message_parts(summary, pairs), n + 1) matches Ok(m) && holds_pairs(m, pairs, n),
    decreases n,
{
    let segs = message_parts(summary, pairs);
    if n == 0 {
        assert(fields(segs, 0) == Ok::<Map<Seq<char>, Seq<char>>, Seq<char>>(Map::empty()));
        assert(segs[0] == summary);
    } else {
        fields_of_a_message(summary, pairs, (n - 1) as nat);
        let m = fields(segs, n)->Ok_0;
        let pair = pairs[n - 1];
        assert(segs[n as int] == pair_text(pair));
        a_pair_has_one_place_to_part(pair);
        let now = m.insert(pair.0, pair.1);
        assert(fields(segs, n + 1) == Ok::<Map<Seq<char>, Seq<char>>, Seq<char>>(now));
        assert forall|i: int| 0 <= i < n implies now.contains_key((#[trigger] pairs[i]).0)
            && now[pairs[i].0] == pairs[i].1 by {
            if i < n - 1 {
                assert(pairs[i].0 != pairs[n - 1].0);
            }
        }
        assert forall|key: Seq<char>| #[trigger] now.contains_key(key) implies exists|i: int|
            0 <= i < n && (#[trigger] pairs[i]).0 == key by {
            if key == pair.0 {
                assert(pairs[n - 1].0 == key);
            } else {
                assert(m.contains_key(key));
                let i = choose|i: int| 0 <= i < n - 1 && (#[trigger] pairs[i]).0 == key;
                assert(pairs[i].0 == key);
            }
        }
    }
}

/// A kernel message is read pair by pair: what comes out is decided by a map that holds exactly
/// the message's pairs, and only a message without an `ACTION` among them is refused.
pub proof fn a_kernel_message_is_read_pair_by_pair(
    summary: Seq<char>,
    pairs: Seq<(Seq<char>, Seq<char>)>,
    bytes: Seq<u8>,
)
    requires
        can_be_written(summary, pairs),
        bytes.len() > 0,
        vstd::utf8::valid_utf8(bytes),
        vstd::utf8::decode_utf8(bytes) == message_text(summary, pairs),
        !(seq![108u8, 105, 98, 117, 100, 101, 118].is_prefix_of(bytes)),
    ensures
        exists|m: Map<Seq<char>, Seq<char>>| #[trigger]
            holds_pairs(m, pairs, pairs.len()) && uevent(bytes) == (if m.contains_key(
                "ACTION"@,
            ) {
                Ok(device_event(m))
            } else {
                Err(UeventParseErrorView::MissingAction)
            }),
{
    segments_of_a_message(summary, pairs);
    fields_of_a_message(summary, pairs, pairs.len());
    let segs = message_parts(summary, pairs);
    let m = fields(segs, segs.len())->Ok_0;
    assert(holds_pairs(m, pairs, pairs.len()));
}

/// Which messages are events, and what they say: a USB device's addition or removal is, by its
/// action, and nothing else is; its id is the one that `PRODUCT` writes.
pub proof fn a_device_message_says_what_happened(
    m: Map<Seq<char>, Seq<char>>,
    vendor: u16,
    product: u16,
    rest: Seq<char>,
)
    ensures
        device_event(m) is Some <==> m.contains_key("ACTION"@) && (m["ACTION"@] == "add"@
            || m["ACTION"@] == "remove"@) && m.contains_key("SUBSYSTEM"@) && m["SUBSYSTEM"@]
            == "usb"@ && m.contains_key("DEVTYPE"@) && m["DEVTYPE"@] == "usb_device"@,
        device_event(m) matches Some(e) ==> {
            &&& e.kind == EventKind::Added <==> m["ACTION"@] == "add"@
            &&& e.raw == m
            &&& !m.contains_key("PRODUCT"@) ==> e.identity.usb_id is None
            &&& m.contains_key("PRODUCT"@) && m["PRODUCT"@] == text::hexadecimal(vendor as nat)
                + seq!['/'] + text::hexadecimal(product as nat) + seq!['/'] + rest
                ==> e.identity.usb_id == Some(UsbId { vendor, product })
            &&& e.identity.serial is Some <==> m.contains_key("SERIAL"@)
            &&& e.identity.serial matches Some(n) ==> n == protocol::sanitized(m["SERIAL"@])
            &&& e.identity.label is None
        },
{
    every_product_is_read(vendor, product, rest);
}

/// Pairs are taken in order: a later pair for a key takes the place of an earlier one and touches no
/// other key; and a part that is no pair, and is not the summary line at the head, is what the message
/// is refused for.
pub proof fn a_later_pair_takes_over(
    segs: Seq<Seq<char>>,
    pair: (Seq<char>, Seq<char>),
    bad: Seq<char>,
    key: Seq<char>,
)
    requires
        segs.len() > 0,
        is_writable(pair),
        !bad.contains('='),
        fields(segs, segs.len()) is Ok,
    ensures
        fields(segs.push(pair_text(pair)), segs.len() + 1) matches Ok(m) && {
            let before = fields(segs, segs.len())->Ok_0;
            &&& m.contains_key(pair.0) && m[pair.0] == pair.1
            &&& key != pair.0 ==> (m.contains_key(key) <==> before.contains_key(key)) && (
            before.contains_key(key) ==> m[key] == before[key])
        },
        fields(segs.push(bad), segs.len() + 1) == Err::<Map<Seq<char>, Seq<char>>, Seq<char>>(bad),
{
    let more = segs.push(pair_text(pair));
    let worse = segs.push(bad);
    fields_look_back(segs, pair_text(pair), segs.len());
    fields_look_back(segs, bad, segs.len());
    a_pair_has_one_place_to_part(pair);
    assert(more[segs.len() as int] == pair_text(pair));
    assert(worse[segs.len() as int] == bad);
    text::find_is_first(bad, '=');
    if let Some(i) = text::find(bad, '=') {
        assert(bad.contains(bad[i]));
    }
}

proof fn fields_look_back(segs: Seq<Seq<char>>, more: Seq<char>, n: nat)
    requires
        n <= segs.len(),
    ensures
        fields(segs.push(more), n) == fields(segs, n),
    decreases n,
{
    if n > 0 {
        fields_look_back(segs, more, (n - 1) as nat);
        assert(segs.push(more)[n - 1] == segs[n - 1]);
    }
}

/// What is no uevent is refused for what it is: nothing at all, udev's own framing, and bytes that are
/// no text; and a summary line is needed by nobody, but a part with neither an `@` nor an `=` is
/// malformed wherever it stands.
pub proof fn what_is_no_uevent_is_refused(bytes: Seq<u8>)
    ensures
        bytes.len() == 0 ==> uevent(bytes) is Err && uevent(bytes)->Err_0 is Empty,
        seq![108u8, 105, 98, 117, 100, 101, 118].is_prefix_of(bytes) ==> uevent(bytes) is Err
            && uevent(bytes)->Err_0 is LibudevFraming,
        bytes.len() > 0 && !vstd::utf8::valid_utf8(bytes) ==> uevent(bytes) is Err,
        forall|s: Seq<char>|
            !s.contains('@') || s.contains('=') ==> !(#[trigger] is_summary(s)),
        forall|s: Seq<char>| s.contains('@') && !s.contains('=') ==> #[trigger] is_summary(s),
{
}

} // verus!
