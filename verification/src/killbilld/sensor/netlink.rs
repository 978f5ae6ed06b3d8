//! The USB sensor's rules: what each receive on the kernel's uevent socket means.

use crate::killbilld::sensor::uevent;
use crate::killbilld::sensor::uevent::UeventParseErrorView;
use crate::killbilld::sensor::{SensorError, SensorMessage, SensorMessageView};
use vstd::prelude::*;

verus! {

/// Reads USB add/remove uevents from the kernel netlink socket.
#[derive(Debug, Clone, Copy, PartialEq, Eq, Structural)]
pub struct UsbNetlinkSensor;

impl UsbNetlinkSensor {
    #[must_use]
    pub fn new() -> (r: Self)
        ensures
            r == UsbNetlinkSensor,
    {
        UsbNetlinkSensor
    }

    /// Stable identifier for logs and thread names.
    pub fn name(&self) -> (r: &'static str)
        ensures
            r@ == "usb-netlink"@,
    {
        "usb-netlink"
    }

    /// Whether the sensor can watch: only Linux has its socket, and there it must open.
    pub fn preflight(&self, on_linux: bool, opened: Result<(), SensorError>) -> (r: Result<
        (),
        SensorError,
    >)
        ensures
            r == (if on_linux {
                opened
            } else {
                Err(SensorError::UnsupportedPlatform)
            }),
    {
        if on_linux {
            opened
        } else {
            Err(SensorError::UnsupportedPlatform)
        }
    }
}

impl Default for UsbNetlinkSensor {
    fn default() -> (r: Self)
        ensures
            r == UsbNetlinkSensor,
    {
        UsbNetlinkSensor::new()
    }
}

/// How often at most dropped non-kernel datagrams are reported, in seconds.
pub const FORGED_LOG_INTERVAL_SECS: u64 = 60;

/// What one receive gave.
#[derive(Debug, Clone, PartialEq, Eq)]
pub enum Received {
    /// A datagram, with the port id of its sender if it has one.
    Datagram { bytes: Vec<u8>, port: Option<u32> },
    /// Timed out or interrupted. Try again.
    Idle,
    /// The kernel's receive buffer overflowed: one or more events were lost.
    Lost,
}

/// What to do about one receive.
#[derive(Debug, PartialEq, Eq)]
pub enum SensorStep {
    /// Nothing.
    Wait,
    /// Send this to the core.
    Send(SensorMessage),
    /// Send that events were lost: this datagram could not be read, and might have
    /// been a device change.
    SendLost(uevent::UeventParseError),
    /// Report that datagrams from other senders than the kernel are being dropped.
    ReportForged { total: u64 },
}

/// What a [`SensorStep`] holds.
pub enum SensorStepView {
    Wait,
    Send(SensorMessageView),
    SendLost(UeventParseErrorView),
    ReportForged { total: u64 },
}

impl View for SensorStep {
    type V = SensorStepView;

    open spec fn view(&self) -> SensorStepView {
        match self {
            SensorStep::Wait => SensorStepView::Wait,
            SensorStep::Send(m) => SensorStepView::Send(m@),
            SensorStep::SendLost(e) => SensorStepView::SendLost(e@),
            SensorStep::ReportForged { total } => SensorStepView::ReportForged { total: *total },
        }
    }
}

/// What the sensor remembers between receives.
#[derive(Debug, Clone, Copy, PartialEq, Eq, Structural)]
pub struct SensorLoop {
    /// How many datagrams from other senders than the kernel were dropped.
    pub forged_seen: u64,
    /// When that was last reported, in seconds.
    pub forged_reported: Option<u64>,
}

/// What a datagram from the kernel means.
pub open spec fn datagram_step(bytes: Seq<u8>) -> SensorStepView {
    match uevent::uevent(bytes) {
        Ok(Some(event)) => SensorStepView::Send(SensorMessageView::Event(event)),
        Ok(None) => SensorStepView::Wait,
        Err(e) => SensorStepView::SendLost(e),
    }
}

impl SensorLoop {
    /// Nothing seen yet.
    pub fn new() -> (r: Self)
        ensures
            r == (SensorLoop { forged_seen: 0, forged_reported: None }),
    {
        SensorLoop { forged_seen: 0, forged_reported: None }
    }

    /// Whether a report of dropped datagrams is due at `now`.
    pub open spec fn report_due(self, now: u64) -> bool {
        match self.forged_reported {
            None => true,
            Some(t) => now >= t + FORGED_LOG_INTERVAL_SECS,
        }
    }

    /// What is remembered once a datagram that is not the kernel's was dropped.
    pub open spec fn dropped(self, now: u64) -> SensorLoop {
        SensorLoop {
            forged_seen: if self.forged_seen < u64::MAX {
                (self.forged_seen + 1) as u64
            } else {
                u64::MAX
            },
            forged_reported: if self.report_due(now) {
                Some(now)
            } else {
                self.forged_reported
            },
        }
    }

    /// What is done about one receive at `now`.
    pub open spec fn step(self, received: Received, now: u64) -> SensorStepView {
        match received {
            Received::Idle => SensorStepView::Wait,
            Received::Lost => SensorStepView::Send(SensorMessageView::EventsLost),
            Received::Datagram { bytes, port } => if port == Some(0u32) {
                datagram_step(bytes@)
            } else if self.report_due(now) {
                SensorStepView::ReportForged { total: self.dropped(now).forged_seen }
            } else {
                SensorStepView::Wait
            },
        }
    }

    /// What is remembered once a receive was dealt with at `now`.
    pub open spec fn after(self, received: Received, now: u64) -> SensorLoop {
        match received {
            Received::Datagram { bytes, port } => if port == Some(0u32) {
                self
            } else {
                self.dropped(now)
            },
            _ => self,
        }
    }

    /// What to do about one receive at `now`, in seconds. Only the kernel, port id
    /// zero, may originate a uevent.
    pub fn on_receive(&mut self, received: &Received, now: u64) -> (r: SensorStep)
        ensures
            r@ == old(self).step(*received, now),
            *final(self) == old(self).after(*received, now),
    {
        match received {
            Received::Idle => SensorStep::Wait,
            Received::Lost => SensorStep::Send(SensorMessage::EventsLost),
            Received::Datagram { bytes, port } => {
                let from_kernel = match port {
                    Some(p) => *p == 0,
                    None => false,
                };
                if !from_kernel {
                    self.forged_seen = self.forged_seen.saturating_add(1);
                    let due = match self.forged_reported {
                        None => true,
                        Some(t) => now >= t && now - t >= FORGED_LOG_INTERVAL_SECS,
                    };
                    if due {
                        self.forged_reported = Some(now);
                        return SensorStep::ReportForged { total: self.forged_seen };
                    }
                    return SensorStep::Wait;
                }
                match uevent::parse_uevent(bytes.as_slice()) {
                    Ok(Some(event)) => SensorStep::Send(SensorMessage::Event(event)),
                    Ok(None) => SensorStep::Wait,
                    Err(e) => SensorStep::SendLost(e),
                }
            },
        }
    }
}

/// Nothing the kernel says about a device is lost in silence: a datagram from it that is not
/// passed over as some other well-formed uevent becomes an event or a report of lost events.
pub proof fn kernel_datagrams_are_never_dropped(bytes: Seq<u8>)
    ensures
        datagram_step(bytes) is Wait <==> uevent::uevent(bytes) == Ok::<
            Option<crate::proto::sensor_event::SensorEventView>,
            UeventParseErrorView,
        >(None),
{
}

/// Only the kernel is believed: a datagram with another sender's port, or with none, never reaches
/// the core; it is counted, and reported the first time and then at most once a minute. What the
/// kernel says reaches the core as an event, or as lost events where it cannot be read; and a full
/// buffer is lost events.
pub proof fn only_the_kernel_is_believed(s: SensorLoop, received: Received, now: u64)
    ensures
        received matches Received::Datagram { bytes, port } ==> {
            &&& port != Some(0u32) ==> {
                &&& !(s.step(received, now) is Send) && !(s.step(received, now) is SendLost)
                &&& s.forged_seen < u64::MAX ==> s.after(received, now).forged_seen
                    == s.forged_seen + 1
                &&& s.step(received, now) is ReportForged <==> s.forged_reported is None || now
                    >= s.forged_reported->0 + 60
                &&& s.step(received, now) matches SensorStepView::ReportForged { total } ==> total
                    == s.after(received, now).forged_seen && s.after(received, now).forged_reported
                    == Some(now)
            }
            &&& port == Some(0u32) ==> match uevent::uevent(bytes@) {
                Ok(Some(event)) => s.step(received, now) == SensorStepView::Send(
                    SensorMessageView::Event(event),
                ),
                Ok(None) => s.step(received, now) is Wait,
                Err(e) => s.step(received, now) == SensorStepView::SendLost(e),
            }
        },
        received is Lost ==> s.step(received, now) == SensorStepView::Send(
            SensorMessageView::EventsLost,
        ),
        received is Idle ==> s.step(received, now) is Wait,
{
}

} // verus!
