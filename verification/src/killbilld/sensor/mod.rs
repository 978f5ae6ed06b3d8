//! Sensors: where device changes come from.
//!
//! A sensor watches the outside world and emits normalized events. It must never
//! let a parse failure or a dead socket quietly become "no devices seen": bytes it
//! cannot understand are reported as lost events, and a device without a readable
//! id is an event without an id.

pub mod netlink;
pub mod uevent;

use crate::proto::sensor_event::{SensorEvent, SensorEventView};
use vstd::prelude::*;

verus! {

/// What a running sensor sends to the daemon core.
#[derive(Debug, PartialEq, Eq)]
pub enum SensorMessage {
    /// The sensor opened its source and is now watching. Sent exactly once,
    /// before any [`Event`](Self::Event).
    Started,
    /// A normalized device add/remove.
    Event(SensorEvent),
    /// The kernel dropped one or more events (receive-buffer overflow). The
    /// daemon can no longer fully account for the device set.
    EventsLost,
}

/// What a [`SensorMessage`] holds.
pub enum SensorMessageView {
    Started,
    Event(SensorEventView),
    EventsLost,
}

impl View for SensorMessage {
    type V = SensorMessageView;

    open spec fn view(&self) -> SensorMessageView {
        match self {
            SensorMessage::Started => SensorMessageView::Started,
            SensorMessage::Event(e) => SensorMessageView::Event(e@),
            SensorMessage::EventsLost => SensorMessageView::EventsLost,
        }
    }
}

/// Something a sensor could not do, with the system's reason where there is one.
#[derive(Debug, Clone, PartialEq, Eq)]
pub enum SensorError {
    /// The netlink uevent socket could not be created.
    OpenSocket(String),
    /// The socket could not be bound to the kernel's uevent group.
    BindSocket(String),
    /// The socket could not be configured.
    ConfigureSocket(String),
    /// A receive on the socket failed with an error the loop cannot recover from.
    Recv(String),
    /// The sensor thread panicked.
    Panicked,
    /// This build has no USB sensor.
    UnsupportedPlatform,
}

impl SensorError {
    /// The message for the operator.
    pub fn to_text(&self) -> (r: String)
        ensures
            r@ == match *self {
                SensorError::OpenSocket(e) => "could not open the netlink uevent socket: "@ + e@,
                SensorError::BindSocket(e) => {
                    "could not bind the netlink uevent socket to the kernel group: "@ + e@
                },
                SensorError::ConfigureSocket(e) => {
                    "could not configure the netlink uevent socket: "@ + e@
                },
                SensorError::Recv(e) => "reading from the netlink uevent socket failed: "@ + e@,
                SensorError::Panicked => "the sensor thread panicked"@,
                SensorError::UnsupportedPlatform => "the USB sensor is only available on Linux"@,
            },
    {
        match self {
            SensorError::OpenSocket(e) => {
                "could not open the netlink uevent socket: ".to_owned().concat(e.as_str())
            },
            SensorError::BindSocket(e) => {
                "could not bind the netlink uevent socket to the kernel group: ".to_owned().concat(
                    e.as_str(),
                )
            },
            SensorError::ConfigureSocket(e) => {
                "could not configure the netlink uevent socket: ".to_owned().concat(e.as_str())
            },
            SensorError::Recv(e) => {
                "reading from the netlink uevent socket failed: ".to_owned().concat(e.as_str())
            },
            SensorError::Panicked => "the sensor thread panicked".to_owned(),
            SensorError::UnsupportedPlatform => {
                "the USB sensor is only available on Linux".to_owned()
            },
        }
    }
}

} // verus!
