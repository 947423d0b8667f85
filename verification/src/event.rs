//! The inbound events the monitor classifies: channel voice messages, the
//! system-realtime transport messages, and the transport's own announcements
//! about clients, ports and subscriptions. Anything else arrives as `Other`
//! with a generic description.

use vstd::prelude::*;
use crate::addr::Addr;

verus! {

/// One inbound event, already decoded to plain values. Every event is
/// accompanied by the identity of its source endpoint, passed alongside.
#[derive(Clone, Debug)]
pub enum Event {
    /// A key went down (a velocity of zero is shown like a key going up).
    NoteOn { channel: u8, note: u8, velocity: u8 },
    /// A key went up.
    NoteOff { channel: u8, note: u8, velocity: u8 },
    /// A controller moved.
    ControlChange { channel: u8, param: u32, value: i32 },
    /// The pitch wheel moved.
    PitchBend { channel: u8, value: i32 },
    /// The instrument program changed.
    ProgramChange { channel: u8, value: i32 },
    /// Channel aftertouch.
    ChannelPressure { channel: u8, value: i32 },
    /// One timing-clock tick, 24 per quarter note.
    TimingClock,
    /// The sequencer started playing; resets the tick count.
    Start,
    /// The sequencer stopped.
    Stop,
    /// The sequencer resumed.
    Continue,
    /// A client appeared.
    ClientArrived { addr: Addr },
    /// A client went away.
    ClientDeparted { addr: Addr },
    /// A port appeared; triggers the autoconnect policy when enabled.
    PortArrived { addr: Addr },
    /// A port went away; its cached name is dropped after it is shown once.
    PortDeparted { addr: Addr },
    /// A subscription between two endpoints was made.
    PortSubscribed { sender: Addr, dest: Addr },
    /// A subscription between two endpoints was removed.
    PortUnsubscribed { sender: Addr, dest: Addr },
    /// Any event kind the monitor does not classify, with a generic
    /// description supplied by the caller.
    Other { description: String },
}

/// The endpoint identities an event's rendering will name: none beyond the
/// source for most events, the affected endpoint for arrival and departure
/// notifications, both ends for subscription notifications.
pub open spec fn payload_addrs(ev: Event) -> Seq<Addr> {
    match ev {
        Event::ClientArrived { addr } => seq![addr],
        Event::ClientDeparted { addr } => seq![addr],
        Event::PortArrived { addr } => seq![addr],
        Event::PortDeparted { addr } => seq![addr],
        Event::PortSubscribed { sender, dest } => seq![sender, dest],
        Event::PortUnsubscribed { sender, dest } => seq![sender, dest],
        _ => Seq::empty(),
    }
}

/// All identities whose display names the event's line will show: the source
/// first, then the payload identities.
pub open spec fn addrs_to_resolve_view(source: Addr, ev: Event) -> Seq<Addr> {
    seq![source] + payload_addrs(ev)
}

/// Lists the identities whose names should be resolved (queried from the
/// transport if not cached) before this event is handled.
pub fn addrs_to_resolve(source: Addr, ev: &Event) -> (r: Vec<Addr>)
    ensures
        r@ == addrs_to_resolve_view(source, *ev),
{
    let mut r: Vec<Addr> = Vec::new();
    r.push(source);
    match ev {
        Event::ClientArrived { addr } => r.push(*addr),
        Event::ClientDeparted { addr } => r.push(*addr),
        Event::PortArrived { addr } => r.push(*addr),
        Event::PortDeparted { addr } => r.push(*addr),
        Event::PortSubscribed { sender, dest } => {
            r.push(*sender);
            r.push(*dest);
        },
        Event::PortUnsubscribed { sender, dest } => {
            r.push(*sender);
            r.push(*dest);
        },
        _ => {},
    }
    proof {
        assert(r@ =~= addrs_to_resolve_view(source, *ev));
    }
    r
}

} // verus!
