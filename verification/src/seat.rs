//! The seat tracker: accumulates input-capability and name metadata of the
//! seat global. Unlike outputs, no terminating event is needed: the
//! capabilities event is self-contained.

use vstd::prelude::*;

use crate::error::ClientError;

verus! {

/// The pointer bit of the capability bitset.
pub const CAPABILITY_POINTER: u32 = 1;

/// The keyboard bit of the capability bitset.
pub const CAPABILITY_KEYBOARD: u32 = 2;

/// The touch bit of the capability bitset.
pub const CAPABILITY_TOUCH: u32 = 4;

/// Accumulated metadata of one seat: its capability bitset and its name.
#[derive(Debug, Clone)]
pub struct SeatData {
    /// Bitset of input capabilities the seat offers.
    pub capabilities: u32,
    /// The seat's name.
    pub name: String,
}

/// An event of the seat global, as received from the server.
#[derive(Debug, Clone)]
pub enum SeatEvent {
    /// The full, self-contained capability bitset.
    Capabilities { capabilities: u32 },
    /// The seat's name.
    Name { name: String },
}

impl SeatData {
    /// Fresh metadata: no capabilities, empty name.
    pub fn new() -> (r: Self)
        ensures
            r.capabilities == 0u32,
            r.name@ == Seq::<char>::empty(),
    {
        SeatData { capabilities: 0, name: String::new() }
    }

    /// Feeds one seat event into the accumulator. Each event replaces the
    /// field it carries and leaves the other untouched.
    pub fn apply_event(&mut self, e: SeatEvent)
        ensures
            e matches SeatEvent::Capabilities { capabilities } ==> final(self).capabilities
                == capabilities && final(self).name@ == old(self).name@,
            e matches SeatEvent::Name { name } ==> final(self).name@ == name@
                && final(self).capabilities == old(self).capabilities,
    {
        match e {
            SeatEvent::Capabilities { capabilities } => {
                self.capabilities = capabilities;
            },
            SeatEvent::Name { name } => {
                self.name = name;
            },
        }
    }

    /// Whether the seat offers every capability of the given mask.
    pub fn has_capability(&self, mask: u32) -> (r: bool)
        ensures
            r == (self.capabilities & mask == mask),
    {
        self.capabilities & mask == mask
    }
}

/// Manager of the seat globals. This layer accepts a single seat;
/// additional advertisements are ignored — a documented limitation, not a
/// full multi-seat model.
#[derive(Debug, Clone)]
pub struct WlSeatManager {
    /// The one tracked seat, once a seat global was accepted.
    pub seat: Option<SeatData>,
}

impl WlSeatManager {
    /// A manager with no seat accepted yet.
    pub fn new() -> (r: Self)
        ensures
            r.seat is None,
    {
        WlSeatManager { seat: None }
    }

    /// Accepts the first advertised seat and ignores the rest. Returns
    /// whether the advertisement was accepted.
    pub fn new_global(&mut self) -> (r: bool)
        ensures
            old(self).seat is None ==> r && (final(self).seat matches Some(s)
                && s.capabilities == 0u32 && s.name@ == Seq::<char>::empty()),
            old(self).seat is Some ==> !r && *final(self) == *old(self),
    {
        match self.seat {
            None => {
                self.seat = Some(SeatData::new());
                true
            },
            Some(_) => false,
        }
    }

    /// Feeds one seat event into the tracked seat, if one was accepted;
    /// events of ignored seats are discarded.
    pub fn apply_event(&mut self, e: SeatEvent) -> (r: Result<(), ClientError>)
        ensures
            old(self).seat is None ==> r == Err::<(), ClientError>(
                ClientError::ProtocolViolation,
            ) && *final(self) == *old(self),
            old(self).seat is Some ==> r == Ok::<(), ClientError>(()),
            old(self).seat matches Some(s) ==> (match e {
                SeatEvent::Capabilities { capabilities } => final(self).seat matches Some(s2)
                    && s2.capabilities == capabilities && s2.name@ == s.name@,
                SeatEvent::Name { name } => final(self).seat matches Some(s2) && s2.name@ == name@
                    && s2.capabilities == s.capabilities,
            }),
    {
        match &mut self.seat {
            None => Err(ClientError::ProtocolViolation),
            Some(s) => {
                s.apply_event(e);
                Ok(())
            },
        }
    }
}

} // verus!
