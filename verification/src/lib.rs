//! Client-side layer of a display-server protocol: global discovery and
//! version negotiation, output and seat tracking, shared-memory pixel
//! buffers, and the layered-surface configure/attach/commit state machine.
//!
//! Every decision of the protocol layer lives here as verified code. The
//! functions compute state transitions and the wire requests they demand;
//! the unverified binary around the library performs the requests on the
//! actual connection and feeds server events back in.

pub mod area;
pub mod compositor;
pub mod drawable;
pub mod drawin;
pub mod error;
pub mod layer;
pub mod output;
pub mod registry;
pub mod seat;
pub mod shm;
