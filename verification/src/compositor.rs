//! The surface factory: creates base drawable wire-surfaces from the
//! compositor global.

use vstd::prelude::*;

use crate::error::ClientError;

verus! {

/// Manager of the compositor global.
#[derive(Debug, Clone, Copy, Eq, PartialEq, Structural)]
pub struct WlCompositorManager {
    /// Whether the compositor global has been bound.
    pub bound: bool,
    /// Handle for the next base surface; handles are never reused.
    pub next_surface: u64,
}

impl WlCompositorManager {
    /// A manager with no global bound yet.
    pub fn new() -> (r: Self)
        ensures
            r == (WlCompositorManager { bound: false, next_surface: 0u64 }),
    {
        WlCompositorManager { bound: false, next_surface: 0 }
    }

    /// Records that the compositor global was bound. A second advertisement
    /// of this singleton is a protocol violation and leaves the first
    /// binding untouched.
    pub fn new_global(&mut self) -> (r: Result<(), ClientError>)
        ensures
            old(self).bound ==> r == Err::<(), ClientError>(ClientError::ProtocolViolation)
                && *final(self) == *old(self),
            !old(self).bound ==> r == Ok::<(), ClientError>(()) && *final(self)
                == (WlCompositorManager { bound: true, ..*old(self) }),
    {
        if self.bound {
            Err(ClientError::ProtocolViolation)
        } else {
            self.bound = true;
            Ok(())
        }
    }

    /// Creates a base wire-surface, returning its handle. Fails with
    /// `UnsupportedVersion` while the compositor global is not bound: the
    /// server offered no usable compositor.
    pub fn create_surface(&mut self) -> (r: Result<u64, ClientError>)
        requires
            old(self).next_surface < u64::MAX,
        ensures
            !old(self).bound ==> r == Err::<u64, ClientError>(ClientError::UnsupportedVersion)
                && *final(self) == *old(self),
            old(self).bound ==> r == Ok::<u64, ClientError>(old(self).next_surface) && *final(self)
                == (WlCompositorManager {
                next_surface: (old(self).next_surface + 1) as u64,
                ..*old(self)
            }),
    {
        if !self.bound {
            return Err(ClientError::UnsupportedVersion);
        }
        let id = self.next_surface;
        self.next_surface = self.next_surface + 1;
        Ok(id)
    }
}

impl Default for WlCompositorManager {
    fn default() -> (r: Self)
        ensures
            r == (WlCompositorManager { bound: false, next_surface: 0u64 }),
    {
        WlCompositorManager::new()
    }
}

} // verus!
