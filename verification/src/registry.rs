//! The global registry: routes server-advertised globals to per-interface
//! managers, negotiating versions and enforcing that each singleton
//! interface is bound exactly once for the process lifetime.

use vstd::prelude::*;
use vstd::string::StringExecFns;

use crate::area::Size;
use crate::compositor::WlCompositorManager;
use crate::error::ClientError;
use crate::layer::{LayerShellManager, LayerSurface, Request};
use crate::output::WlOutputManager;
use crate::seat::WlSeatManager;
use crate::shm::{Buffer, WlShmManager};

verus! {

/// The protocol interfaces this layer knows how to bind.
#[derive(Debug, Clone, Copy, Eq, PartialEq, Structural)]
pub enum Interface {
    /// The compositor global, source of base surfaces.
    Compositor,
    /// A display output description.
    Output,
    /// An input seat.
    Seat,
    /// The shared-memory global.
    Shm,
    /// The layered-surface shell extension.
    LayerShell,
}

/// The minimum accepted version of the compositor global.
pub const WL_COMPOSITOR_VERSION: u32 = 3;

/// The minimum accepted version of the output global.
pub const WL_OUTPUT_VERSION: u32 = 2;

/// The minimum accepted version of the seat global.
pub const WL_SEAT_VERSION: u32 = 1;

/// The minimum accepted version of the shared-memory global.
pub const WL_SHM_VERSION: u32 = 1;

/// The minimum accepted version of the layered-surface shell global.
pub const WLR_LAYER_SHELL_VERSION: u32 = 1;

/// The minimum version of each interface this layer accepts binding to.
pub open spec fn min_version(i: Interface) -> u32 {
    match i {
        Interface::Compositor => WL_COMPOSITOR_VERSION,
        Interface::Output => WL_OUTPUT_VERSION,
        Interface::Seat => WL_SEAT_VERSION,
        Interface::Shm => WL_SHM_VERSION,
        Interface::LayerShell => WLR_LAYER_SHELL_VERSION,
    }
}

/// Whether an interface is a singleton: one instance per process lifetime;
/// a correctly behaving server never advertises these twice.
pub open spec fn is_singleton(i: Interface) -> bool {
    match i {
        Interface::Compositor => true,
        Interface::Output => false,
        Interface::Seat => false,
        Interface::Shm => true,
        Interface::LayerShell => true,
    }
}

/// The interface a wire name denotes, if this layer recognizes it.
pub open spec fn spec_lookup(name: Seq<char>) -> Option<Interface> {
    if name == "wl_compositor"@ {
        Some(Interface::Compositor)
    } else if name == "wl_output"@ {
        Some(Interface::Output)
    } else if name == "wl_seat"@ {
        Some(Interface::Seat)
    } else if name == "wl_shm"@ {
        Some(Interface::Shm)
    } else if name == "zwlr_layer_shell_v1"@ {
        Some(Interface::LayerShell)
    } else {
        None
    }
}

/// Looks an advertised interface name up in the binding table.
pub fn lookup_interface(name: &String) -> (r: Option<Interface>)
    ensures
        r == spec_lookup(name@),
{
    if *name == String::from_str("wl_compositor") {
        Some(Interface::Compositor)
    } else if *name == String::from_str("wl_output") {
        Some(Interface::Output)
    } else if *name == String::from_str("wl_seat") {
        Some(Interface::Seat)
    } else if *name == String::from_str("wl_shm") {
        Some(Interface::Shm)
    } else if *name == String::from_str("zwlr_layer_shell_v1") {
        Some(Interface::LayerShell)
    } else {
        None
    }
}

/// The minimum accepted version of an interface, as executable code.
pub fn min_version_of(i: Interface) -> (r: u32)
    ensures
        r == min_version(i),
{
    match i {
        Interface::Compositor => WL_COMPOSITOR_VERSION,
        Interface::Output => WL_OUTPUT_VERSION,
        Interface::Seat => WL_SEAT_VERSION,
        Interface::Shm => WL_SHM_VERSION,
        Interface::LayerShell => WLR_LAYER_SHELL_VERSION,
    }
}

/// What the registry decided about one advertisement.
#[derive(Debug, Clone, Copy, Eq, PartialEq, Structural)]
pub enum BindOutcome {
    /// The advertisement was accepted: the caller must bind the global on
    /// the wire and route its events to the named manager.
    Bound(Interface),
    /// A further output or seat beyond the one this layer tracks: logged
    /// and ignored, never bound.
    Ignored(Interface),
    /// An interface name this layer does not recognize: silently skipped.
    Unknown,
}

/// Owns every per-interface manager and the decisions of the dispatch
/// loop. The connection itself stays with the caller, which performs the
/// requests these decisions demand.
#[derive(Debug, Clone)]
pub struct WaylandManager {
    /// The compositor manager.
    pub compositor_manager: WlCompositorManager,
    /// The output manager.
    pub output_manager: WlOutputManager,
    /// The seat manager.
    pub seat_manager: WlSeatManager,
    /// The layered-surface shell manager.
    pub shell_manager: LayerShellManager,
    /// The shared-memory manager.
    pub shm_manager: WlShmManager,
}

/// Whether the manager of an interface has accepted an instance.
pub open spec fn bound(m: WaylandManager, i: Interface) -> bool {
    match i {
        Interface::Compositor => m.compositor_manager.bound,
        Interface::Output => m.output_manager.output is Some,
        Interface::Seat => m.seat_manager.seat is Some,
        Interface::Shm => m.shm_manager.bound,
        Interface::LayerShell => m.shell_manager.bound,
    }
}

/// The decision the registry takes on one recognized advertisement, given
/// whether the interface is already bound.
pub open spec fn bind_decision(
    i: Interface,
    already_bound: bool,
    version: u32,
) -> Result<BindOutcome, ClientError> {
    if version < min_version(i) {
        Err(ClientError::UnsupportedVersion)
    } else if already_bound && is_singleton(i) {
        Err(ClientError::ProtocolViolation)
    } else if already_bound {
        Ok(BindOutcome::Ignored(i))
    } else {
        Ok(BindOutcome::Bound(i))
    }
}

impl WaylandManager {
    /// A manager set with nothing bound yet.
    pub fn new() -> (r: Self)
        ensures
            forall|i: Interface| !(#[trigger] bound(r, i)),
            r.compositor_manager == (WlCompositorManager { bound: false, next_surface: 0u64 }),
            r.shm_manager == (WlShmManager { bound: false, next_buffer: 0u64 }),
            r.shell_manager == (LayerShellManager { bound: false }),
    {
        WaylandManager {
            compositor_manager: WlCompositorManager::new(),
            output_manager: WlOutputManager::new(),
            seat_manager: WlSeatManager::new(),
            shell_manager: LayerShellManager::new(),
            shm_manager: WlShmManager::new(),
        }
    }

    /// Handles one global advertisement: looks the interface name up in
    /// the binding table, rejects versions below the accepted minimum,
    /// refuses a second instance of a singleton as a protocol violation —
    /// with no effect on the first binding — and ignores outputs and seats
    /// beyond the one this layer tracks. Unrecognized names are silently
    /// skipped.
    pub fn new_global(&mut self, interface: &String, version: u32) -> (r: Result<
        BindOutcome,
        ClientError,
    >)
        ensures
            spec_lookup(interface@) is None ==> r == Ok::<BindOutcome, ClientError>(
                BindOutcome::Unknown,
            ) && *final(self) == *old(self),
            spec_lookup(interface@) matches Some(i) ==> r == bind_decision(
                i,
                bound(*old(self), i),
                version,
            ),
            r is Err ==> *final(self) == *old(self),
            spec_lookup(interface@) matches Some(i) ==> (r == Ok::<BindOutcome, ClientError>(
                BindOutcome::Ignored(i),
            ) ==> *final(self) == *old(self)),
            spec_lookup(interface@) matches Some(i) ==> (r == Ok::<BindOutcome, ClientError>(
                BindOutcome::Bound(i),
            ) ==> bound(*final(self), i) && unchanged_except(*old(self), *final(self), i)
                && newly_bound(*old(self), *final(self), i)),
    {
        let looked_up = lookup_interface(interface);
        match looked_up {
            None => Ok(BindOutcome::Unknown),
            Some(i) => {
                if version < min_version_of(i) {
                    return Err(ClientError::UnsupportedVersion);
                }
                match i {
                    Interface::Compositor => {
                        self.compositor_manager.new_global()?;
                        Ok(BindOutcome::Bound(i))
                    },
                    Interface::Shm => {
                        self.shm_manager.new_global()?;
                        Ok(BindOutcome::Bound(i))
                    },
                    Interface::LayerShell => {
                        self.shell_manager.new_global()?;
                        Ok(BindOutcome::Bound(i))
                    },
                    Interface::Output => {
                        if self.output_manager.new_global() {
                            Ok(BindOutcome::Bound(i))
                        } else {
                            Ok(BindOutcome::Ignored(i))
                        }
                    },
                    Interface::Seat => {
                        if self.seat_manager.new_global() {
                            Ok(BindOutcome::Bound(i))
                        } else {
                            Ok(BindOutcome::Ignored(i))
                        }
                    },
                }
            },
        }
    }

    /// Creates a shared-memory buffer of the given size; see the
    /// shared-memory manager for the contract it forwards to.
    pub fn create_buffer(&mut self, size: Size) -> (r: Result<Buffer, ClientError>)
        requires
            size.width > 0,
            size.height > 0,
            old(self).shm_manager.next_buffer < u64::MAX,
        ensures
            final(self).compositor_manager == old(self).compositor_manager,
            final(self).shell_manager == old(self).shell_manager,
            final(self).output_manager == old(self).output_manager,
            final(self).seat_manager == old(self).seat_manager,
            r is Ok <==> old(self).shm_manager.bound && crate::shm::buffer_byte_len(size)
                <= crate::shm::MAX_POOL_BYTES,
            r matches Ok(b) ==> {
                &&& b.id == old(self).shm_manager.next_buffer
                &&& b.width == size.width
                &&& b.height == size.height
                &&& crate::shm::buffer_wf(b)
                &&& b.bytes@ == Seq::new(crate::shm::buffer_byte_len(size) as nat, |i: int| 0u8)
            },
            r is Err ==> *final(self) == *old(self),
            !old(self).shm_manager.bound ==> r == Err::<Buffer, ClientError>(
                ClientError::UnsupportedVersion,
            ),
    {
        self.shm_manager.create_buffer(size)
    }

    /// Creates a base surface and binds it to an on-screen layer: the
    /// returned controller governs it, and the returned requests — the
    /// initial commit the protocol demands — must go on the wire at once.
    /// Fails with `UnsupportedVersion` when the compositor or the shell
    /// global is missing.
    pub fn create_layer_surface(&mut self) -> (r: Result<(LayerSurface, Vec<Request>), ClientError>)
        requires
            old(self).compositor_manager.next_surface < u64::MAX,
        ensures
            final(self).shm_manager == old(self).shm_manager,
            final(self).shell_manager == old(self).shell_manager,
            final(self).output_manager == old(self).output_manager,
            final(self).seat_manager == old(self).seat_manager,
            r is Ok <==> old(self).compositor_manager.bound && old(self).shell_manager.bound,
            !(old(self).compositor_manager.bound && old(self).shell_manager.bound) ==> r == Err::<
                (LayerSurface, Vec<Request>),
                ClientError,
            >(ClientError::UnsupportedVersion) && *final(self) == *old(self),
            r matches Ok(ok) ==> ok.0 == (LayerSurface {
                wl_surface: old(self).compositor_manager.next_surface,
                status: crate::layer::SurfaceStatus::Unconfigured,
                pending: None,
            }) && ok.1@ == seq![Request::Commit] && final(self).compositor_manager
                == (WlCompositorManager {
                next_surface: (old(self).compositor_manager.next_surface + 1) as u64,
                ..old(self).compositor_manager
            }),
    {
        if !self.shell_manager.bound {
            return Err(ClientError::UnsupportedVersion);
        }
        let wl_surface = self.compositor_manager.create_surface()?;
        self.shell_manager.create_layer_surface(wl_surface)
    }
}

/// What accepting an advertisement does to the manager of its interface:
/// the singletons record the binding and keep their counters; an output or
/// a seat gets a fresh tracker.
pub open spec fn newly_bound(m1: WaylandManager, m2: WaylandManager, i: Interface) -> bool {
    match i {
        Interface::Compositor => m2.compositor_manager == (WlCompositorManager {
            bound: true,
            ..m1.compositor_manager
        }),
        Interface::Output => m2.output_manager.output matches Some(t) && t@
            == crate::output::OutputTracker::new_model(),
        Interface::Seat => m2.seat_manager.seat matches Some(s) && s.capabilities == 0u32
            && s.name@ == Seq::<char>::empty(),
        Interface::Shm => m2.shm_manager == (WlShmManager { bound: true, ..m1.shm_manager }),
        Interface::LayerShell => m2.shell_manager == (LayerShellManager { bound: true }),
    }
}

/// Every manager except the one owning the given interface is unchanged.
pub open spec fn unchanged_except(m1: WaylandManager, m2: WaylandManager, i: Interface) -> bool {
    &&& !(i is Compositor) ==> m2.compositor_manager == m1.compositor_manager
    &&& !(i is Output) ==> m2.output_manager == m1.output_manager
    &&& !(i is Seat) ==> m2.seat_manager == m1.seat_manager
    &&& !(i is Shm) ==> m2.shm_manager == m1.shm_manager
    &&& !(i is LayerShell) ==> m2.shell_manager == m1.shell_manager
}

/// Binding a singleton interface twice is refused: whatever version the
/// second advertisement carries — at or above the accepted minimum — the
/// decision on an already-bound singleton is a protocol violation, never a
/// binding.
pub proof fn lemma_singleton_rebind_rejected(i: Interface, version: u32)
    requires
        is_singleton(i),
        version >= min_version(i),
    ensures
        bind_decision(i, true, version) == Err::<BindOutcome, ClientError>(
            ClientError::ProtocolViolation,
        ),
{
}

} // verus!
