//! The layered-surface controller: the protocol state machine that binds a
//! base drawable surface to an on-screen layer and governs buffer attach and
//! commit against server configuration acknowledgements.
//!
//! The controller never touches the connection itself: each operation
//! returns the wire requests it demands, in order, and the caller performs
//! them. The hard sequencing rule of the protocol is enforced here: a
//! buffer attach must never reach the wire before the surface's first
//! configure event has been acknowledged.

use vstd::prelude::*;

use crate::area::{Origin, Size};
use crate::error::ClientError;

verus! {

/// A client-to-server request that an operation of the controller demands.
/// The caller that owns the connection performs them in order.
#[derive(Debug, Clone, Copy, Eq, PartialEq, Structural)]
pub enum Request {
    /// Acknowledge the configure event that carried this serial.
    AckConfigure { serial: u32 },
    /// Attach the shared-memory buffer with this handle to the surface,
    /// placed at (x, y).
    Attach { buffer: u64, x: i32, y: i32 },
    /// Record the desired size of the layered surface; it takes effect on
    /// the next commit.
    SetSize { width: u32, height: u32 },
    /// Atomically apply all pending (double-buffered) surface state.
    Commit,
}

/// Where a layered surface stands relative to the server's configuration
/// cycle.
#[derive(Debug, Clone, Copy, Eq, PartialEq, Structural)]
pub enum SurfaceStatus {
    /// No configure event has been received yet: attaches must be deferred.
    Unconfigured,
    /// The last configure event carried this serial and was acknowledged.
    Configured { serial: u32 },
    /// The server closed the surface: terminal; every later operation is
    /// rejected with a stable error.
    Closed,
}

/// A buffer attachment that was requested while the surface was still
/// unconfigured, held back until the first configure event.
#[derive(Debug, Clone, Copy, Eq, PartialEq, Structural)]
pub struct PendingBuffer {
    /// Handle of the shared-memory buffer to attach.
    pub buffer: u64,
    /// Where the buffer is to be placed.
    pub origin: Origin,
}

/// An event or operation fed to the controller, as the spec-level model
/// sees it.
#[derive(Debug, Clone, Copy, Eq, PartialEq, Structural)]
pub enum LayerEvent {
    /// The server proposed a configuration carrying this serial.
    Configure { serial: u32, width: u32, height: u32 },
    /// The owner wants this buffer attached at this origin.
    SetBuffer { buffer: u64, origin: Origin },
    /// The owner wants the surface resized.
    SetSize { size: Size },
    /// The owner wants pending state applied.
    Commit,
    /// The server closed the surface.
    Closed,
}

/// The layered-surface controller. One per drawable entity.
#[derive(Debug, Clone, Copy, Eq, PartialEq, Structural)]
pub struct LayerSurface {
    /// Handle of the underlying base wire-surface that buffers are
    /// attached to.
    pub wl_surface: u64,
    /// Position in the configure cycle.
    pub status: SurfaceStatus,
    /// The deferred attachment, if one was requested before the first
    /// configure event.
    pub pending: Option<PendingBuffer>,
}

/// A controller is well formed when a deferred attachment exists only
/// while the surface still awaits its first configuration.
pub open spec fn wf(s: LayerSurface) -> bool {
    !(s.status is Unconfigured) ==> s.pending is None
}

/// The transition function of the controller: from a state and an event to
/// the next state, the wire requests that must be performed in order, and
/// whether the event was accepted.
pub open spec fn layer_step(s: LayerSurface, e: LayerEvent) -> (LayerSurface, Seq<Request>, Result<
    (),
    ClientError,
>) {
    if s.status is Closed {
        (s, Seq::<Request>::empty(), Err(ClientError::UnimplementedFeature))
    } else {
        match e {
            LayerEvent::Configure { serial, width, height } => {
                let next = LayerSurface {
                    status: SurfaceStatus::Configured { serial },
                    pending: None,
                    ..s
                };
                match s.pending {
                    Some(p) => (
                        next,
                        seq![
                            Request::AckConfigure { serial },
                            Request::Attach { buffer: p.buffer, x: p.origin.x, y: p.origin.y },
                            Request::Commit,
                        ],
                        Ok(()),
                    ),
                    None => (next, seq![Request::AckConfigure { serial }], Ok(())),
                }
            },
            LayerEvent::SetBuffer { buffer, origin } => {
                if s.status is Unconfigured {
                    (
                        LayerSurface { pending: Some(PendingBuffer { buffer, origin }), ..s },
                        Seq::<Request>::empty(),
                        Ok(()),
                    )
                } else {
                    (
                        LayerSurface { pending: None, ..s },
                        seq![Request::Attach { buffer, x: origin.x, y: origin.y }],
                        Ok(()),
                    )
                }
            },
            LayerEvent::SetSize { size } => (
                s,
                seq![Request::SetSize { width: size.width, height: size.height }],
                Ok(()),
            ),
            LayerEvent::Commit => (s, seq![Request::Commit], Ok(())),
            LayerEvent::Closed => (
                LayerSurface { status: SurfaceStatus::Closed, pending: None, ..s },
                Seq::<Request>::empty(),
                Ok(()),
            ),
        }
    }
}

/// Folds `layer_step` over a whole event sequence, concatenating the wire
/// requests each event produced.
pub open spec fn layer_run(s: LayerSurface, es: Seq<LayerEvent>) -> (LayerSurface, Seq<Request>)
    decreases es.len(),
{
    if es.len() == 0 {
        (s, Seq::<Request>::empty())
    } else {
        let step = layer_step(s, es[0]);
        let rest = layer_run(step.0, es.drop_first());
        (rest.0, step.1 + rest.1)
    }
}

/// The deferred attachment an event would record, if it is a `SetBuffer`.
pub open spec fn set_buffer_event(e: LayerEvent) -> Option<PendingBuffer> {
    match e {
        LayerEvent::SetBuffer { buffer, origin } => Some(PendingBuffer { buffer, origin }),
        _ => None,
    }
}

impl LayerSurface {
    /// Creates the controller for a freshly created layered surface.
    ///
    /// The server will not emit its first configuration until after a first
    /// commit — a hard protocol sequencing rule — so creation demands an
    /// immediate initial commit.
    pub fn new(wl_surface: u64) -> (r: (LayerSurface, Vec<Request>))
        ensures
            r.0 == (LayerSurface {
                wl_surface,
                status: SurfaceStatus::Unconfigured,
                pending: None,
            }),
            r.1@ == seq![Request::Commit],
            wf(r.0),
    {
        let s = LayerSurface { wl_surface, status: SurfaceStatus::Unconfigured, pending: None };
        let mut reqs: Vec<Request> = Vec::new();
        reqs.push(Request::Commit);
        proof {
            assert(reqs@ =~= seq![Request::Commit]);
        }
        (s, reqs)
    }

    /// The server proposed a configuration: acknowledge its serial at once
    /// — failing to do so stalls all later configuration — and, if an
    /// attachment was deferred while unconfigured, attach it now and
    /// commit.
    pub fn handle_configure(&mut self, serial: u32, width: u32, height: u32) -> (r: Result<
        Vec<Request>,
        ClientError,
    >)
        ensures
            *final(self) == layer_step(
                *old(self),
                LayerEvent::Configure { serial, width, height },
            ).0,
            r matches Ok(reqs) ==> reqs@ == layer_step(
                *old(self),
                LayerEvent::Configure { serial, width, height },
            ).1,
            r is Ok <==> layer_step(
                *old(self),
                LayerEvent::Configure { serial, width, height },
            ).2 is Ok,
            r matches Err(e) ==> Err::<(), ClientError>(e) == layer_step(
                *old(self),
                LayerEvent::Configure { serial, width, height },
            ).2,
            wf(*old(self)) ==> wf(*final(self)),
    {
        match self.status {
            SurfaceStatus::Closed => Err(ClientError::UnimplementedFeature),
            _ => {
                let mut reqs: Vec<Request> = Vec::new();
                reqs.push(Request::AckConfigure { serial });
                self.status = SurfaceStatus::Configured { serial };
                match self.pending {
                    Some(p) => {
                        self.pending = None;
                        reqs.push(
                            Request::Attach { buffer: p.buffer, x: p.origin.x, y: p.origin.y },
                        );
                        reqs.push(Request::Commit);
                        proof {
                            assert(reqs@ =~= layer_step(
                                *old(self),
                                LayerEvent::Configure { serial, width, height },
                            ).1);
                        }
                    },
                    None => {
                        proof {
                            assert(reqs@ =~= layer_step(
                                *old(self),
                                LayerEvent::Configure { serial, width, height },
                            ).1);
                        }
                    },
                }
                Ok(reqs)
            },
        }
    }

    /// Requests that a buffer be shown on the surface.
    ///
    /// Once configured the attach goes out immediately; while unconfigured
    /// it is deferred — sending it would be a protocol violation — and
    /// replaces any attachment deferred earlier. The boolean of a
    /// successful result reports such a replacement, a potential resource
    /// leak the caller should log.
    pub fn set_buffer(&mut self, buffer: u64, origin: Origin) -> (r: Result<
        (Vec<Request>, bool),
        ClientError,
    >)
        ensures
            *final(self) == layer_step(*old(self), LayerEvent::SetBuffer { buffer, origin }).0,
            r matches Ok(ok) ==> ok.0@ == layer_step(
                *old(self),
                LayerEvent::SetBuffer { buffer, origin },
            ).1,
            r matches Ok(ok) ==> (ok.1 <==> old(self).pending is Some),
            r is Ok <==> layer_step(*old(self), LayerEvent::SetBuffer { buffer, origin }).2 is Ok,
            r matches Err(e) ==> Err::<(), ClientError>(e) == layer_step(
                *old(self),
                LayerEvent::SetBuffer { buffer, origin },
            ).2,
            wf(*old(self)) ==> wf(*final(self)),
    {
        match self.status {
            SurfaceStatus::Closed => Err(ClientError::UnimplementedFeature),
            SurfaceStatus::Unconfigured => {
                let replaced = self.pending.is_some();
                self.pending = Some(PendingBuffer { buffer, origin });
                let reqs: Vec<Request> = Vec::new();
                proof {
                    assert(reqs@ =~= layer_step(
                        *old(self),
                        LayerEvent::SetBuffer { buffer, origin },
                    ).1);
                }
                Ok((reqs, replaced))
            },
            SurfaceStatus::Configured { .. } => {
                let replaced = self.pending.is_some();
                self.pending = None;
                let mut reqs: Vec<Request> = Vec::new();
                reqs.push(Request::Attach { buffer, x: origin.x, y: origin.y });
                proof {
                    assert(reqs@ =~= layer_step(
                        *old(self),
                        LayerEvent::SetBuffer { buffer, origin },
                    ).1);
                }
                Ok((reqs, replaced))
            },
        }
    }

    /// Records the desired size on the underlying surface; it takes effect
    /// on the next commit. Zero dimensions are rejected one layer up,
    /// before reaching the controller.
    pub fn set_size(&mut self, size: Size) -> (r: Result<Vec<Request>, ClientError>)
        requires
            size.width > 0,
            size.height > 0,
        ensures
            *final(self) == layer_step(*old(self), LayerEvent::SetSize { size }).0,
            r matches Ok(reqs) ==> reqs@ == layer_step(*old(self), LayerEvent::SetSize { size }).1,
            r is Ok <==> layer_step(*old(self), LayerEvent::SetSize { size }).2 is Ok,
            r matches Err(e) ==> Err::<(), ClientError>(e) == layer_step(
                *old(self),
                LayerEvent::SetSize { size },
            ).2,
            wf(*old(self)) ==> wf(*final(self)),
    {
        match self.status {
            SurfaceStatus::Closed => Err(ClientError::UnimplementedFeature),
            _ => {
                let mut reqs: Vec<Request> = Vec::new();
                reqs.push(Request::SetSize { width: size.width, height: size.height });
                proof {
                    assert(reqs@ =~= layer_step(*old(self), LayerEvent::SetSize { size }).1);
                }
                Ok(reqs)
            },
        }
    }

    /// Flushes the surface's accumulated double-buffered state to the
    /// server. A commit with no pending change simply re-confirms the
    /// previously committed state.
    pub fn commit(&mut self) -> (r: Result<Vec<Request>, ClientError>)
        ensures
            *final(self) == layer_step(*old(self), LayerEvent::Commit).0,
            r matches Ok(reqs) ==> reqs@ == layer_step(*old(self), LayerEvent::Commit).1,
            r is Ok <==> layer_step(*old(self), LayerEvent::Commit).2 is Ok,
            r matches Err(e) ==> Err::<(), ClientError>(e) == layer_step(
                *old(self),
                LayerEvent::Commit,
            ).2,
            wf(*old(self)) ==> wf(*final(self)),
    {
        match self.status {
            SurfaceStatus::Closed => Err(ClientError::UnimplementedFeature),
            _ => {
                let mut reqs: Vec<Request> = Vec::new();
                reqs.push(Request::Commit);
                proof {
                    assert(reqs@ =~= layer_step(*old(self), LayerEvent::Commit).1);
                }
                Ok(reqs)
            },
        }
    }

    /// The server closed the surface: enter the terminal state. Every
    /// later operation is rejected with a stable error instead of
    /// aborting.
    pub fn handle_closed(&mut self) -> (r: Result<Vec<Request>, ClientError>)
        ensures
            *final(self) == layer_step(*old(self), LayerEvent::Closed).0,
            r matches Ok(reqs) ==> reqs@ == layer_step(*old(self), LayerEvent::Closed).1,
            r is Ok <==> layer_step(*old(self), LayerEvent::Closed).2 is Ok,
            r matches Err(e) ==> Err::<(), ClientError>(e) == layer_step(
                *old(self),
                LayerEvent::Closed,
            ).2,
            wf(*old(self)) ==> wf(*final(self)),
    {
        match self.status {
            SurfaceStatus::Closed => Err(ClientError::UnimplementedFeature),
            _ => {
                self.status = SurfaceStatus::Closed;
                self.pending = None;
                let reqs: Vec<Request> = Vec::new();
                proof {
                    assert(reqs@ =~= layer_step(*old(self), LayerEvent::Closed).1);
                }
                Ok(reqs)
            },
        }
    }

    /// Position in the configure cycle.
    pub fn status(&self) -> (r: SurfaceStatus)
        ensures
            r == self.status,
    {
        self.status
    }

    /// The deferred attachment, if any.
    pub fn pending(&self) -> (r: Option<PendingBuffer>)
        ensures
            r == self.pending,
    {
        self.pending
    }
}

/// Manager of the layered-surface shell global: binds surfaces to an
/// on-screen layer.
#[derive(Debug, Clone, Copy, Eq, PartialEq, Structural)]
pub struct LayerShellManager {
    /// Whether the layered-surface shell global has been bound.
    pub bound: bool,
}

impl LayerShellManager {
    /// A manager with no global bound yet.
    pub fn new() -> (r: Self)
        ensures
            r == (LayerShellManager { bound: false }),
    {
        LayerShellManager { bound: false }
    }

    /// Records that the shell global was bound. A second advertisement of
    /// this singleton is a protocol violation and leaves the first binding
    /// untouched.
    pub fn new_global(&mut self) -> (r: Result<(), ClientError>)
        ensures
            old(self).bound ==> r == Err::<(), ClientError>(ClientError::ProtocolViolation)
                && *final(self) == *old(self),
            !old(self).bound ==> r == Ok::<(), ClientError>(()) && *final(self)
                == (LayerShellManager { bound: true }),
    {
        if self.bound {
            Err(ClientError::ProtocolViolation)
        } else {
            self.bound = true;
            Ok(())
        }
    }

    /// Binds the given base surface to an on-screen layer, yielding its
    /// controller and the initial commit the protocol demands. Fails with
    /// `UnsupportedVersion` while the shell global is not bound: the server
    /// offered no layered-surface support.
    pub fn create_layer_surface(&self, wl_surface: u64) -> (r: Result<
        (LayerSurface, Vec<Request>),
        ClientError,
    >)
        ensures
            r is Ok <==> self.bound,
            !self.bound ==> r == Err::<(LayerSurface, Vec<Request>), ClientError>(
                ClientError::UnsupportedVersion,
            ),
            r matches Ok(ok) ==> ok.0 == (LayerSurface {
                wl_surface,
                status: SurfaceStatus::Unconfigured,
                pending: None,
            }) && ok.1@ == seq![Request::Commit],
    {
        if !self.bound {
            return Err(ClientError::UnsupportedVersion);
        }
        Ok(LayerSurface::new(wl_surface))
    }
}

/// Every step of the controller preserves well-formedness.
pub proof fn lemma_step_preserves_wf(s: LayerSurface, e: LayerEvent)
    requires
        wf(s),
    ensures
        wf(layer_step(s, e).0),
{
}

/// While a surface has not yet been configured, nothing the controller is
/// asked to do puts an attach request on the wire: a `SetBuffer` issued
/// while unconfigured stays off the wire until a configure event arrives.
pub proof fn lemma_no_attach_before_configure(s: LayerSurface, es: Seq<LayerEvent>)
    requires
        !(s.status is Configured),
        forall|i: int| 0 <= i < es.len() ==> !(#[trigger] es[i] is Configure),
    ensures
        forall|j: int|
            0 <= j < layer_run(s, es).1.len() ==> !(#[trigger] layer_run(s, es).1[j] is Attach),
    decreases es.len(),
{
    if es.len() > 0 {
        let step = layer_step(s, es[0]);
        assert(forall|i: int| 0 <= i < es.drop_first().len() ==> !(#[trigger] es.drop_first()[i]
            is Configure)) by {
            assert(forall|i: int|
                0 <= i < es.drop_first().len() ==> es.drop_first()[i] == es[i + 1]);
        }
        lemma_no_attach_before_configure(step.0, es.drop_first());
        assert(forall|j: int| 0 <= j < step.1.len() ==> !(#[trigger] step.1[j] is Attach));
    }
}

/// The deferred attachment that a run of events leaves behind: each
/// `SetBuffer` replaces it, every other event keeps it.
pub open spec fn latest_set_buffer(p: Option<PendingBuffer>, es: Seq<LayerEvent>) -> Option<
    PendingBuffer,
>
    decreases es.len(),
{
    if es.len() == 0 {
        p
    } else {
        let p2 = if es[0] is SetBuffer {
            set_buffer_event(es[0])
        } else {
            p
        };
        latest_set_buffer(p2, es.drop_first())
    }
}

/// Deferred attachments accumulate by replacement: as long as a surface
/// stays unconfigured — whatever sizes are set and commits are made in
/// between — exactly the most recently set buffer is pending, and earlier
/// ones are gone without ever reaching the wire.
pub proof fn lemma_pending_is_latest(s: LayerSurface, es: Seq<LayerEvent>)
    requires
        s.status is Unconfigured,
        forall|i: int|
            0 <= i < es.len() ==> !((#[trigger] es[i]) is Configure) && !(es[i] is Closed),
    ensures
        layer_run(s, es).0.status == s.status,
        layer_run(s, es).0.pending == latest_set_buffer(s.pending, es),
        forall|j: int|
            0 <= j < layer_run(s, es).1.len() ==> !(#[trigger] layer_run(s, es).1[j] is Attach),
    decreases es.len(),
{
    lemma_no_attach_before_configure(s, es);
    if es.len() > 0 {
        let step = layer_step(s, es[0]);
        assert(forall|i: int|
            0 <= i < es.drop_first().len() ==> !((#[trigger] es.drop_first()[i]) is Configure) && !(
            es.drop_first()[i] is Closed)) by {
            assert(forall|i: int|
                0 <= i < es.drop_first().len() ==> es.drop_first()[i] == es[i + 1]);
        }
        lemma_pending_is_latest(step.0, es.drop_first());
    }
}

/// The protocol's deferred-attach guarantee, end to end: any nonempty run
/// of `SetBuffer` events on an unconfigured surface followed by the first
/// configure event produces exactly three wire requests — the
/// acknowledgement carrying the serial that was received, the attach of
/// the most recently set buffer, and a commit — and nothing earlier.
pub proof fn lemma_deferred_attach(
    s: LayerSurface,
    sets: Seq<LayerEvent>,
    serial: u32,
    width: u32,
    height: u32,
)
    requires
        s.status is Unconfigured,
        sets.len() > 0,
        forall|i: int| 0 <= i < sets.len() ==> (#[trigger] sets[i]) is SetBuffer,
    ensures
        ({
            let run = layer_run(
                s,
                sets.push(LayerEvent::Configure { serial, width, height }),
            );
            let latest = set_buffer_event(sets.last()).unwrap();
            run.1 == seq![
                Request::AckConfigure { serial },
                Request::Attach { buffer: latest.buffer, x: latest.origin.x, y: latest.origin.y },
                Request::Commit,
            ] && run.0 == (LayerSurface {
                wl_surface: s.wl_surface,
                status: SurfaceStatus::Configured { serial },
                pending: None,
            })
        }),
    decreases sets.len(),
{
    let all = sets.push(LayerEvent::Configure { serial, width, height });
    let step = layer_step(s, all[0]);
    if sets.len() == 1 {
        let latest = set_buffer_event(sets.last()).unwrap();
        assert(all[0] == sets[0]);
        assert(step.0.pending == set_buffer_event(sets[0]));
        assert(all.drop_first() =~= seq![LayerEvent::Configure { serial, width, height }]);
        let cfg = layer_step(step.0, LayerEvent::Configure { serial, width, height });
        let tail = all.drop_first();
        assert(tail.drop_first() =~= Seq::<LayerEvent>::empty());
        assert(layer_run(cfg.0, tail.drop_first()).1 =~= Seq::<Request>::empty());
        assert(layer_run(step.0, tail).1 =~= cfg.1 + layer_run(cfg.0, tail.drop_first()).1);
        assert(layer_run(step.0, all.drop_first()).1 =~= cfg.1);
        assert(layer_run(s, all).1 =~= step.1 + layer_run(step.0, all.drop_first()).1);
        assert(layer_run(s, all).1 =~= seq![
            Request::AckConfigure { serial },
            Request::Attach { buffer: latest.buffer, x: latest.origin.x, y: latest.origin.y },
            Request::Commit,
        ]);
    } else {
        assert(all[0] == sets[0]);
        assert(all.drop_first() =~= sets.drop_first().push(
            LayerEvent::Configure { serial, width, height },
        ));
        assert(forall|i: int|
            0 <= i < sets.drop_first().len() ==> (#[trigger] sets.drop_first()[i]) is SetBuffer)
            by {
            assert(forall|i: int|
                0 <= i < sets.drop_first().len() ==> sets.drop_first()[i] == sets[i + 1]);
        }
        lemma_deferred_attach(step.0, sets.drop_first(), serial, width, height);
        assert(sets.drop_first().last() == sets.last());
        assert(layer_run(s, all).1 =~= layer_run(step.0, all.drop_first()).1);
    }
}

} // verus!
