//! The drawin: the on-screen entity that owns a drawable and its layered
//! surface, and drives the pixel pipeline on every refresh.

use vstd::prelude::*;

use crate::area::{Area, Margin, Size};
use crate::drawable::{drawable_updated, drawable_wf, full_signals, DrawableState, Signal};
use crate::error::ClientError;
use crate::layer::{LayerSurface, PendingBuffer, Request, SurfaceStatus};
use crate::registry::WaylandManager;
use crate::shm::{buffer_byte_len, WlShmManager, MAX_POOL_BYTES};

verus! {

/// The plain state of a drawin: visibility, geometry and struts.
#[derive(Debug, Clone, Copy, Eq, PartialEq, Structural)]
pub struct DrawinState {
    /// Whether the drawin is mapped on screen.
    pub visible: bool,
    /// Current geometry.
    pub geometry: Area,
    /// Whether a geometry change still needs to be applied to the surface.
    pub geometry_dirty: bool,
    /// Struts around the drawin; stored but deliberately not yet acted
    /// upon.
    pub struts: Margin,
}

/// The state of a fresh drawin: invisible, zero geometry, clean, no
/// struts.
pub open spec fn drawin_state_default() -> DrawinState {
    DrawinState {
        visible: false,
        geometry: Area::default_spec(),
        geometry_dirty: false,
        struts: Margin { top: 0, right: 0, bottom: 0, left: 0 },
    }
}

/// The geometry a partial update yields: the origin is taken over as
/// given; a zero width or height is ignored and the previous extent kept.
pub open spec fn merged_geometry(s: DrawinState, a: Area) -> Area {
    Area {
        origin: a.origin,
        size: Size {
            width: if a.size.width > 0 {
                a.size.width
            } else {
                s.geometry.size.width
            },
            height: if a.size.height > 0 {
                a.size.height
            } else {
                s.geometry.size.height
            },
        },
    }
}

/// The change notifications a partial geometry update emits, in emission
/// order: one per field that actually changes, and a closing `Geometry`
/// when any did. An update that changes nothing emits nothing.
pub open spec fn geometry_signals(s: DrawinState, a: Area) -> Seq<Signal> {
    let wch = a.size.width > 0 && a.size.width != s.geometry.size.width;
    let hch = a.size.height > 0 && a.size.height != s.geometry.size.height;
    let xch = a.origin.x != s.geometry.origin.x;
    let ych = a.origin.y != s.geometry.origin.y;
    (if wch {
        seq![Signal::Width]
    } else {
        Seq::<Signal>::empty()
    }) + (if hch {
        seq![Signal::Height]
    } else {
        Seq::<Signal>::empty()
    }) + (if xch {
        seq![Signal::X]
    } else {
        Seq::<Signal>::empty()
    }) + (if ych {
        seq![Signal::Y]
    } else {
        Seq::<Signal>::empty()
    }) + (if wch || hch || xch || ych {
        seq![Signal::Geometry]
    } else {
        Seq::<Signal>::empty()
    })
}

/// How a partial geometry update transforms the drawin state.
pub open spec fn update_geometry_spec(s: DrawinState, a: Area) -> DrawinState {
    DrawinState {
        geometry: merged_geometry(s, a),
        geometry_dirty: s.geometry_dirty || geometry_signals(s, a).len() > 0,
        ..s
    }
}

impl DrawinState {
    /// A fresh drawin state.
    pub fn new() -> (r: Self)
        ensures
            r == drawin_state_default(),
    {
        DrawinState {
            visible: false,
            geometry: Area::default(),
            geometry_dirty: false,
            struts: Margin::default(),
        }
    }

    /// Updates the geometry field by field and returns the change
    /// notifications to be emitted: each positive differing extent and
    /// each differing origin coordinate is taken over and announced; a
    /// zero extent is ignored. Identical values change nothing and emit
    /// nothing.
    pub fn update_geometry(&mut self, a: Area) -> (r: Vec<Signal>)
        ensures
            *final(self) == update_geometry_spec(*old(self), a),
            r@ == geometry_signals(*old(self), a),
            a == old(self).geometry ==> r@.len() == 0 && *final(self) == *old(self),
    {
        let mut signals: Vec<Signal> = Vec::new();
        if a.size.width > 0 && a.size.width != self.geometry.size.width {
            self.geometry.size.width = a.size.width;
            signals.push(Signal::Width);
        }
        if a.size.height > 0 && a.size.height != self.geometry.size.height {
            self.geometry.size.height = a.size.height;
            signals.push(Signal::Height);
        }
        if a.origin.x != self.geometry.origin.x {
            self.geometry.origin.x = a.origin.x;
            signals.push(Signal::X);
        }
        if a.origin.y != self.geometry.origin.y {
            self.geometry.origin.y = a.origin.y;
            signals.push(Signal::Y);
        }
        if signals.len() > 0 {
            self.geometry_dirty = true;
            signals.push(Signal::Geometry);
        }
        proof {
            assert(signals@ =~= geometry_signals(*old(self), a));
            assert(*final(self) == update_geometry_spec(*old(self), a));
        }
        signals
    }
}

impl Default for DrawinState {
    fn default() -> (r: Self)
        ensures
            r == drawin_state_default(),
    {
        DrawinState::new()
    }
}

/// What a mutation of the drawin produced: the drawin's own change
/// notifications, those of its drawable, and the wire requests the caller
/// must perform in order.
#[derive(Debug, Clone)]
pub struct UpdateOutcome {
    /// Notifications of the drawin itself.
    pub signals: Vec<Signal>,
    /// Notifications of the owned drawable.
    pub drawable_signals: Vec<Signal>,
    /// Wire requests to perform, in order.
    pub requests: Vec<Request>,
}

/// A drawin: its plain state, the controller of its layered surface, and
/// the drawable holding its pixels.
#[derive(Debug, Clone)]
pub struct Drawin {
    /// Visibility, geometry and struts.
    pub state: DrawinState,
    /// The layered-surface controller, once the shell created it.
    pub surface: Option<LayerSurface>,
    /// The owned drawable.
    pub drawable: DrawableState,
}

/// A drawin is well formed when its drawable is and its surface
/// controller, if created, is.
pub open spec fn drawin_wf(d: Drawin) -> bool {
    &&& drawable_wf(d.drawable)
    &&& (d.surface matches Some(ls) ==> crate::layer::wf(ls))
}

/// Whether pushing a geometry down to the surface and the drawable will
/// succeed, and the error when not: resizing a closed surface is
/// unimplemented, and a fresh buffer is owed whenever the drawable's size
/// changes to a positive extent — missing shared memory or an overlarge
/// byte length then fail exactly as buffer creation does.
pub open spec fn update_drawing_result(d: Drawin, shm: WlShmManager, g: Area) -> Result<
    (),
    ClientError,
> {
    match d.surface {
        None => Ok(()),
        Some(ls) => if g.size.width > 0 && g.size.height > 0 && ls.status is Closed {
            Err(ClientError::UnimplementedFeature)
        } else if d.drawable.geo.size != g.size && g.size.width > 0 && g.size.height > 0
            && !shm.bound {
            Err(ClientError::UnsupportedVersion)
        } else if d.drawable.geo.size != g.size && g.size.width > 0 && g.size.height > 0
            && buffer_byte_len(g.size) > MAX_POOL_BYTES {
            Err(ClientError::ResourceExhaustion)
        } else {
            Ok(())
        },
    }
}

/// The contract a resize fulfils, shared by the partial and the validated
/// entry point: the drawin state is updated field by field; when nothing
/// changed, nothing else happens; when something changed, the new geometry
/// is pushed down to the surface — a desired-size request — and to the
/// drawable, which reallocates its buffer exactly when its size changed.
/// On failure the state fields keep the merged geometry but surface,
/// drawable and allocator are untouched.
pub open spec fn resize_post(
    pre: Drawin,
    pre_shm: WlShmManager,
    post: Drawin,
    post_shm: WlShmManager,
    r: Result<UpdateOutcome, ClientError>,
    geometry: Area,
) -> bool {
    let sigs = geometry_signals(pre.state, geometry);
    let g = merged_geometry(pre.state, geometry);
    &&& post.state == update_geometry_spec(pre.state, geometry)
    &&& post.surface == pre.surface
    &&& (r matches Ok(o) ==> o.signals@ == sigs)
    &&& (sigs.len() == 0 ==> r is Ok && post == pre && post_shm == pre_shm)
    &&& (sigs.len() == 0 ==> (r matches Ok(o) ==> o.requests@.len() == 0
        && o.drawable_signals@.len() == 0))
    &&& (sigs.len() > 0 ==> {
        &&& (r is Ok <==> update_drawing_result(pre, pre_shm, g) is Ok)
        &&& (r matches Err(e) ==> Err::<(), ClientError>(e) == update_drawing_result(
            pre,
            pre_shm,
            g,
        ) && post.drawable == pre.drawable && post_shm == pre_shm)
        &&& (r matches Ok(o) ==> {
            &&& (pre.surface is None ==> post.drawable == pre.drawable && post_shm == pre_shm
                && o.requests@.len() == 0 && o.drawable_signals@.len() == 0)
            &&& (pre.surface is Some ==> {
                &&& drawable_updated(pre.drawable, post.drawable, pre_shm, post_shm, g)
                &&& o.drawable_signals@ == full_signals()
                &&& o.requests@ == (if g.size.width > 0 && g.size.height > 0 {
                    seq![Request::SetSize { width: g.size.width, height: g.size.height }]
                } else {
                    Seq::<Request>::empty()
                })
            })
        })
    })
}

/// How a refresh flushes a drawable: geometry and pixel store are kept,
/// the contents now count as flushed, and the buffer — if any — holds
/// exactly the rendered pixels.
pub open spec fn drawable_flushed(pre: DrawableState, post: DrawableState) -> bool {
    &&& post.geo == pre.geo
    &&& post.surface == pre.surface
    &&& post.refreshed
    &&& (pre.buffer is None ==> post.buffer is None)
    &&& (match (pre.buffer, pre.surface) {
        (Some(b), Some(px)) => post.buffer matches Some(b2) && b2.id == b.id && b2.width == b.width
            && b2.height == b.height && b2.bytes@ == px@,
        _ => true,
    })
}

/// The wire requests a fresh refresh sends: nothing without both a
/// controller and a buffer; otherwise the attach — only once configured;
/// before that it stays deferred — then the desired size, then the
/// commit.
pub open spec fn refresh_requests(d: Drawin) -> Seq<Request> {
    match (d.surface, d.drawable.buffer) {
        (Some(ls), Some(b)) => if ls.status is Configured {
            seq![
                Request::Attach {
                    buffer: b.id,
                    x: d.drawable.geo.origin.x,
                    y: d.drawable.geo.origin.y,
                },
                Request::SetSize {
                    width: d.drawable.geo.size.width,
                    height: d.drawable.geo.size.height,
                },
                Request::Commit,
            ]
        } else {
            seq![
                Request::SetSize {
                    width: d.drawable.geo.size.width,
                    height: d.drawable.geo.size.height,
                },
                Request::Commit,
            ]
        },
        _ => Seq::<Request>::empty(),
    }
}

/// The controller state a fresh refresh leaves behind: an unconfigured
/// surface remembers the buffer as its deferred attachment; a configured
/// one has attached it and keeps nothing pending.
pub open spec fn refresh_surface(d: Drawin) -> Option<LayerSurface> {
    match (d.surface, d.drawable.buffer) {
        (Some(ls), Some(b)) => Some(
            if ls.status is Unconfigured {
                LayerSurface {
                    pending: Some(
                        PendingBuffer { buffer: b.id, origin: d.drawable.geo.origin },
                    ),
                    ..ls
                }
            } else {
                LayerSurface { pending: None, ..ls }
            },
        ),
        _ => d.surface,
    }
}

/// A drawable whose width or height is zero holds no shared-memory buffer
/// at all, and a refresh of it puts no request — in particular no attach —
/// on the wire.
pub proof fn lemma_zero_size_never_attaches(d: Drawin)
    requires
        drawin_wf(d),
        d.drawable.geo.size.width == 0 || d.drawable.geo.size.height == 0,
    ensures
        d.drawable.buffer is None,
        refresh_requests(d) == Seq::<Request>::empty(),
{
}

impl Drawin {
    /// Creates a drawin: a base surface is made from the compositor and
    /// bound to an on-screen layer. The returned requests — the initial
    /// commit the protocol demands — must go on the wire at once. Fails
    /// with `UnsupportedVersion` when the compositor or the shell global
    /// is missing, leaving the managers untouched.
    pub fn new(manager: &mut WaylandManager) -> (r: Result<(Drawin, Vec<Request>), ClientError>)
        requires
            old(manager).compositor_manager.next_surface < u64::MAX,
        ensures
            r is Ok <==> old(manager).compositor_manager.bound && old(manager).shell_manager.bound,
            r is Err ==> r == Err::<(Drawin, Vec<Request>), ClientError>(
                ClientError::UnsupportedVersion,
            ) && *final(manager) == *old(manager),
            final(manager).shm_manager == old(manager).shm_manager,
            final(manager).output_manager == old(manager).output_manager,
            final(manager).seat_manager == old(manager).seat_manager,
            final(manager).shell_manager == old(manager).shell_manager,
            r matches Ok(ok) ==> {
                &&& ok.0.state == drawin_state_default()
                &&& ok.0.surface == Some(
                    LayerSurface {
                        wl_surface: old(manager).compositor_manager.next_surface,
                        status: SurfaceStatus::Unconfigured,
                        pending: None,
                    },
                )
                &&& ok.0.drawable.geo == Area::default_spec()
                &&& !ok.0.drawable.refreshed
                &&& ok.0.drawable.surface is None
                &&& ok.0.drawable.buffer is None
                &&& ok.1@ == seq![Request::Commit]
                &&& drawin_wf(ok.0)
            },
    {
        let (layer_surface, requests) = match manager.create_layer_surface() {
            Ok(ok) => ok,
            Err(e) => {
                return Err(e);
            },
        };
        let drawin = Drawin {
            state: DrawinState::new(),
            surface: Some(layer_surface),
            drawable: DrawableState::new(),
        };
        Ok((drawin, requests))
    }

    /// The owned drawable.
    pub fn drawable(&self) -> (r: &DrawableState)
        ensures
            r == self.drawable,
    {
        &self.drawable
    }

    /// Whether the drawin is mapped on screen.
    pub fn get_visible(&self) -> (r: bool)
        ensures
            r == self.state.visible,
    {
        self.state.visible
    }

    /// Current geometry.
    pub fn get_geometry(&self) -> (r: Area)
        ensures
            r == self.state.geometry,
    {
        self.state.geometry
    }

    /// Stores the struts. They are deliberately kept without effect on any
    /// layout: a caller that sets nonzero struts should log that they are
    /// not acted upon.
    pub fn set_struts(&mut self, struts: Margin)
        ensures
            final(self).state == (DrawinState { struts, ..old(self).state }),
            final(self).surface == old(self).surface,
            final(self).drawable == old(self).drawable,
    {
        self.state.struts = struts;
    }

    /// The stored struts.
    pub fn get_struts(&self) -> (r: Margin)
        ensures
            r == self.state.struts,
    {
        self.state.struts
    }

    /// Pushes the current geometry down to the layered surface — a
    /// desired-size request for a positive extent — and to the drawable,
    /// which reallocates its pixel store and buffer exactly when its size
    /// changed. Does nothing while the surface is not yet created.
    fn update_drawing(&mut self, shm: &mut WlShmManager) -> (r: Result<
        (Vec<Signal>, Vec<Request>),
        ClientError,
    >)
        requires
            old(shm).next_buffer < u64::MAX,
        ensures
            final(self).state == old(self).state,
            final(self).surface == old(self).surface,
            r is Ok <==> update_drawing_result(*old(self), *old(shm), old(self).state.geometry)
                is Ok,
            r matches Err(e) ==> Err::<(), ClientError>(e) == update_drawing_result(
                *old(self),
                *old(shm),
                old(self).state.geometry,
            ) && *final(self) == *old(self) && *final(shm) == *old(shm),
            old(self).surface is None ==> *final(self) == *old(self) && *final(shm) == *old(shm)
                && (r matches Ok(o) && o.0@.len() == 0 && o.1@.len() == 0),
            old(self).surface is Some && r is Ok ==> {
                &&& drawable_updated(
                    old(self).drawable,
                    final(self).drawable,
                    *old(shm),
                    *final(shm),
                    old(self).state.geometry,
                )
                &&& (r matches Ok(o) ==> o.0@ == full_signals() && o.1@ == (
                if old(self).state.geometry.size.width > 0 && old(self).state.geometry.size.height
                    > 0 {
                    seq![
                        Request::SetSize {
                            width: old(self).state.geometry.size.width,
                            height: old(self).state.geometry.size.height,
                        },
                    ]
                } else {
                    Seq::<Request>::empty()
                }))
            },
            drawin_wf(*old(self)) ==> drawin_wf(*final(self)),
    {
        let geometry = self.state.geometry;
        match &mut self.surface {
            None => Ok((Vec::new(), Vec::new())),
            Some(ls) => {
                let mut requests: Vec<Request> = Vec::new();
                if geometry.size.width > 0 && geometry.size.height > 0 {
                    let mut rs = match ls.set_size(geometry.size) {
                        Ok(rs) => rs,
                        Err(e) => {
                            return Err(e);
                        },
                    };
                    requests.append(&mut rs);
                }
                let signals = match self.drawable.set_geometry(shm, geometry) {
                    Ok(sigs) => sigs,
                    Err(e) => {
                        return Err(e);
                    },
                };
                Ok((signals, requests))
            },
        }
    }

    /// Moves and/or resizes the drawin: updates the geometry field by
    /// field and, when anything changed, pushes the merged geometry down
    /// to the surface and the drawable. An update that changes nothing
    /// does nothing — no notification, no request, no reallocation.
    pub fn resize(&mut self, shm: &mut WlShmManager, geometry: Area) -> (r: Result<
        UpdateOutcome,
        ClientError,
    >)
        requires
            old(shm).next_buffer < u64::MAX,
        ensures
            resize_post(*old(self), *old(shm), *final(self), *final(shm), r, geometry),
            drawin_wf(*old(self)) ==> drawin_wf(*final(self)),
    {
        let signals = self.state.update_geometry(geometry);
        if signals.len() == 0 {
            return Ok(
                UpdateOutcome {
                    signals,
                    drawable_signals: Vec::new(),
                    requests: Vec::new(),
                },
            );
        }
        let (drawable_signals, requests) = match self.update_drawing(shm) {
            Ok(ok) => ok,
            Err(e) => {
                return Err(e);
            },
        };
        Ok(UpdateOutcome { signals, drawable_signals, requests })
    }

    /// The validated geometry entry: a full geometry whose width or height
    /// is zero is rejected locally as invalid — nothing changes, the event
    /// loop goes on — and a positive one is applied as a resize.
    pub fn set_geometry(&mut self, shm: &mut WlShmManager, geometry: Area) -> (r: Result<
        UpdateOutcome,
        ClientError,
    >)
        requires
            old(shm).next_buffer < u64::MAX,
        ensures
            geometry.size.width == 0 || geometry.size.height == 0 ==> r == Err::<
                UpdateOutcome,
                ClientError,
            >(ClientError::InvalidGeometry) && *final(self) == *old(self) && *final(shm) == *old(
                shm,
            ),
            geometry.size.width > 0 && geometry.size.height > 0 ==> resize_post(
                *old(self),
                *old(shm),
                *final(self),
                *final(shm),
                r,
                geometry,
            ),
            drawin_wf(*old(self)) ==> drawin_wf(*final(self)),
    {
        if geometry.size.width == 0 || geometry.size.height == 0 {
            return Err(ClientError::InvalidGeometry);
        }
        self.resize(shm, geometry)
    }

    /// Refreshes the on-screen contents: flushes the rendered pixels into
    /// the shared-memory buffer and asks the layered surface to show the
    /// buffer — attach, then desired size, then commit, in that order.
    ///
    /// Refreshing is idempotent: with no geometry and no pixel-content
    /// change since the last successful refresh it is a no-op, so two
    /// consecutive refreshes produce at most one attach. A drawable
    /// without a buffer — zero-sized geometry — sends nothing at all.
    /// Only a refresh that must reach a closed surface fails.
    pub fn refresh(&mut self) -> (r: Result<Vec<Request>, ClientError>)
        requires
            drawin_wf(*old(self)),
        ensures
            final(self).state == old(self).state,
            old(self).drawable.refreshed ==> (r matches Ok(v) && v@.len() == 0) && *final(self)
                == *old(self),
            r is Err <==> (!old(self).drawable.refreshed && old(self).drawable.buffer is Some
                && (old(self).surface matches Some(ls) && ls.status is Closed)),
            r matches Err(e) ==> e == ClientError::UnimplementedFeature && final(self).surface
                == old(self).surface && drawable_flushed(old(self).drawable, final(self).drawable),
            !old(self).drawable.refreshed && r is Ok ==> {
                &&& drawable_flushed(old(self).drawable, final(self).drawable)
                &&& (r matches Ok(v) ==> v@ == refresh_requests(*old(self)))
                &&& final(self).surface == refresh_surface(*old(self))
            },
            drawin_wf(*final(self)),
    {
        if self.drawable.refreshed {
            return Ok(Vec::new());
        }
        match (&self.drawable.surface, &mut self.drawable.buffer) {
            (Some(px), Some(b)) => {
                b.write(px.as_slice());
            },
            _ => {},
        }
        self.drawable.refreshed = true;
        let geometry = self.drawable.geo;
        let buffer_id = match &self.drawable.buffer {
            Some(b) => Some(b.id),
            None => None,
        };
        match (&mut self.surface, buffer_id) {
            (Some(ls), Some(id)) => {
                let (mut requests, _replaced) = match ls.set_buffer(id, geometry.origin) {
                    Ok(p) => p,
                    Err(e) => {
                        return Err(e);
                    },
                };
                let mut size_request = match ls.set_size(geometry.size) {
                    Ok(rs) => rs,
                    Err(e) => {
                        return Err(e);
                    },
                };
                requests.append(&mut size_request);
                let mut commit = match ls.commit() {
                    Ok(c) => c,
                    Err(e) => {
                        return Err(e);
                    },
                };
                requests.append(&mut commit);
                proof {
                    assert(requests@ =~= refresh_requests(*old(self)));
                }
                Ok(requests)
            },
            _ => Ok(Vec::new()),
        }
    }

    /// Sets the visibility. An unchanged value does nothing; a change is
    /// announced and the current geometry is pushed down to surface and
    /// drawable — mapping allocates the pixel pipeline, unmapping keeps
    /// it, both re-applying the stored geometry.
    pub fn set_visible(&mut self, shm: &mut WlShmManager, val: bool) -> (r: Result<
        UpdateOutcome,
        ClientError,
    >)
        requires
            old(shm).next_buffer < u64::MAX,
        ensures
            val == old(self).state.visible ==> (r matches Ok(o) && *final(self) == *old(self)
                && *final(shm) == *old(shm) && o.signals@.len() == 0 && o.requests@.len() == 0
                && o.drawable_signals@.len() == 0),
            val != old(self).state.visible ==> {
                &&& final(self).state == (DrawinState { visible: val, ..old(self).state })
                &&& final(self).surface == old(self).surface
                &&& (r is Ok <==> update_drawing_result(
                    *old(self),
                    *old(shm),
                    old(self).state.geometry,
                ) is Ok)
                &&& (r matches Err(e) ==> Err::<(), ClientError>(e) == update_drawing_result(
                    *old(self),
                    *old(shm),
                    old(self).state.geometry,
                ) && final(self).drawable == old(self).drawable && *final(shm) == *old(shm))
                &&& (r matches Ok(o) ==> {
                    &&& o.signals@ == seq![Signal::Visible]
                    &&& (old(self).surface is None ==> final(self).drawable == old(self).drawable
                        && *final(shm) == *old(shm) && o.requests@.len() == 0
                        && o.drawable_signals@.len() == 0)
                    &&& (old(self).surface is Some ==> {
                        &&& drawable_updated(
                            old(self).drawable,
                            final(self).drawable,
                            *old(shm),
                            *final(shm),
                            old(self).state.geometry,
                        )
                        &&& o.drawable_signals@ == full_signals()
                        &&& o.requests@ == (
                        if old(self).state.geometry.size.width > 0
                            && old(self).state.geometry.size.height > 0 {
                            seq![
                                Request::SetSize {
                                    width: old(self).state.geometry.size.width,
                                    height: old(self).state.geometry.size.height,
                                },
                            ]
                        } else {
                            Seq::<Request>::empty()
                        })
                    })
                })
            },
            drawin_wf(*old(self)) ==> drawin_wf(*final(self)),
    {
        if val == self.state.visible {
            return Ok(
                UpdateOutcome {
                    signals: Vec::new(),
                    drawable_signals: Vec::new(),
                    requests: Vec::new(),
                },
            );
        }
        self.state.visible = val;
        let (drawable_signals, requests) = match self.update_drawing(shm) {
            Ok(ok) => ok,
            Err(e) => {
                return Err(e);
            },
        };
        let mut signals: Vec<Signal> = Vec::new();
        signals.push(Signal::Visible);
        proof {
            assert(signals@ =~= seq![Signal::Visible]);
        }
        Ok(UpdateOutcome { signals, drawable_signals, requests })
    }
}

} // verus!
