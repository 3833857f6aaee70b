//! The drawable: owner of the off-screen pixel store the renderer fills
//! and of the shared-memory buffer its contents are flushed to.

use vstd::prelude::*;
use vstd::slice::slice_to_vec;

use crate::area::Area;
use crate::error::ClientError;
use crate::shm::{buffer_byte_len, buffer_wf, Buffer, WlShmManager, MAX_POOL_BYTES};

verus! {

/// A named change notification emitted to observers after a successful
/// mutation.
#[derive(Debug, Clone, Copy, Eq, PartialEq, Structural)]
pub enum Signal {
    /// The pixel-surface handle changed.
    Surface,
    /// The geometry changed.
    Geometry,
    /// The horizontal origin changed.
    X,
    /// The vertical origin changed.
    Y,
    /// The width changed.
    Width,
    /// The height changed.
    Height,
    /// The visibility changed.
    Visible,
}

/// The state of a drawable: its geometry, the off-screen pixel store the
/// renderer populates, the shared-memory buffer those pixels are flushed
/// to, and whether the flushed contents are current.
#[derive(Debug, Clone)]
pub struct DrawableState {
    /// Current geometry.
    pub geo: Area,
    /// Whether the pixel contents have been flushed since they last
    /// changed.
    pub refreshed: bool,
    /// The off-screen pixel store, exactly stride * height bytes; absent
    /// while a dimension is zero — such a drawable has no visible surface.
    pub surface: Option<Vec<u8>>,
    /// The shared-memory buffer matching the current geometry; absent
    /// while a dimension is zero.
    pub buffer: Option<Buffer>,
}

/// A drawable aliases the original name of the entity.
pub type Drawable = DrawableState;

/// The full set of change notifications a geometry mutation of the
/// drawable emits, in emission order.
pub open spec fn full_signals() -> Seq<Signal> {
    seq![Signal::Surface, Signal::Geometry, Signal::X, Signal::Y, Signal::Width, Signal::Height]
}

/// How a successful geometry update transforms a drawable and the
/// shared-memory manager: the geometry is taken over; a size change drops
/// store and buffer and, when the new dimensions are positive, replaces
/// both with fresh zero-filled ones; an unchanged size reallocates
/// nothing. Any geometry change — an origin-only move included —
/// invalidates the last flush, so the next refresh reaches the wire.
pub open spec fn drawable_updated(
    pre: DrawableState,
    post: DrawableState,
    pre_shm: WlShmManager,
    post_shm: WlShmManager,
    g: Area,
) -> bool {
    &&& post.geo == g
    &&& post.refreshed == (pre.geo == g && pre.refreshed)
    &&& (pre.geo.size == g.size ==> post.surface == pre.surface && post.buffer == pre.buffer
        && post_shm == pre_shm)
    &&& (pre.geo.size != g.size && (g.size.width == 0 || g.size.height == 0) ==> post.surface
        is None && post.buffer is None && post_shm == pre_shm)
    &&& (pre.geo.size != g.size && g.size.width > 0 && g.size.height > 0 ==> {
        &&& post.buffer matches Some(b) && b.id == pre_shm.next_buffer && b.width == g.size.width
            && b.height == g.size.height && b.bytes@ == Seq::new(
            buffer_byte_len(g.size) as nat,
            |i: int| 0u8,
        )
        &&& post.surface matches Some(s) && s@ == Seq::new(
            buffer_byte_len(g.size) as nat,
            |i: int| 0u8,
        )
        &&& post_shm == (WlShmManager { next_buffer: (pre_shm.next_buffer + 1) as u64, ..pre_shm })
    })
}

/// A drawable is well formed when buffer and pixel store exist together,
/// both match the current geometry, and they exist only while both
/// dimensions are positive.
pub open spec fn drawable_wf(d: DrawableState) -> bool {
    &&& (d.surface is Some <==> d.buffer is Some)
    &&& (d.buffer matches Some(b) ==> b.width == d.geo.size.width && b.height == d.geo.size.height
        && buffer_wf(b))
    &&& (d.surface matches Some(s) ==> s@.len() == buffer_byte_len(d.geo.size))
    &&& (d.buffer is Some ==> d.geo.size.width > 0 && d.geo.size.height > 0)
}

impl Default for DrawableState {
    fn default() -> (r: Self)
        ensures
            r.geo == Area::default_spec(),
            !r.refreshed,
            r.surface is None,
            r.buffer is None,
            drawable_wf(r),
    {
        DrawableState { geo: Area::default(), refreshed: false, surface: None, buffer: None }
    }
}

impl DrawableState {
    /// A fresh drawable: zero geometry, nothing allocated.
    pub fn new() -> (r: Self)
        ensures
            r.geo == Area::default_spec(),
            !r.refreshed,
            r.surface is None,
            r.buffer is None,
            drawable_wf(r),
    {
        DrawableState { geo: Area::default(), refreshed: false, surface: None, buffer: None }
    }

    /// Current geometry.
    pub fn get_geometry(&self) -> (r: Area)
        ensures
            r == self.geo,
    {
        self.geo
    }

    /// The off-screen pixel store the renderer populates, if the drawable
    /// has a visible surface.
    pub fn get_surface(&self) -> (r: &Option<Vec<u8>>)
        ensures
            r == self.surface,
    {
        &self.surface
    }

    /// Sets the geometry. A size change drops the pixel store and the
    /// buffer and, when both new dimensions are positive, allocates both
    /// anew — zero width or height suppresses allocation entirely. An
    /// origin-only change never reallocates, but any change invalidates
    /// the last flush: the next refresh re-attaches at the new origin.
    /// Every successful call emits the full set of change notifications.
    ///
    /// Fails only when a fresh buffer is owed and cannot be had: with
    /// `UnsupportedVersion` when the shared-memory global is missing, and
    /// with `ResourceExhaustion` when the byte length would overflow the
    /// wire's pool size; previous state is then fully retained.
    pub fn set_geometry(&mut self, shm: &mut WlShmManager, geometry: Area) -> (r: Result<
        Vec<Signal>,
        ClientError,
    >)
        requires
            old(shm).next_buffer < u64::MAX,
        ensures
            r matches Ok(sigs) ==> sigs@ == full_signals(),
            r is Ok ==> drawable_updated(*old(self), *final(self), *old(shm), *final(shm), geometry),
            r is Ok <==> (old(self).geo.size == geometry.size || geometry.size.width == 0
                || geometry.size.height == 0 || (old(shm).bound && buffer_byte_len(geometry.size)
                <= MAX_POOL_BYTES)),
            r is Err ==> *final(self) == *old(self) && *final(shm) == *old(shm),
            old(self).geo.size != geometry.size && geometry.size.width > 0
                && geometry.size.height > 0 ==> {
                &&& (!old(shm).bound ==> r == Err::<Vec<Signal>, ClientError>(
                    ClientError::UnsupportedVersion,
                ))
                &&& (old(shm).bound && buffer_byte_len(geometry.size) > MAX_POOL_BYTES ==> r
                    == Err::<Vec<Signal>, ClientError>(ClientError::ResourceExhaustion))
            },
            drawable_wf(*old(self)) ==> drawable_wf(*final(self)),
    {
        let size_changed = !(self.geo.size == geometry.size);
        if size_changed && geometry.size.width > 0 && geometry.size.height > 0 {
            let b = match shm.create_buffer(geometry.size) {
                Ok(b) => b,
                Err(e) => {
                    return Err(e);
                },
            };
            self.surface = Some(slice_to_vec(b.bytes.as_slice()));
            self.buffer = Some(b);
        } else if size_changed {
            self.surface = None;
            self.buffer = None;
        }
        if !(self.geo == geometry) {
            self.refreshed = false;
        }
        self.geo = geometry;
        let mut sigs: Vec<Signal> = Vec::new();
        sigs.push(Signal::Surface);
        sigs.push(Signal::Geometry);
        sigs.push(Signal::X);
        sigs.push(Signal::Y);
        sigs.push(Signal::Width);
        sigs.push(Signal::Height);
        proof {
            assert(sigs@ =~= full_signals());
        }
        Ok(sigs)
    }

    /// Replaces the pixel contents with freshly rendered ones, which
    /// invalidates the last flush: the next refresh will flush them. The
    /// renderer must populate the whole store; a drawable without a
    /// visible surface, or contents of the wrong length, are rejected as
    /// invalid geometry and nothing changes.
    pub fn set_content(&mut self, data: &[u8]) -> (r: Result<(), ClientError>)
        ensures
            r is Ok <==> (old(self).surface matches Some(s) && data@.len() == s@.len()),
            r is Err ==> r == Err::<(), ClientError>(ClientError::InvalidGeometry) && *final(self)
                == *old(self),
            r is Ok ==> (final(self).surface matches Some(s) && s@ == data@),
            r is Ok ==> !final(self).refreshed,
            final(self).geo == old(self).geo,
            final(self).buffer == old(self).buffer,
            drawable_wf(*old(self)) ==> drawable_wf(*final(self)),
    {
        match &self.surface {
            None => Err(ClientError::InvalidGeometry),
            Some(s) => {
                if data.len() != s.len() {
                    return Err(ClientError::InvalidGeometry);
                }
                self.surface = Some(slice_to_vec(data));
                self.refreshed = false;
                Ok(())
            },
        }
    }
}

} // verus!
