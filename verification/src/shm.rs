//! The shared-memory allocator: pixel buffers backed by an anonymous
//! temporary store that the server maps alongside the client.
//!
//! The model holds the buffer contents as plain bytes; the caller that owns
//! the connection mirrors every created buffer with a real backing store and
//! a wire buffer object under the same handle. The pixel format is fixed
//! 32-bit ARGB, so a buffer of w by h pixels occupies exactly w * h * 4
//! bytes, with a row stride of w * 4.

use vstd::prelude::*;
use vstd::slice::slice_to_vec;

use crate::area::Size;
use crate::error::ClientError;

verus! {

/// Bytes per pixel of the fixed 32-bit ARGB format.
pub const BYTES_PER_PIXEL: u32 = 4;

/// The byte length of a buffer of the given size: width * height * 4.
pub open spec fn buffer_byte_len(size: Size) -> int {
    size.width * size.height * (BYTES_PER_PIXEL as int)
}

/// The row stride of a buffer of the given width: width * 4 bytes.
pub open spec fn buffer_stride(width: u32) -> int {
    width * (BYTES_PER_PIXEL as int)
}

/// A buffer's byte length is its row stride times its height.
pub proof fn lemma_byte_len_is_stride_times_height(size: Size)
    ensures
        buffer_byte_len(size) == buffer_stride(size.width) * (size.height as int),
{
    assert(size.width * size.height * (BYTES_PER_PIXEL as int) == (size.width * (
    BYTES_PER_PIXEL as int)) * size.height) by (nonlinear_arith);
}

/// The server registers a memory pool whose byte length travels as a signed
/// 32-bit integer, so no buffer may occupy more bytes than that can carry.
pub const MAX_POOL_BYTES: u32 = 0x7fff_ffff;

/// A shared-memory pixel buffer: the contents of its backing store, plus
/// the handle under which the connection owner mirrors it on the wire.
/// Exclusively owned by whichever layered surface currently holds it.
#[derive(Debug, Clone, Eq, PartialEq)]
pub struct Buffer {
    /// Handle tying this buffer to its wire object and backing store.
    pub id: u64,
    /// Width in pixels; always positive.
    pub width: u32,
    /// Height in pixels; always positive.
    pub height: u32,
    /// Contents of the backing store, exactly `width * height * 4` bytes.
    pub bytes: Vec<u8>,
}

/// A buffer is well formed when its dimensions are positive, its byte
/// length is exactly width * height * 4, and that length fits the wire's
/// signed 32-bit pool size.
pub open spec fn buffer_wf(b: Buffer) -> bool {
    &&& b.width > 0
    &&& b.height > 0
    &&& buffer_byte_len(Size { width: b.width, height: b.height }) <= MAX_POOL_BYTES
    &&& b.bytes@.len() == buffer_byte_len(Size { width: b.width, height: b.height })
}

impl Buffer {
    /// Replaces the contents of the backing store, starting at offset zero,
    /// and flushes so the server sees the new bytes.
    ///
    /// The caller must supply exactly stride * height bytes, and must not
    /// write while the buffer is attached and not yet known to be released
    /// by the server: no release tracking exists in this layer.
    pub fn write(&mut self, data: &[u8])
        requires
            data@.len() == old(self).bytes@.len(),
        ensures
            final(self).bytes@ == data@,
            final(self).id == old(self).id,
            final(self).width == old(self).width,
            final(self).height == old(self).height,
            buffer_wf(*old(self)) ==> buffer_wf(*final(self)),
    {
        self.bytes = slice_to_vec(data);
    }
}

/// Manager of the shared-memory global: hands out pixel buffers once the
/// global is bound.
#[derive(Debug, Clone, Eq, PartialEq)]
pub struct WlShmManager {
    /// Whether the shared-memory global has been bound.
    pub bound: bool,
    /// Handle for the next buffer to be created; handles are never reused.
    pub next_buffer: u64,
}

impl WlShmManager {
    /// A manager with no global bound yet.
    pub fn new() -> (r: Self)
        ensures
            r == (WlShmManager { bound: false, next_buffer: 0u64 }),
    {
        WlShmManager { bound: false, next_buffer: 0 }
    }

    /// Records that the shared-memory global was bound. A correctly
    /// behaving server advertises this singleton once; a second
    /// advertisement is a protocol violation and leaves the first binding
    /// untouched.
    pub fn new_global(&mut self) -> (r: Result<(), ClientError>)
        ensures
            old(self).bound ==> r == Err::<(), ClientError>(ClientError::ProtocolViolation)
                && *final(self) == *old(self),
            !old(self).bound ==> r == Ok::<(), ClientError>(()) && *final(self) == (WlShmManager {
                bound: true,
                ..*old(self)
            }),
    {
        if self.bound {
            Err(ClientError::ProtocolViolation)
        } else {
            self.bound = true;
            Ok(())
        }
    }

    /// Creates a zero-filled buffer of the given size.
    ///
    /// Both dimensions must be positive; that is validated by the caller.
    /// Fails with `UnsupportedVersion` while the shared-memory global is
    /// not bound, and with `ResourceExhaustion` when the byte length
    /// would not fit the wire's signed 32-bit pool size — the server would
    /// reject such a pool. On failure nothing is allocated and the manager
    /// is unchanged.
    pub fn create_buffer(&mut self, size: Size) -> (r: Result<Buffer, ClientError>)
        requires
            size.width > 0,
            size.height > 0,
            old(self).next_buffer < u64::MAX,
        ensures
            r is Ok <==> old(self).bound && buffer_byte_len(size) <= MAX_POOL_BYTES,
            !old(self).bound ==> r == Err::<Buffer, ClientError>(ClientError::UnsupportedVersion),
            old(self).bound && buffer_byte_len(size) > MAX_POOL_BYTES ==> r == Err::<
                Buffer,
                ClientError,
            >(ClientError::ResourceExhaustion),
            r is Err ==> *final(self) == *old(self),
            r matches Ok(b) ==> {
                &&& b.id == old(self).next_buffer
                &&& b.width == size.width
                &&& b.height == size.height
                &&& buffer_wf(b)
                &&& b.bytes@ == Seq::new(buffer_byte_len(size) as nat, |i: int| 0u8)
                &&& *final(self) == (WlShmManager {
                    next_buffer: (old(self).next_buffer + 1) as u64,
                    ..*old(self)
                })
            },
    {
        if !self.bound {
            return Err(ClientError::UnsupportedVersion);
        }
        proof {
            assert((size.width as int) * (size.height as int) <= (u32::MAX as int) * (
            u32::MAX as int)) by (nonlinear_arith)
                requires
                    size.width <= u32::MAX,
                    size.height <= u32::MAX,
            ;
        }
        let pixels: u64 = (size.width as u64) * (size.height as u64);
        if pixels > (MAX_POOL_BYTES / BYTES_PER_PIXEL) as u64 {
            return Err(ClientError::ResourceExhaustion);
        }
        let byte_len: usize = (pixels as usize) * (BYTES_PER_PIXEL as usize);
        let mut bytes: Vec<u8> = Vec::new();
        while bytes.len() < byte_len
            invariant
                bytes@.len() <= byte_len,
                forall|i: int| 0 <= i < bytes@.len() ==> bytes@[i] == 0u8,
            decreases byte_len - bytes@.len(),
        {
            bytes.push(0u8);
        }
        proof {
            assert(bytes@ =~= Seq::new(buffer_byte_len(size) as nat, |i: int| 0u8));
        }
        let id = self.next_buffer;
        self.next_buffer = self.next_buffer + 1;
        Ok(Buffer { id, width: size.width, height: size.height, bytes })
    }
}

impl Default for WlShmManager {
    fn default() -> (r: Self)
        ensures
            r == (WlShmManager { bound: false, next_buffer: 0u64 }),
    {
        WlShmManager::new()
    }
}

} // verus!
