//! The error taxonomy of the protocol layer.

use vstd::prelude::*;

verus! {

/// Why a protocol-layer operation was refused.
///
/// Binding failures of a required core global (compositor, shared memory,
/// layer shell) are fatal to the caller: the layer cannot proceed without
/// them. Per-operation failures during steady state are rejected locally:
/// the offending request is discarded, previous state is retained, and the
/// event loop continues.
#[derive(Debug, Clone, Copy, Eq, PartialEq, Structural)]
pub enum ClientError {
    /// A correctly behaving server never causes this: a singleton global
    /// advertised twice, or an attach that would reach the wire before the
    /// first configuration.
    ProtocolViolation,
    /// The server advertises a global below the minimum accepted version,
    /// or does not advertise a required global at all.
    UnsupportedVersion,
    /// A shared-memory backing store could not be allocated.
    ResourceExhaustion,
    /// A width or height was zero where positivity is required.
    InvalidGeometry,
    /// A capability this layer does not support: an output scale other
    /// than one, or a server-side close of a layered surface.
    UnimplementedFeature,
}

impl ClientError {
    /// A short human-readable description of the error.
    pub fn describe(&self) -> (r: &'static str)
        ensures
            r@ == self.describe_spec(),
    {
        match self {
            ClientError::ProtocolViolation => "protocol violation",
            ClientError::UnsupportedVersion => "unsupported server version",
            ClientError::ResourceExhaustion => "resource exhaustion",
            ClientError::InvalidGeometry => "invalid geometry",
            ClientError::UnimplementedFeature => "unimplemented feature",
        }
    }

    /// What `describe` returns for each variant.
    pub open spec fn describe_spec(self) -> Seq<char> {
        match self {
            ClientError::ProtocolViolation => "protocol violation"@,
            ClientError::UnsupportedVersion => "unsupported server version"@,
            ClientError::ResourceExhaustion => "resource exhaustion"@,
            ClientError::InvalidGeometry => "invalid geometry"@,
            ClientError::UnimplementedFeature => "unimplemented feature"@,
        }
    }
}

} // verus!
