//! Error handling.
use vstd::prelude::*;

verus! {

/// Failures that the swarm logic reports.
#[derive(Debug, Clone, Copy, PartialEq, Eq, Structural)]
pub enum Error {
    /// Local metadata larger than `MemberInfo::MAX_METADATA`.
    MetadataTooLarge,
    /// No client-side TLS configuration was set.
    ClientTlsMissing,
    /// No server-side TLS configuration was set.
    ServerTlsMissing,
    /// A protobuf body whose length does not fit in the 32-bit frame header.
    OverlongProtobuf,
    /// A framed payload whose length does not fit in memory.
    OverlongMessage,
    /// An incoming message that carries no value.
    DispatchNoneValue,
    /// The address of the remote end of a connection is not available.
    PeerAddressUnavailable,
    /// A pull request was answered by something else than a sync message
    /// (reported with the terse text "foo").
    UnexpectedReply,
}

/// Human-readable text of each error.
pub open spec fn error_text(e: Error) -> Seq<char> {
    match e {
        Error::MetadataTooLarge => "metadata larger than maximum size"@,
        Error::ClientTlsMissing => "Client TLS configuration missing"@,
        Error::ServerTlsMissing => "Server TLS configuration missing"@,
        Error::OverlongProtobuf => "overlong protobuf message"@,
        Error::OverlongMessage => "overlong message"@,
        Error::DispatchNoneValue => "dispatch: None value"@,
        Error::PeerAddressUnavailable => "peer address unavailable"@,
        Error::UnexpectedReply => "foo"@,
    }
}

impl Error {
    /// Human-readable description of this error.
    pub fn message(&self) -> (r: &'static str)
        ensures
            r@ == error_text(*self),
    {
        match self {
            Error::MetadataTooLarge => "metadata larger than maximum size",
            Error::ClientTlsMissing => "Client TLS configuration missing",
            Error::ServerTlsMissing => "Server TLS configuration missing",
            Error::OverlongProtobuf => "overlong protobuf message",
            Error::OverlongMessage => "overlong message",
            Error::DispatchNoneValue => "dispatch: None value",
            Error::PeerAddressUnavailable => "peer address unavailable",
            Error::UnexpectedReply => "foo",
        }
    }
}

} // verus!
