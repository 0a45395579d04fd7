use vstd::prelude::*;

verus! {

/// Declares `std::io::Error` so that the transmit failure can be carried.
#[verifier::external_type_specification]
#[verifier::external_body]
pub struct ExIoError(std::io::Error);

/// An error resulting from a ping option-setting or send/receive operation.
#[derive(Debug)]
pub enum SurgeError {
    /// The payload size does not fit the echo request.
    IncorrectBufferSize,
    /// A packet could not be decoded as the expected echo reply.
    MalformedPacket(MalformedPacketError),
    /// The transport failed to send.
    IOError(std::io::Error),
    /// No matching reply came before the deadline.
    Timeout { seq: u16 },
    /// The decoded packet is this host's own echo request.
    EchoRequestPacket,
    /// The inbound channel closed before a reply matched.
    NetworkError,
}

/// Why a packet was not a well-formed echo reply.
#[derive(Debug, Clone, Copy, PartialEq, Eq, Structural)]
pub enum MalformedPacketError {
    /// Expected an IPv4 packet.
    NotIpv4Packet,
    /// Expected an IPv6 packet.
    NotIpv6Packet,
    /// Expected an ICMPv4 echo reply payload.
    NotIcmpv4Packet,
    /// Expected an ICMPv6 echo reply.
    NotIcmpv6Packet,
    /// The payload holds `got` bytes where `want` were needed.
    PayloadTooShort { got: usize, want: usize },
}

} // verus!
