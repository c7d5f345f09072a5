//! The errors of the engine.

use vstd::prelude::*;

verus! {

/// What can go wrong while talking to a NAT-PMP gateway.
///
/// The engine reports what concerns a request: `NATPMP_ERR_RECVFROM`,
/// `NATPMP_ERR_NOPENDINGREQ`, `NATPMP_ERR_NOGATEWAYSUPPORT`,
/// `NATPMP_ERR_WRONGPACKETSOURCE`, `NATPMP_ERR_SENDERR`, `NATPMP_TRYAGAIN`, and
/// the six errors that a response of the gateway can stand for. The others
/// are for whoever owns the socket: finding the gateway, setting the socket up
/// and closing it, reading the clock.
#[allow(non_camel_case_types)]
#[derive(Debug, Copy, Clone, Eq, PartialEq, Structural)]
pub enum Error {
    /// Invalid arguments
    NATPMP_ERR_INVALIDARGS,
    /// Failed to create a socket
    NATPMP_ERR_SOCKETERROR,
    /// Can not get default gateway address
    NATPMP_ERR_CANNOTGETGATEWAY,
    /// Failed to close socket
    NATPMP_ERR_CLOSEERR,
    /// Failed to recvfrom socket
    NATPMP_ERR_RECVFROM,
    /// No pending request
    NATPMP_ERR_NOPENDINGREQ,
    /// Gateway does not support NAT-PMP
    NATPMP_ERR_NOGATEWAYSUPPORT,
    /// Failed to connect to the gateway
    NATPMP_ERR_CONNECTERR,
    /// Packet not received from the gateway
    NATPMP_ERR_WRONGPACKETSOURCE,
    /// Failed to send
    NATPMP_ERR_SENDERR,
    /// Failed to set nonblocking
    NATPMP_ERR_FCNTLERROR,
    /// Failed to get time
    NATPMP_ERR_GETTIMEOFDAYERR,
    /// Unsupported NAT-PMP version
    NATPMP_ERR_UNSUPPORTEDVERSION,
    /// Unsupported NAT-PMP opcode
    NATPMP_ERR_UNSUPPORTEDOPCODE,
    /// Unknown NAT-PMP error
    NATPMP_ERR_UNDEFINEDERROR,
    /// Not authorized
    NATPMP_ERR_NOTAUTHORIZED,
    /// Network failure
    NATPMP_ERR_NETWORKFAILURE,
    /// NAT-PMP out of resources
    NATPMP_ERR_OUTOFRESOURCES,
    /// Try again
    NATPMP_TRYAGAIN,
}

impl Error {
    /// The text that describes this error.
    pub open spec fn spec_message(self) -> Seq<char> {
        match self {
            Error::NATPMP_ERR_INVALIDARGS => "invalid arguments"@,
            Error::NATPMP_ERR_SOCKETERROR => "socket failed"@,
            Error::NATPMP_ERR_CANNOTGETGATEWAY => "cannot get default gateway ip address"@,
            Error::NATPMP_ERR_CLOSEERR => "close failed"@,
            Error::NATPMP_ERR_RECVFROM => "recvfrom failed"@,
            Error::NATPMP_ERR_NOPENDINGREQ => "no pending request"@,
            Error::NATPMP_ERR_NOGATEWAYSUPPORT => "the gateway does not support nat-pmp"@,
            Error::NATPMP_ERR_CONNECTERR => "connect failed"@,
            Error::NATPMP_ERR_WRONGPACKETSOURCE => "packet not received from the gateway"@,
            Error::NATPMP_ERR_SENDERR => "send failed"@,
            Error::NATPMP_ERR_FCNTLERROR => "fcntl failed"@,
            Error::NATPMP_ERR_GETTIMEOFDAYERR => "get time failed"@,
            Error::NATPMP_ERR_UNSUPPORTEDVERSION => "unsupported nat-pmp version error from server"@,
            Error::NATPMP_ERR_UNSUPPORTEDOPCODE => "unsupported nat-pmp opcode error from server"@,
            Error::NATPMP_ERR_UNDEFINEDERROR => "undefined nat-pmp server error"@,
            Error::NATPMP_ERR_NOTAUTHORIZED => "not authorized"@,
            Error::NATPMP_ERR_NETWORKFAILURE => "network failure"@,
            Error::NATPMP_ERR_OUTOFRESOURCES => "nat-pmp server out of resources"@,
            Error::NATPMP_TRYAGAIN => "try again"@,
        }
    }

    /// Describes this error in words.
    pub fn message(&self) -> (text: String)
        ensures
            text@ == self.spec_message(),
    {
        let text: &str = match self {
            Error::NATPMP_ERR_INVALIDARGS => "invalid arguments",
            Error::NATPMP_ERR_SOCKETERROR => "socket failed",
            Error::NATPMP_ERR_CANNOTGETGATEWAY => "cannot get default gateway ip address",
            Error::NATPMP_ERR_CLOSEERR => "close failed",
            Error::NATPMP_ERR_RECVFROM => "recvfrom failed",
            Error::NATPMP_ERR_NOPENDINGREQ => "no pending request",
            Error::NATPMP_ERR_NOGATEWAYSUPPORT => "the gateway does not support nat-pmp",
            Error::NATPMP_ERR_CONNECTERR => "connect failed",
            Error::NATPMP_ERR_WRONGPACKETSOURCE => "packet not received from the gateway",
            Error::NATPMP_ERR_SENDERR => "send failed",
            Error::NATPMP_ERR_FCNTLERROR => "fcntl failed",
            Error::NATPMP_ERR_GETTIMEOFDAYERR => "get time failed",
            Error::NATPMP_ERR_UNSUPPORTEDVERSION => "unsupported nat-pmp version error from server",
            Error::NATPMP_ERR_UNSUPPORTEDOPCODE => "unsupported nat-pmp opcode error from server",
            Error::NATPMP_ERR_UNDEFINEDERROR => "undefined nat-pmp server error",
            Error::NATPMP_ERR_NOTAUTHORIZED => "not authorized",
            Error::NATPMP_ERR_NETWORKFAILURE => "network failure",
            Error::NATPMP_ERR_OUTOFRESOURCES => "nat-pmp server out of resources",
            Error::NATPMP_TRYAGAIN => "try again",
        };
        text.to_owned()
    }
}

} // verus!
