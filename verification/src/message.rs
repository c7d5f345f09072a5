//! The values that travel between client and gateway.

use std::time::Duration;
use vstd::prelude::*;
use crate::time::{duration_nanos, whole_seconds};

verus! {

/// The transport protocol of a port mapping.
#[derive(Debug, Copy, Clone, Eq, PartialEq, Hash, Structural)]
pub enum Protocol {
    UDP,
    TCP,
}

impl Protocol {
    /// The opcode of a mapping request for this protocol.
    pub open spec fn spec_opcode(self) -> u8 {
        match self {
            Protocol::UDP => 1,
            Protocol::TCP => 2,
        }
    }

    /// The opcode of a mapping request for this protocol.
    pub fn opcode(self) -> (opcode: u8)
        ensures
            opcode == self.spec_opcode(),
    {
        match self {
            Protocol::UDP => 1,
            Protocol::TCP => 2,
        }
    }
}

/// The kind of a response, as its opcode tells it.
#[derive(Debug, Copy, Clone, Eq, PartialEq, Hash, Structural)]
pub enum ResponseType {
    Gateway,
    UDP,
    TCP,
}

impl ResponseType {
    /// The kind that a response opcode stands for, if it stands for one.
    pub open spec fn spec_from_opcode(opcode: u8) -> Option<ResponseType> {
        if opcode == 128 {
            Some(ResponseType::Gateway)
        } else if opcode == 129 {
            Some(ResponseType::UDP)
        } else if opcode == 130 {
            Some(ResponseType::TCP)
        } else {
            None
        }
    }

    /// Tells the kind of a response from its opcode. Only the opcodes 128 to
    /// 130 are those of a response; the low seven bits of such an opcode are
    /// the opcode of the request that it answers.
    pub fn from_opcode(opcode: u8) -> (kind: Option<ResponseType>)
        ensures
            kind == Self::spec_from_opcode(opcode),
            kind is Some <==> 128 <= opcode <= 130,
    {
        if opcode < 128 || opcode > 130 {
            return None;
        }
        let request_opcode: u8 = opcode & 0x7f;
        assert(request_opcode == opcode - 128) by (bit_vector)
            requires
                request_opcode == opcode & 0x7f,
                128 <= opcode <= 130,
        ;
        if request_opcode == 0 {
            Some(ResponseType::Gateway)
        } else if request_opcode == 1 {
            Some(ResponseType::UDP)
        } else {
            Some(ResponseType::TCP)
        }
    }
}

/// What a gateway response holds, as numbers.
pub struct GatewayView {
    /// Seconds since the gateway started.
    pub epoch: nat,
    /// The four octets of the public address.
    pub public_address: Seq<u8>,
}

/// What a mapping response holds, as numbers.
pub struct MappingView {
    /// Seconds since the gateway started.
    pub epoch: nat,
    /// The port inside the private network.
    pub private_port: nat,
    /// The port on the public side.
    pub public_port: nat,
    /// The granted lifetime in nanoseconds. A gateway grants whole seconds.
    pub lifetime: nat,
}

/// What a response holds, as numbers.
pub enum ResponseView {
    Gateway(GatewayView),
    UDP(MappingView),
    TCP(MappingView),
}

/// The answer to a public address request.
#[derive(Debug, Copy, Clone, Eq, PartialEq)]
pub struct GatewayResponse {
    epoch: u32,
    public_address: [u8; 4],
}

impl View for GatewayResponse {
    type V = GatewayView;

    closed spec fn view(&self) -> GatewayView {
        GatewayView { epoch: self.epoch as nat, public_address: self.public_address@ }
    }
}

impl GatewayResponse {
    /// The response of a gateway that has been up for `epoch` seconds and
    /// has the public address `public_address`.
    pub(crate) fn new(epoch: u32, public_address: [u8; 4]) -> (response: GatewayResponse)
        ensures
            response@ == (GatewayView { epoch: epoch as nat, public_address: public_address@ }),
    {
        GatewayResponse { epoch, public_address }
    }

    /// The public address of the gateway, as its four octets.
    pub fn public_address(&self) -> (address: &[u8; 4])
        ensures
            address@ == self@.public_address,
    {
        &self.public_address
    }

    /// Seconds since the gateway started. The gateway's counter wraps and
    /// may be inaccurate.
    pub fn epoch(&self) -> (epoch: u32)
        ensures
            epoch == self@.epoch,
    {
        self.epoch
    }
}

/// The answer to a port mapping request.
#[derive(Debug, Copy, Clone, Eq, PartialEq)]
pub struct MappingResponse {
    epoch: u32,
    private_port: u16,
    public_port: u16,
    lifetime: Duration,
}

impl View for MappingResponse {
    type V = MappingView;

    closed spec fn view(&self) -> MappingView {
        MappingView {
            epoch: self.epoch as nat,
            private_port: self.private_port as nat,
            public_port: self.public_port as nat,
            lifetime: duration_nanos(self.lifetime),
        }
    }
}

impl MappingResponse {
    /// The response of a gateway that has been up for `epoch` seconds and
    /// grants the mapping of `private_port` to `public_port` for `lifetime`
    /// seconds.
    pub(crate) fn new(epoch: u32, private_port: u16, public_port: u16, lifetime: u32) -> (response:
        MappingResponse)
        ensures
            response@ == (MappingView {
                epoch: epoch as nat,
                private_port: private_port as nat,
                public_port: public_port as nat,
                lifetime: whole_seconds(lifetime as nat),
            }),
    {
        MappingResponse {
            epoch,
            private_port,
            public_port,
            lifetime: Duration::from_secs(lifetime as u64),
        }
    }

    /// Seconds since the gateway started. The gateway's counter wraps and
    /// may be inaccurate.
    pub fn epoch(&self) -> (epoch: u32)
        ensures
            epoch == self@.epoch,
    {
        self.epoch
    }

    /// The port inside the private network.
    pub fn private_port(&self) -> (port: u16)
        ensures
            port == self@.private_port,
    {
        self.private_port
    }

    /// The port on the public side.
    pub fn public_port(&self) -> (port: u16)
        ensures
            port == self@.public_port,
    {
        self.public_port
    }

    /// The time for which the mapping was granted.
    pub fn lifetime(&self) -> (lifetime: &Duration)
        ensures
            duration_nanos(*lifetime) == self@.lifetime,
    {
        &self.lifetime
    }
}

/// A response of the gateway.
#[derive(Debug, Copy, Clone, Eq, PartialEq)]
pub enum Response {
    Gateway(GatewayResponse),
    UDP(MappingResponse),
    TCP(MappingResponse),
}

impl View for Response {
    type V = ResponseView;

    open spec fn view(&self) -> ResponseView {
        match *self {
            Response::Gateway(g) => ResponseView::Gateway(g@),
            Response::UDP(m) => ResponseView::UDP(m@),
            Response::TCP(m) => ResponseView::TCP(m@),
        }
    }
}

impl Response {
    /// The kind of this response.
    pub fn response_type(&self) -> (kind: ResponseType)
        ensures
            kind == match self@ {
                ResponseView::Gateway(_) => ResponseType::Gateway,
                ResponseView::UDP(_) => ResponseType::UDP,
                ResponseView::TCP(_) => ResponseType::TCP,
            },
    {
        match self {
            Response::Gateway(_) => ResponseType::Gateway,
            Response::UDP(_) => ResponseType::UDP,
            Response::TCP(_) => ResponseType::TCP,
        }
    }
}

} // verus!
