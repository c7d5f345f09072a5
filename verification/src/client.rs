//! The client engine: one pending request, its retries, and the validation
//! of what comes back.
//!
//! The engine does no I/O and reads no clock. The caller sends the pending
//! request, tries to receive, and tells the engine what the socket reported
//! and what time it is; the engine answers with the outcome and says whether
//! the request is to be sent again.
//!
//! Every `now` is a time in whole milliseconds on a clock that never runs
//! backwards, counted from an origin that the caller fixes once.

use std::time::Duration;
use vstd::prelude::*;
use crate::error::Error;
use crate::message::{Protocol, Response, ResponseView};
use crate::retry::{
    lemma_backoff_schedule, RetryDecision, RetrySchedule, RetryView, NATPMP_LATEST_START,
    NATPMP_MAX_ATTEMPTS,
};
use crate::time::{duration_nanos, whole_millis};
use crate::wire::{
    decode_response, encode_port_mapping_request, encode_public_address_request,
    spec_decode_response, spec_decoded, spec_port_mapping_request, spec_public_address_request,
};

verus! {

/// What one attempt to receive a datagram brought.
#[derive(Debug, Copy, Clone, Eq, PartialEq)]
pub enum Received {
    /// Nothing has arrived yet.
    WouldBlock,
    /// The gateway's port is closed: a datagram bounced.
    ConnectionRefused,
    /// The socket failed in another way.
    Failed,
    /// A datagram has arrived.
    Datagram {
        /// The IPv4 address that it came from, where the socket told one.
        source: Option<[u8; 4]>,
        /// Its first 16 bytes, followed by zeros where it was shorter.
        data: [u8; 16],
    },
}

impl Received {
    /// What a failed receive means, told from the error code of the
    /// operating system, if there is one. `would_block` and
    /// `connection_refused` are the codes that the platform uses for the two
    /// conditions.
    pub fn from_os_error(code: Option<i32>, would_block: i32, connection_refused: i32) -> (received:
        Received)
        ensures
            received == match code {
                Some(code) => if code == would_block {
                    Received::WouldBlock
                } else if code == connection_refused {
                    Received::ConnectionRefused
                } else {
                    Received::Failed
                },
                None => Received::Failed,
            },
    {
        match code {
            Some(code) => {
                if code == would_block {
                    Received::WouldBlock
                } else if code == connection_refused {
                    Received::ConnectionRefused
                } else {
                    Received::Failed
                }
            },
            None => Received::Failed,
        }
    }
}

/// The pending request as numbers.
pub struct PendingView {
    /// The bytes of the request, as they are sent each time.
    pub request: Seq<u8>,
    /// Its retry schedule.
    pub schedule: RetryView,
}

/// The engine as numbers.
pub struct NatpmpView {
    /// The four octets of the gateway's address.
    pub gateway: Seq<u8>,
    /// The pending request, if there is one.
    pub pending: Option<PendingView>,
}

impl NatpmpView {
    /// The engine without its pending request.
    pub open spec fn idle(self) -> NatpmpView {
        NatpmpView { gateway: self.gateway, pending: None }
    }

    /// The engine after `request` became its pending request at `now`.
    /// Whatever was pending before is forgotten.
    pub open spec fn armed(self, request: Seq<u8>, now: nat) -> NatpmpView {
        NatpmpView {
            gateway: self.gateway,
            pending: Some(PendingView { request, schedule: RetryView::started(now) }),
        }
    }

    /// Whether a datagram from `source` is taken for one of the gateway. One
    /// without a source address is.
    pub open spec fn accepts_source(self, source: Option<[u8; 4]>) -> bool {
        source matches Some(address) ==> address@ == self.gateway
    }

    /// What an attempt to receive means for the request, the clock left aside.
    pub open spec fn read_response(self, received: Received) -> Result<ResponseView, Error> {
        match received {
            Received::WouldBlock => Err(Error::NATPMP_TRYAGAIN),
            Received::ConnectionRefused => Err(Error::NATPMP_ERR_NOGATEWAYSUPPORT),
            Received::Failed => Err(Error::NATPMP_ERR_RECVFROM),
            Received::Datagram { source, data } => if self.accepts_source(source) {
                spec_decode_response(data@)
            } else {
                Err(Error::NATPMP_ERR_WRONGPACKETSOURCE)
            },
        }
    }

    /// The engine after attempts to receive at each of `nows`, in order, to
    /// none of which anything had arrived.
    pub open spec fn after_would_blocks(self, nows: Seq<nat>) -> NatpmpView
        decreases nows.len(),
    {
        if nows.len() == 0 {
            self
        } else {
            self.after_would_blocks(nows.drop_last()).read_response_or_retry(
                nows.last(),
                Received::WouldBlock,
            ).0
        }
    }

    /// One step of the engine: the engine afterwards, the outcome, and
    /// whether the pending request is to be sent again.
    ///
    /// - Without a pending request nothing happens.
    /// - When nothing has arrived, the retry schedule decides: wait, send
    ///   again, or give the gateway up.
    /// - A refusal gives the gateway up at once.
    /// - A failure of the socket and a datagram from elsewhere leave the
    ///   request pending.
    /// - A datagram of the gateway ends the request, whether it decodes to a
    ///   response or to an error.
    pub open spec fn read_response_or_retry(self, now: nat, received: Received) -> (
        NatpmpView,
        Result<ResponseView, Error>,
        bool,
    ) {
        match self.pending {
            None => (self, Err(Error::NATPMP_ERR_NOPENDINGREQ), false),
            Some(pending) => match received {
                Received::WouldBlock => {
                    let (schedule, decision) = pending.schedule.on_timeout_or_would_block(now);
                    match decision {
                        RetryDecision::Wait => (self, Err(Error::NATPMP_TRYAGAIN), false),
                        RetryDecision::Resend => (
                            NatpmpView {
                                gateway: self.gateway,
                                pending: Some(PendingView { request: pending.request, schedule }),
                            },
                            Err(Error::NATPMP_TRYAGAIN),
                            true,
                        ),
                        RetryDecision::GiveUp => (
                            self.idle(),
                            Err(Error::NATPMP_ERR_NOGATEWAYSUPPORT),
                            false,
                        ),
                    }
                },
                Received::ConnectionRefused => (
                    self.idle(),
                    Err(Error::NATPMP_ERR_NOGATEWAYSUPPORT),
                    false,
                ),
                Received::Failed => (self, Err(Error::NATPMP_ERR_RECVFROM), false),
                Received::Datagram { source, data } => if self.accepts_source(source) {
                    (self.idle(), spec_decode_response(data@), false)
                } else {
                    (self, Err(Error::NATPMP_ERR_WRONGPACKETSOURCE), false)
                },
            },
        }
    }
}

/// A request is sent nine times at most, and always as the same bytes.
///
/// `request` became the pending request at `sent_at`. Since then nothing has
/// arrived: the caller tried to receive at each of `nows`, each time at or
/// after the deadline of the moment, and tries once more at `now`, at or after
/// the deadline again. Let this be timeout number `k`, counted from 1. Then the
/// pending request is still `request` and its schedule is that of the retry
/// module after the same timeouts. If `k` is at most 8, the outcome is
/// `NATPMP_TRYAGAIN` and the request is to be sent again. If `k` is 9, the
/// outcome is `NATPMP_ERR_NOGATEWAYSUPPORT`, nothing is sent, and no request
/// is pending any more.
pub proof fn lemma_retries_until_given_up(
    engine: NatpmpView,
    request: Seq<u8>,
    sent_at: nat,
    nows: Seq<nat>,
    now: nat,
)
    requires
        nows.len() < NATPMP_MAX_ATTEMPTS,
        RetryView::started(sent_at).all_due(nows),
        now >= RetryView::started(sent_at).after_timeouts(nows).next_deadline,
    ensures
        ({
            let k = nows.len() + 1;
            let schedule = RetryView::started(sent_at).after_timeouts(nows);
            let before = engine.armed(request, sent_at).after_would_blocks(nows);
            let step = before.read_response_or_retry(now, Received::WouldBlock);
            &&& before == (NatpmpView {
                gateway: engine.gateway,
                pending: Some(PendingView { request, schedule }),
            })
            &&& k < NATPMP_MAX_ATTEMPTS ==> step == (
                NatpmpView {
                    gateway: engine.gateway,
                    pending: Some(
                        PendingView {
                            request,
                            schedule: schedule.on_timeout_or_would_block(now).0,
                        },
                    ),
                },
                Err::<ResponseView, Error>(Error::NATPMP_TRYAGAIN),
                true,
            )
            &&& k == NATPMP_MAX_ATTEMPTS ==> step == (
                engine.idle(),
                Err::<ResponseView, Error>(Error::NATPMP_ERR_NOGATEWAYSUPPORT),
                false,
            )
        }),
    decreases nows.len(),
{
    lemma_backoff_schedule(sent_at, nows, now);
    if nows.len() > 0 {
        lemma_retries_until_given_up(engine, request, sent_at, nows.drop_last(), nows.last());
    }
}

/// The bytes of a request never change, nor does the gateway. Whatever an
/// attempt to receive brings, and whenever: if a request is pending after the
/// step, it was pending before it, with the same bytes.
pub proof fn lemma_step_keeps_request(engine: NatpmpView, now: nat, received: Received)
    ensures
        ({
            let after = engine.read_response_or_retry(now, received).0;
            &&& after.gateway == engine.gateway
            &&& after.pending matches Some(pending) ==> engine.pending is Some
                && pending.request == engine.pending->Some_0.request
        }),
{
}

/// A datagram from elsewhere does no harm. While a request is pending, a
/// datagram that names another source than the gateway is refused, whatever it
/// holds, and the engine stays as it was: nothing is sent again and the
/// request is still pending. A datagram of the gateway that decodes to a
/// response and comes after it, at any time, is decoded to that response and
/// ends the request.
pub proof fn lemma_wrong_source_keeps_request(
    engine: NatpmpView,
    stray: Received,
    stray_at: nat,
    genuine: Received,
    genuine_at: nat,
)
    requires
        engine.pending is Some,
        stray matches Received::Datagram { source, .. } && !engine.accepts_source(source),
        genuine matches Received::Datagram { source, data } && engine.accepts_source(source)
            && spec_decode_response(data@) is Ok,
    ensures
        engine.read_response_or_retry(stray_at, stray) == (
            engine,
            Err::<ResponseView, Error>(Error::NATPMP_ERR_WRONGPACKETSOURCE),
            false,
        ),
        engine.read_response_or_retry(stray_at, stray).0.read_response_or_retry(
            genuine_at,
            genuine,
        ) == (engine.idle(), spec_decode_response(genuine->data@), false),
{
}

/// Whether two addresses are the same.
pub fn same_address(a: &[u8; 4], b: &[u8; 4]) -> (same: bool)
    ensures
        same == (a@ == b@),
{
    let same = a[0] == b[0] && a[1] == b[1] && a[2] == b[2] && a[3] == b[3];
    assert(same ==> a@ =~= b@);
    same
}

/// The one request that waits for its response.
#[derive(Debug)]
struct PendingRequest {
    request: Vec<u8>,
    schedule: RetrySchedule,
}

/// What a step of the engine brought.
#[derive(Debug)]
pub struct Step {
    /// The response of the gateway, or why there is none.
    pub result: Result<Response, Error>,
    /// Whether the caller has to send the pending request again now.
    pub resend: bool,
}

/// The engine of a NAT-PMP client.
#[derive(Debug)]
pub struct Natpmp {
    gateway: [u8; 4],
    pending: Option<PendingRequest>,
}

impl View for Natpmp {
    type V = NatpmpView;

    closed spec fn view(&self) -> NatpmpView {
        NatpmpView {
            gateway: self.gateway@,
            pending: match self.pending {
                Some(pending) => Some(
                    PendingView { request: pending.request@, schedule: pending.schedule@ },
                ),
                None => None,
            },
        }
    }
}

impl Natpmp {
    /// An engine for the gateway at `gateway`, with no request pending.
    pub fn new_with(gateway: [u8; 4]) -> (engine: Natpmp)
        ensures
            engine@ == (NatpmpView { gateway: gateway@, pending: None }),
    {
        Natpmp { gateway, pending: None }
    }

    /// The address of the gateway.
    pub fn gateway(&self) -> (gateway: &[u8; 4])
        ensures
            gateway@ == self@.gateway,
    {
        &self.gateway
    }

    /// The bytes of the pending request, if there is one: what the caller
    /// sends, the first time and every time again.
    pub fn pending_request(&self) -> (request: Option<&[u8]>)
        ensures
            match request {
                Some(bytes) => self@.pending is Some && bytes@ == self@.pending->Some_0.request,
                None => self@.pending is None,
            },
    {
        match &self.pending {
            Some(pending) => Some(pending.request.as_slice()),
            None => None,
        }
    }

    /// Judges what the socket reported of sending the pending request:
    /// `Some` with the number of bytes that it took, or `None` where it
    /// failed. The request is sent only if the socket took all of it.
    pub fn send_pending_request(&self, sent: Option<usize>) -> (result: Result<(), Error>)
        ensures
            result == match self@.pending {
                Some(pending) => if sent == Some(pending.request.len() as usize) {
                    Ok::<(), Error>(())
                } else {
                    Err::<(), Error>(Error::NATPMP_ERR_SENDERR)
                },
                None => Err::<(), Error>(Error::NATPMP_ERR_NOPENDINGREQ),
            },
    {
        match &self.pending {
            Some(pending) => {
                if let Some(count) = sent {
                    if count == pending.request.len() {
                        return Ok(());
                    }
                }
                Err(Error::NATPMP_ERR_SENDERR)
            },
            None => Err(Error::NATPMP_ERR_NOPENDINGREQ),
        }
    }

    /// Makes `request` the pending request, first sent at `now`.
    fn send_natpmp_request(&mut self, request: Vec<u8>, now: u64)
        requires
            now <= NATPMP_LATEST_START,
        ensures
            final(self)@ == old(self)@.armed(request@, now as nat),
    {
        self.pending = Some(PendingRequest { request, schedule: RetrySchedule::start(now) });
    }

    /// The time that is left from `now` until the pending request times out,
    /// in whole milliseconds; no time when it has timed out.
    pub fn get_natpmp_request_timeout(&self, now: u64) -> (timeout: Result<Duration, Error>)
        ensures
            match timeout {
                Ok(left) => self@.pending is Some && duration_nanos(left) == whole_millis(
                    self@.pending->Some_0.schedule.query_timeout(now as nat),
                ),
                Err(error) => self@.pending is None && error == Error::NATPMP_ERR_NOPENDINGREQ,
            },
    {
        match &self.pending {
            Some(pending) => Ok(Duration::from_millis(pending.schedule.query_timeout(now))),
            None => Err(Error::NATPMP_ERR_NOPENDINGREQ),
        }
    }

    /// Makes the request for the gateway's public address the pending
    /// request, first sent at `now`. The caller sends it, and has
    /// `send_pending_request` judge what the socket said.
    ///
    /// A request that was pending is dropped, and its schedule with it. `now`
    /// leaves room on the clock for all the deadlines of the request.
    pub fn send_public_address_request(&mut self, now: u64)
        requires
            now <= NATPMP_LATEST_START,
        ensures
            final(self)@ == old(self)@.armed(spec_public_address_request(), now as nat),
    {
        let request = encode_public_address_request();
        self.send_natpmp_request(request, now);
    }

    /// Makes the request to map `private_port` to `public_port` for
    /// `lifetime` seconds the pending request, first sent at `now`. The caller
    /// sends it, and has `send_pending_request` judge what the socket said.
    ///
    /// A request that was pending is dropped, and its schedule with it. `now`
    /// leaves room on the clock for all the deadlines of the request.
    pub fn send_port_mapping_request(
        &mut self,
        protocol: Protocol,
        private_port: u16,
        public_port: u16,
        lifetime: u32,
        now: u64,
    )
        requires
            now <= NATPMP_LATEST_START,
        ensures
            final(self)@ == old(self)@.armed(
                spec_port_mapping_request(protocol, private_port, public_port, lifetime),
                now as nat,
            ),
    {
        let request = encode_port_mapping_request(protocol, private_port, public_port, lifetime);
        self.send_natpmp_request(request, now);
    }

    /// Reads what an attempt to receive brought, the clock left aside: a
    /// datagram from another address than the gateway's is refused, one of the
    /// gateway is decoded.
    pub fn read_response(&self, received: &Received) -> (result: Result<Response, Error>)
        ensures
            spec_decoded(result) == self@.read_response(*received),
    {
        match received {
            Received::WouldBlock => Err(Error::NATPMP_TRYAGAIN),
            Received::ConnectionRefused => Err(Error::NATPMP_ERR_NOGATEWAYSUPPORT),
            Received::Failed => Err(Error::NATPMP_ERR_RECVFROM),
            Received::Datagram { source, data } => {
                if let Some(address) = source {
                    if !same_address(address, &self.gateway) {
                        return Err(Error::NATPMP_ERR_WRONGPACKETSOURCE);
                    }
                }
                decode_response(data.as_slice())
            },
        }
    }

    /// Takes one step: reads what an attempt to receive at `now` brought,
    /// and where nothing has arrived lets the retry schedule decide.
    ///
    /// `NATPMP_TRYAGAIN` asks the caller to try to receive again, after
    /// sending the pending request once more where `resend` says so.
    pub fn read_response_or_retry(&mut self, now: u64, received: &Received) -> (step: Step)
        ensures
            (final(self)@, spec_decoded(step.result), step.resend) == old(
                self,
            )@.read_response_or_retry(now as nat, *received),
    {
        if self.pending.is_none() {
            return Step { result: Err(Error::NATPMP_ERR_NOPENDINGREQ), resend: false };
        }
        let result = self.read_response(received);
        match result {
            Err(Error::NATPMP_TRYAGAIN) => {
                let mut pending = self.pending.take().unwrap();
                match pending.schedule.on_timeout_or_would_block(now) {
                    RetryDecision::Wait => {
                        self.pending = Some(pending);
                        Step { result, resend: false }
                    },
                    RetryDecision::Resend => {
                        self.pending = Some(pending);
                        Step { result, resend: true }
                    },
                    RetryDecision::GiveUp => Step {
                        result: Err(Error::NATPMP_ERR_NOGATEWAYSUPPORT),
                        resend: false,
                    },
                }
            },
            Err(Error::NATPMP_ERR_WRONGPACKETSOURCE) | Err(Error::NATPMP_ERR_RECVFROM) => Step {
                result,
                resend: false,
            },
            _ => {
                self.pending = None;
                Step { result, resend: false }
            },
        }
    }
}

} // verus!
