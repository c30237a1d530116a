//! The I/O actor's state and decisions.
//!
//! The actor owns the connection: it writes requested packets, parks
//! the callers' reply slots keyed by PID (or the single CONNACK slot),
//! completes them when the matching inbound packet arrives, and keeps
//! the connection alive with PINGREQ packets. Everything the actor
//! decides is a function here from state and event to new state and an
//! instruction; the runtime around the library performs the reads,
//! writes and waits and feeds the outcomes back in.
//!
//! Times are taken as milliseconds on a monotonic clock, supplied by
//! the caller and never decreasing.

use vstd::prelude::*;
use std::collections::HashMap;
use crate::packet::{MqttPacket, PacketS, spec_ack_pid};

verus! {

broadcast use vstd::std_specs::hash::group_hash_axioms;

/// Keep-alive configuration: disabled, or a period in seconds.
#[derive(Clone, Copy, Debug, PartialEq, Eq, Structural)]
pub enum KeepAlive {
    Disabled,
    Enabled { secs: u16 },
}

/// Upper bound on the clock values the session accepts, far beyond any
/// realistic uptime in milliseconds; it keeps deadline sums within u64.
pub const TIME_CAP: u64 = 0x1000_0000_0000_0000;

/// What an I/O request asks the actor to do.
#[derive(Clone, Debug, PartialEq, Eq)]
pub enum IoType {
    /// Write a packet; no response is expected.
    WriteOnly { packet: MqttPacket },
    /// Write a packet and park the reply until the response carrying
    /// `response_pid` arrives.
    WriteAndResponse { packet: MqttPacket, response_pid: u16 },
    /// Write a CONNECT packet and park the reply until a CONNACK
    /// arrives.
    WriteConnect { packet: MqttPacket },
    /// Shut the connection down gracefully.
    Shutdown,
}

impl IoType {
    /// The packet to write, if the request carries one.
    pub open spec fn spec_packet(self) -> Option<PacketS> {
        match self {
            IoType::WriteOnly { packet } => Some(packet@),
            IoType::WriteAndResponse { packet, .. } => Some(packet@),
            IoType::WriteConnect { packet } => Some(packet@),
            IoType::Shutdown => None,
        }
    }

    /// The packet to write, if the request carries one.
    pub fn packet(&self) -> (r: Option<&MqttPacket>)
        ensures
            match r {
                Some(p) => self.spec_packet() == Some(p@),
                None => self.spec_packet() is None,
            },
    {
        match self {
            IoType::Shutdown => None,
            IoType::WriteOnly { packet } => Some(packet),
            IoType::WriteAndResponse { packet, .. } => Some(packet),
            IoType::WriteConnect { packet, .. } => Some(packet),
        }
    }
}

/// An I/O request from the façade to the actor. `req_id` names the
/// caller's one-shot reply slot, which the runtime holds.
pub struct IoRequest {
    pub req_id: u64,
    pub io_type: IoType,
}

/// The write the actor has started but not yet reported finished.
#[derive(Clone, Copy, Debug, PartialEq, Eq, Structural)]
pub enum PendingWrite {
    /// No write is in flight.
    Idle,
    /// A `WriteOnly` write: on success the reply completes at once.
    ReplyNone { req_id: u64 },
    /// A `WriteAndResponse` write: on success the reply parks under
    /// `pid`.
    Park { req_id: u64, pid: u16 },
    /// A `WriteConnect` write: on success the reply parks in the
    /// CONNACK slot.
    ParkConnack { req_id: u64 },
}

/// Instruction returned by `on_request`.
#[derive(Clone, Debug, PartialEq, Eq)]
pub enum RequestStep {
    /// Write this packet to the stream, then report the outcome with
    /// `on_write_result`.
    Write { packet: MqttPacket },
    /// Shut the stream down, complete the reply `req_id` with no
    /// packet, and exit the actor loop reporting `Disconnected`.
    ShutdownReply { req_id: u64 },
}

/// Instruction returned by `on_write_result`.
#[derive(Clone, Copy, Debug, PartialEq, Eq, Structural)]
pub enum AfterWrite {
    /// Complete the reply `req_id`: with no packet if `ok`, with the
    /// write error otherwise.
    Reply { req_id: u64, ok: bool },
    /// The reply was parked under its PID; if a reply was already
    /// parked there, `evicted` names it and its slot is dropped.
    Parked { evicted: Option<u64> },
    /// The reply was parked in the CONNACK slot; `evicted` names the
    /// reply it displaced, if any.
    ParkedConnack { evicted: Option<u64> },
}

/// Instruction returned by `on_packet`.
#[derive(Clone, Debug, PartialEq, Eq)]
pub enum PacketStep {
    /// Nothing to do (the packet was ignored, recorded, or no reply was
    /// parked for it).
    Done,
    /// Forward this inbound PUBLISH to the subscription channel.
    Forward { packet: MqttPacket },
    /// Complete the parked reply `req_id` with this packet.
    Reply { req_id: u64, packet: MqttPacket },
}

/// The actor's state: timing, the parked replies and the write in
/// flight.
pub struct SessionCore {
    keep_alive: KeepAlive,
    op_timeout_ms: u64,
    last_write_time: u64,
    last_pingreq_time: u64,
    last_pingresp_time: u64,
    parked: HashMap<u16, u64>,
    connack_slot: Option<u64>,
    pending: PendingWrite,
}

impl SessionCore {
    pub closed spec fn keep_alive(self) -> KeepAlive {
        self.keep_alive
    }

    pub closed spec fn op_timeout(self) -> u64 {
        self.op_timeout_ms
    }

    pub closed spec fn last_write(self) -> u64 {
        self.last_write_time
    }

    pub closed spec fn last_pingreq(self) -> u64 {
        self.last_pingreq_time
    }

    pub closed spec fn last_pingresp(self) -> u64 {
        self.last_pingresp_time
    }

    /// The parked replies: each PID holds at most one reply slot, the
    /// map's value for it.
    pub closed spec fn parked(self) -> Map<u16, u64> {
        self.parked@
    }

    /// The reply parked for the CONNACK, if any.
    pub closed spec fn connack_parked(self) -> Option<u64> {
        self.connack_slot
    }

    pub closed spec fn pending(self) -> PendingWrite {
        self.pending
    }

    pub closed spec fn wf(self) -> bool {
        &&& self.op_timeout_ms <= TIME_CAP
        &&& self.last_write_time <= TIME_CAP
        &&& self.last_pingreq_time <= TIME_CAP
        &&& self.last_pingresp_time <= TIME_CAP
    }

    /// A PINGREQ has been written and its PINGRESP has not arrived.
    pub open spec fn ping_outstanding(self) -> bool {
        self.last_pingreq() > self.last_pingresp()
    }

    /// A fresh actor state at time `now`: nothing parked, no ping
    /// outstanding, the write clock starting now.
    pub fn new(keep_alive: KeepAlive, op_timeout_ms: u64, now: u64) -> (r: SessionCore)
        requires
            op_timeout_ms <= TIME_CAP,
            now <= TIME_CAP,
        ensures
            r.wf(),
            r.keep_alive() == keep_alive,
            r.op_timeout() == op_timeout_ms,
            r.last_write() == now,
            r.last_pingreq() == now,
            r.last_pingresp() == now,
            r.parked() == Map::<u16, u64>::empty(),
            r.connack_parked() == None::<u64>,
            r.pending() == PendingWrite::Idle,
            !r.ping_outstanding(),
    {
        SessionCore {
            keep_alive,
            op_timeout_ms,
            last_write_time: now,
            last_pingreq_time: now,
            last_pingresp_time: now,
            parked: HashMap::new(),
            connack_slot: None,
            pending: PendingWrite::Idle,
        }
    }

    /// When the next PINGREQ is due: `last_write_time` plus the
    /// keep-alive period, or nothing when keep-alive is disabled.
    pub fn next_keepalive(&self) -> (r: Option<u64>)
        requires
            self.wf(),
        ensures
            match self.keep_alive() {
                KeepAlive::Disabled => r == None::<u64>,
                KeepAlive::Enabled { secs } => (r matches Some(t) && t
                    == self.last_write() + secs * 1000),
            },
    {
        match self.keep_alive {
            KeepAlive::Disabled => None,
            KeepAlive::Enabled { secs } => Some(self.last_write_time + (secs as u64) * 1000),
        }
    }

    /// When an outstanding PINGREQ's response is due: the time the ping
    /// was written plus the operation timeout, or nothing when no ping
    /// is outstanding.
    pub fn next_pingresp_deadline(&self) -> (r: Option<u64>)
        requires
            self.wf(),
        ensures
            if self.ping_outstanding() {
                r matches Some(t) && t == self.last_pingreq() + self.op_timeout()
            } else {
                r == None::<u64>
            },
    {
        if self.last_pingreq_time > self.last_pingresp_time {
            Some(self.last_pingreq_time + self.op_timeout_ms)
        } else {
            None
        }
    }

    /// The PINGRESP for an outstanding PINGREQ is overdue at `now`.
    pub fn pingresp_overdue(&self, now: u64) -> (r: bool)
        requires
            self.wf(),
        ensures
            r == (self.ping_outstanding() && now >= self.last_pingreq() + self.op_timeout()),
    {
        self.last_pingreq_time > self.last_pingresp_time && now >= self.last_pingreq_time
            + self.op_timeout_ms
    }

    /// Take in an I/O request: the write clock moves to `now`; a
    /// request carrying a packet hands that packet back to be written
    /// and is remembered until `on_write_result`; a shutdown request
    /// ends the actor.
    pub fn on_request(&mut self, req: IoRequest, now: u64) -> (step: RequestStep)
        requires
            old(self).wf(),
            old(self).pending() == PendingWrite::Idle,
            now <= TIME_CAP,
        ensures
            final(self).wf(),
            final(self).last_write() == now,
            final(self).keep_alive() == old(self).keep_alive(),
            final(self).op_timeout() == old(self).op_timeout(),
            final(self).last_pingreq() == old(self).last_pingreq(),
            final(self).last_pingresp() == old(self).last_pingresp(),
            final(self).parked() == old(self).parked(),
            final(self).connack_parked() == old(self).connack_parked(),
            match req.io_type {
                IoType::WriteOnly { packet } => {
                    &&& (step matches RequestStep::Write { packet: w } && w@ == packet@)
                    &&& final(self).pending() == (PendingWrite::ReplyNone { req_id: req.req_id })
                },
                IoType::WriteAndResponse { packet, response_pid } => {
                    &&& (step matches RequestStep::Write { packet: w } && w@ == packet@)
                    &&& final(self).pending() == (PendingWrite::Park {
                        req_id: req.req_id,
                        pid: response_pid,
                    })
                },
                IoType::WriteConnect { packet } => {
                    &&& (step matches RequestStep::Write { packet: w } && w@ == packet@)
                    &&& final(self).pending() == (PendingWrite::ParkConnack { req_id: req.req_id })
                },
                IoType::Shutdown => {
                    &&& step matches RequestStep::ShutdownReply { req_id: i } && i == req.req_id
                    &&& final(self).pending() == PendingWrite::Idle
                },
            },
    {
        self.last_write_time = now;
        match req.io_type {
            IoType::Shutdown => RequestStep::ShutdownReply { req_id: req.req_id },
            IoType::WriteOnly { packet } => {
                self.pending = PendingWrite::ReplyNone { req_id: req.req_id };
                RequestStep::Write { packet }
            },
            IoType::WriteAndResponse { packet, response_pid } => {
                self.pending = PendingWrite::Park { req_id: req.req_id, pid: response_pid };
                RequestStep::Write { packet }
            },
            IoType::WriteConnect { packet } => {
                self.pending = PendingWrite::ParkConnack { req_id: req.req_id };
                RequestStep::Write { packet }
            },
        }
    }

    /// Report the outcome of the write started by `on_request`. On
    /// failure the reply is completed with the error and nothing is
    /// parked; on success a `WriteOnly` reply completes at once and the
    /// other kinds park, displacing at most the reply already in their
    /// slot.
    pub fn on_write_result(&mut self, ok: bool) -> (step: AfterWrite)
        requires
            old(self).wf(),
            old(self).pending() != PendingWrite::Idle,
        ensures
            final(self).wf(),
            final(self).pending() == PendingWrite::Idle,
            final(self).keep_alive() == old(self).keep_alive(),
            final(self).op_timeout() == old(self).op_timeout(),
            final(self).last_write() == old(self).last_write(),
            final(self).last_pingreq() == old(self).last_pingreq(),
            final(self).last_pingresp() == old(self).last_pingresp(),
            match old(self).pending() {
                PendingWrite::Idle => false,
                PendingWrite::ReplyNone { req_id } => {
                    &&& final(self).parked() == old(self).parked()
                    &&& final(self).connack_parked() == old(self).connack_parked()
                    &&& step == (AfterWrite::Reply { req_id, ok })
                },
                PendingWrite::Park { req_id, pid } => {
                    if ok {
                        &&& final(self).parked() == old(self).parked().insert(pid, req_id)
                        &&& final(self).connack_parked() == old(self).connack_parked()
                        &&& step == (AfterWrite::Parked {
                            evicted: if old(self).parked().contains_key(pid) {
                                Some(old(self).parked()[pid])
                            } else {
                                None
                            },
                        })
                    } else {
                        &&& final(self).parked() == old(self).parked()
                        &&& final(self).connack_parked() == old(self).connack_parked()
                        &&& step == (AfterWrite::Reply { req_id, ok: false })
                    }
                },
                PendingWrite::ParkConnack { req_id } => {
                    if ok {
                        &&& final(self).parked() == old(self).parked()
                        &&& final(self).connack_parked() == Some(req_id)
                        &&& step == (AfterWrite::ParkedConnack {
                            evicted: old(self).connack_parked(),
                        })
                    } else {
                        &&& final(self).parked() == old(self).parked()
                        &&& final(self).connack_parked() == old(self).connack_parked()
                        &&& step == (AfterWrite::Reply { req_id, ok: false })
                    }
                },
            },
    {
        let pending = self.pending;
        self.pending = PendingWrite::Idle;
        match pending {
            PendingWrite::Idle => AfterWrite::Reply { req_id: 0, ok },  // unreachable by contract
            PendingWrite::ReplyNone { req_id } => AfterWrite::Reply { req_id, ok },
            PendingWrite::Park { req_id, pid } => {
                if ok {
                    let evicted = self.parked.insert(pid, req_id);
                    AfterWrite::Parked { evicted }
                } else {
                    AfterWrite::Reply { req_id, ok: false }
                }
            },
            PendingWrite::ParkConnack { req_id } => {
                if ok {
                    let evicted = self.connack_slot;
                    self.connack_slot = Some(req_id);
                    AfterWrite::ParkedConnack { evicted }
                } else {
                    AfterWrite::Reply { req_id, ok: false }
                }
            },
        }
    }

    /// Take in a decoded inbound packet: PINGRESP stamps the ping
    /// clock; a PUBLISH is forwarded to the subscription channel; a
    /// CONNACK empties the CONNACK slot and completes its reply if one
    /// was parked; an acknowledgement completes the reply parked under
    /// its PID, or is dropped when none is; anything else is ignored.
    pub fn on_packet(&mut self, p: MqttPacket, now: u64) -> (step: PacketStep)
        requires
            old(self).wf(),
            now <= TIME_CAP,
        ensures
            final(self).wf(),
            final(self).keep_alive() == old(self).keep_alive(),
            final(self).op_timeout() == old(self).op_timeout(),
            final(self).last_write() == old(self).last_write(),
            final(self).last_pingreq() == old(self).last_pingreq(),
            final(self).pending() == old(self).pending(),
            match p@ {
                PacketS::Pingresp => {
                    &&& final(self).last_pingresp() == now
                    &&& final(self).parked() == old(self).parked()
                    &&& final(self).connack_parked() == old(self).connack_parked()
                    &&& step is Done
                },
                PacketS::Publish(_) => {
                    &&& final(self).last_pingresp() == old(self).last_pingresp()
                    &&& final(self).parked() == old(self).parked()
                    &&& final(self).connack_parked() == old(self).connack_parked()
                    &&& (step matches PacketStep::Forward { packet } && packet@ == p@)
                },
                PacketS::Connack(_) => {
                    &&& final(self).last_pingresp() == old(self).last_pingresp()
                    &&& final(self).parked() == old(self).parked()
                    &&& final(self).connack_parked() == None::<u64>
                    &&& match old(self).connack_parked() {
                        Some(id) => step matches PacketStep::Reply { req_id, packet }
                            && req_id == id && packet@ == p@,
                        None => step is Done,
                    }
                },
                _ => {
                    &&& final(self).last_pingresp() == old(self).last_pingresp()
                    &&& final(self).connack_parked() == old(self).connack_parked()
                    &&& match spec_ack_pid(p@) {
                        Some(pid) => {
                            &&& final(self).parked() == old(self).parked().remove(pid)
                            &&& if old(self).parked().contains_key(pid) {
                                step matches PacketStep::Reply { req_id, packet } && req_id == old(
                                    self,
                                ).parked()[pid] && packet@ == p@
                            } else {
                                step is Done
                            }
                        },
                        None => {
                            &&& final(self).parked() == old(self).parked()
                            &&& step is Done
                        },
                    }
                },
            },
    {
        match &p {
            MqttPacket::Pingresp => {
                self.last_pingresp_time = now;
                PacketStep::Done
            },
            MqttPacket::Publish(_) => PacketStep::Forward { packet: p },
            MqttPacket::Connack(_) => {
                let slot = self.connack_slot;
                self.connack_slot = None;
                match slot {
                    Some(id) => PacketStep::Reply { req_id: id, packet: p },
                    None => PacketStep::Done,
                }
            },
            _ => {
                let pid_opt = ack_pid(&p);
                match pid_opt {
                    Some(pid) => {
                        let removed = self.parked.remove(&pid);
                        match removed {
                            Some(id) => PacketStep::Reply { req_id: id, packet: p },
                            None => PacketStep::Done,
                        }
                    },
                    None => PacketStep::Done,
                }
            },
        }
    }

    /// The keep-alive deadline has passed with nothing written: stamp
    /// the write and ping clocks and hand back the PINGREQ to write.
    /// The deadline precondition is the guarantee that a PINGREQ is
    /// never written before `last_write_time` plus the keep-alive
    /// period; the clock precondition is this module's monotonicity
    /// assumption, and makes the written ping count as outstanding
    /// whenever the clock has moved past the last PINGRESP.
    pub fn on_keepalive(&mut self, now: u64) -> (p: MqttPacket)
        requires
            old(self).wf(),
            now <= TIME_CAP,
            now >= old(self).last_pingresp(),
            old(self).keep_alive() matches KeepAlive::Enabled { secs } && now >= old(
                self,
            ).last_write() + secs * 1000,
        ensures
            final(self).wf(),
            final(self).keep_alive() == old(self).keep_alive(),
            final(self).op_timeout() == old(self).op_timeout(),
            final(self).last_write() == now,
            final(self).last_pingreq() == now,
            final(self).last_pingresp() == old(self).last_pingresp(),
            final(self).parked() == old(self).parked(),
            final(self).connack_parked() == old(self).connack_parked(),
            final(self).pending() == old(self).pending(),
            final(self).ping_outstanding() == (now > old(self).last_pingresp()),
            p@ == PacketS::Pingreq,
    {
        self.last_write_time = now;
        self.last_pingreq_time = now;
        MqttPacket::Pingreq
    }
}

/// The PID by which an inbound acknowledgement is correlated.
pub fn ack_pid(p: &MqttPacket) -> (r: Option<u16>)
    ensures
        r == spec_ack_pid(p@),
{
    match p {
        MqttPacket::Puback(pid) => Some(*pid),
        MqttPacket::Pubrec(pid) => Some(*pid),
        MqttPacket::Pubrel(pid) => Some(*pid),
        MqttPacket::Pubcomp(pid) => Some(*pid),
        MqttPacket::Suback(suback) => Some(suback.pid),
        MqttPacket::Unsuback(pid) => Some(*pid),
        _ => None,
    }
}

/// The actor never holds two parked replies for one PID: the parked
/// state is a map, so whatever is parked under a PID is a single reply
/// slot.
pub proof fn lemma_parked_single_slot(s: SessionCore, pid: u16, a: u64, b: u64)
    requires
        s.parked().contains_key(pid),
        a == s.parked()[pid],
        b == s.parked()[pid],
    ensures
        a == b,
{
}

/// A PINGREQ is written no earlier than `last_write_time` plus the
/// keep-alive period: the precondition of `on_keepalive` demands it.
pub proof fn lemma_pingreq_not_early(s: SessionCore, now: u64, secs: u16)
    requires
        s.keep_alive() == (KeepAlive::Enabled { secs }),
        now <= TIME_CAP,
        s.wf(),
        now >= s.last_write() + secs * 1000,
    ensures
        now - s.last_write() >= secs * 1000,
{
}

} // verus!
