//! The client façade's state and decisions.
//!
//! The façade owns the connection flag and the PID pool. Each public
//! operation of the client splits into a decision that builds the
//! packet and claims a PID (`*_begin`), and a decision that interprets
//! the actor's reply (`*_finish`); the runtime in between sends the
//! request to the actor and waits, bounded by the operation timeout.

use vstd::prelude::*;
use crate::errors::Error;
use crate::packet::{
    Connect,
    ConnectS,
    MqttPacket,
    PacketS,
    Publish,
    PublishS,
    QosPid,
    Qos,
    Subscribe,
    SubscribeS,
    SubscribeTopic,
    Unsubscribe,
    UnsubscribeS,
    CONNECT_ACCEPTED,
};
use crate::pid_pool::PidPool;
use crate::session::KeepAlive;

verus! {

/// Client configuration, immutable once built. The TLS configuration
/// handle and the task spawner stay with the runtime around the
/// library.
#[derive(Clone, Debug)]
pub struct ClientOptions {
    pub host: String,
    pub port: u16,
    pub username: Option<String>,
    pub password: Option<Vec<u8>>,
    pub keep_alive: KeepAlive,
    pub client_id: Option<String>,
    pub packet_buffer_len: usize,
    pub max_packet_len: usize,
    pub operation_timeout_ms: u64,
}

/// How a façade operation's wait for the actor's reply ended.
pub enum ReplyOutcome {
    /// The operation timeout elapsed first.
    TimedOut,
    /// The actor dropped the reply slot without completing it.
    Dropped,
    /// The actor completed the reply with this result.
    Done(Result<Option<MqttPacket>, Error>),
}

/// A reply packet carries no zero PID, as decoded packets never do.
pub open spec fn outcome_wf(o: ReplyOutcome) -> bool {
    match o {
        ReplyOutcome::Done(Ok(Some(p))) => p@.wf(),
        _ => true,
    }
}

/// One message delivered by `read_subscriptions`.
#[derive(Clone, Debug, PartialEq, Eq)]
pub struct ReadResult {
    pub topic: String,
    pub payload: Vec<u8>,
}

/// The façade's state: whether a connection is established, and the
/// PIDs in flight.
pub struct ClientCore {
    connected: bool,
    pids: PidPool,
}

impl ClientCore {
    pub closed spec fn is_connected(self) -> bool {
        self.connected
    }

    /// The PIDs currently claimed by in-flight (or leaked) requests.
    pub closed spec fn allocated_pids(self) -> Set<u16> {
        self.pids.allocated()
    }

    pub closed spec fn wf(self) -> bool {
        self.pids.wf()
    }

    /// A fresh client: disconnected, with every PID free.
    pub fn new() -> (r: ClientCore)
        ensures
            r.wf(),
            !r.is_connected(),
            r.allocated_pids() == Set::<u16>::empty(),
    {
        ClientCore { connected: false, pids: PidPool::new() }
    }

    /// Fail with `Disconnected` unless a connection is established.
    /// Every façade operation other than a fresh connect passes through
    /// this gate, so after a disconnect each of them fails this way.
    pub fn check_connected(&self) -> (r: Result<(), Error>)
        ensures
            r == if self.is_connected() {
                Result::<(), Error>::Ok(())
            } else {
                Result::<(), Error>::Err(Error::Disconnected)
            },
    {
        if self.connected {
            Ok(())
        } else {
            Err(Error::Disconnected)
        }
    }

    /// Claim a PID for a request. Fails with `PidExhausted` if and only
    /// if every PID is claimed.
    pub fn alloc_write_pid(&mut self) -> (r: Result<u16, Error>)
        requires
            old(self).wf(),
        ensures
            final(self).wf(),
            final(self).is_connected() == old(self).is_connected(),
            match r {
                Ok(p) => {
                    &&& 1 <= p
                    &&& !old(self).allocated_pids().contains(p)
                    &&& final(self).allocated_pids() == old(self).allocated_pids().insert(p)
                },
                Err(e) => {
                    &&& e == Error::PidExhausted
                    &&& final(self).allocated_pids() == old(self).allocated_pids()
                    &&& forall|q: u16| 1 <= q ==> old(self).allocated_pids().contains(q)
                },
            },
    {
        match self.pids.alloc_pid() {
            Some(p) => Ok(p),
            None => Err(Error::PidExhausted),
        }
    }

    /// Release the PID of an acknowledged request. Fails with
    /// `PidExhausted` if and only if the PID was already free (a
    /// double-free); the PID is free afterwards either way.
    pub fn free_write_pid(&mut self, p: u16) -> (r: Result<(), Error>)
        requires
            old(self).wf(),
            1 <= p,
        ensures
            final(self).wf(),
            final(self).is_connected() == old(self).is_connected(),
            final(self).allocated_pids() == old(self).allocated_pids().remove(p),
            r == if old(self).allocated_pids().contains(p) {
                Result::<(), Error>::Ok(())
            } else {
                Result::<(), Error>::Err(Error::PidExhausted)
            },
    {
        let was_free = self.pids.free(p);
        if was_free {
            Err(Error::PidExhausted)
        } else {
            Ok(())
        }
    }

    /// Begin a connect: valid only while disconnected; the state
    /// becomes connected before the handshake, as the actor must run to
    /// carry the handshake out.
    pub fn connect_begin(&mut self) -> (r: Result<(), Error>)
        requires
            old(self).wf(),
        ensures
            final(self).wf(),
            final(self).allocated_pids() == old(self).allocated_pids(),
            if old(self).is_connected() {
                r == Result::<(), Error>::Err(Error::AlreadyConnected) && final(self).is_connected()
            } else {
                r == Result::<(), Error>::Ok(()) && final(self).is_connected()
            },
    {
        if self.connected {
            Err(Error::AlreadyConnected)
        } else {
            self.connected = true;
            Ok(())
        }
    }

    /// Interpret the reply to the CONNECT handshake. Success is owed
    /// exactly when a CONNACK with the Accepted code came back; a
    /// timeout, a refused code or a wrong packet fails and tears the
    /// connection down (the flag returned beside the result tells the
    /// runtime to issue a shutdown request to the actor); a dropped
    /// reply or a forwarded write error fails without teardown, as the
    /// actor is already gone or still usable respectively.
    pub fn connect_finish(&mut self, outcome: ReplyOutcome) -> (r: (Result<(), Error>, bool))
        requires
            old(self).wf(),
            old(self).is_connected(),
        ensures
            final(self).wf(),
            final(self).allocated_pids() == old(self).allocated_pids(),
            match outcome {
                ReplyOutcome::TimedOut => {
                    &&& r == (Result::<(), Error>::Err(Error::Timeout), true)
                    &&& !final(self).is_connected()
                },
                ReplyOutcome::Dropped => {
                    &&& r == (Result::<(), Error>::Err(Error::Disconnected), false)
                    &&& final(self).is_connected()
                },
                ReplyOutcome::Done(res) => match res {
                    Err(e) => {
                        &&& r == (Result::<(), Error>::Err(e), false)
                        &&& final(self).is_connected()
                    },
                    Ok(Some(p)) => match p@ {
                        PacketS::Connack(ca) => {
                            if ca.code == CONNECT_ACCEPTED {
                                &&& r == (Result::<(), Error>::Ok(()), false)
                                &&& final(self).is_connected()
                            } else {
                                &&& r == (
                                    Result::<(), Error>::Err(Error::ProtocolRejected(ca.code)),
                                    true,
                                )
                                &&& !final(self).is_connected()
                            }
                        },
                        _ => {
                            &&& r == (Result::<(), Error>::Err(Error::ProtocolViolation), true)
                            &&& !final(self).is_connected()
                        },
                    },
                    Ok(None) => {
                        &&& r == (Result::<(), Error>::Err(Error::ProtocolViolation), true)
                        &&& !final(self).is_connected()
                    },
                },
            },
    {
        match outcome {
            ReplyOutcome::TimedOut => {
                self.connected = false;
                (Err(Error::Timeout), true)
            },
            ReplyOutcome::Dropped => (Err(Error::Disconnected), false),
            ReplyOutcome::Done(res) => match res {
                Err(e) => (Err(e), false),
                Ok(Some(p)) => match p {
                    MqttPacket::Connack(ca) => {
                        if ca.code == CONNECT_ACCEPTED {
                            (Ok(()), false)
                        } else {
                            self.connected = false;
                            (Err(Error::ProtocolRejected(ca.code)), true)
                        }
                    },
                    _ => {
                        self.connected = false;
                        (Err(Error::ProtocolViolation), true)
                    },
                },
                Ok(None) => {
                    self.connected = false;
                    (Err(Error::ProtocolViolation), true)
                },
            },
        }
    }

    /// Begin a publish: QoS 2 is refused outright; QoS 0 needs no PID;
    /// QoS 1 claims one, failing with `PidExhausted` when none is free.
    pub fn publish_begin(&mut self, qos: Qos) -> (r: Result<QosPid, Error>)
        requires
            old(self).wf(),
        ensures
            final(self).wf(),
            final(self).is_connected() == old(self).is_connected(),
            match qos {
                Qos::ExactlyOnce => {
                    &&& r == Result::<QosPid, Error>::Err(Error::ProtocolViolation)
                    &&& final(self).allocated_pids() == old(self).allocated_pids()
                },
                Qos::AtMostOnce => {
                    &&& r == Result::<QosPid, Error>::Ok(QosPid::AtMostOnce)
                    &&& final(self).allocated_pids() == old(self).allocated_pids()
                },
                Qos::AtLeastOnce => match r {
                    Ok(qp) => {
                        &&& qp matches QosPid::AtLeastOnce(p) && 1 <= p && !old(
                            self,
                        ).allocated_pids().contains(p) && final(self).allocated_pids() == old(
                            self,
                        ).allocated_pids().insert(p)
                    },
                    Err(e) => {
                        &&& e == Error::PidExhausted
                        &&& final(self).allocated_pids() == old(self).allocated_pids()
                        &&& forall|q: u16| 1 <= q ==> old(self).allocated_pids().contains(q)
                    },
                },
            },
    {
        match qos {
            Qos::ExactlyOnce => Err(Error::ProtocolViolation),
            Qos::AtMostOnce => Ok(QosPid::AtMostOnce),
            Qos::AtLeastOnce => match self.alloc_write_pid() {
                Ok(p) => Ok(QosPid::AtLeastOnce(p)),
                Err(e) => Err(e),
            },
        }
    }

    /// Interpret the reply to a QoS 1 publish. On a PUBACK the PID it
    /// carries is freed before the operation returns; a reply of any
    /// other packet type is a protocol violation; on a timeout, a
    /// dropped reply or an error the PID stays claimed, as the protocol
    /// forbids reusing it.
    pub fn publish_qos1_finish(&mut self, outcome: ReplyOutcome) -> (r: Result<(), Error>)
        requires
            old(self).wf(),
            outcome_wf(outcome),
        ensures
            final(self).wf(),
            final(self).is_connected() == old(self).is_connected(),
            match outcome {
                ReplyOutcome::TimedOut => {
                    &&& r == Result::<(), Error>::Err(Error::Timeout)
                    &&& final(self).allocated_pids() == old(self).allocated_pids()
                },
                ReplyOutcome::Dropped => {
                    &&& r == Result::<(), Error>::Err(Error::Disconnected)
                    &&& final(self).allocated_pids() == old(self).allocated_pids()
                },
                ReplyOutcome::Done(res) => match res {
                    Err(e) => {
                        &&& r == Result::<(), Error>::Err(e)
                        &&& final(self).allocated_pids() == old(self).allocated_pids()
                    },
                    Ok(Some(p)) => match p@ {
                        PacketS::Puback(pid) => {
                            &&& final(self).allocated_pids() == old(self).allocated_pids().remove(
                                pid,
                            )
                            &&& r == if old(self).allocated_pids().contains(pid) {
                                Result::<(), Error>::Ok(())
                            } else {
                                Result::<(), Error>::Err(Error::PidExhausted)
                            }
                        },
                        _ => {
                            &&& r == Result::<(), Error>::Err(Error::ProtocolViolation)
                            &&& final(self).allocated_pids() == old(self).allocated_pids()
                        },
                    },
                    Ok(None) => {
                        &&& r == Result::<(), Error>::Err(Error::ProtocolViolation)
                        &&& final(self).allocated_pids() == old(self).allocated_pids()
                    },
                },
            },
    {
        match outcome {
            ReplyOutcome::TimedOut => Err(Error::Timeout),
            ReplyOutcome::Dropped => Err(Error::Disconnected),
            ReplyOutcome::Done(res) => match res {
                Err(e) => Err(e),
                Ok(Some(p)) => match p {
                    MqttPacket::Puback(pid) => self.free_write_pid(pid),
                    _ => Err(Error::ProtocolViolation),
                },
                Ok(None) => Err(Error::ProtocolViolation),
            },
        }
    }

    /// Begin a subscribe: a PID is claimed first, then a request for
    /// QoS 2 on any topic is refused (the claimed PID stays leaked, as
    /// the pool's caller did in turn); otherwise the SUBSCRIBE packet
    /// carrying the claimed PID and the topics is handed back.
    pub fn subscribe_begin(&mut self, topics: Vec<SubscribeTopic>) -> (r: Result<
        (u16, MqttPacket),
        Error,
    >)
        requires
            old(self).wf(),
        ensures
            final(self).wf(),
            final(self).is_connected() == old(self).is_connected(),
            match r {
                Ok((pid, p)) => {
                    &&& 1 <= pid
                    &&& !old(self).allocated_pids().contains(pid)
                    &&& final(self).allocated_pids() == old(self).allocated_pids().insert(pid)
                    &&& forall|i: int|
                        0 <= i < topics.deep_view().len() ==> topics.deep_view()[i].qos
                            != Qos::ExactlyOnce
                    &&& p@ == PacketS::Subscribe(
                        (SubscribeS { pid, topics: topics.deep_view() }),
                    )
                },
                Err(Error::PidExhausted) => {
                    &&& final(self).allocated_pids() == old(self).allocated_pids()
                    &&& forall|q: u16| 1 <= q ==> old(self).allocated_pids().contains(q)
                },
                Err(Error::ProtocolViolation) => {
                    &&& (exists|i: int|
                        0 <= i < topics.deep_view().len() && topics.deep_view()[i].qos
                            == Qos::ExactlyOnce)
                    &&& (exists|q: u16|
                        1 <= q && !old(self).allocated_pids().contains(q)
                            && final(self).allocated_pids() == old(self).allocated_pids().insert(
                            q,
                        ))
                },
                Err(_) => false,
            },
    {
        let pid = match self.alloc_write_pid() {
            Ok(p) => p,
            Err(e) => {
                return Err(e);
            },
        };
        let mut i: usize = 0;
        while i < topics.len()
            invariant
                0 <= i <= topics.len(),
                self.wf(),
                self.is_connected() == old(self).is_connected(),
                1 <= pid,
                !old(self).allocated_pids().contains(pid),
                self.allocated_pids() == old(self).allocated_pids().insert(pid),
                forall|j: int| 0 <= j < i ==> topics.deep_view()[j].qos != Qos::ExactlyOnce,
            decreases topics.len() - i,
        {
            if topics[i].qos == Qos::ExactlyOnce {
                proof {
                    assert(topics.deep_view()[i as int] == topics@[i as int].deep_view());
                    assert(topics.deep_view()[i as int].qos == Qos::ExactlyOnce);
                    assert(1 <= pid && !old(self).allocated_pids().contains(pid) && self
                        .allocated_pids() == old(self).allocated_pids().insert(pid));
                }
                return Err(Error::ProtocolViolation);
            }
            i += 1;
        }
        Ok((pid, MqttPacket::Subscribe(Subscribe { pid, topics })))
    }

    /// Interpret the reply to a subscribe. Success is owed exactly for
    /// a SUBACK carrying the same PID, whose per-topic return codes are
    /// handed back after the PID is freed; a SUBACK with another PID or
    /// any other packet is a protocol violation and, like a timeout,
    /// leaves the PID claimed.
    pub fn subscribe_finish(&mut self, pid: u16, outcome: ReplyOutcome) -> (r: Result<
        Vec<u8>,
        Error,
    >)
        requires
            old(self).wf(),
            1 <= pid,
        ensures
            final(self).wf(),
            final(self).is_connected() == old(self).is_connected(),
            match outcome {
                ReplyOutcome::TimedOut => {
                    &&& r == Result::<Vec<u8>, Error>::Err(Error::Timeout)
                    &&& final(self).allocated_pids() == old(self).allocated_pids()
                },
                ReplyOutcome::Dropped => {
                    &&& r == Result::<Vec<u8>, Error>::Err(Error::Disconnected)
                    &&& final(self).allocated_pids() == old(self).allocated_pids()
                },
                ReplyOutcome::Done(res) => match res {
                    Err(e) => {
                        &&& r == Result::<Vec<u8>, Error>::Err(e)
                        &&& final(self).allocated_pids() == old(self).allocated_pids()
                    },
                    Ok(Some(p)) => match p@ {
                        PacketS::Suback(s) => {
                            if s.pid == pid {
                                &&& final(self).allocated_pids() == old(
                                    self,
                                ).allocated_pids().remove(pid)
                                &&& if old(self).allocated_pids().contains(pid) {
                                    r matches Ok(codes) && codes@ == s.return_codes
                                } else {
                                    r == Result::<Vec<u8>, Error>::Err(Error::PidExhausted)
                                }
                            } else {
                                &&& r == Result::<Vec<u8>, Error>::Err(Error::ProtocolViolation)
                                &&& final(self).allocated_pids() == old(self).allocated_pids()
                            }
                        },
                        _ => {
                            &&& r == Result::<Vec<u8>, Error>::Err(Error::ProtocolViolation)
                            &&& final(self).allocated_pids() == old(self).allocated_pids()
                        },
                    },
                    Ok(None) => {
                        &&& r == Result::<Vec<u8>, Error>::Err(Error::ProtocolViolation)
                        &&& final(self).allocated_pids() == old(self).allocated_pids()
                    },
                },
            },
    {
        match outcome {
            ReplyOutcome::TimedOut => Err(Error::Timeout),
            ReplyOutcome::Dropped => Err(Error::Disconnected),
            ReplyOutcome::Done(res) => match res {
                Err(e) => Err(e),
                Ok(Some(p)) => match p {
                    MqttPacket::Suback(s) => {
                        if s.pid == pid {
                            match self.free_write_pid(pid) {
                                Ok(()) => Ok(s.return_codes),
                                Err(e) => Err(e),
                            }
                        } else {
                            Err(Error::ProtocolViolation)
                        }
                    },
                    _ => Err(Error::ProtocolViolation),
                },
                Ok(None) => Err(Error::ProtocolViolation),
            },
        }
    }

    /// Begin an unsubscribe: claim a PID and hand back the UNSUBSCRIBE
    /// packet carrying it and the topics.
    pub fn unsubscribe_begin(&mut self, topics: Vec<String>) -> (r: Result<(u16, MqttPacket), Error>)
        requires
            old(self).wf(),
        ensures
            final(self).wf(),
            final(self).is_connected() == old(self).is_connected(),
            match r {
                Ok((pid, p)) => {
                    &&& 1 <= pid
                    &&& !old(self).allocated_pids().contains(pid)
                    &&& final(self).allocated_pids() == old(self).allocated_pids().insert(pid)
                    &&& p@ == PacketS::Unsubscribe(
                        (UnsubscribeS { pid, topics: topics.deep_view() }),
                    )
                },
                Err(e) => {
                    &&& e == Error::PidExhausted
                    &&& final(self).allocated_pids() == old(self).allocated_pids()
                    &&& forall|q: u16| 1 <= q ==> old(self).allocated_pids().contains(q)
                },
            },
    {
        match self.alloc_write_pid() {
            Ok(pid) => Ok((pid, MqttPacket::Unsubscribe(Unsubscribe { pid, topics }))),
            Err(e) => Err(e),
        }
    }

    /// Interpret the reply to an unsubscribe: success is owed exactly
    /// for an UNSUBACK carrying the same PID, which frees it; anything
    /// else leaves the PID claimed.
    pub fn unsubscribe_finish(&mut self, pid: u16, outcome: ReplyOutcome) -> (r: Result<(), Error>)
        requires
            old(self).wf(),
            1 <= pid,
        ensures
            final(self).wf(),
            final(self).is_connected() == old(self).is_connected(),
            match outcome {
                ReplyOutcome::TimedOut => {
                    &&& r == Result::<(), Error>::Err(Error::Timeout)
                    &&& final(self).allocated_pids() == old(self).allocated_pids()
                },
                ReplyOutcome::Dropped => {
                    &&& r == Result::<(), Error>::Err(Error::Disconnected)
                    &&& final(self).allocated_pids() == old(self).allocated_pids()
                },
                ReplyOutcome::Done(res) => match res {
                    Err(e) => {
                        &&& r == Result::<(), Error>::Err(e)
                        &&& final(self).allocated_pids() == old(self).allocated_pids()
                    },
                    Ok(Some(p)) => match p@ {
                        PacketS::Unsuback(ack_pid) => {
                            if ack_pid == pid {
                                &&& final(self).allocated_pids() == old(
                                    self,
                                ).allocated_pids().remove(pid)
                                &&& r == if old(self).allocated_pids().contains(pid) {
                                    Result::<(), Error>::Ok(())
                                } else {
                                    Result::<(), Error>::Err(Error::PidExhausted)
                                }
                            } else {
                                &&& r == Result::<(), Error>::Err(Error::ProtocolViolation)
                                &&& final(self).allocated_pids() == old(self).allocated_pids()
                            }
                        },
                        _ => {
                            &&& r == Result::<(), Error>::Err(Error::ProtocolViolation)
                            &&& final(self).allocated_pids() == old(self).allocated_pids()
                        },
                    },
                    Ok(None) => {
                        &&& r == Result::<(), Error>::Err(Error::ProtocolViolation)
                        &&& final(self).allocated_pids() == old(self).allocated_pids()
                    },
                },
            },
    {
        match outcome {
            ReplyOutcome::TimedOut => Err(Error::Timeout),
            ReplyOutcome::Dropped => Err(Error::Disconnected),
            ReplyOutcome::Done(res) => match res {
                Err(e) => Err(e),
                Ok(Some(p)) => match p {
                    MqttPacket::Unsuback(ack_pid) => {
                        if ack_pid == pid {
                            self.free_write_pid(pid)
                        } else {
                            Err(Error::ProtocolViolation)
                        }
                    },
                    _ => Err(Error::ProtocolViolation),
                },
                Ok(None) => Err(Error::ProtocolViolation),
            },
        }
    }

    /// Interpret the next message from the inbound-PUBLISH channel. A
    /// closed channel means the actor exited: the state turns
    /// disconnected and the operation fails that way. A PUBLISH at QoS
    /// 1 is answered: the PUBACK carrying its PID is handed back to be
    /// written before the message is delivered.
    pub fn read_received(&mut self, msg: Option<MqttPacket>) -> (r: Result<
        (ReadResult, Option<MqttPacket>),
        Error,
    >)
        requires
            old(self).wf(),
        ensures
            final(self).wf(),
            final(self).allocated_pids() == old(self).allocated_pids(),
            match msg {
                None => {
                    &&& !final(self).is_connected()
                    &&& r == Result::<(ReadResult, Option<MqttPacket>), Error>::Err(Error::Disconnected)
                },
                Some(p) => {
                    &&& final(self).is_connected() == old(self).is_connected()
                    &&& match p@ {
                        PacketS::Publish(pu) => {
                            r matches Ok((rr, ack)) && rr.topic@ == pu.topic && rr.payload@
                                == pu.payload && match pu.qospid {
                                QosPid::AtMostOnce => ack is None,
                                QosPid::AtLeastOnce(pid) => ack matches Some(a) && a@
                                    == PacketS::Puback(pid),
                                QosPid::ExactlyOnce(_) => ack is None,
                            }
                        },
                        _ => r == Result::<(ReadResult, Option<MqttPacket>), Error>::Err(
                            Error::ProtocolViolation,
                        ),
                    }
                },
            },
    {
        match msg {
            None => {
                self.connected = false;
                Err(Error::Disconnected)
            },
            Some(p) => match p {
                MqttPacket::Publish(pu) => {
                    let ack = match pu.qospid {
                        QosPid::AtMostOnce => None,
                        QosPid::AtLeastOnce(pid) => Some(MqttPacket::Puback(pid)),
                        QosPid::ExactlyOnce(_) => None,
                    };
                    Ok((ReadResult { topic: pu.topic, payload: pu.payload }, ack))
                },
                _ => Err(Error::ProtocolViolation),
            },
        }
    }

    /// Tear the connection down on the façade side: valid only while
    /// connected; afterwards the state is disconnected, so every
    /// operation but a fresh connect fails with `Disconnected`. The
    /// runtime pairs this with a shutdown request to the actor.
    pub fn shutdown(&mut self) -> (r: Result<(), Error>)
        requires
            old(self).wf(),
        ensures
            final(self).wf(),
            final(self).allocated_pids() == old(self).allocated_pids(),
            if old(self).is_connected() {
                r == Result::<(), Error>::Ok(()) && !final(self).is_connected()
            } else {
                r == Result::<(), Error>::Err(Error::Disconnected) && !final(self).is_connected()
            },
    {
        let r = self.check_connected();
        self.connected = false;
        r
    }
}

/// The CONNECT packet the client sends: protocol MQTT 3.1.1, the
/// configured keep-alive (0 when disabled), the configured client id
/// (empty when absent), a clean session, no will, and the configured
/// credentials.
pub fn connect_packet(opts: ClientOptions) -> (p: MqttPacket)
    ensures
        p@ == PacketS::Connect(
            (ConnectS {
                keep_alive: match opts.keep_alive {
                    KeepAlive::Disabled => 0,
                    KeepAlive::Enabled { secs } => secs,
                },
                client_id: match opts.client_id {
                    None => Seq::<char>::empty(),
                    Some(cid) => cid@,
                },
                clean_session: true,
                username: opts.username.deep_view(),
                password: opts.password.deep_view(),
            }),
        ),
{
    let keep_alive: u16 = match opts.keep_alive {
        KeepAlive::Disabled => 0,
        KeepAlive::Enabled { secs } => secs,
    };
    let client_id: String = match opts.client_id {
        None => String::new(),
        Some(cid) => cid,
    };
    MqttPacket::Connect(
        Connect {
            keep_alive,
            client_id,
            clean_session: true,
            username: opts.username,
            password: opts.password,
        },
    )
}

/// The PUBLISH packet the client sends: no duplicate or retain flag,
/// the given delivery level and the given topic and payload.
pub fn publish_packet(topic: String, payload: Vec<u8>, qospid: QosPid) -> (p: MqttPacket)
    ensures
        p@ == PacketS::Publish(
            (PublishS { dup: false, qospid, retain: false, topic: topic@, payload: payload@ }),
        ),
{
    MqttPacket::Publish(Publish { dup: false, qospid, retain: false, topic, payload })
}

/// Interpret the reply to a write that expects no response: the write's
/// own completion is the success, and a dropped reply slot means the
/// actor is gone.
pub fn write_only_result(outcome: ReplyOutcome) -> (r: Result<(), Error>)
    ensures
        match outcome {
            ReplyOutcome::TimedOut => r == Result::<(), Error>::Err(Error::Timeout),
            ReplyOutcome::Dropped => r == Result::<(), Error>::Err(Error::Disconnected),
            ReplyOutcome::Done(res) => match res {
                Err(e) => r == Result::<(), Error>::Err(e),
                Ok(_) => r == Result::<(), Error>::Ok(()),
            },
        },
{
    match outcome {
        ReplyOutcome::TimedOut => Err(Error::Timeout),
        ReplyOutcome::Dropped => Err(Error::Disconnected),
        ReplyOutcome::Done(res) => match res {
            Err(e) => Err(e),
            Ok(_) => Ok(()),
        },
    }
}

/// After a disconnect or an actor exit the façade state is not
/// connected, and then its gate turns every operation but a fresh
/// connect away with `Disconnected`.
pub proof fn lemma_disconnected_rejects(c: ClientCore)
    requires
        !c.is_connected(),
    ensures
        (if c.is_connected() {
            Result::<(), Error>::Ok(())
        } else {
            Result::<(), Error>::Err(Error::Disconnected)
        }) == Result::<(), Error>::Err(Error::Disconnected),
{
}

} // verus!
