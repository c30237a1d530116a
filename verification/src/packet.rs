//! Model of the MQTT 3.1.1 packets the client core handles.
//!
//! Packets are held as plain values so the session logic over them can
//! be specified and verified; the byte-level codec in `codec` maps
//! between these values and wire bytes.

use vstd::prelude::*;

verus! {

/// Delivery quality-of-service level.
#[derive(Clone, Copy, Debug, PartialEq, Eq, Structural)]
pub enum Qos {
    AtMostOnce,
    AtLeastOnce,
    ExactlyOnce,
}

/// Combined quality-of-service level and packet identifier, as carried
/// by a PUBLISH packet. A carried PID is a non-zero 16-bit integer.
#[derive(Clone, Copy, Debug, PartialEq, Eq, Structural)]
pub enum QosPid {
    AtMostOnce,
    AtLeastOnce(u16),
    ExactlyOnce(u16),
}

impl QosPid {
    /// The PID carried, if any.
    pub open spec fn spec_pid(self) -> Option<u16> {
        match self {
            QosPid::AtMostOnce => None,
            QosPid::AtLeastOnce(p) => Some(p),
            QosPid::ExactlyOnce(p) => Some(p),
        }
    }

    /// The quality-of-service level, without the PID.
    pub open spec fn spec_qos(self) -> Qos {
        match self {
            QosPid::AtMostOnce => Qos::AtMostOnce,
            QosPid::AtLeastOnce(_) => Qos::AtLeastOnce,
            QosPid::ExactlyOnce(_) => Qos::ExactlyOnce,
        }
    }

    /// A carried PID is never zero.
    pub open spec fn wf(self) -> bool {
        match self {
            QosPid::AtMostOnce => true,
            QosPid::AtLeastOnce(p) => p != 0,
            QosPid::ExactlyOnce(p) => p != 0,
        }
    }

    pub fn pid(self) -> (r: Option<u16>)
        ensures
            r == self.spec_pid(),
    {
        match self {
            QosPid::AtMostOnce => None,
            QosPid::AtLeastOnce(p) => Some(p),
            QosPid::ExactlyOnce(p) => Some(p),
        }
    }

    pub fn qos(self) -> (r: Qos)
        ensures
            r == self.spec_qos(),
    {
        match self {
            QosPid::AtMostOnce => Qos::AtMostOnce,
            QosPid::AtLeastOnce(_) => Qos::AtLeastOnce,
            QosPid::ExactlyOnce(_) => Qos::ExactlyOnce,
        }
    }
}

/// CONNECT packet body, as the client sends it: protocol level MQTT
/// 3.1.1 and no last will are implied.
#[derive(Clone, Debug, PartialEq, Eq)]
pub struct Connect {
    pub keep_alive: u16,
    pub client_id: String,
    pub clean_session: bool,
    pub username: Option<String>,
    pub password: Option<Vec<u8>>,
}

/// CONNACK packet body. `code` 0 means the connection was accepted.
#[derive(Clone, Copy, Debug, PartialEq, Eq, Structural)]
pub struct Connack {
    pub session_present: bool,
    pub code: u8,
}

/// The CONNACK return code that accepts the connection.
pub const CONNECT_ACCEPTED: u8 = 0;

/// PUBLISH packet body.
#[derive(Clone, Debug, PartialEq, Eq)]
pub struct Publish {
    pub dup: bool,
    pub qospid: QosPid,
    pub retain: bool,
    pub topic: String,
    pub payload: Vec<u8>,
}

/// One topic filter of a SUBSCRIBE packet, with its requested level.
#[derive(Clone, Debug, PartialEq, Eq)]
pub struct SubscribeTopic {
    pub topic: String,
    pub qos: Qos,
}

/// SUBSCRIBE packet body.
#[derive(Clone, Debug, PartialEq, Eq)]
pub struct Subscribe {
    pub pid: u16,
    pub topics: Vec<SubscribeTopic>,
}

/// SUBACK packet body; one return code per subscribed topic, 0x80
/// meaning failure.
#[derive(Clone, Debug, PartialEq, Eq)]
pub struct Suback {
    pub pid: u16,
    pub return_codes: Vec<u8>,
}

/// UNSUBSCRIBE packet body.
#[derive(Clone, Debug, PartialEq, Eq)]
pub struct Unsubscribe {
    pub pid: u16,
    pub topics: Vec<String>,
}

/// An MQTT 3.1.1 packet.
#[derive(Clone, Debug, PartialEq, Eq)]
pub enum MqttPacket {
    Connect(Connect),
    Connack(Connack),
    Publish(Publish),
    Puback(u16),
    Pubrec(u16),
    Pubrel(u16),
    Pubcomp(u16),
    Subscribe(Subscribe),
    Suback(Suback),
    Unsubscribe(Unsubscribe),
    Unsuback(u16),
    Pingreq,
    Pingresp,
    Disconnect,
}

/// Mathematical value of a `Connect`.
pub struct ConnectS {
    pub keep_alive: u16,
    pub client_id: Seq<char>,
    pub clean_session: bool,
    pub username: Option<Seq<char>>,
    pub password: Option<Seq<u8>>,
}

/// Mathematical value of a `Publish`.
pub struct PublishS {
    pub dup: bool,
    pub qospid: QosPid,
    pub retain: bool,
    pub topic: Seq<char>,
    pub payload: Seq<u8>,
}

/// Mathematical value of a `SubscribeTopic`.
pub struct SubscribeTopicS {
    pub topic: Seq<char>,
    pub qos: Qos,
}

/// Mathematical value of a `Subscribe`.
pub struct SubscribeS {
    pub pid: u16,
    pub topics: Seq<SubscribeTopicS>,
}

/// Mathematical value of a `Suback`.
pub struct SubackS {
    pub pid: u16,
    pub return_codes: Seq<u8>,
}

/// Mathematical value of an `Unsubscribe`.
pub struct UnsubscribeS {
    pub pid: u16,
    pub topics: Seq<Seq<char>>,
}

/// Mathematical value of an `MqttPacket`.
pub enum PacketS {
    Connect(ConnectS),
    Connack(Connack),
    Publish(PublishS),
    Puback(u16),
    Pubrec(u16),
    Pubrel(u16),
    Pubcomp(u16),
    Subscribe(SubscribeS),
    Suback(SubackS),
    Unsubscribe(UnsubscribeS),
    Unsuback(u16),
    Pingreq,
    Pingresp,
    Disconnect,
}

impl View for Connect {
    type V = ConnectS;

    open spec fn view(&self) -> ConnectS {
        ConnectS {
            keep_alive: self.keep_alive,
            client_id: self.client_id@,
            clean_session: self.clean_session,
            username: self.username.deep_view(),
            password: self.password.deep_view(),
        }
    }
}

impl View for Publish {
    type V = PublishS;

    open spec fn view(&self) -> PublishS {
        PublishS {
            dup: self.dup,
            qospid: self.qospid,
            retain: self.retain,
            topic: self.topic@,
            payload: self.payload@,
        }
    }
}

impl DeepView for SubscribeTopic {
    type V = SubscribeTopicS;

    open spec fn deep_view(&self) -> SubscribeTopicS {
        SubscribeTopicS { topic: self.topic@, qos: self.qos }
    }
}

impl View for Subscribe {
    type V = SubscribeS;

    open spec fn view(&self) -> SubscribeS {
        SubscribeS { pid: self.pid, topics: self.topics.deep_view() }
    }
}

impl View for Suback {
    type V = SubackS;

    open spec fn view(&self) -> SubackS {
        SubackS { pid: self.pid, return_codes: self.return_codes@ }
    }
}

impl View for Unsubscribe {
    type V = UnsubscribeS;

    open spec fn view(&self) -> UnsubscribeS {
        UnsubscribeS { pid: self.pid, topics: self.topics.deep_view() }
    }
}

impl View for MqttPacket {
    type V = PacketS;

    open spec fn view(&self) -> PacketS {
        match self {
            MqttPacket::Connect(c) => PacketS::Connect(c@),
            MqttPacket::Connack(c) => PacketS::Connack(*c),
            MqttPacket::Publish(p) => PacketS::Publish(p@),
            MqttPacket::Puback(p) => PacketS::Puback(*p),
            MqttPacket::Pubrec(p) => PacketS::Pubrec(*p),
            MqttPacket::Pubrel(p) => PacketS::Pubrel(*p),
            MqttPacket::Pubcomp(p) => PacketS::Pubcomp(*p),
            MqttPacket::Subscribe(s) => PacketS::Subscribe(s@),
            MqttPacket::Suback(s) => PacketS::Suback(s@),
            MqttPacket::Unsubscribe(u) => PacketS::Unsubscribe(u@),
            MqttPacket::Unsuback(p) => PacketS::Unsuback(*p),
            MqttPacket::Pingreq => PacketS::Pingreq,
            MqttPacket::Pingresp => PacketS::Pingresp,
            MqttPacket::Disconnect => PacketS::Disconnect,
        }
    }
}

impl PacketS {
    /// Every PID a packet carries is non-zero, as MQTT demands.
    pub open spec fn wf(self) -> bool {
        match self {
            PacketS::Connect(_) => true,
            PacketS::Connack(_) => true,
            PacketS::Publish(p) => p.qospid.wf(),
            PacketS::Puback(p) => p != 0,
            PacketS::Pubrec(p) => p != 0,
            PacketS::Pubrel(p) => p != 0,
            PacketS::Pubcomp(p) => p != 0,
            PacketS::Subscribe(s) => s.pid != 0,
            PacketS::Suback(s) => s.pid != 0,
            PacketS::Unsubscribe(u) => u.pid != 0,
            PacketS::Unsuback(p) => p != 0,
            PacketS::Pingreq => true,
            PacketS::Pingresp => true,
            PacketS::Disconnect => true,
        }
    }
}

/// The PID a packet carries: for PUBLISH the PID of its `QosPid` (none
/// at QoS 0); for the acknowledgement and subscription packets their
/// carried PID; none for the rest.
pub open spec fn spec_packet_pid(p: PacketS) -> Option<u16> {
    match p {
        PacketS::Connect(_) => None,
        PacketS::Connack(_) => None,
        PacketS::Publish(publish) => publish.qospid.spec_pid(),
        PacketS::Puback(pid) => Some(pid),
        PacketS::Pubrec(pid) => Some(pid),
        PacketS::Pubrel(pid) => Some(pid),
        PacketS::Pubcomp(pid) => Some(pid),
        PacketS::Subscribe(sub) => Some(sub.pid),
        PacketS::Suback(suback) => Some(suback.pid),
        PacketS::Unsubscribe(unsub) => Some(unsub.pid),
        PacketS::Unsuback(pid) => Some(pid),
        PacketS::Pingreq => None,
        PacketS::Pingresp => None,
        PacketS::Disconnect => None,
    }
}

/// The PID by which an inbound acknowledgement is correlated with a
/// parked request: the carried PID of PUBACK, PUBREC, PUBREL, PUBCOMP,
/// SUBACK and UNSUBACK, and none for any other packet.
pub open spec fn spec_ack_pid(p: PacketS) -> Option<u16> {
    match p {
        PacketS::Puback(pid) => Some(pid),
        PacketS::Pubrec(pid) => Some(pid),
        PacketS::Pubrel(pid) => Some(pid),
        PacketS::Pubcomp(pid) => Some(pid),
        PacketS::Suback(suback) => Some(suback.pid),
        PacketS::Unsuback(pid) => Some(pid),
        _ => None,
    }
}

/// The PID a packet carries.
pub fn packet_pid(p: &MqttPacket) -> (r: Option<u16>)
    ensures
        r == spec_packet_pid(p@),
{
    match p {
        MqttPacket::Connect(_) => None,
        MqttPacket::Connack(_) => None,
        MqttPacket::Publish(publish) => publish.qospid.pid(),
        MqttPacket::Puback(pid) => Some(*pid),
        MqttPacket::Pubrec(pid) => Some(*pid),
        MqttPacket::Pubrel(pid) => Some(*pid),
        MqttPacket::Pubcomp(pid) => Some(*pid),
        MqttPacket::Subscribe(sub) => Some(sub.pid),
        MqttPacket::Suback(suback) => Some(suback.pid),
        MqttPacket::Unsubscribe(unsub) => Some(unsub.pid),
        MqttPacket::Unsuback(pid) => Some(*pid),
        MqttPacket::Pingreq => None,
        MqttPacket::Pingresp => None,
        MqttPacket::Disconnect => None,
    }
}

} // verus!
