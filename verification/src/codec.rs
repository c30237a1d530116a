//! Byte-level codec boundary.
//!
//! The wire encoding and decoding of packets is delegated to the
//! `mqttrs` crate behind the trusted wrappers here; what they return is
//! named by the uninterpreted functions `wire_bytes` and `decode_of`.
//! The framing of the inbound stream — how many bytes the next packet
//! occupies, and when enough of them have arrived — is this crate's own
//! verified logic in `spec_frame_len` and `ReadBuffer`.

use vstd::prelude::*;
use crate::errors::Error;
use crate::packet::{Connect, MqttPacket, PacketS, Publish, Qos, QosPid, Subscribe, Unsubscribe};

verus! {

/// The bytes `mqttrs::encode_slice` writes for a packet. The encoding
/// depends on the packet value alone.
pub uninterp spec fn wire_bytes(p: PacketS) -> Seq<u8>;

/// What reading one packet from the front of a byte sequence yields.
pub enum DecodeS {
    /// The bytes do not start a valid packet.
    Bad,
    /// The bytes are a proper prefix of a packet.
    Incomplete,
    /// The bytes hold exactly this packet.
    Complete(PacketS),
}

/// What `mqttrs::decode_slice` yields on a byte sequence. The result
/// depends on the bytes alone.
pub uninterp spec fn decode_of(bytes: Seq<u8>) -> DecodeS;

/// The largest size an MQTT 3.1.1 packet can occupy on the wire: one
/// header byte, at most four length bytes, and at most 268435455
/// payload bytes; beyond it no length field can describe the packet.
pub const MAX_WIRE_LEN: usize = 268435460;

/// The packet kinds this client writes.
pub open spec fn client_packet(p: PacketS) -> bool {
    match p {
        PacketS::Connect(_) => true,
        PacketS::Publish(_) => true,
        PacketS::Puback(_) => true,
        PacketS::Subscribe(_) => true,
        PacketS::Unsubscribe(_) => true,
        PacketS::Pingreq => true,
        PacketS::Disconnect => true,
        _ => false,
    }
}

/// Relies on mqttrs::encode_slice for a CONNECT packet at protocol
/// MQTT 3.1.1 with no last will; it fails when the packet does not fit
/// the buffer or the wire format's length bounds.
#[verifier::external_body]
fn enc_connect(c: &Connect, max_len: usize) -> (r: Result<Vec<u8>, Error>)
    ensures
        r matches Ok(v) ==> v@ == wire_bytes(PacketS::Connect(c@)) && v@.len() <= max_len,
        r matches Err(e) ==> e == Error::Io && (wire_bytes(PacketS::Connect(c@)).len() > max_len
            || wire_bytes(PacketS::Connect(c@)).len() > MAX_WIRE_LEN),
{
    let mut buf = vec![0u8; max_len];
    let pkt = mqttrs::Packet::Connect(mqttrs::Connect {
        protocol: mqttrs::Protocol::MQTT311,
        keep_alive: c.keep_alive,
        client_id: c.client_id.as_str(),
        clean_session: c.clean_session,
        last_will: None,
        username: c.username.as_deref(),
        password: c.password.as_deref(),
    });
    match mqttrs::encode_slice(&pkt, &mut buf) {
        Ok(n) => { buf.truncate(n); Ok(buf) },
        Err(_) => Err(Error::Io),
    }
}

/// Relies on mqttrs::encode_slice for a PUBLISH packet; it fails when
/// the packet does not fit the buffer or the wire format's length
/// bounds.
#[verifier::external_body]
fn enc_publish(pu: &Publish, max_len: usize) -> (r: Result<Vec<u8>, Error>)
    requires
        pu.qospid.wf(),
    ensures
        r matches Ok(v) ==> v@ == wire_bytes(PacketS::Publish(pu@)) && v@.len() <= max_len,
        r matches Err(e) ==> e == Error::Io && (wire_bytes(PacketS::Publish(pu@)).len() > max_len
            || wire_bytes(PacketS::Publish(pu@)).len() > MAX_WIRE_LEN),
{
    let mut buf = vec![0u8; max_len];
    let qospid = match pu.qospid {
        QosPid::AtMostOnce => mqttrs::QosPid::AtMostOnce,
        QosPid::AtLeastOnce(p) => mqttrs::QosPid::AtLeastOnce(mqttrs::Pid::try_from(p).unwrap()),
        QosPid::ExactlyOnce(p) => mqttrs::QosPid::ExactlyOnce(mqttrs::Pid::try_from(p).unwrap()),
    };
    let pkt = mqttrs::Packet::Publish(mqttrs::Publish {
        dup: pu.dup, qospid, retain: pu.retain,
        topic_name: pu.topic.as_str(), payload: pu.payload.as_slice(),
    });
    match mqttrs::encode_slice(&pkt, &mut buf) {
        Ok(n) => { buf.truncate(n); Ok(buf) },
        Err(_) => Err(Error::Io),
    }
}

/// Relies on mqttrs::encode_slice for a PUBACK packet: four bytes, the
/// header 0x40, the length 2 and the PID big-endian; it succeeds
/// whenever those four bytes fit the buffer.
#[verifier::external_body]
fn enc_puback(pid: u16, max_len: usize) -> (r: Result<Vec<u8>, Error>)
    requires
        pid != 0,
    ensures
        r matches Ok(v) ==> v@ == wire_bytes(PacketS::Puback(pid)) && v@.len() <= max_len,
        r matches Ok(v) ==> v@ == seq![0x40u8, 2u8, (pid / 256) as u8, (pid % 256) as u8],
        max_len >= 4 ==> r is Ok,
        r matches Err(e) ==> e == Error::Io && wire_bytes(PacketS::Puback(pid)).len() > max_len,
{
    let mut buf = vec![0u8; max_len];
    let pkt = mqttrs::Packet::Puback(mqttrs::Pid::try_from(pid).unwrap());
    match mqttrs::encode_slice(&pkt, &mut buf) {
        Ok(n) => { buf.truncate(n); Ok(buf) },
        Err(_) => Err(Error::Io),
    }
}

/// Relies on mqttrs::encode_slice for a SUBSCRIBE packet; it fails
/// when the packet does not fit the buffer or the wire format's length
/// bounds.
#[verifier::external_body]
fn enc_subscribe(s: &Subscribe, max_len: usize) -> (r: Result<Vec<u8>, Error>)
    requires
        s.pid != 0,
    ensures
        r matches Ok(v) ==> v@ == wire_bytes(PacketS::Subscribe(s@)) && v@.len() <= max_len,
        r matches Err(e) ==> e == Error::Io && (wire_bytes(PacketS::Subscribe(s@)).len() > max_len
            || wire_bytes(PacketS::Subscribe(s@)).len() > MAX_WIRE_LEN),
{
    let mut buf = vec![0u8; max_len];
    let topics = s.topics.iter().map(|t| mqttrs::SubscribeTopic {
        topic_path: t.topic.clone(),
        qos: match t.qos {
            Qos::AtMostOnce => mqttrs::QoS::AtMostOnce,
            Qos::AtLeastOnce => mqttrs::QoS::AtLeastOnce,
            Qos::ExactlyOnce => mqttrs::QoS::ExactlyOnce,
        },
    }).collect();
    let pid = mqttrs::Pid::try_from(s.pid).unwrap();
    let pkt = mqttrs::Packet::Subscribe(mqttrs::Subscribe { pid, topics });
    match mqttrs::encode_slice(&pkt, &mut buf) {
        Ok(n) => { buf.truncate(n); Ok(buf) },
        Err(_) => Err(Error::Io),
    }
}

/// Relies on mqttrs::encode_slice for an UNSUBSCRIBE packet; it fails
/// when the packet does not fit the buffer or the wire format's length
/// bounds.
#[verifier::external_body]
fn enc_unsubscribe(u: &Unsubscribe, max_len: usize) -> (r: Result<Vec<u8>, Error>)
    requires
        u.pid != 0,
    ensures
        r matches Ok(v) ==> v@ == wire_bytes(PacketS::Unsubscribe(u@)) && v@.len() <= max_len,
        r matches Err(e) ==> e == Error::Io && (wire_bytes(
            PacketS::Unsubscribe(u@),
        ).len() > max_len || wire_bytes(PacketS::Unsubscribe(u@)).len() > MAX_WIRE_LEN),
{
    let mut buf = vec![0u8; max_len];
    let pkt = mqttrs::Packet::Unsubscribe(mqttrs::Unsubscribe {
        pid: mqttrs::Pid::try_from(u.pid).unwrap(),
        topics: u.topics.clone(),
    });
    match mqttrs::encode_slice(&pkt, &mut buf) {
        Ok(n) => { buf.truncate(n); Ok(buf) },
        Err(_) => Err(Error::Io),
    }
}

/// Relies on mqttrs::encode_slice for a PINGREQ packet: the two bytes
/// 0xc0, 0; it succeeds whenever they fit the buffer.
#[verifier::external_body]
fn enc_pingreq(max_len: usize) -> (r: Result<Vec<u8>, Error>)
    ensures
        r matches Ok(v) ==> v@ == wire_bytes(PacketS::Pingreq) && v@.len() <= max_len,
        r matches Ok(v) ==> v@ == seq![0xc0u8, 0u8],
        max_len >= 2 ==> r is Ok,
        r matches Err(e) ==> e == Error::Io && wire_bytes(PacketS::Pingreq).len() > max_len,
{
    let mut buf = vec![0u8; max_len];
    match mqttrs::encode_slice(&mqttrs::Packet::Pingreq, &mut buf) {
        Ok(n) => { buf.truncate(n); Ok(buf) },
        Err(_) => Err(Error::Io),
    }
}

/// Relies on mqttrs::encode_slice for a DISCONNECT packet: the two
/// bytes 0xe0, 0; it succeeds whenever they fit the buffer.
#[verifier::external_body]
fn enc_disconnect(max_len: usize) -> (r: Result<Vec<u8>, Error>)
    ensures
        r matches Ok(v) ==> v@ == wire_bytes(PacketS::Disconnect) && v@.len() <= max_len,
        r matches Ok(v) ==> v@ == seq![0xe0u8, 0u8],
        max_len >= 2 ==> r is Ok,
        r matches Err(e) ==> e == Error::Io && wire_bytes(PacketS::Disconnect).len() > max_len,
{
    let mut buf = vec![0u8; max_len];
    match mqttrs::encode_slice(&mqttrs::Packet::Disconnect, &mut buf) {
        Ok(n) => { buf.truncate(n); Ok(buf) },
        Err(_) => Err(Error::Io),
    }
}

/// Encode a packet the client writes into at most `max_len` wire
/// bytes. On success the bytes are exactly the packet's encoding;
/// failure means the encoding does not fit `max_len` or exceeds what
/// the wire format can describe, so success is owed whenever it fits
/// and is representable; the two-byte and four-byte packets are owed
/// it outright whenever they fit.
pub fn encode_packet(p: &MqttPacket, max_len: usize) -> (r: Result<Vec<u8>, Error>)
    requires
        p@.wf(),
        client_packet(p@),
    ensures
        r matches Ok(v) ==> v@ == wire_bytes(p@) && v@.len() <= max_len,
        r matches Err(e) ==> e == Error::Io && (wire_bytes(p@).len() > max_len || wire_bytes(
            p@,
        ).len() > MAX_WIRE_LEN),
        p@ == PacketS::Pingreq && max_len >= 2 ==> r is Ok,
        p@ == PacketS::Disconnect && max_len >= 2 ==> r is Ok,
        p@ matches PacketS::Puback(pid) ==> (max_len >= 4 ==> r is Ok) && (r matches Ok(v)
            ==> v@ == seq![0x40u8, 2u8, (pid / 256) as u8, (pid % 256) as u8]),
{
    match p {
        MqttPacket::Connect(c) => enc_connect(c, max_len),
        MqttPacket::Publish(pu) => enc_publish(pu, max_len),
        MqttPacket::Puback(pid) => enc_puback(*pid, max_len),
        MqttPacket::Subscribe(s) => enc_subscribe(s, max_len),
        MqttPacket::Unsubscribe(u) => enc_unsubscribe(u, max_len),
        MqttPacket::Pingreq => enc_pingreq(max_len),
        MqttPacket::Disconnect => enc_disconnect(max_len),
        _ => Err(Error::Io),
    }
}

/// Converts the fixed packets and those carrying only a PID.
#[verifier::external_body]
fn conv_fixed(p: &mqttrs::Packet) -> Option<MqttPacket> {
    match p {
        mqttrs::Packet::Puback(pid) => Some(MqttPacket::Puback(pid.get())),
        mqttrs::Packet::Pubrec(pid) => Some(MqttPacket::Pubrec(pid.get())),
        mqttrs::Packet::Pubrel(pid) => Some(MqttPacket::Pubrel(pid.get())),
        mqttrs::Packet::Pubcomp(pid) => Some(MqttPacket::Pubcomp(pid.get())),
        mqttrs::Packet::Unsuback(pid) => Some(MqttPacket::Unsuback(pid.get())),
        mqttrs::Packet::Pingreq => Some(MqttPacket::Pingreq),
        mqttrs::Packet::Pingresp => Some(MqttPacket::Pingresp),
        mqttrs::Packet::Disconnect => Some(MqttPacket::Disconnect),
        _ => None,
    }
}

/// Converts a CONNACK, mapping its return code to the numeric code of
/// the MQTT specification.
#[verifier::external_body]
fn conv_connack(p: &mqttrs::Packet) -> Option<MqttPacket> {
    match p {
        mqttrs::Packet::Connack(c) => Some(MqttPacket::Connack(crate::packet::Connack {
            session_present: c.session_present,
            code: match c.code {
                mqttrs::ConnectReturnCode::Accepted => 0,
                mqttrs::ConnectReturnCode::RefusedProtocolVersion => 1,
                mqttrs::ConnectReturnCode::RefusedIdentifierRejected => 2,
                mqttrs::ConnectReturnCode::ServerUnavailable => 3,
                mqttrs::ConnectReturnCode::BadUsernamePassword => 4,
                mqttrs::ConnectReturnCode::NotAuthorized => 5,
            },
        })),
        _ => None,
    }
}

/// Converts a PUBLISH, copying its borrowed topic and payload.
#[verifier::external_body]
fn conv_publish(p: &mqttrs::Packet) -> Option<MqttPacket> {
    match p {
        mqttrs::Packet::Publish(u) => Some(MqttPacket::Publish(Publish {
            dup: u.dup,
            qospid: match u.qospid {
                mqttrs::QosPid::AtMostOnce => QosPid::AtMostOnce,
                mqttrs::QosPid::AtLeastOnce(x) => QosPid::AtLeastOnce(x.get()),
                mqttrs::QosPid::ExactlyOnce(x) => QosPid::ExactlyOnce(x.get()),
            },
            retain: u.retain,
            topic: u.topic_name.to_string(),
            payload: u.payload.to_vec(),
        })),
        _ => None,
    }
}

/// Converts a SUBACK, mapping each return code to its numeric value
/// (0x80 for failure).
#[verifier::external_body]
fn conv_suback(p: &mqttrs::Packet) -> Option<MqttPacket> {
    match p {
        mqttrs::Packet::Suback(s) => Some(MqttPacket::Suback(crate::packet::Suback {
            pid: s.pid.get(),
            return_codes: s.return_codes.iter().map(|c| match c {
                mqttrs::SubscribeReturnCodes::Success(mqttrs::QoS::AtMostOnce) => 0u8,
                mqttrs::SubscribeReturnCodes::Success(mqttrs::QoS::AtLeastOnce) => 1u8,
                mqttrs::SubscribeReturnCodes::Success(mqttrs::QoS::ExactlyOnce) => 2u8,
                mqttrs::SubscribeReturnCodes::Failure => 0x80u8,
            }).collect(),
        })),
        _ => None,
    }
}

/// Converts a CONNECT, copying its borrowed fields; the model keeps
/// what the client handles, so the protocol name and the last will are
/// not carried over.
#[verifier::external_body]
fn conv_connect(p: &mqttrs::Packet) -> Option<MqttPacket> {
    match p {
        mqttrs::Packet::Connect(c) => Some(MqttPacket::Connect(Connect {
            keep_alive: c.keep_alive,
            client_id: c.client_id.to_string(),
            clean_session: c.clean_session,
            username: c.username.map(|s| s.to_string()),
            password: c.password.map(|b| b.to_vec()),
        })),
        _ => None,
    }
}

/// Converts a SUBSCRIBE, mapping each topic with its requested level.
#[verifier::external_body]
fn conv_subscribe(p: &mqttrs::Packet) -> Option<MqttPacket> {
    match p {
        mqttrs::Packet::Subscribe(s) => Some(MqttPacket::Subscribe(Subscribe {
            pid: s.pid.get(),
            topics: s.topics.iter().map(|t| crate::packet::SubscribeTopic {
                topic: t.topic_path.clone(),
                qos: match t.qos {
                    mqttrs::QoS::AtMostOnce => Qos::AtMostOnce,
                    mqttrs::QoS::AtLeastOnce => Qos::AtLeastOnce,
                    mqttrs::QoS::ExactlyOnce => Qos::ExactlyOnce,
                },
            }).collect(),
        })),
        _ => None,
    }
}

/// Converts an UNSUBSCRIBE, copying its topic list.
#[verifier::external_body]
fn conv_unsubscribe(p: &mqttrs::Packet) -> Option<MqttPacket> {
    match p {
        mqttrs::Packet::Unsubscribe(u) => Some(MqttPacket::Unsubscribe(Unsubscribe {
            pid: u.pid.get(),
            topics: u.topics.clone(),
        })),
        _ => None,
    }
}

/// Converts any decoded packet to its model value, one converter per
/// shape.
#[verifier::external_body]
fn conv_packet(p: &mqttrs::Packet) -> Option<MqttPacket> {
    conv_fixed(p)
        .or_else(|| conv_connack(p))
        .or_else(|| conv_publish(p))
        .or_else(|| conv_suback(p))
        .or_else(|| conv_connect(p))
        .or_else(|| conv_subscribe(p))
        .or_else(|| conv_unsubscribe(p))
}

/// Relies on mqttrs::decode_slice: reading one packet from the front
/// of the bytes yields the packet they hold, nothing when they are a
/// proper prefix of one, and an error when they cannot start one; every
/// PID in a decoded packet is non-zero. On a complete frame whose
/// shape the verified check refuses, the codec's parser would index
/// out of bounds, so such frames are excluded here and rejected by the
/// caller instead.
#[verifier::external_body]
fn decode_one(frame: &[u8]) -> (r: Result<Option<MqttPacket>, Error>)
    requires
        spec_frame_shape_ok(frame@),
    ensures
        r matches Ok(Some(p)) ==> p@.wf() && decode_of(frame@) == DecodeS::Complete(p@),
        r matches Ok(None) ==> decode_of(frame@) == DecodeS::Incomplete,
        r matches Err(e) ==> e == Error::Io && decode_of(frame@) == DecodeS::Bad,
{
    match mqttrs::decode_slice(frame) {
        Err(_) => Err(Error::Io),
        Ok(None) => Ok(None),
        Ok(Some(p)) => match conv_packet(&p) {
            Some(q) => Ok(Some(q)),
            None => Err(Error::Io),
        },
    }
}


/// The value of a big-endian two-byte length field.
pub open spec fn be16(hi: u8, lo: u8) -> int {
    hi * 256 + lo
}

/// How many bytes the fixed header of a frame occupies: the header
/// byte and its one to four length bytes.
pub open spec fn spec_header_len(b: Seq<u8>) -> int {
    if b.len() < 2 {
        2
    } else if !len_continues(b[1]) {
        2
    } else if b.len() < 3 {
        3
    } else if !len_continues(b[2]) {
        3
    } else if b.len() < 4 {
        4
    } else if !len_continues(b[3]) {
        4
    } else {
        5
    }
}

/// For a PUBLISH above QoS 0, the parser reads a PID right after the
/// topic string: the frame is safe when the string itself is refused
/// (it overruns the body) or when two more bytes follow it.
pub open spec fn spec_publish_shape_ok(b: Seq<u8>, h: int, body: int) -> bool {
    let q = (b[0] >> 1) & 3;
    if q == 0 || q == 3 {
        true
    } else if body < 2 {
        true
    } else {
        let tl = be16(b[h], b[h + 1]);
        2 + tl > body || 4 + tl <= body
    }
}

/// For a CONNECT, the parser reads the protocol level, the flags and
/// the keep-alive right after the protocol name string: safe when the
/// string is refused or when four more bytes follow it.
pub open spec fn spec_connect_shape_ok(b: Seq<u8>, h: int, body: int) -> bool {
    if body < 2 {
        true
    } else {
        let pn = be16(b[h], b[h + 1]);
        2 + pn > body || 2 + pn + 4 <= body
    }
}

/// For a SUBSCRIBE, the parser reads a level byte right after each
/// topic string: safe when every string is refused in time or has its
/// level byte inside the frame.
pub open spec fn spec_topic_list_safe(b: Seq<u8>, off: int) -> bool
    decreases b.len() - off,
{
    if off >= b.len() {
        true
    } else if b.len() - off < 2 {
        true
    } else {
        let l = be16(b[off], b[off + 1]);
        if l > b.len() - off - 2 {
            true
        } else if off + 2 + l >= b.len() {
            false
        } else {
            spec_topic_list_safe(b, off + 2 + l + 1)
        }
    }
}

/// Whether the codec's parser stays inside a complete frame of these
/// bytes. The codec validates string lengths but indexes fixed fields
/// (PIDs, the CONNACK pair, the CONNECT header fields, SUBSCRIBE level
/// bytes) unguarded, so each packet type demands the least body that
/// covers them; a frame that fails this is rejected before the codec
/// sees it.
pub open spec fn spec_frame_shape_ok(b: Seq<u8>) -> bool {
    if b.len() < 2 {
        true
    } else {
        let t = b[0] >> 4;
        let h = spec_header_len(b);
        let body = b.len() - h;
        if t == 2 || t == 4 || t == 5 || t == 6 || t == 7 || t == 9 || t == 10 || t == 11 {
            body >= 2
        } else if t == 3 {
            spec_publish_shape_ok(b, h, body)
        } else if t == 1 {
            spec_connect_shape_ok(b, h, body)
        } else if t == 8 {
            body >= 2 && spec_topic_list_safe(b, h + 2)
        } else {
            true
        }
    }
}

/// Whether the codec's parser stays inside this complete frame, as
/// `spec_frame_shape_ok` says.
fn frame_shape_ok(frame: &[u8]) -> (r: bool)
    ensures
        r == spec_frame_shape_ok(frame@),
{
    let n: usize = frame.len();
    if n < 2 {
        return true;
    }
    let t: u8 = frame[0] >> 4;
    let h: usize = if frame[1] & 0x80 == 0 {
        2
    } else if n < 3 {
        3
    } else if frame[2] & 0x80 == 0 {
        3
    } else if n < 4 {
        4
    } else if frame[3] & 0x80 == 0 {
        4
    } else {
        5
    };
    if t == 2 || t == 4 || t == 5 || t == 6 || t == 7 || t == 9 || t == 10 || t == 11 {
        return n >= h && n - h >= 2;
    }
    if t == 3 {
        let q: u8 = (frame[0] >> 1) & 3;
        if q == 0 || q == 3 {
            return true;
        }
        if n < h + 2 {
            return true;
        }
        let tl: usize = (frame[h] as usize) * 256 + frame[h + 1] as usize;
        return 2 + tl > n - h || 4 + tl <= n - h;
    }
    if t == 1 {
        if n < h + 2 {
            return true;
        }
        let pn: usize = (frame[h] as usize) * 256 + frame[h + 1] as usize;
        return 2 + pn > n - h || 2 + pn + 4 <= n - h;
    }
    if t == 8 {
        if n < h + 2 {
            return false;
        }
        let mut off: usize = h + 2;
        while off < n
            invariant
                n == frame@.len(),
                2 <= n,
                frame@[0] >> 4 == 8,
                h == spec_header_len(frame@),
                h + 2 <= off <= n,
                spec_topic_list_safe(frame@, h + 2) == spec_topic_list_safe(frame@, off as int),
            decreases n - off,
        {
            if n - off < 2 {
                proof {
                    assert(spec_topic_list_safe(frame@, off as int));
                }
                return true;
            }
            let l: usize = (frame[off] as usize) * 256 + frame[off + 1] as usize;
            proof {
                assert(l == be16(frame@[off as int], frame@[off as int + 1]));
            }
            if l > n - off - 2 {
                proof {
                    assert(spec_topic_list_safe(frame@, off as int));
                }
                return true;
            }
            if off + 2 + l >= n {
                proof {
                    assert(!spec_topic_list_safe(frame@, off as int));
                }
                return false;
            }
            off = off + 2 + l + 1;
        }
        return true;
    }
    true
}

/// How far the framing of a byte sequence has come.
pub enum FrameS {
    /// More bytes are needed before the frame length is known or met.
    Incomplete,
    /// The length field is malformed (four continuation bits in a row).
    Bad,
    /// The first frame occupies exactly this many bytes, all present
    /// or not.
    Frame(int),
}

/// Whether a length byte says the length continues in the next byte.
pub open spec fn len_continues(x: u8) -> bool {
    x & 0x80 != 0
}

/// The seven payload bits of a length byte.
pub open spec fn len_bits(x: u8) -> int {
    (x & 0x7f) as int
}

/// A frame of `body` payload bytes whose length field took `npos`
/// bytes: complete at 1 + npos + body bytes.
pub open spec fn frame_at(b: Seq<u8>, npos: int, body: int) -> FrameS {
    if b.len() < 1 + npos + body {
        FrameS::Incomplete
    } else {
        FrameS::Frame(1 + npos + body)
    }
}

/// The length of the first MQTT frame in a byte sequence: one header
/// byte, one to four length bytes in base-128 with continuation bits,
/// and that many payload bytes.
pub open spec fn spec_frame_len(b: Seq<u8>) -> FrameS {
    if b.len() < 2 {
        FrameS::Incomplete
    } else if !len_continues(b[1]) {
        frame_at(b, 1, len_bits(b[1]))
    } else if b.len() < 3 {
        FrameS::Incomplete
    } else if !len_continues(b[2]) {
        frame_at(b, 2, len_bits(b[1]) + len_bits(b[2]) * 128)
    } else if b.len() < 4 {
        FrameS::Incomplete
    } else if !len_continues(b[3]) {
        frame_at(b, 3, len_bits(b[1]) + len_bits(b[2]) * 128 + len_bits(b[3]) * 16384)
    } else if b.len() < 5 {
        FrameS::Incomplete
    } else if !len_continues(b[4]) {
        frame_at(
            b,
            4,
            len_bits(b[1]) + len_bits(b[2]) * 128 + len_bits(b[3]) * 16384 + len_bits(b[4])
                * 2097152,
        )
    } else {
        FrameS::Bad
    }
}


/// The length of the first frame in the buffer, as `spec_frame_len`
/// gives it: how many bytes the packet whose header starts the buffer
/// occupies in all.
pub fn frame_len(b: &Vec<u8>) -> (r: Option<usize>)
    ensures
        match r {
            Some(n) => spec_frame_len(b@) == FrameS::Frame(n as int),
            None => spec_frame_len(b@) is Incomplete || spec_frame_len(b@) is Bad,
        },
        r is None && b@.len() >= 5 && len_continues(b@[1]) && len_continues(b@[2]) && len_continues(
            b@[3],
        ) && len_continues(b@[4]) ==> spec_frame_len(b@) is Bad,
{
    if b.len() < 2 {
        return None;
    }
    if b[1] & 0x80 == 0 {
        let body: usize = (b[1] & 0x7f) as usize;
        return if b.len() < 2 + body {
            None
        } else {
            Some(2 + body)
        };
    }
    if b.len() < 3 {
        return None;
    }
    if b[2] & 0x80 == 0 {
        let body: usize = (b[1] & 0x7f) as usize + (b[2] & 0x7f) as usize * 128;
        return if b.len() < 3 + body {
            None
        } else {
            Some(3 + body)
        };
    }
    if b.len() < 4 {
        return None;
    }
    if b[3] & 0x80 == 0 {
        let body: usize = (b[1] & 0x7f) as usize + (b[2] & 0x7f) as usize * 128 + (b[3]
            & 0x7f) as usize * 16384;
        return if b.len() < 4 + body {
            None
        } else {
            Some(4 + body)
        };
    }
    if b.len() < 5 {
        return None;
    }
    if b[4] & 0x80 == 0 {
        let body: usize = (b[1] & 0x7f) as usize + (b[2] & 0x7f) as usize * 128 + (b[3]
            & 0x7f) as usize * 16384 + (b[4] & 0x7f) as usize * 2097152;
        return if b.len() < 5 + body {
            None
        } else {
            Some(5 + body)
        };
    }
    None
}

/// The actor's inbound byte buffer: the bytes read from the stream and
/// not yet consumed as packets, capped at the configured maximum
/// packet length.
pub struct ReadBuffer {
    buf: Vec<u8>,
    max_len: usize,
}

impl ReadBuffer {
    /// The bytes read and not yet consumed.
    pub closed spec fn bytes(self) -> Seq<u8> {
        self.buf@
    }

    /// The configured maximum packet length.
    pub closed spec fn max(self) -> usize {
        self.max_len
    }

    pub closed spec fn wf(self) -> bool {
        self.buf@.len() <= self.max_len
    }

    /// An empty buffer for packets of at most `max_len` bytes.
    pub fn new(max_len: usize) -> (r: ReadBuffer)
        ensures
            r.wf(),
            r.bytes() == Seq::<u8>::empty(),
            r.max() == max_len,
    {
        let r = ReadBuffer { buf: Vec::new(), max_len };
        proof {
            assert(r.bytes() =~= Seq::<u8>::empty());
        }
        r
    }

    /// How many more bytes the buffer accepts. When this reaches zero
    /// with no packet decodable, the packet in transit exceeds the
    /// configured maximum and the connection cannot make progress.
    pub fn space(&self) -> (r: usize)
        requires
            self.wf(),
        ensures
            r == self.max() - self.bytes().len(),
    {
        self.max_len - self.buf.len()
    }

    /// Append bytes read from the stream.
    pub fn feed(&mut self, chunk: &[u8])
        requires
            old(self).wf(),
            old(self).bytes().len() + chunk@.len() <= old(self).max(),
        ensures
            final(self).wf(),
            final(self).max() == old(self).max(),
            final(self).bytes() == old(self).bytes() + chunk@,
    {
        let mut i: usize = 0;
        while i < chunk.len()
            invariant
                0 <= i <= chunk@.len(),
                self.max_len == old(self).max(),
                self.buf@ == old(self).bytes() + chunk@.subrange(0, i as int),
                old(self).bytes().len() + chunk@.len() <= old(self).max(),
            decreases chunk@.len() - i,
        {
            let c: u8 = chunk[i];
            self.buf.push(c);
            i += 1;
            proof {
                assert(self.buf@ =~= old(self).bytes() + chunk@.subrange(0, i as int));
            }
        }
        proof {
            assert(chunk@.subrange(0, chunk@.len() as int) =~= chunk@);
        }
    }

    /// Try to consume one packet from the front of the buffer. When
    /// the first frame is complete and its shape admits the codec's
    /// parser, it is decoded: its packet is returned and exactly its
    /// bytes leave the buffer. When the frame is still short, or its
    /// length field is short, nothing changes and more bytes are
    /// needed. A malformed length field, a complete frame of an unsafe
    /// shape, or a frame the codec rejects is an `Io` error, as is a
    /// frame the codec finds shorter than the framing said.
    pub fn try_decode(&mut self) -> (r: Result<Option<MqttPacket>, Error>)
        requires
            old(self).wf(),
        ensures
            final(self).wf(),
            final(self).max() == old(self).max(),
            r matches Ok(Some(p)) ==> p@.wf(),
            match spec_frame_len(old(self).bytes()) {
                FrameS::Incomplete => r matches Ok(q) && q is None && final(self).bytes() == old(self).bytes(),
                FrameS::Bad => r matches Err(e) && e == Error::Io && final(self).bytes() == old(self).bytes(),
                FrameS::Frame(n) => if !spec_frame_shape_ok(old(self).bytes().subrange(0, n)) {
                    r matches Err(e) && e == Error::Io && final(self).bytes() == old(self).bytes()
                } else {
                    match decode_of(old(self).bytes().subrange(0, n)) {
                        DecodeS::Complete(ps) => r matches Ok(Some(p)) && p@ == ps && final(self).bytes() == old(self).bytes().skip(n),
                        DecodeS::Incomplete => r matches Err(e) && e == Error::Io && final(self).bytes() == old(self).bytes(),
                        DecodeS::Bad => r matches Err(e) && e == Error::Io && final(self).bytes()
                            == old(self).bytes(),
                    }
                },
            },
    {
        let n = match frame_len(&self.buf) {
            None => {
                if self.buf.len() >= 5 {
                    let bad = (self.buf[1] & 0x80 != 0) && (self.buf[2] & 0x80 != 0) && (self.buf[3]
                        & 0x80 != 0) && (self.buf[4] & 0x80 != 0);
                    if bad {
                        return Err(Error::Io);
                    }
                }
                return Ok(None);
            },
            Some(n) => n,
        };
        let frame = vstd::slice::slice_subrange(self.buf.as_slice(), 0, n);
        if !frame_shape_ok(frame) {
            return Err(Error::Io);
        }
        match decode_one(frame) {
            Err(e) => Err(e),
            Ok(None) => Err(Error::Io),
            Ok(Some(p)) => {
                let mut rest: Vec<u8> = Vec::new();
                let mut i: usize = n;
                while i < self.buf.len()
                    invariant
                        n <= i <= self.buf@.len(),
                        self.buf@ == old(self).bytes(),
                        self.max_len == old(self).max(),
                        rest@ == old(self).bytes().subrange(n as int, i as int),
                    decreases self.buf@.len() - i,
                {
                    let c: u8 = self.buf[i];
                    rest.push(c);
                    i += 1;
                    proof {
                        assert(rest@ =~= old(self).bytes().subrange(n as int, i as int));
                    }
                }
                proof {
                    assert(rest@ =~= old(self).bytes().skip(n as int));
                }
                self.buf = rest;
                Ok(Some(p))
            },
        }
    }
}

/// Once the bytes on hand hold a complete frame, further bytes change
/// neither where that frame ends nor the bytes it is made of: the
/// packets read from a stream do not depend on how the stream was cut
/// into reads.
pub proof fn lemma_frame_prefix_stable(b1: Seq<u8>, b2: Seq<u8>, n: int)
    requires
        b1.len() <= b2.len(),
        b2.subrange(0, b1.len() as int) == b1,
        spec_frame_len(b1) == FrameS::Frame(n),
        n <= b1.len(),
    ensures
        spec_frame_len(b2) == FrameS::Frame(n),
        b2.subrange(0, n) == b1.subrange(0, n),
{
    assert forall|i: int| 0 <= i < b1.len() implies b2[i] == b1[i] by {
        assert(b2.subrange(0, b1.len() as int)[i] == b2[i]);
    }
    assert(b2.subrange(0, n) =~= b1.subrange(0, n));
}


/// The packets a byte stream holds, frame by frame: the first frame's
/// packet, then those of the rest. Reading stops at an incomplete
/// frame, a malformed length field, a frame whose shape the parser
/// cannot enter, or bytes the codec rejects.
pub open spec fn packets_of(b: Seq<u8>) -> Seq<PacketS>
    decreases b.len(),
{
    match spec_frame_len(b) {
        FrameS::Frame(n) => if 2 <= n <= b.len() && spec_frame_shape_ok(b.subrange(0, n)) {
            match decode_of(b.subrange(0, n)) {
                DecodeS::Complete(p) => seq![p] + packets_of(b.skip(n)),
                DecodeS::Incomplete => Seq::empty(),
                DecodeS::Bad => Seq::empty(),
            }
        } else {
            Seq::empty()
        },
        FrameS::Incomplete => Seq::empty(),
        FrameS::Bad => Seq::empty(),
    }
}

/// A complete frame is never shorter than its header and length byte.
pub proof fn lemma_frame_len_at_least_two(b: Seq<u8>, n: int)
    requires
        spec_frame_len(b) == FrameS::Frame(n),
    ensures
        2 <= n,
{
}

/// Reading a stream in pieces yields the packets of the whole: the
/// packets decoded from a prefix of a byte stream are a prefix of the
/// packets decoded from the stream, so bytes that arrive later never
/// change what was already read.
pub proof fn lemma_packets_prefix_stable(b1: Seq<u8>, b2: Seq<u8>)
    requires
        b1.len() <= b2.len(),
        b2.subrange(0, b1.len() as int) == b1,
    ensures
        packets_of(b1).is_prefix_of(packets_of(b2)),
    decreases b1.len(),
{
    match spec_frame_len(b1) {
        FrameS::Frame(n) => {
            lemma_frame_len_at_least_two(b1, n);
            if n <= b1.len() {
                lemma_frame_prefix_stable(b1, b2, n);
                if !spec_frame_shape_ok(b1.subrange(0, n)) {
                    assert(packets_of(b1) =~= Seq::<PacketS>::empty());
                } else {
                    assert(spec_frame_shape_ok(b2.subrange(0, n)));
                    match decode_of(b1.subrange(0, n)) {
                        DecodeS::Complete(p) => {
                            let r1 = b1.skip(n);
                            let r2 = b2.skip(n);
                            assert(r2.subrange(0, r1.len() as int) =~= r1) by {
                                assert forall|i: int| 0 <= i < r1.len() implies r2[i] == r1[i] by {
                                    assert(b1[n + i] == b2.subrange(0, b1.len() as int)[n + i]);
                                }
                            }
                            lemma_packets_prefix_stable(r1, r2);
                            assert(packets_of(b1) == seq![p] + packets_of(r1));
                            assert(packets_of(b2) == seq![p] + packets_of(r2));
                            assert(packets_of(b1).is_prefix_of(packets_of(b2)));
                        },
                        DecodeS::Incomplete => {
                            assert(packets_of(b1) =~= Seq::<PacketS>::empty());
                        },
                        DecodeS::Bad => {
                            assert(packets_of(b1) =~= Seq::<PacketS>::empty());
                        },
                    }
                }
            } else {
                assert(packets_of(b1) =~= Seq::<PacketS>::empty());
            }
        },
        FrameS::Incomplete => {
            assert(packets_of(b1) =~= Seq::<PacketS>::empty());
        },
        FrameS::Bad => {
            assert(packets_of(b1) =~= Seq::<PacketS>::empty());
        },
    }
}

} // verus!
