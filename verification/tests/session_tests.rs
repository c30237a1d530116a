use mqtt_async_client::packet::MqttPacket;
use mqtt_async_client::session::{
    AfterWrite, IoRequest, IoType, KeepAlive, PacketStep, RequestStep, SessionCore,
};

fn puback(pid: u16) -> MqttPacket {
    MqttPacket::Puback(pid)
}

#[test]
fn keepalive_deadline_is_last_write_plus_period() {
    let s = SessionCore::new(KeepAlive::Enabled { secs: 1 }, 2000, 0);
    assert_eq!(s.next_keepalive(), Some(1000));
    assert_eq!(s.next_pingresp_deadline(), None);
}

#[test]
fn keepalive_disabled_means_no_deadline() {
    let s = SessionCore::new(KeepAlive::Disabled, 2000, 0);
    assert_eq!(s.next_keepalive(), None);
}

#[test]
fn ping_outstanding_until_pingresp() {
    let mut s = SessionCore::new(KeepAlive::Enabled { secs: 1 }, 2000, 0);
    let p = s.on_keepalive(1000);
    assert_eq!(p, MqttPacket::Pingreq);
    assert_eq!(s.next_keepalive(), Some(2000));
    assert_eq!(s.next_pingresp_deadline(), Some(3000));
    assert!(!s.pingresp_overdue(2999));
    assert!(s.pingresp_overdue(3000));
    assert_eq!(s.on_packet(MqttPacket::Pingresp, 1500), PacketStep::Done);
    assert_eq!(s.next_pingresp_deadline(), None);
    assert!(!s.pingresp_overdue(10_000));
}

#[test]
fn park_and_complete_by_pid() {
    let mut s = SessionCore::new(KeepAlive::Disabled, 2000, 0);
    let req = IoRequest {
        req_id: 7,
        io_type: IoType::WriteAndResponse { packet: puback(5), response_pid: 5 },
    };
    let step = s.on_request(req, 10);
    assert_eq!(step, RequestStep::Write { packet: puback(5) });
    assert_eq!(s.on_write_result(true), AfterWrite::Parked { evicted: None });
    let got = s.on_packet(puback(5), 20);
    assert_eq!(got, PacketStep::Reply { req_id: 7, packet: puback(5) });
    // The reply has left the map: the same acknowledgement again is dropped.
    assert_eq!(s.on_packet(puback(5), 30), PacketStep::Done);
}

#[test]
fn second_park_on_same_pid_evicts_first() {
    let mut s = SessionCore::new(KeepAlive::Disabled, 2000, 0);
    let first = IoRequest {
        req_id: 1,
        io_type: IoType::WriteAndResponse { packet: puback(9), response_pid: 9 },
    };
    s.on_request(first, 10);
    assert_eq!(s.on_write_result(true), AfterWrite::Parked { evicted: None });
    let second = IoRequest {
        req_id: 2,
        io_type: IoType::WriteAndResponse { packet: puback(9), response_pid: 9 },
    };
    s.on_request(second, 20);
    assert_eq!(s.on_write_result(true), AfterWrite::Parked { evicted: Some(1) });
    // Only the later reply is parked: one slot per PID.
    assert_eq!(s.on_packet(puback(9), 30), PacketStep::Reply { req_id: 2, packet: puback(9) });
    assert_eq!(s.on_packet(puback(9), 40), PacketStep::Done);
}

#[test]
fn connack_completes_and_clears_slot() {
    let mut s = SessionCore::new(KeepAlive::Disabled, 2000, 0);
    let req = IoRequest {
        req_id: 3,
        io_type: IoType::WriteConnect { packet: MqttPacket::Pingreq },
    };
    s.on_request(req, 5);
    assert_eq!(s.on_write_result(true), AfterWrite::ParkedConnack { evicted: None });
    let ca = MqttPacket::Connack(mqtt_async_client::packet::Connack {
        session_present: false,
        code: 0,
    });
    assert_eq!(
        s.on_packet(ca.clone(), 6),
        PacketStep::Reply { req_id: 3, packet: ca.clone() }
    );
    // The slot is cleared on any CONNACK, parked reply or not.
    assert_eq!(s.on_packet(ca, 7), PacketStep::Done);
}

#[test]
fn write_failure_completes_reply_without_parking() {
    let mut s = SessionCore::new(KeepAlive::Disabled, 2000, 0);
    let req = IoRequest {
        req_id: 8,
        io_type: IoType::WriteAndResponse { packet: puback(4), response_pid: 4 },
    };
    s.on_request(req, 10);
    assert_eq!(s.on_write_result(false), AfterWrite::Reply { req_id: 8, ok: false });
    assert_eq!(s.on_packet(puback(4), 20), PacketStep::Done);
}

#[test]
fn write_only_completes_after_write() {
    let mut s = SessionCore::new(KeepAlive::Disabled, 2000, 0);
    let req = IoRequest { req_id: 11, io_type: IoType::WriteOnly { packet: puback(2) } };
    assert_eq!(s.on_request(req, 10), RequestStep::Write { packet: puback(2) });
    assert_eq!(s.on_write_result(true), AfterWrite::Reply { req_id: 11, ok: true });
}

#[test]
fn shutdown_request_ends_actor() {
    let mut s = SessionCore::new(KeepAlive::Disabled, 2000, 0);
    let req = IoRequest { req_id: 12, io_type: IoType::Shutdown };
    assert_eq!(s.on_request(req, 10), RequestStep::ShutdownReply { req_id: 12 });
}

#[test]
fn inbound_publish_is_forwarded() {
    let mut s = SessionCore::new(KeepAlive::Disabled, 2000, 0);
    let p = MqttPacket::Publish(mqtt_async_client::packet::Publish {
        dup: false,
        qospid: mqtt_async_client::packet::QosPid::AtMostOnce,
        retain: false,
        topic: "t".to_string(),
        payload: vec![1, 2],
    });
    assert_eq!(s.on_packet(p.clone(), 10), PacketStep::Forward { packet: p });
}

#[test]
fn unmatched_and_pidless_packets_are_ignored() {
    let mut s = SessionCore::new(KeepAlive::Disabled, 2000, 0);
    assert_eq!(s.on_packet(MqttPacket::Unsuback(77), 10), PacketStep::Done);
    assert_eq!(s.on_packet(MqttPacket::Disconnect, 11), PacketStep::Done);
}
