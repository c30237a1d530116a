use mqtt_async_client::client_core::{
    connect_packet, publish_packet, write_only_result, ClientCore, ClientOptions, ReplyOutcome,
};
use mqtt_async_client::errors::Error;
use mqtt_async_client::packet::{
    Connack, MqttPacket, Publish, Qos, QosPid, Suback, SubscribeTopic,
};
use mqtt_async_client::session::KeepAlive;

fn connack(code: u8) -> MqttPacket {
    MqttPacket::Connack(Connack { session_present: false, code })
}

fn connected_core() -> ClientCore {
    let mut c = ClientCore::new();
    c.connect_begin().unwrap();
    let (r, shut) = c.connect_finish(ReplyOutcome::Done(Ok(Some(connack(0)))));
    assert_eq!(r, Ok(()));
    assert!(!shut);
    c
}

#[test]
fn fresh_client_is_disconnected() {
    let c = ClientCore::new();
    assert_eq!(c.check_connected(), Err(Error::Disconnected));
}

#[test]
fn connect_accepted_connects() {
    let c = connected_core();
    assert_eq!(c.check_connected(), Ok(()));
}

#[test]
fn connect_rejected_code_fails_with_protocol_rejected() {
    let mut c = ClientCore::new();
    c.connect_begin().unwrap();
    let (r, shut) = c.connect_finish(ReplyOutcome::Done(Ok(Some(connack(5)))));
    assert_eq!(r, Err(Error::ProtocolRejected(5)));
    assert!(shut);
    assert_eq!(c.check_connected(), Err(Error::Disconnected));
}

#[test]
fn connect_timeout_fails_and_disconnects() {
    let mut c = ClientCore::new();
    c.connect_begin().unwrap();
    let (r, shut) = c.connect_finish(ReplyOutcome::TimedOut);
    assert_eq!(r, Err(Error::Timeout));
    assert!(shut);
    assert_eq!(c.check_connected(), Err(Error::Disconnected));
}

#[test]
fn connect_non_connack_reply_is_violation() {
    let mut c = ClientCore::new();
    c.connect_begin().unwrap();
    let (r, shut) = c.connect_finish(ReplyOutcome::Done(Ok(Some(MqttPacket::Pingresp))));
    assert_eq!(r, Err(Error::ProtocolViolation));
    assert!(shut);
}

#[test]
fn connect_while_connected_is_refused() {
    let mut c = connected_core();
    assert_eq!(c.connect_begin(), Err(Error::AlreadyConnected));
}

#[test]
fn publish_qos2_fails_fast() {
    let mut c = connected_core();
    assert_eq!(c.publish_begin(Qos::ExactlyOnce), Err(Error::ProtocolViolation));
}

#[test]
fn publish_qos0_needs_no_pid() {
    let mut c = connected_core();
    assert_eq!(c.publish_begin(Qos::AtMostOnce), Ok(QosPid::AtMostOnce));
}

#[test]
fn publish_qos1_frees_pid_on_puback() {
    let mut c = connected_core();
    let qp = c.publish_begin(Qos::AtLeastOnce).unwrap();
    let pid = match qp {
        QosPid::AtLeastOnce(p) => p,
        other => panic!("expected a QoS 1 PID, got {:?}", other),
    };
    let ok = c.publish_qos1_finish(ReplyOutcome::Done(Ok(Some(MqttPacket::Puback(pid)))));
    assert_eq!(ok, Ok(()));
    // The PID was freed before the call returned: freeing it again is a
    // double-free.
    let again = c.publish_qos1_finish(ReplyOutcome::Done(Ok(Some(MqttPacket::Puback(pid)))));
    assert_eq!(again, Err(Error::PidExhausted));
}

#[test]
fn publish_timeout_leaks_pid() {
    let mut c = connected_core();
    let qp = c.publish_begin(Qos::AtLeastOnce).unwrap();
    let pid = match qp {
        QosPid::AtLeastOnce(p) => p,
        other => panic!("expected a QoS 1 PID, got {:?}", other),
    };
    assert_eq!(c.publish_qos1_finish(ReplyOutcome::TimedOut), Err(Error::Timeout));
    // The PID stayed allocated: a late PUBACK still frees it cleanly.
    let late = c.publish_qos1_finish(ReplyOutcome::Done(Ok(Some(MqttPacket::Puback(pid)))));
    assert_eq!(late, Ok(()));
}

#[test]
fn subscribe_round_trip_returns_codes() {
    let mut c = connected_core();
    let topics = vec![SubscribeTopic { topic: "test/x".to_string(), qos: Qos::AtMostOnce }];
    let (pid, packet) = c.subscribe_begin(topics.clone()).unwrap();
    match &packet {
        MqttPacket::Subscribe(s) => {
            assert_eq!(s.pid, pid);
            assert_eq!(s.topics, topics);
        },
        other => panic!("expected a SUBSCRIBE packet, got {:?}", other),
    }
    let suback = MqttPacket::Suback(Suback { pid, return_codes: vec![0] });
    assert_eq!(c.subscribe_finish(pid, ReplyOutcome::Done(Ok(Some(suback)))), Ok(vec![0]));
}

#[test]
fn subscribe_qos2_topic_is_refused() {
    let mut c = connected_core();
    let topics = vec![SubscribeTopic { topic: "test/x".to_string(), qos: Qos::ExactlyOnce }];
    assert_eq!(c.subscribe_begin(topics), Err(Error::ProtocolViolation));
}

#[test]
fn subscribe_mismatched_pid_is_violation_and_leaks() {
    let mut c = connected_core();
    let (pid, _packet) = c
        .subscribe_begin(vec![SubscribeTopic { topic: "t".to_string(), qos: Qos::AtMostOnce }])
        .unwrap();
    let wrong = MqttPacket::Suback(Suback { pid: pid.wrapping_add(1).max(1), return_codes: vec![0] });
    assert_eq!(
        c.subscribe_finish(pid, ReplyOutcome::Done(Ok(Some(wrong)))),
        Err(Error::ProtocolViolation)
    );
    // The PID stayed allocated: the matching SUBACK still completes.
    let right = MqttPacket::Suback(Suback { pid, return_codes: vec![1] });
    assert_eq!(c.subscribe_finish(pid, ReplyOutcome::Done(Ok(Some(right)))), Ok(vec![1]));
}

#[test]
fn subscribe_timeout_leaks_pid() {
    let mut c = connected_core();
    let (pid, _packet) = c
        .subscribe_begin(vec![SubscribeTopic { topic: "t".to_string(), qos: Qos::AtMostOnce }])
        .unwrap();
    assert_eq!(c.subscribe_finish(pid, ReplyOutcome::TimedOut), Err(Error::Timeout));
    let right = MqttPacket::Suback(Suback { pid, return_codes: vec![0] });
    assert_eq!(c.subscribe_finish(pid, ReplyOutcome::Done(Ok(Some(right)))), Ok(vec![0]));
}

#[test]
fn unsubscribe_round_trip() {
    let mut c = connected_core();
    let (pid, packet) = c.unsubscribe_begin(vec!["test/unsub".to_string()]).unwrap();
    match &packet {
        MqttPacket::Unsubscribe(u) => {
            assert_eq!(u.pid, pid);
            assert_eq!(u.topics, vec!["test/unsub".to_string()]);
        },
        other => panic!("expected an UNSUBSCRIBE packet, got {:?}", other),
    }
    assert_eq!(
        c.unsubscribe_finish(pid, ReplyOutcome::Done(Ok(Some(MqttPacket::Unsuback(pid))))),
        Ok(())
    );
}

#[test]
fn unsubscribe_timeout_leaks_pid() {
    let mut c = connected_core();
    let (pid, _packet) = c.unsubscribe_begin(vec!["t".to_string()]).unwrap();
    assert_eq!(c.unsubscribe_finish(pid, ReplyOutcome::TimedOut), Err(Error::Timeout));
    assert_eq!(
        c.unsubscribe_finish(pid, ReplyOutcome::Done(Ok(Some(MqttPacket::Unsuback(pid))))),
        Ok(())
    );
}

#[test]
fn inbound_qos1_publish_answers_with_puback() {
    let mut c = connected_core();
    let publish = MqttPacket::Publish(Publish {
        dup: false,
        qospid: QosPid::AtLeastOnce(9),
        retain: false,
        topic: "test/pub_and_sub".to_string(),
        payload: vec![0x78],
    });
    let (rr, ack) = c.read_received(Some(publish)).unwrap();
    assert_eq!(rr.topic, "test/pub_and_sub".to_string());
    assert_eq!(rr.payload, vec![0x78]);
    assert_eq!(ack, Some(MqttPacket::Puback(9)));
}

#[test]
fn inbound_qos0_publish_needs_no_puback() {
    let mut c = connected_core();
    let publish = MqttPacket::Publish(Publish {
        dup: false,
        qospid: QosPid::AtMostOnce,
        retain: false,
        topic: "t".to_string(),
        payload: vec![],
    });
    let (rr, ack) = c.read_received(Some(publish)).unwrap();
    assert_eq!(rr.payload, Vec::<u8>::new());
    assert_eq!(ack, None);
}

#[test]
fn closed_inbound_channel_disconnects() {
    let mut c = connected_core();
    assert_eq!(c.read_received(None), Err(Error::Disconnected));
    assert_eq!(c.check_connected(), Err(Error::Disconnected));
}

#[test]
fn non_publish_on_read_is_violation() {
    let mut c = connected_core();
    assert_eq!(
        c.read_received(Some(MqttPacket::Pingresp)),
        Err(Error::ProtocolViolation)
    );
}

#[test]
fn shutdown_gates_every_later_operation() {
    let mut c = connected_core();
    assert_eq!(c.shutdown(), Ok(()));
    assert_eq!(c.check_connected(), Err(Error::Disconnected));
    assert_eq!(c.shutdown(), Err(Error::Disconnected));
}

#[test]
fn connect_packet_carries_options() {
    let opts = ClientOptions {
        host: "localhost".to_string(),
        port: 1883,
        username: Some("user".to_string()),
        password: Some(vec![1, 2, 3]),
        keep_alive: KeepAlive::Enabled { secs: 30 },
        client_id: None,
        packet_buffer_len: 100,
        max_packet_len: 4096,
        operation_timeout_ms: 20_000,
    };
    match connect_packet(opts) {
        MqttPacket::Connect(c) => {
            assert_eq!(c.keep_alive, 30);
            assert_eq!(c.client_id, String::new());
            assert!(c.clean_session);
            assert_eq!(c.username, Some("user".to_string()));
            assert_eq!(c.password, Some(vec![1, 2, 3]));
        },
        other => panic!("expected a CONNECT packet, got {:?}", other),
    }
}

#[test]
fn publish_packet_sets_no_flags() {
    match publish_packet("t".to_string(), vec![9], QosPid::AtLeastOnce(4)) {
        MqttPacket::Publish(p) => {
            assert!(!p.dup);
            assert!(!p.retain);
            assert_eq!(p.qospid, QosPid::AtLeastOnce(4));
            assert_eq!(p.topic, "t".to_string());
            assert_eq!(p.payload, vec![9]);
        },
        other => panic!("expected a PUBLISH packet, got {:?}", other),
    }
}

#[test]
fn write_only_result_maps_outcomes() {
    assert_eq!(write_only_result(ReplyOutcome::TimedOut), Err(Error::Timeout));
    assert_eq!(write_only_result(ReplyOutcome::Dropped), Err(Error::Disconnected));
    assert_eq!(write_only_result(ReplyOutcome::Done(Err(Error::Io))), Err(Error::Io));
    assert_eq!(write_only_result(ReplyOutcome::Done(Ok(None))), Ok(()));
}

#[test]
fn inbound_qos2_publish_is_delivered_without_ack() {
    let mut c = connected_core();
    let publish = MqttPacket::Publish(Publish {
        dup: false,
        qospid: QosPid::ExactlyOnce(3),
        retain: false,
        topic: "t".to_string(),
        payload: vec![5],
    });
    let (rr, ack) = c.read_received(Some(publish)).unwrap();
    assert_eq!(rr.payload, vec![5]);
    assert_eq!(ack, None);
}

#[test]
fn dropped_reply_means_the_actor_is_gone() {
    let mut c = connected_core();
    let qp = c.publish_begin(Qos::AtLeastOnce).unwrap();
    let pid = match qp {
        QosPid::AtLeastOnce(p) => p,
        other => panic!("expected a QoS 1 PID, got {:?}", other),
    };
    assert_eq!(c.publish_qos1_finish(ReplyOutcome::Dropped), Err(Error::Disconnected));
    // The PID stays claimed after a dropped reply too.
    let late = c.publish_qos1_finish(ReplyOutcome::Done(Ok(Some(MqttPacket::Puback(pid)))));
    assert_eq!(late, Ok(()));
}

#[test]
fn connack_with_session_present_decodes() {
    let mut raw = [0u8; 8];
    let n = mqttrs::encode_slice(
        &mqttrs::Packet::Connack(mqttrs::Connack {
            session_present: true,
            code: mqttrs::ConnectReturnCode::Accepted,
        }),
        &mut raw,
    )
    .unwrap();
    let mut buf = mqtt_async_client::codec::ReadBuffer::new(64);
    buf.feed(&raw[..n]);
    assert_eq!(
        buf.try_decode(),
        Ok(Some(MqttPacket::Connack(Connack { session_present: true, code: 0 })))
    );
}

#[test]
fn publish_wrong_reply_type_is_violation_and_leaks() {
    let mut c = connected_core();
    let qp = c.publish_begin(Qos::AtLeastOnce).unwrap();
    let pid = match qp {
        QosPid::AtLeastOnce(p) => p,
        other => panic!("expected a QoS 1 PID, got {:?}", other),
    };
    let wrong = MqttPacket::Suback(Suback { pid, return_codes: vec![0] });
    assert_eq!(
        c.publish_qos1_finish(ReplyOutcome::Done(Ok(Some(wrong)))),
        Err(Error::ProtocolViolation)
    );
    // The PID stayed allocated: the real PUBACK still frees it.
    let right = c.publish_qos1_finish(ReplyOutcome::Done(Ok(Some(MqttPacket::Puback(pid)))));
    assert_eq!(right, Ok(()));
}
