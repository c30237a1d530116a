use mqtt_async_client::codec::{encode_packet, ReadBuffer};
use mqtt_async_client::errors::Error;
use mqtt_async_client::packet::{
    Connack, Connect, MqttPacket, Publish, Qos, QosPid, Suback, Subscribe, SubscribeTopic,
    Unsubscribe,
};

const MAX: usize = 4096;

fn decode_all(chunks: &[&[u8]]) -> Vec<MqttPacket> {
    let mut buf = ReadBuffer::new(MAX);
    let mut out = Vec::new();
    for chunk in chunks {
        buf.feed(chunk);
        loop {
            match buf.try_decode().expect("well-formed bytes decode") {
                Some(p) => out.push(p),
                None => break,
            }
        }
    }
    out
}

fn round_trip(p: MqttPacket) {
    let bytes = encode_packet(&p, MAX).expect("packet fits");
    let got = decode_all(&[&bytes]);
    assert_eq!(got, vec![p]);
}

#[test]
fn round_trip_connect() {
    round_trip(MqttPacket::Connect(Connect {
        keep_alive: 30,
        client_id: "cid".to_string(),
        clean_session: true,
        username: Some("user".to_string()),
        password: Some(vec![7, 8]),
    }));
}

#[test]
fn round_trip_publish_qos0_and_qos1() {
    round_trip(MqttPacket::Publish(Publish {
        dup: false,
        qospid: QosPid::AtMostOnce,
        retain: false,
        topic: "test/pub_and_sub".to_string(),
        payload: vec![0x78],
    }));
    round_trip(MqttPacket::Publish(Publish {
        dup: false,
        qospid: QosPid::AtLeastOnce(10),
        retain: false,
        topic: "t".to_string(),
        payload: b"hello".to_vec(),
    }));
}

#[test]
fn round_trip_puback_subscribe_unsubscribe() {
    round_trip(MqttPacket::Puback(0x1234));
    round_trip(MqttPacket::Subscribe(Subscribe {
        pid: 2,
        topics: vec![
            SubscribeTopic { topic: "a/b".to_string(), qos: Qos::AtMostOnce },
            SubscribeTopic { topic: "c".to_string(), qos: Qos::AtLeastOnce },
        ],
    }));
    round_trip(MqttPacket::Unsubscribe(Unsubscribe {
        pid: 3,
        topics: vec!["a/b".to_string()],
    }));
}

#[test]
fn round_trip_pingreq_disconnect() {
    round_trip(MqttPacket::Pingreq);
    round_trip(MqttPacket::Disconnect);
}

#[test]
fn puback_exact_bytes() {
    let bytes = encode_packet(&MqttPacket::Puback(0x1234), 16).unwrap();
    assert_eq!(bytes, vec![0x40, 0x02, 0x12, 0x34]);
    assert_eq!(encode_packet(&MqttPacket::Pingreq, 16).unwrap(), vec![0xc0, 0x00]);
    assert_eq!(encode_packet(&MqttPacket::Disconnect, 16).unwrap(), vec![0xe0, 0x00]);
}

#[test]
fn decode_broker_packets() {
    // The packets a broker sends are built with the codec crate
    // directly, then read back through the library's buffer.
    let mut raw = [0u8; 256];
    let n = mqttrs::encode_slice(
        &mqttrs::Packet::Connack(mqttrs::Connack {
            session_present: true,
            code: mqttrs::ConnectReturnCode::NotAuthorized,
        }),
        &mut raw,
    )
    .unwrap();
    let got = decode_all(&[&raw[..n]]);
    assert_eq!(
        got,
        vec![MqttPacket::Connack(Connack { session_present: true, code: 5 })]
    );

    let n = mqttrs::encode_slice(
        &mqttrs::Packet::Suback(mqttrs::Suback {
            pid: mqttrs::Pid::try_from(7).unwrap(),
            return_codes: vec![
                mqttrs::SubscribeReturnCodes::Success(mqttrs::QoS::AtLeastOnce),
                mqttrs::SubscribeReturnCodes::Failure,
            ],
        }),
        &mut raw,
    )
    .unwrap();
    let got = decode_all(&[&raw[..n]]);
    assert_eq!(
        got,
        vec![MqttPacket::Suback(Suback { pid: 7, return_codes: vec![1, 0x80] })]
    );

    let n = mqttrs::encode_slice(&mqttrs::Packet::Pingresp, &mut raw).unwrap();
    assert_eq!(decode_all(&[&raw[..n]]), vec![MqttPacket::Pingresp]);

    let n = mqttrs::encode_slice(
        &mqttrs::Packet::Pubrec(mqttrs::Pid::try_from(9).unwrap()),
        &mut raw,
    )
    .unwrap();
    assert_eq!(decode_all(&[&raw[..n]]), vec![MqttPacket::Pubrec(9)]);

    let n = mqttrs::encode_slice(
        &mqttrs::Packet::Unsuback(mqttrs::Pid::try_from(11).unwrap()),
        &mut raw,
    )
    .unwrap();
    assert_eq!(decode_all(&[&raw[..n]]), vec![MqttPacket::Unsuback(11)]);
}

#[test]
fn segmentation_does_not_change_the_packet_sequence() {
    let a = encode_packet(
        &MqttPacket::Publish(Publish {
            dup: false,
            qospid: QosPid::AtLeastOnce(5),
            retain: false,
            topic: "test/seg".to_string(),
            payload: b"payload".to_vec(),
        }),
        MAX,
    )
    .unwrap();
    let b = encode_packet(&MqttPacket::Puback(5), MAX).unwrap();
    let c = encode_packet(&MqttPacket::Pingreq, MAX).unwrap();
    let mut stream = Vec::new();
    stream.extend_from_slice(&a);
    stream.extend_from_slice(&b);
    stream.extend_from_slice(&c);

    let whole = decode_all(&[&stream]);
    let one_at_a_time: Vec<&[u8]> =
        (0..stream.len()).map(|i| &stream[i..i + 1]).collect();
    let dribbled = decode_all(&one_at_a_time);
    assert_eq!(whole, dribbled);
    assert_eq!(whole.len(), 3);
}

#[test]
fn incomplete_frame_waits_for_more() {
    let bytes = encode_packet(&MqttPacket::Puback(1), MAX).unwrap();
    let mut buf = ReadBuffer::new(MAX);
    buf.feed(&bytes[..2]);
    assert_eq!(buf.try_decode(), Ok(None));
    buf.feed(&bytes[2..]);
    assert_eq!(buf.try_decode(), Ok(Some(MqttPacket::Puback(1))));
}

#[test]
fn malformed_header_is_an_error() {
    let mut buf = ReadBuffer::new(MAX);
    buf.feed(&[0x00, 0x00]);
    assert_eq!(buf.try_decode(), Err(Error::Io));
}

#[test]
fn malformed_length_field_is_an_error() {
    let mut buf = ReadBuffer::new(MAX);
    buf.feed(&[0x30, 0x80, 0x80, 0x80, 0x80]);
    assert_eq!(buf.try_decode(), Err(Error::Io));
}

#[test]
fn oversized_packet_fills_the_buffer() {
    let bytes = encode_packet(
        &MqttPacket::Publish(Publish {
            dup: false,
            qospid: QosPid::AtMostOnce,
            retain: false,
            topic: "toolong".to_string(),
            payload: vec![0; 32],
        }),
        MAX,
    )
    .unwrap();
    let mut buf = ReadBuffer::new(8);
    buf.feed(&bytes[..8]);
    // The frame can never complete within the buffer: no packet, no
    // space left; the connection cannot make progress and the caller
    // treats the stalled stream as disconnected.
    assert_eq!(buf.try_decode(), Ok(None));
    assert_eq!(buf.space(), 0);
}

#[test]
fn encode_refuses_a_packet_that_does_not_fit() {
    let p = MqttPacket::Publish(Publish {
        dup: false,
        qospid: QosPid::AtMostOnce,
        retain: false,
        topic: "topic".to_string(),
        payload: vec![1, 2, 3, 4, 5, 6, 7, 8],
    });
    assert_eq!(encode_packet(&p, 4), Err(Error::Io));
}

#[test]
fn truncated_fixed_fields_are_rejected_not_parsed() {
    // Complete frames whose bodies end before the fields the codec
    // reads unguarded: each must come back as an error, not reach the
    // parser.
    let cases: Vec<&[u8]> = vec![
        &[0x20, 0x00],             // CONNACK with no body
        &[0x40, 0x00],             // PUBACK with no body
        &[0x32, 0x02, 0x00, 0x00], // QoS-1 PUBLISH whose body ends at the topic
        &[0x10, 0x04, 0x00, 0x02, 0x4d, 0x51], // CONNECT cut off after the protocol name
        &[0x82, 0x05, 0x00, 0x01, 0x00, 0x01, 0x41], // SUBSCRIBE topic with no level byte
    ];
    for bytes in cases {
        let mut buf = ReadBuffer::new(MAX);
        buf.feed(bytes);
        assert_eq!(buf.try_decode(), Err(Error::Io), "bytes {:?}", bytes);
    }
}
