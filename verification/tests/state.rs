use std::sync::Arc;

use rumqtt::{
    Connack, Connect, ConnectReturnCode, Duration, Error, ErrorKind, LastWill, MqttConnectionStatus,
    MqttOptions, MqttState, Packet, PacketIdentifier, Protocol, Publish, QoS, SecurityOptions,
    Subscribe, SubscribeTopic,
};

fn state() -> MqttState {
    MqttState::new(MqttOptions::new("test-id", "127.0.0.1:1883"))
}

fn publish(qos: QoS, pid: Option<PacketIdentifier>) -> Publish {
    Publish {
        dup: false,
        qos,
        retain: false,
        pid,
        topic_name: "hello/world".to_owned(),
        payload: Arc::new(vec![1, 2, 3]),
    }
}

fn accepted() -> Connack {
    Connack { session_present: false, code: ConnectReturnCode::Accepted }
}

fn secs(secs: u64) -> Duration {
    Duration::from_secs(secs)
}

fn invalid_state<V>() -> Result<V, Error> {
    Err(Error(ErrorKind::InvalidState))
}

fn pids(mqtt: &MqttState) -> Vec<u16> {
    mqtt.outgoing_pub.iter().map(|p| p.pid.unwrap().0).collect()
}

#[test]
fn next_pkid_roll() {
    let mut mqtt = MqttState::new(MqttOptions::new("test-id", "127.0.0.1:1883"));
    let mut pkt_id = PacketIdentifier(0);
    for _ in 0..65536 {
        pkt_id = mqtt.next_pkid();
    }
    assert_eq!(PacketIdentifier(1), pkt_id);
}

#[test]
fn outgoing_publish_handle_should_set_pkid_correctly_and_add_publish_to_queue_correctly() {
    let mut mqtt = MqttState::new(MqttOptions::new("test-id", "127.0.0.1:1883"));
    mqtt.connection_status = MqttConnectionStatus::Connected;

    // QoS0 Publish
    let publish = Publish {
        dup: false,
        qos: QoS::AtMostOnce,
        retain: false,
        pid: None,
        topic_name: "hello/world".to_owned(),
        payload: Arc::new(vec![1, 2, 3]),
    };

    let publish_out = mqtt.handle_outgoing_publish(publish);
    // pkid shouldn't be added
    assert_eq!(publish_out.unwrap().pid, None);
    // publish shouldn't added to queue
    assert_eq!(mqtt.outgoing_pub.len(), 0);

    // QoS1 Publish
    let publish = Publish {
        dup: false,
        qos: QoS::AtLeastOnce,
        retain: false,
        pid: None,
        topic_name: "hello/world".to_owned(),
        payload: Arc::new(vec![1, 2, 3]),
    };

    let publish_out = mqtt.handle_outgoing_publish(publish.clone());
    // pkid shouldn't be added
    assert_eq!(publish_out.unwrap().pid, Some(PacketIdentifier(1)));
    // publish shouldn't added to queue
    assert_eq!(mqtt.outgoing_pub.len(), 1);

    let publish_out = mqtt.handle_outgoing_publish(publish.clone());
    // pkid shouldn't be added
    assert_eq!(publish_out.unwrap().pid, Some(PacketIdentifier(2)));
    // publish shouldn't added to queue
    assert_eq!(mqtt.outgoing_pub.len(), 2);
}

#[test]
fn outgoing_publish_handle_should_throw_error_in_invalid_state() {
    let mut mqtt = MqttState::new(MqttOptions::new("test-id", "127.0.0.1:1883"));

    let publish = Publish {
        dup: false,
        qos: QoS::AtMostOnce,
        retain: false,
        pid: None,
        topic_name: "hello/world".to_owned(),
        payload: Arc::new(vec![1, 2, 3]),
    };

    let publish_out = mqtt.handle_outgoing_publish(publish);
    let err = publish_out.unwrap_err();
    match err {
        Error(ErrorKind::InvalidState) => {}
        _ => panic!(),
    }
}

#[test]
fn outgoing_publish_handle_should_throw_error_when_packetsize_exceeds_max() {
    let mut mqtt = MqttState::new(MqttOptions::new("test-id", "127.0.0.1:1883"));

    let publish = Publish {
        dup: false,
        qos: QoS::AtMostOnce,
        retain: false,
        pid: None,
        topic_name: "hello/world".to_owned(),
        payload: Arc::new(vec![0; 101 * 1024]),
    };

    let publish_out = mqtt.handle_outgoing_publish(publish);
    assert_eq!(publish_out, Err(Error(ErrorKind::PacketSizeLimitExceeded)));
}

#[test]
fn incoming_puback_should_remove_correct_publish_from_queue() {
    let mut mqtt = MqttState::new(MqttOptions::new("test-id", "127.0.0.1:1883"));
    // QoS1 Publish
    let publish = Publish {
        dup: false,
        qos: QoS::AtLeastOnce,
        retain: false,
        pid: None,
        topic_name: "hello/world".to_owned(),
        payload: Arc::new(vec![1, 2, 3]),
    };

    let _ = mqtt.handle_outgoing_publish(publish.clone());
    let _ = mqtt.handle_outgoing_publish(publish.clone());
    let _ = mqtt.handle_outgoing_publish(publish);

    let publish = mqtt.handle_incoming_puback(PacketIdentifier(1)).unwrap();
    assert_eq!(publish.pid, Some(PacketIdentifier(1)));
    assert_eq!(mqtt.outgoing_pub.len(), 2);

    let publish = mqtt.handle_incoming_puback(PacketIdentifier(2)).unwrap();
    assert_eq!(publish.pid, Some(PacketIdentifier(2)));
    assert_eq!(mqtt.outgoing_pub.len(), 1);

    let publish = mqtt.handle_incoming_puback(PacketIdentifier(3)).unwrap();
    assert_eq!(publish.pid, Some(PacketIdentifier(3)));
    assert_eq!(mqtt.outgoing_pub.len(), 0);
}

#[test]
fn outgoing_ping_handle_should_throw_errors_during_invalid_state() {
    // 1. test for invalid state
    let mut mqtt = MqttState::new(MqttOptions::new("test-id", "127.0.0.1:1883"));
    mqtt.opts.keep_alive = Some(5);
    assert_eq!(invalid_state(), mqtt.handle_outgoing_ping_at(secs(5)));
}

#[test]
fn outgoing_ping_handle_should_throw_errors_for_no_pingresp() {
    let mut mqtt = MqttState::new(MqttOptions::new("test-id", "127.0.0.1:1883"));
    mqtt.opts.keep_alive = Some(5);
    mqtt.connection_status = MqttConnectionStatus::Connected;
    // should ping
    assert_eq!(Ok(()), mqtt.handle_outgoing_ping_at(secs(5)));
    // should throw error because we didn't get pingresp for previous ping
    assert_eq!(invalid_state(), mqtt.handle_outgoing_ping_at(secs(10)));
}

#[test]
fn outgoing_ping_handle_should_throw_error_if_ping_time_exceeded() {
    let mut mqtt = MqttState::new(MqttOptions::new("test-id", "127.0.0.1:1883"));
    mqtt.opts.keep_alive = Some(5);
    mqtt.connection_status = MqttConnectionStatus::Connected;
    assert_eq!(invalid_state(), mqtt.handle_outgoing_ping_at(secs(7)));
}

#[test]
fn outgoing_ping_handle_should_succeed_if_pingresp_is_received() {
    let mut mqtt = MqttState::new(MqttOptions::new("test-id", "127.0.0.1:1883"));
    mqtt.opts.keep_alive = Some(5);
    mqtt.connection_status = MqttConnectionStatus::Connected;
    // should ping
    assert_eq!(Ok(()), mqtt.handle_outgoing_ping_at(secs(5)));
    mqtt.handle_incoming_pingresp();
    // should ping
    assert_eq!(Ok(()), mqtt.handle_outgoing_ping_at(secs(10)));
}

#[test]
fn disconnect_handle_should_reset_everything_in_clean_session() {
    let mut mqtt = MqttState::new(MqttOptions::new("test-id", "127.0.0.1:1883"));
    mqtt.await_pingresp = true;
    // QoS1 Publish
    let publish = Publish {
        dup: false,
        qos: QoS::AtLeastOnce,
        retain: false,
        pid: None,
        topic_name: "hello/world".to_owned(),
        payload: Arc::new(vec![1, 2, 3]),
    };

    let _ = mqtt.handle_outgoing_publish(publish.clone());
    let _ = mqtt.handle_outgoing_publish(publish.clone());
    let _ = mqtt.handle_outgoing_publish(publish);

    mqtt.handle_disconnect();
    assert_eq!(mqtt.outgoing_pub.len(), 0);
    assert_eq!(mqtt.connection_status, MqttConnectionStatus::Disconnected);
    assert_eq!(mqtt.await_pingresp, false);
}

#[test]
fn disconnect_handle_should_reset_everything_except_queues_in_persistent_session() {
    let mut mqtt = MqttState::new(MqttOptions::new("test-id", "127.0.0.1:1883"));
    mqtt.await_pingresp = true;
    mqtt.opts.clean_session = false;
    // QoS1 Publish
    let publish = Publish {
        dup: false,
        qos: QoS::AtLeastOnce,
        retain: false,
        pid: None,
        topic_name: "hello/world".to_owned(),
        payload: Arc::new(vec![1, 2, 3]),
    };

    let _ = mqtt.handle_outgoing_publish(publish.clone());
    let _ = mqtt.handle_outgoing_publish(publish.clone());
    let _ = mqtt.handle_outgoing_publish(publish);

    mqtt.handle_disconnect();
    assert_eq!(mqtt.outgoing_pub.len(), 3);
    assert_eq!(mqtt.connection_status, MqttConnectionStatus::Disconnected);
    assert_eq!(mqtt.await_pingresp, false);
}

#[test]
fn connection_status_is_valid_while_handling_connect_and_connack_packets() {
    let mut mqtt = MqttState::new(MqttOptions::new("test-id", "127.0.0.1:1883"));

    assert_eq!(mqtt.connection_status, MqttConnectionStatus::Disconnected);
    let _ = mqtt.handle_outgoing_connect(&[]);
    assert_eq!(mqtt.connection_status, MqttConnectionStatus::Handshake);

    let connack = Connack { session_present: false, code: ConnectReturnCode::Accepted };

    let _ = mqtt.handle_incoming_connack(connack);
    assert_eq!(mqtt.connection_status, MqttConnectionStatus::Connected);

    let connack = Connack { session_present: false, code: ConnectReturnCode::BadUsernamePassword };

    let _ = mqtt.handle_incoming_connack(connack);
    assert_eq!(mqtt.connection_status, MqttConnectionStatus::Disconnected);
}

#[test]
fn connack_handle_should_not_return_list_of_incomplete_messages_to_be_sent_in_clean_session() {
    let mut mqtt = MqttState::new(MqttOptions::new("test-id", "127.0.0.1:1883"));

    let publish = Publish {
        dup: false,
        qos: QoS::AtLeastOnce,
        retain: false,
        pid: None,
        topic_name: "hello/world".to_owned(),
        payload: Arc::new(vec![1, 2, 3]),
    };

    let _ = mqtt.handle_outgoing_publish(publish.clone());
    let _ = mqtt.handle_outgoing_publish(publish.clone());
    let _ = mqtt.handle_outgoing_publish(publish);

    let connack = Connack { session_present: false, code: ConnectReturnCode::Accepted };

    mqtt.handle_incoming_connack(connack).unwrap();
    assert_eq!(None, mqtt.handle_reconnection());
}

#[test]
fn connack_handle_should_return_list_of_incomplete_messages_to_be_sent_in_persistent_session() {
    let mut mqtt = MqttState::new(MqttOptions::new("test-id", "127.0.0.1:1883"));
    mqtt.opts.clean_session = false;

    let publish = Publish {
        dup: false,
        qos: QoS::AtLeastOnce,
        retain: false,
        pid: None,
        topic_name: "hello/world".to_owned(),
        payload: Arc::new(vec![1, 2, 3]),
    };

    let _ = mqtt.handle_outgoing_publish(publish.clone());
    let _ = mqtt.handle_outgoing_publish(publish.clone());
    let _ = mqtt.handle_outgoing_publish(publish);

    let connack = Connack { session_present: false, code: ConnectReturnCode::Accepted };

    if let Ok(_) = mqtt.handle_incoming_connack(connack) {
        if let Some(v) = mqtt.handle_reconnection() {
            assert_eq!(v.len(), 3);
        } else {
            panic!("Should return publishes to be retransmitted");
        }
    }
}

#[test]
fn new_state_has_sent_nothing() {
    let mut mqtt = state();
    assert_eq!(mqtt.connection_status, MqttConnectionStatus::Disconnected);
    assert!(mqtt.initial_connect());
    assert!(!mqtt.await_pingresp);
    assert_eq!(mqtt.last_pkid, PacketIdentifier(0));
    assert!(mqtt.outgoing_pub.is_empty());
    assert_eq!(mqtt.last_flush, secs(0));
    assert_eq!(mqtt.next_pkid(), PacketIdentifier(1));
}

#[test]
fn pkids_do_not_repeat_until_they_start_again() {
    let mut mqtt = state();
    mqtt.last_pkid = PacketIdentifier(65_000);
    let ids: Vec<u16> = (0..65_535).map(|_| mqtt.next_pkid().0).collect();
    let mut seen = vec![false; 65_536];
    for id in &ids {
        assert!(!seen[*id as usize]);
        seen[*id as usize] = true;
    }
    assert!(!seen[0]);
    assert_eq!(ids[534], 65_535);
    assert_eq!(ids[535], 1);
    assert_eq!(mqtt.next_pkid(), PacketIdentifier(65_001));
}

#[test]
fn connect_packet_carries_the_options() {
    let will = LastWill {
        topic: "gone".to_owned(),
        message: "bye".to_owned(),
        qos: QoS::AtLeastOnce,
        retain: true,
    };
    let opts = MqttOptions::new("test-id", "127.0.0.1:1883")
        .set_keep_alive(30)
        .set_clean_session(false)
        .set_security_opts(SecurityOptions::UsernamePassword(("me".to_owned(), "pw".to_owned())))
        .set_last_will(Some(will.clone()));
    let mut mqtt = MqttState::new(opts);
    assert_eq!(
        mqtt.handle_outgoing_connect(&[]),
        Ok(Connect {
            protocol: Protocol::MQTT(4),
            keep_alive: 30,
            client_id: "test-id".to_owned(),
            clean_session: false,
            last_will: Some(will),
            username: Some("me".to_owned()),
            password: Some("pw".to_owned()),
        })
    );
    assert_eq!(mqtt.opts.keep_alive, Some(30));
}

#[test]
fn connect_fills_in_a_missing_keep_alive() {
    let mut mqtt = state();
    mqtt.opts.keep_alive = None;
    assert!(!mqtt.is_ping_required_at(secs(1_000_000)));
    let connect = mqtt.handle_outgoing_connect(&[]).unwrap();
    assert_eq!(connect.keep_alive, 180);
    assert_eq!(connect.username, None);
    assert_eq!(connect.password, None);
    assert_eq!(connect.last_will, None);
    assert_eq!(mqtt.opts.keep_alive, Some(180));
}

#[test]
fn tls_needs_no_credentials() {
    let mut mqtt = state();
    mqtt.opts.security =
        SecurityOptions::Tls(("ca".to_owned(), "cert".to_owned(), "key".to_owned()));
    let connect = mqtt.handle_outgoing_connect(&[]).unwrap();
    assert_eq!((connect.username, connect.password), (None, None));
}

#[test]
fn refused_connections_say_why() {
    let codes = [
        (ConnectReturnCode::RefusedProtocolVersion, "RefusedProtocolVersion"),
        (ConnectReturnCode::RefusedIdentifierRejected, "RefusedIdentifierRejected"),
        (ConnectReturnCode::ServerUnavailable, "ServerUnavailable"),
        (ConnectReturnCode::BadUsernamePassword, "BadUsernamePassword"),
        (ConnectReturnCode::NotAuthorized, "NotAuthorized"),
    ];
    for (code, name) in codes {
        assert_eq!(format!("{:?}", code), name);
        let mut mqtt = state();
        let _ = mqtt.handle_outgoing_publish(publish(QoS::AtLeastOnce, None));
        let refusal = mqtt.handle_incoming_connack(Connack { session_present: false, code });
        assert_eq!(refusal, Err(Error(ErrorKind::Msg(format!("Connack error {:?}", code)))));
        assert_eq!(mqtt.connection_status, MqttConnectionStatus::Disconnected);
        assert!(mqtt.initial_connect());
        assert_eq!(mqtt.outgoing_pub.len(), 1);
    }
    assert_eq!(
        Error::connack(ConnectReturnCode::Accepted),
        Error(ErrorKind::Msg("Connack error Accepted".to_owned()))
    );
}

#[test]
fn first_accepted_connection_is_remembered() {
    let mut mqtt = state();
    mqtt.handle_incoming_connack(accepted()).unwrap();
    assert!(!mqtt.initial_connect());
    mqtt.handle_disconnect();
    let _ = mqtt.handle_outgoing_connect(&[]);
    let refused = Connack { session_present: false, code: ConnectReturnCode::NotAuthorized };
    assert!(mqtt.handle_incoming_connack(refused).is_err());
    assert!(!mqtt.initial_connect());
}

#[test]
fn persistent_session_keeps_its_queue_through_lost_connections() {
    let mut mqtt = state();
    mqtt.opts.clean_session = false;
    let _ = mqtt.handle_outgoing_publish(publish(QoS::AtLeastOnce, None));
    let _ = mqtt.handle_outgoing_publish(publish(QoS::AtLeastOnce, None));
    let before = mqtt.handle_reconnection().unwrap();
    mqtt.handle_disconnect();
    let _ = mqtt.handle_outgoing_connect(&[]);
    mqtt.handle_incoming_connack(accepted()).unwrap();
    mqtt.handle_disconnect();
    assert_eq!(mqtt.handle_reconnection(), Some(before));
    assert_eq!(pids(&mqtt), [1, 2]);
}

#[test]
fn publish_keeps_an_identifier_it_has() {
    let mut mqtt = state();
    mqtt.connection_status = MqttConnectionStatus::Connected;
    let sent = publish(QoS::AtLeastOnce, Some(PacketIdentifier(7)));
    let now = Duration { secs: 3, nanos: 4 };
    assert_eq!(mqtt.handle_outgoing_publish_at(sent.clone(), now), Ok(sent.clone()));
    assert_eq!(mqtt.last_pkid, PacketIdentifier(0));
    assert_eq!(mqtt.outgoing_pub[0], sent);
    assert!(Arc::ptr_eq(&mqtt.outgoing_pub[0].payload, &sent.payload));
    assert_eq!(mqtt.last_flush, now);
}

#[test]
fn refused_publish_is_queued_all_the_same() {
    let mut mqtt = state();
    let refused = mqtt.handle_outgoing_publish_at(publish(QoS::AtLeastOnce, None), secs(3));
    assert_eq!(refused, invalid_state());
    assert_eq!(pids(&mqtt), [1]);
    assert_eq!(mqtt.last_flush, secs(0));
}

#[test]
fn publish_over_the_packet_size_limit_changes_nothing() {
    let mut mqtt = state();
    mqtt.connection_status = MqttConnectionStatus::Connected;
    mqtt.opts.max_packet_size = 3;
    let mut large = publish(QoS::AtLeastOnce, None);
    large.payload = Arc::new(vec![1, 2, 3, 4]);
    let refused = mqtt.handle_outgoing_publish_at(large, secs(9));
    assert_eq!(refused, Err(Error(ErrorKind::PacketSizeLimitExceeded)));
    assert!(mqtt.outgoing_pub.is_empty());
    assert_eq!(mqtt.last_pkid, PacketIdentifier(0));
    assert_eq!(mqtt.last_flush, secs(0));
    assert!(mqtt.handle_outgoing_publish(publish(QoS::AtLeastOnce, None)).is_ok());
}

#[test]
fn queue_is_what_was_published_and_not_acknowledged() {
    let mut mqtt = state();
    mqtt.opts.clean_session = false;
    for _ in 0..3 {
        let _ = mqtt.handle_outgoing_publish(publish(QoS::AtLeastOnce, None));
    }
    mqtt.handle_disconnect();
    mqtt.handle_incoming_puback(PacketIdentifier(2)).unwrap();
    let _ = mqtt.handle_outgoing_publish(publish(QoS::AtLeastOnce, Some(PacketIdentifier(1))));
    let _ = mqtt.handle_outgoing_publish(publish(QoS::AtMostOnce, None));
    let _ = mqtt.handle_outgoing_connect(&[]);
    mqtt.handle_incoming_connack(accepted()).unwrap();
    let _ = mqtt.handle_outgoing_publish(publish(QoS::AtLeastOnce, None));
    mqtt.handle_incoming_puback(PacketIdentifier(1)).unwrap();
    let queue = mqtt.handle_reconnection().unwrap();
    let ids: Vec<u16> = queue.iter().map(|p| p.pid.unwrap().0).collect();
    assert_eq!(ids, [3, 1, 4]);
}

#[test]
fn acknowledgement_takes_back_what_was_sent() {
    let mut mqtt = state();
    mqtt.connection_status = MqttConnectionStatus::Connected;
    let _ = mqtt.handle_outgoing_publish(publish(QoS::AtLeastOnce, None));
    let sent = mqtt.handle_outgoing_publish(publish(QoS::AtLeastOnce, None)).unwrap();
    let _ = mqtt.handle_outgoing_publish(publish(QoS::AtLeastOnce, None));
    assert_eq!(mqtt.handle_incoming_puback(PacketIdentifier(2)), Ok(sent));
    assert_eq!(pids(&mqtt), [1, 3]);
    assert_eq!(mqtt.handle_incoming_puback(PacketIdentifier(2)), invalid_state());
    assert_eq!(pids(&mqtt), [1, 3]);
}

#[test]
fn acknowledgement_takes_the_oldest_of_two() {
    let mut mqtt = state();
    let mut first = publish(QoS::AtLeastOnce, Some(PacketIdentifier(9)));
    first.retain = true;
    let second = publish(QoS::AtLeastOnce, Some(PacketIdentifier(9)));
    let _ = mqtt.handle_outgoing_publish(first.clone());
    let _ = mqtt.handle_outgoing_publish(second.clone());
    assert_eq!(mqtt.handle_incoming_puback(PacketIdentifier(9)), Ok(first));
    assert_eq!(mqtt.outgoing_pub[0], second);
}

#[test]
fn incoming_publish_is_acknowledged_if_it_asks_for_it() {
    let mut mqtt = state();
    let qos0 = publish(QoS::AtMostOnce, None);
    assert_eq!(mqtt.handle_incoming_publish(qos0.clone()), (Some(qos0), None));
    let qos1 = publish(QoS::AtLeastOnce, Some(PacketIdentifier(44)));
    assert_eq!(
        mqtt.handle_incoming_publish(qos1.clone()),
        (Some(qos1), Some(Packet::Puback(PacketIdentifier(44))))
    );
    assert!(mqtt.outgoing_pub.is_empty());
}

#[test]
fn subscribe_takes_the_next_pkid() {
    let topics = vec![SubscribeTopic { topic_path: "a/b".to_owned(), qos: QoS::AtLeastOnce }];
    let mut mqtt = state();
    assert_eq!(mqtt.handle_outgoing_subscribe_at(topics.clone(), secs(8)), invalid_state());
    assert_eq!(mqtt.last_pkid, PacketIdentifier(1));
    assert_eq!(mqtt.last_flush, secs(0));
    assert!(!mqtt.await_pingresp);

    mqtt.connection_status = MqttConnectionStatus::Connected;
    assert_eq!(
        mqtt.handle_outgoing_subscribe_at(topics.clone(), secs(8)),
        Ok(Subscribe { pid: PacketIdentifier(2), topics: topics.clone() })
    );
    assert_eq!(mqtt.last_flush, secs(8));
    assert!(mqtt.await_pingresp);
    assert_eq!(
        mqtt.handle_outgoing_subscribe(topics.clone()),
        Ok(Subscribe { pid: PacketIdentifier(3), topics })
    );
}

#[test]
fn ping_falls_due_after_nine_tenths_of_the_keep_alive() {
    for keep_alive in 0..=65_535u16 {
        let mut mqtt = state();
        mqtt.opts.keep_alive = Some(keep_alive);
        let limit = f32::ceil(0.9 * f32::from(keep_alive)) as u64;
        assert!(!mqtt.is_ping_required_at(secs(limit)), "{}", keep_alive);
        assert!(mqtt.is_ping_required_at(Duration { secs: limit, nanos: 1 }), "{}", keep_alive);
    }
}

#[test]
fn ping_counts_from_the_last_control_packet() {
    let mut mqtt = state();
    assert!(mqtt.is_ping_required_at(secs(10)));
    mqtt.reset_last_control_to(secs(10));
    assert!(!mqtt.is_ping_required_at(secs(10)));
    assert!(!mqtt.is_ping_required_at(secs(3)));
    assert!(!mqtt.is_ping_required_at(secs(19)));
    assert!(mqtt.is_ping_required_at(secs(20)));
}

#[test]
fn ping_comes_too_late_a_second_after_the_keep_alive() {
    let mut mqtt = state();
    mqtt.opts.keep_alive = Some(5);
    mqtt.connection_status = MqttConnectionStatus::Connected;
    assert_eq!(mqtt.handle_outgoing_ping_at(secs(6)), invalid_state());
    let now = Duration { secs: 5, nanos: 999_999_999 };
    assert_eq!(mqtt.handle_outgoing_ping_at(now), Ok(()));
    assert_eq!(mqtt.last_flush, now);
    assert!(mqtt.await_pingresp);
}

#[test]
fn publish_stays_pending_until_it_is_acknowledged() {
    let mut mqtt = state();
    mqtt.opts.clean_session = false;
    let _ = mqtt.handle_outgoing_publish(publish(QoS::AtLeastOnce, None));
    let _ = mqtt.handle_outgoing_publish(publish(QoS::AtMostOnce, None));
    let _ = mqtt.handle_outgoing_publish(publish(QoS::AtLeastOnce, None));
    let _ = mqtt.handle_outgoing_connect(&[]);
    mqtt.handle_incoming_connack(accepted()).unwrap();
    mqtt.handle_outgoing_ping().unwrap();
    mqtt.handle_incoming_puback(PacketIdentifier(2)).unwrap();
    mqtt.handle_disconnect();
    assert_eq!(pids(&mqtt), [1]);
    mqtt.handle_incoming_puback(PacketIdentifier(1)).unwrap();
    assert!(mqtt.outgoing_pub.is_empty());
}

#[test]
fn events_leave_the_options_alone() {
    let mut mqtt = state();
    mqtt.connection_status = MqttConnectionStatus::Connected;
    let _ = mqtt.handle_outgoing_publish(publish(QoS::AtLeastOnce, None));
    let _ = mqtt.handle_outgoing_ping();
    mqtt.handle_disconnect();
    let _ = mqtt.handle_outgoing_connect(&[]);
    assert_eq!(mqtt.opts.client_id, "test-id");
    assert_eq!(mqtt.opts.broker_addr, "127.0.0.1:1883");
    assert_eq!(mqtt.opts.keep_alive, Some(10));
    assert!(mqtt.opts.clean_session);
}

#[test]
fn ping_that_is_due_can_still_be_sent() {
    for keep_alive in [0u16, 1, 5, 9, 10, 11, 180, 65_534, 65_535] {
        let mut mqtt = state();
        mqtt.opts.keep_alive = Some(keep_alive);
        mqtt.connection_status = MqttConnectionStatus::Connected;
        let now = Duration { secs: u64::from(keep_alive), nanos: 1 };
        assert!(mqtt.is_ping_required_at(now));
        assert_eq!(mqtt.handle_outgoing_ping_at(now), Ok(()));
        assert!(!mqtt.is_ping_required_at(now));
    }
}

#[test]
fn clock_runs() {
    let mut mqtt = state();
    mqtt.opts.keep_alive = Some(0);
    let begin = std::time::Instant::now();
    while begin.elapsed() < std::time::Duration::from_millis(5) {}
    assert!(mqtt.is_ping_required());
    mqtt.reset_last_control_at();
    assert!(mqtt.last_flush.as_nanos() >= 5_000_000);
    assert!(mqtt.last_flush.as_nanos() < 20_000_000_000);
    mqtt.opts.keep_alive = Some(5);
    assert!(!mqtt.is_ping_required());

    mqtt.connection_status = MqttConnectionStatus::Connected;
    let before = mqtt.last_flush;
    let _ = mqtt.handle_outgoing_publish(publish(QoS::AtMostOnce, None));
    assert!(mqtt.last_flush.as_nanos() > before.as_nanos());
    let before = mqtt.last_flush;
    assert_eq!(mqtt.handle_outgoing_ping(), Ok(()));
    assert!(mqtt.last_flush.as_nanos() > before.as_nanos());
    assert_eq!(mqtt.handle_outgoing_ping(), invalid_state());
    mqtt.handle_incoming_pingresp();
    assert_eq!(mqtt.handle_outgoing_ping(), Ok(()));
}
