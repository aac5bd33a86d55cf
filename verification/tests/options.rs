use rumqtt::{Duration, LastWill, MqttOptions, QoS, ReconnectOptions, SecurityOptions};

#[test]
fn default_options() {
    let opts = MqttOptions::new("test-id", "127.0.0.1:1883".to_owned());
    assert_eq!(opts.client_id, "test-id");
    assert_eq!(opts.broker_addr, "127.0.0.1:1883");
    assert_eq!(opts.keep_alive, Some(10));
    assert!(opts.clean_session);
    assert_eq!(opts.mqtt_connection_timeout, Duration::from_secs(5));
    assert_eq!(opts.reconnect, ReconnectOptions::Never);
    assert!(matches!(opts.security, SecurityOptions::NoSecurity));
    assert_eq!(opts.max_packet_size, 102_400);
    assert_eq!(opts.last_will, None);
}

#[test]
fn setters_change_one_option_each() {
    let will = LastWill {
        topic: "gone".to_owned(),
        message: "bye".to_owned(),
        qos: QoS::AtMostOnce,
        retain: false,
    };
    let opts = MqttOptions::new("test-id", "127.0.0.1:1883")
        .set_keep_alive(5)
        .set_max_packet_size(3)
        .set_clean_session(false)
        .set_reconnect_opts(ReconnectOptions::Always(Duration::from_secs(7)))
        .set_security_opts(SecurityOptions::GcloudIotCore((
            "roots.pem".to_owned(),
            "key.der".to_owned(),
            60,
        )))
        .set_last_will(Some(will.clone()));
    let copy = opts.clone();
    for opts in [opts, copy] {
        assert_eq!(opts.client_id, "test-id");
        assert_eq!(opts.broker_addr, "127.0.0.1:1883");
        assert_eq!(opts.keep_alive, Some(5));
        assert_eq!(opts.max_packet_size, 3072);
        assert!(!opts.clean_session);
        assert_eq!(opts.reconnect, ReconnectOptions::Always(Duration::from_secs(7)));
        assert!(matches!(
            opts.security,
            SecurityOptions::GcloudIotCore((roots, key, 60)) if roots == "roots.pem" && key == "key.der"
        ));
        assert_eq!(opts.last_will, Some(will.clone()));
    }
}

#[test]
fn credentials_follow_the_security_options() {
    let token = || Some("token".to_owned());
    assert_eq!(SecurityOptions::NoSecurity.credentials(token()), (None, None));
    let pair = SecurityOptions::UsernamePassword(("me".to_owned(), "pw".to_owned()));
    assert_eq!(pair.credentials(None), (Some("me".to_owned()), Some("pw".to_owned())));
    let files = ("ca".to_owned(), "cert".to_owned(), "key".to_owned());
    assert_eq!(SecurityOptions::Tls(files).credentials(token()), (None, None));
    let gcloud = SecurityOptions::GcloudIotCore(("r".to_owned(), "k".to_owned(), 1));
    assert_eq!(gcloud.credentials(token()), (Some("unused".to_owned()), token()));
}

#[test]
fn durations_count_nanoseconds() {
    assert_eq!(Duration::from_secs(3).as_nanos(), 3_000_000_000);
    assert_eq!(Duration { secs: 1, nanos: 7 }.as_nanos(), 1_000_000_007);
    assert_eq!(
        Duration { secs: u64::MAX, nanos: u32::MAX }.as_nanos(),
        18_446_744_073_709_551_619_294_967_295
    );
}
