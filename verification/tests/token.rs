use std::time::{SystemTime, UNIX_EPOCH};

use rumqtt::{
    gen_iotcore_password, gen_iotcore_password_at, Claims, Error, ErrorKind, MqttOptions, MqttState,
    SecurityOptions,
};

/// RSA key pair that signs nothing but these tests, DER encoded.
const KEY: &str = "308204a302010002820101008eb884c70cb410d239a47cb66bbac32ec877d734d39ab734fe9fecc8a32b13b1\
    e4ed86ab237cc7c062cb9e06ae51ab024cc59c94575da39c3454f5b791f934382934d009317ce6f2d7dfa634\
    89b44549eeddb7abb06ea93d94705f903984329e05d4e3463ee0720a75af47d5a286d8d9d7850e158ba3853e\
    42dae8924cdb2ee1f74371c829bc125ca9946c60bca26d3577a7d4ce0f7d90e7cf1082616cbf7d26facfc93a\
    1bc87ec1b3524b72d3eda9cf71ad1f7f9007395c353ad6255e70be9e687568a0333adfc21ec3fabfddc707ff\
    0748ed84ea1dfb7da4f39e3fe5e064f8556ed4235328a7353eb91769dc5715d34f64af933f92c59ad94df653\
    f6062e1d0203010001028201000f1ab069552057696592a6ba32f387303e7a0f0b61b0f833ad163ac679c797\
    798110b195ba173cc2a6675b383a1ef2da0c4af0f3c8128fbbfa7e8554b75252e2f6057200e467b8bf644ba0\
    8e38869cbb4d82d1d5e341b58fdffe4be17a7227088f4b1a5477020f94fe231dec9a45ead19486af2e10e303\
    8e751fdac8e4f10b687e945c6a3160743e653f99825782ce280b9fa06fc95dce547080f0ffcdbd1cef09b158\
    dbc1880443ece2a60330af186538fad27dfe6da40bfe5886e7e693cb0c9d179c74f6521dcfdcf91afdf0a84c\
    28145641c4a1148f4b7304f38dd16cc1f45f72b2be04d077139702b24485faf922c8c0c7e6c62ca5196a3799\
    ca6bfab9f702818100c1571495ef8a8217239aa667429919bbd89df7221e2d53f5fc7b0308b725e529d3f619\
    df675bfa96a6f32b312b7e0489e7e1fcc974b600e05c9ef34acf1003cb2baea5a71c9271ff43aaa35c2cc6a8\
    68fe9ab05e9500dd6215e7fe38a17459703c3674fa7617e829f75936049e1d39c98b4cffd23ed8f0a68c6c6c\
    9e84559c4f02818100bcf9aeba56fbe46e7027f1b0ad76fa93c7a9e78931758d80e0f23ed4dd740b40a48b6d\
    a0636a53e148e50cfbb4e9d3884e759ab95eb8ca557b7db0d98ed776be0bc538ce02be00f6d6c1d13a151ab2\
    68f47c164044662136c17e0fa6ebd78b04f178cf245a30abccbb63cb7ff8093b9689ac9c9ba74be91dfbffb2\
    f5f3d0d7d3028181008aee7e7677d9ba3dd271f11dc6b7a9cc588ebae62375431e42be4aa1daaa3a90e225b8\
    d5d6ba3bca4251ff39a81d3839b90da5cf4634fb503e7e6229e1bd8a5c57197b2428ddfb590950f76ee72622\
    22c0c27bf69b7031a5a8443b648a70c74c6598645b0ebd833194f2e06455127f521aedcbef5306257828f448\
    e1680af4f50281805d23bebfaed195e3ecb97340fe2e0f10b92effa439d1537dfae0caa105c90526c632c644\
    6fdb5f1e415c4b4adfff0338425b6a7804bc95550e7983a9a6e2816ee7c43bdc25b3da2bceeb56210777d209\
    32beda04b0f1995b3080de5c0a0f81405d778ab8c30f0c0deb2a23899e0986ea0a4f1e1d0596bf7dfccf2938\
    5a044beb02818065aacd0b6acbb6c8e5b69c0438f1ad514608c98a9bfb17e74de5235abe7a7318d7d449a440\
    08230ede5ba934dde10c36d8b966cacd7d1b797f9cc7b1ec92e4ca76d4e773f187ab7fa7b0f9756066497bef\
    539711675c2b4cf35f1d5713923f52b50807108a0c27caa24a8cd1ac6e17bda0661f9e394c9dc87aa26c258a\
    acf293";

/// Public half of the key pair.
const PUBLIC_KEY: &str = "3082010a02820101008eb884c70cb410d239a47cb66bbac32ec877d734d39ab734fe9fecc8a32b13b1e4ed86\
    ab237cc7c062cb9e06ae51ab024cc59c94575da39c3454f5b791f934382934d009317ce6f2d7dfa63489b445\
    49eeddb7abb06ea93d94705f903984329e05d4e3463ee0720a75af47d5a286d8d9d7850e158ba3853e42dae8\
    924cdb2ee1f74371c829bc125ca9946c60bca26d3577a7d4ce0f7d90e7cf1082616cbf7d26facfc93a1bc87e\
    c1b3524b72d3eda9cf71ad1f7f9007395c353ad6255e70be9e687568a0333adfc21ec3fabfddc707ff0748ed\
    84ea1dfb7da4f39e3fe5e064f8556ed4235328a7353eb91769dc5715d34f64af933f92c59ad94df653f6062e\
    1d0203010001";

/// Token for an hour from 1500000000 on, signed with `KEY`.
const TOKEN: &str = "eyJ0eXAiOiJKV1QiLCJhbGciOiJSUzI1NiJ9.eyJpYXQiOjE1MDAwMDAwMDAsImV4cCI6MTUwMDAwMzYwMCwiYXV\
    kIjoiY3Jlc3RlZC1yZXR1cm4tMTIyMzExIn0.F0qTYYAYIvzaCxJ0zkQEMOrZatzh9ehGEI5zKTX9GGbKE_Uf567\
    95Dd2mr9Us7AApPVmXsHdQ94_dTqWArUfYxrM9h9sKuR4BqjOdMAdOV1M4fesWHVswcxTVkjkpi81sFXr_TjiGcq\
    q2OcuUTpEFvVDxKMhktpD2Goo93HSXDyaftU9DQM9fwClv0unFRLWySc16Uhj8JzdJuAaq8SHjruZUjNIGuhI9vx\
    _Y_NGwglCEuH5bFCAfnIxc02lf06q_-jrxN3CDuz8S8idX9EPVNw0xBBCw1dkvPUyzsOam-4BhuClmC1igilRaR-\
    DR-fXbSMw1G-jBSXaHjH2lgEFhA";

const MIN: i64 = -8_334_601_228_800;
const MAX: i64 = 8_210_266_876_799;

fn bytes(hex: &str) -> Vec<u8> {
    (0..hex.len() / 2).map(|i| u8::from_str_radix(&hex[2 * i..2 * i + 2], 16).unwrap()).collect()
}

fn claims_of(token: &str) -> serde_json::Value {
    let key = bytes(PUBLIC_KEY);
    let key = jsonwebtoken::DecodingKey::from_rsa_der(&key);
    let validation = jsonwebtoken::Validation::new(jsonwebtoken::Algorithm::RS256);
    jsonwebtoken::decode::<serde_json::Value>(token, &key, &validation).unwrap().claims
}

fn now() -> i64 {
    SystemTime::now().duration_since(UNIX_EPOCH).unwrap().as_secs() as i64
}

fn gcloud(expiry: i64) -> MqttState {
    let security =
        SecurityOptions::GcloudIotCore(("roots.pem".to_owned(), "key.der".to_owned(), expiry));
    MqttState::new(MqttOptions::new("test-id", "127.0.0.1:1883").set_security_opts(security))
}

#[test]
fn password_is_the_signed_token() {
    let password = gen_iotcore_password_at(&bytes(KEY), 1_500_000_000, 3_600);
    assert_eq!(password, Ok(TOKEN.to_owned()));
}

#[test]
fn password_is_issued_now_and_expires_in_seconds() {
    let before = now();
    let password = gen_iotcore_password(&bytes(KEY), 90).unwrap();
    let after = now();
    let claims = claims_of(&password);
    let iat = claims["iat"].as_i64().unwrap();
    assert!(before <= iat && iat <= after);
    assert_eq!(claims["exp"].as_i64().unwrap(), iat + 90);
    assert_eq!(claims["aud"].as_str().unwrap(), "crested-return-122311");
}

#[test]
fn password_needs_a_key_that_signs() {
    let error = Err(Error(ErrorKind::InvalidKey));
    assert_eq!(gen_iotcore_password(&[], 90), error);
    assert_eq!(gen_iotcore_password_at(&[1, 2, 3], 1_500_000_000, 90), error);
    assert_eq!(gen_iotcore_password_at(&bytes(PUBLIC_KEY), 1_500_000_000, 90), error);
}

#[test]
fn password_needs_a_date_to_expire_at() {
    let error = Err(Error(ErrorKind::InvalidExpiry));
    assert_eq!(gen_iotcore_password(&bytes(KEY), i64::MAX), error);
    assert_eq!(gen_iotcore_password(&bytes(KEY), i64::MIN), error);
    assert_eq!(gen_iotcore_password_at(&bytes(KEY), MAX, 1), error);
}

#[test]
fn claims_end_with_the_calendar() {
    for (iat, expiry) in [(0, MAX), (0, MIN), (MAX, 0), (MIN, 0), (MIN, MAX - MIN), (MAX, MIN - MAX)] {
        let claims = Claims::new(iat, expiry).unwrap();
        assert_eq!((claims.iat, claims.exp), (iat, iat + expiry));
        assert_eq!(claims.aud, "crested-return-122311");
    }
    for (iat, expiry) in [
        (0, MAX + 1),
        (0, MIN - 1),
        (MAX + 1, 0),
        (MAX + 1, -1),
        (MIN - 1, 1),
        (i64::MAX, 0),
        (i64::MIN, i64::MAX),
        (0, i64::MAX / 1000),
        (0, i64::MAX / 1000 + 1),
    ] {
        assert_eq!(Claims::new(iat, expiry).unwrap_err(), Error(ErrorKind::InvalidExpiry));
    }
    assert_eq!(chrono::DateTime::<chrono::Utc>::MIN_UTC.timestamp(), MIN);
    assert_eq!(chrono::DateTime::<chrono::Utc>::MAX_UTC.timestamp(), MAX);
}

#[test]
fn connect_packet_for_iot_core_carries_the_password() {
    let mut mqtt = gcloud(3_600);
    let connect = mqtt.handle_outgoing_connect_at(&bytes(KEY), 1_500_000_000).unwrap();
    assert_eq!(connect.username, Some("unused".to_owned()));
    assert_eq!(connect.password, Some(TOKEN.to_owned()));

    let before = now();
    let connect = mqtt.handle_outgoing_connect(&bytes(KEY)).unwrap();
    let claims = claims_of(&connect.password.unwrap());
    assert!(claims["iat"].as_i64().unwrap() >= before);
}

#[test]
fn connect_packet_for_iot_core_needs_a_password() {
    let mut mqtt = gcloud(3_600);
    mqtt.opts.keep_alive = None;
    assert_eq!(mqtt.handle_outgoing_connect(&[]), Err(Error(ErrorKind::InvalidKey)));
    assert_eq!(mqtt.opts.keep_alive, Some(180));
    assert_eq!(mqtt.connection_status, rumqtt::MqttConnectionStatus::Handshake);
    let mut mqtt = gcloud(i64::MAX);
    let refused = mqtt.handle_outgoing_connect(&bytes(KEY));
    assert_eq!(refused, Err(Error(ErrorKind::InvalidExpiry)));
}
