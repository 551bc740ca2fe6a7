use base64::Engine;
use aura::config::{AppConfig, ConnectionMode};
use aura::pairing::{generate_pairing_qr, pairing_url, qr_data_url};

fn lan_config(port: u16) -> AppConfig {
    let mut c = AppConfig::default();
    c.server_port = port;
    c
}

fn relay_config(url: &str, key: &str) -> AppConfig {
    let mut c = AppConfig::default();
    c.connection_mode = ConnectionMode::Relay;
    c.relay_server_url = url.to_string();
    c.relay_secret_key = key.to_string();
    c
}

#[test]
fn lan_pairing_url() {
    let u = pairing_url(&lan_config(8765), Some("192.168.1.5"), "abc").unwrap();
    assert_eq!(u, "aura://pair?mode=lan&ip=192.168.1.5&port=8765&session=abc");
    assert_eq!(pairing_url(&lan_config(8765), None, "abc"), Err("无法获取本机 IP".to_string()));
}

#[test]
fn relay_pairing_url_encodes_the_server() {
    let u = pairing_url(&relay_config("wss://server.com/relay?x=1 2", "k/y"), None, "room1").unwrap();
    assert_eq!(u, "aura://pair?mode=relay&url=wss%3A%2F%2Fserver.com%2Frelay%3Fx%3D1%202&room=room1&key=k/y");
    let u2 = pairing_url(&relay_config("a-b_c.d~é", ""), None, "r").unwrap();
    assert_eq!(u2, "aura://pair?mode=relay&url=a-b_c.d~%C3%A9&room=r&key=");
    assert_eq!(pairing_url(&relay_config("", "k"), Some("1.2.3.4"), "r"), Err("未配置中继服务器地址".to_string()));
}

#[test]
fn qr_data_url_is_a_png() {
    let d = qr_data_url("aura://pair?mode=lan&ip=1.2.3.4&port=1&session=x").unwrap();
    assert!(d.starts_with("data:image/png;base64,iVBORw0KGgo"));
    let png = base64::engine::general_purpose::STANDARD.decode(&d["data:image/png;base64,".len()..]).unwrap();
    assert_eq!(&png[..8], &[0x89, b'P', b'N', b'G', 0x0d, 0x0a, 0x1a, 0x0a]);
}

#[test]
fn qr_data_url_rejects_too_long_text() {
    let long = "x".repeat(8000);
    assert!(qr_data_url(&long).is_err());
}

#[test]
fn generated_pairing_has_a_uuid_session() {
    let info = generate_pairing_qr(&lan_config(9000), Some("10.0.0.2".to_string())).unwrap();
    let prefix = "aura://pair?mode=lan&ip=10.0.0.2&port=9000&session=";
    assert!(info.raw_url.starts_with(prefix));
    let sid = &info.raw_url[prefix.len()..];
    assert_eq!(sid.len(), 36);
    assert_eq!(sid.as_bytes()[14], b'4');
    assert!(sid.chars().enumerate().all(|(i, c)| if [8, 13, 18, 23].contains(&i) { c == '-' } else { c.is_ascii_hexdigit() && !c.is_ascii_uppercase() }));
    assert_eq!(info.qr_data_url, qr_data_url(&info.raw_url).unwrap());
    let other = generate_pairing_qr(&lan_config(9000), Some("10.0.0.2".to_string())).unwrap();
    assert_ne!(other.raw_url, info.raw_url);
}

#[test]
fn pairing_errors_before_any_image() {
    assert_eq!(generate_pairing_qr(&lan_config(1), None).unwrap_err(), "无法获取本机 IP");
    assert_eq!(generate_pairing_qr(&relay_config("", ""), None).unwrap_err(), "未配置中继服务器地址");
    let info = generate_pairing_qr(&relay_config("wss://r/x", "key"), None).unwrap();
    assert!(info.raw_url.starts_with("aura://pair?mode=relay&url=wss%3A%2F%2Fr%2Fx&room="));
    assert!(info.raw_url.ends_with("&key=key"));
}
