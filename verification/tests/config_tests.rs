use aura::config::{parse_port, u16_to_decimal, AppConfig, ConnectionMode, DEFAULT_PORT};

fn row(k: &str, v: &str) -> (String, String) {
    (k.to_string(), v.to_string())
}

#[test]
fn default_config_values() {
    let c = AppConfig::default();
    assert_eq!(c.ai_base_url, "https://api.deepseek.com/v1");
    assert_eq!(c.ai_api_key, "");
    assert_eq!(c.ai_model, "deepseek-chat");
    assert_eq!(c.server_port, 8765);
    assert_eq!(c.connection_mode, ConnectionMode::Lan);
    assert_eq!(c.relay_server_url, "");
    assert_eq!(c.relay_room_id, "");
    assert_eq!(c.relay_secret_key, "");
    assert_eq!(c.storage_dir, None);
}

#[test]
fn rows_written_by_saving() {
    let mut c = AppConfig::default();
    c.connection_mode = ConnectionMode::Relay;
    c.server_port = 9000;
    c.storage_dir = Some("/tmp/s".to_string());
    let rows = c.to_rows();
    let expected = vec![
        row("ai_base_url", "https://api.deepseek.com/v1"),
        row("ai_api_key", ""),
        row("ai_model", "deepseek-chat"),
        row("server_port", "9000"),
        row("connection_mode", "relay"),
        row("relay_server_url", ""),
        row("relay_room_id", ""),
        row("relay_secret_key", ""),
        row("storage_dir", "/tmp/s"),
    ];
    assert_eq!(rows, expected);
    let default_rows = AppConfig::default().to_rows();
    assert_eq!(default_rows[4], row("connection_mode", "lan"));
    assert_eq!(default_rows[8], row("storage_dir", ""));
}

#[test]
fn load_after_save_gives_back_the_config() {
    let mut c = AppConfig::default();
    c.ai_base_url = "https://api.openai.com/v1".to_string();
    c.ai_api_key = "SECRET-REDACTED".to_string();
    c.ai_model = "gpt-4o".to_string();
    c.server_port = 65535;
    c.connection_mode = ConnectionMode::Relay;
    c.relay_server_url = "wss://r.example/relay".to_string();
    c.relay_room_id = "room".to_string();
    c.relay_secret_key = "key".to_string();
    c.storage_dir = Some("/data".to_string());
    let back = AppConfig::from_rows(&c.to_rows());
    assert_eq!(back.ai_base_url, c.ai_base_url);
    assert_eq!(back.ai_api_key, c.ai_api_key);
    assert_eq!(back.ai_model, c.ai_model);
    assert_eq!(back.server_port, 65535);
    assert_eq!(back.connection_mode, ConnectionMode::Relay);
    assert_eq!(back.relay_server_url, c.relay_server_url);
    assert_eq!(back.relay_room_id, c.relay_room_id);
    assert_eq!(back.relay_secret_key, c.relay_secret_key);
    assert_eq!(back.storage_dir, c.storage_dir);
}

#[test]
fn empty_storage_dir_reads_back_as_none() {
    let mut c = AppConfig::default();
    c.storage_dir = Some(String::new());
    let back = AppConfig::from_rows(&c.to_rows());
    assert_eq!(back.storage_dir, None);
}

#[test]
fn loading_rows_applies_known_keys_in_order() {
    let rows = vec![
        row("ai_model", "glm-4.6"),
        row("unknown", "x"),
        row("server_port", "not a port"),
        row("connection_mode", "RELAY"),
        row("ai_model", "kimi-k2"),
    ];
    let c = AppConfig::from_rows(&rows);
    assert_eq!(c.ai_model, "kimi-k2");
    assert_eq!(c.server_port, DEFAULT_PORT);
    assert_eq!(c.connection_mode, ConnectionMode::Lan);
    assert_eq!(c.ai_base_url, "https://api.deepseek.com/v1");
    let c2 = AppConfig::from_rows(&vec![row("server_port", "+80"), row("connection_mode", "relay")]);
    assert_eq!(c2.server_port, 80);
    assert_eq!(c2.connection_mode, ConnectionMode::Relay);
}

#[test]
fn port_parsing_follows_u16_from_str() {
    for s in ["0", "8765", "+80", "007", "65535", "65536", "", "+", "-1", " 80", "80 ", "8a", "999999999999"] {
        assert_eq!(parse_port(s), s.parse::<u16>().ok(), "input {:?}", s);
    }
}

#[test]
fn decimal_text_of_ports() {
    assert_eq!(u16_to_decimal(0), "0");
    assert_eq!(u16_to_decimal(7), "7");
    assert_eq!(u16_to_decimal(8765), "8765");
    assert_eq!(u16_to_decimal(65535), "65535");
    assert_eq!(u16_to_decimal(10), "10");
}

#[test]
fn load_after_save_in_any_row_order() {
    let mut c = AppConfig::default();
    c.ai_api_key = "sk".to_string();
    c.connection_mode = ConnectionMode::Relay;
    c.server_port = 1234;
    c.relay_room_id = "room".to_string();
    c.storage_dir = Some("/data".to_string());
    let mut rows = c.to_rows();
    rows.reverse();
    rows.insert(3, row("theme", "dark"));
    rows.swap(0, 5);
    let back = AppConfig::from_rows(&rows);
    assert_eq!(back.ai_base_url, c.ai_base_url);
    assert_eq!(back.ai_api_key, "sk");
    assert_eq!(back.ai_model, c.ai_model);
    assert_eq!(back.server_port, 1234);
    assert_eq!(back.connection_mode, ConnectionMode::Relay);
    assert_eq!(back.relay_server_url, "");
    assert_eq!(back.relay_room_id, "room");
    assert_eq!(back.relay_secret_key, "");
    assert_eq!(back.storage_dir, Some("/data".to_string()));
}
