use nerd::config::Config;

#[test]
fn default_config_values() {
    let cfg = Config::default();
    assert_eq!(cfg.server.host, "0.0.0.0");
    assert_eq!(cfg.server.port, 8082);
    assert_eq!(cfg.database.path, "./data/nerd.db");
    assert_eq!(cfg.logging.filter, "info,sqlx::query=warn");
}

#[test]
fn bind_addr_joins_host_and_port() {
    let mut cfg = Config::default();
    assert_eq!(cfg.bind_addr(), "0.0.0.0:8082");
    cfg.server.host = "127.0.0.1".to_string();
    cfg.server.port = 0;
    assert_eq!(cfg.bind_addr(), "127.0.0.1:0");
    cfg.server.port = 65535;
    assert_eq!(cfg.bind_addr(), "127.0.0.1:65535");
}
