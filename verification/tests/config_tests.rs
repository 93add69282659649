use webp_cache::config::config_default_127_0_0_1;
use webp_cache::config::config_default_3333u16;
use webp_cache::config::get_server_listen_options;
use webp_cache::config::parse_server_config;

#[test]
fn test_config_defaults() {
    assert_eq!(config_default_3333u16(), 3333);
    assert_eq!(config_default_127_0_0_1(), "127.0.0.1");
}

#[test]
fn test_parse_full_config() {
    let text = "{\"host\": \"0.0.0.0\", \"port\": 8080, \"img_path\": \"./images\", \
                \"webp_path\": \"./cache\", \"global_config\": {\"lossless\": 1, \"quality\": 50}}";
    let c = parse_server_config(text).expect("config should parse");
    assert_eq!(c.host, "0.0.0.0");
    assert_eq!(c.port, 8080);
    assert_eq!(c.img_path, "./images");
    assert_eq!(c.webp_path, "./cache");
    assert_eq!(c.global_config.lossless, Some(1));
    assert_eq!(c.global_config.quality, Some(50));
    assert_eq!(c.global_config.method, None);
}

#[test]
fn test_parse_config_defaults_host_and_port() {
    let text =
        "{\"img_path\": \"./images\", \"webp_path\": \"./cache\", \"global_config\": {}}";
    let c = parse_server_config(text).expect("config should parse");
    assert_eq!(c.host, "127.0.0.1");
    assert_eq!(c.port, 3333);
}

#[test]
fn test_parse_config_rejects_bad_input() {
    // Not JSON at all.
    assert!(parse_server_config("oops").is_none());
    // Required paths missing.
    assert!(parse_server_config("{\"global_config\": {}}").is_none());
    assert!(
        parse_server_config("{\"img_path\": \"./images\", \"global_config\": {}}").is_none()
    );
    // Global policy missing.
    assert!(
        parse_server_config("{\"img_path\": \"./i\", \"webp_path\": \"./c\"}").is_none()
    );
    // Port out of range.
    assert!(parse_server_config(
        "{\"port\": 70000, \"img_path\": \"./i\", \"webp_path\": \"./c\", \"global_config\": {}}"
    )
    .is_none());
    // Type error inside the global policy.
    assert!(parse_server_config(
        "{\"img_path\": \"./i\", \"webp_path\": \"./c\", \"global_config\": {\"quality\": \"x\"}}"
    )
    .is_none());
}

#[test]
fn test_listen_options() {
    let text =
        "{\"img_path\": \"./images\", \"webp_path\": \"./cache\", \"global_config\": {}}";
    let c = parse_server_config(text).unwrap();
    assert_eq!(get_server_listen_options(&c), "127.0.0.1:3333");
}
