use lekstack::ports::{
    default_service_port, get_service_port_value, php_fpm_port, php_port_for_site, port_from_setting,
    services_settings_with_port,
};

#[test]
fn default_ports_of_all_services() {
    assert_eq!(default_service_port("nginx"), 8080);
    assert_eq!(default_service_port("php-7.4"), 9074);
    assert_eq!(default_service_port("php-8.0"), 9080);
    assert_eq!(default_service_port("php-8.5"), 9085);
    assert_eq!(default_service_port("php-9.9"), 9000);
    assert_eq!(default_service_port("php-"), 9000);
    assert_eq!(default_service_port("php"), 0);
    assert_eq!(default_service_port("NGINX"), 0);
}

#[test]
fn php_service_port_matches_site_route() {
    for v in ["7.4", "8.0", "8.1", "8.2", "8.3", "8.4", "8.5", "9.1", ""] {
        let name = format!("php-{}", v);
        assert_eq!(default_service_port(&name), php_port_for_site(v));
    }
}

#[test]
fn fpm_ports_by_prefix() {
    assert_eq!(php_fpm_port("8.2"), 9082);
    assert_eq!(php_fpm_port("8.2.30"), 9082);
    assert_eq!(php_fpm_port("7.4"), 9074);
    // php-fpm has no dedicated port for 8.5, while its sites are routed to 9085
    assert_eq!(php_fpm_port("8.5"), 9000);
    assert_eq!(php_port_for_site("8.5"), 9085);
    assert_eq!(php_port_for_site("8.2.30"), 9000);
    for v in ["7.4", "8.0", "8.1", "8.2", "8.3", "8.4"] {
        assert_eq!(php_fpm_port(v), php_port_for_site(v));
    }
}

#[test]
fn recorded_port_is_cut_to_16_bits() {
    assert_eq!(port_from_setting("nginx", Some(8081)), 8081);
    assert_eq!(port_from_setting("nginx", Some(70000)), 4464);
    assert_eq!(port_from_setting("nginx", None), 8080);
}

#[test]
fn recorded_ports_are_read_from_settings() {
    let settings = r#"{ "mariadb": { "port": 3307 }, "redis": { "port": -1 }, "nginx": 5 }"#;
    assert_eq!(get_service_port_value("mariadb", Some(settings)), 3307);
    assert_eq!(get_service_port_value("redis", Some(settings)), 6379);
    assert_eq!(get_service_port_value("nginx", Some(settings)), 8080);
    assert_eq!(get_service_port_value("postgresql", Some(settings)), 5432);
    assert_eq!(get_service_port_value("mariadb", Some("not json")), 3306);
}

#[test]
fn written_port_is_read_back() {
    let fresh = services_settings_with_port(None, "nginx", 8081);
    assert_eq!(get_service_port_value("nginx", Some(&fresh)), 8081);
    let updated = services_settings_with_port(Some(&fresh), "redis", 6380);
    assert_eq!(get_service_port_value("redis", Some(&updated)), 6380);
    assert_eq!(get_service_port_value("nginx", Some(&updated)), 8081);
    let broken = services_settings_with_port(Some("{ nope"), "mariadb", 3310);
    assert_eq!(get_service_port_value("mariadb", Some(&broken)), 3310);
    // a document that is not an object is kept as it is
    let list = services_settings_with_port(Some("[1, 2]"), "mariadb", 3310);
    assert_eq!(get_service_port_value("mariadb", Some(&list)), 3306);
}

#[test]
fn other_services_keep_their_ports() {
    let existing = r#"{ "mariadb": { "port": 3307 }, "redis": { "port": 6380, "x": 1 }, "misc": [1.5, -0] }"#;
    let updated = services_settings_with_port(Some(existing), "nginx", 8088);
    assert_eq!(get_service_port_value("nginx", Some(&updated)), 8088);
    assert_eq!(get_service_port_value("mariadb", Some(&updated)), 3307);
    assert_eq!(get_service_port_value("redis", Some(&updated)), 6380);
    let replaced = services_settings_with_port(Some(existing), "mariadb", 3310);
    assert_eq!(get_service_port_value("mariadb", Some(&replaced)), 3310);
    assert_eq!(get_service_port_value("redis", Some(&replaced)), 6380);
}
