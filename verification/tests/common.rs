use lekstack::paths::get_default_path;
use lekstack::ports::get_service_port_value;
use lekstack::site::{is_secured, site_tls_files};

#[test]
fn test_get_default_path() {
    // without HOME the stack lives under /tmp
    let path = get_default_path(None);
    assert!(std::path::Path::new(&path).is_absolute());
    assert!(path.contains(".lekstack"));
}

#[test]
fn test_get_default_path_uses_home_env() {
    let path = get_default_path(Some("/custom/home"));
    assert_eq!(path, "/custom/home/.lekstack");
}

#[test]
fn test_get_service_port_value_defaults() {
    assert_eq!(get_service_port_value("mariadb", None), 3306);
    assert_eq!(get_service_port_value("postgresql", None), 5432);
    assert_eq!(get_service_port_value("redis", None), 6379);
    assert_eq!(get_service_port_value("unknown", None), 0);
}

#[test]
fn test_is_secured_returns_false_for_nonexistent_cert() {
    // For a site that definitely doesn't have a cert
    let (cert, _) = site_tls_files("/tmp/.lekstack", "nonexistent-test-site-12345");
    let result = is_secured(std::path::Path::new(&cert).exists());
    assert!(!result);
}
