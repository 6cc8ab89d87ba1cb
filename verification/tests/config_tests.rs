use lekstack::config::{add_parked_path_logic, get_parked_paths, remove_parked_path_logic, AppConfig};

#[test]
fn parking_appends_once() {
    let mut config = AppConfig::new();
    assert!(add_parked_path_logic(&mut config, "/srv/www".to_string()));
    assert!(add_parked_path_logic(&mut config, "/home/me/sites".to_string()));
    assert!(!add_parked_path_logic(&mut config, "/srv/www".to_string()));
    assert_eq!(get_parked_paths(&config), vec!["/srv/www".to_string(), "/home/me/sites".to_string()]);
    assert!(config.is_parked("/srv/www"));
    assert!(!config.is_parked("/srv"));
}

#[test]
fn unparking_removes_every_occurrence() {
    let mut config = AppConfig {
        parked_paths: vec!["/a".to_string(), "/b".to_string(), "/a".to_string(), "/c".to_string()],
    };
    remove_parked_path_logic(&mut config, "/a");
    assert_eq!(config.parked_paths, vec!["/b".to_string(), "/c".to_string()]);
    remove_parked_path_logic(&mut config, "/zzz");
    assert_eq!(config.parked_paths, vec!["/b".to_string(), "/c".to_string()]);
}

#[test]
fn park_then_unpark_restores() {
    let mut config = AppConfig { parked_paths: vec!["/x".to_string()] };
    add_parked_path_logic(&mut config, "/y".to_string());
    remove_parked_path_logic(&mut config, "/y");
    assert_eq!(config.parked_paths, vec!["/x".to_string()]);
}
