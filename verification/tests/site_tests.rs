use lekstack::error::LekStackError;
use lekstack::site::{
    add_linked_site, init_project_logic, internal_scan_sites, is_secured, is_site_conf_file,
    isolate_site_outcome, link_site_logic, make_site, site_conf_file_name, site_conf_path, site_link,
    site_server_config, site_tls_files, unlink_site_logic,
};

#[test]
fn sites_get_url_and_default_php() {
    let s = make_site("shop", "/srv/shop", false, None);
    assert_eq!(s.url, "http://shop.test");
    assert_eq!(s.php_version, "8.2");
    let t = make_site("blog", "/srv/blog", true, Some("8.4".to_string()));
    assert_eq!(t.php_version, "8.4");
    assert!(t.secured);
}

#[test]
fn secured_when_certificate_present() {
    assert!(is_secured(true));
    assert!(!is_secured(false));
}

#[test]
fn linked_sites_do_not_shadow_parked_ones() {
    let mut sites = vec![make_site("shop", "/srv/shop", false, None)];
    assert!(!add_linked_site(&mut sites, make_site("shop", "/elsewhere", false, None)));
    assert!(add_linked_site(&mut sites, make_site("api", "/code/api", false, None)));
    assert_eq!(sites.len(), 2);
    assert_eq!(sites[0].path, "/srv/shop");
    assert_eq!(sites[1].name, "api");
}

#[test]
fn gathering_sites() {
    let parked = vec![make_site("a", "/p/a", false, None), make_site("b", "/p/b", false, None)];
    let linked = vec![
        make_site("b", "/l/b", false, None),
        make_site("c", "/l/c", false, None),
        make_site("c", "/l/c2", false, None),
    ];
    let all = internal_scan_sites(parked, linked);
    let names: Vec<&str> = all.iter().map(|s| s.name.as_str()).collect();
    assert_eq!(names, vec!["a", "b", "c"]);
    assert_eq!(all[1].path, "/p/b");
    assert_eq!(all[2].path, "/l/c");
}

#[test]
fn conf_files_by_extension() {
    assert!(is_site_conf_file("shop.test.conf"));
    assert!(is_site_conf_file("x.conf"));
    assert!(!is_site_conf_file(".conf"));
    assert!(!is_site_conf_file("conf"));
    assert!(!is_site_conf_file("shop.conf.bak"));
    assert!(is_site_conf_file("..conf"));
    assert_eq!(site_conf_file_name("shop"), "shop.test.conf");
}

#[test]
fn site_paths() {
    let (cert, key) = site_tls_files("/home/u/.lekstack", "shop");
    assert_eq!(cert, "/home/u/.lekstack/config/certs/shop.pem");
    assert_eq!(key, "/home/u/.lekstack/config/certs/shop-key.pem");
    assert_eq!(site_link("/home/u/.lekstack", "shop"), "/home/u/.lekstack/valet/shop");
    assert_eq!(site_conf_path("/b", "shop"), "/b/config/sites/shop.test.conf");
}

#[test]
fn server_block_routes_php_and_tls() {
    let site = make_site("shop", "/srv/shop", true, Some("8.3".to_string()));
    let plain = site_server_config(&site, "/c.pem", "/k.pem", false);
    assert!(plain.starts_with("server {\n    listen 8080;\n    \n    server_name shop.test;\n"));
    assert!(plain.contains("    root \"/srv/shop\";\n"));
    assert!(plain.contains("fastcgi_pass 127.0.0.1:9083;"));
    assert!(!plain.contains("ssl_certificate"));
    let tls = site_server_config(&site, "/c.pem", "/k.pem", true);
    assert!(tls.contains("\n    listen 8443 ssl;\n    ssl_certificate \"/c.pem\";\n    ssl_certificate_key \"/k.pem\";\n"));
    let other = make_site("old", "/srv/old", false, Some("5.6".to_string()));
    assert!(site_server_config(&other, "", "", false).contains("fastcgi_pass 127.0.0.1:9000;"));
}

#[test]
fn command_outcomes() {
    assert_eq!(link_site_logic("/srv/shop", "shop"), "Linked shop to /srv/shop");
    assert_eq!(unlink_site_logic("shop", true).ok(), Some("Unlinked shop".to_string()));
    match unlink_site_logic("shop", false) {
        Err(LekStackError::RuntimeError(m)) => assert_eq!(m, "Link not found"),
        _ => panic!("expected an error"),
    }
    assert_eq!(
        isolate_site_outcome("/srv/shop", "8.3", true).ok(),
        Some("Isolated site at /srv/shop to PHP 8.3".to_string())
    );
    match isolate_site_outcome("/nowhere", "8.3", false) {
        Err(e) => assert_eq!(e.message(), "Path does not exist"),
        _ => panic!("expected an error"),
    }
    assert_eq!(init_project_logic(true).ok(), Some("Project initialized".to_string()));
    match init_project_logic(false) {
        Err(LekStackError::RuntimeError(m)) => assert_eq!(m, "Path not found"),
        _ => panic!("expected an error"),
    }
    assert_eq!(LekStackError::IoError("disk full".to_string()).message(), "disk full");
}
