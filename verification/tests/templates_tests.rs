use lekstack::templates::{fill, render_composer_shim, render_site_ssl, DEFAULT_PHP_INI, MIME_TYPES};

#[test]
fn filling_templates() {
    assert_eq!(fill(&vec!["a", "b", "c"], &vec!["1", "2"]), "a1b2c");
    assert_eq!(fill(&vec!["only"], &vec![]), "only");
}

#[test]
fn composer_launcher() {
    assert_eq!(
        render_composer_shim("/b/php", "/b/composer.phar"),
        "#!/bin/sh\nexec \"/b/php\" \"/b/composer.phar\" \"$@\"\n"
    );
}

#[test]
fn tls_lines() {
    assert_eq!(
        render_site_ssl("/c", "/k"),
        "\n    listen 8443 ssl;\n    ssl_certificate \"/c\";\n    ssl_certificate_key \"/k\";\n"
    );
}

#[test]
fn support_files() {
    assert!(MIME_TYPES.contains("application/json                      json;"));
    assert!(DEFAULT_PHP_INI.starts_with("\nmemory_limit = 512M\n"));
}
