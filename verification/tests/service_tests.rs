use lekstack::service::choose_nginx_binary;
use lekstack::service::{
    classify_service, configured_nginx_version, get_service_status, log_file, log_not_found_message,
    mariadb_args, nginx_args, nginx_binary_candidates, nginx_main_config, php_fpm_args,
    php_fpm_binary, php_fpm_config_file, php_fpm_main_config, php_ini_file, pid_file, postgres_args,
    redis_args, restart_order, ServiceKind,
};

fn kind(name: &str) -> String {
    match classify_service(name) {
        ServiceKind::Nginx => "nginx".to_string(),
        ServiceKind::Php(v) => format!("php {}", v),
        ServiceKind::MariaDb => "mariadb".to_string(),
        ServiceKind::Postgresql => "postgresql".to_string(),
        ServiceKind::Redis => "redis".to_string(),
        ServiceKind::Unknown => "unknown".to_string(),
    }
}

#[test]
fn services_are_classified() {
    assert_eq!(kind("nginx"), "nginx");
    assert_eq!(kind("my-nginx"), "nginx");
    assert_eq!(kind("php-8.3"), "php 8.3");
    assert_eq!(kind("php"), "php 8.2");
    assert_eq!(kind("php-"), "php ");
    assert_eq!(kind("php-8.1-extra"), "php 8.1");
    assert_eq!(kind("mariadb"), "mariadb");
    assert_eq!(kind("postgresql"), "postgresql");
    assert_eq!(kind("redis"), "redis");
    assert_eq!(kind("mysql"), "unknown");
}

#[test]
fn pid_and_log_files() {
    assert_eq!(pid_file("/h", "nginx"), "/h/pids/nginx.pid");
    assert_eq!(pid_file("/h", "postgresql"), "/h/data/postgresql/postmaster.pid");
    assert_eq!(get_service_status(true), "running");
    assert_eq!(get_service_status(false), "stopped");
    assert_eq!(log_file("/h", "nginx-error"), "/h/logs/nginx-error.log");
    assert_eq!(log_file("/h", "nginx-access"), "/h/logs/nginx-access.log");
    assert_eq!(log_file("/h", "php-8.2"), "/h/logs/php-8.2-fpm.log");
    assert_eq!(log_file("/h", "mariadb"), "/h/logs/mariadb.log");
    assert_eq!(log_not_found_message("/h/logs/x.log"), "Log file not found at: /h/logs/x.log");
}

#[test]
fn php_files() {
    assert_eq!(php_fpm_binary("/h", "8.3"), "/h/versions/php/8.3/sbin/php-fpm");
    assert_eq!(php_ini_file("/h", "8.3"), "/h/versions/php/8.3/lib/php.ini");
    assert_eq!(php_fpm_config_file("/h/config", "8.3"), "/h/config/php-8.3-fpm.conf");
}

#[test]
fn nginx_binaries_in_order() {
    assert_eq!(
        nginx_binary_candidates("/v", Some("1.26.0")),
        vec!["/v/1.26.0/nginx".to_string(), "/v/1.27.2/nginx".to_string()]
    );
    assert_eq!(nginx_binary_candidates("/v", None), vec!["/v/1.27.2/nginx".to_string()]);
    assert_eq!(configured_nginx_version(Some(r#"{"nginx": "1.26.0"}"#)), Some("1.26.0".to_string()));
    assert_eq!(configured_nginx_version(Some(r#"{"nginx": 5}"#)), None);
    assert_eq!(configured_nginx_version(Some("garbage")), None);
    assert_eq!(configured_nginx_version(None), None);
}

#[test]
fn command_lines() {
    assert_eq!(nginx_args("/c/nginx.conf", "/c"), vec!["-c", "/c/nginx.conf", "-p", "/c"]);
    assert_eq!(php_fpm_args("/c/f.conf", "/i"), vec!["-y", "/c/f.conf", "-c", "/i"]);
    assert_eq!(
        mariadb_args("/d", "/p/m.pid", "/p/s.sock", 3306),
        vec![
            "--datadir=/d",
            "--pid-file=/p/m.pid",
            "--socket=/p/s.sock",
            "--port=3306",
            "--innodb-use-native-aio=0",
            "--skip-log-error"
        ]
    );
    assert_eq!(
        postgres_args("/d", "/l", 5432),
        vec!["start", "-D", "/d", "-l", "/l", "-o", "-p 5432 -k /tmp"]
    );
    assert_eq!(redis_args(6379, "/p/r.pid"), vec!["--port", "6379", "--pidfile", "/p/r.pid"]);
    assert_eq!(restart_order(), vec!["nginx", "php-8.2", "mariadb", "postgresql", "redis"]);
}

#[test]
fn configuration_texts() {
    let conf = nginx_main_config("/h", 8081);
    assert!(conf.starts_with("\nworker_processes  1;\nerror_log  /h/logs/nginx-error.log;\npid        /h/pids/nginx.pid;\n"));
    assert!(conf.contains("    include       /h/config/sites/*.conf;\n"));
    assert!(conf.contains("        listen       8081 default_server;\n"));
    assert!(conf.contains("        root         /h/html;\n"));
    assert!(conf.contains("events {\n    worker_connections  1024;\n}\n"));
    let fpm = php_fpm_main_config("/h", "8.3", 9083, "www");
    assert_eq!(
        fpm,
        "\n[global]\npid = /h/pids/php-8.3-fpm.pid\nerror_log = /h/logs/php-8.3-fpm.log\ndaemonize = no\n\n[www]\nlisten = 127.0.0.1:9083\nuser = www\ngroup = www\npm = dynamic\npm.max_children = 5\npm.start_servers = 2\npm.min_spare_servers = 1\npm.max_spare_servers = 3\n"
    );
}

#[test]
fn nginx_program_is_first_present() {
    assert_eq!(choose_nginx_binary(&vec![false, true, true]), Some(1));
    assert_eq!(choose_nginx_binary(&vec![true, true]), Some(0));
    assert_eq!(choose_nginx_binary(&vec![false, false]), None);
    assert_eq!(choose_nginx_binary(&vec![]), None);
}
