//! Services: which program a service name stands for, where its pid file
//! and log live, and the command lines that start each of them.

use vstd::prelude::*;
use crate::paths::{join, path_join};
use crate::settings_json::{read_settings_text, settings_text};
use crate::templates::{nginx_config_text, php_fpm_config_text, render_nginx_config, render_php_fpm_config};
use crate::text::{
    contains, contains_text, decimal, decimal_string, fields, has_prefix, remove_all, remove_text,
    split_fields, starts_with, text_eq, views, Separator,
};

verus! {

/// The program a service name stands for.
pub enum ServiceKind {
    Nginx,
    /// php-fpm of the given PHP version.
    Php(String),
    MariaDb,
    Postgresql,
    Redis,
    /// No service of the stack.
    Unknown,
}

/// The content of a service kind.
pub enum ServiceKindView {
    Nginx,
    Php(Seq<char>),
    MariaDb,
    Postgresql,
    Redis,
    Unknown,
}

impl View for ServiceKind {
    type V = ServiceKindView;

    open spec fn view(&self) -> ServiceKindView {
        match self {
            ServiceKind::Nginx => ServiceKindView::Nginx,
            ServiceKind::Php(v) => ServiceKindView::Php(v@),
            ServiceKind::MariaDb => ServiceKindView::MariaDb,
            ServiceKind::Postgresql => ServiceKindView::Postgresql,
            ServiceKind::Redis => ServiceKindView::Redis,
            ServiceKind::Unknown => ServiceKindView::Unknown,
        }
    }
}

/// The PHP version a `php...` service name asks for: its second `-`
/// separated field, or 8.2 when it has none.
pub open spec fn php_version_of(name: Seq<char>) -> Seq<char> {
    let parts = fields(name, Separator::Char('-'));
    if parts.len() > 1 {
        parts[1]
    } else {
        "8.2"@
    }
}

/// The program the service `name` stands for: any name containing `nginx`
/// is nginx, any name starting with `php` is php-fpm, the other services are
/// named exactly.
pub open spec fn service_kind(name: Seq<char>) -> ServiceKindView {
    if contains_text(name, "nginx"@) {
        ServiceKindView::Nginx
    } else if has_prefix(name, "php"@) {
        ServiceKindView::Php(php_version_of(name))
    } else if name == "mariadb"@ {
        ServiceKindView::MariaDb
    } else if name == "postgresql"@ {
        ServiceKindView::Postgresql
    } else if name == "redis"@ {
        ServiceKindView::Redis
    } else {
        ServiceKindView::Unknown
    }
}

/// The program the service `name` stands for.
pub fn classify_service(name: &str) -> (k: ServiceKind)
    ensures
        k@ == service_kind(name@),
{
    if contains(name, "nginx") {
        ServiceKind::Nginx
    } else if starts_with(name, "php") {
        let parts = split_fields(name, Separator::Char('-'));
        if parts.len() > 1 {
            ServiceKind::Php(parts[1].clone())
        } else {
            ServiceKind::Php("8.2".to_owned())
        }
    } else if text_eq(name, "mariadb") {
        ServiceKind::MariaDb
    } else if text_eq(name, "postgresql") {
        ServiceKind::Postgresql
    } else if text_eq(name, "redis") {
        ServiceKind::Redis
    } else {
        ServiceKind::Unknown
    }
}

/// The services restarted together, in the order they are stopped and
/// started again.
pub fn restart_order() -> (r: Vec<&'static str>)
    ensures
        r@.map_values(|s: &str| s@) == seq!["nginx"@, "php-8.2"@, "mariadb"@, "postgresql"@, "redis"@],
{
    let r = vec!["nginx", "php-8.2", "mariadb", "postgresql", "redis"];
    assert(r@.map_values(|s: &str| s@) =~= seq![
        "nginx"@,
        "php-8.2"@,
        "mariadb"@,
        "postgresql"@,
        "redis"@,
    ]);
    r
}

// ---------------------------------------------------------------------------
// Files of a service
// ---------------------------------------------------------------------------

/// The pid file of the service `name` under the stack's home `base`:
/// PostgreSQL keeps its own in its data directory.
pub open spec fn pid_file_of(base: Seq<char>, name: Seq<char>) -> Seq<char> {
    if name == "postgresql"@ {
        join(base, "data/postgresql/postmaster.pid"@)
    } else {
        join(join(base, "pids"@), name + ".pid"@)
    }
}

/// The pid file of the service `name`.
pub fn pid_file(base: &str, name: &str) -> (r: String)
    ensures
        r@ == pid_file_of(base@, name@),
{
    if text_eq(name, "postgresql") {
        path_join(base, "data/postgresql/postmaster.pid")
    } else {
        let pids = path_join(base, "pids");
        let mut file = name.to_owned();
        file.append(".pid");
        path_join(pids.as_str(), file.as_str())
    }
}

/// The status of a service: running while its pid file exists.
pub fn get_service_status(pid_file_exists: bool) -> (r: String)
    ensures
        r@ == if pid_file_exists {
            "running"@
        } else {
            "stopped"@
        },
{
    if pid_file_exists {
        "running".to_owned()
    } else {
        "stopped".to_owned()
    }
}

/// The log file shown for `name` under the stack's home `base`.
pub open spec fn log_file_of(base: Seq<char>, name: Seq<char>) -> Seq<char> {
    if name == "nginx-error"@ {
        join(base, "logs/nginx-error.log"@)
    } else if name == "nginx-access"@ {
        join(base, "logs/nginx-access.log"@)
    } else if has_prefix(name, "php"@) {
        join(base, "logs/php"@ + remove_all(name, "php"@) + "-fpm.log"@)
    } else {
        join(base, "logs/"@ + name + ".log"@)
    }
}

/// The log file shown for `name`.
pub fn log_file(base: &str, name: &str) -> (r: String)
    ensures
        r@ == log_file_of(base@, name@),
{
    if text_eq(name, "nginx-error") {
        path_join(base, "logs/nginx-error.log")
    } else if text_eq(name, "nginx-access") {
        path_join(base, "logs/nginx-access.log")
    } else if starts_with(name, "php") {
        proof {
            reveal_strlit("php");
        }
        let version = remove_text(name, "php");
        let mut rel = "logs/php".to_owned();
        rel.append(version.as_str());
        rel.append("-fpm.log");
        path_join(base, rel.as_str())
    } else {
        let mut rel = "logs/".to_owned();
        rel.append(name);
        rel.append(".log");
        path_join(base, rel.as_str())
    }
}

/// What is shown when a log file does not exist.
pub fn log_not_found_message(path: &str) -> (r: String)
    ensures
        r@ == "Log file not found at: "@ + path@,
{
    let mut r = "Log file not found at: ".to_owned();
    r.append(path);
    r
}

/// The php-fpm program of PHP `version`.
pub fn php_fpm_binary(base: &str, version: &str) -> (r: String)
    ensures
        r@ == join(join(join(base@, "versions/php"@), version@), "sbin/php-fpm"@),
{
    let php = path_join(base, "versions/php");
    let dir = path_join(php.as_str(), version);
    path_join(dir.as_str(), "sbin/php-fpm")
}

/// The `php.ini` of PHP `version`.
pub fn php_ini_file(base: &str, version: &str) -> (r: String)
    ensures
        r@ == join(join(join(base@, "versions/php"@), version@), "lib/php.ini"@),
{
    let php = path_join(base, "versions/php");
    let dir = path_join(php.as_str(), version);
    path_join(dir.as_str(), "lib/php.ini")
}

/// The php-fpm configuration file of PHP `version` in `config_dir`.
pub fn php_fpm_config_file(config_dir: &str, version: &str) -> (r: String)
    ensures
        r@ == join(config_dir@, "php-"@ + version@ + "-fpm.conf"@),
{
    let mut file = "php-".to_owned();
    file.append(version);
    file.append("-fpm.conf");
    path_join(config_dir, file.as_str())
}

/// The nginx programs to try, in order, under `versions_dir`: the
/// configured version's, if one is configured, then the bundled 1.27.2.
pub fn nginx_binary_candidates(versions_dir: &str, configured: Option<&str>) -> (r: Vec<String>)
    ensures
        views(r@) == match configured {
            Some(v) => seq![
                join(versions_dir@, v@ + "/nginx"@),
                join(versions_dir@, "1.27.2/nginx"@),
            ],
            None => seq![join(versions_dir@, "1.27.2/nginx"@)],
        },
{
    let mut r: Vec<String> = Vec::new();
    if let Some(v) = configured {
        let mut rel = v.to_owned();
        rel.append("/nginx");
        r.push(path_join(versions_dir, rel.as_str()));
    }
    r.push(path_join(versions_dir, "1.27.2/nginx"));
    proof {
        match configured {
            Some(v) => {
                assert(views(r@) =~= seq![
                    join(versions_dir@, v@ + "/nginx"@),
                    join(versions_dir@, "1.27.2/nginx"@),
                ]);
            },
            None => {
                assert(views(r@) =~= seq![join(versions_dir@, "1.27.2/nginx"@)]);
            },
        }
    }
    r
}

// ---------------------------------------------------------------------------
// Command lines
// ---------------------------------------------------------------------------

/// `prefix + value`.
fn prefixed(prefix: &str, value: &str) -> (r: String)
    ensures
        r@ == prefix@ + value@,
{
    let mut r = prefix.to_owned();
    r.append(value);
    r
}

/// The arguments of `nginx`: its configuration file and prefix directory.
pub fn nginx_args(conf: &str, config_dir: &str) -> (r: Vec<String>)
    ensures
        views(r@) == seq!["-c"@, conf@, "-p"@, config_dir@],
{
    let r = vec!["-c".to_owned(), conf.to_owned(), "-p".to_owned(), config_dir.to_owned()];
    assert(views(r@) =~= seq!["-c"@, conf@, "-p"@, config_dir@]);
    r
}

/// The arguments of `php-fpm`: its configuration file and its `php.ini`.
pub fn php_fpm_args(conf: &str, ini: &str) -> (r: Vec<String>)
    ensures
        views(r@) == seq!["-y"@, conf@, "-c"@, ini@],
{
    let r = vec!["-y".to_owned(), conf.to_owned(), "-c".to_owned(), ini.to_owned()];
    assert(views(r@) =~= seq!["-y"@, conf@, "-c"@, ini@]);
    r
}

/// The arguments of `mysqld_safe`.
pub fn mariadb_args(data_dir: &str, pid_file: &str, socket: &str, port: u16) -> (r: Vec<String>)
    ensures
        views(r@) == seq![
            "--datadir="@ + data_dir@,
            "--pid-file="@ + pid_file@,
            "--socket="@ + socket@,
            "--port="@ + decimal(port as nat),
            "--innodb-use-native-aio=0"@,
            "--skip-log-error"@,
        ],
{
    let p = decimal_string(port as u64);
    let r = vec![
        prefixed("--datadir=", data_dir),
        prefixed("--pid-file=", pid_file),
        prefixed("--socket=", socket),
        prefixed("--port=", p.as_str()),
        "--innodb-use-native-aio=0".to_owned(),
        "--skip-log-error".to_owned(),
    ];
    assert(views(r@) =~= seq![
        "--datadir="@ + data_dir@,
        "--pid-file="@ + pid_file@,
        "--socket="@ + socket@,
        "--port="@ + decimal(port as nat),
        "--innodb-use-native-aio=0"@,
        "--skip-log-error"@,
    ]);
    r
}

/// The arguments of `pg_ctl` that start PostgreSQL on `port`.
pub fn postgres_args(data_dir: &str, log_file: &str, port: u16) -> (r: Vec<String>)
    ensures
        views(r@) == seq![
            "start"@,
            "-D"@,
            data_dir@,
            "-l"@,
            log_file@,
            "-o"@,
            "-p "@ + decimal(port as nat) + " -k /tmp"@,
        ],
{
    let p = decimal_string(port as u64);
    let mut opts = prefixed("-p ", p.as_str());
    opts.append(" -k /tmp");
    let r = vec![
        "start".to_owned(),
        "-D".to_owned(),
        data_dir.to_owned(),
        "-l".to_owned(),
        log_file.to_owned(),
        "-o".to_owned(),
        opts,
    ];
    assert(views(r@) =~= seq![
        "start"@,
        "-D"@,
        data_dir@,
        "-l"@,
        log_file@,
        "-o"@,
        "-p "@ + decimal(port as nat) + " -k /tmp"@,
    ]);
    r
}

/// The arguments of `redis-server`.
pub fn redis_args(port: u16, pid_file: &str) -> (r: Vec<String>)
    ensures
        views(r@) == seq!["--port"@, decimal(port as nat), "--pidfile"@, pid_file@],
{
    let r = vec![
        "--port".to_owned(),
        decimal_string(port as u64),
        "--pidfile".to_owned(),
        pid_file.to_owned(),
    ];
    assert(views(r@) =~= seq!["--port"@, decimal(port as nat), "--pidfile"@, pid_file@]);
    r
}

// ---------------------------------------------------------------------------
// Configuration files
// ---------------------------------------------------------------------------

/// The main nginx configuration of the stack whose home is `base`, with the
/// default server on `port`.
pub fn nginx_main_config(base: &str, port: u16) -> (r: String)
    ensures
        r@ == nginx_config_text(
            join(base@, "logs"@),
            join(base@, "pids"@),
            join(base@, "config"@),
            port,
            join(base@, "html"@),
        ),
{
    let logs = path_join(base, "logs");
    let pids = path_join(base, "pids");
    let config = path_join(base, "config");
    let html = path_join(base, "html");
    render_nginx_config(logs.as_str(), pids.as_str(), config.as_str(), port, html.as_str())
}

/// The php-fpm configuration of PHP `version` for the stack whose home is
/// `base`, listening on `port` and running as `user`.
pub fn php_fpm_main_config(base: &str, version: &str, port: u16, user: &str) -> (r: String)
    ensures
        r@ == php_fpm_config_text(join(base@, "pids"@), version@, join(base@, "logs"@), port, user@),
{
    let logs = path_join(base, "logs");
    let pids = path_join(base, "pids");
    render_php_fpm_config(pids.as_str(), version, logs.as_str(), port, user)
}

/// The nginx version chosen in the active-versions settings text, if there
/// is one and it names a version.
pub fn configured_nginx_version(active_versions: Option<&str>) -> (r: Option<String>)
    ensures
        match active_versions {
            Some(t) => settings_text(t@, "nginx"@) == match r {
                Some(v) => Some(v@),
                None => None,
            },
            None => r is None,
        },
{
    match active_versions {
        Some(t) => read_settings_text(t, "nginx"),
        None => None,
    }
}

/// The nginx program used: the first of the candidates (those of
/// `nginx_binary_candidates`, then the `nginx` of each installed version
/// directory) that is present; `None` when none is, and nginx is not started.
pub fn choose_nginx_binary(present: &Vec<bool>) -> (r: Option<usize>)
    ensures
        match r {
            Some(i) => i < present.len() && present[i as int] && forall|k: int|
                0 <= k < i ==> !#[trigger] present[k],
            None => forall|k: int| 0 <= k < present.len() ==> !#[trigger] present[k],
        },
{
    let mut i: usize = 0;
    while i < present.len()
        invariant
            i <= present.len(),
            forall|k: int| 0 <= k < i ==> !#[trigger] present[k],
        decreases present.len() - i,
    {
        if present[i] {
            return Some(i);
        }
        i = i + 1;
    }
    None
}

/// Every service but PostgreSQL keeps its pid in `<base>/pids/<name>.pid`,
/// the file it is started with (`--pid-file`, `--pidfile`, nginx's `pid`);
/// PostgreSQL keeps its own in its data directory.
pub proof fn law_pid_file_location(base: Seq<char>, name: Seq<char>)
    ensures
        name != "postgresql"@ ==> pid_file_of(base, name) == join(join(base, "pids"@), name + ".pid"@),
        name == "postgresql"@ ==> pid_file_of(base, name) == join(base, "data/postgresql/postmaster.pid"@),
        pid_file_of(base, "mariadb"@) == join(join(base, "pids"@), "mariadb.pid"@),
        pid_file_of(base, "redis"@) == join(join(base, "pids"@), "redis.pid"@),
        pid_file_of(base, "nginx"@) == join(join(base, "pids"@), "nginx.pid"@),
{
    reveal_strlit("postgresql");
    reveal_strlit("mariadb");
    reveal_strlit("redis");
    reveal_strlit("nginx");
    reveal_strlit(".pid");
    reveal_strlit("mariadb.pid");
    reveal_strlit("redis.pid");
    reveal_strlit("nginx.pid");
    assert("mariadb"@ + ".pid"@ =~= "mariadb.pid"@);
    assert("redis"@ + ".pid"@ =~= "redis.pid"@);
    assert("nginx"@ + ".pid"@ =~= "nginx.pid"@);
    assert("mariadb"@ != "postgresql"@) by {
        assert("mariadb"@.len() != "postgresql"@.len());
    }
    assert("redis"@ != "postgresql"@) by {
        assert("redis"@.len() != "postgresql"@.len());
    }
    assert("nginx"@ != "postgresql"@) by {
        assert("nginx"@.len() != "postgresql"@.len());
    }
}


/// `join(base, dir)` followed by `/` and `file` is the join of `base` with
/// `dir/file`, for a relative directory name `dir` without a final `/`.
proof fn lemma_join_then_file(base: Seq<char>, dir: Seq<char>, file: Seq<char>)
    requires
        dir.len() > 0,
        dir[0] != '/',
        dir.last() != '/',
    ensures
        join(base, dir) + seq!['/'] + file == join(base, dir + seq!['/'] + file),
        join(base, dir).len() > 0,
        join(base, dir).last() != '/',
{
    let seg = dir + seq!['/'] + file;
    assert(seg[0] == dir[0]);
    if base.len() == 0 {
    } else if base.last() == '/' {
        assert(base + dir + seq!['/'] + file =~= base + seg);
        assert((base + dir).last() == dir.last());
    } else {
        assert(base + seq!['/'] + dir + seq!['/'] + file =~= base + seq!['/'] + seg);
        assert((base + seq!['/'] + dir).last() == dir.last());
    }
}

/// The main nginx configuration of the stack whose home is `base` names as
/// its error log and access log the files the log viewer shows for
/// `nginx-error` and `nginx-access`, and as its pid file the one whose
/// presence tells that nginx is running.
pub proof fn law_nginx_files_are_the_stacks(base: Seq<char>, port: u16)
    ensures
        contains_text(
            nginx_config_text(join(base, "logs"@), join(base, "pids"@), join(base, "config"@), port, join(base, "html"@)),
            "error_log  "@ + log_file_of(base, "nginx-error"@) + ";"@,
        ),
        contains_text(
            nginx_config_text(join(base, "logs"@), join(base, "pids"@), join(base, "config"@), port, join(base, "html"@)),
            "access_log    "@ + log_file_of(base, "nginx-access"@) + ";"@,
        ),
        contains_text(
            nginx_config_text(join(base, "logs"@), join(base, "pids"@), join(base, "config"@), port, join(base, "html"@)),
            "pid        "@ + pid_file_of(base, "nginx"@) + ";"@,
        ),
{
    let logs = join(base, "logs"@);
    let pids = join(base, "pids"@);
    crate::templates::law_nginx_config_files(logs, pids, join(base, "config"@), port, join(base, "html"@));
    law_pid_file_location(base, "nginx"@);
    reveal_strlit("logs");
    reveal_strlit("pids");
    reveal_strlit("nginx-error");
    reveal_strlit("nginx-access");
    reveal_strlit("logs/nginx-error.log");
    reveal_strlit("logs/nginx-access.log");
    reveal_strlit("/nginx-error.log;");
    reveal_strlit("/nginx-access.log;");
    reveal_strlit("/nginx.pid;");
    reveal_strlit("nginx-error.log");
    reveal_strlit("nginx-access.log");
    reveal_strlit("nginx.pid");
    reveal_strlit(";");
    assert("nginx-access"@ != "nginx-error"@) by {
        assert("nginx-access"@.len() != "nginx-error"@.len());
    }
    lemma_join_then_file(base, "logs"@, "nginx-error.log"@);
    lemma_join_then_file(base, "logs"@, "nginx-access.log"@);
    assert("logs"@ + seq!['/'] + "nginx-error.log"@ =~= "logs/nginx-error.log"@);
    assert("logs"@ + seq!['/'] + "nginx-access.log"@ =~= "logs/nginx-access.log"@);
    assert(logs + "/nginx-error.log;"@ =~= log_file_of(base, "nginx-error"@) + ";"@) by {
        assert(log_file_of(base, "nginx-error"@) == logs + seq!['/'] + "nginx-error.log"@);
    }
    assert(logs + "/nginx-access.log;"@ =~= log_file_of(base, "nginx-access"@) + ";"@) by {
        assert(log_file_of(base, "nginx-access"@) == logs + seq!['/'] + "nginx-access.log"@);
    }
    lemma_join_then_file(base, "pids"@, "nginx.pid"@);
    assert(pids + "/nginx.pid;"@ =~= pid_file_of(base, "nginx"@) + ";"@) by {
        assert(pid_file_of(base, "nginx"@) == join(pids, "nginx.pid"@));
        assert(join(pids, "nginx.pid"@) == pids + seq!['/'] + "nginx.pid"@);
    }
    assert("error_log  "@ + logs + "/nginx-error.log;"@ =~= "error_log  "@ + log_file_of(base, "nginx-error"@) + ";"@);
    assert("access_log    "@ + logs + "/nginx-access.log;"@ =~= "access_log    "@ + log_file_of(base, "nginx-access"@) + ";"@);
    assert("pid        "@ + pids + "/nginx.pid;"@ =~= "pid        "@ + pid_file_of(base, "nginx"@) + ";"@);
}

} // verus!
