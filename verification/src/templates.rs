//! The texts the stack writes: nginx and php-fpm configuration, the server
//! block of each site, the composer launcher, and fixed support files.
//!
//! Each text is a template, a sequence of fixed pieces between which values
//! are put in order.

use vstd::prelude::*;
use crate::text::{contains_text, decimal, decimal_string, occurs_at};

verus! {

/// `pieces[0] + values[0] + pieces[1] + ... + values[n-1] + pieces[n]`.
pub open spec fn interleave(pieces: Seq<Seq<char>>, values: Seq<Seq<char>>) -> Seq<char>
    decreases values.len(),
{
    if values.len() == 0 || pieces.len() == 0 {
        if pieces.len() == 0 {
            Seq::empty()
        } else {
            pieces[0]
        }
    } else {
        interleave(pieces.drop_last(), values.drop_last()) + values.last() + pieces.last()
    }
}

pub open spec fn str_views(v: Seq<&str>) -> Seq<Seq<char>> {
    v.map_values(|x: &str| x@)
}

/// Fills a template: puts `values` between the `pieces`.
pub fn fill(pieces: &Vec<&str>, values: &Vec<&str>) -> (r: String)
    requires
        pieces.len() == values.len() + 1,
    ensures
        r@ == interleave(str_views(pieces@), str_views(values@)),
{
    let ghost ps = str_views(pieces@);
    let ghost vs = str_views(values@);
    let mut r = pieces[0].to_owned();
    let mut i: usize = 0;
    proof {
        assert(ps.take(1).drop_last() =~= Seq::<Seq<char>>::empty());
        assert(vs.take(0) =~= Seq::<Seq<char>>::empty());
        assert(ps.take(1)[0] == ps[0]);
    }
    while i < values.len()
        invariant
            pieces.len() == values.len() + 1,
            ps == str_views(pieces@),
            vs == str_views(values@),
            i <= values.len(),
            r@ == interleave(ps.take(i + 1), vs.take(i as int)),
        decreases values.len() - i,
    {
        r.append(values[i]);
        r.append(pieces[i + 1]);
        proof {
            assert(ps.take(i + 2).drop_last() =~= ps.take(i + 1));
            assert(vs.take(i + 1).drop_last() =~= vs.take(i as int));
            assert(ps.take(i + 2).last() == ps[i + 1]);
            assert(vs.take(i + 1).last() == vs[i as int]);
        }
        i = i + 1;
    }
    proof {
        assert(ps.take(values.len() + 1) =~= ps);
        assert(vs.take(values.len() as int) =~= vs);
    }
    r
}

pub const NGINX_CONF_0: &'static str = r#"
worker_processes  1;
error_log  "#;
pub const NGINX_CONF_1: &'static str = r#"/nginx-error.log;
pid        "#;
pub const NGINX_CONF_2: &'static str = r#"/nginx.pid;

events {
    worker_connections  1024;
}

http {
    include       mime.types;
    default_type  application/octet-stream;
    access_log    "#;
pub const NGINX_CONF_3: &'static str = r#"/nginx-access.log;
    sendfile      on;
    keepalive_timeout  65;
    client_max_body_size 100M;
    include       "#;
pub const NGINX_CONF_4: &'static str = r#"/sites/*.conf;

    server {
        listen       "#;
pub const NGINX_CONF_5: &'static str = r#" default_server;
        server_name  _;
        root         "#;
pub const NGINX_CONF_6: &'static str = r#";
        index        index.html index.htm index.php;

        location / {
            try_files $uri $uri/ /index.php?$query_string;
        }

        location ~ \.php$ {
            fastcgi_pass   127.0.0.1:9000;
            fastcgi_index  index.php;
            include        fastcgi_params;
            fastcgi_param  SCRIPT_FILENAME $document_root$fastcgi_script_name;
        }
    }
}
"#;
pub const PHP_FPM_CONF_0: &'static str = r#"
[global]
pid = "#;
pub const PHP_FPM_CONF_1: &'static str = r#"/php-"#;
pub const PHP_FPM_CONF_2: &'static str = r#"-fpm.pid
error_log = "#;
pub const PHP_FPM_CONF_3: &'static str = r#"/php-"#;
pub const PHP_FPM_CONF_4: &'static str = r#"-fpm.log
daemonize = no

[www]
listen = 127.0.0.1:"#;
pub const PHP_FPM_CONF_5: &'static str = r#"
user = "#;
pub const PHP_FPM_CONF_6: &'static str = r#"
group = "#;
pub const PHP_FPM_CONF_7: &'static str = r#"
pm = dynamic
pm.max_children = 5
pm.start_servers = 2
pm.min_spare_servers = 1
pm.max_spare_servers = 3
"#;
pub const SITE_SSL_0: &'static str = r#"
    listen 8443 ssl;
    ssl_certificate ""#;
pub const SITE_SSL_1: &'static str = r#"";
    ssl_certificate_key ""#;
pub const SITE_SSL_2: &'static str = r#"";
"#;
pub const SITE_BLOCK_0: &'static str = r#"server {
    listen 8080;
    "#;
pub const SITE_BLOCK_1: &'static str = r#"
    server_name "#;
pub const SITE_BLOCK_2: &'static str = r#".test;
    root ""#;
pub const SITE_BLOCK_3: &'static str = r#"";
    index index.html index.htm index.php;
    charset utf-8;

    location / {
        try_files $uri $uri/ /index.php?$query_string;
    }

    location = /favicon.ico { access_log off; log_not_found off; }
    location = /robots.txt  { access_log off; log_not_found off; }

    error_page 404 /index.php;

    location ~ \.php$ {
        fastcgi_pass 127.0.0.1:"#;
pub const SITE_BLOCK_4: &'static str = r#";
        fastcgi_param SCRIPT_FILENAME $realpath_root$fastcgi_script_name;
        include fastcgi_params;
    }

    location ~ /\.(?!well-known).* {
        deny all;
    }
}
"#;
pub const COMPOSER_SHIM_0: &'static str = r#"#!/bin/sh
exec ""#;
pub const COMPOSER_SHIM_1: &'static str = r#"" ""#;
pub const COMPOSER_SHIM_2: &'static str = r#"" "$@"
"#;
pub const MIME_TYPES: &'static str = r#"
types {
    text/html                             html htm shtml;
    text/css                              css;
    text/xml                              xml;
    image/gif                             gif;
    image/jpeg                            jpeg jpg;
    application/javascript                js;
    application/atom+xml                  atom;
    application/rss+xml                   rss;
    text/mathml                           mml;
    text/plain                            txt;
    text/vnd.sun.j2me.app-descriptor      jad;
    text/vnd.wap.wml                      wml;
    text/x-component                      htc;
    image/png                             png;
    image/svg+xml                         svg svgz;
    image/tiff                            tif tiff;
    image/vnd.wap.wbmp                    wbmp;
    image/webp                            webp;
    image/x-icon                          ico;
    image/x-jng                           jng;
    image/x-ms-bmp                        bmp;
    application/font-woff                 woff;
    application/java-archive              jar war ear;
    application/json                      json;
    application/mac-binhex40              hqx;
    application/msword                    doc;
    application/pdf                       pdf;
    application/postscript                ps eps ai;
    application/rtf                       rtf;
    application/vnd.apple.mpegurl         m3u8;
    application/vnd.google-earth.kml+xml  kml;
    application/vnd.google-earth.kmz      kmz;
    application/vnd.ms-excel              xls;
    application/vnd.ms-fontobject         eot;
    application/vnd.ms-powerpoint         ppt;
    application/vnd.oasis.opendocument.graphics odg;
    application/vnd.oasis.opendocument.presentation odp;
    application/vnd.oasis.opendocument.spreadsheet ods;
    application/vnd.oasis.opendocument.text odt;
    application/vnd.openxmlformats-officedocument.presentationml.presentation pptx;
    application/vnd.openxmlformats-officedocument.spreadsheetml.sheet xlsx;
    application/vnd.openxmlformats-officedocument.wordprocessingml.document docx;
    application/vnd.wap.wmlc              wmlc;
    application/x-7z-compressed           7z;
    application/x-cocoa                   cco;
    application/x-java-archive-diff       jardiff;
    application/x-java-jnlp-file          jnlp;
    application/x-makeself                run;
    application/x-perl                    pl pm;
    application/x-pilot                   prc pdb;
    application/x-rar-compressed          rar;
    application/x-redhat-package-manager  rpm;
    application/x-sea                     sea;
    application/x-shockwave-flash         swf;
    application/x-stuffit                 sit;
    application/x-tcl                     tcl tk;
    application/x-x509-ca-cert            der pem crt;
    application/x-xpinstall               xpi;
    application/xhtml+xml                 xhtml;
    application/xspf+xml                  xspf;
    application/zip                       zip;
    application/octet-stream              bin exe dll deb dmg iso img msi msp msm;
    audio/midi                            mid midi kar;
    audio/mpeg                            mp3;
    audio/ogg                             ogg;
    audio/x-m4a                           m4a;
    audio/x-realaudio                     ra;
    video/3gpp                            3gpp 3gp;
    video/mp2t                            ts;
    video/mp4                             mp4;
    video/mpeg                            mpeg mpg;
    video/quicktime                       mov;
    video/webm                            webm;
    video/x-flv                           flv;
    video/x-m4v                           m4v;
    video/x-mng                           mng;
    video/x-ms-asf                        asx asf;
    video/x-ms-wmv                        wmv;
    video/x-msvideo                       avi;
}
"#;
pub const FASTCGI_PARAMS: &'static str = r#"
fastcgi_param  QUERY_STRING       $query_string;
fastcgi_param  REQUEST_METHOD     $request_method;
fastcgi_param  CONTENT_TYPE       $content_type;
fastcgi_param  CONTENT_LENGTH     $content_length;

fastcgi_param  SCRIPT_NAME        $fastcgi_script_name;
fastcgi_param  REQUEST_URI        $request_uri;
fastcgi_param  DOCUMENT_URI       $document_uri;
fastcgi_param  DOCUMENT_ROOT      $document_root;
fastcgi_param  SERVER_PROTOCOL    $server_protocol;
fastcgi_param  REQUEST_SCHEME     $scheme;
fastcgi_param  HTTPS              $https if_not_empty;

fastcgi_param  GATEWAY_INTERFACE  CGI/1.1;
fastcgi_param  SERVER_SOFTWARE    nginx/$nginx_version;

fastcgi_param  REMOTE_ADDR        $remote_addr;
fastcgi_param  REMOTE_PORT        $remote_port;
fastcgi_param  SERVER_ADDR        $server_addr;
fastcgi_param  SERVER_PORT        $server_port;
"#;
pub const DEFAULT_PHP_INI: &'static str = r#"
memory_limit = 512M
upload_max_filesize = 128M
post_max_size = 128M
max_execution_time = 300
display_errors = On
short_open_tag = On
date.timezone = UTC
opcache.enable = 1
opcache.memory_consumption = 128
"#;

/// The main nginx configuration is, in order: its fixed pieces with the log
/// directory, the pid directory, the log directory again, the configuration
/// directory, the port and the web root put between them.
proof fn lemma_nginx_config_parts(logs: Seq<char>, pids: Seq<char>, config_dir: Seq<char>, port: u16, html: Seq<char>)
    ensures
        nginx_config_text(logs, pids, config_dir, port, html) == NGINX_CONF_0@ + logs + NGINX_CONF_1@ + pids
            + NGINX_CONF_2@ + logs + NGINX_CONF_3@ + config_dir + NGINX_CONF_4@ + decimal(port as nat)
            + NGINX_CONF_5@ + html + NGINX_CONF_6@,
{
    let ps = seq![NGINX_CONF_0@, NGINX_CONF_1@, NGINX_CONF_2@, NGINX_CONF_3@, NGINX_CONF_4@, NGINX_CONF_5@, NGINX_CONF_6@];
    let vs = seq![logs, pids, logs, config_dir, decimal(port as nat), html];
    assert(interleave(ps.take(1), vs.take(0)) == NGINX_CONF_0@);
    assert(interleave(ps.take(2), vs.take(1)) == NGINX_CONF_0@ + logs + NGINX_CONF_1@) by {
        assert(ps.take(2).drop_last() =~= ps.take(1));
        assert(vs.take(1).drop_last() =~= vs.take(0));
    }
    assert(interleave(ps.take(3), vs.take(2)) == NGINX_CONF_0@ + logs + NGINX_CONF_1@ + pids + NGINX_CONF_2@) by {
        assert(ps.take(3).drop_last() =~= ps.take(2));
        assert(vs.take(2).drop_last() =~= vs.take(1));
    }
    assert(interleave(ps.take(4), vs.take(3)) == NGINX_CONF_0@ + logs + NGINX_CONF_1@ + pids + NGINX_CONF_2@ + logs
        + NGINX_CONF_3@) by {
        assert(ps.take(4).drop_last() =~= ps.take(3));
        assert(vs.take(3).drop_last() =~= vs.take(2));
    }
    assert(interleave(ps.take(5), vs.take(4)) == NGINX_CONF_0@ + logs + NGINX_CONF_1@ + pids + NGINX_CONF_2@ + logs
        + NGINX_CONF_3@ + config_dir + NGINX_CONF_4@) by {
        assert(ps.take(5).drop_last() =~= ps.take(4));
        assert(vs.take(4).drop_last() =~= vs.take(3));
    }
    assert(interleave(ps.take(6), vs.take(5)) == NGINX_CONF_0@ + logs + NGINX_CONF_1@ + pids + NGINX_CONF_2@ + logs
        + NGINX_CONF_3@ + config_dir + NGINX_CONF_4@ + decimal(port as nat) + NGINX_CONF_5@) by {
        assert(ps.take(6).drop_last() =~= ps.take(5));
        assert(vs.take(5).drop_last() =~= vs.take(4));
    }
    assert(ps.take(7) =~= ps);
    assert(vs.take(6) =~= vs);
    assert(ps.drop_last() =~= ps.take(6));
    assert(vs.drop_last() =~= vs.take(5));
}

/// The main nginx configuration writes the error log and the access log
/// into the log directory and the pid file into the pid directory:
/// it holds `error_log  <logs>/nginx-error.log;`,
/// `pid        <pids>/nginx.pid;` and
/// `access_log    <logs>/nginx-access.log;`, whatever the directories are.
pub proof fn law_nginx_config_files(logs: Seq<char>, pids: Seq<char>, config_dir: Seq<char>, port: u16, html: Seq<char>)
    ensures
        contains_text(nginx_config_text(logs, pids, config_dir, port, html), "error_log  "@ + logs + "/nginx-error.log;"@),
        contains_text(nginx_config_text(logs, pids, config_dir, port, html), "pid        "@ + pids + "/nginx.pid;"@),
        contains_text(nginx_config_text(logs, pids, config_dir, port, html), "access_log    "@ + logs + "/nginx-access.log;"@),
{
    lemma_nginx_config_parts(logs, pids, config_dir, port, html);
    reveal_strlit(r#"
worker_processes  1;
error_log  "#);
    reveal_strlit(r#"/nginx-error.log;
pid        "#);
    reveal_strlit(r#"/nginx.pid;

events {
    worker_connections  1024;
}

http {
    include       mime.types;
    default_type  application/octet-stream;
    access_log    "#);
    reveal_strlit(r#"/nginx-access.log;
    sendfile      on;
    keepalive_timeout  65;
    client_max_body_size 100M;
    include       "#);
    reveal_strlit("error_log  ");
    reveal_strlit("/nginx-error.log;");
    reveal_strlit("pid        ");
    reveal_strlit("/nginx.pid;");
    reveal_strlit("access_log    ");
    reveal_strlit("/nginx-access.log;");
    let c0 = NGINX_CONF_0@;
    let c1 = NGINX_CONF_1@;
    let c2 = NGINX_CONF_2@;
    let c3 = NGINX_CONF_3@;
    let a0 = c0.subrange(0, c0.len() - 11);
    assert(c0 =~= a0 + "error_log  "@);
    let b1 = c1.subrange(17, c1.len() - 11);
    assert(c1 =~= "/nginx-error.log;"@ + b1 + "pid        "@);
    let b2 = c2.subrange(11, c2.len() - 14);
    assert(c2 =~= "/nginx.pid;"@ + b2 + "access_log    "@);
    let d3 = c3.subrange(18, c3.len() as int);
    assert(c3 =~= "/nginx-access.log;"@ + d3);
    let rest = config_dir + NGINX_CONF_4@ + decimal(port as nat) + NGINX_CONF_5@ + html + NGINX_CONF_6@;
    let t = nginx_config_text(logs, pids, config_dir, port, html);
    let e = "error_log  "@ + logs + "/nginx-error.log;"@;
    let p = "pid        "@ + pids + "/nginx.pid;"@;
    let a = "access_log    "@ + logs + "/nginx-access.log;"@;
    assert(t =~= a0 + e + b1 + p + b2 + a + d3 + rest);
    assert(occurs_at(t, e, a0.len() as int)) by {
        assert(t.subrange(a0.len() as int, (a0.len() + e.len()) as int) =~= e);
    }
    assert(occurs_at(t, p, (a0 + e + b1).len() as int)) by {
        assert(t.subrange((a0 + e + b1).len() as int, ((a0 + e + b1).len() + p.len()) as int) =~= p);
    }
    assert(occurs_at(t, a, (a0 + e + b1 + p + b2).len() as int)) by {
        assert(t.subrange((a0 + e + b1 + p + b2).len() as int, ((a0 + e + b1 + p + b2).len() + a.len()) as int) =~= a);
    }
}

/// The main nginx configuration: logs and pid under `logs` and `pids`, sites included from `config_dir/sites`, a default server on `port` serving `html`.
pub open spec fn nginx_config_text(logs: Seq<char>, pids: Seq<char>, config_dir: Seq<char>, port: u16, html: Seq<char>) -> Seq<char> {
    interleave(seq![NGINX_CONF_0@, NGINX_CONF_1@, NGINX_CONF_2@, NGINX_CONF_3@, NGINX_CONF_4@, NGINX_CONF_5@, NGINX_CONF_6@], seq![logs, pids, logs, config_dir, decimal(port as nat), html])
}

/// The main nginx configuration: logs and pid under `logs` and `pids`, sites included from `config_dir/sites`, a default server on `port` serving `html`.
pub fn render_nginx_config(logs: &str, pids: &str, config_dir: &str, port: u16, html: &str) -> (r: String)
    ensures
        r@ == nginx_config_text(logs@, pids@, config_dir@, port, html@),
{
    let port_text = decimal_string(port as u64);
    let pieces: Vec<&str> = vec![NGINX_CONF_0, NGINX_CONF_1, NGINX_CONF_2, NGINX_CONF_3, NGINX_CONF_4, NGINX_CONF_5, NGINX_CONF_6];
    let values: Vec<&str> = vec![logs, pids, logs, config_dir, port_text.as_str(), html];
    proof {
        assert(str_views(pieces@) =~= seq![NGINX_CONF_0@, NGINX_CONF_1@, NGINX_CONF_2@, NGINX_CONF_3@, NGINX_CONF_4@, NGINX_CONF_5@, NGINX_CONF_6@]);
        assert(str_views(values@) =~= seq![logs@, pids@, logs@, config_dir@, decimal(port as nat), html@]);
    }
    fill(&pieces, &values)
}

/// The php-fpm configuration of PHP `version`: pid and log under `pids` and `logs`, listening on `127.0.0.1:port`, running as `user`.
pub open spec fn php_fpm_config_text(pids: Seq<char>, version: Seq<char>, logs: Seq<char>, port: u16, user: Seq<char>) -> Seq<char> {
    interleave(seq![PHP_FPM_CONF_0@, PHP_FPM_CONF_1@, PHP_FPM_CONF_2@, PHP_FPM_CONF_3@, PHP_FPM_CONF_4@, PHP_FPM_CONF_5@, PHP_FPM_CONF_6@, PHP_FPM_CONF_7@], seq![pids, version, logs, version, decimal(port as nat), user, user])
}

/// The php-fpm configuration of PHP `version`: pid and log under `pids` and `logs`, listening on `127.0.0.1:port`, running as `user`.
pub fn render_php_fpm_config(pids: &str, version: &str, logs: &str, port: u16, user: &str) -> (r: String)
    ensures
        r@ == php_fpm_config_text(pids@, version@, logs@, port, user@),
{
    let port_text = decimal_string(port as u64);
    let pieces: Vec<&str> = vec![PHP_FPM_CONF_0, PHP_FPM_CONF_1, PHP_FPM_CONF_2, PHP_FPM_CONF_3, PHP_FPM_CONF_4, PHP_FPM_CONF_5, PHP_FPM_CONF_6, PHP_FPM_CONF_7];
    let values: Vec<&str> = vec![pids, version, logs, version, port_text.as_str(), user, user];
    proof {
        assert(str_views(pieces@) =~= seq![PHP_FPM_CONF_0@, PHP_FPM_CONF_1@, PHP_FPM_CONF_2@, PHP_FPM_CONF_3@, PHP_FPM_CONF_4@, PHP_FPM_CONF_5@, PHP_FPM_CONF_6@, PHP_FPM_CONF_7@]);
        assert(str_views(values@) =~= seq![pids@, version@, logs@, version@, decimal(port as nat), user@, user@]);
    }
    fill(&pieces, &values)
}

/// The TLS lines of a site's server block, for its certificate and key files.
pub open spec fn site_ssl_text(cert: Seq<char>, key: Seq<char>) -> Seq<char> {
    interleave(seq![SITE_SSL_0@, SITE_SSL_1@, SITE_SSL_2@], seq![cert, key])
}

/// The TLS lines of a site's server block, for its certificate and key files.
pub fn render_site_ssl(cert: &str, key: &str) -> (r: String)
    ensures
        r@ == site_ssl_text(cert@, key@),
{
    let pieces: Vec<&str> = vec![SITE_SSL_0, SITE_SSL_1, SITE_SSL_2];
    let values: Vec<&str> = vec![cert, key];
    proof {
        assert(str_views(pieces@) =~= seq![SITE_SSL_0@, SITE_SSL_1@, SITE_SSL_2@]);
        assert(str_views(values@) =~= seq![cert@, key@]);
    }
    fill(&pieces, &values)
}

/// The nginx server block of the site `name` served from `root`, with the TLS lines `ssl`, passing PHP to php-fpm on `port`.
pub open spec fn site_block_text(ssl: Seq<char>, name: Seq<char>, root: Seq<char>, port: u16) -> Seq<char> {
    interleave(seq![SITE_BLOCK_0@, SITE_BLOCK_1@, SITE_BLOCK_2@, SITE_BLOCK_3@, SITE_BLOCK_4@], seq![ssl, name, root, decimal(port as nat)])
}

/// The nginx server block of the site `name` served from `root`, with the TLS lines `ssl`, passing PHP to php-fpm on `port`.
pub fn render_site_block(ssl: &str, name: &str, root: &str, port: u16) -> (r: String)
    ensures
        r@ == site_block_text(ssl@, name@, root@, port),
{
    let port_text = decimal_string(port as u64);
    let pieces: Vec<&str> = vec![SITE_BLOCK_0, SITE_BLOCK_1, SITE_BLOCK_2, SITE_BLOCK_3, SITE_BLOCK_4];
    let values: Vec<&str> = vec![ssl, name, root, port_text.as_str()];
    proof {
        assert(str_views(pieces@) =~= seq![SITE_BLOCK_0@, SITE_BLOCK_1@, SITE_BLOCK_2@, SITE_BLOCK_3@, SITE_BLOCK_4@]);
        assert(str_views(values@) =~= seq![ssl@, name@, root@, decimal(port as nat)]);
    }
    fill(&pieces, &values)
}

/// The `composer` launcher script: runs `phar` with the PHP shim `php`.
pub open spec fn composer_shim_text(php: Seq<char>, phar: Seq<char>) -> Seq<char> {
    interleave(seq![COMPOSER_SHIM_0@, COMPOSER_SHIM_1@, COMPOSER_SHIM_2@], seq![php, phar])
}

/// The `composer` launcher script: runs `phar` with the PHP shim `php`.
pub fn render_composer_shim(php: &str, phar: &str) -> (r: String)
    ensures
        r@ == composer_shim_text(php@, phar@),
{
    let pieces: Vec<&str> = vec![COMPOSER_SHIM_0, COMPOSER_SHIM_1, COMPOSER_SHIM_2];
    let values: Vec<&str> = vec![php, phar];
    proof {
        assert(str_views(pieces@) =~= seq![COMPOSER_SHIM_0@, COMPOSER_SHIM_1@, COMPOSER_SHIM_2@]);
        assert(str_views(values@) =~= seq![php@, phar@]);
    }
    fill(&pieces, &values)
}

/// The page nginx serves by default.
pub const WELCOME_PAGE: &'static str = "<h1>Welcome to LekStack Nginx!</h1>";

} // verus!
