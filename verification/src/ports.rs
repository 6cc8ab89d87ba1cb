//! The ports of the services: their defaults, the ports php-fpm listens on
//! for each PHP version, and the ports nginx routes each site's PHP to.

use vstd::prelude::*;
use crate::settings_json::{
    read_settings_value, settings_is_object, settings_value, settings_with_value, write_settings_value,
};
use crate::text::{has_prefix, starts_with, text_eq};

verus! {

/// The port a service listens on when its settings do not say otherwise.
pub open spec fn default_port(name: Seq<char>) -> u16 {
    if name == "nginx"@ {
        8080
    } else if name == "mariadb"@ {
        3306
    } else if name == "postgresql"@ {
        5432
    } else if name == "redis"@ {
        6379
    } else if name == "php-7.4"@ {
        9074
    } else if name == "php-8.0"@ {
        9080
    } else if name == "php-8.1"@ {
        9081
    } else if name == "php-8.2"@ {
        9082
    } else if name == "php-8.3"@ {
        9083
    } else if name == "php-8.4"@ {
        9084
    } else if name == "php-8.5"@ {
        9085
    } else if has_prefix(name, "php-"@) {
        9000
    } else {
        0
    }
}

/// The port nginx passes the PHP requests of a site to, by the site's PHP
/// version (an exact version name).
pub open spec fn site_php_port(version: Seq<char>) -> u16 {
    if version == "7.4"@ {
        9074
    } else if version == "8.0"@ {
        9080
    } else if version == "8.1"@ {
        9081
    } else if version == "8.2"@ {
        9082
    } else if version == "8.3"@ {
        9083
    } else if version == "8.4"@ {
        9084
    } else if version == "8.5"@ {
        9085
    } else {
        9000
    }
}

/// The port php-fpm of a PHP version is started on, by the prefix of the
/// version.
pub open spec fn fpm_port(version: Seq<char>) -> u16 {
    if has_prefix(version, "7.4"@) {
        9074
    } else if has_prefix(version, "8.0"@) {
        9080
    } else if has_prefix(version, "8.1"@) {
        9081
    } else if has_prefix(version, "8.2"@) {
        9082
    } else if has_prefix(version, "8.3"@) {
        9083
    } else if has_prefix(version, "8.4"@) {
        9084
    } else {
        9000
    }
}

/// The port of a service, given the port its settings record (if any): a
/// recorded port is cut to its low 16 bits.
pub open spec fn service_port(name: Seq<char>, recorded: Option<u64>) -> u16 {
    match recorded {
        Some(p) => (p % 65536) as u16,
        None => default_port(name),
    }
}

/// The default port of the service `name`.
pub fn default_service_port(name: &str) -> (r: u16)
    ensures
        r == default_port(name@),
{
    if text_eq(name, "nginx") {
        8080
    } else if text_eq(name, "mariadb") {
        3306
    } else if text_eq(name, "postgresql") {
        5432
    } else if text_eq(name, "redis") {
        6379
    } else if text_eq(name, "php-7.4") {
        9074
    } else if text_eq(name, "php-8.0") {
        9080
    } else if text_eq(name, "php-8.1") {
        9081
    } else if text_eq(name, "php-8.2") {
        9082
    } else if text_eq(name, "php-8.3") {
        9083
    } else if text_eq(name, "php-8.4") {
        9084
    } else if text_eq(name, "php-8.5") {
        9085
    } else if starts_with(name, "php-") {
        9000
    } else {
        0
    }
}

/// The port of the service `name`, given the port recorded for it in the
/// services settings, if one is.
pub fn port_from_setting(name: &str, recorded: Option<u64>) -> (r: u16)
    ensures
        r == service_port(name@, recorded),
{
    match recorded {
        Some(p) => (p % 65536) as u16,
        None => default_service_port(name),
    }
}

/// The port nginx routes the PHP of a site with PHP `version` to.
pub fn php_port_for_site(version: &str) -> (r: u16)
    ensures
        r == site_php_port(version@),
{
    if text_eq(version, "7.4") {
        9074
    } else if text_eq(version, "8.0") {
        9080
    } else if text_eq(version, "8.1") {
        9081
    } else if text_eq(version, "8.2") {
        9082
    } else if text_eq(version, "8.3") {
        9083
    } else if text_eq(version, "8.4") {
        9084
    } else if text_eq(version, "8.5") {
        9085
    } else {
        9000
    }
}

/// The port php-fpm for PHP `version` is started on.
pub fn php_fpm_port(version: &str) -> (r: u16)
    ensures
        r == fpm_port(version@),
{
    if starts_with(version, "7.4") {
        9074
    } else if starts_with(version, "8.0") {
        9080
    } else if starts_with(version, "8.1") {
        9081
    } else if starts_with(version, "8.2") {
        9082
    } else if starts_with(version, "8.3") {
        9083
    } else if starts_with(version, "8.4") {
        9084
    } else {
        9000
    }
}

proof fn lemma_cancel_prefix(a: Seq<char>, v: Seq<char>, w: Seq<char>)
    ensures
        (a + v == a + w) == (v == w),
{
    if a + v == a + w {
        assert(v =~= (a + v).subrange(a.len() as int, (a + v).len() as int));
        assert(w =~= (a + w).subrange(a.len() as int, (a + w).len() as int));
    }
}

proof fn lemma_php_name(v: Seq<char>, x: Seq<char>)
    requires
        x.len() == 3,
    ensures
        ("php-"@ + v == "php-"@ + x) == (v == x),
{
    lemma_cancel_prefix("php-"@, v, x);
}

/// The default port of the service `php-<v>` is the port nginx routes the
/// sites of PHP `v` to, whatever the version text `v`.
pub proof fn law_php_service_port_is_route_port(v: Seq<char>)
    ensures
        default_port("php-"@ + v) == site_php_port(v),
{
    reveal_strlit("php-");
    reveal_strlit("nginx");
    reveal_strlit("mariadb");
    reveal_strlit("postgresql");
    reveal_strlit("redis");
    reveal_strlit("php-7.4");
    reveal_strlit("php-8.0");
    reveal_strlit("php-8.1");
    reveal_strlit("php-8.2");
    reveal_strlit("php-8.3");
    reveal_strlit("php-8.4");
    reveal_strlit("php-8.5");
    reveal_strlit("7.4");
    reveal_strlit("8.0");
    reveal_strlit("8.1");
    reveal_strlit("8.2");
    reveal_strlit("8.3");
    reveal_strlit("8.4");
    reveal_strlit("8.5");
    let name = "php-"@ + v;
    assert(name[0] == 'p' && name[1] == 'h' && name[2] == 'p' && name[3] == '-');
    assert(name != "nginx"@ && name != "mariadb"@ && name != "postgresql"@ && name != "redis"@) by {
        if name == "nginx"@ {
            assert(name[0] == "nginx"@[0]);
        }
        if name == "mariadb"@ {
            assert(name[0] == "mariadb"@[0]);
        }
        if name == "postgresql"@ {
            assert(name[0] == "postgresql"@[0]);
        }
        if name == "redis"@ {
            assert(name[0] == "redis"@[0]);
        }
    }
    assert("php-7.4"@ =~= "php-"@ + "7.4"@);
    assert("php-8.0"@ =~= "php-"@ + "8.0"@);
    assert("php-8.1"@ =~= "php-"@ + "8.1"@);
    assert("php-8.2"@ =~= "php-"@ + "8.2"@);
    assert("php-8.3"@ =~= "php-"@ + "8.3"@);
    assert("php-8.4"@ =~= "php-"@ + "8.4"@);
    assert("php-8.5"@ =~= "php-"@ + "8.5"@);
    lemma_php_name(v, "7.4"@);
    lemma_php_name(v, "8.0"@);
    lemma_php_name(v, "8.1"@);
    lemma_php_name(v, "8.2"@);
    lemma_php_name(v, "8.3"@);
    lemma_php_name(v, "8.4"@);
    lemma_php_name(v, "8.5"@);
    assert(name.subrange(0, 4) =~= "php-"@);
}

/// For every PHP version the stack installs by name, up to 8.4, php-fpm is
/// started on the very port nginx routes that version's sites to.
pub proof fn law_fpm_port_is_route_port(v: Seq<char>)
    requires
        v == "7.4"@ || v == "8.0"@ || v == "8.1"@ || v == "8.2"@ || v == "8.3"@ || v == "8.4"@,
    ensures
        fpm_port(v) == site_php_port(v),
{
    reveal_strlit("7.4");
    reveal_strlit("8.0");
    reveal_strlit("8.1");
    reveal_strlit("8.2");
    reveal_strlit("8.3");
    reveal_strlit("8.4");
    reveal_strlit("8.5");
    assert(v.subrange(0, 3) =~= v);
}

/// The port recorded for the service `name` in the services settings text
/// `settings` (absent when there is no settings file).
pub open spec fn recorded_port(settings: Option<Seq<char>>, name: Seq<char>) -> Option<u64> {
    match settings {
        Some(t) => settings_value(t, name, "port"@),
        None => None,
    }
}

/// The port the service `name` listens on, given the text of the services
/// settings file, if there is one: the recorded port, or the default.
pub fn get_service_port_value(name: &str, settings: Option<&str>) -> (r: u16)
    ensures
        r == service_port(
            name@,
            recorded_port(
                match settings {
                    Some(t) => Some(t@),
                    None => None,
                },
                name@,
            ),
        ),
{
    let recorded = match settings {
        Some(t) => read_settings_value(t, name, "port"),
        None => None,
    };
    port_from_setting(name, recorded)
}

/// The services settings text once the port of `name` is set to `port`,
/// starting from the current text `existing` (absent, or not JSON, counts
/// as the empty object).
pub open spec fn settings_with_port(existing: Option<Seq<char>>, name: Seq<char>, port: u16) -> Seq<char> {
    let fresh = settings_with_value("{}"@, name, "port"@, port as u64);
    match existing {
        Some(t) => match settings_with_value(t, name, "port"@, port as u64) {
            Some(s) => s,
            None => fresh->0,
        },
        None => fresh->0,
    }
}

/// Whether the port written into the settings text `existing` reads back:
/// so when there was no text, when it was not JSON (it is replaced), and
/// when it was a JSON object; a JSON document of another kind is kept as
/// it is.
pub open spec fn port_is_written(existing: Option<Seq<char>>, name: Seq<char>, port: u16) -> bool {
    match existing {
        None => true,
        Some(t) => settings_is_object(t) || settings_with_value(t, name, "port"@, port as u64) is None,
    }
}

/// The services settings text once the port of `name` is set to `port`.
/// The port reads back from the result whenever it is written, and the
/// ports of the other services read back as they were in an existing
/// settings object; a JSON document that is no object is kept as it was.
pub fn services_settings_with_port(existing: Option<&str>, name: &str, port: u16) -> (r: String)
    ensures
        r@ == settings_with_port(
            match existing {
                Some(t) => Some(t@),
                None => None,
            },
            name@,
            port,
        ),
        existing is None ==> recorded_port(Some(r@), name@) == Some(port as u64),
        existing is None ==> service_port(name@, recorded_port(Some(r@), name@)) == port,
        port_is_written(
            match existing {
                Some(t) => Some(t@),
                None => None,
            },
            name@,
            port,
        ) ==> recorded_port(Some(r@), name@) == Some(port as u64) && service_port(
            name@,
            recorded_port(Some(r@), name@),
        ) == port,
        existing is Some && settings_is_object(existing->0@) ==> forall|other: Seq<char>|
            other != name@ ==> #[trigger] recorded_port(Some(r@), other) == recorded_port(
                Some(existing->0@),
                other,
            ),
        existing is Some && !port_is_written(Some(existing->0@), name@, port) ==> forall|
            other: Seq<char>,
        | #[trigger] recorded_port(Some(r@), other) == recorded_port(Some(existing->0@), other),
{
    if let Some(t) = existing {
        if let Some(s) = write_settings_value(t, name, "port", port as u64) {
            proof {
                assert forall|other: Seq<char>| #![trigger recorded_port(Some(s@), other)]
                    (settings_is_object(t@) && other != name@) || !settings_is_object(t@)
                    implies recorded_port(Some(s@), other) == recorded_port(Some(t@), other) by {
                    assert(settings_value(s@, other, "port"@) == settings_value(t@, other, "port"@));
                }
            }
            return s;
        }
    }
    let fresh = write_settings_value("{}", name, "port", port as u64);
    match fresh {
        Some(s) => s,
        None => {
            proof {
                assert(false);
            }
            String::new()
        },
    }
}

} // verus!
