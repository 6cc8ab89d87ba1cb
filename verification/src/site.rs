//! Sites: the directories served under `<name>.test`, how the parked and the
//! linked ones are gathered, and the nginx server block of each.

use vstd::prelude::*;
use crate::error::LekStackError;
use crate::paths::{join, path_join};
use crate::ports::{php_port_for_site, site_php_port};
use crate::templates::{render_site_block, render_site_ssl, site_block_text, site_ssl_text};
use crate::text::{chars_of, text_eq};

verus! {

/// A site served by the stack.
pub struct Site {
    pub name: String,
    pub path: String,
    pub url: String,
    pub secured: bool,
    pub php_version: String,
}

/// The content of a site.
pub struct SiteView {
    pub name: Seq<char>,
    pub path: Seq<char>,
    pub url: Seq<char>,
    pub secured: bool,
    pub php_version: Seq<char>,
}

impl View for Site {
    type V = SiteView;

    open spec fn view(&self) -> SiteView {
        SiteView {
            name: self.name@,
            path: self.path@,
            url: self.url@,
            secured: self.secured,
            php_version: self.php_version@,
        }
    }
}

/// The contents of a list of sites.
pub open spec fn site_views(v: Seq<Site>) -> Seq<SiteView> {
    v.map_values(|s: Site| s@)
}

/// The names of a list of sites.
pub open spec fn site_names(v: Seq<SiteView>) -> Seq<Seq<char>> {
    v.map_values(|s: SiteView| s.name)
}

/// The address a site is served at.
pub open spec fn site_url(name: Seq<char>) -> Seq<char> {
    "http://"@ + name + ".test"@
}

/// The PHP version a site is served with: the one its project settings
/// choose, or 8.2.
pub open spec fn site_php(project_php: Option<Seq<char>>) -> Seq<char> {
    match project_php {
        Some(v) => v,
        None => "8.2"@,
    }
}

/// The site `name` served from `path`.
pub open spec fn site_of(
    name: Seq<char>,
    path: Seq<char>,
    secured: bool,
    project_php: Option<Seq<char>>,
) -> SiteView {
    SiteView { name, path, url: site_url(name), secured, php_version: site_php(project_php) }
}

/// The file name of a site's certificate.
pub open spec fn cert_file_name(name: Seq<char>) -> Seq<char> {
    name + ".pem"@
}

/// The file name of a site's private key.
pub open spec fn key_file_name(name: Seq<char>) -> Seq<char> {
    name + "-key.pem"@
}

/// The site `name` served from `path`, with the PHP version its project
/// settings choose, if they do.
pub fn make_site(name: &str, path: &str, secured: bool, project_php: Option<String>) -> (s: Site)
    ensures
        s@ == site_of(
            name@,
            path@,
            secured,
            match project_php {
                Some(v) => Some(v@),
                None => None,
            },
        ),
{
    let mut url = "http://".to_owned();
    url.append(name);
    url.append(".test");
    let php_version = match project_php {
        Some(v) => v,
        None => "8.2".to_owned(),
    };
    Site { name: name.to_owned(), path: path.to_owned(), url, secured, php_version }
}

/// The file name of the certificate of the site `name`.
pub fn cert_file(name: &str) -> (r: String)
    ensures
        r@ == cert_file_name(name@),
{
    let mut r = name.to_owned();
    r.append(".pem");
    r
}

/// The file name of the private key of the site `name`.
pub fn key_file(name: &str) -> (r: String)
    ensures
        r@ == key_file_name(name@),
{
    let mut r = name.to_owned();
    r.append("-key.pem");
    r
}

/// Whether a site is served over TLS, given whether its certificate file
/// (the first of `site_tls_files`) exists: exactly when it does.
pub fn is_secured(cert_file_exists: bool) -> (r: bool)
    ensures
        r == cert_file_exists,
{
    cert_file_exists
}

/// Whether some site of `sites` is named `name`.
fn has_site_named(sites: &Vec<Site>, name: &str) -> (r: bool)
    ensures
        r == site_names(site_views(sites@)).contains(name@),
{
    let ghost names = site_names(site_views(sites@));
    let mut i: usize = 0;
    while i < sites.len()
        invariant
            names == site_names(site_views(sites@)),
            i <= sites.len(),
            forall|k: int| 0 <= k < i ==> names[k] != name@,
        decreases sites.len() - i,
    {
        if text_eq(sites[i].name.as_str(), name) {
            assert(names[i as int] == name@);
            return true;
        }
        i = i + 1;
    }
    false
}

/// Adds a linked site to the sites found so far, unless a site of that name
/// is already among them. Returns whether it was added.
pub fn add_linked_site(sites: &mut Vec<Site>, site: Site) -> (added: bool)
    ensures
        added == !site_names(site_views(old(sites)@)).contains(site@.name),
        site_views(final(sites)@) == if added {
            site_views(old(sites)@).push(site@)
        } else {
            site_views(old(sites)@)
        },
{
    if has_site_named(sites, site.name.as_str()) {
        false
    } else {
        let ghost before = site_views(sites@);
        let ghost v = site@;
        sites.push(site);
        assert(site_views(sites@) =~= before.push(v));
        true
    }
}

/// Adding a linked site never gives two sites the same name when no two had
/// it before, and afterwards some site carries the linked site's name.
pub proof fn law_linked_sites_keep_names_unique(sites: Seq<SiteView>, site: SiteView)
    requires
        site_names(sites).no_duplicates(),
    ensures
        ({
            let after = if site_names(sites).contains(site.name) {
                sites
            } else {
                sites.push(site)
            };
            &&& site_names(after).no_duplicates()
            &&& site_names(after).contains(site.name)
        }),
{
    let names = site_names(sites);
    if !names.contains(site.name) {
        let after = sites.push(site);
        let an = site_names(after);
        assert(an =~= names.push(site.name));
        assert forall|i: int, j: int|
            0 <= i < an.len() && 0 <= j < an.len() && i != j implies an[i] != an[j] by {
            if i < names.len() && j < names.len() {
            } else if i < names.len() {
                assert(names.contains(names[i]));
            } else if j < names.len() {
                assert(names.contains(names[j]));
            }
        }
        assert(an[names.len() as int] == site.name);
    }
}

// ---------------------------------------------------------------------------
// Routing
// ---------------------------------------------------------------------------

/// The position of the last `.` of `f`, or -1.
pub open spec fn last_dot(f: Seq<char>) -> int
    decreases f.len(),
{
    if f.len() == 0 {
        -1
    } else if f.last() == '.' {
        f.len() - 1
    } else {
        last_dot(f.drop_last())
    }
}

/// The extension of the file name `f`, as `Path::extension` gives it: what
/// follows the last `.`, unless that `.` is the first character or absent.
pub open spec fn extension(f: Seq<char>) -> Option<Seq<char>> {
    let i = last_dot(f);
    if i <= 0 {
        None
    } else {
        Some(f.subrange(i + 1, f.len() as int))
    }
}

proof fn lemma_last_dot_at(f: Seq<char>, j: int)
    requires
        -1 <= j < f.len(),
        j >= 0 ==> f[j] == '.',
        forall|k: int| j < k < f.len() ==> f[k] != '.',
    ensures
        last_dot(f) == j,
    decreases f.len(),
{
    if f.len() > 0 && j < f.len() - 1 {
        assert(f.last() == f[f.len() - 1]);
        lemma_last_dot_at(f.drop_last(), j);
    }
}

/// Whether the file name `f` is that of a site's nginx configuration: its
/// extension is `conf`.
pub fn is_site_conf_file(f: &str) -> (r: bool)
    ensures
        r == (extension(f@) == Some("conf"@)),
{
    let cs = chars_of(f);
    let n = cs.len();
    let mut j: usize = n;
    while j > 0 && cs[j - 1] != '.'
        invariant
            cs@ == f@,
            n == cs.len(),
            j <= n,
            forall|k: int| j <= k < n ==> f@[k] != '.',
        decreases j,
    {
        j = j - 1;
    }
    proof {
        lemma_last_dot_at(f@, j - 1);
    }
    if j <= 1 {
        false
    } else {
        text_eq(f.substring_char(j, n), "conf")
    }
}

/// The file name of the nginx configuration of the site `name`.
pub fn site_conf_file_name(name: &str) -> (r: String)
    ensures
        r@ == name@ + ".test.conf"@,
{
    let mut r = name.to_owned();
    r.append(".test.conf");
    r
}

/// The nginx server block of `site`: TLS on when both its certificate `cert`
/// and its key `key` exist (`tls_ready`), PHP passed to the port of its PHP
/// version.
pub fn site_server_config(site: &Site, cert: &str, key: &str, tls_ready: bool) -> (r: String)
    ensures
        r@ == site_block_text(
            if tls_ready {
                site_ssl_text(cert@, key@)
            } else {
                Seq::<char>::empty()
            },
            site.name@,
            site.path@,
            site_php_port(site.php_version@),
        ),
{
    let ssl = if tls_ready {
        render_site_ssl(cert, key)
    } else {
        String::new()
    };
    let port = php_port_for_site(site.php_version.as_str());
    render_site_block(ssl.as_str(), site.name.as_str(), site.path.as_str(), port)
}

// ---------------------------------------------------------------------------
// Outcomes of the site commands
// ---------------------------------------------------------------------------

/// The outcome of linking the directory `path` as the site `name`.
pub fn link_site_logic(path: &str, name: &str) -> (r: String)
    ensures
        r@ == "Linked "@ + name@ + " to "@ + path@,
{
    let mut r = "Linked ".to_owned();
    r.append(name);
    r.append(" to ");
    r.append(path);
    r
}

/// The outcome of unlinking the site `name`, given whether its link exists.
pub fn unlink_site_logic(name: &str, link_exists: bool) -> (r: Result<String, LekStackError>)
    ensures
        link_exists ==> (r matches Ok(m) && m@ == "Unlinked "@ + name@),
        !link_exists ==> (r matches Err(LekStackError::RuntimeError(m)) && m@
            == "Link not found"@),
{
    if link_exists {
        let mut r = "Unlinked ".to_owned();
        r.append(name);
        Ok(r)
    } else {
        Err(LekStackError::RuntimeError("Link not found".to_owned()))
    }
}

/// The outcome of isolating the project at `path` on PHP `version`, given
/// whether the path exists.
pub fn isolate_site_outcome(path: &str, version: &str, path_exists: bool) -> (r: Result<
    String,
    LekStackError,
>)
    ensures
        path_exists ==> (r matches Ok(m) && m@ == "Isolated site at "@ + path@ + " to PHP "@
            + version@),
        !path_exists ==> (r matches Err(LekStackError::RuntimeError(m)) && m@
            == "Path does not exist"@),
{
    if path_exists {
        let mut r = "Isolated site at ".to_owned();
        r.append(path);
        r.append(" to PHP ");
        r.append(version);
        Ok(r)
    } else {
        Err(LekStackError::RuntimeError("Path does not exist".to_owned()))
    }
}

/// The outcome of initialising the project at a path, given whether the
/// path exists.
pub fn init_project_logic(path_exists: bool) -> (r: Result<String, LekStackError>)
    ensures
        path_exists ==> (r matches Ok(m) && m@ == "Project initialized"@),
        !path_exists ==> (r matches Err(LekStackError::RuntimeError(m)) && m@
            == "Path not found"@),
{
    if path_exists {
        Ok("Project initialized".to_owned())
    } else {
        Err(LekStackError::RuntimeError("Path not found".to_owned()))
    }
}

// ---------------------------------------------------------------------------
// Files of a site
// ---------------------------------------------------------------------------

/// The directory of the sites' certificates under the stack's home `base`.
pub fn certs_dir(base: &str) -> (r: String)
    ensures
        r@ == join(base@, "config/certs"@),
{
    path_join(base, "config/certs")
}

/// The certificate and key files of the site `name`.
pub fn site_tls_files(base: &str, name: &str) -> (r: (String, String))
    ensures
        r.0@ == join(join(base@, "config/certs"@), cert_file_name(name@)),
        r.1@ == join(join(base@, "config/certs"@), key_file_name(name@)),
{
    let dir = certs_dir(base);
    let cert = cert_file(name);
    let key = key_file(name);
    (path_join(dir.as_str(), cert.as_str()), path_join(dir.as_str(), key.as_str()))
}

/// The link that serves the site `name` from another directory.
pub fn site_link(base: &str, name: &str) -> (r: String)
    ensures
        r@ == join(join(base@, "valet"@), name@),
{
    let valet = path_join(base, "valet");
    path_join(valet.as_str(), name)
}

/// The nginx configuration file of the site `name`.
pub fn site_conf_path(base: &str, name: &str) -> (r: String)
    ensures
        r@ == join(join(base@, "config/sites"@), name@ + ".test.conf"@),
{
    let sites = path_join(base, "config/sites");
    let file = site_conf_file_name(name);
    path_join(sites.as_str(), file.as_str())
}

/// The sites served: all the sites found in parked directories, in order,
/// then each linked site whose name is not taken yet.
pub open spec fn gathered(parked: Seq<SiteView>, linked: Seq<SiteView>) -> Seq<SiteView>
    decreases linked.len(),
{
    if linked.len() == 0 {
        parked
    } else {
        let prev = gathered(parked, linked.drop_last());
        let s = linked.last();
        if site_names(prev).contains(s.name) {
            prev
        } else {
            prev.push(s)
        }
    }
}

/// Gathers the sites served from those found in parked directories and
/// those linked (in the order the links were found).
pub fn internal_scan_sites(parked: Vec<Site>, linked: Vec<Site>) -> (r: Vec<Site>)
    ensures
        site_views(r@) == gathered(site_views(parked@), site_views(linked@)),
{
    let ghost ps = site_views(parked@);
    let ghost ls = site_views(linked@);
    let n = linked.len();
    let mut sites = parked;
    let mut rest = linked;
    let mut i: usize = 0;
    assert(ls.take(0) =~= Seq::<SiteView>::empty());
    while rest.len() > 0
        invariant
            n == ls.len(),
            ls.len() == i + rest.len(),
            site_views(rest@) == ls.skip(i as int),
            site_views(sites@) == gathered(ps, ls.take(i as int)),
        decreases rest.len(),
    {
        let ghost before = rest@;
        let s = rest.remove(0);
        proof {
            assert(s@ == ls.skip(i as int)[0]);
            assert forall|k: int| 0 <= k < rest@.len() implies #[trigger] site_views(rest@)[k]
                == ls.skip(i + 1)[k] by {
                assert(rest@[k] == before[k + 1]);
                assert(site_views(before)[k + 1] == ls.skip(i as int)[k + 1]);
            }
            assert(site_views(rest@) =~= ls.skip(i + 1));
            assert(ls.take(i + 1).drop_last() =~= ls.take(i as int));
            assert(ls.take(i + 1).last() == ls[i as int]);
        }
        add_linked_site(&mut sites, s);
        i = i + 1;
    }
    assert(ls.take(i as int) =~= ls);
    sites
}

/// Gathering keeps every site found in a parked directory, in order, and
/// gives no two sites the same name when no two parked sites share one.
pub proof fn law_gathered_sites(parked: Seq<SiteView>, linked: Seq<SiteView>)
    ensures
        gathered(parked, linked).len() >= parked.len(),
        forall|i: int| 0 <= i < parked.len() ==> #[trigger] gathered(parked, linked)[i] == parked[i],
        site_names(parked).no_duplicates() ==> site_names(gathered(parked, linked)).no_duplicates(),
        forall|i: int|
            0 <= i < linked.len() ==> site_names(gathered(parked, linked)).contains(
                #[trigger] linked[i].name,
            ),
    decreases linked.len(),
{
    if linked.len() > 0 {
        let init = linked.drop_last();
        law_gathered_sites(parked, init);
        let prev = gathered(parked, init);
        let s = linked.last();
        if site_names(prev).no_duplicates() {
            law_linked_sites_keep_names_unique(prev, s);
        }
        let cur = gathered(parked, linked);
        assert forall|i: int| 0 <= i < parked.len() implies #[trigger] cur[i] == parked[i] by {
            assert(prev[i] == parked[i]);
        }
        assert forall|i: int| 0 <= i < linked.len() implies site_names(cur).contains(
            #[trigger] linked[i].name,
        ) by {
            if i < init.len() {
                assert(init[i] == linked[i]);
                assert(site_names(prev).contains(init[i].name));
                let k = choose|k: int| 0 <= k < site_names(prev).len() && site_names(prev)[k]
                    == init[i].name;
                assert(site_names(cur)[k] == site_names(prev)[k]);
            } else {
                if !site_names(prev).contains(s.name) {
                    assert(site_names(cur)[prev.len() as int] == s.name);
                }
            }
        }
    }
}


/// Gathering takes each site whole: every site served is one found in a
/// parked directory or one linked, with the path, address, security and PHP
/// version it was found with; past the parked sites, every one is a linked
/// site. A linked site whose name no parked site has, and no earlier link
/// has, is served just as it was linked.
pub proof fn law_gathered_sites_are_whole(parked: Seq<SiteView>, linked: Seq<SiteView>)
    ensures
        forall|i: int|
            0 <= i < gathered(parked, linked).len() ==> parked.contains(
                #[trigger] gathered(parked, linked)[i],
            ) || linked.contains(gathered(parked, linked)[i]),
        forall|i: int|
            parked.len() <= i < gathered(parked, linked).len() ==> linked.contains(
                #[trigger] gathered(parked, linked)[i],
            ),
        forall|j: int|
            0 <= j < linked.len() && !site_names(parked).contains(#[trigger] linked[j].name) && (
            forall|k: int| 0 <= k < j ==> linked[k].name != linked[j].name) ==> gathered(
                parked,
                linked,
            ).contains(linked[j]),
    decreases linked.len(),
{
    law_gathered_sites(parked, linked);
    let cur = gathered(parked, linked);
    if linked.len() == 0 {
        assert forall|i: int| 0 <= i < cur.len() implies parked.contains(#[trigger] cur[i])
            || linked.contains(cur[i]) by {
            assert(cur[i] == parked[i]);
        }
    } else {
        let init = linked.drop_last();
        law_gathered_sites_are_whole(parked, init);
        law_gathered_sites(parked, init);
        let prev = gathered(parked, init);
        let s = linked.last();
        assert forall|i: int| parked.len() <= i < cur.len() implies linked.contains(#[trigger] cur[i]) by {
            if i < prev.len() {
                assert(cur[i] == prev[i]);
                assert(init.contains(prev[i]));
                let m = choose|m: int| 0 <= m < init.len() && init[m] == prev[i];
                assert(linked[m] == init[m]);
            } else {
                assert(cur[i] == s);
                assert(linked[linked.len() - 1] == s);
            }
        }
        assert forall|i: int| 0 <= i < cur.len() implies parked.contains(#[trigger] cur[i])
            || linked.contains(cur[i]) by {
            if i < parked.len() {
                assert(cur[i] == parked[i]);
            }
        }
        assert forall|j: int|
            0 <= j < linked.len() && !site_names(parked).contains(#[trigger] linked[j].name) && (
            forall|k: int| 0 <= k < j ==> linked[k].name != linked[j].name) implies cur.contains(
            linked[j],
        ) by {
            if j < init.len() {
                assert(init[j] == linked[j]);
                assert forall|k: int| 0 <= k < j implies init[k].name != init[j].name by {
                    assert(init[k] == linked[k]);
                }
                assert(prev.contains(init[j]));
                let m = choose|m: int| 0 <= m < prev.len() && prev[m] == init[j];
                assert(cur[m] == prev[m]);
            } else {
                if site_names(prev).contains(s.name) {
                    let k = choose|k: int| 0 <= k < site_names(prev).len() && site_names(prev)[k]
                        == s.name;
                    assert(prev[k].name == s.name);
                    if k < parked.len() {
                        assert(prev[k] == parked[k]);
                        assert(site_names(parked)[k] == s.name);
                        assert(false);
                    } else {
                        assert(init.contains(prev[k]));
                        let m = choose|m: int| 0 <= m < init.len() && init[m] == prev[k];
                        assert(linked[m] == init[m]);
                        assert(linked[m].name != linked[j].name);
                        assert(false);
                    }
                }
                assert(cur[prev.len() as int] == s);
            }
        }
    }
}

} // verus!
