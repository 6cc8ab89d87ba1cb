//! Runtimes (PHP, Node, Bun, nginx and the databases): what is downloaded
//! for a version, how each archive is unpacked, which installed versions
//! are listed, and which global commands are linked to a version.

use vstd::prelude::*;
use crate::paths::{join, path_join};
use crate::text::{chars_of, ends_with, has_suffix, starts_with, text_eq, views};

verus! {

broadcast use vstd::seq_lib::to_multiset_build, vstd::seq_lib::to_multiset_insert;

// ---------------------------------------------------------------------------
// Listing installed versions
// ---------------------------------------------------------------------------

/// The code-point lexicographic order on texts, the order `str`'s `Ord`
/// gives (UTF-8 keeps the order of code points).
pub open spec fn text_le(a: Seq<char>, b: Seq<char>) -> bool
    decreases a.len(),
{
    if a.len() == 0 {
        true
    } else if b.len() == 0 {
        false
    } else if a[0] < b[0] {
        true
    } else if a[0] == b[0] {
        text_le(a.drop_first(), b.drop_first())
    } else {
        false
    }
}

/// `v` is in ascending order.
pub open spec fn sorted(v: Seq<Seq<char>>) -> bool {
    forall|i: int, j: int| 0 <= i < j < v.len() ==> text_le(#[trigger] v[i], #[trigger] v[j])
}

/// A directory entry is listed unless it is hidden (starts with `.`).
pub open spec fn is_hidden(name: Seq<char>) -> bool {
    name.len() > 0 && name[0] == '.'
}

/// The entries of `names` that are not hidden, in order.
pub open spec fn visible(names: Seq<Seq<char>>) -> Seq<Seq<char>>
    decreases names.len(),
{
    if names.len() == 0 {
        Seq::empty()
    } else if is_hidden(names.last()) {
        visible(names.drop_last())
    } else {
        visible(names.drop_last()).push(names.last())
    }
}

proof fn lemma_le_total(a: Seq<char>, b: Seq<char>)
    ensures
        text_le(a, b) || text_le(b, a),
    decreases a.len(),
{
    if a.len() > 0 && b.len() > 0 {
        if a[0] == b[0] {
            lemma_le_total(a.drop_first(), b.drop_first());
        } else {
        }
    }
}

proof fn lemma_le_refl(a: Seq<char>)
    ensures
        text_le(a, a),
    decreases a.len(),
{
    if a.len() > 0 {
        lemma_le_refl(a.drop_first());
    }
}

proof fn lemma_le_trans(a: Seq<char>, b: Seq<char>, c: Seq<char>)
    requires
        text_le(a, b),
        text_le(b, c),
    ensures
        text_le(a, c),
    decreases a.len(),
{
    if a.len() > 0 && b.len() > 0 && c.len() > 0 && a[0] == b[0] && b[0] == c[0] {
        lemma_le_trans(a.drop_first(), b.drop_first(), c.drop_first());
    }
}

proof fn lemma_le_common_prefix(a: Seq<char>, b: Seq<char>, i: int)
    requires
        0 <= i <= a.len(),
        i <= b.len(),
        forall|k: int| 0 <= k < i ==> a[k] == b[k],
    ensures
        text_le(a, b) == text_le(a.subrange(i, a.len() as int), b.subrange(i, b.len() as int)),
    decreases i,
{
    if i > 0 {
        lemma_le_common_prefix(a.drop_first(), b.drop_first(), i - 1);
        assert(a.drop_first().subrange(i - 1, a.len() - 1) =~= a.subrange(i, a.len() as int));
        assert(b.drop_first().subrange(i - 1, b.len() - 1) =~= b.subrange(i, b.len() as int));
    } else {
        assert(a.subrange(0, a.len() as int) =~= a);
        assert(b.subrange(0, b.len() as int) =~= b);
    }
}

/// Whether `a` comes before `b` or equals it.
fn le_chars(a: &Vec<char>, b: &Vec<char>) -> (r: bool)
    ensures
        r == text_le(a@, b@),
{
    let mut i: usize = 0;
    while i < a.len() && i < b.len() && a[i] == b[i]
        invariant
            i <= a.len(),
            i <= b.len(),
            forall|k: int| 0 <= k < i ==> a@[k] == b@[k],
        decreases a.len() - i,
    {
        i = i + 1;
    }
    proof {
        lemma_le_common_prefix(a@, b@, i as int);
    }
    if i == a.len() {
        true
    } else if i == b.len() {
        false
    } else {
        proof {
            let ra = a@.subrange(i as int, a.len() as int);
            let rb = b@.subrange(i as int, b.len() as int);
            assert(ra[0] == a@[i as int]);
            assert(rb[0] == b@[i as int]);
        }
        a[i] < b[i]
    }
}

/// Inserts `name` into the ascending `list`, after the entries that do not
/// come after it.
fn insert_sorted(list: &mut Vec<String>, name: String)
    requires
        sorted(views(old(list)@)),
    ensures
        sorted(views(final(list)@)),
        views(final(list)@).to_multiset() == views(old(list)@).to_multiset().insert(name@),
        views(final(list)@).len() == views(old(list)@).len() + 1,
{
    let key = chars_of(name.as_str());
    let ghost vs = views(list@);
    let mut pos: usize = 0;
    while pos < list.len() && le_chars(&chars_of(list[pos].as_str()), &key)
        invariant
            vs == views(list@),
            key@ == name@,
            pos <= list.len(),
            forall|k: int| 0 <= k < pos ==> text_le(vs[k], name@),
        decreases list.len() - pos,
    {
        pos = pos + 1;
    }
    proof {
        if pos < list.len() {
            lemma_le_total(vs[pos as int], name@);
        }
    }
    list.insert(pos, name);
    proof {
        let ws = views(list@);
        assert(ws =~= vs.insert(pos as int, name@));
        assert forall|i: int, j: int| 0 <= i < j < ws.len() implies text_le(
            #[trigger] ws[i],
            #[trigger] ws[j],
        ) by {
            if j < pos {
                assert(ws[i] == vs[i] && ws[j] == vs[j]);
            } else if j == pos {
                assert(ws[i] == vs[i]);
            } else if i == pos {
                assert(ws[j] == vs[j - 1]);
                if j - 1 > pos {
                    lemma_le_trans(name@, vs[pos as int], vs[j - 1]);
                }
            } else if i < pos {
                assert(ws[i] == vs[i] && ws[j] == vs[j - 1]);
            } else {
                assert(ws[i] == vs[i - 1] && ws[j] == vs[j - 1]);
            }
        }
    }
}

/// The installed versions of a runtime, from the names of the
/// sub-directories of its versions directory: hidden ones are left out, the
/// others come in ascending order (as `Vec::sort` orders them).
pub fn installed_versions(dir_names: Vec<String>) -> (r: Vec<String>)
    ensures
        sorted(views(r@)),
        views(r@).to_multiset() == visible(views(dir_names@)).to_multiset(),
{
    let ghost all = views(dir_names@);
    let mut r: Vec<String> = Vec::new();
    let mut i: usize = 0;
    assert(all.take(0) =~= Seq::<Seq<char>>::empty());
    assert(views(r@) =~= Seq::<Seq<char>>::empty());
    while i < dir_names.len()
        invariant
            all == views(dir_names@),
            i <= dir_names.len(),
            sorted(views(r@)),
            views(r@).to_multiset() == visible(all.take(i as int)).to_multiset(),
        decreases dir_names.len() - i,
    {
        proof {
            assert(all.take(i + 1).drop_last() =~= all.take(i as int));
            assert(all.take(i + 1).last() == all[i as int]);
        }
        let ghost before = views(r@);
        if !starts_with(dir_names[i].as_str(), ".") {
            proof {
                reveal_strlit(".");
                if all[i as int].len() > 0 && all[i as int][0] == '.' {
                    assert(all[i as int].subrange(0, 1) =~= "."@);
                }
                assert(!is_hidden(all[i as int]));
                assert(visible(all.take(i + 1)) == visible(all.take(i as int)).push(all[i as int]));
            }
            insert_sorted(&mut r, dir_names[i].clone());
            proof {
                vstd::seq_lib::to_multiset_build(visible(all.take(i as int)), all[i as int]);
            }
        } else {
            proof {
                reveal_strlit(".");
                assert(all[i as int].subrange(0, 1)[0] == all[i as int][0]);
            }
        }
        i = i + 1;
    }
    assert(all.take(dir_names.len() as int) =~= all);
    r
}

/// Two ascending lists with the same entries are equal: the listing of
/// installed versions is determined by the directory's entries alone.
pub proof fn law_sorted_listing_is_unique(a: Seq<Seq<char>>, b: Seq<Seq<char>>)
    requires
        sorted(a),
        sorted(b),
        a.to_multiset() == b.to_multiset(),
    ensures
        a == b,
    decreases a.len(),
{
    broadcast use vstd::seq_lib::group_to_multiset_ensures;

    vstd::seq_lib::to_multiset_len(a);
    vstd::seq_lib::to_multiset_len(b);
    assert(a.len() == a.to_multiset().len());
    assert(b.len() == b.to_multiset().len());
    if a.len() > 0 {
        // the last entries are the greatest, hence equal
        let x = a.last();
        let y = b.last();
        assert(a.to_multiset().count(y) > 0) by {
            assert(b.contains(y)) by {
                assert(b[b.len() - 1] == y);
            }
        }
        assert(b.to_multiset().count(x) > 0) by {
            assert(a[a.len() - 1] == x);
        }
        assert(a.contains(y));
        assert(b.contains(x));
        let i = choose|i: int| 0 <= i < a.len() && a[i] == y;
        let j = choose|j: int| 0 <= j < b.len() && b[j] == x;
        assert(text_le(y, x)) by {
            if i < a.len() - 1 {
                assert(text_le(a[i], a[a.len() - 1]));
            } else {
                lemma_le_refl(x);
            }
        }
        assert(text_le(x, y)) by {
            if j < b.len() - 1 {
                assert(text_le(b[j], b[b.len() - 1]));
            } else {
                lemma_le_refl(y);
            }
        }
        lemma_le_antisym(x, y);
        let a2 = a.drop_last();
        let b2 = b.drop_last();
        assert(a =~= a2.push(x));
        assert(b =~= b2.push(y));
        assert(a2.to_multiset() =~= b2.to_multiset()) by {
            broadcast use vstd::multiset::group_multiset_axioms;

            vstd::seq_lib::to_multiset_build(a2, x);
            vstd::seq_lib::to_multiset_build(b2, y);
            assert(a.to_multiset() == a2.to_multiset().insert(x));
            assert(b.to_multiset() == b2.to_multiset().insert(x));
            assert forall|z: Seq<char>| a2.to_multiset().count(z) == b2.to_multiset().count(z) by {
                assert(a2.to_multiset().insert(x).count(z) == b2.to_multiset().insert(x).count(z));
                if z == x {
                    assert(a2.to_multiset().insert(x).count(z) == a2.to_multiset().count(z) + 1);
                    assert(b2.to_multiset().insert(x).count(z) == b2.to_multiset().count(z) + 1);
                } else {
                    assert(a2.to_multiset().insert(x).count(z) == a2.to_multiset().count(z));
                    assert(b2.to_multiset().insert(x).count(z) == b2.to_multiset().count(z));
                }
            }
        }
        law_sorted_listing_is_unique(a2, b2);
    } else {
        assert(b.len() == 0);
        assert(a =~= b);
    }
}

proof fn lemma_le_antisym(a: Seq<char>, b: Seq<char>)
    requires
        text_le(a, b),
        text_le(b, a),
    ensures
        a == b,
    decreases a.len(),
{
    if a.len() > 0 && b.len() > 0 {
        if a[0] != b[0] {
        }
        lemma_le_antisym(a.drop_first(), b.drop_first());
        assert(a =~= seq![a[0]] + a.drop_first());
        assert(b =~= seq![b[0]] + b.drop_first());
    } else {
        assert(a =~= b);
    }
}

// ---------------------------------------------------------------------------
// Downloads
// ---------------------------------------------------------------------------

/// An archive to download: where from, and the file name it is saved as in
/// the version's directory.
pub struct Download {
    pub url: String,
    pub archive: String,
}

impl View for Download {
    type V = (Seq<char>, Seq<char>);

    open spec fn view(&self) -> (Seq<char>, Seq<char>) {
        (self.url@, self.archive@)
    }
}

/// The full release of PHP that a short version name stands for.
pub open spec fn php_release(version: Seq<char>) -> Seq<char> {
    if version == "8.2"@ {
        "8.2.30"@
    } else if version == "8.3"@ {
        "8.3.30"@
    } else if version == "8.4"@ {
        "8.4.17"@
    } else if version == "8.5"@ {
        "8.5.2"@
    } else {
        version
    }
}

pub const MARIADB_URL: &'static str = "https://archive.mariadb.org/mariadb-11.4.4/bintar-linux-systemd-x86_64/mariadb-11.4.4-linux-systemd-x86_64.tar.gz";
pub const POSTGRES_URL: &'static str = "https://repo1.maven.org/maven2/io/zonky/test/postgres/embedded-postgres-binaries-linux-amd64/17.3.0/embedded-postgres-binaries-linux-amd64-17.3.0.jar";
pub const REDIS_URL: &'static str = "https://repo1.maven.org/maven2/com/github/lansheng228/embedded-redis/7.4.1/embedded-redis-7.4.1.jar";

/// What is downloaded to install `version` of `runtime`, in order; `None`
/// for a runtime the stack does not install.
pub open spec fn downloads_of(runtime: Seq<char>, version: Seq<char>) -> Option<
    Seq<(Seq<char>, Seq<char>)>,
> {
    if runtime == "node"@ {
        Some(
            seq![
                (
                    "https://nodejs.org/dist/v"@ + version + "/node-v"@ + version
                        + "-linux-x64.tar.xz"@,
                    "archive.tar.xz"@,
                ),
            ],
        )
    } else if runtime == "bun"@ {
        Some(
            seq![
                (
                    "https://github.com/oven-sh/bun/releases/download/bun-v"@ + version
                        + "/bun-linux-x64.zip"@,
                    "archive.zip"@,
                ),
            ],
        )
    } else if runtime == "php"@ {
        Some(
            seq![
                (
                    "https://dl.static-php.dev/static-php-cli/bulk/php-"@ + php_release(version)
                        + "-cli-linux-x86_64.tar.gz"@,
                    "php-cli.tar.gz"@,
                ),
                (
                    "https://dl.static-php.dev/static-php-cli/bulk/php-"@ + php_release(version)
                        + "-fpm-linux-x86_64.tar.gz"@,
                    "php-fpm.tar.gz"@,
                ),
            ],
        )
    } else if runtime == "nginx"@ {
        Some(
            seq![
                (
                    "https://github.com/jirutka/nginx-binaries/releases/download/"@ + version
                        + "/nginx-"@ + version + "-x86_64-linux.tar.gz"@,
                    "archive.tar.gz"@,
                ),
            ],
        )
    } else if runtime == "mariadb"@ {
        Some(seq![(MARIADB_URL@, "mariadb.tar.gz"@)])
    } else if runtime == "postgresql"@ {
        Some(seq![(POSTGRES_URL@, "postgres.jar"@)])
    } else if runtime == "redis"@ {
        Some(seq![(REDIS_URL@, "redis.jar"@)])
    } else {
        None
    }
}

/// The full release of PHP that `version` stands for.
pub fn php_release_of(version: &str) -> (r: String)
    ensures
        r@ == php_release(version@),
{
    if text_eq(version, "8.2") {
        "8.2.30".to_owned()
    } else if text_eq(version, "8.3") {
        "8.3.30".to_owned()
    } else if text_eq(version, "8.4") {
        "8.4.17".to_owned()
    } else if text_eq(version, "8.5") {
        "8.5.2".to_owned()
    } else {
        version.to_owned()
    }
}

/// `a + b + c + d + e`.
fn concat5(a: &str, b: &str, c: &str, d: &str, e: &str) -> (r: String)
    ensures
        r@ == a@ + b@ + c@ + d@ + e@,
{
    let mut r = a.to_owned();
    r.append(b);
    r.append(c);
    r.append(d);
    r.append(e);
    r
}

/// One download.
fn download(url: String, archive: &str) -> (d: Download)
    ensures
        d@ == (url@, archive@),
{
    Download { url, archive: archive.to_owned() }
}

/// What is downloaded to install `version` of `runtime`.
pub fn runtime_downloads(runtime: &str, version: &str) -> (r: Option<Vec<Download>>)
    ensures
        match (r, downloads_of(runtime@, version@)) {
            (Some(v), Some(d)) => v@.map_values(|x: Download| x@) == d,
            (None, None) => true,
            _ => false,
        },
{
    let r: Option<Vec<Download>> = if text_eq(runtime, "node") {
        Some(
            vec![
                download(
                    concat5(
                        "https://nodejs.org/dist/v",
                        version,
                        "/node-v",
                        version,
                        "-linux-x64.tar.xz",
                    ),
                    "archive.tar.xz",
                ),
            ],
        )
    } else if text_eq(runtime, "bun") {
        Some(
            vec![
                download(
                    concat5(
                        "https://github.com/oven-sh/bun/releases/download/bun-v",
                        version,
                        "/bun-linux-x64.zip",
                        "",
                        "",
                    ),
                    "archive.zip",
                ),
            ],
        )
    } else if text_eq(runtime, "php") {
        let release = php_release_of(version);
        Some(
            vec![
                download(
                    concat5(
                        "https://dl.static-php.dev/static-php-cli/bulk/php-",
                        release.as_str(),
                        "-cli-linux-x86_64.tar.gz",
                        "",
                        "",
                    ),
                    "php-cli.tar.gz",
                ),
                download(
                    concat5(
                        "https://dl.static-php.dev/static-php-cli/bulk/php-",
                        release.as_str(),
                        "-fpm-linux-x86_64.tar.gz",
                        "",
                        "",
                    ),
                    "php-fpm.tar.gz",
                ),
            ],
        )
    } else if text_eq(runtime, "nginx") {
        Some(
            vec![
                download(
                    concat5(
                        "https://github.com/jirutka/nginx-binaries/releases/download/",
                        version,
                        "/nginx-",
                        version,
                        "-x86_64-linux.tar.gz",
                    ),
                    "archive.tar.gz",
                ),
            ],
        )
    } else if text_eq(runtime, "mariadb") {
        Some(vec![download(MARIADB_URL.to_owned(), "mariadb.tar.gz")])
    } else if text_eq(runtime, "postgresql") {
        Some(vec![download(POSTGRES_URL.to_owned(), "postgres.jar")])
    } else if text_eq(runtime, "redis") {
        Some(vec![download(REDIS_URL.to_owned(), "redis.jar")])
    } else {
        None
    };
    proof {
        reveal_strlit("");
        if r is Some {
            assert(r->0@.map_values(|x: Download| x@) =~= downloads_of(runtime@, version@)->0);
        }
    }
    r
}

// ---------------------------------------------------------------------------
// Unpacking
// ---------------------------------------------------------------------------

/// How a downloaded archive is unpacked into the version's directory.
pub enum ExtractPlan {
    /// `unzip` it.
    Unzip,
    /// `unzip` the jar, then unpack the `.txz` found inside (or, for Redis,
    /// move the programs it holds into place).
    Jar,
    /// `tar -xf` it, dropping the top directory when `strip_top` holds.
    Untar { strip_top: bool },
}

/// How the archive `archive` of `runtime` is unpacked.
pub open spec fn extract_plan_of(runtime: Seq<char>, archive: Seq<char>) -> ExtractPlan {
    if has_suffix(archive, ".zip"@) {
        ExtractPlan::Unzip
    } else if has_suffix(archive, ".jar"@) {
        ExtractPlan::Jar
    } else {
        ExtractPlan::Untar {
            strip_top: runtime == "node"@ || runtime == "nginx"@ || runtime == "mariadb"@,
        }
    }
}

/// How the archive `archive` of `runtime` is unpacked.
pub fn extract_plan(runtime: &str, archive: &str) -> (r: ExtractPlan)
    ensures
        r == extract_plan_of(runtime@, archive@),
{
    if ends_with(archive, ".zip") {
        ExtractPlan::Unzip
    } else if ends_with(archive, ".jar") {
        ExtractPlan::Jar
    } else {
        ExtractPlan::Untar {
            strip_top: text_eq(runtime, "node") || text_eq(runtime, "nginx") || text_eq(
                runtime,
                "mariadb",
            ),
        }
    }
}

/// The arguments of `tar` that unpack `archive` into `dest`.
pub fn tar_args(archive: &str, dest: &str, strip_top: bool) -> (r: Vec<String>)
    ensures
        views(r@) == if strip_top {
            seq!["-xf"@, archive@, "-C"@, dest@, "--strip-components=1"@]
        } else {
            seq!["-xf"@, archive@, "-C"@, dest@]
        },
{
    let mut r = vec!["-xf".to_owned(), archive.to_owned(), "-C".to_owned(), dest.to_owned()];
    if strip_top {
        r.push("--strip-components=1".to_owned());
        assert(views(r@) =~= seq!["-xf"@, archive@, "-C"@, dest@, "--strip-components=1"@]);
    } else {
        assert(views(r@) =~= seq!["-xf"@, archive@, "-C"@, dest@]);
    }
    r
}

/// The arguments of `unzip` that unpack `archive` into `dest`.
pub fn unzip_args(archive: &str, dest: &str) -> (r: Vec<String>)
    ensures
        views(r@) == seq![archive@, "-d"@, dest@],
{
    let r = vec![archive.to_owned(), "-d".to_owned(), dest.to_owned()];
    assert(views(r@) =~= seq![archive@, "-d"@, dest@]);
    r
}

/// A file moved into place after unpacking.
pub struct Relocation {
    pub from: String,
    pub to: String,
}

impl View for Relocation {
    type V = (Seq<char>, Seq<char>);

    open spec fn view(&self) -> (Seq<char>, Seq<char>) {
        (self.from@, self.to@)
    }
}

/// The moves that put a file `name` of the version directory `dir` into
/// its sub-directory `sub` as `target`.
fn relocation(dir: &str, name: &str, sub: &str, target: &str) -> (r: Relocation)
    ensures
        r@ == (join(dir@, name@), join(join(dir@, sub@), target@)),
{
    let sub_dir = path_join(dir, sub);
    Relocation { from: path_join(dir, name), to: path_join(sub_dir.as_str(), target) }
}

/// The files moved into place once PHP is unpacked into `dir`.
pub fn php_relocations(dir: &str) -> (r: Vec<Relocation>)
    ensures
        r@.map_values(|x: Relocation| x@) == seq![
            (join(dir@, "php"@), join(join(dir@, "bin"@), "php"@)),
            (join(dir@, "php-fpm"@), join(join(dir@, "sbin"@), "php-fpm"@)),
        ],
{
    let r = vec![relocation(dir, "php", "bin", "php"), relocation(dir, "php-fpm", "sbin", "php-fpm")];
    assert(r@.map_values(|x: Relocation| x@) =~= seq![
        (join(dir@, "php"@), join(join(dir@, "bin"@), "php"@)),
        (join(dir@, "php-fpm"@), join(join(dir@, "sbin"@), "php-fpm"@)),
    ]);
    r
}

/// The files moved into place once the Redis jar is unpacked into `dir`.
pub fn redis_relocations(dir: &str) -> (r: Vec<Relocation>)
    ensures
        r@.map_values(|x: Relocation| x@) == seq![
            (
                join(dir@, "redis-server-7.4.1-linux-amd64"@),
                join(join(dir@, "bin"@), "redis-server"@),
            ),
            (join(dir@, "redis-cli-7.4.1-linux-amd64"@), join(join(dir@, "bin"@), "redis-cli"@)),
        ],
{
    let r = vec![
        relocation(dir, "redis-server-7.4.1-linux-amd64", "bin", "redis-server"),
        relocation(dir, "redis-cli-7.4.1-linux-amd64", "bin", "redis-cli"),
    ];
    assert(r@.map_values(|x: Relocation| x@) =~= seq![
        (
            join(dir@, "redis-server-7.4.1-linux-amd64"@),
            join(join(dir@, "bin"@), "redis-server"@),
        ),
        (join(dir@, "redis-cli-7.4.1-linux-amd64"@), join(join(dir@, "bin"@), "redis-cli"@)),
    ]);
    r
}

// ---------------------------------------------------------------------------
// Global commands
// ---------------------------------------------------------------------------

/// A command of the stack's `bin` directory linked to a program of an
/// installed version.
pub struct ShimLink {
    pub source: String,
    pub target: String,
}

impl View for ShimLink {
    type V = (Seq<char>, Seq<char>);

    open spec fn view(&self) -> (Seq<char>, Seq<char>) {
        (self.source@, self.target@)
    }
}

/// The commands linked for `runtime`, from the version directory `dir`
/// into the stack's `bin`.
pub open spec fn shims_of(runtime: Seq<char>, dir: Seq<char>, bin: Seq<char>) -> Seq<
    (Seq<char>, Seq<char>),
> {
    if runtime == "php"@ {
        seq![(join(dir, "bin/php"@), join(bin, "php"@))]
    } else if runtime == "node"@ {
        seq![
            (join(join(dir, "bin"@), "node"@), join(bin, "node"@)),
            (join(join(dir, "bin"@), "npm"@), join(bin, "npm"@)),
            (join(join(dir, "bin"@), "npx"@), join(bin, "npx"@)),
        ]
    } else if runtime == "bun"@ {
        seq![(join(dir, "bun"@), join(bin, "bun"@)), (join(dir, "bun"@), join(bin, "bunx"@))]
    } else {
        Seq::empty()
    }
}

fn shim(source: String, bin: &str, name: &str) -> (r: ShimLink)
    ensures
        r@ == (source@, join(bin@, name@)),
{
    ShimLink { source, target: path_join(bin, name) }
}

/// The commands linked for `runtime`. For PHP the program must exist; for
/// the others a missing program is skipped.
pub fn shim_links(runtime: &str, dir: &str, bin: &str) -> (r: Vec<ShimLink>)
    ensures
        r@.map_values(|x: ShimLink| x@) == shims_of(runtime@, dir@, bin@),
{
    if text_eq(runtime, "php") {
        let r = vec![shim(path_join(dir, "bin/php"), bin, "php")];
        assert(r@.map_values(|x: ShimLink| x@) =~= shims_of(runtime@, dir@, bin@));
        r
    } else if text_eq(runtime, "node") {
        let programs = path_join(dir, "bin");
        let r = vec![
            shim(path_join(programs.as_str(), "node"), bin, "node"),
            shim(path_join(programs.as_str(), "npm"), bin, "npm"),
            shim(path_join(programs.as_str(), "npx"), bin, "npx"),
        ];
        assert(r@.map_values(|x: ShimLink| x@) =~= shims_of(runtime@, dir@, bin@));
        r
    } else if text_eq(runtime, "bun") {
        let r = vec![shim(path_join(dir, "bun"), bin, "bun"), shim(path_join(dir, "bun"), bin, "bunx")];
        assert(r@.map_values(|x: ShimLink| x@) =~= shims_of(runtime@, dir@, bin@));
        r
    } else {
        let r: Vec<ShimLink> = Vec::new();
        assert(r@.map_values(|x: ShimLink| x@) =~= shims_of(runtime@, dir@, bin@));
        r
    }
}

/// Whether the commands of `runtime` are PHP's: its program must exist
/// (else "PHP binary not found"), and composer is set up with it.
pub fn shims_are_php(runtime: &str) -> (r: bool)
    ensures
        r == (runtime@ == "php"@),
{
    text_eq(runtime, "php")
}

/// What is answered when `version` of `runtime` is not installed.
pub fn not_installed_message(runtime: &str, version: &str) -> (r: String)
    ensures
        r@ == "Version "@ + runtime@ + " v"@ + version@ + " is not installed."@,
{
    concat5("Version ", runtime, " v", version, " is not installed.")
}

/// The directories of the stack's home, created on first start.
pub fn required_directories() -> (r: Vec<&'static str>)
    ensures
        r@.map_values(|s: &str| s@) == seq![
            "bin"@,
            "config"@,
            "logs"@,
            "pids"@,
            "valet"@,
            "versions"@,
            "data"@,
        ],
{
    let r = vec!["bin", "config", "logs", "pids", "valet", "versions", "data"];
    assert(r@.map_values(|s: &str| s@) =~= seq![
        "bin"@,
        "config"@,
        "logs"@,
        "pids"@,
        "valet"@,
        "versions"@,
        "data"@,
    ]);
    r
}

} // verus!
