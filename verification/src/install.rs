//! Installing a runtime version: the decisions between the steps that
//! touch the network and the disk, as a state machine. The caller performs
//! each action and hands back what came of it.

use vstd::prelude::*;
use crate::runtime::{downloads_of, extract_plan, extract_plan_of, runtime_downloads, Download, ExtractPlan};
use crate::text::{ends_with, has_suffix, text_eq, views};

verus! {

/// How a command that the caller ran turned out.
pub enum RunOutcome {
    /// It could not be run at all (the caller keeps the error).
    Failed,
    /// It ran and reported failure.
    Unsuccessful,
    /// It ran and reported success.
    Succeeded,
}

/// What the caller reports after performing an action.
pub enum InstallEvent {
    /// Whether the version directory already exists.
    Checked(bool),
    /// Whether the download succeeded (the caller keeps the error).
    Fetched(bool),
    /// How the command of the last action turned out.
    Ran(RunOutcome),
    /// The names of the files in the version directory.
    Listed(Vec<String>),
}

/// The content of an event.
pub enum InstallEventView {
    Checked(bool),
    Fetched(bool),
    Ran(RunOutcome),
    Listed(Seq<Seq<char>>),
}

impl View for InstallEvent {
    type V = InstallEventView;

    open spec fn view(&self) -> InstallEventView {
        match self {
            InstallEvent::Checked(b) => InstallEventView::Checked(*b),
            InstallEvent::Fetched(b) => InstallEventView::Fetched(*b),
            InstallEvent::Ran(o) => InstallEventView::Ran(*o),
            InstallEvent::Listed(names) => InstallEventView::Listed(views(names@)),
        }
    }
}

/// How an installation ends.
pub enum InstallReply {
    AlreadyInstalled,
    Installed,
    UnsupportedRuntime,
    ExtractionFailed,
    JarUnzipFailed,
    NoTxzInJar,
    /// The last step failed; its error is the answer.
    StepFailed,
}

/// What the caller is asked to do next.
pub enum InstallAction {
    /// Stop and answer.
    Reply(InstallReply),
    /// Create the version directory.
    CreateVersionDir,
    /// Download archive `i` into the version directory.
    Fetch(usize),
    /// `unzip` archive `i`.
    Unzip(usize),
    /// `unzip` the jar archive `i`.
    UnzipJar(usize),
    /// `tar -xf` archive `i`, dropping its top directory when the flag holds.
    Untar(usize, bool),
    /// List the files of the version directory.
    ListVersionDir,
    /// `tar -xf` the listed file `k`.
    UntarListed(usize),
    /// Move the Redis programs into place.
    RelocateRedis,
    /// Delete archive `i`.
    RemoveArchive(usize),
    /// Move the PHP programs into place.
    RelocatePhp,
}

/// Where an installation stands.
pub enum InstallState {
    Begin,
    Creating,
    Fetching(usize),
    Unpacking(usize),
    UnzippingJar(usize),
    Listing(usize),
    Cleaning(usize),
    Relocating,
    Done,
}

/// The installation of one version of one runtime.
pub struct Installer {
    pub runtime: String,
    pub downloads: Option<Vec<Download>>,
}

/// The content of an installation.
pub struct InstallerView {
    pub runtime: Seq<char>,
    pub downloads: Option<Seq<(Seq<char>, Seq<char>)>>,
}

impl View for Installer {
    type V = InstallerView;

    open spec fn view(&self) -> InstallerView {
        InstallerView {
            runtime: self.runtime@,
            downloads: match self.downloads {
                Some(d) => Some(d@.map_values(|x: Download| x@)),
                None => None,
            },
        }
    }
}

/// The number of archives to install.
pub open spec fn archive_count(inst: InstallerView) -> int {
    match inst.downloads {
        Some(d) => d.len() as int,
        None => 0,
    }
}

/// The first of `names` that ends with `.txz`.
pub open spec fn first_txz(names: Seq<Seq<char>>) -> Option<int>
    decreases names.len(),
{
    if names.len() == 0 {
        None
    } else {
        match first_txz(names.drop_last()) {
            Some(k) => Some(k),
            None => if has_suffix(names.last(), ".txz"@) {
                Some(names.len() - 1)
            } else {
                None
            },
        }
    }
}

/// Fetch archive `i`, or, when all are unpacked, finish: PHP's programs
/// are moved into place first.
pub open spec fn after_archive(inst: InstallerView, i: int) -> (InstallState, InstallAction) {
    if i < archive_count(inst) {
        (InstallState::Fetching(i as usize), InstallAction::Fetch(i as usize))
    } else if inst.runtime == "php"@ {
        (InstallState::Relocating, InstallAction::RelocatePhp)
    } else {
        (InstallState::Done, InstallAction::Reply(InstallReply::Installed))
    }
}

/// Unpack archive `i` as its kind asks.
pub open spec fn unpack(inst: InstallerView, i: int) -> (InstallState, InstallAction) {
    match extract_plan_of(inst.runtime, inst.downloads->0[i].1) {
        ExtractPlan::Unzip => (InstallState::Unpacking(i as usize), InstallAction::Unzip(i as usize)),
        ExtractPlan::Jar => (
            InstallState::UnzippingJar(i as usize),
            InstallAction::UnzipJar(i as usize),
        ),
        ExtractPlan::Untar { strip_top } => (
            InstallState::Unpacking(i as usize),
            InstallAction::Untar(i as usize, strip_top),
        ),
    }
}

/// The state is consistent with the installation: its archive index is in
/// range and the runtime is supported wherever an archive is involved.
pub open spec fn state_ok(inst: InstallerView, st: InstallState) -> bool {
    match st {
        InstallState::Fetching(i) | InstallState::Unpacking(i) | InstallState::UnzippingJar(i)
        | InstallState::Listing(i) | InstallState::Cleaning(i) => inst.downloads is Some && i
            < archive_count(inst),
        InstallState::Relocating => inst.runtime == "php"@,
        _ => true,
    }
}

/// The event answers the action that led to the state.
pub open spec fn event_fits(st: InstallState, ev: InstallEventView) -> bool {
    match st {
        InstallState::Begin => ev is Checked,
        InstallState::Fetching(_) => ev is Fetched,
        InstallState::Listing(_) => ev is Listed,
        InstallState::Done => false,
        _ => ev is Ran,
    }
}

/// The next state and action of the installation `inst` in state `st`
/// once `ev` happened.
pub open spec fn install_next(inst: InstallerView, st: InstallState, ev: InstallEventView) -> (
    InstallState,
    InstallAction,
) {
    let fail = (InstallState::Done, InstallAction::Reply(InstallReply::StepFailed));
    match (st, ev) {
        (InstallState::Begin, InstallEventView::Checked(exists)) => if exists {
            (InstallState::Done, InstallAction::Reply(InstallReply::AlreadyInstalled))
        } else {
            (InstallState::Creating, InstallAction::CreateVersionDir)
        },
        (InstallState::Creating, InstallEventView::Ran(o)) => if o == RunOutcome::Failed {
            fail
        } else if inst.downloads is None {
            (InstallState::Done, InstallAction::Reply(InstallReply::UnsupportedRuntime))
        } else {
            after_archive(inst, 0)
        },
        (InstallState::Fetching(i), InstallEventView::Fetched(ok)) => if ok {
            unpack(inst, i as int)
        } else {
            fail
        },
        (InstallState::Unpacking(i), InstallEventView::Ran(o)) => match o {
            RunOutcome::Failed => fail,
            RunOutcome::Unsuccessful => (
                InstallState::Done,
                InstallAction::Reply(InstallReply::ExtractionFailed),
            ),
            RunOutcome::Succeeded => (InstallState::Cleaning(i), InstallAction::RemoveArchive(i)),
        },
        (InstallState::UnzippingJar(i), InstallEventView::Ran(o)) => match o {
            RunOutcome::Failed => fail,
            RunOutcome::Unsuccessful => (
                InstallState::Done,
                InstallAction::Reply(InstallReply::JarUnzipFailed),
            ),
            RunOutcome::Succeeded => (InstallState::Listing(i), InstallAction::ListVersionDir),
        },
        (InstallState::Listing(i), InstallEventView::Listed(names)) => match first_txz(names) {
            Some(k) => (InstallState::Unpacking(i), InstallAction::UntarListed(k as usize)),
            None => if inst.runtime == "redis"@ {
                (InstallState::Unpacking(i), InstallAction::RelocateRedis)
            } else {
                (InstallState::Done, InstallAction::Reply(InstallReply::NoTxzInJar))
            },
        },
        (InstallState::Cleaning(i), InstallEventView::Ran(_)) => after_archive(inst, i + 1),
        (InstallState::Relocating, InstallEventView::Ran(_)) => (
            InstallState::Done,
            InstallAction::Reply(InstallReply::Installed),
        ),
        _ => fail,
    }
}

impl Installer {
    /// The installation of `version` of `runtime`.
    pub fn new(runtime: &str, version: &str) -> (inst: Installer)
        ensures
            inst@.runtime == runtime@,
            inst@.downloads == downloads_of(runtime@, version@),
    {
        let downloads = runtime_downloads(runtime, version);
        Installer { runtime: runtime.to_owned(), downloads }
    }

    /// The archive `i` of the installation.
    pub fn archive(&self, i: usize) -> (d: &Download)
        requires
            i < archive_count(self@),
        ensures
            d@ == self@.downloads->0[i as int],
    {
        match &self.downloads {
            Some(v) => &v[i],
            None => {
                proof {
                    assert(false);
                }
                &self.downloads.as_ref().unwrap()[i]
            },
        }
    }

    /// The number of archives of the installation.
    pub fn archive_total(&self) -> (n: usize)
        ensures
            n == archive_count(self@),
    {
        match &self.downloads {
            Some(v) => v.len(),
            None => 0,
        }
    }

    fn next_archive(&self, i: usize) -> (r: (InstallState, InstallAction))
        requires
            i <= archive_count(self@),
            self@.downloads is Some,
        ensures
            r == after_archive(self@, i as int),
    {
        let n = match &self.downloads {
            Some(v) => v.len(),
            None => 0,
        };
        if i < n {
            (InstallState::Fetching(i), InstallAction::Fetch(i))
        } else if text_eq(self.runtime.as_str(), "php") {
            (InstallState::Relocating, InstallAction::RelocatePhp)
        } else {
            (InstallState::Done, InstallAction::Reply(InstallReply::Installed))
        }
    }

    fn unpack(&self, i: usize) -> (r: (InstallState, InstallAction))
        requires
            self@.downloads is Some,
            i < archive_count(self@),
        ensures
            r == unpack(self@, i as int),
    {
        let d = self.archive(i);
        match extract_plan(self.runtime.as_str(), d.archive.as_str()) {
            ExtractPlan::Unzip => (InstallState::Unpacking(i), InstallAction::Unzip(i)),
            ExtractPlan::Jar => (InstallState::UnzippingJar(i), InstallAction::UnzipJar(i)),
            ExtractPlan::Untar { strip_top } => (
                InstallState::Unpacking(i),
                InstallAction::Untar(i, strip_top),
            ),
        }
    }

    /// The next state and action once `ev` happened in state `st`.
    pub fn step(&self, st: InstallState, ev: InstallEvent) -> (r: (InstallState, InstallAction))
        requires
            state_ok(self@, st),
            event_fits(st, ev@),
        ensures
            r == install_next(self@, st, ev@),
            state_ok(self@, r.0),
    {
        match (st, ev) {
            (InstallState::Begin, InstallEvent::Checked(exists)) => if exists {
                (InstallState::Done, InstallAction::Reply(InstallReply::AlreadyInstalled))
            } else {
                (InstallState::Creating, InstallAction::CreateVersionDir)
            },
            (InstallState::Creating, InstallEvent::Ran(o)) => match o {
                RunOutcome::Failed => (InstallState::Done, InstallAction::Reply(InstallReply::StepFailed)),
                _ => if self.downloads.is_none() {
                    (InstallState::Done, InstallAction::Reply(InstallReply::UnsupportedRuntime))
                } else {
                    self.next_archive(0)
                },
            },
            (InstallState::Fetching(i), InstallEvent::Fetched(ok)) => if ok {
                self.unpack(i)
            } else {
                (InstallState::Done, InstallAction::Reply(InstallReply::StepFailed))
            },
            (InstallState::Unpacking(i), InstallEvent::Ran(o)) => match o {
                RunOutcome::Failed => (InstallState::Done, InstallAction::Reply(InstallReply::StepFailed)),
                RunOutcome::Unsuccessful => (
                    InstallState::Done,
                    InstallAction::Reply(InstallReply::ExtractionFailed),
                ),
                RunOutcome::Succeeded => (InstallState::Cleaning(i), InstallAction::RemoveArchive(i)),
            },
            (InstallState::UnzippingJar(i), InstallEvent::Ran(o)) => match o {
                RunOutcome::Failed => (InstallState::Done, InstallAction::Reply(InstallReply::StepFailed)),
                RunOutcome::Unsuccessful => (
                    InstallState::Done,
                    InstallAction::Reply(InstallReply::JarUnzipFailed),
                ),
                RunOutcome::Succeeded => (InstallState::Listing(i), InstallAction::ListVersionDir),
            },
            (InstallState::Listing(i), InstallEvent::Listed(names)) => match find_txz(&names) {
                Some(k) => (InstallState::Unpacking(i), InstallAction::UntarListed(k)),
                None => if text_eq(self.runtime.as_str(), "redis") {
                    (InstallState::Unpacking(i), InstallAction::RelocateRedis)
                } else {
                    (InstallState::Done, InstallAction::Reply(InstallReply::NoTxzInJar))
                },
            },
            (InstallState::Cleaning(i), InstallEvent::Ran(_)) => {
                let n = self.archive_total();
                assert(i < n);
                self.next_archive(i + 1)
            },
            (InstallState::Relocating, InstallEvent::Ran(_)) => (
                InstallState::Done,
                InstallAction::Reply(InstallReply::Installed),
            ),
            _ => (InstallState::Done, InstallAction::Reply(InstallReply::StepFailed)),
        }
    }
}

/// The first of `names` that ends with `.txz`.
pub fn find_txz(names: &Vec<String>) -> (r: Option<usize>)
    ensures
        match first_txz(views(names@)) {
            Some(k) => r == Some(k as usize),
            None => r is None,
        },
{
    let ghost all = views(names@);
    let mut i: usize = 0;
    assert(all.take(0) =~= Seq::<Seq<char>>::empty());
    while i < names.len()
        invariant
            all == views(names@),
            i <= names.len(),
            first_txz(all.take(i as int)) is None,
        decreases names.len() - i,
    {
        proof {
            assert(all.take(i + 1).drop_last() =~= all.take(i as int));
            assert(all.take(i + 1).last() == all[i as int]);
        }
        if ends_with(names[i].as_str(), ".txz") {
            proof {
                lemma_first_txz_prefix(all, i as int + 1);
            }
            return Some(i);
        }
        i = i + 1;
    }
    assert(all.take(names.len() as int) =~= all);
    None
}

proof fn lemma_first_txz_prefix(all: Seq<Seq<char>>, m: int)
    requires
        0 <= m <= all.len(),
        first_txz(all.take(m)) is Some,
    ensures
        first_txz(all) == first_txz(all.take(m)),
    decreases all.len() - m,
{
    if m < all.len() {
        assert(all.take(m + 1).drop_last() =~= all.take(m));
        lemma_first_txz_prefix(all, m + 1);
    } else {
        assert(all.take(m) =~= all);
    }
}

impl InstallReply {
    /// The answer of an installation that ended so; `last_error` is the
    /// error of the step that failed.
    pub fn answer(&self, last_error: &str) -> (r: Result<String, String>)
        ensures
            match (self, r) {
                (InstallReply::AlreadyInstalled, Ok(m)) => m@ == "Version already installed"@,
                (InstallReply::Installed, Ok(m)) => m@ == "Installation successful"@,
                (InstallReply::UnsupportedRuntime, Err(m)) => m@ == "Unsupported runtime"@,
                (InstallReply::ExtractionFailed, Err(m)) => m@ == "Extraction failed"@,
                (InstallReply::JarUnzipFailed, Err(m)) => m@ == "Failed to unzip jar"@,
                (InstallReply::NoTxzInJar, Err(m)) => m@ == "No txz found in jar"@,
                (InstallReply::StepFailed, Err(m)) => m@ == last_error@,
                _ => false,
            },
    {
        match self {
            InstallReply::AlreadyInstalled => Ok("Version already installed".to_owned()),
            InstallReply::Installed => Ok("Installation successful".to_owned()),
            InstallReply::UnsupportedRuntime => Err("Unsupported runtime".to_owned()),
            InstallReply::ExtractionFailed => Err("Extraction failed".to_owned()),
            InstallReply::JarUnzipFailed => Err("Failed to unzip jar".to_owned()),
            InstallReply::NoTxzInJar => Err("No txz found in jar".to_owned()),
            InstallReply::StepFailed => Err(last_error.to_owned()),
        }
    }
}

/// A failed download, or a command that could not be run while creating
/// the directory or unpacking, ends the installation with that step's
/// error.
pub proof fn law_install_failure_ends(inst: InstallerView, st: InstallState, ev: InstallEventView)
    requires
        event_fits(st, ev),
        ev == InstallEventView::Fetched(false) || (ev == InstallEventView::Ran(RunOutcome::Failed)
            && !(st is Cleaning) && !(st is Relocating)),
    ensures
        install_next(inst, st, ev) == (
            InstallState::Done,
            InstallAction::Reply(InstallReply::StepFailed),
        ),
{
}

/// Archives are fetched in order: the first right after the version
/// directory is created, each next one once the one before it is unpacked
/// and removed.
pub proof fn law_install_fetches_in_order(
    runtime: Seq<char>,
    version: Seq<char>,
    st: InstallState,
    ev: InstallEventView,
    j: usize,
)
    requires
        event_fits(st, ev),
        ({
            let inst = InstallerView { runtime, downloads: downloads_of(runtime, version) };
            &&& state_ok(inst, st)
            &&& install_next(inst, st, ev).1 == InstallAction::Fetch(j)
        }),
    ensures
        (st == InstallState::Creating && j == 0) || (j >= 1 && st == InstallState::Cleaning(
            (j - 1) as usize,
        )),
{
    let inst = InstallerView { runtime, downloads: downloads_of(runtime, version) };
    match (st, ev) {
        (InstallState::Listing(i), InstallEventView::Listed(names)) => {
            match first_txz(names) {
                Some(k) => {},
                None => {},
            }
        },
        (InstallState::Fetching(i), InstallEventView::Fetched(ok)) => {
            if ok {
                match extract_plan_of(inst.runtime, inst.downloads->0[i as int].1) {
                    ExtractPlan::Unzip => {},
                    ExtractPlan::Jar => {},
                    ExtractPlan::Untar { strip_top } => {},
                }
            }
        },
        (InstallState::Cleaning(i), InstallEventView::Ran(_)) => {
            assert(archive_count(inst) <= 2);
            assert(i < 2);
            assert(j == i + 1);
        },
        _ => {},
    }
}

/// An installation of a runtime the stack knows reports success only once
/// its last archive is unpacked and removed (and, for PHP, its programs
/// moved into place), or when the version was already installed.
pub proof fn law_install_success_after_last_archive(
    runtime: Seq<char>,
    version: Seq<char>,
    st: InstallState,
    ev: InstallEventView,
)
    requires
        event_fits(st, ev),
        ({
            let inst = InstallerView { runtime, downloads: downloads_of(runtime, version) };
            state_ok(inst, st)
        }),
    ensures
        ({
            let inst = InstallerView { runtime, downloads: downloads_of(runtime, version) };
            let n = archive_count(inst);
            &&& install_next(inst, st, ev).1 == InstallAction::Reply(InstallReply::Installed) ==> (
            st == InstallState::Relocating || (runtime != "php"@ && n >= 1 && st
                == InstallState::Cleaning((n - 1) as usize)))
            &&& install_next(inst, st, ev).0 == InstallState::Relocating ==> (n >= 1 && st
                == InstallState::Cleaning((n - 1) as usize))
        }),
{
    let inst = InstallerView { runtime, downloads: downloads_of(runtime, version) };
    match (st, ev) {
        (InstallState::Listing(i), InstallEventView::Listed(names)) => {
            match first_txz(names) {
                Some(k) => {},
                None => {},
            }
        },
        (InstallState::Fetching(i), InstallEventView::Fetched(ok)) => {
            if ok {
                match extract_plan_of(inst.runtime, inst.downloads->0[i as int].1) {
                    ExtractPlan::Unzip => {},
                    ExtractPlan::Jar => {},
                    ExtractPlan::Untar { strip_top } => {},
                }
            }
        },
        _ => {},
    }
}

/// The tarballs of Node, nginx and MariaDB hold their programs under one top
/// directory, which unpacking drops (`--strip-components=1`), so that `bin/`
/// lands directly in the version directory; every other runtime's tarball is
/// unpacked as it is.
pub proof fn law_tarballs_unpack_flat(runtime: Seq<char>, archive: Seq<char>)
    requires
        !has_suffix(archive, ".zip"@),
        !has_suffix(archive, ".jar"@),
    ensures
        runtime == "node"@ ==> extract_plan_of(runtime, archive) == (ExtractPlan::Untar { strip_top: true }),
        runtime == "nginx"@ ==> extract_plan_of(runtime, archive) == (ExtractPlan::Untar { strip_top: true }),
        runtime == "mariadb"@ ==> extract_plan_of(runtime, archive) == (ExtractPlan::Untar { strip_top: true }),
        runtime != "node"@ && runtime != "nginx"@ && runtime != "mariadb"@ ==> extract_plan_of(
            runtime,
            archive,
        ) == (ExtractPlan::Untar { strip_top: false }),
{
}

/// Installing any version of Node, nginx or MariaDB unpacks its downloaded
/// tarball dropping the top directory.
pub proof fn law_install_unpacks_flat(runtime: Seq<char>, version: Seq<char>)
    requires
        runtime == "node"@ || runtime == "nginx"@ || runtime == "mariadb"@,
    ensures
        install_next(
            (InstallerView { runtime, downloads: downloads_of(runtime, version) }),
            InstallState::Fetching(0),
            InstallEventView::Fetched(true),
        ) == (InstallState::Unpacking(0), InstallAction::Untar(0, true)),
{
    reveal_strlit("node");
    reveal_strlit("bun");
    reveal_strlit("php");
    reveal_strlit("nginx");
    reveal_strlit("mariadb");
    reveal_strlit("archive.tar.xz");
    reveal_strlit("archive.tar.gz");
    reveal_strlit("mariadb.tar.gz");
    reveal_strlit(".zip");
    reveal_strlit(".jar");
    let inst = InstallerView { runtime, downloads: downloads_of(runtime, version) };
    let a = inst.downloads->0[0].1;
    if runtime == "node"@ {
        assert(a == "archive.tar.xz"@);
    } else if runtime == "nginx"@ {
        assert(runtime.len() == 5);
        assert("node"@.len() == 4 && "bun"@.len() == 3 && "php"@.len() == 3);
        assert(runtime != "node"@ && runtime != "bun"@ && runtime != "php"@);
        assert(a == "archive.tar.gz"@);
    } else {
        assert(runtime == "mariadb"@);
        assert(runtime.len() == 7);
        assert("node"@.len() == 4 && "bun"@.len() == 3 && "php"@.len() == 3 && "nginx"@.len() == 5);
        assert(runtime != "node"@ && runtime != "bun"@ && runtime != "php"@ && runtime != "nginx"@);
        assert(a == "mariadb.tar.gz"@);
    }
    assert(a.subrange(a.len() - 4, a.len() as int) != ".zip"@) by {
        assert(a.subrange(a.len() - 4, a.len() as int)[1] == a[a.len() - 3]);
    }
    assert(a.subrange(a.len() - 4, a.len() as int) != ".jar"@) by {
        assert(a.subrange(a.len() - 4, a.len() as int)[1] == a[a.len() - 3]);
    }
    law_tarballs_unpack_flat(runtime, a);
}

} // verus!
