use lekstack::install::{InstallAction, InstallEvent, InstallReply, InstallState, Installer, RunOutcome};

fn step(inst: &Installer, st: InstallState, ev: InstallEvent) -> (InstallState, InstallAction) {
    inst.step(st, ev)
}

#[test]
fn node_installs_in_order() {
    let inst = Installer::new("node", "20.1.0");
    assert_eq!(inst.archive_total(), 1);
    let (st, act) = step(&inst, InstallState::Begin, InstallEvent::Checked(false));
    assert!(matches!(act, InstallAction::CreateVersionDir));
    let (st, act) = step(&inst, st, InstallEvent::Ran(RunOutcome::Succeeded));
    assert!(matches!(act, InstallAction::Fetch(0)));
    let (st, act) = step(&inst, st, InstallEvent::Fetched(true));
    assert!(matches!(act, InstallAction::Untar(0, true)));
    let (st, act) = step(&inst, st, InstallEvent::Ran(RunOutcome::Succeeded));
    assert!(matches!(act, InstallAction::RemoveArchive(0)));
    let (st, act) = step(&inst, st, InstallEvent::Ran(RunOutcome::Succeeded));
    assert!(matches!(st, InstallState::Done));
    assert!(matches!(act, InstallAction::Reply(InstallReply::Installed)));
}

#[test]
fn php_fetches_both_archives_then_relocates() {
    let inst = Installer::new("php", "8.3");
    assert_eq!(inst.archive(1).url, "https://dl.static-php.dev/static-php-cli/bulk/php-8.3.30-fpm-linux-x86_64.tar.gz");
    let (st, _) = step(&inst, InstallState::Begin, InstallEvent::Checked(false));
    let (st, act) = step(&inst, st, InstallEvent::Ran(RunOutcome::Succeeded));
    assert!(matches!(act, InstallAction::Fetch(0)));
    let (st, act) = step(&inst, st, InstallEvent::Fetched(true));
    assert!(matches!(act, InstallAction::Untar(0, false)));
    let (st, _) = step(&inst, st, InstallEvent::Ran(RunOutcome::Succeeded));
    let (st, act) = step(&inst, st, InstallEvent::Ran(RunOutcome::Succeeded));
    assert!(matches!(act, InstallAction::Fetch(1)));
    let (st, _) = step(&inst, st, InstallEvent::Fetched(true));
    let (st, _) = step(&inst, st, InstallEvent::Ran(RunOutcome::Succeeded));
    let (st, act) = step(&inst, st, InstallEvent::Ran(RunOutcome::Succeeded));
    assert!(matches!(act, InstallAction::RelocatePhp));
    let (_, act) = step(&inst, st, InstallEvent::Ran(RunOutcome::Succeeded));
    assert!(matches!(act, InstallAction::Reply(InstallReply::Installed)));
}

#[test]
fn jars_and_failures() {
    let redis = Installer::new("redis", "7.4.1");
    let (st, _) = step(&redis, InstallState::Begin, InstallEvent::Checked(false));
    let (st, _) = step(&redis, st, InstallEvent::Ran(RunOutcome::Succeeded));
    let (st, act) = step(&redis, st, InstallEvent::Fetched(true));
    assert!(matches!(act, InstallAction::UnzipJar(0)));
    let (st, act) = step(&redis, st, InstallEvent::Ran(RunOutcome::Succeeded));
    assert!(matches!(act, InstallAction::ListVersionDir));
    let (_, act) = step(&redis, st, InstallEvent::Listed(vec!["META-INF".to_string()]));
    assert!(matches!(act, InstallAction::RelocateRedis));

    let pg = Installer::new("postgresql", "17");
    let (st, _) = step(&pg, InstallState::Begin, InstallEvent::Checked(false));
    let (st, _) = step(&pg, st, InstallEvent::Ran(RunOutcome::Succeeded));
    let (st, _) = step(&pg, st, InstallEvent::Fetched(true));
    let (st2, _) = step(&pg, st, InstallEvent::Ran(RunOutcome::Succeeded));
    let (_, act) = step(&pg, st2, InstallEvent::Listed(vec!["a.txt".to_string(), "pg.txz".to_string()]));
    assert!(matches!(act, InstallAction::UntarListed(1)));
    let (st, _) = step(&pg, InstallState::UnzippingJar(0), InstallEvent::Ran(RunOutcome::Succeeded));
    let (_, act) = step(&pg, st, InstallEvent::Listed(vec![]));
    assert!(matches!(act, InstallAction::Reply(InstallReply::NoTxzInJar)));
    let (_, act) = step(&pg, InstallState::UnzippingJar(0), InstallEvent::Ran(RunOutcome::Unsuccessful));
    assert!(matches!(act, InstallAction::Reply(InstallReply::JarUnzipFailed)));

    let node = Installer::new("node", "1");
    let (_, act) = step(&node, InstallState::Fetching(0), InstallEvent::Fetched(false));
    assert!(matches!(act, InstallAction::Reply(InstallReply::StepFailed)));
    let (_, act) = step(&node, InstallState::Unpacking(0), InstallEvent::Ran(RunOutcome::Unsuccessful));
    assert!(matches!(act, InstallAction::Reply(InstallReply::ExtractionFailed)));
    let (_, act) = step(&node, InstallState::Begin, InstallEvent::Checked(true));
    assert!(matches!(act, InstallAction::Reply(InstallReply::AlreadyInstalled)));

    let ruby = Installer::new("ruby", "3");
    let (st, _) = step(&ruby, InstallState::Begin, InstallEvent::Checked(false));
    let (_, act) = step(&ruby, st, InstallEvent::Ran(RunOutcome::Succeeded));
    assert!(matches!(act, InstallAction::Reply(InstallReply::UnsupportedRuntime)));
}

#[test]
fn replies_answer_like_the_commands() {
    assert_eq!(InstallReply::AlreadyInstalled.answer(""), Ok("Version already installed".to_string()));
    assert_eq!(InstallReply::Installed.answer(""), Ok("Installation successful".to_string()));
    assert_eq!(InstallReply::UnsupportedRuntime.answer(""), Err("Unsupported runtime".to_string()));
    assert_eq!(InstallReply::ExtractionFailed.answer(""), Err("Extraction failed".to_string()));
    assert_eq!(InstallReply::JarUnzipFailed.answer(""), Err("Failed to unzip jar".to_string()));
    assert_eq!(InstallReply::NoTxzInJar.answer(""), Err("No txz found in jar".to_string()));
    assert_eq!(
        InstallReply::StepFailed.answer("Download failed: HTTP 404 Not Found"),
        Err("Download failed: HTTP 404 Not Found".to_string())
    );
}
