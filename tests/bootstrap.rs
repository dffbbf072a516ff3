use dprint_plugin_yapf::bootstrap::{
    install_args, installer_upgrade_args, Bootstrap, BootstrapAction, BootstrapError,
    InstallCommand, InstallStrategy, Stage, StepOutcome,
};

const OK: StepOutcome = StepOutcome::Succeeded;
const GONE: StepOutcome = StepOutcome::Unreachable;
const FAIL: StepOutcome = StepOutcome::Failed;

fn strings(items: &[&str]) -> Vec<String> {
    items.iter().map(|s| s.to_string()).collect()
}

fn run(args: &[&str], scoped: bool) -> BootstrapAction {
    BootstrapAction::RunInstaller(InstallCommand { args: strings(args), scoped_user_base: scoped })
}

/// Feeds the outcomes in turn and collects every action asked for.
fn drive(outcomes: &[StepOutcome]) -> Vec<BootstrapAction> {
    let (mut b, first) = Bootstrap::new("/opt/plugin/packages".to_string());
    let mut actions = vec![first];
    for o in outcomes {
        actions.push(b.step(*o));
    }
    actions
}

const DIRECT: &[&str] =
    &["-m", "pip", "install", "--upgrade", "--target", "/opt/plugin/packages", "yapf==0.32.0"];
const COMPAT: &[&str] = &[
    "-m", "pip", "install", "--system", "--upgrade", "--target", "/opt/plugin/packages",
    "yapf==0.32.0",
];
const UPGRADE: &[&str] = &["-m", "pip", "install", "--user", "pip==22.0.2"];

#[test]
fn install_args_pin_the_package() {
    let dir = "pkgs".to_string();
    assert_eq!(
        install_args(InstallStrategy::Direct, &dir),
        strings(&["-m", "pip", "install", "--upgrade", "--target", "pkgs", "yapf==0.32.0"])
    );
    assert_eq!(
        install_args(InstallStrategy::SystemCompat, &dir),
        strings(&["-m", "pip", "install", "--system", "--upgrade", "--target", "pkgs", "yapf==0.32.0"])
    );
    assert_eq!(install_args(InstallStrategy::ScratchTool, &dir), install_args(InstallStrategy::Direct, &dir));
    assert_eq!(installer_upgrade_args(), strings(UPGRADE));
}

#[test]
fn direct_install_success_ends_the_bootstrap() {
    let actions = drive(&[OK, OK, OK]);
    assert_eq!(
        actions,
        vec![
            BootstrapAction::CreatePackagesDir,
            run(DIRECT, false),
            BootstrapAction::RemoveScratchDir,
            BootstrapAction::Finish(Ok(())),
        ]
    );
}

#[test]
fn strategies_are_tried_in_order_and_scratch_is_removed() {
    let actions = drive(&[OK, FAIL, FAIL, OK, OK, OK, OK]);
    assert_eq!(
        actions,
        vec![
            BootstrapAction::CreatePackagesDir,
            run(DIRECT, false),
            run(COMPAT, false),
            BootstrapAction::CreateScratchDir,
            run(UPGRADE, true),
            run(DIRECT, true),
            BootstrapAction::RemoveScratchDir,
            BootstrapAction::Finish(Ok(())),
        ]
    );
}

#[test]
fn unavailable_installer_is_fatal_and_scratch_is_removed() {
    let actions = drive(&[OK, GONE, GONE, OK, GONE, OK]);
    assert_eq!(actions[5], BootstrapAction::RemoveScratchDir);
    assert_eq!(actions[6], BootstrapAction::Finish(Err(BootstrapError::InstallerUnreachable)));
}

#[test]
fn installer_reporting_failure_is_told_apart() {
    let actions = drive(&[OK, GONE, FAIL, OK, OK, FAIL, OK]);
    assert_eq!(actions[6], BootstrapAction::RemoveScratchDir);
    assert_eq!(actions[7], BootstrapAction::Finish(Err(BootstrapError::InstallerFailed)));
}

#[test]
fn scratch_creation_failure_still_removes_scratch() {
    let actions = drive(&[OK, GONE, GONE, FAIL, OK]);
    assert_eq!(actions[4], BootstrapAction::RemoveScratchDir);
    assert_eq!(actions[5], BootstrapAction::Finish(Err(BootstrapError::InstallerUnreachable)));
}

#[test]
fn scratch_left_behind_is_an_error() {
    let actions = drive(&[OK, FAIL, FAIL, OK, OK, OK, FAIL]);
    assert_eq!(actions[7], BootstrapAction::Finish(Err(BootstrapError::ScratchNotRemoved)));
}

#[test]
fn packages_dir_failure_is_fatal() {
    let actions = drive(&[FAIL, OK, OK]);
    assert_eq!(actions[1], BootstrapAction::RemoveScratchDir);
    assert_eq!(actions[2], BootstrapAction::Finish(Err(BootstrapError::PackagesDirUnavailable)));
    assert_eq!(actions[3], BootstrapAction::Finish(Err(BootstrapError::PackagesDirUnavailable)));
}

#[test]
fn compat_install_success_removes_stale_scratch() {
    let actions = drive(&[OK, FAIL, OK, FAIL]);
    assert_eq!(actions[3], BootstrapAction::RemoveScratchDir);
    assert_eq!(actions[4], BootstrapAction::Finish(Err(BootstrapError::ScratchNotRemoved)));
}

#[test]
fn bootstrap_twice_asks_for_the_same_steps() {
    let outcomes = [OK, FAIL, FAIL, OK, OK, OK, OK];
    assert_eq!(drive(&outcomes), drive(&outcomes));
    let (mut b, _) = Bootstrap::new("d".to_string());
    for o in outcomes {
        b.step(o);
    }
    assert_eq!(b.stage, Stage::Finished(None));
}
