use service_install::install::files::{MakeReadExecOnly, Move, Remove, RestorePermissions};
use service_install::install::init::systemd::teardown::{DisableService, RemoveService};
use service_install::install::init::systemd::Error as SystemdError;
use service_install::install::init::systemd::api::Error as ApiError;
use service_install::install::init::{SetupError, System, TearDownError};
use service_install::install::files::NoHomeError;
use service_install::install::prepare::{Attempt, SetUpSearch, TearDownSearch};
use service_install::install::{
    check_install_rights, check_remove_rights, BestEffortRemoveError, InitSystemFailure,
    InstallError, InstallStep, InstallSteps, IoError, IoErrorKind, Mode, PrepareInstallError,
    PrepareRemoveError, RemoveError, RemoveStep, RemoveSteps, RollbackStep,
};
use service_install::install::init::cron::teardown::CrontabChanged;

fn io_error(message: &str) -> IoError {
    IoError { kind: IoErrorKind::Other, message: message.to_string() }
}

fn install_steps() -> InstallSteps {
    InstallSteps(vec![
        InstallStep::Move(Move {
            name: "demo".to_string(),
            source: "/build/demo".to_string(),
            target: "/usr/bin/demo".to_string(),
        }),
        InstallStep::MakeReadExecOnly(MakeReadExecOnly { path: "/usr/bin/demo".to_string() }),
    ])
}

fn remove_steps() -> RemoveSteps {
    RemoveSteps(vec![
        RemoveStep::DisableService(DisableService {
            name: "demo".to_string(),
            mode: Mode::User,
            stop: true,
        }),
        RemoveStep::RemoveService(RemoveService { path: "/u/demo.service".to_string() }),
        RemoveStep::Remove(Remove { target: "/usr/bin/demo".to_string() }),
    ])
}

#[test]
fn an_installation_performs_its_steps_in_order() {
    let steps = install_steps();
    let mut run = steps.clone().install();
    assert_eq!(run.next(), Some(&steps.0[0]));
    assert_eq!(run.next(), Some(&steps.0[0]));
    assert_eq!(run.described(), "");
    run.performed(Ok(None));
    assert_eq!(run.next(), Some(&steps.0[1]));
    let undo = RollbackStep::RestorePermissions(RestorePermissions {
        path: "/usr/bin/demo".to_string(),
        org_permissions: 0o755,
    });
    run.performed(Ok(Some(undo.clone())));
    assert_eq!(run.next(), None);
    assert_eq!(run.rollback_steps(), &vec![undo]);
    run.performed(Err(InstallError::CouldNotStop));
    assert_eq!(
        run.result(),
        Some(Ok(
            "Copied executable `demo` to:\n|\t/usr/bin.\nMade the executable read and execute only."
                .to_string()
        ))
    );
}

#[test]
fn a_failed_step_ends_the_installation() {
    let mut run = install_steps().install();
    run.performed(Ok(None));
    run.performed(Err(InstallError::CopyExeError(io_error("disk full"))));
    assert_eq!(run.next(), None);
    run.performed(Ok(None));
    assert_eq!(run.described(), "Copied executable `demo` to:\n|\t/usr/bin.");
    assert_eq!(run.result(), Some(Err(InstallError::CopyExeError(io_error("disk full")))));
}

#[test]
fn steps_say_what_they_will_do() {
    assert_eq!(
        install_steps().summary(),
        "Will copy executable `demo` to:\n|\t/usr/bin.\nWill make the executable read and execute only.\n"
    );
    assert_eq!(
        install_steps().to_string(),
        "Will copy executable `demo`.\n| from:\n|\t/build\n| to:\n|\t/usr/bin\nWill make the executable read and execute only.\n"
    );
    assert_eq!(
        RemoveSteps(remove_steps().0[1..].to_vec()).summary(),
        "Will remove systemd service unit. at:\n|\t/u/demo.service\nWill remove installed executable `demo`.\n"
    );
    assert_eq!(
        RemoveSteps(remove_steps().0[2..].to_vec()).to_string(),
        "Will remove installed executable `demo`. Is installed at:\n|\t/usr/bin\n"
    );
    assert_eq!(InstallSteps(vec![]).to_string(), "");
}

#[test]
fn an_installation_under_way_has_no_result() {
    let mut run = install_steps().install();
    run.performed(Ok(None));
    assert_eq!(run.result(), None);
    assert_eq!(InstallSteps(vec![]).install().result(), Some(Ok(String::new())));
}

#[test]
fn a_removal_stops_at_the_first_failure() {
    let steps = remove_steps();
    let mut run = steps.clone().remove();
    assert_eq!(run.next(), Some(&steps.0[0]));
    run.performed(Ok(()));
    assert_eq!(run.next(), Some(&steps.0[1]));
    run.performed(Err(RemoveError::CrontabChanged(CrontabChanged)));
    assert_eq!(run.next(), None);
    assert_eq!(run.described(), "Disabled and stopped systemd user service: demo.");
    assert_eq!(run.result(), Some(Err(RemoveError::CrontabChanged(CrontabChanged))));

    let mut run = remove_steps().remove();
    for _ in 0..3 {
        run.performed(Ok(()));
    }
    assert_eq!(
        run.result(),
        Some(Ok("Disabled and stopped systemd user service: demo.\nRemoved systemd service unit. at:\n|\t/u/demo.service\nRemoved installed executable `demo`.".to_string()))
    );
    assert_eq!(remove_steps().remove().result(), None);
}

#[test]
fn a_best_effort_removal_performs_every_step() {
    let steps = remove_steps();
    let mut run = steps.clone().best_effort_remove();
    assert_eq!(run.next(), Some(&steps.0[0]));
    run.performed(Err(RemoveError::Systemd(SystemdError::Disabling(ApiError::MoreThenOneUnit))));
    assert_eq!(run.next(), Some(&steps.0[1]));
    run.performed(Ok(()));
    assert_eq!(run.next(), Some(&steps.0[2]));
    run.performed(Err(RemoveError::CrontabChanged(CrontabChanged)));
    assert_eq!(run.next(), None);
    let error = run.result().unwrap().unwrap_err();
    assert_eq!(
        error,
        BestEffortRemoveError {
            failures: vec![
                (
                    "Disabling and stopping systemd user service: demo.".to_string(),
                    RemoveError::Systemd(SystemdError::Disabling(ApiError::MoreThenOneUnit))
                ),
                (
                    "Removing installed executable `demo`. Is installed at:\n|\t/usr/bin"
                        .to_string(),
                    RemoveError::CrontabChanged(CrontabChanged)
                ),
            ]
        }
    );
    assert_eq!(
        error.to_string(),
        "Ran into one or more issues trying to remove an install\nYou should resolve/check these issues manually\n* Tried to disabling and stopping systemd user service: demo.\nfailed because: Something went wrong interacting with systemd\n* Tried to removing installed executable `demo`. is installed at:\n|\t/usr/bin\nfailed because: Crontab was modified while uninstall ran, you should manually verify it\n"
    );
}

#[test]
fn a_best_effort_removal_without_failures() {
    let mut run = remove_steps().best_effort_remove();
    assert_eq!(remove_steps().best_effort_remove().result(), None);
    for _ in 0..4 {
        run.performed(Ok(()));
    }
    assert_eq!(
        run.result(),
        Some(Ok("Disabled and stopped systemd user service: demo.\nRemoved systemd service unit. at:\n|\t/u/demo.service\nRemoved installed executable `demo`.".to_string()))
    );
}

#[test]
fn the_first_init_system_that_sets_up_wins() {
    let file_steps = install_steps().0;
    let init_steps = vec![InstallStep::MakeReadExecOnly(MakeReadExecOnly { path: "/x".to_string() })];
    let mut search = SetUpSearch::new(None);
    assert_eq!(search.candidate(), Some(System::Systemd));
    search.tried(Attempt::Failed(SetupError::NoHome(NoHomeError)));
    assert_eq!(search.candidate(), Some(System::Cron));
    search.tried(Attempt::Ready(init_steps.clone()));
    assert_eq!(search.candidate(), None);
    let mut all = file_steps.clone();
    all.extend(init_steps);
    assert_eq!(search.result(file_steps), Some(Ok(InstallSteps(all))));
}

#[test]
fn no_init_system_is_there() {
    let mut search = SetUpSearch::new(None);
    search.tried(Attempt::NotAvailable);
    assert_eq!(SetUpSearch::new(None).result(vec![]), None);
    search.tried(Attempt::NotAvailable);
    assert_eq!(search.candidate(), None);
    search.tried(Attempt::Ready(vec![]));
    assert_eq!(search.result(vec![]), Some(Err(PrepareInstallError::NoInitSystemRecognized)));
    assert_eq!(
        SetUpSearch::new(Some(vec![])).result(vec![]),
        Some(Err(PrepareInstallError::NoInitSystemRecognized))
    );
}

#[test]
fn every_init_system_that_is_there_fails() {
    let mut search = SetUpSearch::new(Some(vec![System::Cron, System::Systemd, System::Cron]));
    search.tried(Attempt::Failed(SetupError::NoHome(NoHomeError)));
    search.tried(Attempt::NotAvailable);
    let other = SetupError::Systemd(SystemdError::CheckActive(ApiError::MoreThenOneUnit));
    search.tried(Attempt::Failed(other.clone()));
    assert_eq!(
        search.result(vec![]),
        Some(Err(PrepareInstallError::SupportedInitSystemFailed(vec![
            InitSystemFailure { name: "Cron".to_string(), error: SetupError::NoHome(NoHomeError) },
            InitSystemFailure { name: "Cron".to_string(), error: other },
        ])))
    );
}

#[test]
fn an_init_system_that_cannot_be_asked_ends_the_search() {
    let mut search = SetUpSearch::new(None);
    search.tried(Attempt::Unknown(SetupError::NoHome(NoHomeError)));
    assert_eq!(search.candidate(), None);
    assert_eq!(
        search.result(vec![]),
        Some(Err(PrepareInstallError::Init(SetupError::NoHome(NoHomeError))))
    );
}

#[test]
fn the_first_init_system_with_an_installation_is_torn_down() {
    let mut search = TearDownSearch::new(None);
    assert_eq!(search.candidate(), Some(System::Systemd));
    search.asked(Ok(None));
    assert_eq!(search.candidate(), Some(System::Cron));
    let steps = remove_steps().0[..2].to_vec();
    search.asked(Ok(Some((steps, "/usr/bin/demo".to_string()))));
    assert_eq!(search.candidate(), None);
    assert_eq!(search.result(), Some(Ok(remove_steps())));
}

#[test]
fn no_installation_is_found() {
    let mut search = TearDownSearch::new(None);
    search.asked(Ok(None));
    assert_eq!(TearDownSearch::new(None).result(), None);
    search.asked(Ok(None));
    search.asked(Ok(Some((vec![], "/x".to_string()))));
    assert_eq!(search.result(), Some(Err(PrepareRemoveError::NoInstallFound)));
    let mut search = TearDownSearch::new(Some(vec![System::Cron]));
    search.asked(Err(TearDownError::TimerWithoutService));
    assert_eq!(
        search.result(),
        Some(Err(PrepareRemoveError::Init(TearDownError::TimerWithoutService)))
    );
}

#[test]
fn rights() {
    assert_eq!(check_install_rights(Mode::User, None, false, None), Ok(()));
    assert_eq!(
        check_install_rights(Mode::System, None, false, Some("me")),
        Err(PrepareInstallError::NeedRootForSysInstall)
    );
    assert_eq!(check_install_rights(Mode::System, Some("www"), true, Some("root")), Ok(()));
    assert_eq!(check_install_rights(Mode::User, Some("me"), false, Some("me")), Ok(()));
    assert_eq!(
        check_install_rights(Mode::User, Some("www"), false, Some("me")),
        Err(PrepareInstallError::NeedRootToRunAs)
    );
    assert_eq!(
        check_install_rights(Mode::User, Some("www"), true, None),
        Err(PrepareInstallError::UserDoesNotExist("www".to_string()))
    );
    assert_eq!(check_remove_rights(Mode::System, false), Err(PrepareRemoveError::NeedRoot));
    assert_eq!(check_remove_rights(Mode::System, true), Ok(()));
    assert_eq!(check_remove_rights(Mode::User, false), Ok(()));
}
