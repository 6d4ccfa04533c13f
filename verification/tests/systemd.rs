use service_install::install::builder::Trigger;
use service_install::install::files::NoHomeError;
use service_install::install::init::extract_path::unsystemd_quote::UnquoteError;
use service_install::install::init::systemd::api::{
    is_active, unit_activity, wait_for_active, wait_for_inactive, ActiveState, Error as ApiError,
    WaitDecision, WaitError,
};
use service_install::install::init::systemd::cli;
use service_install::install::init::systemd::SystemCtlError;
use service_install::install::init::systemd::disable_existing::{
    collect_services, collect_timers, disable_step, pick, Disable, DisableError, ReEnable,
    ServiceFile,
};
use service_install::install::init::systemd::find::{classify, exe_paths, scan, DirEntry, Owned};
use service_install::install::init::systemd::setup::{
    render_environment_section, render_service, render_timer, with_added_extension, with_timer,
    without_timer, EnableService, EnableTimer, Service, Timer,
};
use service_install::install::init::systemd::teardown::{
    disable_then_remove_service, disable_then_remove_with_timer, DisableService, DisableTimer,
    RemoveService, RemoveTimer,
};
use service_install::install::init::systemd::unit::{Error as UnitError, FindExeError, Unit};
use service_install::install::init::systemd::{
    disable, enable, not_available, path_is_systemd, set_up_steps, system_path, tear_down_steps,
    unit_dir, unit_name, user_path, Error, UnitAction,
};
use service_install::install::init::{Params, PathCheckError, SetupError, TearDownError};
use service_install::install::{InstallStep, IoError, IoErrorKind, Mode, RemoveStep};
use service_install::schedule::{Schedule, TimeOfDay};
use service_install::Tense;

fn params(trigger: Trigger, mode: Mode) -> Params {
    Params {
        name: "demo".to_string(),
        bin_name: "demo".to_string(),
        description: None,
        exe_path: "/home/me/.local/bin/demo".to_string(),
        exe_args: vec![],
        environment: vec![],
        working_dir: None,
        trigger,
        run_as: None,
        mode,
    }
}

fn daily(hour: u8, minute: u8, second: u8) -> Schedule {
    Schedule::Daily(TimeOfDay::new(hour, minute, second).unwrap())
}

fn io_error(message: &str) -> IoError {
    IoError { kind: IoErrorKind::Other, message: message.to_string() }
}

const COMMENT: &str = "# created by: 'demo' during its installation\n# might get removed by it in the future.\n# Remove this comment to prevent that";

#[test]
fn service_started_on_boot_for_a_user() {
    assert_eq!(
        render_service(&params(Trigger::OnBoot, Mode::User)),
        format!("{COMMENT}\n\n[Unit]\nDescription=starts demo\nAfter=network.target\n\n[Service]\nType=simple\nExecStart=\"/home/me/.local/bin/demo\" \n[Install]\nWantedBy=default.target\n")
    );
}

#[test]
fn service_with_everything_set() {
    let mut p = params(Trigger::OnSchedule(daily(1, 2, 3)), Mode::System);
    p.description = Some("does things".to_string());
    p.working_dir = Some("/var/lib/my demo".to_string());
    p.run_as = Some("www".to_string());
    p.environment =
        vec![("KEY".to_string(), "value".to_string()), ("OTHER".to_string(), "a \"b\"".to_string())];
    p.exe_args = vec!["--config".to_string(), "my file".to_string()];
    assert_eq!(
        render_service(&p),
        format!("{COMMENT}\n\n[Unit]\nDescription=does things\nAfter=network.target\n\n[Service]\nType=simple\nWorkingDirectory='/var/lib/my demo'\nUser=www\nEnvironment=\"KEY\"=\"value\" \"OTHER\"=\"a \\\"b\\\"\"\nExecStart=\"/home/me/.local/bin/demo\" \"--config\" \\\n\t\"my file\"\n")
    );
    p.trigger = Trigger::OnBoot;
    assert!(render_service(&p).ends_with("\n[Install]\nWantedBy=multi-user.target\n"));
}

#[test]
fn timer_fires_daily() {
    assert_eq!(
        render_timer(&params(Trigger::OnBoot, Mode::User), &daily(9, 5, 0)),
        format!("{COMMENT}\n\n[Unit]\nDescription=starts demo\n\n[Timer]\nOnCalendar=*-*-* 09:05:00\nAccuracySec=60\n\n[Install]\nWantedBy=timers.target")
    );
    assert!(render_timer(&params(Trigger::OnBoot, Mode::User), &daily(23, 59, 58))
        .contains("OnCalendar=*-*-* 23:59:58\n"));
}

#[test]
fn environment_section() {
    assert_eq!(render_environment_section(&vec![]), "");
    assert_eq!(
        render_environment_section(&vec![("A".to_string(), "1".to_string())]),
        "Environment=\"A\"=\"1\"\n"
    );
}

#[test]
fn exe_path_is_read_back_from_a_rendered_service() {
    for path in ["a b/exe", "a'b/exe", "abc", "/usr/bin/demo", "/say \"hi\"/x"] {
        let mut p = params(Trigger::OnBoot, Mode::User);
        p.exe_path = path.to_string();
        p.exe_args = vec!["one".to_string(), "two words".to_string()];
        p.description = Some("ExecStart is below".to_string());
        p.working_dir = Some("/tmp".to_string());
        let unit = Unit {
            body: render_service(&p),
            path: "/etc/systemd/system/demo.service".to_string(),
            file_name: "demo.service".to_string(),
            stem: "demo".to_string(),
        };
        assert_eq!(unit.exec_start(), Ok(path.to_string()));
        assert_eq!(unit.exe_path(true), Ok(path.to_string()));
        assert_eq!(unit.exe_path(false), Err(FindExeError::ExecPathNotFile(path.to_string())));
        assert!(unit.our_service());
        assert!(unit.has_install());
        assert_eq!(unit.name(), "demo");
    }
}

#[test]
fn install_for_a_user_on_boot_then_remove() {
    let p = params(Trigger::OnBoot, Mode::User);
    let steps = set_up_steps(&p, Some("/home/me"), Ok(false)).unwrap();
    assert_eq!(steps.len(), 2);
    let InstallStep::SystemdService(service) = &steps[0] else { panic!("expected a unit file") };
    assert_eq!(service.path, "/home/me/.config/systemd/user/demo.service");
    assert!(service.unit.contains("WantedBy=default.target"));
    assert_eq!(
        steps[1],
        InstallStep::SystemdEnableService(EnableService {
            name: "demo".to_string(),
            mode: Mode::User,
            start: true,
            already_running: false,
        })
    );
    assert!(!steps.iter().any(|step| matches!(step, InstallStep::SystemdTimer(_))));

    let written = DirEntry {
        path: service.path.clone(),
        is_dir: false,
        body: Ok(service.unit.clone()),
        exe_is_file: true,
    };
    let (removal, exe) =
        tear_down_steps(Mode::User, Some("/home/me"), &vec![written]).unwrap().unwrap();
    assert_eq!(exe, "/home/me/.local/bin/demo");
    assert_eq!(
        removal,
        vec![
            RemoveStep::DisableService(DisableService {
                name: "demo".to_string(),
                mode: Mode::User,
                stop: true,
            }),
            RemoveStep::RemoveService(RemoveService {
                path: "/home/me/.config/systemd/user/demo.service".to_string(),
            }),
        ]
    );
    assert_eq!(tear_down_steps(Mode::User, Some("/home/me"), &vec![]), Ok(None));
}

#[test]
fn set_up_with_a_timer() {
    let p = params(Trigger::OnSchedule(daily(4, 0, 0)), Mode::System);
    let steps = set_up_steps(&p, None, Err(Error::CheckActive(ApiError::MoreThenOneUnit))).unwrap();
    assert_eq!(
        steps,
        vec![
            InstallStep::SystemdService(Service {
                unit: render_service(&p),
                path: "/etc/systemd/system/demo.service".to_string(),
            }),
            InstallStep::SystemdTimer(Timer {
                unit: render_timer(&p, &daily(4, 0, 0)),
                path: "/etc/systemd/system/demo.timer".to_string(),
            }),
            InstallStep::SystemdEnableTimer(EnableTimer {
                name: "demo".to_string(),
                mode: Mode::System,
            }),
        ]
    );
    assert_eq!(with_timer("/x/demo", &p, &daily(4, 0, 0)).len(), 3);
    assert_eq!(without_timer("/x/demo", &p, true).len(), 2);
    assert_eq!(with_added_extension("/x/demo", "timer"), "/x/demo.timer");
}

#[test]
fn set_up_fails_without_what_it_needs() {
    let p = params(Trigger::OnBoot, Mode::User);
    assert_eq!(set_up_steps(&p, None, Ok(false)), Err(SetupError::NoHome(NoHomeError)));
    let failure = Error::CheckActive(ApiError::ListUnits("no bus".to_string()));
    assert_eq!(
        set_up_steps(&p, Some("/home/me"), Err(failure.clone())),
        Err(SetupError::Systemd(failure))
    );
}

#[test]
fn unit_directories() {
    assert_eq!(system_path(), "/etc/systemd/system");
    assert_eq!(user_path(Some("/home/me")), Ok("/home/me/.config/systemd/user/".to_string()));
    assert_eq!(user_path(None), Err(NoHomeError));
    assert_eq!(unit_dir(Mode::System, None), Ok("/etc/systemd/system".to_string()));
    assert_eq!(unit_dir(Mode::User, None), Err(NoHomeError));
    assert_eq!(unit_name("demo", "timer"), "demo.timer");
}

#[test]
fn systemd_is_found_by_a_component_of_its_path() {
    assert_eq!(path_is_systemd(Ok("/usr/lib/systemd/systemd".to_string())), Ok(true));
    assert_eq!(path_is_systemd(Ok("/lib/systemd".to_string())), Ok(true));
    assert_eq!(path_is_systemd(Ok("systemd".to_string())), Ok(true));
    assert_eq!(path_is_systemd(Ok("/sbin/init".to_string())), Ok(false));
    assert_eq!(path_is_systemd(Ok("/usr/bin/systemd-run".to_string())), Ok(false));
    assert_eq!(path_is_systemd(Ok("/opt/mysystemd/x".to_string())), Ok(false));
    assert_eq!(path_is_systemd(Ok(String::new())), Ok(false));
    assert_eq!(path_is_systemd(Err(io_error("gone"))), Err(PathCheckError(io_error("gone"))));
    assert_eq!(not_available(Ok("/usr/lib/systemd/systemd".to_string())), Ok(false));
    assert_eq!(not_available(Ok("/sbin/init".to_string())), Ok(true));
    assert_eq!(
        not_available(Err(io_error("gone"))),
        Err(SetupError::Systemd(Error::CheckingInitSys(PathCheckError(io_error("gone")))))
    );
}

fn entry(path: &str, body: &str) -> DirEntry {
    DirEntry { path: path.to_string(), is_dir: false, body: Ok(body.to_string()), exe_is_file: true }
}

fn service_body(exe: &str) -> String {
    format!("{COMMENT}\n\n[Service]\nExecStart=\"{exe}\" \n[Install]\nWantedBy=default.target\n")
}

fn timer_body() -> String {
    format!("{COMMENT}\n\n[Timer]\nOnCalendar=*-*-* 01:00:00\n")
}

#[test]
fn timer_without_service_stops_the_tear_down() {
    let entries = vec![entry("/u/demo.timer", &timer_body())];
    assert_eq!(
        tear_down_steps(Mode::User, Some("/home/me"), &entries),
        Err(TearDownError::TimerWithoutService)
    );
    let entries = vec![
        entry("/u/demo.timer", &timer_body()),
        entry("/u/other.service", &service_body("/bin/demo")),
    ];
    assert_eq!(
        tear_down_steps(Mode::User, Some("/home/me"), &entries),
        Err(TearDownError::TimerWithoutService)
    );
}

#[test]
fn timers_are_taken_away_before_services() {
    let entries = vec![
        entry("/u/demo.service", &service_body("/bin/demo")),
        DirEntry { path: "/u/sub".to_string(), is_dir: true, body: Err(io_error("dir")), exe_is_file: false },
        entry("/u/README", "no extension"),
        entry("/u/foreign.service", "[Service]\nExecStart=/bin/other\n"),
        entry("/u/demo.timer", &timer_body()),
        entry("/u/demo.socket", &timer_body()),
    ];
    let (steps, exe) = tear_down_steps(Mode::System, None, &entries).unwrap().unwrap();
    assert_eq!(exe, "/bin/demo");
    let mut expected = disable_then_remove_with_timer("/u/demo.timer".to_string(), "demo", Mode::System);
    expected.extend(disable_then_remove_service("/u/demo.service".to_string(), "demo", Mode::System));
    assert_eq!(steps, expected);
    assert_eq!(
        expected,
        vec![
            RemoveStep::DisableTimer(DisableTimer { name: "demo".to_string(), mode: Mode::System }),
            RemoveStep::RemoveTimer(RemoveTimer { path: "/u/demo.timer".to_string() }),
            RemoveStep::DisableService(DisableService {
                name: "demo".to_string(),
                mode: Mode::System,
                stop: true
            }),
            RemoveStep::RemoveService(RemoveService { path: "/u/demo.service".to_string() }),
        ]
    );
}

#[test]
fn services_have_to_agree_on_the_executable() {
    let entries = vec![
        entry("/u/a.service", &service_body("/bin/one")),
        entry("/u/b.service", &service_body("/bin/two")),
        entry("/u/c.service", &service_body("/bin/one")),
    ];
    assert_eq!(
        tear_down_steps(Mode::System, None, &entries),
        Err(TearDownError::MultipleExePaths(vec!["/bin/one".to_string(), "/bin/two".to_string()]))
    );
    let agreeing = vec![
        entry("/u/a.service", &service_body("/bin/one")),
        entry("/u/c.service", &service_body("/bin/one")),
    ];
    let (steps, exe) = tear_down_steps(Mode::System, None, &agreeing).unwrap().unwrap();
    assert_eq!((steps.len(), exe.as_str()), (4, "/bin/one"));
}

#[test]
fn faults_of_entries_stop_the_tear_down() {
    let unreadable = DirEntry {
        path: "/u/x.service".to_string(),
        is_dir: false,
        body: Err(io_error("denied")),
        exe_is_file: false,
    };
    assert_eq!(
        tear_down_steps(Mode::System, None, &vec![unreadable]),
        Err(TearDownError::Systemd(Error::Verifying(UnitError::FailedToRead(io_error("denied")))))
    );
    let no_exec = entry("/u/x.service", &format!("{COMMENT}\n[Service]\n"));
    assert_eq!(
        tear_down_steps(Mode::System, None, &vec![no_exec]),
        Err(TearDownError::FindingExePath(FindExeError::ExecLineMissing("/u/x.service".to_string())))
    );
    let bad_exec = entry("/u/x.service", &format!("{COMMENT}\nExecStart=\"/bin/x\n"));
    assert_eq!(
        tear_down_steps(Mode::System, None, &vec![bad_exec]),
        Err(TearDownError::FindingExePath(FindExeError::ExecLineUnreadable {
            path: "/u/x.service".to_string(),
            error: UnquoteError::MissingEndQuo('"'),
        }))
    );
    let mut gone = entry("/u/x.service", &service_body("/bin/gone"));
    gone.exe_is_file = false;
    assert_eq!(
        tear_down_steps(Mode::System, None, &vec![gone]),
        Err(TearDownError::FindingExePath(FindExeError::ExecPathNotFile("/bin/gone".to_string())))
    );
    assert_eq!(
        tear_down_steps(Mode::User, None, &vec![]),
        Err(TearDownError::NoHome(NoHomeError))
    );
}

#[test]
fn scanning_entries() {
    let entries = vec![
        entry("/u/demo.timer", &timer_body()),
        entry("/u/demo.service", &service_body("/bin/demo")),
    ];
    let units = scan(&entries).unwrap();
    assert_eq!(
        units,
        vec![
            Owned {
                timer: true,
                path: "/u/demo.timer".to_string(),
                name: "demo".to_string(),
                exe: String::new()
            },
            Owned {
                timer: false,
                path: "/u/demo.service".to_string(),
                name: "demo".to_string(),
                exe: "/bin/demo".to_string()
            },
        ]
    );
    assert_eq!(classify(&entries[0]), Ok(Some(units[0].clone())));
    assert_eq!(exe_paths(&units), vec!["/bin/demo"]);
}

#[test]
fn units_from_files() {
    assert_eq!(
        Unit::from_path("/u/demo.service".to_string(), Ok("body".to_string())),
        Ok(Unit {
            body: "body".to_string(),
            path: "/u/demo.service".to_string(),
            file_name: "demo.service".to_string(),
            stem: "demo".to_string(),
        })
    );
    assert_eq!(Unit::from_path("/".to_string(), Ok(String::new())), Err(UnitError::NoName));
    assert_eq!(
        Unit::from_path("/u/x".to_string(), Err(io_error("denied"))),
        Err(UnitError::FailedToRead(io_error("denied")))
    );
    let unit = Unit::from_path("/u/x.service".to_string(), Ok("  ExecStart=/bin/x -v  \n".to_string()))
        .unwrap();
    assert_eq!(unit.exec_start(), Ok("/bin/x".to_string()));
    assert!(!unit.our_service());
    assert!(!unit.has_install());
}

fn unit(name: &str, extension: &str, body: &str) -> Unit {
    Unit {
        body: body.to_string(),
        path: format!("/u/{name}.{extension}"),
        file_name: format!("{name}.{extension}"),
        stem: name.to_string(),
    }
}

#[test]
fn disabling_picks_the_units_that_run_the_target() {
    let services = vec![
        ServiceFile { unit: unit("zeta", "service", &service_body("/bin/demo")), exe_is_file: true },
        ServiceFile { unit: unit("other", "service", &service_body("/bin/other")), exe_is_file: true },
        ServiceFile { unit: unit("alpha", "service", &service_body("/bin/demo")), exe_is_file: true },
        ServiceFile {
            unit: unit("timed", "service", "[Service]\nExecStart=/bin/demo\n"),
            exe_is_file: true,
        },
        ServiceFile { unit: unit("gone", "service", &service_body("/bin/demo")), exe_is_file: false },
        ServiceFile { unit: unit("alpha", "service", "[Install]\nExecStart=/bin/demo"), exe_is_file: true },
    ];
    let timers = vec![
        unit("timed", "timer", &timer_body()),
        unit("other", "timer", &timer_body()),
        unit("alpha", "timer", &timer_body()),
    ];
    let steps = disable_step("/bin/demo", Mode::System, &services, &timers).unwrap();
    assert_eq!(
        steps,
        vec![InstallStep::SystemdDisable(Disable {
            services: vec![services[2].unit.clone(), services[0].unit.clone()],
            timers: vec![timers[2].clone(), timers[0].clone()],
            mode: Mode::System,
        })]
    );
    assert_eq!(
        disable_step("/bin/nothing", Mode::System, &services, &timers),
        Err(DisableError::NoServiceOrTimerFound)
    );
    let InstallStep::SystemdDisable(step) = &steps[0] else { unreachable!() };
    assert_eq!(
        step.describe(Tense::Past),
        "Disabled the system services and/or timers running the file at the install location"
    );
    assert_eq!(
        step.describe_detailed(Tense::Future),
        "Will disable the system services and/or timers running the file at the install location\n| services:\n|\t- alpha.service\n|\t- zeta.service\n| timers:\n|\t- alpha.timer\n|\t- timed.timer"
    );
    assert_eq!(
        step.actions_for(0),
        vec![
            UnitAction::Disable("alpha.service".to_string()),
            UnitAction::Stop("alpha.service".to_string()),
            UnitAction::WaitForInactive("alpha.service".to_string()),
        ]
    );
    assert_eq!(
        step.actions_for(3),
        vec![
            UnitAction::Disable("timed.timer".to_string()),
            UnitAction::Stop("timed.timer".to_string()),
            UnitAction::WaitForInactive("timed.timer".to_string()),
            UnitAction::Stop("timed".to_string()),
        ]
    );
    let undo: ReEnable = step.rollback(3);
    assert_eq!(undo.units, vec![services[2].unit.clone(), services[0].unit.clone(), timers[2].clone()]);
    assert_eq!(
        undo.describe(Tense::Active),
        "Re-enabling the system services that spawned the original file"
    );
    let only_services = Disable { timers: vec![], ..step.clone() };
    assert_eq!(
        only_services.describe_detailed(Tense::Active),
        "Disabling the system services running the file at the install location\n| services:\n|\t- alpha.service\n|\t- zeta.service"
    );
    let only_timers = Disable { services: vec![], ..step.clone() };
    assert_eq!(
        only_timers.describe_detailed(Tense::Questioning),
        "Disable the system timers running the file at the install location\n| timers:\n|\t- alpha.timer\n|\t- timed.timer"
    );
}

#[test]
fn picking_orders_by_name_and_keeps_the_first_of_a_name() {
    let from = vec![
        unit("b", "service", "1"),
        unit("a", "service", "2"),
        unit("b", "service", "3"),
        unit("c", "service", "4"),
        unit("", "service", "5"),
    ];
    let picked = pick(&from, &vec![true, true, true, false, true]);
    assert_eq!(picked, vec![from[4].clone(), from[1].clone(), from[0].clone()]);
    assert_eq!(pick(&from, &vec![false; 5]), vec![]);
}

#[test]
fn collecting_units_by_extension() {
    let files: Vec<String> =
        ["/u/a.service", "/u/b.timer", "/u/c", "/u/d.service.bak", "/u/sub/e.service"]
            .iter()
            .map(|s| s.to_string())
            .collect();
    assert_eq!(collect_services(&files), vec!["/u/a.service", "/u/sub/e.service"]);
    assert_eq!(collect_timers(&files), vec!["/u/b.timer"]);
}

#[test]
fn what_systemd_is_asked_to_do() {
    assert_eq!(
        enable("demo.service", true),
        vec![
            UnitAction::Enable("demo.service".to_string()),
            UnitAction::Start("demo.service".to_string()),
            UnitAction::WaitForActive("demo.service".to_string()),
        ]
    );
    assert_eq!(enable("demo.service", false), vec![UnitAction::Enable("demo.service".to_string())]);
    assert_eq!(disable("demo.timer", false), vec![UnitAction::Disable("demo.timer".to_string())]);
    let step = EnableService {
        name: "demo".to_string(),
        mode: Mode::User,
        start: true,
        already_running: true,
    };
    assert_eq!(
        step.actions(),
        vec![
            UnitAction::Enable("demo.service".to_string()),
            UnitAction::Start("demo.service".to_string()),
            UnitAction::WaitForActive("demo.service".to_string()),
            UnitAction::Restart("demo.service".to_string()),
        ]
    );
    assert_eq!(
        step.rollback(),
        DisableService { name: "demo".to_string(), mode: Mode::User, stop: true }
    );
    let timer = EnableTimer { name: "demo".to_string(), mode: Mode::User };
    assert_eq!(timer.actions()[0], UnitAction::Enable("demo.timer".to_string()));
    assert_eq!(timer.rollback().actions()[0], UnitAction::Disable("demo.timer".to_string()));
    assert_eq!(
        DisableService { name: "demo".to_string(), mode: Mode::User, stop: false }.actions(),
        vec![UnitAction::Disable("demo.service".to_string())]
    );
}

#[test]
fn describing_the_systemd_steps() {
    let service = Service { unit: "a\nb\n\n".to_string(), path: "/u/demo.service".to_string() };
    assert_eq!(
        service.describe(Tense::Past),
        "Wrote systemd service unit.\n\t| path: /u/demo.service"
    );
    assert_eq!(
        service.describe_detailed(Tense::Questioning),
        "Write systemd service unit?\n| path:\n|\t/u/demo.service\n| content:\n|\ta\n|\tb"
    );
    assert_eq!(service.rollback(), RemoveService { path: "/u/demo.service".to_string() });
    let timer = Timer { unit: "t".to_string(), path: "/u/demo.timer".to_string() };
    assert_eq!(timer.describe(Tense::Future), "Will write systemd timer unit.\n\t| path: /u/demo.timer");
    assert_eq!(
        timer.describe_detailed(Tense::Active),
        "Writing systemd timer unit.\n| path:\n|\t/u/demo.timer\n| content:\n|\tt"
    );
    assert_eq!(timer.rollback(), RemoveTimer { path: "/u/demo.timer".to_string() });
    let enable = EnableTimer { name: "demo".to_string(), mode: Mode::User };
    assert_eq!(enable.describe(Tense::Future), "Will Enable systemd user timer: demo.");
    let mut enable = EnableService {
        name: "demo".to_string(),
        mode: Mode::System,
        start: true,
        already_running: false,
    };
    assert_eq!(enable.describe(Tense::Past), "Enabled and started systemd system service: demo.");
    assert_eq!(enable.describe(Tense::Questioning), "Enable and start systemd system service: demo?");
    enable.already_running = true;
    assert_eq!(enable.describe(Tense::Active), "Enabling and restarting systemd system service: demo.");
    enable.start = false;
    assert_eq!(enable.describe(Tense::Future), "Will Enable and  systemd system service: demo.");
    assert_eq!(
        RemoveService { path: "/u/demo.service".to_string() }.describe(Tense::Past),
        "Removed systemd service unit. at:\n|\t/u/demo.service"
    );
    assert_eq!(
        RemoveTimer { path: "/u/demo.timer".to_string() }.describe(Tense::Questioning),
        "Remove systemd timer? at:\n|\t/u/demo.timer"
    );
    let disable = DisableService { name: "demo".to_string(), mode: Mode::User, stop: true };
    assert_eq!(disable.describe(Tense::Past), "Disabled and stopped systemd user service: demo.");
    assert_eq!(disable.describe(Tense::Active), "Disabling and stopping systemd user service: demo.");
    let disable = DisableService { stop: false, ..disable };
    assert_eq!(disable.describe(Tense::Future), "Will disable systemd user service: demo.");
    assert_eq!(
        DisableTimer { name: "demo".to_string(), mode: Mode::System }.describe(Tense::Future),
        "Will disable systemd system timer: demo."
    );
}

#[test]
fn waiting_for_a_unit() {
    assert_eq!(wait_for_active(0, Ok(Some(ActiveState::Active))), WaitDecision::Done);
    assert_eq!(wait_for_active(9_999, Ok(Some(ActiveState::Activating))), WaitDecision::Sleep(50));
    assert_eq!(wait_for_active(10_000, Ok(Some(ActiveState::Active))), WaitDecision::Fail(WaitError::TimedOut));
    assert_eq!(wait_for_active(0, Ok(Some(ActiveState::Failed))), WaitDecision::Fail(WaitError::UnitFailed));
    assert_eq!(wait_for_active(0, Ok(None)), WaitDecision::Fail(WaitError::ServiceNotFound));
    assert_eq!(
        wait_for_active(0, Err(ApiError::MoreThenOneUnit)),
        WaitDecision::Fail(WaitError::ListUnits(ApiError::MoreThenOneUnit))
    );
    assert_eq!(wait_for_inactive(0, Ok(Some(ActiveState::Inactive))), WaitDecision::Done);
    assert_eq!(wait_for_inactive(0, Ok(Some(ActiveState::Failed))), WaitDecision::Sleep(50));
    assert_eq!(wait_for_inactive(0, Ok(Some(ActiveState::Deactivating))), WaitDecision::Sleep(50));
    assert_eq!(wait_for_inactive(20_000, Ok(Some(ActiveState::Inactive))), WaitDecision::Fail(WaitError::TimedOut));
    assert_eq!(wait_for_inactive(1, Ok(None)), WaitDecision::Fail(WaitError::ServiceNotFound));
    assert_eq!(unit_activity(&vec![]), Ok(None));
    assert_eq!(unit_activity(&vec![ActiveState::Reloading]), Ok(Some(ActiveState::Reloading)));
    assert_eq!(unit_activity(&vec![ActiveState::Active, ActiveState::Active]), Err(ApiError::MoreThenOneUnit));
    assert!(is_active(Some(ActiveState::Active)));
    assert!(!is_active(Some(ActiveState::Inactive)));
    assert!(!is_active(None));
}

#[test]
fn asking_systemd_through_its_program() {
    let enable = UnitAction::Enable("demo.service".to_string());
    assert_eq!(cli::arguments(&enable, Mode::System), vec!["enable", "demo.service"]);
    assert_eq!(cli::arguments(&enable, Mode::User), vec!["--user", "enable", "demo.service"]);
    for (action, verb) in [
        (UnitAction::Disable("u".to_string()), "disable"),
        (UnitAction::Start("u".to_string()), "start"),
        (UnitAction::Stop("u".to_string()), "stop"),
        (UnitAction::Restart("u".to_string()), "restart"),
        (UnitAction::WaitForActive("u".to_string()), "is-active"),
        (UnitAction::WaitForInactive("u".to_string()), "is-active"),
    ] {
        assert_eq!(cli::arguments(&action, Mode::System), vec![verb, "u"]);
    }
    assert_eq!(cli::systemctl(true, "ignored".to_string()), Ok(()));
    assert_eq!(
        cli::systemctl(false, "no such unit".to_string()),
        Err(SystemCtlError::Failed { reason: "no such unit".to_string() })
    );
    assert_eq!(cli::is_active(Some(0)), Ok(true));
    assert_eq!(cli::is_active(Some(3)), Ok(false));
    assert_eq!(cli::is_active(None), Err(SystemCtlError::Terminated));
}

#[test]
fn waiting_for_a_unit_through_the_program() {
    let late = SystemCtlError::DisableTimeOut;
    assert_eq!(cli::wait_for(0, true, Ok(true), late.clone()), cli::WaitDecision::Done);
    assert_eq!(cli::wait_for(0, false, Ok(false), late.clone()), cli::WaitDecision::Done);
    assert_eq!(cli::wait_for(999, false, Ok(true), late.clone()), cli::WaitDecision::Sleep(50));
    assert_eq!(
        cli::wait_for(1000, false, Ok(false), late.clone()),
        cli::WaitDecision::Fail(SystemCtlError::DisableTimeOut)
    );
    assert_eq!(
        cli::wait_for(0, true, Err(SystemCtlError::Terminated), late),
        cli::WaitDecision::Fail(SystemCtlError::Terminated)
    );
    assert_eq!(
        cli::timeout_error(&UnitAction::WaitForActive("u".to_string())),
        SystemCtlError::EnableTimeOut
    );
    assert_eq!(
        cli::timeout_error(&UnitAction::Restart("u".to_string())),
        SystemCtlError::RestartTimeOut
    );
    assert_eq!(
        cli::timeout_error(&UnitAction::Disable("u".to_string())),
        SystemCtlError::DisableTimeOut
    );
    assert_eq!(
        cli::timeout_error(&UnitAction::WaitForInactive("u".to_string())),
        SystemCtlError::StopTimeOut
    );
}
