use service_install::container::{Buildah, CommandError, PathBuf};
use service_install::install::files::process_parent::{
    kill_old_steps, list, IdRes, KillOld, KillOldError, Process,
};
use service_install::install::files::{
    disable_if_running, install_location, make_removable_if_needed, move_files,
    remove_files, system_dir, user_dir, DisableError, FilesAlreadyInstalled, Found, InitFacts,
    Location, MakeReadExecOnly, MakeRemovable, Move, MoveBack, MoveError, NoHomeError, Remove,
    RestorePermissions, SetRootOwner, TargetInUseError,
};
use service_install::install::init::cron::disable::Kill;
use service_install::install::init::cron::{GetCrontabError, Line};
use service_install::install::init::systemd::disable_existing::{
    Disable, DisableError as SystemdDisableError, ServiceFile,
};
use service_install::install::init::systemd::unit::Unit;
use service_install::install::init::{PathCheckError, System};
use service_install::install::{
    InstallStep, IoError, IoErrorKind, Mode, RemoveStep, RollbackError, RollbackStep, StepOptions,
};
use service_install::Tense;

fn io_error(message: &str) -> IoError {
    IoError { kind: IoErrorKind::Other, message: message.to_string() }
}

fn not_found() -> IoError {
    IoError { kind: IoErrorKind::NotFound, message: "not found".to_string() }
}

fn strings(texts: &[&str]) -> Vec<String> {
    texts.iter().map(|s| s.to_string()).collect()
}

#[test]
fn install_directories() {
    assert_eq!(system_dir(&strings(&["/usr"])), Some("/usr/bin/".to_string()));
    assert_eq!(system_dir(&strings(&["/home/me/.local"])), None);
    assert_eq!(
        user_dir(Some("/home/me"), &strings(&["/usr", "/home/me/.local"])),
        Ok(Some("/home/me/.local/bin".to_string()))
    );
    assert_eq!(user_dir(Some("/home/me"), &strings(&["/usr"])), Ok(None));
    assert_eq!(user_dir(None, &strings(&["/usr"])), Err(NoHomeError));
}

#[test]
fn where_the_executable_goes() {
    let dirs = strings(&["/usr", "/home/me/.local"]);
    assert_eq!(
        install_location("/build/target/demo", Mode::User, Some("/home/me"), &dirs),
        Ok(Location {
            dir: "/home/me/.local/bin".to_string(),
            name: "demo".to_string(),
            target: "/home/me/.local/bin/demo".to_string(),
        })
    );
    assert_eq!(
        install_location("/build/target/demo", Mode::System, None, &dirs),
        Ok(Location {
            dir: "/usr/bin/".to_string(),
            name: "demo".to_string(),
            target: "/usr/bin/demo".to_string(),
        })
    );
    assert_eq!(
        install_location("/build/target/demo", Mode::User, None, &dirs),
        Err(MoveError::NoHome(NoHomeError))
    );
    assert_eq!(
        install_location("/build/target/demo", Mode::User, Some("/home/other"), &dirs),
        Err(MoveError::UserDirNotAvailable)
    );
    assert_eq!(
        install_location("/build/target/demo", Mode::System, None, &vec![]),
        Err(MoveError::SystemDirNotAvailable)
    );
    assert_eq!(
        install_location("/build/..", Mode::System, None, &dirs),
        Err(MoveError::SourceNotFile)
    );
}

fn place() -> Location {
    Location {
        dir: "/usr/bin/".to_string(),
        name: "demo".to_string(),
        target: "/usr/bin/demo".to_string(),
    }
}

fn nothing_there() -> Found {
    Found { is_file: false, current_exe: Err(io_error("not asked")), readonly: Err(not_found()) }
}

#[test]
fn placing_into_an_empty_location() {
    let (steps, target) = move_files(
        "/build/demo".to_string(),
        Mode::System,
        false,
        place(),
        nothing_there(),
        Ok(vec![]),
    )
    .unwrap();
    assert_eq!(target, "/usr/bin/demo");
    assert_eq!(
        steps,
        vec![
            InstallStep::Move(Move {
                name: "demo".to_string(),
                source: "/build/demo".to_string(),
                target: "/usr/bin/demo".to_string(),
            }),
            InstallStep::MakeReadExecOnly(MakeReadExecOnly { path: "/usr/bin/demo".to_string() }),
            InstallStep::SetRootOwner(SetRootOwner { path: "/usr/bin/demo".to_string() }),
        ]
    );
    let (steps, _) = move_files(
        "/build/demo".to_string(),
        Mode::User,
        false,
        place(),
        nothing_there(),
        Ok(vec![]),
    )
    .unwrap();
    assert_eq!(steps.len(), 2);
}

#[test]
fn installing_the_running_executable_over_itself_does_nothing() {
    let found = Found {
        is_file: true,
        current_exe: Ok("/usr/bin/demo".to_string()),
        readonly: Ok(true),
    };
    for overwrite in [false, true] {
        let found = Found {
            is_file: found.is_file,
            current_exe: found.current_exe.clone(),
            readonly: found.readonly.clone(),
        };
        let plan = move_files(
            "/usr/bin/demo".to_string(),
            Mode::System,
            overwrite,
            place(),
            found,
            Err(TargetInUseError::NoParent),
        );
        let notice = FilesAlreadyInstalled { target: "/usr/bin/demo".to_string() };
        assert_eq!(
            plan,
            Ok((vec![InstallStep::FilesAlreadyInstalled(notice.clone())], "/usr/bin/demo".to_string()))
        );
        assert_eq!(notice.options(), None);
        assert_eq!(InstallStep::FilesAlreadyInstalled(notice.clone()).options(), None);
        assert_eq!(
            notice.describe(Tense::Past),
            "this binary was already installed in the target location"
        );
        assert_eq!(
            notice.describe_detailed(Tense::Future),
            "this binary is already installed in the target location\n\t-target location: /usr/bin/demo"
        );
    }
}

#[test]
fn a_file_in_the_way_is_kept_unless_overwriting_is_allowed() {
    let found = || Found {
        is_file: true,
        current_exe: Ok("/build/demo".to_string()),
        readonly: Ok(true),
    };
    assert_eq!(
        move_files("/build/demo".to_string(), Mode::User, false, place(), found(), Ok(vec![])),
        Err(MoveError::TargetExists { name: "demo".to_string(), dir: "/usr/bin/".to_string() })
    );
    let free = vec![InstallStep::CronKill(Kill { pid: 9 })];
    let (steps, _) =
        move_files("/build/demo".to_string(), Mode::User, true, place(), found(), Ok(free.clone()))
            .unwrap();
    assert_eq!(steps.len(), 4);
    assert_eq!(steps[0], InstallStep::MakeRemovable(MakeRemovable("/usr/bin/demo".to_string())));
    assert_eq!(steps[1], free[0]);
    assert!(matches!(steps[2], InstallStep::Move(_)));
    assert!(matches!(steps[3], InstallStep::MakeReadExecOnly(_)));
    assert_eq!(steps[1].options(), Some(StepOptions::YesOrAbort));
}

#[test]
fn what_stops_the_placing() {
    let plan = move_files(
        "/build/demo".to_string(),
        Mode::User,
        true,
        place(),
        Found { is_file: true, current_exe: Err(io_error("no exe")), readonly: Ok(false) },
        Ok(vec![]),
    );
    assert_eq!(plan, Err(MoveError::ResolveCurrentExe(io_error("no exe"))));
    let plan = move_files(
        "/build/demo".to_string(),
        Mode::User,
        true,
        place(),
        Found { is_file: false, current_exe: Err(io_error("no exe")), readonly: Err(io_error("denied")) },
        Ok(vec![]),
    );
    assert_eq!(plan, Err(MoveError::CheckExistingFilePermissions(io_error("denied"))));
    let plan = move_files(
        "/build/demo".to_string(),
        Mode::User,
        true,
        place(),
        nothing_there(),
        Err(TargetInUseError::NoParent),
    );
    assert_eq!(plan, Err(MoveError::TargetInUse(TargetInUseError::NoParent)));
}

#[test]
fn making_removable() {
    assert_eq!(
        make_removable_if_needed("/x", Ok(true)),
        Ok(Some(InstallStep::MakeRemovable(MakeRemovable("/x".to_string()))))
    );
    assert_eq!(make_removable_if_needed("/x", Ok(false)), Ok(None));
    assert_eq!(make_removable_if_needed("/x", Err(not_found())), Ok(None));
    assert_eq!(
        make_removable_if_needed("/x", Err(io_error("denied"))),
        Err(MoveError::CheckExistingFilePermissions(io_error("denied")))
    );
}

#[test]
fn describing_the_file_steps() {
    let copy = Move {
        name: "demo".to_string(),
        source: "/build/target/demo".to_string(),
        target: "/usr/bin/demo".to_string(),
    };
    assert_eq!(copy.describe(Tense::Past), "Copied executable `demo` to:\n|\t/usr/bin.");
    assert_eq!(
        copy.describe_detailed(Tense::Questioning),
        "Copy executable `demo`?\n| from:\n|\t/build/target\n| to:\n|\t/usr/bin"
    );
    assert_eq!(
        copy.rollback(true),
        RollbackStep::MoveBack(MoveBack { target: "/usr/bin/demo".to_string() })
    );
    assert_eq!(
        copy.rollback(false),
        RollbackStep::Remove(RemoveStep::Remove(Remove { target: "/usr/bin/demo".to_string() }))
    );
    assert_eq!(
        MoveBack { target: "/x".to_string() }.describe(Tense::Future),
        "Will move back the file that was origonally at the install location."
    );
    let own = SetRootOwner { path: "/x".to_string() };
    assert_eq!(own.describe(Tense::Past), "Set executables owner to root.");
    assert_eq!(own.describe(Tense::Questioning), "Set executables owner to root?");
    assert_eq!(own.describe(Tense::Active), "Setting executables owner to root.");
    let make = MakeReadExecOnly { path: "/x".to_string() };
    assert_eq!(make.describe(Tense::Future), "Will make the executable read and execute only.");
    let restore = make.rollback(0o644);
    assert_eq!(restore, RestorePermissions { path: "/x".to_string(), org_permissions: 0o644 });
    assert_eq!(restore.describe(Tense::Past), "Restored executables previous permissions.");
    assert_eq!(restore.describe(Tense::Future), "Will Restore executables previous permissions.");
    assert_eq!(restore.outcome(Ok(())), Ok(()));
    assert_eq!(restore.outcome(Err(not_found())), Ok(()));
    assert_eq!(
        restore.outcome(Err(io_error("denied"))),
        Err(RollbackError::RestoringPermissions(io_error("denied")))
    );
    let removable = MakeRemovable("/usr/bin/demo".to_string());
    assert_eq!(
        removable.describe(Tense::Active),
        "Making the file taking up the install location removable."
    );
    assert_eq!(
        removable.describe_detailed(Tense::Past),
        "A read only file is taking up the install location. Made it removable by making it writable.\n| file:\n|\t/usr/bin/demo"
    );
    assert_eq!(removable.rollback(0o444).org_permissions, 0o444);
    let remove = remove_files("/usr/bin/demo".to_string());
    assert_eq!(remove.describe(Tense::Past), "Removed installed executable `demo`.");
    assert_eq!(
        remove.describe_detailed(Tense::Questioning),
        "Remove installed executable `demo`? Is installed at:\n|\t/usr/bin"
    );
}

#[test]
fn why_the_target_is_in_use() {
    assert_eq!(
        TargetInUseError::Parents(strings(&["/bin/bash", "/usr/bin/tmux"])).to_string(),
        "There is already a file at the install location. It can not be replaced as it is running.\n\tThe process tree that started that:\n\t`/bin/bash -> /usr/bin/tmux`\nIn this tree the arrow means left started the right process\n"
    );
    assert!(TargetInUseError::NoParent.to_string().ends_with("as it has no parent\n"));
    assert_eq!(
        TargetInUseError::CouldNotDisable(DisableError::SystemD(
            SystemdDisableError::NoServiceOrTimerFound
        ))
        .to_string(),
        "The file we need to replace is in use by a running service however we could not disable that service. Could not find the service or (timer) that keeps the file in use\n"
    );
    assert_eq!(
        DisableError::Cron(service_install::install::init::cron::disable::Error::NoRuleFound)
            .to_string(),
        "Failed to find a rule starting the target"
    );
    assert!(TargetInUseError::ResolvePath(PathCheckError(io_error("x")))
        .to_string()
        .ends_with("we failed to get information about it\n"));
}

fn process(pid: u32, parent: Option<u32>, exe: Option<&str>, cmd: &[&str]) -> Process {
    let path = exe.map(str::to_string).or_else(|| cmd.first().map(|s| s.to_string()));
    Process {
        pid,
        parent,
        exe: exe.map(str::to_string),
        cmd: strings(cmd),
        resolved: path.ok_or_else(|| io_error("no path")),
    }
}

#[test]
fn finding_who_started_the_target() {
    let table = vec![
        process(1, None, Some("/usr/lib/systemd/systemd"), &[]),
        process(10, Some(1), Some("/opt/demo"), &[]),
        process(11, Some(10), Some("/opt/demo"), &[]),
        process(20, Some(1), Some("/usr/sbin/cron"), &["/usr/sbin/cron", "-f"]),
        process(21, Some(20), None, &["/bin/sh", "-c", "demo"]),
        process(22, Some(21), Some("/opt/demo"), &[]),
        process(30, None, Some("/opt/demo"), &[]),
        process(40, Some(999), Some("/opt/demo"), &[]),
        process(50, Some(20), Some("/opt/demo"), &[]),
        process(60, Some(1), Some("/opt/other"), &[]),
    ];
    let both = vec![System::Systemd, System::Cron];
    assert_eq!(
        list("/opt/demo", &both, &table),
        Ok(vec![
            IdRes::ParentIsInit { init: System::Systemd, pid: 10 },
            IdRes::ParentNotInit {
                parents: strings(&["/bin/sh", "/usr/sbin/cron", "/usr/lib/systemd/systemd"]),
                pid: 22,
            },
            IdRes::NoParent,
            IdRes::NoParent,
            IdRes::ParentIsInit { init: System::Cron, pid: 50 },
        ])
    );
    assert_eq!(list("/opt/none", &both, &table), Ok(vec![]));
    let only_cron = vec![System::Cron];
    assert_eq!(
        list("/opt/other", &only_cron, &table),
        Ok(vec![IdRes::ParentNotInit {
            parents: strings(&["/usr/lib/systemd/systemd"]),
            pid: 60
        }])
    );
}

#[test]
fn a_parent_that_cannot_be_resolved() {
    let mut table = vec![
        process(1, None, Some("/sbin/init"), &[]),
        process(10, Some(1), Some("/opt/demo"), &[]),
    ];
    table[0].resolved = Err(io_error("denied"));
    assert_eq!(
        list("/opt/demo", &vec![System::Cron, System::Systemd], &table),
        Err(PathCheckError(io_error("denied")))
    );
    table[0].exe = Some("/usr/sbin/cron".to_string());
    assert_eq!(
        list("/opt/demo", &vec![System::Cron, System::Systemd], &table),
        Ok(vec![IdRes::ParentIsInit { init: System::Cron, pid: 10 }])
    );
    assert_eq!(
        IdRes::from_tree_and_pid(vec![], 5, &vec![System::Systemd], &Err(io_error("denied"))),
        Ok(IdRes::NoParent)
    );
}

#[test]
fn a_table_that_goes_in_circles_is_walked_once() {
    let table = vec![
        process(1, Some(2), Some("/a"), &[]),
        process(2, Some(1), Some("/b"), &[]),
        process(3, Some(1), Some("/opt/demo"), &[]),
    ];
    let found = list("/opt/demo", &vec![], &table).unwrap();
    assert_eq!(
        found,
        vec![IdRes::ParentNotInit { parents: strings(&["/a", "/b", "/a"]), pid: 3 }]
    );
}

#[test]
fn ending_an_old_process() {
    let kill = KillOld { pid: 77, parents: strings(&["/bin/bash", "/usr/bin/tmux"]) };
    assert_eq!(kill_old_steps(77, kill.parents.clone()), InstallStep::KillOld(kill.clone()));
    assert_eq!(kill.arguments(), strings(&["--signal", "TERM", "77"]));
    assert_eq!(kill.outcome(true, "ignored".to_string()), Ok(()));
    assert_eq!(
        kill.outcome(false, "no such process".to_string()),
        Err(KillOldError::KillFailed("no such process".to_string()))
    );
    assert_eq!(
        kill.describe(Tense::Questioning),
        "there is a program running with the same name taking up the install location terminate it?"
    );
    assert_eq!(
        kill.describe_detailed(Tense::Past),
        "there was a program running with the same name taking up the install location. It was was started by: /bin/bash\n\twhich was started by: /usr/bin/tmux\nIt had to be terminated before we could continue."
    );
    let alone = KillOld { pid: 1, parents: strings(&["/bin/bash"]) };
    assert_eq!(
        alone.describe_detailed(Tense::Active),
        "there is a program running with the same name taking up the install location. It was was started by: /bin/bash\nIt must be terminated before we can continue. Terminating might not work or the parent can restart the program. Stopping the program and continuing installation"
    );
}

fn unit(name: &str, extension: &str, body: &str) -> Unit {
    Unit {
        body: body.to_string(),
        path: format!("/u/{name}.{extension}"),
        file_name: format!("{name}.{extension}"),
        stem: name.to_string(),
    }
}

fn facts() -> InitFacts {
    InitFacts {
        units: Ok((
            vec![ServiceFile {
                unit: unit("demo", "service", "[Install]\nExecStart=/opt/demo\n"),
                exe_is_file: true,
            }],
            vec![],
        )),
        crontab: Ok(vec![Line { pos: 0, text: "@reboot /opt/demo".to_string() }]),
    }
}

#[test]
fn freeing_the_target_from_what_runs_it() {
    let running = vec![
        IdRes::ParentIsInit { init: System::Systemd, pid: 10 },
        IdRes::ParentNotInit { parents: strings(&["/bin/sh"]), pid: 22 },
        IdRes::ParentIsInit { init: System::Cron, pid: 50 },
    ];
    let steps = disable_if_running("/opt/demo", Ok(running), Mode::System, None, facts()).unwrap();
    assert_eq!(steps.len(), 4);
    assert_eq!(
        steps[0],
        InstallStep::SystemdDisable(Disable {
            services: vec![unit("demo", "service", "[Install]\nExecStart=/opt/demo\n")],
            timers: vec![],
            mode: Mode::System,
        })
    );
    assert_eq!(steps[1], InstallStep::KillOld(KillOld { pid: 22, parents: strings(&["/bin/sh"]) }));
    assert!(matches!(steps[2], InstallStep::CronCommentOutRule(_)));
    assert_eq!(steps[3], InstallStep::CronKill(Kill { pid: 50 }));
    assert_eq!(disable_if_running("/opt/demo", Ok(vec![]), Mode::User, None, facts()), Ok(vec![]));
}

#[test]
fn what_keeps_the_target_from_being_freed() {
    assert_eq!(
        disable_if_running(
            "/opt/demo",
            Err(PathCheckError(io_error("denied"))),
            Mode::User,
            None,
            facts()
        ),
        Err(TargetInUseError::ResolvePath(PathCheckError(io_error("denied"))))
    );
    let orphan = vec![IdRes::ParentNotInit { parents: strings(&["/bin/sh"]), pid: 1 }, IdRes::NoParent];
    assert_eq!(
        disable_if_running("/opt/demo", Ok(orphan), Mode::User, None, facts()),
        Err(TargetInUseError::NoParent)
    );
    let by_systemd = || vec![IdRes::ParentIsInit { init: System::Systemd, pid: 10 }];
    assert_eq!(
        disable_if_running("/opt/unknown", Ok(by_systemd()), Mode::User, None, facts()),
        Err(TargetInUseError::CouldNotDisable(DisableError::SystemD(
            SystemdDisableError::NoServiceOrTimerFound
        )))
    );
    let unreadable = InitFacts {
        units: Err(SystemdDisableError::NoServiceOrTimerFound),
        crontab: Err(GetCrontabError::CommandFailed { stderr: "no crontab".to_string() }),
    };
    assert_eq!(
        System::Cron.disable_steps("/opt/demo", 5, Mode::User, None, unreadable),
        Err(TargetInUseError::CouldNotDisable(DisableError::Cron(
            service_install::install::init::cron::disable::Error::GetCrontab(
                GetCrontabError::CommandFailed { stderr: "no crontab".to_string() }
            )
        )))
    );
    assert_eq!(
        System::Systemd.disable_steps("/opt/demo", 5, Mode::User, None, facts()).map(|s| s.len()),
        Ok(1)
    );
}

#[test]
fn paths_in_a_container() {
    let path = PathBuf { local_path: "etc/systemd".to_string(), mount_path: "/mnt/c1".to_string() };
    assert_eq!(path.as_incorrect_std_path(), "etc/systemd");
    assert_eq!(path.clone().into_incorrect_std_path(), "etc/systemd");
    assert_eq!(path.into_std_path(), "/mnt/c1/etc/systemd");
    let absolute = PathBuf { local_path: "/etc".to_string(), mount_path: "/mnt/c1".to_string() };
    assert_eq!(absolute.into_std_path(), "/etc");
}

#[test]
fn results_of_the_image_tool() {
    let failed = |stderr: &str| Err(CommandError::Failed { stderr: stderr.to_string() });
    assert_eq!(Buildah::remove_image(Ok("deleted".to_string())), Ok(()));
    assert_eq!(Buildah::remove_image(failed("Error: no image with name or ID \"x\" found")), Ok(()));
    assert_eq!(
        Buildah::remove_image(failed("Error: image is in use")),
        Err(CommandError::Failed { stderr: "Error: image is in use".to_string() })
    );
    assert_eq!(
        Buildah::remove_image(Err(CommandError::Io(io_error("no podman")))),
        Err(CommandError::Io(io_error("no podman")))
    );
    assert_eq!(Buildah::rename(Ok(String::new())), Ok(()));
    assert_eq!(Buildah::rename(failed("x")), failed("x").map(|_: String| ()));
    assert_eq!(Buildah::build(Ok(String::new())), Ok(()));
    assert_eq!(
        Buildah::build(Err(CommandError::Io(io_error("no podman")))),
        Err(CommandError::Io(io_error("no podman")))
    );
}
