use service_install::install::builder::{install_system, install_user, Trigger};
use service_install::install::files::process_parent::Process;
use service_install::install::init::cron::setup::Error as CronSetupError;
use service_install::install::init::cron::teardown::Error as CronTearDownError;
use service_install::install::init::cron::{GetCrontabError, Line};
use service_install::install::init::systemd::find::DirEntry;
use service_install::install::init::systemd::Error as SystemdError;
use service_install::install::init::{
    Params, PathCheckError, SetUpFacts, SetupError, System, TearDownError, TearDownFacts,
};
use service_install::install::{InstallStep, IoError, IoErrorKind, Mode, RemoveStep};
use service_install::schedule::{Schedule, TimeOfDay};

fn io_error(message: &str) -> IoError {
    IoError { kind: IoErrorKind::Other, message: message.to_string() }
}

fn pair(name: &str, value: &str) -> (String, String) {
    (name.to_string(), value.to_string())
}

#[test]
fn a_blank_spec() {
    let spec = install_user("demo");
    assert_eq!(spec.mode, Mode::User);
    assert_eq!(spec.bin_name, "demo");
    assert_eq!(spec.path, None);
    assert_eq!(spec.service_name, None);
    assert_eq!(spec.trigger, None);
    assert_eq!(spec.description, None);
    assert_eq!(spec.working_dir, None);
    assert_eq!(spec.run_as, None);
    assert!(spec.args.is_empty());
    assert!(spec.environment.is_empty());
    assert!(!spec.overwrite_existing);
    assert_eq!(spec.init_systems, None);
    assert_eq!(install_system("demo").mode, Mode::System);
}

#[test]
fn building_a_spec() {
    let time = TimeOfDay::new(10, 30, 0).unwrap();
    let spec = install_system("demo")
        .path("/build/demo")
        .service_name("my demo")
        .on_schedule(Schedule::Daily(time))
        .description("does things")
        .overwrite_existing(true)
        .arg("--first")
        .args(vec!["--second".to_string(), "third".to_string()])
        .env_var("A", "1")
        .env_vars(vec![pair("B", "2"), pair("A", "3"), pair("C", "4")])
        .env_var("B", "5")
        .working_dir("/var/lib/demo")
        .allowed_inits(vec![System::Cron])
        .run_as("www");
    assert_eq!(spec.path.as_deref(), Some("/build/demo"));
    assert_eq!(spec.environment, vec![pair("A", "3"), pair("B", "5"), pair("C", "4")]);
    let params = spec.params("/usr/bin/demo".to_string()).unwrap();
    assert_eq!(
        params,
        Params {
            name: "my demo".to_string(),
            bin_name: "demo".to_string(),
            description: Some("does things".to_string()),
            exe_path: "/usr/bin/demo".to_string(),
            exe_args: vec!["--first".to_string(), "--second".to_string(), "third".to_string()],
            environment: vec![pair("A", "3"), pair("B", "5"), pair("C", "4")],
            working_dir: Some("/var/lib/demo".to_string()),
            trigger: Trigger::OnSchedule(Schedule::Daily(time)),
            run_as: Some("www".to_string()),
            mode: Mode::System,
        }
    );
    assert_eq!(params.description(), "does things");
    assert_eq!(spec.init_systems, Some(vec![System::Cron]));
    assert!(spec.overwrite_existing);
}

#[test]
fn the_running_executable_as_path() {
    let spec = install_user("demo").current_exe(Ok("/build/demo".to_string())).unwrap();
    assert_eq!(spec.path.as_deref(), Some("/build/demo"));
    let spec = spec.service_name("demo").on_boot();
    let params = spec.params("/home/me/.local/bin/demo".to_string()).unwrap();
    assert_eq!(params.trigger, Trigger::OnBoot);
    assert_eq!(params.description(), "starts demo");
    assert_eq!(
        install_user("demo").current_exe(Err(io_error("gone"))).map(|_| ()),
        Err(io_error("gone"))
    );
}

#[test]
fn init_systems_by_name() {
    assert_eq!(System::all(), vec![System::Systemd, System::Cron]);
    assert_eq!(System::Systemd.name(), "Systemd");
    assert_eq!(System::Cron.name(), "Cron");
}

fn params(mode: Mode) -> Params {
    Params {
        name: "demo".to_string(),
        bin_name: "demo".to_string(),
        description: None,
        exe_path: "/usr/bin/demo".to_string(),
        exe_args: vec![],
        environment: vec![],
        working_dir: None,
        trigger: Trigger::OnBoot,
        run_as: None,
        mode,
    }
}

fn crontab_failure() -> GetCrontabError {
    GetCrontabError::CommandFailed { stderr: "no crontab for me".to_string() }
}

#[test]
fn each_init_system_sets_up_from_its_own_facts() {
    let facts = || SetUpFacts {
        home: Some("/home/me".to_string()),
        already_running: Ok(true),
        crontab: Err(crontab_failure()),
    };
    let steps = System::Systemd.set_up_steps(&params(Mode::User), facts()).unwrap();
    assert!(matches!(&steps[1], InstallStep::SystemdEnableService(enable) if enable.already_running));
    assert_eq!(
        System::Cron.set_up_steps(&params(Mode::User), facts()),
        Err(SetupError::Cron(CronSetupError::GetCrontab(crontab_failure())))
    );
    let facts = SetUpFacts {
        home: None,
        already_running: Err(SystemdError::CheckActive(
            service_install::install::init::systemd::api::Error::MoreThenOneUnit,
        )),
        crontab: Ok(vec![]),
    };
    let steps = System::Cron.set_up_steps(&params(Mode::User), facts).unwrap();
    assert!(matches!(&steps[..], [InstallStep::CronAdd(_)]));
}

#[test]
fn each_init_system_tears_down_from_its_own_facts() {
    let comment = [
        "# created by: 'demo' during its installation",
        "# might get removed by it in the future.",
        "# Remove this comment to prevent that",
        "@reboot /usr/bin/demo ",
    ];
    let crontab: Vec<Line> = comment
        .iter()
        .enumerate()
        .map(|(pos, text)| Line { pos, text: text.to_string() })
        .collect();
    let facts = |crontab| TearDownFacts {
        home: Some("/home/me".to_string()),
        entries: vec![DirEntry {
            path: "/home/me/.config/systemd/user/x.service".to_string(),
            is_dir: false,
            body: Ok("[Service]\nExecStart=/bin/x\n".to_string()),
            exe_is_file: true,
        }],
        crontab,
    };
    assert_eq!(
        System::Systemd.tear_down_steps("demo", Mode::User, None, facts(Ok(crontab.clone()))),
        Ok(None)
    );
    let (steps, exe) = System::Cron
        .tear_down_steps("demo", Mode::User, None, facts(Ok(crontab)))
        .unwrap()
        .unwrap();
    assert_eq!(exe, "/usr/bin/demo");
    assert!(matches!(&steps[..], [RemoveStep::CronRemoveInstalled(_)]));
    assert_eq!(
        System::Cron.tear_down_steps("demo", Mode::System, Some("www"), facts(Err(crontab_failure()))),
        Err(TearDownError::Cron(CronTearDownError::GetCrontab(crontab_failure())))
    );
}

#[test]
fn whether_an_init_system_is_there() {
    let cron = Process {
        pid: 2,
        parent: Some(1),
        exe: Some("/usr/sbin/cron".to_string()),
        cmd: vec!["/usr/sbin/cron".to_string(), "-f".to_string()],
        resolved: Ok("/usr/sbin/cron".to_string()),
    };
    let systemd: Result<String, IoError> = Ok("/usr/lib/systemd/systemd".to_string());
    let other: Result<String, IoError> = Ok("/sbin/init".to_string());
    assert_eq!(System::Systemd.not_available(&systemd, &vec![]), Ok(false));
    assert_eq!(System::Systemd.not_available(&other, &vec![]), Ok(true));
    assert_eq!(
        System::Systemd.not_available(&Err(io_error("denied")), &vec![]),
        Err(SetupError::Systemd(SystemdError::CheckingInitSys(PathCheckError(io_error("denied")))))
    );
    assert_eq!(System::Cron.not_available(&Err(io_error("denied")), &vec![]), Ok(true));
    assert_eq!(System::Cron.not_available(&other, &vec![cron]), Ok(false));
    assert_eq!(System::Systemd.is_init_path("/sbin/init", &systemd), Ok(true));
    assert_eq!(System::Cron.is_init_path("/usr/sbin/cron", &Err(io_error("x"))), Ok(true));
    assert_eq!(
        System::Systemd.is_init_path("/sbin/init", &Err(io_error("x"))),
        Err(PathCheckError(io_error("x")))
    );
}
