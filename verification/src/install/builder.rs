//! What the caller sets before an installation is prepared.
//!
//! A `Spec` is filled in step by step. Its type keeps track of whether the
//! path, the name and the trigger were set, so that an installation can be
//! prepared only from one that has all three.

use vstd::prelude::*;
use vstd::string::*;
use std::marker::PhantomData;
use crate::schedule::Schedule;
use crate::install::{IoError, Mode};
use crate::install::init::{is_variable_name, Params, System};
use crate::text::{opt_text, str_eq};

verus! {

/// What starts the installed program.
#[derive(Debug, Clone, Copy, PartialEq, Eq)]
pub enum Trigger {
    /// It runs at the times of the schedule.
    OnSchedule(Schedule),
    /// It is started when the machine boots.
    OnBoot,
}

/// A mark in the type of a `Spec`: something is set, or is not.
pub trait ToAssign {

}

pub struct PathIsSet;

pub struct PathNotSet;

pub struct NameIsSet;

pub struct NameNotSet;

pub struct TriggerIsSet;

pub struct TriggerNotSet;

pub struct InstallTypeNotSet;

pub struct UserInstall;

pub struct SystemInstall;

impl ToAssign for PathIsSet {

}

impl ToAssign for PathNotSet {

}

impl ToAssign for NameIsSet {

}

impl ToAssign for NameNotSet {

}

impl ToAssign for TriggerIsSet {

}

impl ToAssign for TriggerNotSet {

}

impl ToAssign for InstallTypeNotSet {

}

impl ToAssign for UserInstall {

}

impl ToAssign for SystemInstall {

}

/// What is to be installed, and how. It is needed to prepare an
/// installation and to prepare the removal of one.
pub struct Spec<Path: ToAssign, Name: ToAssign, TriggerSet: ToAssign, InstallType: ToAssign> {
    pub mode: Mode,
    pub path: Option<String>,
    pub service_name: Option<String>,
    pub trigger: Option<Trigger>,
    pub description: Option<String>,
    pub working_dir: Option<String>,
    pub run_as: Option<String>,
    pub args: Vec<String>,
    /// The environment variables and their values, in the order in which
    /// they were set; no name stands there twice.
    pub environment: Vec<(String, String)>,
    pub bin_name: String,
    pub overwrite_existing: bool,
    /// The init systems that may be used; all where none are given.
    pub init_systems: Option<Vec<System>>,
    pub path_set: PhantomData<Path>,
    pub name_set: PhantomData<Name>,
    pub trigger_set: PhantomData<TriggerSet>,
    pub install_type: PhantomData<InstallType>,
}

/// What a `Spec` holds, whatever its type says is set.
pub struct Settings {
    pub mode: Mode,
    pub path: Option<Seq<char>>,
    pub service_name: Option<Seq<char>>,
    pub trigger: Option<Trigger>,
    pub description: Option<Seq<char>>,
    pub working_dir: Option<Seq<char>>,
    pub run_as: Option<Seq<char>>,
    pub args: Seq<Seq<char>>,
    pub environment: Seq<(Seq<char>, Seq<char>)>,
    pub bin_name: Seq<char>,
    pub overwrite_existing: bool,
    pub init_systems: Option<Seq<System>>,
}

/// The names and values as text.
pub open spec fn pairs(environment: Seq<(String, String)>) -> Seq<(Seq<char>, Seq<char>)> {
    Seq::new(environment.len(), |i: int| (environment[i].0@, environment[i].1@))
}

/// `environment` with `name` set to `value`: in place where `name` is set
/// already, at the end otherwise.
pub open spec fn with_variable(
    environment: Seq<(Seq<char>, Seq<char>)>,
    name: Seq<char>,
    value: Seq<char>,
) -> Seq<(Seq<char>, Seq<char>)>
    decreases environment.len(),
{
    if environment.len() == 0 {
        seq![(name, value)]
    } else if environment[0].0 == name {
        seq![(name, value)] + environment.drop_first()
    } else {
        seq![environment[0]] + with_variable(environment.drop_first(), name, value)
    }
}

/// `environment` with every one of `vars` set, in order.
pub open spec fn with_variables(
    environment: Seq<(Seq<char>, Seq<char>)>,
    vars: Seq<(Seq<char>, Seq<char>)>,
) -> Seq<(Seq<char>, Seq<char>)>
    decreases vars.len(),
{
    if vars.len() == 0 {
        environment
    } else {
        with_variable(with_variables(environment, vars.drop_last()), vars.last().0, vars.last().1)
    }
}

fn set_variable(environment: &mut Vec<(String, String)>, name: String, value: String)
    ensures
        pairs(final(environment)@) == with_variable(pairs(old(environment)@), name@, value@),
{
    let ghost before = pairs(environment@);
    let mut i: usize = 0;
    assert(before.skip(0) =~= before);
    assert(before.take(0) + with_variable(before, name@, value@) =~= with_variable(
        before,
        name@,
        value@,
    ));
    while i < environment.len()
        invariant
            i <= environment.len(),
            before == pairs(old(environment)@),
            pairs(environment@) == before,
            forall|j: int| 0 <= j < i ==> (#[trigger] before[j]).0 != name@,
            with_variable(before, name@, value@) == before.take(i as int) + with_variable(
                before.skip(i as int),
                name@,
                value@,
            ),
        decreases environment.len() - i,
    {
        let ghost rest = before.skip(i as int);
        assert(rest[0] == before[i as int]);
        assert(rest.drop_first() =~= before.skip(i + 1));
        if str_eq(environment[i].0.as_str(), name.as_str()) {
            environment.set(i, (name, value));
            assert(pairs(environment@) =~= before.take(i as int) + (seq![(name@, value@)]
                + before.skip(i + 1))) by {
                assert forall|k: int| 0 <= k < before.len() && k != i implies pairs(
                    environment@,
                )[k] == before[k] by {
                    assert(pairs(old(environment)@)[k] == before[k]);
                }
            }
            return ;
        }
        assert(before.take(i + 1) =~= before.take(i as int) + seq![before[i as int]]);
        assert(before.take(i as int) + (seq![before[i as int]] + with_variable(
            before.skip(i + 1),
            name@,
            value@,
        )) =~= before.take(i + 1) + with_variable(before.skip(i + 1), name@, value@));
        i += 1;
    }
    environment.push((name, value));
    assert(before.skip(before.len() as int) =~= Seq::<(Seq<char>, Seq<char>)>::empty());
    assert(before.take(before.len() as int) =~= before);
    assert(pairs(environment@) =~= before + seq![(name@, value@)]);
}

/// The settings of an installation for the whole machine, by the binary
/// `bin_name`, with nothing else set.
pub fn install_system(bin_name: &str) -> (spec: Spec<
    PathNotSet,
    NameNotSet,
    TriggerNotSet,
    SystemInstall,
>)
    ensures
        spec.settings() == Settings::blank(Mode::System, bin_name@),
        spec.settings().wf(),
{
    let spec = Spec {
        mode: Mode::System,
        path: None,
        service_name: None,
        trigger: None,
        description: None,
        working_dir: None,
        run_as: None,
        args: Vec::new(),
        environment: Vec::new(),
        bin_name: String::from_str(bin_name),
        overwrite_existing: false,
        init_systems: None,
        path_set: PhantomData,
        name_set: PhantomData,
        trigger_set: PhantomData,
        install_type: PhantomData,
    };
    assert(spec.settings().args =~= Seq::<Seq<char>>::empty());
    assert(spec.settings().environment =~= Seq::<(Seq<char>, Seq<char>)>::empty());
    spec
}

/// The settings of an installation for the current user, by the binary
/// `bin_name`, with nothing else set.
pub fn install_user(bin_name: &str) -> (spec: Spec<
    PathNotSet,
    NameNotSet,
    TriggerNotSet,
    UserInstall,
>)
    ensures
        spec.settings() == Settings::blank(Mode::User, bin_name@),
        spec.settings().wf(),
{
    let spec = Spec {
        mode: Mode::User,
        path: None,
        service_name: None,
        trigger: None,
        description: None,
        working_dir: None,
        run_as: None,
        args: Vec::new(),
        environment: Vec::new(),
        bin_name: String::from_str(bin_name),
        overwrite_existing: false,
        init_systems: None,
        path_set: PhantomData,
        name_set: PhantomData,
        trigger_set: PhantomData,
        install_type: PhantomData,
    };
    assert(spec.settings().args =~= Seq::<Seq<char>>::empty());
    assert(spec.settings().environment =~= Seq::<(Seq<char>, Seq<char>)>::empty());
    spec
}

/// Setting a variable with a proper name keeps all names proper.
pub proof fn lemma_with_variable_named(
    environment: Seq<(Seq<char>, Seq<char>)>,
    name: Seq<char>,
    value: Seq<char>,
)
    requires
        is_variable_name(name),
        forall|i: int|
            0 <= i < environment.len() ==> is_variable_name((#[trigger] environment[i]).0),
    ensures
        forall|i: int|
            0 <= i < with_variable(environment, name, value).len() ==> is_variable_name(
                (#[trigger] with_variable(environment, name, value)[i]).0,
            ),
    decreases environment.len(),
{
    let after = with_variable(environment, name, value);
    if environment.len() > 0 && environment[0].0 != name {
        let rest = environment.drop_first();
        assert forall|i: int| 0 <= i < rest.len() implies is_variable_name(
            (#[trigger] rest[i]).0,
        ) by {
            assert(rest[i] == environment[i + 1]);
        }
        lemma_with_variable_named(rest, name, value);
        assert forall|i: int| 0 <= i < after.len() implies is_variable_name(
            (#[trigger] after[i]).0,
        ) by {
            if i > 0 {
                assert(after[i] == with_variable(rest, name, value)[i - 1]);
            }
        }
    } else if environment.len() > 0 {
        assert forall|i: int| 0 <= i < after.len() implies is_variable_name(
            (#[trigger] after[i]).0,
        ) by {
            if i > 0 {
                assert(after[i] == environment[i]);
            }
        }
    }
}

/// Setting variables with proper names keeps all names proper.
pub proof fn lemma_with_variables_named(
    environment: Seq<(Seq<char>, Seq<char>)>,
    vars: Seq<(Seq<char>, Seq<char>)>,
)
    requires
        forall|i: int| 0 <= i < vars.len() ==> is_variable_name((#[trigger] vars[i]).0),
        forall|i: int|
            0 <= i < environment.len() ==> is_variable_name((#[trigger] environment[i]).0),
    ensures
        forall|i: int|
            0 <= i < with_variables(environment, vars).len() ==> is_variable_name(
                (#[trigger] with_variables(environment, vars)[i]).0,
            ),
    decreases vars.len(),
{
    if vars.len() > 0 {
        let first = vars.drop_last();
        assert forall|i: int| 0 <= i < first.len() implies is_variable_name(
            (#[trigger] first[i]).0,
        ) by {
            assert(first[i] == vars[i]);
        }
        lemma_with_variables_named(environment, first);
        lemma_with_variable_named(with_variables(environment, first), vars.last().0, vars.last().1);
    }
}

impl Settings {
    /// Whether the settings are in order: no name of an environment
    /// variable holds an equals sign.
    pub open spec fn wf(self) -> bool {
        forall|i: int|
            0 <= i < self.environment.len() ==> is_variable_name((#[trigger] self.environment[i]).0)
    }

    /// The settings in which nothing but the mode and the name of the
    /// binary is set.
    pub open spec fn blank(mode: Mode, bin_name: Seq<char>) -> Settings {
        Settings {
            mode,
            path: None,
            service_name: None,
            trigger: None,
            description: None,
            working_dir: None,
            run_as: None,
            args: Seq::empty(),
            environment: Seq::empty(),
            bin_name,
            overwrite_existing: false,
            init_systems: None,
        }
    }
}

impl<Path: ToAssign, Name: ToAssign, TriggerSet: ToAssign> Spec<
    Path,
    Name,
    TriggerSet,
    SystemInstall,
> {
    /// Sets the user that the service runs as. Only an installation for
    /// the whole machine can run a service as another user.
    pub fn run_as(self, user: &str) -> (spec: Self)
        ensures
            spec.settings() == (Settings { run_as: Some(user@), ..self.settings() }),
    {
        let mut spec = self;
        spec.run_as = Some(String::from_str(user));
        spec
    }
}

impl<Path: ToAssign, Name: ToAssign, TriggerSet: ToAssign, InstallType: ToAssign> Spec<
    Path,
    Name,
    TriggerSet,
    InstallType,
> {
    /// What is set.
    pub open spec fn settings(&self) -> Settings {
        Settings {
            mode: self.mode,
            path: opt_text(self.path),
            service_name: opt_text(self.service_name),
            trigger: self.trigger,
            description: opt_text(self.description),
            working_dir: opt_text(self.working_dir),
            run_as: opt_text(self.run_as),
            args: crate::text::texts(self.args@),
            environment: pairs(self.environment@),
            bin_name: self.bin_name@,
            overwrite_existing: self.overwrite_existing,
            init_systems: match self.init_systems {
                Some(list) => Some(list@),
                None => None,
            },
        }
    }

    /// Sets the path of the executable to install.
    pub fn path(self, path: &str) -> (spec: Spec<PathIsSet, Name, TriggerSet, InstallType>)
        ensures
            spec.settings() == (Settings { path: Some(path@), ..self.settings() }),
    {
        Spec {
            mode: self.mode,
            path: Some(String::from_str(path)),
            service_name: self.service_name,
            trigger: self.trigger,
            description: self.description,
            working_dir: self.working_dir,
            run_as: self.run_as,
            args: self.args,
            environment: self.environment,
            bin_name: self.bin_name,
            overwrite_existing: self.overwrite_existing,
            init_systems: self.init_systems,
            path_set: PhantomData,
            name_set: PhantomData,
            trigger_set: PhantomData,
            install_type: PhantomData,
        }
    }

    /// Sets the running executable as the one to install. `exe` is its
    /// path as the caller found it, or why it is not known.
    pub fn current_exe(self, exe: Result<String, IoError>) -> (spec: Result<
        Spec<PathIsSet, Name, TriggerSet, InstallType>,
        IoError,
    >)
        ensures
            match exe {
                Ok(path) => spec matches Ok(set) && set.settings() == (Settings {
                    path: Some(path@),
                    ..self.settings()
                }),
                Err(e) => spec matches Err(error) && error == e,
            },
    {
        match exe {
            Ok(path) => Ok(self.path(path.as_str())),
            Err(e) => Err(e),
        }
    }

    /// Sets the name of the service.
    pub fn service_name(self, service_name: &str) -> (spec: Spec<
        Path,
        NameIsSet,
        TriggerSet,
        InstallType,
    >)
        ensures
            spec.settings() == (Settings { service_name: Some(service_name@), ..self.settings() }),
    {
        Spec {
            mode: self.mode,
            path: self.path,
            service_name: Some(String::from_str(service_name)),
            trigger: self.trigger,
            description: self.description,
            working_dir: self.working_dir,
            run_as: self.run_as,
            args: self.args,
            environment: self.environment,
            bin_name: self.bin_name,
            overwrite_existing: self.overwrite_existing,
            init_systems: self.init_systems,
            path_set: PhantomData,
            name_set: PhantomData,
            trigger_set: PhantomData,
            install_type: PhantomData,
        }
    }

    /// Has the service started at the times of `schedule`.
    pub fn on_schedule(self, schedule: Schedule) -> (spec: Spec<
        Path,
        Name,
        TriggerIsSet,
        InstallType,
    >)
        ensures
            spec.settings() == (Settings {
                trigger: Some(Trigger::OnSchedule(schedule)),
                ..self.settings()
            }),
    {
        Spec {
            mode: self.mode,
            path: self.path,
            service_name: self.service_name,
            trigger: Some(Trigger::OnSchedule(schedule)),
            description: self.description,
            working_dir: self.working_dir,
            run_as: self.run_as,
            args: self.args,
            environment: self.environment,
            bin_name: self.bin_name,
            overwrite_existing: self.overwrite_existing,
            init_systems: self.init_systems,
            path_set: PhantomData,
            name_set: PhantomData,
            trigger_set: PhantomData,
            install_type: PhantomData,
        }
    }

    /// Has the service started when the machine boots.
    pub fn on_boot(self) -> (spec: Spec<Path, Name, TriggerIsSet, InstallType>)
        ensures
            spec.settings() == (Settings { trigger: Some(Trigger::OnBoot), ..self.settings() }),
    {
        Spec {
            mode: self.mode,
            path: self.path,
            service_name: self.service_name,
            trigger: Some(Trigger::OnBoot),
            description: self.description,
            working_dir: self.working_dir,
            run_as: self.run_as,
            args: self.args,
            environment: self.environment,
            bin_name: self.bin_name,
            overwrite_existing: self.overwrite_existing,
            init_systems: self.init_systems,
            path_set: PhantomData,
            name_set: PhantomData,
            trigger_set: PhantomData,
            install_type: PhantomData,
        }
    }

    /// Says in words what the service is for.
    pub fn description(self, description: &str) -> (spec: Self)
        ensures
            spec.settings() == (Settings { description: Some(description@), ..self.settings() }),
    {
        let mut spec = self;
        spec.description = Some(String::from_str(description));
        spec
    }

    /// Says whether a file that is at the install location already may be
    /// overwritten.
    pub fn overwrite_existing(self, overwrite: bool) -> (spec: Self)
        ensures
            spec.settings() == (Settings { overwrite_existing: overwrite, ..self.settings() }),
    {
        let mut spec = self;
        spec.overwrite_existing = overwrite;
        spec
    }

    /// Adds arguments that the executable is started with, behind those
    /// that were added before.
    pub fn args(self, args: Vec<String>) -> (spec: Self)
        ensures
            spec.settings() == (Settings {
                args: self.settings().args + crate::text::texts(args@),
                ..self.settings()
            }),
    {
        let mut spec = self;
        let mut args = args;
        let ghost before = crate::text::texts(spec.args@);
        let ghost added = crate::text::texts(args@);
        spec.args.append(&mut args);
        assert(crate::text::texts(spec.args@) =~= before + added);
        spec
    }

    /// Adds one argument that the executable is started with, behind those
    /// that were added before.
    pub fn arg(self, arg: &str) -> (spec: Self)
        ensures
            spec.settings() == (Settings {
                args: self.settings().args.push(arg@),
                ..self.settings()
            }),
    {
        let mut spec = self;
        let ghost before = crate::text::texts(spec.args@);
        spec.args.push(String::from_str(arg));
        assert(crate::text::texts(spec.args@) =~= before.push(arg@));
        spec
    }

    /// Sets environment variables that the executable is started with. A
    /// variable that is set already gets the new value.
    pub fn env_vars(self, vars: Vec<(String, String)>) -> (spec: Self)
        requires
            forall|i: int| 0 <= i < vars.len() ==> is_variable_name((#[trigger] vars[i]).0@),
        ensures
            spec.settings() == (Settings {
                environment: with_variables(self.settings().environment, pairs(vars@)),
                ..self.settings()
            }),
            self.settings().wf() ==> spec.settings().wf(),
    {
        proof {
            if self.settings().wf() {
                assert forall|i: int| 0 <= i < pairs(vars@).len() implies is_variable_name(
                    (#[trigger] pairs(vars@)[i]).0,
                ) by {
                    assert(pairs(vars@)[i].0 == vars[i].0@);
                }
                lemma_with_variables_named(self.settings().environment, pairs(vars@));
            }
        }
        let mut spec = self;
        let mut i: usize = 0;
        let ghost start = pairs(spec.environment@);
        let ghost all = pairs(vars@);
        assert(all.take(0) =~= Seq::<(Seq<char>, Seq<char>)>::empty());
        while i < vars.len()
            invariant
                i <= vars.len(),
                all == pairs(vars@),
                spec.settings() == (Settings {
                    environment: with_variables(start, all.take(i as int)),
                    ..self.settings()
                }),
            decreases vars.len() - i,
        {
            assert(all.take(i + 1).drop_last() =~= all.take(i as int));
            assert(all.take(i + 1).last() == all[i as int]);
            set_variable(&mut spec.environment, vars[i].0.clone(), vars[i].1.clone());
            i += 1;
        }
        assert(all.take(vars.len() as int) =~= all);
        spec
    }

    /// Sets one environment variable that the executable is started with.
    /// A variable that is set already gets the new value.
    pub fn env_var(self, variable: &str, value: &str) -> (spec: Self)
        requires
            is_variable_name(variable@),
        ensures
            spec.settings() == (Settings {
                environment: with_variable(self.settings().environment, variable@, value@),
                ..self.settings()
            }),
            self.settings().wf() ==> spec.settings().wf(),
    {
        proof {
            if self.settings().wf() {
                lemma_with_variable_named(self.settings().environment, variable@, value@);
            }
        }
        let mut spec = self;
        set_variable(&mut spec.environment, String::from_str(variable), String::from_str(value));
        spec
    }

    /// Sets the directory that the executable is started in.
    pub fn working_dir(self, dir: &str) -> (spec: Self)
        ensures
            spec.settings() == (Settings { working_dir: Some(dir@), ..self.settings() }),
    {
        let mut spec = self;
        spec.working_dir = Some(String::from_str(dir));
        spec
    }

    /// Sets the init systems that may be used, in the order in which they
    /// are tried.
    pub fn allowed_inits(self, allowed: Vec<System>) -> (spec: Self)
        ensures
            spec.settings() == (Settings { init_systems: Some(allowed@), ..self.settings() }),
    {
        let mut spec = self;
        spec.init_systems = Some(allowed);
        spec
    }
}

impl<InstallType: ToAssign> Spec<PathIsSet, NameIsSet, TriggerIsSet, InstallType> {
    /// What the init systems are told about the service, once the
    /// executable was placed at `exe_path`. Nothing where the name or the
    /// trigger is missing after all.
    pub fn params(&self, exe_path: String) -> (params: Option<Params>)
        ensures
            match params {
                None => self.service_name is None || self.trigger is None,
                Some(p) => {
                    &&& Some(p.name@) == self.settings().service_name
                    &&& Some(p.trigger) == self.trigger
                    &&& p.bin_name@ == self.bin_name@
                    &&& opt_text(p.description) == self.settings().description
                    &&& p.exe_path == exe_path
                    &&& crate::text::texts(p.exe_args@) == self.settings().args
                    &&& pairs(p.environment@) == self.settings().environment
                    &&& opt_text(p.working_dir) == self.settings().working_dir
                    &&& opt_text(p.run_as) == self.settings().run_as
                    &&& p.mode == self.mode
                    &&& self.settings().wf() ==> p.wf()
                },
            },
    {
        let name = match &self.service_name {
            Some(name) => name.clone(),
            None => {
                return None;
            },
        };
        let trigger = match self.trigger {
            Some(trigger) => trigger,
            None => {
                return None;
            },
        };
        let mut exe_args: Vec<String> = Vec::new();
        let mut i: usize = 0;
        while i < self.args.len()
            invariant
                i <= self.args.len(),
                exe_args@ == self.args@.take(i as int),
            decreases self.args.len() - i,
        {
            exe_args.push(self.args[i].clone());
            assert(exe_args@ =~= self.args@.take(i + 1));
            i += 1;
        }
        assert(self.args@.take(self.args.len() as int) =~= self.args@);
        let mut environment: Vec<(String, String)> = Vec::new();
        let mut j: usize = 0;
        while j < self.environment.len()
            invariant
                j <= self.environment.len(),
                environment@ == self.environment@.take(j as int),
            decreases self.environment.len() - j,
        {
            environment.push((self.environment[j].0.clone(), self.environment[j].1.clone()));
            assert(environment@ =~= self.environment@.take(j + 1));
            j += 1;
        }
        assert(self.environment@.take(self.environment.len() as int) =~= self.environment@);
        proof {
            if self.settings().wf() {
                assert forall|i: int| 0 <= i < environment.len() implies is_variable_name(
                    (#[trigger] environment[i]).0@,
                ) by {
                    assert(environment[i] == self.environment[i]);
                    assert(self.settings().environment[i].0 == self.environment[i].0@);
                }
            }
        }
        Some(
            Params {
                name,
                bin_name: self.bin_name.clone(),
                description: match &self.description {
                    Some(d) => Some(d.clone()),
                    None => None,
                },
                exe_path,
                exe_args,
                environment,
                working_dir: match &self.working_dir {
                    Some(d) => Some(d.clone()),
                    None => None,
                },
                trigger,
                run_as: match &self.run_as {
                    Some(u) => Some(u.clone()),
                    None => None,
                },
                mode: self.mode,
            },
        )
    }
}

} // verus!
