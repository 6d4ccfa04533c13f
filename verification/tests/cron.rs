use service_install::install::builder::Trigger;
use service_install::install::init::cron::disable::{
    find_rule, step, CommentOutRule, Kill, KillDecision, RollbackCommentOut, Signal,
};
use service_install::install::init::cron::setup::{render_rule, set_up_steps, Add, RemovePrevious};
use service_install::install::init::cron::teardown::{
    filter_out, from_rule, tear_down_steps, CrontabChanged, RemoveInstalled,
};
use service_install::install::init::cron::{
    crontab_lines, find_block, is_init_path, list_arguments, listed, not_available, replaced,
    set_arguments, GetCrontabError, Line, RollbackImpossible, SetCrontabError,
};
use service_install::install::files::process_parent::Process;
use service_install::install::init::{autogenerated_comment, Params};
use service_install::install::{InstallStep, IoError, IoErrorKind, Mode, RemoveStep};
use service_install::schedule::{Schedule, TimeOfDay};
use service_install::text::split_lines;
use service_install::Tense;

fn params(trigger: Trigger) -> Params {
    Params {
        name: "demo".to_string(),
        bin_name: "demo".to_string(),
        description: None,
        exe_path: "/home/me/.local/bin/demo".to_string(),
        exe_args: vec![],
        environment: vec![],
        working_dir: None,
        trigger,
        run_as: None,
        mode: Mode::User,
    }
}

fn daily(hour: u8, minute: u8, second: u8) -> Trigger {
    Trigger::OnSchedule(Schedule::Daily(TimeOfDay::new(hour, minute, second).unwrap()))
}

fn lines(texts: &[&str]) -> Vec<Line> {
    texts.iter().enumerate().map(|(pos, text)| Line { pos, text: text.to_string() }).collect()
}

const COMMENT: [&str; 3] = [
    "# created by: 'demo' during its installation",
    "# might get removed by it in the future.",
    "# Remove this comment to prevent that",
];

#[test]
fn test_from_rule() {
    let case = "10 10 * * *  '/home/david/.local/hi bin/cron_only'";
    assert_eq!(&from_rule(case), "/home/david/.local/hi bin/cron_only")
}

#[test]
fn from_rule_behind_reboot_and_change_of_directory() {
    assert_eq!(from_rule("@reboot /usr/bin/demo --flag"), "/usr/bin/demo");
    assert_eq!(from_rule("@reboot cd /tmp && '/opt/my app/run' now"), "/opt/my app/run");
    assert_eq!(from_rule("5 4 * * * cd '/a b' && /usr/bin/demo"), "/usr/bin/demo");
    assert_eq!(from_rule("5 4 * *"), "");
    assert_eq!(from_rule(""), "");
}

#[test]
fn from_rule_recovers_the_path_of_a_rendered_rule() {
    for path in ["a b/exe", "a'b/exe", "abc", "v", "/usr/bin/demo"] {
        for trigger in [Trigger::OnBoot, daily(4, 5, 0)] {
            let mut p = params(trigger);
            p.exe_path = path.to_string();
            p.exe_args = vec!["--flag".to_string(), "two words".to_string()];
            assert_eq!(from_rule(&render_rule(&p)), path);
            p.working_dir = Some("/var/lib/my demo".to_string());
            assert_eq!(from_rule(&render_rule(&p)), path);
        }
    }
}

#[test]
fn rule_on_boot() {
    assert_eq!(render_rule(&params(Trigger::OnBoot)), "@reboot /home/me/.local/bin/demo ");
}

#[test]
fn rule_on_schedule() {
    let mut p = params(daily(10, 5, 30));
    p.exe_args = vec!["--config".to_string(), "my file".to_string()];
    assert_eq!(render_rule(&p), "5 10 * * * /home/me/.local/bin/demo --config 'my file'");
}

#[test]
fn rule_with_directory_and_environment() {
    let mut p = params(Trigger::OnBoot);
    p.working_dir = Some("/var/lib/my demo".to_string());
    p.environment =
        vec![("KEY".to_string(), "value".to_string()), ("OTHER".to_string(), "a b".to_string())];
    p.exe_args = vec!["go".to_string()];
    assert_eq!(
        render_rule(&p),
        "@reboot cd '/var/lib/my demo' && export KEY=value OTHER='a b'; /home/me/.local/bin/demo go"
    );
}

#[test]
fn time_of_day_has_to_exist() {
    assert!(TimeOfDay::new(23, 59, 59).is_some());
    assert!(TimeOfDay::new(24, 0, 0).is_none());
    assert!(TimeOfDay::new(0, 60, 0).is_none());
    assert!(TimeOfDay::new(0, 0, 60).is_none());
    let t = TimeOfDay::new(1, 2, 3).unwrap();
    assert_eq!((t.hour(), t.minute(), t.second()), (1, 2, 3));
}

#[test]
fn crontab_is_read_without_its_banner() {
    let listed = "# DO NOT EDIT THIS FILE - edit the master and reinstall.\n# (/tmp/crontab installed on now)\n# (Cron version)\n0 0 * * * first\n@reboot second\n";
    let read = crontab_lines(listed.to_string());
    assert_eq!(read, lines(&["0 0 * * * first", "@reboot second"]));
    let plain = crontab_lines("0 0 * * * first\n\n@reboot second".to_string());
    assert_eq!(plain, lines(&["0 0 * * * first", "", "@reboot second"]));
    assert_eq!(crontab_lines("# DO NOT EDIT THIS FILE\nx\n".to_string()), vec![]);
    assert_eq!(crontab_lines(String::new()), vec![]);
}

#[test]
fn running_the_crontab_program() {
    assert_eq!(list_arguments(None), vec!["-l"]);
    assert_eq!(list_arguments(Some("www")), vec!["-l", "-u", "www"]);
    assert_eq!(set_arguments(None), vec!["-"]);
    assert_eq!(set_arguments(Some("www")), vec!["-", "-u", "www"]);
    assert_eq!(
        listed(true, "@reboot x\n".to_string(), "ignored".to_string()),
        Ok(lines(&["@reboot x"]))
    );
    assert_eq!(
        listed(false, "ignored".to_string(), "no crontab for me".to_string()),
        Err(GetCrontabError::CommandFailed { stderr: "no crontab for me".to_string() })
    );
    assert_eq!(replaced(true, String::new()), Ok(()));
    assert_eq!(
        replaced(false, "bad minute".to_string()),
        Err(SetCrontabError::CommandFailed { stderr: "bad minute".to_string() })
    );
}

#[test]
fn line_with_number() {
    assert_eq!(Line { pos: 12, text: "@reboot x".to_string() }.to_string(), "12: @reboot x");
}

#[test]
fn block_is_found_only_with_a_rule_behind_it() {
    let comment = split_lines(&autogenerated_comment("demo"));
    assert_eq!(comment, COMMENT);
    let with_rule = lines(&["a", COMMENT[0], COMMENT[1], COMMENT[2], "@reboot x", "b"]);
    assert_eq!(find_block(&with_rule, &comment), Some(1));
    let at_end = lines(&["a", COMMENT[0], COMMENT[1], COMMENT[2]]);
    assert_eq!(find_block(&at_end, &comment), None);
    let broken = lines(&[COMMENT[0], COMMENT[2], COMMENT[1], "@reboot x"]);
    assert_eq!(find_block(&broken, &comment), None);
    let twice = lines(&[
        COMMENT[0], COMMENT[1], COMMENT[2], "one", COMMENT[0], COMMENT[1], COMMENT[2], "two",
    ]);
    assert_eq!(find_block(&twice, &comment), Some(0));
    assert_eq!(find_block(&vec![], &comment), None);
}

#[test]
fn set_up_appends_to_a_crontab_without_block() {
    let current = lines(&["0 0 * * * other"]);
    let steps = set_up_steps(&params(Trigger::OnBoot), &current);
    assert_eq!(
        steps,
        vec![InstallStep::CronAdd(Add {
            user: None,
            comment: autogenerated_comment("demo"),
            rule: "@reboot /home/me/.local/bin/demo ".to_string(),
        })]
    );
}

fn perform_add(add: &Add, crontab: &str) -> String {
    add.new_crontab(&crontab_lines(crontab.to_string()))
}

#[test]
fn install_then_tear_down_restores_the_crontab() {
    let original = "0 0 * * * other\n\n# a comment\n@reboot thing\n";
    let before = crontab_lines(original.to_string());
    let steps = set_up_steps(&params(daily(3, 30, 0)), &before);
    let InstallStep::CronAdd(add) = &steps[0] else { panic!("expected an append") };
    let installed = add.new_crontab(&before);
    assert_eq!(
        installed,
        "0 0 * * * other\n\n# a comment\n@reboot thing\n# created by: 'demo' during its installation\n# might get removed by it in the future.\n# Remove this comment to prevent that\n30 3 * * * /home/me/.local/bin/demo \n"
    );
    let after = crontab_lines(installed);
    let (steps, path) = tear_down_steps("demo", Mode::User, None, &after).unwrap();
    assert_eq!(path, "/home/me/.local/bin/demo");
    assert_eq!(steps.len(), 1);
    let RemoveStep::CronRemoveInstalled(remove) = &steps[0] else { panic!("expected a removal") };
    assert_eq!(remove.new_crontab(&after), Ok(original.to_string()));
}

#[test]
fn tear_down_finds_nothing_in_a_crontab_without_block() {
    let current = lines(&["0 0 * * * other", COMMENT[0], COMMENT[1]]);
    assert_eq!(tear_down_steps("demo", Mode::User, None, &current), None);
    assert_eq!(tear_down_steps("demo", Mode::System, Some("me"), &vec![]), None);
}

fn count_blocks(crontab: &str) -> usize {
    let all: Vec<&str> = crontab.lines().collect();
    all.windows(4).filter(|w| w[..3] == COMMENT).count()
}

#[test]
fn set_up_twice_leaves_one_block() {
    let mut crontab = "0 0 * * * other\n".to_string();
    for trigger in [Trigger::OnBoot, daily(1, 2, 3)] {
        let steps = set_up_steps(&params(trigger), &crontab_lines(crontab.clone()));
        for step in steps {
            crontab = match step {
                InstallStep::CronAdd(add) => perform_add(&add, &crontab),
                InstallStep::CronRemovePrevious(remove) => {
                    remove.new_crontab(&crontab_lines(crontab.clone())).unwrap()
                }
                other => panic!("unexpected step {other:?}"),
            };
        }
        assert_eq!(count_blocks(&crontab), 1);
    }
    assert_eq!(
        crontab,
        "0 0 * * * other\n# created by: 'demo' during its installation\n# might get removed by it in the future.\n# Remove this comment to prevent that\n2 1 * * * /home/me/.local/bin/demo \n"
    );
}

#[test]
fn second_set_up_removes_the_first_block_first() {
    let current =
        lines(&["before", COMMENT[0], COMMENT[1], COMMENT[2], "@reboot /old/demo ", "after"]);
    let mut p = params(Trigger::OnBoot);
    p.run_as = Some("www".to_string());
    let steps = set_up_steps(&p, &current);
    assert_eq!(steps.len(), 2);
    assert_eq!(
        steps[0],
        InstallStep::CronRemovePrevious(RemovePrevious {
            comments: current[1..4].to_vec(),
            rule: current[4].clone(),
            user: Some("www".to_string()),
        })
    );
    let InstallStep::CronRemovePrevious(remove) = &steps[0] else { unreachable!() };
    assert_eq!(remove.new_crontab(&current), Ok("before\nafter\n".to_string()));
    assert!(matches!(&steps[1], InstallStep::CronAdd(add) if add.user.as_deref() == Some("www")));
}

#[test]
fn a_changed_crontab_is_not_written() {
    let read = lines(&["before", COMMENT[0], COMMENT[1], COMMENT[2], "@reboot /old/demo ", "after"]);
    let (steps, _) = tear_down_steps("demo", Mode::User, None, &read).unwrap();
    let RemoveStep::CronRemoveInstalled(remove) = &steps[0] else { unreachable!() };

    let mut rule_edited = read.clone();
    rule_edited[4].text = "@reboot /other/thing".to_string();
    assert_eq!(remove.new_crontab(&rule_edited), Err(CrontabChanged));

    let mut comment_edited = read.clone();
    comment_edited[2].text.push('!');
    assert_eq!(remove.new_crontab(&comment_edited), Err(CrontabChanged));

    let line_inserted = lines(&[
        "new", "before", COMMENT[0], COMMENT[1], COMMENT[2], "@reboot /old/demo ", "after",
    ]);
    assert_eq!(remove.new_crontab(&line_inserted), Err(CrontabChanged));

    let cut_short = lines(&["before", COMMENT[0], COMMENT[1]]);
    assert_eq!(remove.new_crontab(&cut_short), Err(CrontabChanged));

    let mut other_line_edited = read.clone();
    other_line_edited[0].text = "edited".to_string();
    assert_eq!(remove.new_crontab(&other_line_edited), Ok("edited\nafter\n".to_string()));
}

#[test]
fn filter_out_keeps_every_other_line() {
    let input = lines(&["a", "b", "c", "d", "e"]);
    let kept = filter_out(&input, &input[3], &input[1..3].to_vec()).unwrap();
    assert_eq!(kept, vec!["a", "e"]);
    let kept = filter_out(&input, &input[0], &vec![]).unwrap();
    assert_eq!(kept, vec!["b", "c", "d", "e"]);
    let wrong = Line { pos: 1, text: "x".to_string() };
    assert_eq!(filter_out(&input, &wrong, &vec![]), Err(CrontabChanged));
}

#[test]
fn describing_the_cron_steps() {
    let add =
        Add { user: None, comment: "# one\n# two".to_string(), rule: "@reboot x".to_string() };
    assert_eq!(add.describe(Tense::Past), "Appended comment and rule to crontab.");
    assert_eq!(add.describe(Tense::Questioning), "Append comment and rule to crontab?");
    assert_eq!(
        add.describe_detailed(Tense::Future),
        "Will append comment and rule to crontab.\n| comment:\n|\t# one\n|\t# two\n| rule:\n|\t@reboot x"
    );
    let add = Add { user: Some("www".to_string()), ..add };
    assert_eq!(add.describe(Tense::Active), "Appending comment and rule to www's crontab.");

    let all = lines(&["# one", "# two", "@reboot x"]);
    let remove = RemovePrevious {
        comments: all[0..2].to_vec(),
        rule: all[2].clone(),
        user: Some("www".to_string()),
    };
    assert_eq!(
        remove.describe(Tense::Past),
        "Removed comment and rule from previous installation from www's crontab."
    );
    assert_eq!(
        remove.describe_detailed(Tense::Questioning),
        "Remove a comment and rule from previous installation from www's crontab?\n| comment:\t\n|\t0: # one\n|\t1: # two\n| rule:\n|\t2: @reboot x"
    );
    let remove =
        RemoveInstalled { user: None, comments: all[0..2].to_vec(), rule: all[2].clone() };
    assert_eq!(remove.describe(Tense::Future), "Will remove the installs comment and rule from crontab");
    assert_eq!(
        remove.describe_detailed(Tense::Active),
        "Removing the installs comment and rule from crontab:\n| comment:\n|\t0: # one\n|\t1: # two\n| rule:\n|\t2: @reboot x"
    );
    assert_eq!(
        RollbackImpossible.describe(),
        "Rollback of cron setup is not possible, check crontab manually"
    );
}

#[test]
fn kill_escalates_through_the_signals() {
    let kill = Kill { pid: 42 };
    assert_eq!(kill.decide(false, 0, 0), KillDecision::Stopped);
    assert_eq!(kill.decide(true, 0, 0), KillDecision::Send(Signal::Stop));
    assert_eq!(kill.decide(true, 1, 50), KillDecision::Wait(150));
    assert_eq!(kill.decide(true, 1, 200), KillDecision::Send(Signal::Kill));
    assert_eq!(kill.decide(true, 2, 199), KillDecision::Wait(1));
    assert_eq!(kill.decide(true, 2, 1000), KillDecision::Send(Signal::Abort));
    assert_eq!(kill.decide(false, 2, 10), KillDecision::Stopped);
    assert_eq!(kill.decide(true, 3, 200), KillDecision::CouldNotStop);
    assert_eq!(kill.decide_undelivered(false, 0), KillDecision::Stopped);
    assert_eq!(kill.decide_undelivered(true, 9), KillDecision::Wait(100));
    assert_eq!(kill.decide_undelivered(true, 10), KillDecision::CouldNotStop);
    assert_eq!(
        kill.describe(Tense::Past),
        "Stopped the service started by cron with pid: `42`"
    );
    assert_eq!(
        kill.describe_detailed(Tense::Future),
        "Will stop the service started by cron with pid: `42`\n| using signal:\n|\t - Stop\n| if that does not work:\n|\t - Kill\n| and if that fails:\n|\t - Abort"
    );
}

#[test]
fn disabling_removes_the_block_of_the_target() {
    let crontab =
        lines(&["x", COMMENT[0], COMMENT[1], COMMENT[2], "@reboot /home/me/.local/bin/demo "]);
    let steps = step("/home/me/.local/bin/demo", 7, None, &crontab);
    assert_eq!(
        steps,
        vec![
            InstallStep::CronRemovePrevious(RemovePrevious {
                comments: crontab[1..4].to_vec(),
                rule: crontab[4].clone(),
                user: None,
            }),
            InstallStep::CronKill(Kill { pid: 7 }),
        ]
    );
}

#[test]
fn disabling_comments_out_a_rule_that_starts_the_target() {
    let crontab = lines(&[
        "# @reboot '/opt/my demo'",
        "",
        "0 1 * * * /usr/bin/other",
        "@reboot cd /tmp && '/opt/my demo' --now",
        "@reboot '/opt/my demo'",
    ]);
    assert_eq!(find_rule(&crontab, "/opt/my demo"), Some(3));
    let steps = step("/opt/my demo", 7, Some("www"), &crontab);
    let expected = CommentOutRule { rule: crontab[3].clone(), user: Some("www".to_string()) };
    assert_eq!(
        steps,
        vec![
            InstallStep::CronCommentOutRule(expected.clone()),
            InstallStep::CronKill(Kill { pid: 7 }),
        ]
    );
    let written = expected.new_crontab(&crontab).unwrap();
    assert_eq!(
        written,
        "# @reboot '/opt/my demo'\n\n0 1 * * * /usr/bin/other\n# @reboot cd /tmp && '/opt/my demo' --now\n@reboot '/opt/my demo'\n"
    );
    let undo: RollbackCommentOut = expected.rollback();
    assert_eq!(undo.commented_rule.text, "# @reboot cd /tmp && '/opt/my demo' --now");
    let restored = undo.new_crontab(&crontab_lines(written)).unwrap();
    assert_eq!(crontab_lines(restored), crontab);
    assert_eq!(undo.new_crontab(&crontab), Err(CrontabChanged));
    assert_eq!(expected.new_crontab(&crontab[..2].to_vec()), Err(CrontabChanged));
    assert_eq!(
        expected.describe_detailed(Tense::Past),
        "Commented out a cron rule that is preventing the installation\n| rule:\n|\t3: @reboot cd /tmp && '/opt/my demo' --now"
    );
    assert_eq!(
        undo.describe(Tense::Questioning),
        "Uncomment a cron rule that was commented out as it prevented the installation\n| rule:\n|\t3: # @reboot cd /tmp && '/opt/my demo' --now"
    );
}

#[test]
fn disabling_only_kills_where_the_crontab_does_not_start_the_target() {
    let crontab = lines(&["0 1 * * * /usr/bin/other"]);
    assert_eq!(step("/opt/demo", 9, None, &crontab), vec![InstallStep::CronKill(Kill { pid: 9 })]);
}

fn process(pid: u32, cmd: &[&str]) -> Process {
    Process {
        pid,
        parent: None,
        exe: None,
        cmd: cmd.iter().map(|s| s.to_string()).collect(),
        resolved: Err(IoError { kind: IoErrorKind::Other, message: String::new() }),
    }
}

#[test]
fn cron_is_there_when_its_daemon_runs() {
    assert!(not_available(&vec![]));
    assert!(not_available(&vec![process(1, &["/sbin/init"]), process(2, &["cron"])]));
    assert!(!not_available(&vec![process(1, &["/sbin/init"]), process(2, &["-f", "/usr/sbin/cron"])]));
    assert!(is_init_path("/usr/sbin/cron"));
    assert!(!is_init_path("/usr/sbin/crond"));
    assert!(!is_init_path("cron"));
}
