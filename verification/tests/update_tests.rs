use koukku::command::RawOutput;
use koukku::conf::{Conf, Project};
use koukku::error::Error;
use koukku::executor::Executor;
use koukku::update::{Action, Event, Update};

fn project(id: &str, repo: &str, branch: &str, command: &str) -> Project {
    Project {
        id: id.to_string(),
        repo: repo.to_string(),
        branch: branch.to_string(),
        command: command.to_string(),
    }
}

fn conf() -> Conf {
    Conf {
        location: "/srv/repos".to_string(),
        gitpath: "git".to_string(),
        projects: vec![
            project("svc", "acme/svc", "main", "./deploy.sh"),
            project("web", "acme/web", "release", "./publish.sh"),
        ],
    }
}

fn ok_run(stdout: &[u8]) -> Event {
    Event::Ran {
        output: RawOutput {
            code: Some(0),
            stdout: stdout.to_vec(),
            stderr: Vec::new(),
        },
    }
}

fn failed_run(code: Option<i32>, stderr: &[u8]) -> Event {
    Event::Ran {
        output: RawOutput {
            code,
            stdout: Vec::new(),
            stderr: stderr.to_vec(),
        },
    }
}

fn expect_exec(a: Action) -> koukku::command::CommandSpec {
    match a {
        Action::Exec { cmd } => cmd,
        Action::Stop { .. } => panic!("expected another command, got a stop"),
    }
}

fn expect_stop(a: Action) -> Result<(), Error> {
    match a {
        Action::Stop { result } => result,
        Action::Exec { .. } => panic!("expected a stop, got a command"),
    }
}

fn begin(id: &str) -> Update {
    Executor::new(conf()).run(id).expect("configured project")
}

#[test]
fn fresh_directory_clones_checks_out_and_runs_command() {
    let mut u = begin("svc");
    assert_eq!(u.path(), "/srv/repos/svc");
    assert!(!u.is_done());

    let clone = expect_exec(u.step(Event::Dir { exists: false }));
    assert_eq!(clone.name, "git clone");
    assert_eq!(clone.program, "git");
    assert_eq!(
        clone.args,
        vec![
            "clone".to_string(),
            "https://github.com/acme/svc.git".to_string(),
            "/srv/repos/svc".to_string(),
        ]
    );
    assert_eq!(clone.dir, None);

    let checkout = expect_exec(u.step(ok_run(b"")));
    assert_eq!(checkout.name, "git checkout");
    assert_eq!(checkout.program, "git");
    assert_eq!(checkout.args, vec!["checkout".to_string(), "main".to_string()]);
    assert_eq!(checkout.dir, Some("/srv/repos/svc".to_string()));

    let deploy = expect_exec(u.step(ok_run(b"")));
    assert_eq!(deploy.name, "./deploy.sh");
    assert_eq!(deploy.program, "./deploy.sh");
    assert!(deploy.args.is_empty());
    assert_eq!(deploy.dir, Some("/srv/repos/svc".to_string()));

    assert!(expect_stop(u.step(ok_run(b""))).is_ok());
    assert!(u.is_done());
}

#[test]
fn equal_tips_skip_the_command_and_still_pull() {
    let mut u = begin("svc");

    let checkout = expect_exec(u.step(Event::Dir { exists: true }));
    assert_eq!(checkout.args, vec!["checkout".to_string(), "main".to_string()]);

    let remote = expect_exec(u.step(ok_run(b"")));
    assert_eq!(remote.name, "git remote update");
    assert_eq!(remote.args, vec!["remote".to_string(), "update".to_string()]);

    let rev_local = expect_exec(u.step(ok_run(b"")));
    assert_eq!(rev_local.args, vec!["rev-parse".to_string(), "@".to_string()]);

    let rev_upstream = expect_exec(u.step(ok_run(b"abc123\n")));
    assert_eq!(rev_upstream.args, vec!["rev-parse".to_string(), "@{u}".to_string()]);

    let pull = expect_exec(u.step(ok_run(b"abc123\n")));
    assert_eq!(pull.name, "git pull");
    assert_eq!(pull.args, vec!["pull".to_string()]);
    assert_eq!(pull.dir, Some("/srv/repos/svc".to_string()));

    // The pull succeeded and the tips were equal: no post-update command.
    assert!(expect_stop(u.step(ok_run(b""))).is_ok());
    assert!(u.is_done());
}

#[test]
fn differing_tips_pull_and_run_the_command_once() {
    let mut u = begin("svc");

    expect_exec(u.step(Event::Dir { exists: true }));
    expect_exec(u.step(ok_run(b""))); // checkout done -> remote update
    expect_exec(u.step(ok_run(b""))); // remote update done -> rev-parse @
    expect_exec(u.step(ok_run(b"abc123\n"))); // local tip -> rev-parse @{u}
    let pull = expect_exec(u.step(ok_run(b"def456\n"))); // differing upstream tip
    assert_eq!(pull.name, "git pull");

    let deploy = expect_exec(u.step(ok_run(b"")));
    assert_eq!(deploy.program, "./deploy.sh");
    assert_eq!(deploy.dir, Some("/srv/repos/svc".to_string()));

    assert!(expect_stop(u.step(ok_run(b""))).is_ok());
    assert!(u.is_done());
}

#[test]
fn failing_step_stops_with_exit_status_and_stderr() {
    let mut u = begin("svc");

    expect_exec(u.step(Event::Dir { exists: true }));
    expect_exec(u.step(ok_run(b""))); // checkout done -> remote update
    let result = expect_stop(u.step(failed_run(Some(128), b"fatal: unable to access remote\n")));
    match result {
        Err(Error::CommandFailed { command, code, stderr }) => {
            assert_eq!(command, "git remote update");
            assert_eq!(code, Some(128));
            assert_eq!(stderr, "fatal: unable to access remote\n");
        }
        other => panic!("expected a command failure, got {:?}", other.is_ok()),
    }
    // No further step of this update executes.
    assert!(u.is_done());
}

#[test]
fn failing_post_update_command_is_reported() {
    let mut u = begin("svc");

    expect_exec(u.step(Event::Dir { exists: false }));
    expect_exec(u.step(ok_run(b""))); // clone done -> checkout
    expect_exec(u.step(ok_run(b""))); // checkout done -> deploy
    let result = expect_stop(u.step(failed_run(Some(2), b"deploy failed\n")));
    match result {
        Err(Error::CommandFailed { command, code, stderr }) => {
            assert_eq!(command, "./deploy.sh");
            assert_eq!(code, Some(2));
            assert_eq!(stderr, "deploy failed\n");
        }
        _ => panic!("expected a command failure"),
    }
}

#[test]
fn signal_termination_carries_no_exit_code() {
    let mut u = begin("svc");

    let _ = expect_exec(u.step(Event::Dir { exists: true }));
    let result = expect_stop(u.step(failed_run(None, b"")));
    match result {
        Err(Error::CommandFailed { command, code, stderr }) => {
            assert_eq!(command, "git checkout");
            assert_eq!(code, None);
            assert_eq!(stderr, "");
        }
        _ => panic!("expected a command failure"),
    }
}

#[test]
fn undecodable_stderr_becomes_a_placeholder() {
    let mut u = begin("svc");

    expect_exec(u.step(Event::Dir { exists: true }));
    let result = expect_stop(u.step(failed_run(Some(1), &[0xff, 0xfe, 0x80])));
    match result {
        Err(Error::CommandFailed { stderr, .. }) => {
            assert_eq!(stderr, "[invalid string]");
        }
        _ => panic!("expected a command failure"),
    }
}

#[test]
fn failed_update_does_not_block_the_next_one() {
    let exec = Executor::new(conf());

    // First queued item: svc's update fails at the clone.
    let mut first = exec.run("svc").expect("configured project");
    expect_exec(first.step(Event::Dir { exists: false }));
    let result = expect_stop(first.step(failed_run(Some(128), b"fatal: repository not found\n")));
    assert!(result.is_err());
    assert!(first.is_done());

    // Next queued item: web's update proceeds untouched.
    let mut second = exec.run("web").expect("configured project");
    let clone = expect_exec(second.step(Event::Dir { exists: false }));
    assert_eq!(
        clone.args,
        vec![
            "clone".to_string(),
            "https://github.com/acme/web.git".to_string(),
            "/srv/repos/web".to_string(),
        ]
    );
    expect_exec(second.step(ok_run(b"")));
    expect_exec(second.step(ok_run(b"")));
    assert!(expect_stop(second.step(ok_run(b""))).is_ok());
}

#[test]
fn launch_failure_stops_with_the_step_name() {
    let mut u = begin("svc");

    expect_exec(u.step(Event::Dir { exists: false }));
    let result = expect_stop(u.step(Event::LaunchFailed {
        message: "No such file or directory".to_string(),
    }));
    match result {
        Err(Error::Io { command, message }) => {
            assert_eq!(command, "git clone");
            assert_eq!(message, "No such file or directory");
        }
        _ => panic!("expected a launch failure"),
    }
    assert!(u.is_done());
}
