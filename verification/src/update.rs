//! The update orchestrator: a state machine that brings one project's
//! working directory to the tip of its tracked branch and conditionally
//! runs the post-update command, one subprocess at a time.
//!
//! The driver first answers whether the working directory exists
//! ([`Event::Dir`]); the machine then issues one [`Action`] per event: a
//! command to run, or a stop carrying the update's outcome. On a missing
//! directory it clones and checks out, and the update always counts as
//! changed. On an existing directory it checks out, refreshes remotes,
//! compares the local and upstream tips before pulling, then pulls
//! unconditionally; the pre-pull comparison alone decides whether the
//! post-update command runs. Any step's failure stops the whole update.

use vstd::prelude::*;

use crate::command::{
    checkout_cmd_v, clone_cmd_v, exit_ok, exit_ok_v, pull_cmd_v, remote_update_cmd_v,
    rev_parse_local_cmd_v, rev_parse_upstream_cmd_v, run_cmd_v, bytes_equal, git_checkout,
    git_clone, git_pull, git_remote_update, git_rev_parse_local, git_rev_parse_upstream,
    project_path, run_from_str, CmdV, CommandSpec, OutputV, RawOutput,
};
use crate::conf::{Project, ProjectV};
use crate::error::{stderr_text, stderr_text_v, Error, ErrorV};

verus! {

/// What the driver reports back to the machine.
pub enum Event {
    /// Whether the project's working directory exists; the answer to the
    /// probe every update begins with.
    Dir { exists: bool },
    /// The subprocess the machine last asked for ran to completion with
    /// this outcome.
    Ran { output: RawOutput },
    /// The subprocess could not even be launched; the launch error's text.
    LaunchFailed { message: String },
}

/// The mathematical value of an [`Event`].
#[verifier::ext_equal]
pub enum EventV {
    Dir { exists: bool },
    Ran { output: OutputV },
    LaunchFailed { message: Seq<char> },
}

impl View for Event {
    type V = EventV;

    open spec fn view(&self) -> EventV {
        match self {
            Event::Dir { exists } => EventV::Dir { exists: *exists },
            Event::Ran { output } => EventV::Ran { output: output@ },
            Event::LaunchFailed { message } => EventV::LaunchFailed { message: message@ },
        }
    }
}

/// What the machine asks of the driver next.
pub enum Action {
    /// Run this subprocess and report its outcome.
    Exec { cmd: CommandSpec },
    /// The update is over, with this outcome; the machine takes no
    /// further event.
    Stop { result: Result<(), Error> },
}

/// The mathematical value of an [`Action`].
#[verifier::ext_equal]
pub enum ActionV {
    Exec { cmd: CmdV },
    Stop { result: Result<(), ErrorV> },
}

impl View for Action {
    type V = ActionV;

    open spec fn view(&self) -> ActionV {
        match self {
            Action::Exec { cmd } => ActionV::Exec { cmd: cmd@ },
            Action::Stop { result } => ActionV::Stop {
                result: match result {
                    Ok(_) => Ok(()),
                    Err(e) => Err(e@),
                },
            },
        }
    }
}

/// Where one update stands: each non-terminal state after `AwaitDir` names
/// the command whose outcome the machine is waiting for.
pub enum State {
    /// Waiting for the working-directory probe.
    AwaitDir,
    /// Cloning into a missing working directory.
    FreshClone,
    /// Checking the tracked branch out right after a fresh clone.
    FreshCheckout,
    /// Checking the tracked branch out in an existing working directory.
    Checkout,
    /// Refreshing remotes (fetch without merge).
    RemoteUpdate,
    /// Resolving the local branch tip.
    RevParseLocal,
    /// Resolving the upstream tracking tip; holds the local tip's bytes.
    RevParseUpstream { local: Vec<u8> },
    /// Fast-forwarding; `changed` records the pre-pull tip comparison.
    Pull { changed: bool },
    /// Running the post-update command.
    RunCommand,
    /// The update is over.
    Done,
}

/// The mathematical value of a [`State`].
#[verifier::ext_equal]
pub enum StateV {
    AwaitDir,
    FreshClone,
    FreshCheckout,
    Checkout,
    RemoteUpdate,
    RevParseLocal,
    RevParseUpstream { local: Seq<u8> },
    Pull { changed: bool },
    RunCommand,
    Done,
}

impl View for State {
    type V = StateV;

    open spec fn view(&self) -> StateV {
        match self {
            State::AwaitDir => StateV::AwaitDir,
            State::FreshClone => StateV::FreshClone,
            State::FreshCheckout => StateV::FreshCheckout,
            State::Checkout => StateV::Checkout,
            State::RemoteUpdate => StateV::RemoteUpdate,
            State::RevParseLocal => StateV::RevParseLocal,
            State::RevParseUpstream { local } => StateV::RevParseUpstream { local: local@ },
            State::Pull { changed } => StateV::Pull { changed: *changed },
            State::RunCommand => StateV::RunCommand,
            State::Done => StateV::Done,
        }
    }
}

/// One project's update in flight: the git binary, the working-directory
/// path `location/<id>`, the project's configuration, and where the update
/// stands.
pub struct Update {
    git: String,
    path: String,
    project: Project,
    state: State,
}

/// The mathematical value of an [`Update`].
#[verifier::ext_equal]
pub struct UpdateV {
    pub git: Seq<char>,
    pub path: Seq<char>,
    pub project: ProjectV,
    pub state: StateV,
}

impl View for Update {
    type V = UpdateV;

    closed spec fn view(&self) -> UpdateV {
        UpdateV {
            git: self.git@,
            path: self.path@,
            project: self.project@,
            state: self.state@,
        }
    }
}

/// The display name a failure in state `s` is reported under: the name of
/// the command that state is waiting for.
pub open spec fn step_name_v(s: StateV, command: Seq<char>) -> Seq<char> {
    match s {
        StateV::FreshClone => "git clone"@,
        StateV::FreshCheckout => "git checkout"@,
        StateV::Checkout => "git checkout"@,
        StateV::RemoteUpdate => "git remote update"@,
        StateV::RevParseLocal => "git rev-parse"@,
        StateV::RevParseUpstream { .. } => "git rev-parse"@,
        StateV::Pull { .. } => "git pull"@,
        StateV::RunCommand => command,
        StateV::AwaitDir => Seq::empty(),
        StateV::Done => Seq::empty(),
    }
}

/// Which events a state can take: the directory probe's answer at the
/// start, a subprocess outcome while one is in flight, and nothing once
/// the update is over.
pub open spec fn expects(s: StateV, e: EventV) -> bool {
    match s {
        StateV::AwaitDir => e is Dir,
        StateV::Done => false,
        _ => e is Ran || e is LaunchFailed,
    }
}

/// `u` with its state replaced.
pub open spec fn with_state(u: UpdateV, s: StateV) -> UpdateV {
    UpdateV { state: s, ..u }
}

/// The transition relation: what one event does to an update, and which
/// action the driver is handed next. [`Update::step`] is exactly this
/// function on the update's mathematical value.
pub open spec fn next_v(u: UpdateV, e: EventV) -> (UpdateV, ActionV) {
    match e {
        EventV::Dir { exists } => if exists {
            (
                with_state(u, StateV::Checkout),
                ActionV::Exec { cmd: checkout_cmd_v(u.git, u.project.branch, u.path) },
            )
        } else {
            (
                with_state(u, StateV::FreshClone),
                ActionV::Exec { cmd: clone_cmd_v(u.git, u.project.repo, u.path) },
            )
        },
        EventV::LaunchFailed { message } => (
            with_state(u, StateV::Done),
            ActionV::Stop {
                result: Err(
                    ErrorV::Io { command: step_name_v(u.state, u.project.command), message },
                ),
            },
        ),
        EventV::Ran { output } => if !exit_ok_v(output) {
            (
                with_state(u, StateV::Done),
                ActionV::Stop {
                    result: Err(
                        ErrorV::CommandFailed {
                            command: step_name_v(u.state, u.project.command),
                            code: output.code,
                            stderr: stderr_text_v(output.stderr),
                        },
                    ),
                },
            )
        } else {
            match u.state {
                StateV::FreshClone => (
                    with_state(u, StateV::FreshCheckout),
                    ActionV::Exec { cmd: checkout_cmd_v(u.git, u.project.branch, u.path) },
                ),
                StateV::FreshCheckout => (
                    with_state(u, StateV::RunCommand),
                    ActionV::Exec { cmd: run_cmd_v(u.project.command, u.path) },
                ),
                StateV::Checkout => (
                    with_state(u, StateV::RemoteUpdate),
                    ActionV::Exec { cmd: remote_update_cmd_v(u.git, u.path) },
                ),
                StateV::RemoteUpdate => (
                    with_state(u, StateV::RevParseLocal),
                    ActionV::Exec { cmd: rev_parse_local_cmd_v(u.git, u.path) },
                ),
                StateV::RevParseLocal => (
                    with_state(u, StateV::RevParseUpstream { local: output.stdout }),
                    ActionV::Exec { cmd: rev_parse_upstream_cmd_v(u.git, u.path) },
                ),
                StateV::RevParseUpstream { local } => (
                    with_state(u, StateV::Pull { changed: local != output.stdout }),
                    ActionV::Exec { cmd: pull_cmd_v(u.git, u.path) },
                ),
                StateV::Pull { changed } => if changed {
                    (
                        with_state(u, StateV::RunCommand),
                        ActionV::Exec { cmd: run_cmd_v(u.project.command, u.path) },
                    )
                } else {
                    (with_state(u, StateV::Done), ActionV::Stop { result: Ok(()) })
                },
                StateV::RunCommand => (
                    with_state(u, StateV::Done),
                    ActionV::Stop { result: Ok(()) },
                ),
                // No command is in flight in these states, so no outcome
                // can arrive in them (see `expects`).
                StateV::AwaitDir => arbitrary(),
                StateV::Done => arbitrary(),
            }
        },
    }
}

/// The trace of actions an update emits when driven with the events `es`,
/// one action per event, ending at the first stop: later events change
/// nothing once the update is over.
pub open spec fn drive(u: UpdateV, es: Seq<EventV>) -> Seq<ActionV>
    decreases es.len(),
{
    if es.len() == 0 {
        Seq::empty()
    } else {
        let (u2, a) = next_v(u, es[0]);
        if a is Stop {
            seq![a]
        } else {
            seq![a] + drive(u2, es.drop_first())
        }
    }
}

/// Law: an update holds at most one subprocess in flight. Every action
/// after the first is emitted only once the previous command's outcome has
/// arrived, so a trace never has more actions than events.
pub proof fn lemma_one_action_per_event(u: UpdateV, es: Seq<EventV>)
    ensures
        drive(u, es).len() <= es.len(),
    decreases es.len(),
{
    if es.len() > 0 {
        let (u2, a) = next_v(u, es[0]);
        if !(a is Stop) {
            lemma_one_action_per_event(u2, es.drop_first());
        }
    }
}

/// Law: for a project with no existing working directory whose every
/// subprocess succeeds, the update clones the repository into the project
/// path, checks the tracked branch out there, runs the post-update command
/// exactly once, and succeeds — the fresh clone counts as changed without
/// any revision comparison.
pub proof fn lemma_fresh_directory_update(u: UpdateV, es: Seq<EventV>)
    requires
        u.state is AwaitDir,
        es.len() == 4,
        es[0] == (EventV::Dir { exists: false }),
        es[1] matches EventV::Ran { output } && exit_ok_v(output),
        es[2] matches EventV::Ran { output } && exit_ok_v(output),
        es[3] matches EventV::Ran { output } && exit_ok_v(output),
    ensures
        drive(u, es) == seq![
            ActionV::Exec { cmd: clone_cmd_v(u.git, u.project.repo, u.path) },
            ActionV::Exec { cmd: checkout_cmd_v(u.git, u.project.branch, u.path) },
            ActionV::Exec { cmd: run_cmd_v(u.project.command, u.path) },
            ActionV::Stop { result: Ok(()) },
        ],
{
    reveal_with_fuel(drive, 5);
    let es1 = es.drop_first();
    let es2 = es1.drop_first();
    let es3 = es2.drop_first();
    assert(es1[0] == es[1]);
    assert(es2[0] == es[2]);
    assert(es3[0] == es[3]);
    assert(drive(u, es) =~= seq![
        ActionV::Exec { cmd: clone_cmd_v(u.git, u.project.repo, u.path) },
        ActionV::Exec { cmd: checkout_cmd_v(u.git, u.project.branch, u.path) },
        ActionV::Exec { cmd: run_cmd_v(u.project.command, u.path) },
        ActionV::Stop { result: Ok(()) },
    ]);
}

/// Law: for a project with an existing working directory whose local and
/// upstream tips are equal after the remote refresh, the post-update
/// command is never invoked, the pull still runs, and the update succeeds
/// — a no-op pull is not a failure.
pub proof fn lemma_no_change_skips_command(u: UpdateV, tip: Seq<u8>, es: Seq<EventV>)
    requires
        u.state is AwaitDir,
        es.len() == 6,
        es[0] == (EventV::Dir { exists: true }),
        es[1] matches EventV::Ran { output } && exit_ok_v(output),
        es[2] matches EventV::Ran { output } && exit_ok_v(output),
        es[3] matches EventV::Ran { output } && exit_ok_v(output) && output.stdout == tip,
        es[4] matches EventV::Ran { output } && exit_ok_v(output) && output.stdout == tip,
        es[5] matches EventV::Ran { output } && exit_ok_v(output),
    ensures
        drive(u, es) == seq![
            ActionV::Exec { cmd: checkout_cmd_v(u.git, u.project.branch, u.path) },
            ActionV::Exec { cmd: remote_update_cmd_v(u.git, u.path) },
            ActionV::Exec { cmd: rev_parse_local_cmd_v(u.git, u.path) },
            ActionV::Exec { cmd: rev_parse_upstream_cmd_v(u.git, u.path) },
            ActionV::Exec { cmd: pull_cmd_v(u.git, u.path) },
            ActionV::Stop { result: Ok(()) },
        ],
        forall|i: int|
            0 <= i < drive(u, es).len() ==> drive(u, es)[i] != (ActionV::Exec {
                cmd: run_cmd_v(u.project.command, u.path),
            }),
{
    reveal_with_fuel(drive, 7);
    let es1 = es.drop_first();
    let es2 = es1.drop_first();
    let es3 = es2.drop_first();
    let es4 = es3.drop_first();
    let es5 = es4.drop_first();
    assert(es1[0] == es[1]);
    assert(es2[0] == es[2]);
    assert(es3[0] == es[3]);
    assert(es4[0] == es[4]);
    assert(es5[0] == es[5]);
    let trace = seq![
        ActionV::Exec { cmd: checkout_cmd_v(u.git, u.project.branch, u.path) },
        ActionV::Exec { cmd: remote_update_cmd_v(u.git, u.path) },
        ActionV::Exec { cmd: rev_parse_local_cmd_v(u.git, u.path) },
        ActionV::Exec { cmd: rev_parse_upstream_cmd_v(u.git, u.path) },
        ActionV::Exec { cmd: pull_cmd_v(u.git, u.path) },
        ActionV::Stop { result: Ok(()) },
    ];
    assert(drive(u, es) =~= trace);
    let banned = ActionV::Exec { cmd: run_cmd_v(u.project.command, u.path) };
    assert forall|i: int| 0 <= i < trace.len() implies trace[i] != banned by {
        assert(run_cmd_v(u.project.command, u.path).args.len() == 0);
        assert(checkout_cmd_v(u.git, u.project.branch, u.path).args.len() == 2);
        assert(remote_update_cmd_v(u.git, u.path).args.len() == 2);
        assert(rev_parse_local_cmd_v(u.git, u.path).args.len() == 2);
        assert(rev_parse_upstream_cmd_v(u.git, u.path).args.len() == 2);
        assert(pull_cmd_v(u.git, u.path).args.len() == 1);
    }
}

/// Law: for a project with an existing working directory whose local and
/// upstream tips differ, the pull is invoked and the post-update command
/// is invoked exactly once, with the project's path as its current
/// directory; the comparison happens before the pull.
pub proof fn lemma_changed_runs_command(
    u: UpdateV,
    local: Seq<u8>,
    upstream: Seq<u8>,
    es: Seq<EventV>,
)
    requires
        u.state is AwaitDir,
        local != upstream,
        es.len() == 7,
        es[0] == (EventV::Dir { exists: true }),
        es[1] matches EventV::Ran { output } && exit_ok_v(output),
        es[2] matches EventV::Ran { output } && exit_ok_v(output),
        es[3] matches EventV::Ran { output } && exit_ok_v(output) && output.stdout == local,
        es[4] matches EventV::Ran { output } && exit_ok_v(output) && output.stdout == upstream,
        es[5] matches EventV::Ran { output } && exit_ok_v(output),
        es[6] matches EventV::Ran { output } && exit_ok_v(output),
    ensures
        drive(u, es) == seq![
            ActionV::Exec { cmd: checkout_cmd_v(u.git, u.project.branch, u.path) },
            ActionV::Exec { cmd: remote_update_cmd_v(u.git, u.path) },
            ActionV::Exec { cmd: rev_parse_local_cmd_v(u.git, u.path) },
            ActionV::Exec { cmd: rev_parse_upstream_cmd_v(u.git, u.path) },
            ActionV::Exec { cmd: pull_cmd_v(u.git, u.path) },
            ActionV::Exec { cmd: run_cmd_v(u.project.command, u.path) },
            ActionV::Stop { result: Ok(()) },
        ],
        run_cmd_v(u.project.command, u.path).dir == Some(u.path),
{
    reveal_with_fuel(drive, 8);
    let es1 = es.drop_first();
    let es2 = es1.drop_first();
    let es3 = es2.drop_first();
    let es4 = es3.drop_first();
    let es5 = es4.drop_first();
    let es6 = es5.drop_first();
    assert(es1[0] == es[1]);
    assert(es2[0] == es[2]);
    assert(es3[0] == es[3]);
    assert(es4[0] == es[4]);
    assert(es5[0] == es[5]);
    assert(es6[0] == es[6]);
    assert(drive(u, es) =~= seq![
        ActionV::Exec { cmd: checkout_cmd_v(u.git, u.project.branch, u.path) },
        ActionV::Exec { cmd: remote_update_cmd_v(u.git, u.path) },
        ActionV::Exec { cmd: rev_parse_local_cmd_v(u.git, u.path) },
        ActionV::Exec { cmd: rev_parse_upstream_cmd_v(u.git, u.path) },
        ActionV::Exec { cmd: pull_cmd_v(u.git, u.path) },
        ActionV::Exec { cmd: run_cmd_v(u.project.command, u.path) },
        ActionV::Stop { result: Ok(()) },
    ]);
}

/// Law: a subprocess exiting non-zero stops the whole update at once. The
/// reported failure carries the step's display name, the exact exit code,
/// and the captured standard-error text, and no further action is ever
/// emitted, whatever events would have followed.
pub proof fn lemma_failure_stops_update(u: UpdateV, output: OutputV, es: Seq<EventV>)
    requires
        expects(u.state, EventV::Ran { output }),
        !exit_ok_v(output),
        es.len() >= 1,
        es[0] == (EventV::Ran { output }),
    ensures
        drive(u, es) == seq![
            ActionV::Stop {
                result: Err(
                    ErrorV::CommandFailed {
                        command: step_name_v(u.state, u.project.command),
                        code: output.code,
                        stderr: stderr_text_v(output.stderr),
                    },
                ),
            },
        ],
{
    reveal_with_fuel(drive, 2);
    assert(drive(u, es) =~= seq![next_v(u, es[0]).1]);
}

/// Law: a subprocess that cannot even be launched stops the whole update
/// the same way, with the step's display name and the launch error's text,
/// and no further action is ever emitted.
pub proof fn lemma_launch_failure_stops_update(u: UpdateV, message: Seq<char>, es: Seq<EventV>)
    requires
        expects(u.state, EventV::LaunchFailed { message }),
        es.len() >= 1,
        es[0] == (EventV::LaunchFailed { message }),
    ensures
        drive(u, es) == seq![
            ActionV::Stop {
                result: Err(
                    ErrorV::Io { command: step_name_v(u.state, u.project.command), message },
                ),
            },
        ],
{
    reveal_with_fuel(drive, 2);
    assert(drive(u, es) =~= seq![next_v(u, es[0]).1]);
}

impl Update {
    /// Begins an update for one project: the working directory is
    /// `location/<id>`, and the machine waits for the directory probe.
    pub fn new(git: &str, location: &str, project: &Project) -> (u: Update)
        ensures
            u@ == (UpdateV {
                git: git@,
                path: crate::command::project_path_v(location@, project@.id),
                project: project@,
                state: StateV::AwaitDir,
            }),
    {
        let u = Update {
            git: git.to_owned(),
            path: project_path(location, project.id.as_str()),
            project: project.clone(),
            state: State::AwaitDir,
        };
        proof {
            assert(u@ =~= (UpdateV {
                git: git@,
                path: crate::command::project_path_v(location@, project@.id),
                project: project@,
                state: StateV::AwaitDir,
            }));
        }
        u
    }

    /// The working-directory path, for the driver's directory probe.
    pub fn path(&self) -> (r: &String)
        ensures
            r@ == self@.path,
    {
        &self.path
    }

    /// Whether the update is over: a finished machine takes no further
    /// event.
    pub fn is_done(&self) -> (r: bool)
        ensures
            r == (self@.state is Done),
    {
        match self.state {
            State::Done => true,
            _ => false,
        }
    }

    /// The display name of the command the machine is waiting for.
    fn step_name(&self) -> (r: String)
        ensures
            r@ == step_name_v(self@.state, self@.project.command),
    {
        match &self.state {
            State::FreshClone => "git clone".to_owned(),
            State::FreshCheckout => "git checkout".to_owned(),
            State::Checkout => "git checkout".to_owned(),
            State::RemoteUpdate => "git remote update".to_owned(),
            State::RevParseLocal => "git rev-parse".to_owned(),
            State::RevParseUpstream { .. } => "git rev-parse".to_owned(),
            State::Pull { .. } => "git pull".to_owned(),
            State::RunCommand => self.project.command.clone(),
            State::AwaitDir => String::new(),
            State::Done => String::new(),
        }
    }

    /// Feeds one event to the machine and returns the next action:
    /// exactly the transition [`next_v`] on the update's value.
    pub fn step(&mut self, e: Event) -> (a: Action)
        requires
            expects(old(self)@.state, e@),
        ensures
            final(self)@ == next_v(old(self)@, e@).0,
            a@ == next_v(old(self)@, e@).1,
    {
        match e {
            Event::Dir { exists } => {
                if exists {
                    let cmd = git_checkout(
                        self.git.as_str(),
                        self.project.branch.as_str(),
                        self.path.as_str(),
                    );
                    self.state = State::Checkout;
                    Action::Exec { cmd }
                } else {
                    let cmd = git_clone(
                        self.git.as_str(),
                        self.project.repo.as_str(),
                        self.path.as_str(),
                    );
                    self.state = State::FreshClone;
                    Action::Exec { cmd }
                }
            },
            Event::LaunchFailed { message } => {
                let command = self.step_name();
                self.state = State::Done;
                Action::Stop { result: Err(Error::Io { command, message }) }
            },
            Event::Ran { output } => {
                if !exit_ok(&output) {
                    let command = self.step_name();
                    let stderr = stderr_text(&output.stderr);
                    self.state = State::Done;
                    Action::Stop {
                        result: Err(Error::CommandFailed { command, code: output.code, stderr }),
                    }
                } else {
                    match &self.state {
                        State::FreshClone => {
                            let cmd = git_checkout(
                                self.git.as_str(),
                                self.project.branch.as_str(),
                                self.path.as_str(),
                            );
                            self.state = State::FreshCheckout;
                            Action::Exec { cmd }
                        },
                        State::FreshCheckout => {
                            let cmd = run_from_str(
                                self.project.command.as_str(),
                                self.path.as_str(),
                            );
                            self.state = State::RunCommand;
                            Action::Exec { cmd }
                        },
                        State::Checkout => {
                            let cmd = git_remote_update(self.git.as_str(), self.path.as_str());
                            self.state = State::RemoteUpdate;
                            Action::Exec { cmd }
                        },
                        State::RemoteUpdate => {
                            let cmd = git_rev_parse_local(self.git.as_str(), self.path.as_str());
                            self.state = State::RevParseLocal;
                            Action::Exec { cmd }
                        },
                        State::RevParseLocal => {
                            let cmd = git_rev_parse_upstream(
                                self.git.as_str(),
                                self.path.as_str(),
                            );
                            self.state = State::RevParseUpstream { local: output.stdout };
                            Action::Exec { cmd }
                        },
                        State::RevParseUpstream { local } => {
                            let changed = !bytes_equal(local, &output.stdout);
                            let cmd = git_pull(self.git.as_str(), self.path.as_str());
                            self.state = State::Pull { changed };
                            Action::Exec { cmd }
                        },
                        State::Pull { changed } => {
                            if *changed {
                                let cmd = run_from_str(
                                    self.project.command.as_str(),
                                    self.path.as_str(),
                                );
                                self.state = State::RunCommand;
                                Action::Exec { cmd }
                            } else {
                                self.state = State::Done;
                                Action::Stop { result: Ok(()) }
                            }
                        },
                        State::RunCommand => {
                            self.state = State::Done;
                            Action::Stop { result: Ok(()) }
                        },
                        State::AwaitDir => vstd::pervasive::unreached(),
                        State::Done => vstd::pervasive::unreached(),
                    }
                }
            },
        }
    }
}

} // verus!
