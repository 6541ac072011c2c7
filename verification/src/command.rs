//! Subprocess descriptions and outcomes. The core never spawns a process
//! itself: it hands the driver a [`CommandSpec`] saying exactly what to
//! run and where, and receives a [`RawOutput`] (or a launch failure) back.
//! One builder stands for each git action of the synchronizer and one for
//! the post-update command.

use vstd::prelude::*;
use vstd::string::StringExecFns;

verus! {

/// One subprocess to run: a display name for failure reports, the program
/// to invoke, its arguments, and the directory to run it in (`None` runs
/// it from the driver's own current directory, as the first clone does).
/// The process is given no standard input.
pub struct CommandSpec {
    pub name: String,
    pub program: String,
    pub args: Vec<String>,
    pub dir: Option<String>,
}

/// The mathematical value of a [`CommandSpec`].
#[verifier::ext_equal]
pub struct CmdV {
    pub name: Seq<char>,
    pub program: Seq<char>,
    pub args: Seq<Seq<char>>,
    pub dir: Option<Seq<char>>,
}

impl View for CommandSpec {
    type V = CmdV;

    open spec fn view(&self) -> CmdV {
        CmdV {
            name: self.name@,
            program: self.program@,
            args: self.args.deep_view(),
            dir: match self.dir {
                Some(ref d) => Some(d@),
                None => None,
            },
        }
    }
}

/// What one finished subprocess reported: the exit code the operating
/// system gave (`None` when the process was ended by a signal) and the
/// captured standard output and standard error bytes.
pub struct RawOutput {
    pub code: Option<i32>,
    pub stdout: Vec<u8>,
    pub stderr: Vec<u8>,
}

/// The mathematical value of a [`RawOutput`].
#[verifier::ext_equal]
pub struct OutputV {
    pub code: Option<i32>,
    pub stdout: Seq<u8>,
    pub stderr: Seq<u8>,
}

impl View for RawOutput {
    type V = OutputV;

    open spec fn view(&self) -> OutputV {
        OutputV {
            code: self.code,
            stdout: self.stdout@,
            stderr: self.stderr@,
        }
    }
}

/// A subprocess succeeded exactly when it exited with status zero.
pub open spec fn exit_ok_v(o: OutputV) -> bool {
    o.code == Some(0i32)
}

/// Whether the outcome is a success (exit status zero).
pub fn exit_ok(o: &RawOutput) -> (r: bool)
    ensures
        r == exit_ok_v(o@),
{
    match o.code {
        Some(c) => c == 0,
        None => false,
    }
}

/// The clone URL of a remote slug: `https://github.com/<repo>.git`.
pub open spec fn github_url_v(repo: Seq<char>) -> Seq<char> {
    "https://github.com/"@ + repo + ".git"@
}

/// Builds the clone URL of a remote slug.
pub fn github_url(repo: &str) -> (r: String)
    ensures
        r@ == github_url_v(repo@),
{
    let mut s = String::from_str("https://github.com/");
    s.append(repo);
    s.append(".git");
    s
}

/// A project's working-directory path: `location/<id>`.
pub open spec fn project_path_v(location: Seq<char>, id: Seq<char>) -> Seq<char> {
    location + "/"@ + id
}

/// Builds a project's working-directory path under the base location.
pub fn project_path(location: &str, id: &str) -> (r: String)
    ensures
        r@ == project_path_v(location@, id@),
{
    let mut s = String::from_str(location);
    s.append("/");
    s.append(id);
    s
}

/// `git clone <url> <path>`, run from the driver's own directory: the one
/// step that targets the working directory's parent rather than running
/// inside it.
pub open spec fn clone_cmd_v(git: Seq<char>, repo: Seq<char>, path: Seq<char>) -> CmdV {
    CmdV {
        name: "git clone"@,
        program: git,
        args: seq!["clone"@, github_url_v(repo), path],
        dir: None,
    }
}

/// `git checkout <branch>`, run in the working directory.
pub open spec fn checkout_cmd_v(git: Seq<char>, branch: Seq<char>, path: Seq<char>) -> CmdV {
    CmdV {
        name: "git checkout"@,
        program: git,
        args: seq!["checkout"@, branch],
        dir: Some(path),
    }
}

/// `git remote update`: fetches without merging.
pub open spec fn remote_update_cmd_v(git: Seq<char>, path: Seq<char>) -> CmdV {
    CmdV {
        name: "git remote update"@,
        program: git,
        args: seq!["remote"@, "update"@],
        dir: Some(path),
    }
}

/// `git rev-parse @`: resolves the local branch tip.
pub open spec fn rev_parse_local_cmd_v(git: Seq<char>, path: Seq<char>) -> CmdV {
    CmdV {
        name: "git rev-parse"@,
        program: git,
        args: seq!["rev-parse"@, "@"@],
        dir: Some(path),
    }
}

/// `git rev-parse @{u}`: resolves the upstream tracking tip.
pub open spec fn rev_parse_upstream_cmd_v(git: Seq<char>, path: Seq<char>) -> CmdV {
    CmdV {
        name: "git rev-parse"@,
        program: git,
        args: seq!["rev-parse"@, "@{u}"@],
        dir: Some(path),
    }
}

/// `git pull`: fast-forwards the local branch to the fetched upstream tip.
pub open spec fn pull_cmd_v(git: Seq<char>, path: Seq<char>) -> CmdV {
    CmdV {
        name: "git pull"@,
        program: git,
        args: seq!["pull"@],
        dir: Some(path),
    }
}

/// The post-update command: the configured program, run with no arguments
/// and the project's working directory as its current directory. Its
/// display name is the command text itself.
pub open spec fn run_cmd_v(command: Seq<char>, path: Seq<char>) -> CmdV {
    CmdV {
        name: command,
        program: command,
        args: Seq::empty(),
        dir: Some(path),
    }
}

/// Builds the clone invocation for a project.
pub fn git_clone(git: &str, repo: &str, path: &str) -> (c: CommandSpec)
    ensures
        c@ == clone_cmd_v(git@, repo@, path@),
{
    let mut args: Vec<String> = Vec::new();
    args.push(String::from_str("clone"));
    args.push(github_url(repo));
    args.push(String::from_str(path));
    let c = CommandSpec {
        name: String::from_str("git clone"),
        program: String::from_str(git),
        args,
        dir: None,
    };
    proof {
        assert(c@ =~= clone_cmd_v(git@, repo@, path@));
    }
    c
}

/// Builds the checkout invocation for a branch.
pub fn git_checkout(git: &str, branch: &str, path: &str) -> (c: CommandSpec)
    ensures
        c@ == checkout_cmd_v(git@, branch@, path@),
{
    let mut args: Vec<String> = Vec::new();
    args.push(String::from_str("checkout"));
    args.push(String::from_str(branch));
    let c = CommandSpec {
        name: String::from_str("git checkout"),
        program: String::from_str(git),
        args,
        dir: Some(String::from_str(path)),
    };
    proof {
        assert(c@ =~= checkout_cmd_v(git@, branch@, path@));
    }
    c
}

/// Builds the remote refresh invocation.
pub fn git_remote_update(git: &str, path: &str) -> (c: CommandSpec)
    ensures
        c@ == remote_update_cmd_v(git@, path@),
{
    let mut args: Vec<String> = Vec::new();
    args.push(String::from_str("remote"));
    args.push(String::from_str("update"));
    let c = CommandSpec {
        name: String::from_str("git remote update"),
        program: String::from_str(git),
        args,
        dir: Some(String::from_str(path)),
    };
    proof {
        assert(c@ =~= remote_update_cmd_v(git@, path@));
    }
    c
}

/// Builds the local-tip resolution invocation.
pub fn git_rev_parse_local(git: &str, path: &str) -> (c: CommandSpec)
    ensures
        c@ == rev_parse_local_cmd_v(git@, path@),
{
    let mut args: Vec<String> = Vec::new();
    args.push(String::from_str("rev-parse"));
    args.push(String::from_str("@"));
    let c = CommandSpec {
        name: String::from_str("git rev-parse"),
        program: String::from_str(git),
        args,
        dir: Some(String::from_str(path)),
    };
    proof {
        assert(c@ =~= rev_parse_local_cmd_v(git@, path@));
    }
    c
}

/// Builds the upstream-tip resolution invocation.
pub fn git_rev_parse_upstream(git: &str, path: &str) -> (c: CommandSpec)
    ensures
        c@ == rev_parse_upstream_cmd_v(git@, path@),
{
    let mut args: Vec<String> = Vec::new();
    args.push(String::from_str("rev-parse"));
    args.push(String::from_str("@{u}"));
    let c = CommandSpec {
        name: String::from_str("git rev-parse"),
        program: String::from_str(git),
        args,
        dir: Some(String::from_str(path)),
    };
    proof {
        assert(c@ =~= rev_parse_upstream_cmd_v(git@, path@));
    }
    c
}

/// Builds the fast-forward pull invocation.
pub fn git_pull(git: &str, path: &str) -> (c: CommandSpec)
    ensures
        c@ == pull_cmd_v(git@, path@),
{
    let mut args: Vec<String> = Vec::new();
    args.push(String::from_str("pull"));
    let c = CommandSpec {
        name: String::from_str("git pull"),
        program: String::from_str(git),
        args,
        dir: Some(String::from_str(path)),
    };
    proof {
        assert(c@ =~= pull_cmd_v(git@, path@));
    }
    c
}

/// Builds the post-update command invocation.
pub fn run_from_str(command: &str, path: &str) -> (c: CommandSpec)
    ensures
        c@ == run_cmd_v(command@, path@),
{
    let args: Vec<String> = Vec::new();
    let c = CommandSpec {
        name: String::from_str(command),
        program: String::from_str(command),
        args,
        dir: Some(String::from_str(path)),
    };
    proof {
        assert(c@ =~= run_cmd_v(command@, path@));
    }
    c
}

/// Whether two captured revision identifiers are the same bytes.
pub fn bytes_equal(a: &Vec<u8>, b: &Vec<u8>) -> (r: bool)
    ensures
        r == (a@ == b@),
{
    if a.len() != b.len() {
        return false;
    }
    let n = a.len();
    for i in 0..n
        invariant
            n == a.len() == b.len(),
            forall|k: int| 0 <= k < i ==> a@[k] == b@[k],
    {
        if a[i] != b[i] {
            return false;
        }
    }
    proof {
        assert(a@ =~= b@);
    }
    true
}

} // verus!
