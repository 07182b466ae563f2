use vstd::prelude::*;

verus! {

/// Name of the directory that holds the native shell's crate.
pub const SHELL_DIR: &'static str = "src-tauri";

/// Name of the directory that holds the desktop front end.
pub const DESKTOP_DIR: &'static str = "desktop";

/// A directory path split the way the platform splits it: an anchor (a
/// drive prefix and/or root, empty for a relative path) followed by the
/// components that can be walked up from, one by one.
pub struct WorkDir {
    pub anchor: String,
    pub parts: Vec<String>,
}

/// The mathematical value of a `WorkDir`.
pub struct WorkDirView {
    pub anchor: Seq<char>,
    pub parts: Seq<Seq<char>>,
}

impl View for WorkDir {
    type V = WorkDirView;

    open spec fn view(&self) -> WorkDirView {
        WorkDirView { anchor: self.anchor@, parts: self.parts@.map_values(|p: String| p@) }
    }
}

/// True when the last component of `d` is `name`.
pub open spec fn ends_with_dir(d: WorkDirView, name: Seq<char>) -> bool {
    d.parts.len() > 0 && d.parts.last() == name
}

/// `d` with its last `n` components removed.
pub open spec fn ancestor(d: WorkDirView, n: nat) -> WorkDirView
    recommends
        n <= d.parts.len(),
{
    WorkDirView { anchor: d.anchor, parts: d.parts.subrange(0, d.parts.len() - n) }
}

/// The project root for the working directory `d`: two levels up from the
/// shell's crate directory (when that far up exists), one level up from the
/// desktop directory, and `d` itself otherwise.
pub open spec fn project_root_of(d: WorkDirView) -> WorkDirView {
    if ends_with_dir(d, SHELL_DIR@) {
        if d.parts.len() >= 2 {
            ancestor(d, 2)
        } else {
            d
        }
    } else if ends_with_dir(d, DESKTOP_DIR@) {
        ancestor(d, 1)
    } else {
        d
    }
}

impl WorkDir {
    /// True when the last component of this path is `name`.
    pub fn ends_with_dir(&self, name: &str) -> (r: bool)
        ensures
            r == ends_with_dir(self@, name@),
    {
        let n = self.parts.len();
        if n == 0 {
            return false;
        }
        let target = String::from_str(name);
        self.parts[n - 1] == target
    }

    /// This path with its last `n` components removed.
    pub fn ancestor(&self, n: usize) -> (r: WorkDir)
        requires
            n <= self@.parts.len(),
        ensures
            r@ == ancestor(self@, n as nat),
            n == 0 ==> r@ == self@,
    {
        let keep = self.parts.len() - n;
        let mut parts: Vec<String> = Vec::new();
        let mut i: usize = 0;
        while i < keep
            invariant
                keep <= self.parts.len(),
                i <= keep,
                parts@.len() == i,
                forall|j: int| 0 <= j < i ==> #[trigger] parts@[j]@ == self.parts@[j]@,
            decreases keep - i,
        {
            parts.push(self.parts[i].clone());
            i = i + 1;
        }
        let r = WorkDir { anchor: self.anchor.clone(), parts };
        assert(r@.parts =~= ancestor(self@, n as nat).parts);
        proof {
            if n == 0 {
                assert(r@.parts =~= self@.parts);
            }
        }
        r
    }
}

/// The project root is the matching ancestor of a working directory that
/// ends in a known directory, and the working directory itself otherwise.
pub proof fn lemma_project_root_cases(d: WorkDirView)
    ensures
        ends_with_dir(d, SHELL_DIR@) && d.parts.len() >= 2 ==> project_root_of(d).anchor == d.anchor
            && project_root_of(d).parts == d.parts.subrange(0, d.parts.len() - 2),
        ends_with_dir(d, DESKTOP_DIR@) ==> project_root_of(d).anchor == d.anchor
            && project_root_of(d).parts == d.parts.subrange(0, d.parts.len() - 1),
        !ends_with_dir(d, SHELL_DIR@) && !ends_with_dir(d, DESKTOP_DIR@) ==> project_root_of(d) == d,
{
    reveal_strlit("src-tauri");
    reveal_strlit("desktop");
    if ends_with_dir(d, DESKTOP_DIR@) {
        assert(SHELL_DIR@[0] != DESKTOP_DIR@[0]);
        assert(!ends_with_dir(d, SHELL_DIR@));
    }
}

/// Resolves the project root from the current working directory.
pub fn resolve_project_root(cwd: &WorkDir) -> (root: WorkDir)
    ensures
        root@ == project_root_of(cwd@),
{
    if cwd.ends_with_dir(SHELL_DIR) {
        if cwd.parts.len() >= 2 {
            cwd.ancestor(2)
        } else {
            cwd.ancestor(0)
        }
    } else if cwd.ends_with_dir(DESKTOP_DIR) {
        cwd.ancestor(1)
    } else {
        cwd.ancestor(0)
    }
}

/// The backend module that both command forms run.
pub const BACKEND_MODULE: &'static str = "voxgrep.server.app";

/// The dependency manager that can run the backend in its own environment.
pub const MANAGER_PROGRAM: &'static str = "poetry";

/// How the backend is started, chosen once at startup.
#[derive(PartialEq, Eq, Structural, Clone, Copy, Debug)]
pub enum LaunchMode {
    /// Through the dependency manager: `poetry run python -m <module>`.
    Managed,
    /// Straight through the interpreter: `python3 -m <module>`.
    Direct,
}

/// A program and its arguments.
pub struct BackendCommand {
    pub program: String,
    pub args: Vec<String>,
}

/// The arguments of a command, as a sequence of character sequences.
pub open spec fn args_view(args: Seq<String>) -> Seq<Seq<char>> {
    args.map_values(|a: String| a@)
}

/// The mode chosen from the outcome of probing for the dependency manager:
/// any probe that ran at all makes it available.
pub open spec fn mode_for_probe(manager_ran: bool) -> LaunchMode {
    if manager_ran {
        LaunchMode::Managed
    } else {
        LaunchMode::Direct
    }
}

/// The interpreter's name on the platform: `python` on Windows, `python3`
/// elsewhere.
pub open spec fn interpreter_name(windows: bool) -> Seq<char> {
    if windows {
        "python"@
    } else {
        "python3"@
    }
}

/// The program run for `mode`.
pub open spec fn program_for(mode: LaunchMode, windows: bool) -> Seq<char> {
    match mode {
        LaunchMode::Managed => MANAGER_PROGRAM@,
        LaunchMode::Direct => interpreter_name(windows),
    }
}

/// The arguments passed for `mode`.
pub open spec fn args_for(mode: LaunchMode) -> Seq<Seq<char>> {
    match mode {
        LaunchMode::Managed => seq!["run"@, "python"@, "-m"@, BACKEND_MODULE@],
        LaunchMode::Direct => seq!["-m"@, BACKEND_MODULE@],
    }
}

/// Chooses the launch mode from whether the dependency manager's probe ran.
pub fn select_launch_mode(manager_ran: bool) -> (mode: LaunchMode)
    ensures
        mode == mode_for_probe(manager_ran),
{
    if manager_ran {
        LaunchMode::Managed
    } else {
        LaunchMode::Direct
    }
}

/// When the dependency manager's probe did not run (it is absent or failed
/// to start), the backend is run straight through the interpreter, never
/// through the manager.
pub proof fn lemma_failed_probe_runs_interpreter(windows: bool)
    ensures
        mode_for_probe(false) == LaunchMode::Direct,
        program_for(mode_for_probe(false), windows) == interpreter_name(windows),
        program_for(mode_for_probe(false), windows) != MANAGER_PROGRAM@,
        args_for(mode_for_probe(false)) == seq!["-m"@, BACKEND_MODULE@],
{
    reveal_strlit("python");
    reveal_strlit("python3");
    reveal_strlit("poetry");
    assert(interpreter_name(windows)[1] != MANAGER_PROGRAM@[1]);
}

/// Builds the command line that starts the backend in `mode`.
pub fn backend_command(mode: LaunchMode, windows: bool) -> (cmd: BackendCommand)
    ensures
        cmd.program@ == program_for(mode, windows),
        args_view(cmd.args@) == args_for(mode),
{
    let mut args: Vec<String> = Vec::new();
    let program = match mode {
        LaunchMode::Managed => {
            args.push(String::from_str("run"));
            args.push(String::from_str("python"));
            String::from_str(MANAGER_PROGRAM)
        },
        LaunchMode::Direct => {
            if windows {
                String::from_str("python")
            } else {
                String::from_str("python3")
            }
        },
    };
    args.push(String::from_str("-m"));
    args.push(String::from_str(BACKEND_MODULE));
    assert(args_view(args@) =~= args_for(mode));
    BackendCommand { program, args }
}

/// Builds the command line that runs `script` with `interpreter`, the
/// caller's arguments following the script.
pub fn script_command(interpreter: &str, script: &str, extra: &Vec<String>) -> (cmd: BackendCommand)
    ensures
        cmd.program@ == interpreter@,
        args_view(cmd.args@) == seq![script@] + args_view(extra@),
{
    let mut args: Vec<String> = Vec::new();
    args.push(String::from_str(script));
    let mut i: usize = 0;
    while i < extra.len()
        invariant
            i <= extra.len(),
            args@.len() == i + 1,
            args@[0]@ == script@,
            forall|j: int| 0 <= j < i ==> #[trigger] args@[j + 1]@ == extra@[j]@,
        decreases extra.len() - i,
    {
        args.push(extra[i].clone());
        i = i + 1;
    }
    proof {
        let want = seq![script@] + args_view(extra@);
        assert forall|k: int| 1 <= k < args@.len() implies args_view(args@)[k] == want[k] by {
            assert(args@[(k - 1) + 1]@ == extra@[k - 1]@);
        }
        assert(args_view(args@) =~= want);
    }
    BackendCommand { program: String::from_str(interpreter), args }
}

/// Prefix of the error reported when the backend process cannot be created.
pub const SPAWN_ERROR_PREFIX: &'static str = "Failed to spawn python backend: ";

/// The launch error for a process-creation failure described by `detail`.
pub fn spawn_error(detail: &str) -> (msg: String)
    ensures
        msg@ == SPAWN_ERROR_PREFIX@ + detail@,
{
    let mut msg = String::from_str(SPAWN_ERROR_PREFIX);
    msg.append(detail);
    msg
}

} // verus!
