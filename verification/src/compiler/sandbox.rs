//! Namespace-isolation executor support: configuration, the uniform
//! result record of one sandboxed run, and the exact bubblewrap command
//! line that isolates a program in network, PID and IPC namespaces.
//!
//! Spawning the command and capturing its output is the surrounding
//! application's part; the argument vector it must pass is built and
//! pinned down here.

use vstd::prelude::*;
use vstd::string::*;

use crate::strutil::strs;

verus! {

/// Configuration for the sandboxed executors.
pub struct SandboxConfig {
    /// Execution timeout in seconds.
    pub timeout_secs: u64,
    /// Memory limit in bytes, advisory (0 = unlimited).
    pub memory_limit: u64,
}

impl Default for SandboxConfig {
    /// Five seconds and 64 MiB.
    fn default() -> (r: Self)
        ensures
            r.timeout_secs == 5,
            r.memory_limit == 64 * 1024 * 1024,
    {
        SandboxConfig { timeout_secs: 5, memory_limit: 64 * 1024 * 1024 }
    }
}

/// What one run of a command produced.
pub struct SandboxResult {
    pub stdout: String,
    pub stderr: String,
    pub exit_code: Option<i32>,
    pub timed_out: bool,
    pub execution_time_ms: u64,
}

impl SandboxResult {
    /// The record of a run that exceeded its wall-clock budget: the
    /// child's output is not read further, no exit code exists, and a
    /// synthetic message stands in stderr.
    pub fn timed_out_after(timeout_secs: u64) -> (r: Self)
        requires
            timeout_secs * 1000 <= u64::MAX,
        ensures
            r.stdout@ == Seq::<char>::empty(),
            r.stderr@ == "Execution timed out"@,
            r.exit_code is None,
            r.timed_out,
            r.execution_time_ms == timeout_secs * 1000,
    {
        SandboxResult {
            stdout: String::new(),
            stderr: "Execution timed out".to_owned(),
            exit_code: None,
            timed_out: true,
            execution_time_ms: timeout_secs * 1000,
        }
    }
}

/// The bubblewrap options before the command: unshare network, PID and
/// IPC namespaces, die with the parent, mount the system directories
/// read-only, give a private writable `/tmp`, bind the working
/// directory read-write and enter it, and expose minimal `/dev` and
/// `/proc`. `/lib64` is bound only where the host has one.
pub open spec fn spec_bwrap_prefix(cwd: Seq<char>, lib64_exists: bool) -> Seq<Seq<char>> {
    seq![
        "--unshare-net"@,
        "--unshare-pid"@,
        "--unshare-ipc"@,
        "--die-with-parent"@,
        "--ro-bind"@,
        "/usr"@,
        "/usr"@,
        "--ro-bind"@,
        "/lib"@,
        "/lib"@,
        "--ro-bind"@,
        "/bin"@,
        "/bin"@,
    ] + (if lib64_exists {
        seq!["--ro-bind"@, "/lib64"@, "/lib64"@]
    } else {
        Seq::<Seq<char>>::empty()
    }) + seq![
        "--ro-bind"@,
        "/etc"@,
        "/etc"@,
        "--tmpfs"@,
        "/tmp"@,
        "--bind"@,
        cwd,
        cwd,
        "--chdir"@,
        cwd,
        "--dev"@,
        "/dev"@,
        "--proc"@,
        "/proc"@,
    ]
}

/// The whole argument vector handed to `bwrap`: the isolation options,
/// then `--`, then the command and its arguments.
pub open spec fn spec_bwrap_args(
    cwd: Seq<char>,
    lib64_exists: bool,
    command: Seq<char>,
    args: Seq<Seq<char>>,
) -> Seq<Seq<char>> {
    spec_bwrap_prefix(cwd, lib64_exists) + seq!["--"@, command] + args
}

/// Build the argument vector for one bubblewrap invocation.
pub fn bwrap_command(cwd: &str, lib64_exists: bool, command: &str, args: &Vec<String>) -> (r: Vec<
    String,
>)
    ensures
        strs(r@) == spec_bwrap_args(cwd@, lib64_exists, command@, strs(args@)),
{
    let mut v: Vec<String> = Vec::new();
    v.push("--unshare-net".to_owned());
    v.push("--unshare-pid".to_owned());
    v.push("--unshare-ipc".to_owned());
    v.push("--die-with-parent".to_owned());
    v.push("--ro-bind".to_owned());
    v.push("/usr".to_owned());
    v.push("/usr".to_owned());
    v.push("--ro-bind".to_owned());
    v.push("/lib".to_owned());
    v.push("/lib".to_owned());
    v.push("--ro-bind".to_owned());
    v.push("/bin".to_owned());
    v.push("/bin".to_owned());
    if lib64_exists {
        v.push("--ro-bind".to_owned());
        v.push("/lib64".to_owned());
        v.push("/lib64".to_owned());
    }
    v.push("--ro-bind".to_owned());
    v.push("/etc".to_owned());
    v.push("/etc".to_owned());
    v.push("--tmpfs".to_owned());
    v.push("/tmp".to_owned());
    v.push("--bind".to_owned());
    v.push(cwd.to_owned());
    v.push(cwd.to_owned());
    v.push("--chdir".to_owned());
    v.push(cwd.to_owned());
    v.push("--dev".to_owned());
    v.push("/dev".to_owned());
    v.push("--proc".to_owned());
    v.push("/proc".to_owned());
    v.push("--".to_owned());
    v.push(command.to_owned());
    let ghost fixed = spec_bwrap_prefix(cwd@, lib64_exists) + seq!["--"@, command@];
    proof {
        assert(strs(v@) =~= fixed);
    }
    let ghost base = v@;
    let mut i: usize = 0;
    while i < args.len()
        invariant
            i <= args@.len(),
            strs(base) == fixed,
            base.len() == fixed.len(),
            v@.len() == base.len() + i,
            forall|j: int| 0 <= j < base.len() ==> v@[j] == base[j],
            forall|k: int| 0 <= k < i ==> v@[base.len() + k]@ == args@[k]@,
        decreases args@.len() - i,
    {
        v.push(args[i].clone());
        i = i + 1;
    }
    proof {
        assert forall|j: int|
            0 <= j < strs(v@).len() implies strs(v@)[j] == spec_bwrap_args(
            cwd@,
            lib64_exists,
            command@,
            strs(args@),
        )[j] by {
            assert(strs(v@)[j] == v@[j]@);
            if j < base.len() {
                assert(strs(base)[j] == base[j]@);
            } else {
                assert(strs(args@)[j - base.len()] == args@[j - base.len()]@);
            }
        }
        assert(strs(v@) =~= spec_bwrap_args(cwd@, lib64_exists, command@, strs(args@)));
    }
    v
}

/// The namespace executor always takes away PID-namespace sight of the
/// host: `--unshare-pid` stands in every command line it builds.
pub proof fn lemma_bwrap_unshares_pid(
    cwd: Seq<char>,
    lib64_exists: bool,
    command: Seq<char>,
    args: Seq<Seq<char>>,
)
    ensures
        spec_bwrap_args(cwd, lib64_exists, command, args)[1] == "--unshare-pid"@,
        spec_bwrap_args(cwd, lib64_exists, command, args)[0] == "--unshare-net"@,
        spec_bwrap_args(cwd, lib64_exists, command, args)[2] == "--unshare-ipc"@,
{
}

} // verus!
