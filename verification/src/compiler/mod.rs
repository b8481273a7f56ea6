//! C code compilation and secure execution.
//!
//! Sandbox priority: seccomp syscall filtering first, bubblewrap
//! namespace isolation second, and an unisolated fallback that is for
//! development only. The mode is chosen once at startup and carried as
//! immutable configuration.
//!
//! The surrounding application probes the host, spawns the compiler and
//! the program, and removes the scratch directory; every decision in
//! between — prechecks, paths, command lines, and how results map to
//! the uniform output record — is planned here and pinned by contract.

pub mod sandbox;
pub mod seccomp_sandbox;

use vstd::prelude::*;
use vstd::string::*;

use crate::compiler::sandbox::{spec_bwrap_args, SandboxConfig, SandboxResult};
use crate::strutil::{contains_seq, dec_rep, str_contains, strs, u64_to_dec, usize_to_dec};

verus! {

/// Available sandbox modes, in order of preference.
#[derive(Debug, Clone, Copy, PartialEq, Eq, Structural)]
pub enum SandboxMode {
    /// Syscall filtering; works in containers without namespace
    /// privileges.
    Seccomp,
    /// Namespace isolation through the bubblewrap helper.
    Bubblewrap,
    /// No isolation: development only.
    Fallback,
}

impl SandboxMode {
    /// A short name for logs and diagnostics.
    pub fn label(&self) -> (r: &'static str)
        ensures
            self is Seccomp ==> r@ == "seccomp"@,
            self is Bubblewrap ==> r@ == "bubblewrap"@,
            self is Fallback ==> r@ == "fallback (INSECURE)"@,
    {
        match self {
            SandboxMode::Seccomp => "seccomp",
            SandboxMode::Bubblewrap => "bubblewrap",
            SandboxMode::Fallback => "fallback (INSECURE)",
        }
    }
}

/// What the startup probe of the host found.
pub struct SandboxProbe {
    /// Syscall filtering is supported on this kernel and build.
    pub seccomp_ok: bool,
    /// The bubblewrap helper binary is present.
    pub bwrap_present: bool,
    /// A live smoke test inside an isolated PID namespace succeeded.
    pub bwrap_works: bool,
    /// This is a development operating system.
    pub dev_os: bool,
    /// The explicit insecure-override flag is set in the environment.
    pub allow_insecure: bool,
}

/// The message a refused startup reports: which secure mechanisms were
/// tried, and that the override flag must never be used in production.
pub fn sandbox_unavailable_message() -> (r: &'static str)
    ensures
        r@ == "FATAL: No secure sandbox available!\n\nNeither seccomp nor bubblewrap is working on this system.\nRunning untrusted C code without a sandbox is a critical security risk.\n\nOptions:\n1. Deploy on Linux with seccomp support (recommended)\n2. Enable user namespaces for bubblewrap\n3. Set ALLOW_INSECURE_SANDBOX=1 for development ONLY\n\nDO NOT set ALLOW_INSECURE_SANDBOX=1 in production!"@,
{
    "FATAL: No secure sandbox available!\n\nNeither seccomp nor bubblewrap is working on this system.\nRunning untrusted C code without a sandbox is a critical security risk.\n\nOptions:\n1. Deploy on Linux with seccomp support (recommended)\n2. Enable user namespaces for bubblewrap\n3. Set ALLOW_INSECURE_SANDBOX=1 for development ONLY\n\nDO NOT set ALLOW_INSECURE_SANDBOX=1 in production!"
}

/// Pick the strongest isolation the host offers, once at startup.
///
/// Preference order: seccomp, then bubblewrap (only when its live smoke
/// test passed), then — on a development OS, or under the explicit
/// override flag — the unisolated fallback. Anywhere else the result is
/// an error and the process must refuse to start: silent insecure
/// fallback in production is the one behavior that must never happen.
pub fn select_sandbox_mode(probe: &SandboxProbe) -> (r: Result<SandboxMode, String>)
    ensures
        probe.seccomp_ok ==> r is Ok && r->Ok_0 is Seccomp,
        !probe.seccomp_ok && probe.bwrap_present && probe.bwrap_works ==> r is Ok && r->Ok_0
            is Bubblewrap,
        !probe.seccomp_ok && !(probe.bwrap_present && probe.bwrap_works) && probe.dev_os ==> r is Ok
            && r->Ok_0 is Fallback,
        !probe.seccomp_ok && !(probe.bwrap_present && probe.bwrap_works) && !probe.dev_os
            && probe.allow_insecure ==> r is Ok && r->Ok_0 is Fallback,
        !probe.seccomp_ok && !(probe.bwrap_present && probe.bwrap_works) && !probe.dev_os
            && !probe.allow_insecure ==> r is Err,
        r is Err ==> r->Err_0@
            == "FATAL: No secure sandbox available!\n\nNeither seccomp nor bubblewrap is working on this system.\nRunning untrusted C code without a sandbox is a critical security risk.\n\nOptions:\n1. Deploy on Linux with seccomp support (recommended)\n2. Enable user namespaces for bubblewrap\n3. Set ALLOW_INSECURE_SANDBOX=1 for development ONLY\n\nDO NOT set ALLOW_INSECURE_SANDBOX=1 in production!"@,
        r is Ok && r->Ok_0 is Fallback ==> probe.dev_os || probe.allow_insecure,
{
    if probe.seccomp_ok {
        Ok(SandboxMode::Seccomp)
    } else if probe.bwrap_present && probe.bwrap_works {
        Ok(SandboxMode::Bubblewrap)
    } else if probe.dev_os {
        Ok(SandboxMode::Fallback)
    } else if probe.allow_insecure {
        Ok(SandboxMode::Fallback)
    } else {
        Err(sandbox_unavailable_message().to_owned())
    }
}

/// Whether the selected mode gives real OS-level isolation.
pub fn is_nsjail_available(mode: SandboxMode) -> (r: bool)
    ensures
        r == (mode is Seccomp || mode is Bubblewrap),
{
    match mode {
        SandboxMode::Seccomp => true,
        SandboxMode::Bubblewrap => true,
        SandboxMode::Fallback => false,
    }
}

/// The uniform result record of one submission.
#[derive(Debug, Clone)]
pub struct ExecutionOutput {
    pub stdout: String,
    pub stderr: String,
    pub compile_err: Option<String>,
    pub runtime_error: Option<String>,
    pub exit_code: Option<i32>,
    pub execution_time_ms: u64,
    pub timed_out: bool,
}

impl Default for ExecutionOutput {
    /// Everything empty: no output, no errors, no exit code.
    fn default() -> (r: Self)
        ensures
            r.stdout@ == Seq::<char>::empty(),
            r.stderr@ == Seq::<char>::empty(),
            r.compile_err is None,
            r.runtime_error is None,
            r.exit_code is None,
            r.execution_time_ms == 0,
            !r.timed_out,
    {
        ExecutionOutput {
            stdout: String::new(),
            stderr: String::new(),
            compile_err: None,
            runtime_error: None,
            exit_code: None,
            execution_time_ms: 0,
            timed_out: false,
        }
    }
}

/// A record that reports a failure before any execution: all execution
/// fields empty or default, only the compile error set. Compilation and
/// execution are mutually exclusive phases.
pub open spec fn blank_with_compile_err(o: ExecutionOutput, msg: Seq<char>) -> bool {
    &&& o.stdout@ == Seq::<char>::empty()
    &&& o.stderr@ == Seq::<char>::empty()
    &&& o.compile_err is Some
    &&& o.compile_err->0@ == msg
    &&& o.runtime_error is None
    &&& o.exit_code is None
    &&& o.execution_time_ms == 0
    &&& !o.timed_out
}

impl ExecutionOutput {
    /// Compilation produced a binary.
    pub fn compile_success(&self) -> (r: bool)
        ensures
            r == (self.compile_err is None),
    {
        self.compile_err.is_none()
    }

    /// The whole run succeeded: compiled, no runtime error, no timeout,
    /// and the program exited with status zero.
    pub fn run_success(&self) -> (r: bool)
        ensures
            r == (self.compile_err is None && self.runtime_error is None && !self.timed_out
                && self.exit_code == Some(0i32)),
    {
        if self.compile_err.is_some() {
            return false;
        }
        if self.runtime_error.is_some() {
            return false;
        }
        if self.timed_out {
            return false;
        }
        match self.exit_code {
            Some(c) => c == 0,
            None => false,
        }
    }
}

/// The denylist verdict on a source text in fallback mode: the first
/// process-spawn or shell-invocation name found, as an error message.
/// This scan is advisory only and trivially bypassable; it is permitted
/// solely where no real isolation exists and an operator has
/// acknowledged the risk.
pub open spec fn spec_check_dangerous(src: Seq<char>) -> Option<Seq<char>> {
    if contains_seq(src, "system("@) {
        Some("Dangerous function 'system' is not allowed"@)
    } else if contains_seq(src, "exec("@) {
        Some("Dangerous function 'exec' is not allowed"@)
    } else if contains_seq(src, "popen("@) {
        Some("Dangerous function 'popen' is not allowed"@)
    } else if contains_seq(src, "fork("@) {
        Some("Dangerous function 'fork' is not allowed"@)
    } else {
        None
    }
}

/// A source that calls the process-fork function never passes the
/// fallback denylist; where no earlier denylist name occurs, the
/// rejection names fork itself.
pub proof fn lemma_fallback_denylists_fork(src: Seq<char>)
    requires
        contains_seq(src, "fork("@),
    ensures
        spec_check_dangerous(src) is Some,
        !contains_seq(src, "system("@) && !contains_seq(src, "exec("@) && !contains_seq(
            src,
            "popen("@,
        ) ==> spec_check_dangerous(src)->0 == "Dangerous function 'fork' is not allowed"@,
{
}

/// What the orchestrator does next with a submission.
pub enum SubmissionStep {
    /// The source was rejected before any process was spawned; the
    /// record carries the reason as a compile error.
    Rejected(ExecutionOutput),
    /// The source is written to the scratch directory and compiled as
    /// the plan says.
    Compile(CompilePlan),
}

/// Where the scratch files go and how the trusted system compiler is
/// invoked. Compilation is never sandboxed: it runs on fixed paths the
/// orchestrator controls.
pub struct CompilePlan {
    /// Fresh scratch directory, named from a high-resolution timestamp
    /// so concurrent submissions never share filesystem state.
    pub sandbox_dir: String,
    /// The C source file inside the scratch directory.
    pub source_file: String,
    /// The binary the compiler emits.
    pub binary_file: String,
    /// The compiler command.
    pub compiler: String,
    /// Its arguments.
    pub args: Vec<String>,
    /// Wall-clock budget for the compile, in seconds.
    pub timeout_secs: u64,
}

/// How the compiled binary is executed, by mode.
pub enum RunPlan {
    /// Spawn the binary directly, applying the syscall filter in the
    /// child immediately before it replaces itself with the program.
    Seccomp { binary: String, timeout_secs: u64 },
    /// Spawn the helper with the argument vector built by
    /// `sandbox::bwrap_command`.
    Bubblewrap { program: String, argv: Vec<String>, timeout_secs: u64 },
    /// Spawn the binary directly with no isolation.
    Fallback { binary: String, timeout_secs: u64 },
}

/// What the orchestrator does after the compiler returned.
pub enum CompileStep {
    /// The compiler exited non-zero; its stderr is the user's feedback,
    /// and nothing is executed.
    Failed(ExecutionOutput),
    /// The binary exists; run it under the configured executor.
    Execute(RunPlan),
}

/// The compile-and-execute orchestrator's immutable configuration.
pub struct CCompiler {
    /// Parent directory for scratch directories.
    pub temp_dir: String,
    /// Wall-clock budget for each phase, in seconds.
    pub timeout_secs: u64,
    /// Submissions above this many bytes are rejected unseen.
    pub max_code_size: usize,
    /// The isolation mode chosen at startup.
    pub sandbox_mode: SandboxMode,
    /// Executor configuration.
    pub sandbox_config: SandboxConfig,
}

impl CCompiler {
    /// Configuration around a mode the startup probe selected: a
    /// five-second budget and a ten-kilobyte source ceiling.
    pub fn with_mode(temp_dir: String, sandbox_mode: SandboxMode) -> (r: Self)
        ensures
            r.temp_dir@ == temp_dir@,
            r.timeout_secs == 5,
            r.max_code_size == 10240,
            r.sandbox_mode == sandbox_mode,
            r.sandbox_config.timeout_secs == 5,
            r.sandbox_config.memory_limit == 64 * 1024 * 1024,
    {
        CCompiler {
            temp_dir,
            timeout_secs: 5,
            max_code_size: 10240,
            sandbox_mode,
            sandbox_config: SandboxConfig::default(),
        }
    }

    /// The mode this orchestrator runs under.
    pub fn sandbox_mode(&self) -> (r: SandboxMode)
        ensures
            r == self.sandbox_mode,
    {
        self.sandbox_mode
    }

    /// Scan source text for the fallback denylist of process-spawn and
    /// shell-invocation names.
    pub fn check_dangerous_functions(&self, source: &str) -> (r: Result<(), String>)
        ensures
            r is Err == spec_check_dangerous(source@) is Some,
            r is Err ==> r->Err_0@ == spec_check_dangerous(source@)->0,
    {
        if str_contains(source, "system(") {
            Err("Dangerous function 'system' is not allowed".to_owned())
        } else if str_contains(source, "exec(") {
            Err("Dangerous function 'exec' is not allowed".to_owned())
        } else if str_contains(source, "popen(") {
            Err("Dangerous function 'popen' is not allowed".to_owned())
        } else if str_contains(source, "fork(") {
            Err("Dangerous function 'fork' is not allowed".to_owned())
        } else {
            Ok(())
        }
    }

    /// The scratch directory for a submission stamped `ts` milliseconds.
    pub open spec fn spec_sandbox_dir(self, ts: u64) -> Seq<char> {
        self.temp_dir@ + "/sandbox_"@ + dec_rep(ts as nat)
    }

    /// Decide what happens to a submission before anything is spawned.
    ///
    /// A source over the size ceiling is rejected as a compile error
    /// and never reaches the compiler. In fallback mode — and only
    /// there, since the real sandboxes block the calls at the OS level
    /// — a denylist hit is rejected the same way. Everything else gets
    /// a compile plan in a fresh scratch directory.
    pub fn begin_submission(&self, source: &str, timestamp_millis: u64) -> (r: SubmissionStep)
        ensures
            source.spec_bytes().len() > self.max_code_size ==> r is Rejected
                && blank_with_compile_err(
                r->Rejected_0,
                "Code size exceeds maximum limit of "@ + dec_rep(self.max_code_size as nat)
                    + " bytes"@,
            ),
            source.spec_bytes().len() <= self.max_code_size && self.sandbox_mode is Fallback
                && spec_check_dangerous(source@) is Some ==> r is Rejected
                && blank_with_compile_err(r->Rejected_0, spec_check_dangerous(source@)->0),
            source.spec_bytes().len() <= self.max_code_size && (self.sandbox_mode is Fallback
                ==> spec_check_dangerous(source@) is None) ==> r is Compile && ({
                let plan = r->Compile_0;
                &&& plan.sandbox_dir@ == self.spec_sandbox_dir(timestamp_millis)
                &&& plan.source_file@ == self.spec_sandbox_dir(timestamp_millis) + "/code.c"@
                &&& plan.binary_file@ == self.spec_sandbox_dir(timestamp_millis) + "/program"@
                &&& plan.compiler@ == "gcc"@
                &&& strs(plan.args@) == seq![
                    self.spec_sandbox_dir(timestamp_millis) + "/code.c"@,
                    "-o"@,
                    self.spec_sandbox_dir(timestamp_millis) + "/program"@,
                    "-Wall"@,
                    "-lpthread"@,
                ]
                &&& plan.timeout_secs == self.timeout_secs
            }),
    {
        let len = source.as_bytes().len();
        if len > self.max_code_size {
            let mut msg = "Code size exceeds maximum limit of ".to_owned();
            let digits = usize_to_dec(self.max_code_size);
            msg.append(digits.as_str());
            msg.append(" bytes");
            let mut out = ExecutionOutput::default();
            out.compile_err = Some(msg);
            return SubmissionStep::Rejected(out);
        }
        if matches!(self.sandbox_mode, SandboxMode::Fallback) {
            match self.check_dangerous_functions(source) {
                Err(msg) => {
                    let mut out = ExecutionOutput::default();
                    out.compile_err = Some(msg);
                    return SubmissionStep::Rejected(out);
                },
                Ok(()) => {},
            }
        }
        let mut dir = String::new();
        dir.append(self.temp_dir.as_str());
        dir.append("/sandbox_");
        let stamp = u64_to_dec(timestamp_millis);
        dir.append(stamp.as_str());
        let mut source_file = dir.clone();
        source_file.append("/code.c");
        let mut binary_file = dir.clone();
        binary_file.append("/program");
        let mut args: Vec<String> = Vec::new();
        args.push(source_file.clone());
        args.push("-o".to_owned());
        args.push(binary_file.clone());
        args.push("-Wall".to_owned());
        args.push("-lpthread".to_owned());
        proof {
            assert(strs(args@) =~= seq![
                self.spec_sandbox_dir(timestamp_millis) + "/code.c"@,
                "-o"@,
                self.spec_sandbox_dir(timestamp_millis) + "/program"@,
                "-Wall"@,
                "-lpthread"@,
            ]);
        }
        SubmissionStep::Compile(
            CompilePlan {
                sandbox_dir: dir,
                source_file,
                binary_file,
                compiler: "gcc".to_owned(),
                args,
                timeout_secs: self.timeout_secs,
            },
        )
    }

    /// Decide what happens after the compiler returned: a non-zero exit
    /// surfaces the compiler's stderr verbatim as the compile error and
    /// ends the pipeline; success yields the run plan for whichever
    /// executor the startup probe selected.
    pub fn after_compile(
        &self,
        plan: &CompilePlan,
        compile_exit: Option<i32>,
        compile_stderr: String,
        lib64_exists: bool,
    ) -> (r: CompileStep)
        ensures
            compile_exit != Some(0i32) ==> r is Failed && blank_with_compile_err(
                r->Failed_0,
                compile_stderr@,
            ),
            compile_exit == Some(0i32) ==> r is Execute && ({
                let rp = r->Execute_0;
                match self.sandbox_mode {
                    SandboxMode::Seccomp => rp matches RunPlan::Seccomp { binary, timeout_secs }
                        && binary@ == plan.binary_file@ && timeout_secs == self.timeout_secs,
                    SandboxMode::Bubblewrap => rp matches RunPlan::Bubblewrap {
                        program,
                        argv,
                        timeout_secs,
                    } && program@ == "bwrap"@ && strs(argv@) == spec_bwrap_args(
                        plan.sandbox_dir@,
                        lib64_exists,
                        plan.binary_file@,
                        Seq::<Seq<char>>::empty(),
                    ) && timeout_secs == self.sandbox_config.timeout_secs,
                    SandboxMode::Fallback => rp matches RunPlan::Fallback { binary, timeout_secs }
                        && binary@ == plan.binary_file@ && timeout_secs == self.timeout_secs,
                }
            }),
    {
        let ok = match compile_exit {
            Some(c) => c == 0,
            None => false,
        };
        if !ok {
            let mut out = ExecutionOutput::default();
            out.compile_err = Some(compile_stderr);
            return CompileStep::Failed(out);
        }
        match self.sandbox_mode {
            SandboxMode::Seccomp => CompileStep::Execute(
                RunPlan::Seccomp {
                    binary: self.clone_string(&plan.binary_file),
                    timeout_secs: self.timeout_secs,
                },
            ),
            SandboxMode::Bubblewrap => {
                let empty_args: Vec<String> = Vec::new();
                proof {
                    assert(strs(empty_args@) =~= Seq::<Seq<char>>::empty());
                }
                let argv = sandbox::bwrap_command(
                    plan.sandbox_dir.as_str(),
                    lib64_exists,
                    plan.binary_file.as_str(),
                    &empty_args,
                );
                CompileStep::Execute(
                    RunPlan::Bubblewrap {
                        program: "bwrap".to_owned(),
                        argv,
                        timeout_secs: self.sandbox_config.timeout_secs,
                    },
                )
            },
            SandboxMode::Fallback => CompileStep::Execute(
                RunPlan::Fallback {
                    binary: self.clone_string(&plan.binary_file),
                    timeout_secs: self.timeout_secs,
                },
            ),
        }
    }

    fn clone_string(&self, s: &String) -> (r: String)
        ensures
            r@ == s@,
    {
        s.clone()
    }

    /// Fold one executor result into the uniform record. A timeout
    /// carries a synthetic runtime error and no exit code is promised;
    /// everything else passes through unchanged.
    pub fn finish_run(&self, run: SandboxResult, elapsed_ms: u64) -> (r: ExecutionOutput)
        ensures
            spec_finish_run(run, elapsed_ms, r),
    {
        let timed_out = run.timed_out;
        ExecutionOutput {
            stdout: run.stdout,
            stderr: run.stderr,
            compile_err: None,
            runtime_error: if timed_out {
                Some("Execution timed out".to_owned())
            } else {
                None
            },
            exit_code: run.exit_code,
            execution_time_ms: elapsed_ms,
            timed_out,
        }
    }
}

/// How a finished run maps to the uniform record: output, exit code and
/// the timeout flag pass through; a timeout gains a synthetic runtime
/// error; the compile error stays empty.
pub open spec fn spec_finish_run(run: SandboxResult, elapsed_ms: u64, o: ExecutionOutput) -> bool {
    &&& o.stdout@ == run.stdout@
    &&& o.stderr@ == run.stderr@
    &&& o.compile_err is None
    &&& o.exit_code == run.exit_code
    &&& o.timed_out == run.timed_out
    &&& (run.timed_out ==> o.runtime_error is Some && o.runtime_error->0@
        == "Execution timed out"@)
    &&& (!run.timed_out ==> o.runtime_error is None)
    &&& o.execution_time_ms == elapsed_ms
}

/// A run that exceeded its wall-clock budget folds into a record with
/// the timeout flag set, the synthetic runtime error, and no exit code.
pub proof fn lemma_timeout_record(run: SandboxResult, elapsed_ms: u64, o: ExecutionOutput)
    requires
        run.timed_out,
        run.exit_code is None,
        spec_finish_run(run, elapsed_ms, o),
    ensures
        o.timed_out,
        o.exit_code is None,
        o.runtime_error is Some,
        o.runtime_error->0@ == "Execution timed out"@,
        o.compile_err is None,
{
}

/// Identical executor results give identical submission results but for
/// the timing field: what a program printed and how it exited never
/// depends on when the pipeline measured it.
pub proof fn lemma_finish_run_timing_independent(
    run: SandboxResult,
    t1: u64,
    t2: u64,
    o1: ExecutionOutput,
    o2: ExecutionOutput,
)
    requires
        spec_finish_run(run, t1, o1),
        spec_finish_run(run, t2, o2),
    ensures
        o1.stdout@ == o2.stdout@,
        o1.stderr@ == o2.stderr@,
        o1.exit_code == o2.exit_code,
        o1.timed_out == o2.timed_out,
        o1.compile_err is None && o2.compile_err is None,
{
}

} // verus!
