use code_warrior::compiler::sandbox::{bwrap_command, SandboxConfig, SandboxResult};
use code_warrior::compiler::seccomp_sandbox::{
    build_filter_policy, build_seccomp_filter, CLONE_THREAD_FLAG, SYS_CLONE, SYS_FORK, SYS_PTRACE,
    SYS_SOCKET, SYS_VFORK,
};
use code_warrior::compiler::{
    is_nsjail_available, select_sandbox_mode, CCompiler, CompileStep, ExecutionOutput, RunPlan,
    SandboxMode, SandboxProbe, SubmissionStep,
};

#[test]
fn test_dangerous_function_check() {
    let compiler = CCompiler::with_mode("/tmp".to_string(), SandboxMode::Fallback);

    assert!(compiler.check_dangerous_functions("int main() { return 0; }").is_ok());
    assert!(compiler.check_dangerous_functions("system(\"ls\");").is_err());
    assert!(compiler.check_dangerous_functions("popen(\"cmd\", \"r\");").is_err());
}

#[test]
fn test_nsjail_availability_check() {
    // This test just verifies the function runs without panic
    let _ = is_nsjail_available(SandboxMode::Fallback);
}

#[test]
fn test_build_filter() {
    let filter = build_seccomp_filter();
    assert!(filter.is_ok(), "Failed to build filter: {:?}", filter.err());
    assert!(!filter.unwrap().is_empty());
}

#[test]
fn mode_selection_prefers_seccomp() {
    let probe = SandboxProbe {
        seccomp_ok: true,
        bwrap_present: true,
        bwrap_works: true,
        dev_os: false,
        allow_insecure: false,
    };
    assert_eq!(select_sandbox_mode(&probe).unwrap(), SandboxMode::Seccomp);
}

#[test]
fn mode_selection_falls_back_to_bwrap() {
    let probe = SandboxProbe {
        seccomp_ok: false,
        bwrap_present: true,
        bwrap_works: true,
        dev_os: false,
        allow_insecure: false,
    };
    assert_eq!(select_sandbox_mode(&probe).unwrap(), SandboxMode::Bubblewrap);

    // present but failing its namespace smoke test is not enough
    let probe = SandboxProbe {
        seccomp_ok: false,
        bwrap_present: true,
        bwrap_works: false,
        dev_os: true,
        allow_insecure: false,
    };
    assert_eq!(select_sandbox_mode(&probe).unwrap(), SandboxMode::Fallback);
}

#[test]
fn mode_selection_fails_closed_in_production() {
    let probe = SandboxProbe {
        seccomp_ok: false,
        bwrap_present: false,
        bwrap_works: false,
        dev_os: false,
        allow_insecure: false,
    };
    let r = select_sandbox_mode(&probe);
    assert!(r.is_err());
    let msg = r.err().unwrap();
    assert!(msg.contains("No secure sandbox available"));
    assert!(msg.contains("ALLOW_INSECURE_SANDBOX=1"));
    assert!(msg.contains("DO NOT set ALLOW_INSECURE_SANDBOX=1 in production!"));

    // with the explicit override it runs unisolated instead
    let probe = SandboxProbe {
        seccomp_ok: false,
        bwrap_present: false,
        bwrap_works: false,
        dev_os: false,
        allow_insecure: true,
    };
    assert_eq!(select_sandbox_mode(&probe).unwrap(), SandboxMode::Fallback);
}

#[test]
fn oversized_source_is_rejected_before_compiling() {
    let compiler = CCompiler::with_mode("/tmp".to_string(), SandboxMode::Seccomp);
    let big = "x".repeat(10241);
    match compiler.begin_submission(&big, 42) {
        SubmissionStep::Rejected(out) => {
            assert_eq!(
                out.compile_err.as_deref(),
                Some("Code size exceeds maximum limit of 10240 bytes")
            );
            assert!(out.stdout.is_empty());
            assert!(out.exit_code.is_none());
            assert!(!out.timed_out);
        }
        SubmissionStep::Compile(_) => panic!("oversized source must never reach the compiler"),
    }
}

#[test]
fn fork_is_denylisted_under_fallback() {
    let compiler = CCompiler::with_mode("/tmp".to_string(), SandboxMode::Fallback);
    let source = "int main() { fork(); return 0; }";
    match compiler.begin_submission(source, 42) {
        SubmissionStep::Rejected(out) => {
            assert_eq!(
                out.compile_err.as_deref(),
                Some("Dangerous function 'fork' is not allowed")
            );
        }
        SubmissionStep::Compile(_) => panic!("fork() must be denylisted in fallback mode"),
    }

    // the same source is left to the OS sandbox under seccomp
    let compiler = CCompiler::with_mode("/tmp".to_string(), SandboxMode::Seccomp);
    assert!(matches!(
        compiler.begin_submission(source, 42),
        SubmissionStep::Compile(_)
    ));
}

#[test]
fn compile_plan_uses_timestamped_scratch_dir() {
    let compiler = CCompiler::with_mode("/tmp".to_string(), SandboxMode::Seccomp);
    match compiler.begin_submission("int main() { return 0; }", 1712345678901) {
        SubmissionStep::Compile(plan) => {
            assert_eq!(plan.sandbox_dir, "/tmp/sandbox_1712345678901");
            assert_eq!(plan.source_file, "/tmp/sandbox_1712345678901/code.c");
            assert_eq!(plan.binary_file, "/tmp/sandbox_1712345678901/program");
            assert_eq!(plan.compiler, "gcc");
            assert_eq!(
                plan.args,
                vec![
                    "/tmp/sandbox_1712345678901/code.c".to_string(),
                    "-o".to_string(),
                    "/tmp/sandbox_1712345678901/program".to_string(),
                    "-Wall".to_string(),
                    "-lpthread".to_string(),
                ]
            );
            assert_eq!(plan.timeout_secs, 5);
        }
        SubmissionStep::Rejected(_) => panic!("a small program must be compiled"),
    }
}

#[test]
fn compile_failure_surfaces_stderr_verbatim() {
    let compiler = CCompiler::with_mode("/tmp".to_string(), SandboxMode::Seccomp);
    let plan = match compiler.begin_submission("int main() {", 7) {
        SubmissionStep::Compile(plan) => plan,
        SubmissionStep::Rejected(_) => panic!("source is under the ceiling"),
    };
    match compiler.after_compile(&plan, Some(1), "error: expected '}'".to_string(), true) {
        CompileStep::Failed(out) => {
            assert_eq!(out.compile_err.as_deref(), Some("error: expected '}'"));
            assert!(!out.run_success());
            assert!(!out.compile_success());
        }
        CompileStep::Execute(_) => panic!("a failed compile must not execute"),
    }
}

#[test]
fn run_plans_follow_the_selected_mode() {
    for mode in [SandboxMode::Seccomp, SandboxMode::Bubblewrap, SandboxMode::Fallback] {
        let compiler = CCompiler::with_mode("/tmp".to_string(), mode);
        let plan = match compiler.begin_submission("int main() { return 0; }", 9) {
            SubmissionStep::Compile(plan) => plan,
            SubmissionStep::Rejected(_) => panic!("source is under the ceiling"),
        };
        match compiler.after_compile(&plan, Some(0), String::new(), true) {
            CompileStep::Execute(RunPlan::Seccomp { binary, timeout_secs }) => {
                assert_eq!(mode, SandboxMode::Seccomp);
                assert_eq!(binary, "/tmp/sandbox_9/program");
                assert_eq!(timeout_secs, 5);
            }
            CompileStep::Execute(RunPlan::Bubblewrap { program, argv, timeout_secs }) => {
                assert_eq!(mode, SandboxMode::Bubblewrap);
                assert_eq!(program, "bwrap");
                assert!(argv.contains(&"--unshare-pid".to_string()));
                assert!(argv.contains(&"--unshare-net".to_string()));
                assert_eq!(argv.last().map(String::as_str), Some("/tmp/sandbox_9/program"));
                assert_eq!(timeout_secs, 5);
            }
            CompileStep::Execute(RunPlan::Fallback { binary, timeout_secs }) => {
                assert_eq!(mode, SandboxMode::Fallback);
                assert_eq!(binary, "/tmp/sandbox_9/program");
                assert_eq!(timeout_secs, 5);
            }
            CompileStep::Failed(_) => panic!("a zero compiler exit must execute"),
        }
    }
}

#[test]
fn bwrap_command_line_is_fully_pinned() {
    let argv = bwrap_command("/work/dir", false, "/work/dir/program", &vec!["arg1".to_string()]);
    assert_eq!(
        argv,
        vec![
            "--unshare-net",
            "--unshare-pid",
            "--unshare-ipc",
            "--die-with-parent",
            "--ro-bind",
            "/usr",
            "/usr",
            "--ro-bind",
            "/lib",
            "/lib",
            "--ro-bind",
            "/bin",
            "/bin",
            "--ro-bind",
            "/etc",
            "/etc",
            "--tmpfs",
            "/tmp",
            "--bind",
            "/work/dir",
            "/work/dir",
            "--chdir",
            "/work/dir",
            "--dev",
            "/dev",
            "--proc",
            "/proc",
            "--",
            "/work/dir/program",
            "arg1",
        ]
        .into_iter()
        .map(String::from)
        .collect::<Vec<String>>()
    );

    let with_lib64 = bwrap_command("/w", true, "/w/p", &Vec::new());
    assert!(with_lib64.contains(&"/lib64".to_string()));
}

#[test]
fn finished_run_maps_to_the_uniform_record() {
    let compiler = CCompiler::with_mode("/tmp".to_string(), SandboxMode::Fallback);
    let ok_run = SandboxResult {
        stdout: "5\n".to_string(),
        stderr: String::new(),
        exit_code: Some(0),
        timed_out: false,
        execution_time_ms: 12,
    };
    let out = compiler.finish_run(ok_run, 15);
    assert_eq!(out.stdout, "5\n");
    assert_eq!(out.exit_code, Some(0));
    assert!(!out.timed_out);
    assert!(out.runtime_error.is_none());
    assert_eq!(out.execution_time_ms, 15);
    assert!(out.run_success());

    let hung = SandboxResult {
        stdout: String::new(),
        stderr: "Execution timed out".to_string(),
        exit_code: None,
        timed_out: true,
        execution_time_ms: 5000,
    };
    let out = compiler.finish_run(hung, 5000);
    assert!(out.timed_out);
    assert_eq!(out.exit_code, None);
    assert_eq!(out.runtime_error.as_deref(), Some("Execution timed out"));
    assert!(!out.run_success());

    // the record the library builds for a hit budget carries no exit code
    let hung = SandboxResult::timed_out_after(5);
    assert!(hung.timed_out);
    assert_eq!(hung.exit_code, None);
    assert_eq!(hung.stderr, "Execution timed out");
    assert_eq!(hung.execution_time_ms, 5000);
}

#[test]
fn default_output_is_blank_and_successful_compile() {
    let out = ExecutionOutput::default();
    assert!(out.compile_success());
    assert!(!out.run_success());
    assert_eq!(out.execution_time_ms, 0);
}

#[test]
fn default_sandbox_config() {
    let config = SandboxConfig::default();
    assert_eq!(config.timeout_secs, 5);
    assert_eq!(config.memory_limit, 64 * 1024 * 1024);
}

#[test]
fn mode_labels() {
    assert_eq!(SandboxMode::Seccomp.label(), "seccomp");
    assert_eq!(SandboxMode::Bubblewrap.label(), "bubblewrap");
    assert_eq!(SandboxMode::Fallback.label(), "fallback (INSECURE)");
}

#[test]
fn policy_never_allows_fork_vfork_socket_or_ptrace() {
    let policy = build_filter_policy();
    assert!(!policy.is_empty());
    let mut saw_clone = false;
    for rule in &policy {
        assert_ne!(rule.nr, SYS_FORK);
        assert_ne!(rule.nr, SYS_VFORK);
        assert_ne!(rule.nr, SYS_SOCKET);
        assert_ne!(rule.nr, SYS_PTRACE);
        if rule.nr == SYS_CLONE {
            saw_clone = true;
            let cond = rule.cond.expect("clone must carry its thread-flag condition");
            assert_eq!(cond.arg_index, 0);
            assert_eq!(cond.mask, CLONE_THREAD_FLAG);
            assert_eq!(cond.value, CLONE_THREAD_FLAG);
        } else {
            assert!(rule.cond.is_none());
        }
    }
    assert!(saw_clone, "pthread creation must stay possible");
}

#[test]
fn planning_is_deterministic_for_equal_inputs() {
    let compiler = CCompiler::with_mode("/tmp".to_string(), SandboxMode::Fallback);
    let source = "int main() { return 0; }";
    let a = compiler.begin_submission(source, 1000);
    let b = compiler.begin_submission(source, 1000);
    match (a, b) {
        (SubmissionStep::Compile(p1), SubmissionStep::Compile(p2)) => {
            assert_eq!(p1.sandbox_dir, p2.sandbox_dir);
            assert_eq!(p1.args, p2.args);
        }
        _ => panic!("equal inputs must plan identically"),
    }

    // identical executor results map to identical records but for timing
    let run = || SandboxResult {
        stdout: "out".to_string(),
        stderr: "err".to_string(),
        exit_code: Some(0),
        timed_out: false,
        execution_time_ms: 3,
    };
    let o1 = compiler.finish_run(run(), 10);
    let o2 = compiler.finish_run(run(), 99);
    assert_eq!(o1.stdout, o2.stdout);
    assert_eq!(o1.stderr, o2.stderr);
    assert_eq!(o1.exit_code, o2.exit_code);
    assert_eq!(o1.timed_out, o2.timed_out);
}
