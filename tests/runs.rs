use sandbox_runner::action::{Action, Awaiting, Command, Event, Program};
use sandbox_runner::container::run_with_docker;
use sandbox_runner::hub::run_docker_hub_image;
use sandbox_runner::report::{classify, container_report, venv_report, Outcome, ProcessOutput};
use sandbox_runner::run::{run_python_code, start_code_run};
use sandbox_runner::stop::stop_docker_container;
use sandbox_runner::venv::run_with_venv;

fn strs(v: &[&str]) -> Vec<String> {
    v.iter().map(|s| s.to_string()).collect()
}

fn out(success: bool, stdout: &str, stderr: &str) -> ProcessOutput {
    ProcessOutput { success, stdout: stdout.to_string(), stderr: stderr.to_string() }
}

fn docker(args: &[&str]) -> Command {
    Command { program: Program::Docker, args: strs(args) }
}

#[test]
fn classify_clean_exit() {
    assert_eq!(classify(&out(true, "x", "")), Outcome::Success);
}

#[test]
fn classify_clean_exit_with_diagnostics() {
    assert_eq!(classify(&out(true, "x", "careful")), Outcome::SuccessWithWarnings);
}

#[test]
fn classify_failed_exit_regardless_of_streams() {
    assert_eq!(classify(&out(false, "", "")), Outcome::Failure);
    assert_eq!(classify(&out(false, "x", "y")), Outcome::Failure);
}

#[test]
fn hello_round_trip_body() {
    assert_eq!(container_report(&out(true, "hello", "")), Ok("hello".to_string()));
}

#[test]
fn report_with_warnings() {
    assert_eq!(
        container_report(&out(true, "a", "b")),
        Ok("Docker Output:\na\nWarnings:\nb".to_string())
    );
}

#[test]
fn report_of_failure_labels_both_streams() {
    assert_eq!(
        container_report(&out(false, "a", "b")),
        Err("Container execution failed:\nOutput:\na\nErrors:\nb".to_string())
    );
}

#[test]
fn venv_report_fails_on_diagnostics() {
    assert_eq!(venv_report(&out(true, "a", "")), Ok("a".to_string()));
    assert_eq!(
        venv_report(&out(true, "a", "w")),
        Err("Venv Output:\na\nErrors:\nw".to_string())
    );
}

#[test]
fn container_run_happy_path() {
    let (mut run, a) = run_with_docker("print(\"hello\")", &strs(&["requests"]), "id1");
    assert_eq!(a, Action::CreateWorkspace { name: "run_id1".to_string() });
    assert_eq!(run.awaiting(), Awaiting::Workspace);
    let a = run.step(Event::WorkspaceCreated);
    assert_eq!(
        a,
        Action::WriteFile { name: "script.py".to_string(), contents: "print(\"hello\")".to_string() }
    );
    let a = run.step(Event::Written);
    match a {
        Action::WriteFile { name, contents } => {
            assert_eq!(name, "Dockerfile");
            assert!(contents.contains("RUN pip install --no-cache-dir requests\n"));
        }
        other => panic!("unexpected {:?}", other),
    }
    let a = run.step(Event::Written);
    assert_eq!(
        a,
        Action::Run(docker(&["build", "--no-cache", "-t", "python-runner-id1", "."]))
    );
    let a = run.step(Event::Exited(out(true, "", "")));
    assert_eq!(
        a,
        Action::Run(docker(&[
            "run",
            "--rm",
            "--name",
            "runner-id1",
            "--memory",
            "512m",
            "--cpus",
            "1",
            "--network",
            "none",
            "--security-opt",
            "no-new-privileges",
            "python-runner-id1",
        ]))
    );
    let a = run.step(Event::Exited(out(true, "hello\n", "")));
    assert_eq!(a, Action::Discard(docker(&["rmi", "-f", "python-runner-id1"])));
    assert_eq!(run.awaiting(), Awaiting::Cleanup);
    let a = run.step(Event::CleanedUp);
    assert_eq!(a, Action::RemoveWorkspace);
    let a = run.step(Event::CleanedUp);
    assert_eq!(a, Action::Finish(Ok("hello\n".to_string())));
    assert_eq!(run.awaiting(), Awaiting::Nothing);
}

#[test]
fn container_build_failure_removes_workspace_only() {
    let (mut run, _) = run_with_docker("x", &[], "id2");
    run.step(Event::WorkspaceCreated);
    run.step(Event::Written);
    run.step(Event::Written);
    let a = run.step(Event::Exited(out(false, "", "no base image")));
    assert_eq!(a, Action::RemoveWorkspace);
    let a = run.step(Event::CleanedUp);
    assert_eq!(a, Action::Finish(Err("Docker build failed:\nno base image".to_string())));
}

#[test]
fn container_run_failure_still_removes_image_and_workspace() {
    let (mut run, _) = run_with_docker("x", &[], "id3");
    run.step(Event::WorkspaceCreated);
    run.step(Event::Written);
    run.step(Event::Written);
    run.step(Event::Exited(out(true, "", "")));
    let a = run.step(Event::Failed("spawn error".to_string()));
    assert_eq!(a, Action::Discard(docker(&["rmi", "-f", "python-runner-id3"])));
    assert_eq!(run.step(Event::CleanedUp), Action::RemoveWorkspace);
    assert_eq!(
        run.step(Event::CleanedUp),
        Action::Finish(Err("Docker run failed: spawn error".to_string()))
    );
}

#[test]
fn container_workspace_failure_finishes_at_once() {
    let (mut run, _) = run_with_docker("x", &[], "id4");
    let a = run.step(Event::Failed("disk full".to_string()));
    assert_eq!(a, Action::Finish(Err("Failed to create temp directory: disk full".to_string())));
}

#[test]
fn container_script_write_failure_tears_down() {
    let (mut run, _) = run_with_docker("x", &[], "id5");
    run.step(Event::WorkspaceCreated);
    assert_eq!(run.step(Event::Failed("denied".to_string())), Action::RemoveWorkspace);
    assert_eq!(
        run.step(Event::CleanedUp),
        Action::Finish(Err("Failed to write Python script: denied".to_string()))
    );
}

#[test]
fn events_answer_the_awaited_kind() {
    assert!(Event::Written.answers(Awaiting::File));
    assert!(Event::Failed("x".to_string()).answers(Awaiting::Process));
    assert!(!Event::CleanedUp.answers(Awaiting::Process));
    assert!(!Event::Written.answers(Awaiting::Nothing));
}

#[test]
fn venv_run_with_dependencies() {
    let (mut run, a) = run_with_venv("print(1)", &strs(&["requests", "numpy"]), "v1");
    assert_eq!(a, Action::CreateWorkspace { name: "venv_v1".to_string() });
    let a = run.step(Event::WorkspaceCreated);
    assert_eq!(
        a,
        Action::Run(Command { program: Program::Interpreter, args: strs(&["-m", "venv", "."]) })
    );
    let a = run.step(Event::Exited(out(true, "", "")));
    assert_eq!(
        a,
        Action::Run(Command {
            program: Program::EnvInterpreter,
            args: strs(&["-m", "pip", "install", "requests", "numpy"]),
        })
    );
    let a = run.step(Event::Exited(out(true, "", "")));
    assert_eq!(
        a,
        Action::WriteFile { name: "script.py".to_string(), contents: "print(1)".to_string() }
    );
    let a = run.step(Event::Written);
    assert_eq!(
        a,
        Action::Run(Command { program: Program::EnvInterpreter, args: strs(&["script.py"]) })
    );
    let a = run.step(Event::Exited(out(true, "1\n", "")));
    assert_eq!(a, Action::RemoveWorkspace);
    assert_eq!(run.step(Event::CleanedUp), Action::Finish(Ok("1\n".to_string())));
}

#[test]
fn venv_run_without_dependencies_skips_install() {
    let (mut run, _) = run_with_venv("print(1)", &[], "v2");
    run.step(Event::WorkspaceCreated);
    let a = run.step(Event::Exited(out(true, "", "")));
    assert!(matches!(a, Action::WriteFile { .. }));
}

#[test]
fn venv_install_failure_tears_down() {
    let (mut run, _) = run_with_venv("x", &strs(&["nope"]), "v3");
    run.step(Event::WorkspaceCreated);
    run.step(Event::Exited(out(true, "", "")));
    let a = run.step(Event::Exited(out(false, "", "no such package")));
    assert_eq!(a, Action::RemoveWorkspace);
    assert_eq!(
        run.step(Event::CleanedUp),
        Action::Finish(Err("Failed to install requirements: no such package".to_string()))
    );
}

#[test]
fn venv_environment_failure_tears_down() {
    let (mut run, _) = run_with_venv("x", &[], "v4");
    run.step(Event::WorkspaceCreated);
    assert_eq!(run.step(Event::Exited(out(false, "", "bad"))), Action::RemoveWorkspace);
    assert_eq!(
        run.step(Event::CleanedUp),
        Action::Finish(Err("Failed to create virtual environment: bad".to_string()))
    );
}

#[test]
fn hub_run_with_defaults() {
    let (mut run, a) = run_docker_hub_image("alpine".to_string(), None, None, None, None, None);
    assert_eq!(a, Action::Run(docker(&["pull", "alpine"])));
    let a = run.step(Event::Exited(out(true, "", "")));
    assert_eq!(
        a,
        Action::Run(docker(&[
            "run",
            "--rm",
            "--name",
            "hub-runner-default",
            "--security-opt",
            "no-new-privileges",
            "--memory",
            "512m",
            "--cpus",
            "1",
            "alpine",
        ]))
    );
    let a = run.step(Event::Exited(out(true, "hi", "")));
    assert_eq!(a, Action::Finish(Ok("hi".to_string())));
}

#[test]
fn hub_run_with_overrides() {
    let (mut run, _) = run_docker_hub_image(
        "alpine".to_string(),
        Some(strs(&["echo", "x"])),
        Some("1g".to_string()),
        Some("2".to_string()),
        Some("job7".to_string()),
        Some("30".to_string()),
    );
    let a = run.step(Event::Exited(out(true, "", "")));
    assert_eq!(
        a,
        Action::Run(docker(&[
            "run",
            "--rm",
            "--name",
            "hub-runner-job7",
            "--security-opt",
            "no-new-privileges",
            "--memory",
            "1g",
            "--cpus",
            "2",
            "alpine",
            "echo",
            "x",
        ]))
    );
}

#[test]
fn hub_pull_failure_aborts_before_run() {
    let (mut run, _) = run_docker_hub_image("nope".to_string(), None, None, None, None, None);
    let a = run.step(Event::Exited(out(false, "", "not found")));
    assert_eq!(a, Action::Finish(Err("Failed to pull image:\nnot found".to_string())));
    assert_eq!(run.awaiting(), Awaiting::Nothing);
}

#[test]
fn stop_with_no_matching_container() {
    let (mut run, a) = stop_docker_container("ignored");
    assert_eq!(a, Action::Run(docker(&["ps", "-q", "--filter", "name=hub-runner-default"])));
    let a = run.step(Event::Exited(out(true, "", "")));
    assert_eq!(a, Action::Finish(Ok("No running containers found.".to_string())));
}

#[test]
fn stop_with_one_matching_container() {
    let (mut run, _) = stop_docker_container("ignored");
    let a = run.step(Event::Exited(out(true, "abc123\n", "")));
    assert_eq!(a, Action::Run(docker(&["stop", "abc123"])));
    let a = run.step(Event::Exited(out(true, "", "")));
    assert_eq!(a, Action::Finish(Ok("Container(s) stopped successfully.".to_string())));
}

#[test]
fn stop_fails_on_first_failed_stop() {
    let (mut run, _) = stop_docker_container("ignored");
    run.step(Event::Exited(out(true, "a1\nb2\nc3\n", "")));
    assert_eq!(run.step(Event::Exited(out(true, "", ""))), Action::Run(docker(&["stop", "b2"])));
    let a = run.step(Event::Exited(out(false, "", "busy")));
    assert_eq!(a, Action::Finish(Err("Failed to stop container b2:\nbusy".to_string())));
}

#[test]
fn code_run_rejects_oversized_code() {
    let code = "x".repeat(10_001);
    match run_python_code(&code, None) {
        Err(m) => assert_eq!(m, "Code is too large!"),
        Ok(_) => panic!("oversized code was accepted"),
    }
}

#[test]
fn code_run_rejects_denied_code() {
    match start_code_run("import subprocess", None, "r1") {
        Err(m) => assert_eq!(m, "Code contains a forbidden pattern: subprocess"),
        Ok(_) => panic!("denied code was accepted"),
    }
}

#[test]
fn code_run_parses_requirements() {
    let (mut run, a) = start_code_run("print(1)", Some(" requests ,,".to_string()), "r2").unwrap();
    assert_eq!(a, Action::CreateWorkspace { name: "run_r2".to_string() });
    run.step(Event::WorkspaceCreated);
    match run.step(Event::Written) {
        Action::WriteFile { contents, .. } => {
            assert!(contents.contains("RUN pip install --no-cache-dir requests\nCMD"))
        }
        other => panic!("unexpected {:?}", other),
    }
}

#[test]
fn code_run_gets_a_fresh_identifier() {
    let (_, a) = run_python_code("print(1)", None).unwrap();
    let (_, b) = run_python_code("print(1)", None).unwrap();
    match (a, b) {
        (Action::CreateWorkspace { name: n1 }, Action::CreateWorkspace { name: n2 }) => {
            assert!(n1.starts_with("run_"));
            assert_eq!(n1.len(), 4 + 36);
            assert_eq!(&n1[4 + 8..4 + 9], "-");
            assert_ne!(n1, n2);
        }
        other => panic!("unexpected {:?}", other),
    }
}

#[test]
fn venv_report_fails_on_non_zero_exit_without_diagnostics() {
    assert_eq!(
        venv_report(&out(false, "partial", "")),
        Err("Venv Output:\npartial\nErrors:\n".to_string())
    );
}

#[test]
fn venv_run_with_failed_exit_is_an_error() {
    let (mut run, _) = run_with_venv("raise SystemExit(3)", &[], "v5");
    run.step(Event::WorkspaceCreated);
    run.step(Event::Exited(out(true, "", "")));
    run.step(Event::Written);
    assert_eq!(run.step(Event::Exited(out(false, "x", ""))), Action::RemoveWorkspace);
    assert_eq!(
        run.step(Event::CleanedUp),
        Action::Finish(Err("Venv Output:\nx\nErrors:\n".to_string()))
    );
}
