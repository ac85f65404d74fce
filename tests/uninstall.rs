use openframe::model::{HostOs, InstallationType, InstalledTool};
use openframe::uninstall::{
    ToolUninstallService, UninstallBatch, UninstallEvent, UninstallFailure, UninstallStep,
};

fn tool(id: &str, args: Option<&[&str]>, gui: bool, path: Option<&str>) -> InstalledTool {
    InstalledTool {
        tool_agent_id: id.to_string(),
        installation_type: if gui { InstallationType::GuiApp } else { InstallationType::Standard },
        executable_path: path.map(|p| p.to_string()),
        uninstallation_command_args: args.map(|a| a.iter().map(|s| s.to_string()).collect()),
    }
}

fn step_name(s: &UninstallStep) -> &'static str {
    match s {
        UninstallStep::StopTool => "stop",
        UninstallStep::StopAuxiliary => "stop-aux",
        UninstallStep::ResolveArgs => "resolve",
        UninstallStep::LocateExecutable { .. } => "locate",
        UninstallStep::RunCommand { .. } => "run",
        UninstallStep::RemoveBundle => "bundle",
        UninstallStep::Finished { .. } => "finished",
    }
}

/// Answers each step with success and records (tool index, step) pairs,
/// failing at `fail_at` when given.
fn drive(b: &mut UninstallBatch, fail_at: Option<(usize, &str)>) -> Vec<(usize, &'static str)> {
    let mut log = Vec::new();
    while !b.is_finished() {
        let name = step_name(&b.step);
        log.push((b.index, name));
        let event = if fail_at == Some((b.index, name)) {
            UninstallEvent::Failed("boom".to_string())
        } else {
            match &b.step {
                UninstallStep::ResolveArgs => UninstallEvent::ArgsResolved(vec!["--uninstall".to_string()]),
                UninstallStep::LocateExecutable { .. } => {
                    UninstallEvent::Located { path: "/opt/tool/agent".to_string(), exists: true }
                }
                UninstallStep::RunCommand { .. } => UninstallEvent::Exited {
                    success: true,
                    code: Some(0),
                    stdout: String::new(),
                    stderr: String::new(),
                },
                _ => UninstallEvent::Done,
            }
        };
        b.advance(event);
    }
    log
}

#[test]
fn uninstall_all_with_no_tools_does_nothing() {
    let service = ToolUninstallService::new((), (), (), ());
    let mut b = service.uninstall_all(Vec::new(), HostOs::Macos);
    assert!(b.is_finished());
    assert!(matches!(b.step, UninstallStep::Finished { error: None }));
    assert!(drive(&mut b, None).is_empty());
}

#[test]
fn uninstall_all_stops_at_first_failing_tool() {
    let args: &[&str] = &["--uninstall"];
    let tools = vec![
        tool("tool-1", Some(args), false, None),
        tool("tool-2", Some(args), false, None),
        tool("tool-3", Some(args), false, None),
    ];
    let mut b = UninstallBatch::new(tools, HostOs::Linux);
    let log = drive(&mut b, Some((1, "run")));
    assert!(log.iter().all(|(i, _)| *i < 2));
    assert_eq!(log.last(), Some(&(1, "run")));
    match &b.step {
        UninstallStep::Finished { error: Some(e) } => {
            assert_eq!(e.tool_agent_id, "tool-2");
            assert!(matches!(&e.failure, UninstallFailure::LaunchFailed(m) if m == "boom"));
        }
        _ => panic!("batch should have failed"),
    }
}

#[test]
fn uninstall_all_runs_every_step_in_order() {
    let args: &[&str] = &["--uninstall"];
    let tools = vec![
        tool("fleetdm-Agent", Some(args), false, None),
        tool("plain", Some(args), true, Some("/Applications/Tool.app/Contents/MacOS/tool")),
    ];
    let mut b = UninstallBatch::new(tools, HostOs::Macos);
    let log = drive(&mut b, None);
    assert_eq!(
        log,
        vec![
            (0, "stop"),
            (0, "stop-aux"),
            (0, "resolve"),
            (0, "locate"),
            (0, "run"),
            (1, "stop"),
            (1, "resolve"),
            (1, "locate"),
            (1, "run"),
            (1, "bundle"),
        ]
    );
    assert!(matches!(b.step, UninstallStep::Finished { error: None }));
}

#[test]
fn uninstall_without_args_skips_command_but_removes_bundle() {
    let tools = vec![
        tool("gui", None, true, Some("/Applications/Gui.app/Contents/MacOS/gui")),
        tool("empty", Some(&[]), true, Some("/Applications/Empty.app/Contents/MacOS/e")),
    ];
    let mut b = UninstallBatch::new(tools, HostOs::Macos);
    assert_eq!(step_name(&b.step), "stop");
    b.advance(UninstallEvent::Done);
    assert_eq!(step_name(&b.step), "bundle");
    assert_eq!(b.bundle_path(), "/Applications/Gui.app");
    b.advance(UninstallEvent::Failed("could not delete".to_string()));
    assert_eq!((b.index, step_name(&b.step)), (1, "stop"));
    b.advance(UninstallEvent::Done);
    assert_eq!(b.bundle_path(), "/Applications/Empty.app");
    b.advance(UninstallEvent::Done);
    assert!(matches!(b.step, UninstallStep::Finished { error: None }));
}

#[test]
fn uninstall_without_bundle_off_macos() {
    let tools = vec![tool("gui", None, true, Some("/Applications/Gui.app/Contents/MacOS/gui"))];
    let mut b = UninstallBatch::new(tools, HostOs::Linux);
    b.advance(UninstallEvent::Done);
    assert!(matches!(b.step, UninstallStep::Finished { error: None }));
}

#[test]
fn uninstall_missing_executable_is_not_fatal() {
    let args: &[&str] = &["--uninstall"];
    let tools = vec![tool("gui", Some(args), true, Some("/Applications/Gui.app/Contents/MacOS/gui"))];
    let mut b = UninstallBatch::new(tools, HostOs::Macos);
    b.advance(UninstallEvent::Done);
    b.advance(UninstallEvent::ArgsResolved(vec!["-x".to_string()]));
    b.advance(UninstallEvent::Located { path: "/gone".to_string(), exists: false });
    assert_eq!(step_name(&b.step), "bundle");
    b.advance(UninstallEvent::Done);
    assert!(matches!(b.step, UninstallStep::Finished { error: None }));
}

#[test]
fn uninstall_nonzero_exit_carries_output() {
    let args: &[&str] = &["--uninstall"];
    let mut b = UninstallBatch::new(vec![tool("t", Some(args), false, None)], HostOs::Macos);
    b.advance(UninstallEvent::Done);
    b.advance(UninstallEvent::ArgsResolved(vec!["-x".to_string()]));
    b.advance(UninstallEvent::Located { path: "/opt/t".to_string(), exists: true });
    match &b.step {
        UninstallStep::RunCommand { path, args } => {
            assert_eq!(path, "/opt/t");
            assert_eq!(args, &vec!["-x".to_string()]);
        }
        _ => panic!("expected the command"),
    }
    b.advance(UninstallEvent::Exited {
        success: false,
        code: Some(3),
        stdout: "out".to_string(),
        stderr: "err".to_string(),
    });
    match &b.step {
        UninstallStep::Finished { error: Some(e) } => match &e.failure {
            UninstallFailure::CommandFailed { code, stdout, stderr } => {
                assert_eq!((*code, stdout.as_str(), stderr.as_str()), (Some(3), "out", "err"));
            }
            other => panic!("unexpected {:?}", other),
        },
        _ => panic!("batch should have failed"),
    }
}

#[test]
fn uninstall_stop_failure_names_tool() {
    let mut b = UninstallBatch::new(vec![tool("FLEET", None, false, None)], HostOs::Macos);
    b.advance(UninstallEvent::Done);
    assert_eq!(step_name(&b.step), "stop-aux");
    assert_eq!(b.auxiliary_process(), "osqueryd");
    b.advance(UninstallEvent::Failed("no such process".to_string()));
    match &b.step {
        UninstallStep::Finished { error: Some(e) } => {
            assert_eq!(e.tool_agent_id, "FLEET");
            assert!(matches!(e.failure, UninstallFailure::AuxiliaryStopFailed(_)));
        }
        _ => panic!("batch should have failed"),
    }
}

#[test]
fn uninstall_ignores_unrelated_event() {
    let mut b = UninstallBatch::new(vec![tool("t", None, false, None)], HostOs::Macos);
    b.advance(UninstallEvent::ArgsResolved(vec![]));
    assert_eq!((b.index, step_name(&b.step)), (0, "stop"));
}
