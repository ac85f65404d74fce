use openframe::session::{first_launch, next_launch, LaunchNext};
use openframe::session::{
    console_owner, console_owner_name, console_user, extract_app_bundle_path, launch_as_user,
    ConsoleUser, SessionError,
};

fn strings(v: &[&str]) -> Vec<String> {
    v.iter().map(|s| s.to_string()).collect()
}

#[test]
fn console_owner_rejects_root_and_empty() {
    assert_eq!(console_owner("root\n"), None);
    assert_eq!(console_owner(""), None);
    assert_eq!(console_owner("  \n"), None);
    assert_eq!(console_owner_name("root".to_string()), None);
    assert_eq!(console_owner_name(String::new()), None);
}

#[test]
fn console_owner_regular_user() {
    assert_eq!(console_owner("alice\n"), Some("alice".to_string()));
    assert_eq!(console_owner_name("rooted".to_string()), Some("rooted".to_string()));
}

#[test]
fn console_user_parses_uid() {
    let u = console_user("alice".to_string(), "501\n").unwrap();
    assert_eq!(u.username, "alice");
    assert_eq!(u.uid, 501);
    assert!(console_user("alice".to_string(), "abc").is_none());
    assert!(console_user("alice".to_string(), "").is_none());
    assert!(console_user("alice".to_string(), "4294967296").is_none());
    assert_eq!(console_user("a".to_string(), "4294967295").unwrap().uid, u32::MAX);
}

#[test]
fn bundle_path_nearest_ancestor() {
    assert_eq!(
        extract_app_bundle_path("/Applications/Tool.app/Contents/MacOS/tool"),
        Some("/Applications/Tool.app".to_string())
    );
    assert_eq!(
        extract_app_bundle_path("/A/Outer.app/Contents/Inner.app/Contents/MacOS/x"),
        Some("/A/Outer.app/Contents/Inner.app".to_string())
    );
    assert_eq!(extract_app_bundle_path("/Tool.app"), Some("/Tool.app".to_string()));
}

#[test]
fn bundle_path_absent() {
    assert_eq!(extract_app_bundle_path("/usr/local/bin/tool"), None);
    assert_eq!(extract_app_bundle_path("/opt/app/tool"), None);
    assert_eq!(extract_app_bundle_path(""), None);
}

#[test]
fn launch_missing_executable_is_not_found() {
    let user = ConsoleUser { username: "alice".to_string(), uid: 501 };
    let r = launch_as_user("/nonexistent/tool", &strings(&["-x"]), &user, false);
    assert_eq!(r.err(), Some(SessionError::NotFound));
}

#[test]
fn launch_plain_executable() {
    let user = ConsoleUser { username: "alice".to_string(), uid: 501 };
    let plan = launch_as_user("/usr/local/bin/tool", &strings(&["-v", "x"]), &user, true).unwrap();
    assert_eq!(plan.len(), 2);
    assert_eq!(plan[0].program, "launchctl");
    assert_eq!(plan[0].args, strings(&["asuser", "501", "/usr/local/bin/tool", "-v", "x"]));
    assert_eq!(plan[1].program, "sudo");
    assert_eq!(plan[1].args, strings(&["-u", "alice", "/usr/local/bin/tool", "-v", "x"]));
}

#[test]
fn launch_bundle_with_args() {
    let user = ConsoleUser { username: "bob".to_string(), uid: 0 };
    let exe = "/Applications/Chat.app/Contents/MacOS/chat";
    let plan = launch_as_user(exe, &strings(&["--background"]), &user, true).unwrap();
    assert_eq!(
        plan[0].args,
        strings(&["asuser", "0", "open", "-a", "/Applications/Chat.app", "--args", "--background"])
    );
    assert_eq!(plan[1].args, strings(&["-u", "bob", exe, "--background"]));
}

#[test]
fn launch_bundle_without_args() {
    let user = ConsoleUser { username: "bob".to_string(), uid: 4294967295 };
    let plan = launch_as_user("/Applications/Chat.app/Contents/MacOS/chat", &[], &user, true).unwrap();
    assert_eq!(
        plan[0].args,
        strings(&["asuser", "4294967295", "open", "-a", "/Applications/Chat.app"])
    );
}

#[test]
fn launch_falls_back_once_in_order() {
    assert_eq!(first_launch(2), LaunchNext::Try(0));
    assert_eq!(first_launch(0), LaunchNext::Exhausted);
    assert_eq!(next_launch(2, 0, true), LaunchNext::Launched(0));
    assert_eq!(next_launch(2, 0, false), LaunchNext::Try(1));
    assert_eq!(next_launch(2, 1, true), LaunchNext::Launched(1));
    assert_eq!(next_launch(2, 1, false), LaunchNext::Exhausted);
}
