use openframe::preferences::{first_write, next_write, WriteNext};
use openframe::model::HostOs;
use openframe::preferences::{args_to_pairs, PreferenceError};
use openframe::session::ConsoleUser;

fn strings(v: &[&str]) -> Vec<String> {
    v.iter().map(|s| s.to_string()).collect()
}

fn pairs(v: &[(&str, &str)]) -> Vec<(String, String)> {
    v.iter().map(|(a, b)| (a.to_string(), b.to_string())).collect()
}

#[test]
fn args_to_pairs_value_and_boolean_flag() {
    let r = args_to_pairs(&strings(&["--serverUrl", "https://x", "--devMode"]));
    assert_eq!(r, pairs(&[("serverUrl", "https://x"), ("devMode", "1")]));
}

#[test]
fn args_to_pairs_flag_followed_by_flag() {
    let r = args_to_pairs(&strings(&["--a", "--b", "v"]));
    assert_eq!(r, pairs(&[("a", "1"), ("b", "v")]));
}

#[test]
fn args_to_pairs_skips_stray_values() {
    let r = args_to_pairs(&strings(&["x", "-y", "--k", "v", "w", "--"]));
    assert_eq!(r, pairs(&[("k", "v"), ("", "1")]));
    assert!(args_to_pairs(&[]).is_empty());
}

#[test]
fn write_builds_one_command_per_pair() {
    let user = ConsoleUser { username: "alice".to_string(), uid: 501 };
    let prefs = pairs(&[("serverUrl", "https://x"), ("devMode", "1")]);
    let cmds = openframe::preferences::write("com.openframe.chat", &prefs, Some(&user), HostOs::Macos).unwrap();
    assert_eq!(cmds.len(), 2);
    assert_eq!(cmds[0].program, "sudo");
    assert_eq!(
        cmds[0].args,
        strings(&["-u", "alice", "defaults", "write", "com.openframe.chat", "serverUrl", "https://x"])
    );
    assert_eq!(
        cmds[1].args,
        strings(&["-u", "alice", "defaults", "write", "com.openframe.chat", "devMode", "1"])
    );
}

#[test]
fn write_without_console_user_fails() {
    let r = openframe::preferences::write("d", &pairs(&[("k", "v")]), None, HostOs::Macos);
    assert_eq!(r.unwrap_err(), PreferenceError::NoConsoleUser);
    let r = openframe::preferences::write("d", &[], None, HostOs::Macos);
    assert_eq!(r.unwrap_err(), PreferenceError::NoConsoleUser);
}

#[test]
fn write_empty_needs_no_command() {
    let user = ConsoleUser { username: "alice".to_string(), uid: 501 };
    assert!(openframe::preferences::write("d", &[], Some(&user), HostOs::Macos).unwrap().is_empty());
}

#[test]
fn write_is_noop_without_preference_store() {
    assert!(openframe::preferences::write("d", &pairs(&[("k", "v")]), None, HostOs::Linux).unwrap().is_empty());
    assert!(openframe::preferences::write("d", &pairs(&[("k", "v")]), None, HostOs::Windows).unwrap().is_empty());
}

#[test]
fn write_steps_stop_at_first_failure() {
    assert_eq!(first_write(0), WriteNext::Done);
    assert_eq!(first_write(3), WriteNext::Write(0));
    assert_eq!(next_write(3, 0, true), WriteNext::Write(1));
    assert_eq!(next_write(3, 1, false), WriteNext::Failed(1));
    assert_eq!(next_write(3, 2, true), WriteNext::Done);
    assert_eq!(next_write(1, 0, false), WriteNext::Failed(0));
}
