//! Console session bridge: who owns the console, and how to start a program in
//! that user's desktop session.
use vstd::prelude::*;
use crate::paths::{file_name_of, parent_of, path_file_name, path_parent};
use crate::text::{
    decimal_text, digits_value, ends_with, has_suffix, is_u32_text, owned, parse_u32,
    same_text, trim_text, trimmed, u32_text, unsigned_digits,
};

verus! {

/// The owner of the current interactive session.
#[derive(Clone, Debug)]
pub struct ConsoleUser {
    pub username: String,
    pub uid: u32,
}

/// A program to start and the arguments to hand it.
#[derive(Clone, Debug)]
pub struct LaunchCommand {
    pub program: String,
    pub args: Vec<String>,
}

/// Why a launch cannot be attempted.
#[derive(Clone, Copy, Debug, PartialEq, Eq, Structural)]
pub enum SessionError {
    /// The executable does not exist.
    NotFound,
}

/// The texts of a sequence of strings.
pub open spec fn texts(v: Seq<String>) -> Seq<Seq<char>> {
    v.map_values(|s: String| s@)
}

/// The name suffix that marks an application bundle directory.
pub open spec fn bundle_suffix() -> Seq<char> {
    ".app"@
}

/// `true` when the final component of the path text `p` ends in the bundle suffix.
pub open spec fn names_bundle(p: Seq<char>) -> bool {
    path_file_name(p) is Some && ends_with(path_file_name(p)->0, bundle_suffix())
}

/// Walks from `p` towards the root, at most `fuel` paths, and yields the first
/// one that names a bundle.
pub open spec fn bundle_search(p: Seq<char>, fuel: nat) -> Option<Seq<char>>
    decreases fuel,
{
    if fuel == 0 {
        None
    } else if names_bundle(p) {
        Some(p)
    } else {
        match path_parent(p) {
            Some(q) => bundle_search(q, (fuel - 1) as nat),
            None => None,
        }
    }
}

/// The nearest ancestor of the path text `p` (itself included) that names a
/// bundle. Each parent is shorter than its child, so a path has at most one
/// more ancestor than it has characters.
pub open spec fn app_bundle_of(p: Seq<char>) -> Option<Seq<char>> {
    bundle_search(p, p.len() + 1)
}

/// The nearest enclosing application bundle of an executable path.
pub fn extract_app_bundle_path(executable: &str) -> (r: Option<String>)
    ensures
        r is Some <==> app_bundle_of(executable@) is Some,
        r is Some ==> r->0@ == app_bundle_of(executable@)->0,
{
    let mut cur = owned(executable);
    let mut remaining: usize = executable.unicode_len();
    loop
        invariant
            app_bundle_of(executable@) == bundle_search(cur@, remaining as nat + 1),
        decreases remaining,
    {
        if let Some(name) = file_name_of(cur.as_str()) {
            if has_suffix(name.as_str(), ".app") {
                return Some(cur);
            }
        }
        assert(!names_bundle(cur@));
        if remaining == 0 {
            assert(bundle_search(cur@, 1) is None) by {
                if let Some(q) = path_parent(cur@) {
                    assert(bundle_search(q, 0) is None);
                }
            }
            return None;
        }
        match parent_of(cur.as_str()) {
            Some(q) => {
                cur = q;
                remaining = remaining - 1;
            },
            None => {
                return None;
            },
        }
    }
}

/// The console owner named by the text `owner`, unless it is a system account
/// or nobody (empty after trimming).
pub open spec fn console_owner_spec(owner: Seq<char>) -> Option<Seq<char>> {
    let name = trimmed(owner);
    if name.len() == 0 || name == "root"@ {
        None
    } else {
        Some(name)
    }
}

/// The console owner from an already trimmed owner name: the superuser and an
/// empty name (the login screen) give none.
pub fn console_owner_name(name: String) -> (r: Option<String>)
    ensures
        r is Some <==> !(name@.len() == 0 || name@ == "root"@),
        r is Some ==> r->0 == name,
{
    if name.unicode_len() == 0 || same_text(name.as_str(), "root") {
        None
    } else {
        Some(name)
    }
}

/// Reads the console owner from the output of the console-device owner query.
/// The superuser and an empty owner (the login screen) give no console user.
pub fn console_owner(owner_output: &str) -> (r: Option<String>)
    ensures
        r is Some <==> console_owner_spec(owner_output@) is Some,
        r is Some ==> r->0@ == console_owner_spec(owner_output@)->0,
        trimmed(owner_output@) == "root"@ ==> r is None,
        trimmed(owner_output@).len() == 0 ==> r is None,
{
    console_owner_name(trim_text(owner_output))
}

/// Completes the console user from the output of the user-id lookup.
pub fn console_user(username: String, uid_output: &str) -> (r: Option<ConsoleUser>)
    ensures
        r is Some <==> is_u32_text(trimmed(uid_output@)),
        r is Some ==> r->0.username == username,
        r is Some ==> r->0.uid as nat == digits_value(unsigned_digits(trimmed(uid_output@))),
{
    let text = trim_text(uid_output);
    match parse_u32(text.as_str()) {
        Some(uid) => Some(ConsoleUser { username, uid }),
        None => None,
    }
}

/// Arguments of the session-aware launch (the first strategy).
pub open spec fn session_launch_args(exe: Seq<char>, args: Seq<Seq<char>>, uid: u32) -> Seq<Seq<char>> {
    match app_bundle_of(exe) {
        Some(b) => seq!["asuser"@, decimal_text(uid as nat), "open"@, "-a"@, b] + if args.len() > 0 {
            seq!["--args"@] + args
        } else {
            Seq::empty()
        },
        None => seq!["asuser"@, decimal_text(uid as nat), exe] + args,
    }
}

/// Arguments of the privilege-drop launch (the second strategy).
pub open spec fn user_launch_args(exe: Seq<char>, args: Seq<Seq<char>>, username: Seq<char>) -> Seq<Seq<char>> {
    seq!["-u"@, username, exe] + args
}

/// Appends copies of `src` to `out`.
fn push_all(out: &mut Vec<String>, src: &[String])
    ensures
        texts(final(out)@) == texts(old(out)@) + texts(src@),
{
    let mut i: usize = 0;
    while i < src.len()
        invariant
            i <= src@.len(),
            texts(out@) == texts(old(out)@) + texts(src@.subrange(0, i as int)),
        decreases src@.len() - i,
    {
        let ghost before = out@;
        out.push(src[i].clone());
        assert(texts(out@) =~= texts(before) + seq![src@[i as int]@]);
        assert(texts(src@.subrange(0, i as int + 1)) =~= texts(src@.subrange(0, i as int)) + seq![src@[i as int]@]);
        i = i + 1;
    }
    assert(src@.subrange(0, src@.len() as int) =~= src@);
}

/// The session-aware launch as the user id `uid`: a bundle is opened as a whole by
/// the session manager, a plain executable is run directly.
pub fn session_launch(executable: &str, args: &[String], uid: u32) -> (r: LaunchCommand)
    ensures
        r.program@ == "launchctl"@,
        texts(r.args@) == session_launch_args(executable@, texts(args@), uid),
{
    let mut out: Vec<String> = Vec::new();
    out.push(owned("asuser"));
    out.push(u32_text(uid));
    match extract_app_bundle_path(executable) {
        Some(bundle) => {
            out.push(owned("open"));
            out.push(owned("-a"));
            out.push(bundle);
            if args.len() > 0 {
                out.push(owned("--args"));
                push_all(&mut out, args);
            }
        },
        None => {
            out.push(owned(executable));
            push_all(&mut out, args);
        },
    }
    let r = LaunchCommand { program: owned("launchctl"), args: out };
    assert(texts(r.args@) =~= session_launch_args(executable@, texts(args@), uid));
    r
}

/// The privilege-drop launch as the account `username`.
pub fn user_launch(executable: &str, args: &[String], username: &str) -> (r: LaunchCommand)
    ensures
        r.program@ == "sudo"@,
        texts(r.args@) == user_launch_args(executable@, texts(args@), username@),
{
    let mut out: Vec<String> = Vec::new();
    out.push(owned("-u"));
    out.push(owned(username));
    out.push(owned(executable));
    push_all(&mut out, args);
    let r = LaunchCommand { program: owned("sudo"), args: out };
    assert(texts(r.args@) =~= user_launch_args(executable@, texts(args@), username@));
    r
}

/// The launch strategies for `executable` in the session of `user`, best first:
/// the caller tries them in order and stops at the first that starts. A missing
/// executable gives `NotFound` and no strategy.
pub fn launch_as_user(executable: &str, args: &[String], user: &ConsoleUser, exists: bool) -> (r: Result<Vec<LaunchCommand>, SessionError>)
    ensures
        !exists <==> r == Err::<Vec<LaunchCommand>, SessionError>(SessionError::NotFound),
        r is Ok ==> r->Ok_0@.len() == 2,
        r is Ok ==> r->Ok_0@[0].program@ == "launchctl"@,
        r is Ok ==> texts(r->Ok_0@[0].args@) == session_launch_args(executable@, texts(args@), user.uid),
        r is Ok ==> r->Ok_0@[1].program@ == "sudo"@,
        r is Ok ==> texts(r->Ok_0@[1].args@) == user_launch_args(executable@, texts(args@), user.username@),
{
    if !exists {
        return Err(SessionError::NotFound);
    }
    let mut plan: Vec<LaunchCommand> = Vec::new();
    plan.push(session_launch(executable, args, user.uid));
    plan.push(user_launch(executable, args, user.username.as_str()));
    Ok(plan)
}

/// What to do after a launch attempt.
#[derive(Clone, Copy, Debug, PartialEq, Eq, Structural)]
pub enum LaunchNext {
    /// Try the strategy at this position of the plan.
    Try(usize),
    /// The strategy at this position started the program: stop here.
    Launched(usize),
    /// Every strategy failed.
    Exhausted,
}

/// The first attempt of a plan of `count` strategies.
pub fn first_launch(count: usize) -> (r: LaunchNext)
    ensures
        count > 0 ==> r == LaunchNext::Try(0),
        count == 0 ==> r == LaunchNext::Exhausted,
{
    if count > 0 {
        LaunchNext::Try(0)
    } else {
        LaunchNext::Exhausted
    }
}

/// The step after the strategy at position `tried` of a plan of `count`
/// strategies was attempted: a start ends the launch, a failure moves on to the
/// next strategy, each tried once and in rank order.
pub fn next_launch(count: usize, tried: usize, spawned: bool) -> (r: LaunchNext)
    requires
        tried < count,
    ensures
        spawned ==> r == LaunchNext::Launched(tried),
        !spawned && tried + 1 < count ==> r == LaunchNext::Try((tried + 1) as usize),
        !spawned && tried + 1 == count ==> r == LaunchNext::Exhausted,
{
    if spawned {
        LaunchNext::Launched(tried)
    } else if tried + 1 < count {
        LaunchNext::Try(tried + 1)
    } else {
        LaunchNext::Exhausted
    }
}

} // verus!
