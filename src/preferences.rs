//! Preference channel: key/value settings written into the console user's
//! per-user preference store, and the flag-style argument vectors they come from.
use vstd::prelude::*;
use crate::model::HostOs;
use crate::session::{texts, ConsoleUser, LaunchCommand};
use crate::text::{has_prefix, owned, starts_with, suffix_from};

verus! {

/// Why preferences cannot be written.
#[derive(Clone, Copy, Debug, PartialEq, Eq, Structural)]
pub enum PreferenceError {
    /// Nobody owns the console, so there is no preference store to write to.
    NoConsoleUser,
}

/// The prefix that marks a long flag.
pub open spec fn flag_prefix() -> Seq<char> {
    "--"@
}

/// The value of a flag that is not followed by one.
pub open spec fn default_flag_value() -> Seq<char> {
    "1"@
}

/// The key/value pairs read from `args` starting at position `i`: a flag takes
/// the next element as its value unless that is a flag too or missing, in which
/// case its value is `"1"`; elements that are not flags are skipped.
pub open spec fn pairs_from(args: Seq<Seq<char>>, i: int) -> Seq<(Seq<char>, Seq<char>)>
    decreases args.len() - i,
{
    if i < 0 || i >= args.len() {
        Seq::empty()
    } else if starts_with(args[i], flag_prefix()) {
        let key = args[i].subrange(2, args[i].len() as int);
        if i + 1 < args.len() && !starts_with(args[i + 1], flag_prefix()) {
            seq![(key, args[i + 1])] + pairs_from(args, i + 2)
        } else {
            seq![(key, default_flag_value())] + pairs_from(args, i + 1)
        }
    } else {
        pairs_from(args, i + 1)
    }
}

/// The texts of a sequence of pairs of strings.
pub open spec fn pair_texts(v: Seq<(String, String)>) -> Seq<(Seq<char>, Seq<char>)> {
    v.map_values(|p: (String, String)| (p.0@, p.1@))
}

/// Converts flag-style arguments into key/value pairs, in order:
/// `["--serverUrl", "https://x", "--devMode"]` gives
/// `[("serverUrl", "https://x"), ("devMode", "1")]`.
pub fn args_to_pairs(args: &[String]) -> (r: Vec<(String, String)>)
    ensures
        pair_texts(r@) == pairs_from(texts(args@), 0),
{
    let ghost a = texts(args@);
    let mut result: Vec<(String, String)> = Vec::new();
    let mut i: usize = 0;
    let n = args.len();
    while i < n
        invariant
            n == args@.len(),
            a == texts(args@),
            i <= n,
            pair_texts(result@) + pairs_from(a, i as int) == pairs_from(a, 0),
        decreases n - i,
    {
        let ghost before = result@;
        assert(a[i as int] == args@[i as int]@);
        if has_prefix(args[i].as_str(), "--") {
            proof {
                reveal_strlit("--");
            }
            let key = suffix_from(args[i].as_str(), 2);
            if i + 1 < n && !has_prefix(args[i + 1].as_str(), "--") {
                assert(a[i + 1] == args@[i + 1]@);
                result.push((key, args[i + 1].clone()));
                assert(pair_texts(result@) =~= pair_texts(before) + seq![(a[i as int].subrange(2, a[i as int].len() as int), a[i + 1])]);
                i = i + 2;
            } else {
                result.push((key, owned("1")));
                assert(pair_texts(result@) =~= pair_texts(before) + seq![(a[i as int].subrange(2, a[i as int].len() as int), default_flag_value())]);
                i = i + 1;
            }
        } else {
            i = i + 1;
        }
    }
    assert(pairs_from(a, i as int) == Seq::<(Seq<char>, Seq<char>)>::empty());
    assert(pair_texts(result@) + Seq::<(Seq<char>, Seq<char>)>::empty() =~= pair_texts(result@));
    result
}

/// Arguments of the privilege-dropped write of one preference.
pub open spec fn preference_write_args(username: Seq<char>, domain: Seq<char>, key: Seq<char>, value: Seq<char>) -> Seq<Seq<char>> {
    seq!["-u"@, username, "defaults"@, "write"@, domain, key, value]
}

/// The command that writes `key = value` into `domain` as the account `username`.
fn preference_write(username: &str, domain: &str, key: &str, value: &str) -> (r: LaunchCommand)
    ensures
        r.program@ == "sudo"@,
        texts(r.args@) == preference_write_args(username@, domain@, key@, value@),
{
    let mut args: Vec<String> = Vec::new();
    args.push(owned("-u"));
    args.push(owned(username));
    args.push(owned("defaults"));
    args.push(owned("write"));
    args.push(owned(domain));
    args.push(owned(key));
    args.push(owned(value));
    let r = LaunchCommand { program: owned("sudo"), args };
    assert(texts(r.args@) =~= preference_write_args(username@, domain@, key@, value@));
    r
}

/// The writes that store `prefs` under `domain` for the console user, one per
/// pair and in order. The caller runs them in order and stops at the first that
/// fails, so later pairs are not attempted. A host without a per-user
/// preference store needs no write; otherwise a missing console user is an error,
/// even when there is nothing to write.
pub fn write(domain: &str, prefs: &[(String, String)], user: Option<&ConsoleUser>, host: HostOs) -> (r: Result<Vec<LaunchCommand>, PreferenceError>)
    ensures
        host != HostOs::Macos ==> r is Ok && r->Ok_0@.len() == 0,
        host == HostOs::Macos && user is None ==> r == Err::<Vec<LaunchCommand>, PreferenceError>(PreferenceError::NoConsoleUser),
        host == HostOs::Macos && user is Some ==> r is Ok && r->Ok_0@.len() == prefs@.len(),
        r is Ok && host == HostOs::Macos ==> forall|i: int| 0 <= i < prefs@.len() ==> {
            &&& (#[trigger] r->Ok_0@[i]).program@ == "sudo"@
            &&& texts(r->Ok_0@[i].args@) == preference_write_args(
                user->0.username@,
                domain@,
                prefs@[i].0@,
                prefs@[i].1@,
            )
        },
{
    if host != HostOs::Macos {
        return Ok(Vec::new());
    }
    let user = match user {
        Some(u) => u,
        None => {
            return Err(PreferenceError::NoConsoleUser);
        },
    };
    let mut out: Vec<LaunchCommand> = Vec::new();
    let mut i: usize = 0;
    while i < prefs.len()
        invariant
            i <= prefs@.len(),
            out@.len() == i,
            forall|j: int| 0 <= j < i ==> {
                &&& (#[trigger] out@[j]).program@ == "sudo"@
                &&& texts(out@[j].args@) == preference_write_args(
                    user.username@,
                    domain@,
                    prefs@[j].0@,
                    prefs@[j].1@,
                )
            },
        decreases prefs@.len() - i,
    {
        let (key, value) = &prefs[i];
        out.push(preference_write(user.username.as_str(), domain, key.as_str(), value.as_str()));
        i = i + 1;
    }
    Ok(out)
}

/// What to do after a preference write.
#[derive(Clone, Copy, Debug, PartialEq, Eq, Structural)]
pub enum WriteNext {
    /// Perform the write at this position.
    Write(usize),
    /// Every write succeeded.
    Done,
    /// The write at this position failed: no later write is attempted.
    Failed(usize),
}

/// The first step over `count` writes: nothing to do when there are none.
pub fn first_write(count: usize) -> (r: WriteNext)
    ensures
        count > 0 ==> r == WriteNext::Write(0),
        count == 0 ==> r == WriteNext::Done,
{
    if count > 0 {
        WriteNext::Write(0)
    } else {
        WriteNext::Done
    }
}

/// The step after the write at position `done` of `count` ended: a failure
/// aborts the whole call at once, a success moves on to the next pair.
pub fn next_write(count: usize, done: usize, ok: bool) -> (r: WriteNext)
    requires
        done < count,
    ensures
        !ok ==> r == WriteNext::Failed(done),
        ok && done + 1 < count ==> r == WriteNext::Write((done + 1) as usize),
        ok && done + 1 == count ==> r == WriteNext::Done,
{
    if !ok {
        WriteNext::Failed(done)
    } else if done + 1 < count {
        WriteNext::Write(done + 1)
    } else {
        WriteNext::Done
    }
}

} // verus!
