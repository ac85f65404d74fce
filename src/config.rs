//! Settings of the chat client: read from the per-user preference store where
//! the agent writes them, or from the command line elsewhere.
use vstd::prelude::*;
use crate::model::HostOs;
use crate::session::texts;
use crate::text::{ascii_case_eq, eq_ignore_case, same_text, trim_text, trimmed};

verus! {

/// Where the chat client's settings come from.
#[derive(Clone, Copy, Debug, PartialEq, Eq, Structural)]
pub enum ConfigSource {
    /// The per-user preference store that the agent writes.
    Preferences,
    /// The command line.
    CommandLine,
}

/// The settings source of a host: the preference store on macOS, the command
/// line elsewhere.
pub fn config_source(host: HostOs) -> (r: ConfigSource)
    ensures
        host == HostOs::Macos ==> r == ConfigSource::Preferences,
        host != HostOs::Macos ==> r == ConfigSource::CommandLine,
{
    if host == HostOs::Macos {
        ConfigSource::Preferences
    } else {
        ConfigSource::CommandLine
    }
}

/// The chat client's settings.
#[derive(Clone, Debug, Default)]
pub struct AppConfig {
    pub token_path: Option<String>,
    pub secret: Option<String>,
    pub server_url: Option<String>,
    pub debug_mode: bool,
}

/// The text of an optional string.
pub open spec fn opt_view(o: Option<String>) -> Option<Seq<char>> {
    match o {
        Some(s) => Some(s@),
        None => None,
    }
}

/// `true` when a preference value means "on": `1`, or `true` in any ASCII case.
pub open spec fn means_true(v: Seq<char>) -> bool {
    v == "1"@ || ascii_case_eq(v, "true"@)
}

/// The value after the last occurrence of `flag` among the first `n` arguments
/// that has a value after it.
pub open spec fn flag_value(args: Seq<Seq<char>>, flag: Seq<char>, n: int) -> Option<Seq<char>>
    decreases n,
{
    if n <= 0 {
        None
    } else if args[n - 1] == flag && n < args.len() {
        Some(args[n])
    } else {
        flag_value(args, flag, n - 1)
    }
}

/// `true` when `flag` is among the first `n` arguments.
pub open spec fn has_flag(args: Seq<Seq<char>>, flag: Seq<char>, n: int) -> bool {
    exists|i: int| 0 <= i < n && args[i] == flag
}

/// A stored preference from its trimmed text: nothing when it is empty.
pub fn preference_value(value: String) -> (r: Option<String>)
    ensures
        r is Some <==> value@.len() > 0,
        r is Some ==> r->0 == value,
{
    if value.unicode_len() == 0 {
        None
    } else {
        Some(value)
    }
}

/// A stored preference read back: nothing when the read failed or the value is
/// empty after trimming, else the trimmed value.
pub fn read_string(read_succeeded: bool, output: &str) -> (r: Option<String>)
    ensures
        r is Some <==> read_succeeded && trimmed(output@).len() > 0,
        r is Some ==> r->0@ == trimmed(output@),
{
    if !read_succeeded {
        return None;
    }
    preference_value(trim_text(output))
}

/// A stored flag read back: on when the value is `1` or `true` in any ASCII case.
pub fn read_bool(value: &Option<String>) -> (r: bool)
    ensures
        r == (value is Some && means_true(value->0@)),
{
    match value {
        Some(v) => {
            proof {
                reveal_strlit("1");
                reveal_strlit("true");
            }
            same_text(v.as_str(), "1") || eq_ignore_case(v.as_str(), "true")
        },
        None => false,
    }
}

/// Keeps `slot` or replaces it by the argument after position `i`, when the
/// argument at `i` is `flag` and has a value after it.
fn take_flag_value(args: &[String], i: usize, flag: &str, slot: &mut Option<String>)
    requires
        i < args@.len(),
        opt_view(*old(slot)) == flag_value(texts(args@), flag@, i as int),
    ensures
        opt_view(*final(slot)) == flag_value(texts(args@), flag@, i + 1),
{
    let ghost a = texts(args@);
    assert(a[i as int] == args@[i as int]@);
    if same_text(args[i].as_str(), flag) && i + 1 < args.len() {
        assert(a[i + 1] == args@[i + 1]@);
        *slot = Some(args[i + 1].clone());
    }
}

impl AppConfig {
    /// The settings from the stored preference values: the token path, the
    /// secret and the server URL as they are, debug mode on when its value means on.
    pub fn from_preferences(
        token_path: Option<String>,
        secret: Option<String>,
        server_url: Option<String>,
        dev_mode: Option<String>,
    ) -> (r: AppConfig)
        ensures
            r.token_path == token_path,
            r.secret == secret,
            r.server_url == server_url,
            r.debug_mode == (dev_mode is Some && means_true(dev_mode->0@)),
    {
        let debug_mode = read_bool(&dev_mode);
        AppConfig { token_path, secret, server_url, debug_mode }
    }

    /// The settings from command-line arguments: each valued flag takes the
    /// argument after its last occurrence that has one, and `--devMode` anywhere
    /// turns debug mode on.
    pub fn from_cli_args(args: &[String]) -> (r: AppConfig)
        ensures
            opt_view(r.token_path) == flag_value(texts(args@), "--openframe-token-path"@, args@.len() as int),
            opt_view(r.secret) == flag_value(texts(args@), "--openframe-secret"@, args@.len() as int),
            opt_view(r.server_url) == flag_value(texts(args@), "--serverUrl"@, args@.len() as int),
            r.debug_mode == has_flag(texts(args@), "--devMode"@, args@.len() as int),
    {
        let ghost a = texts(args@);
        let mut token_path: Option<String> = None;
        let mut secret: Option<String> = None;
        let mut server_url: Option<String> = None;
        let mut debug_mode = false;
        let n = args.len();
        let mut i: usize = 0;
        while i < n
            invariant
                n == args@.len(),
                a == texts(args@),
                i <= n,
                opt_view(token_path) == flag_value(a, "--openframe-token-path"@, i as int),
                opt_view(secret) == flag_value(a, "--openframe-secret"@, i as int),
                opt_view(server_url) == flag_value(a, "--serverUrl"@, i as int),
                debug_mode == has_flag(a, "--devMode"@, i as int),
            decreases n - i,
        {
            take_flag_value(args, i, "--openframe-token-path", &mut token_path);
            take_flag_value(args, i, "--openframe-secret", &mut secret);
            take_flag_value(args, i, "--serverUrl", &mut server_url);
            assert(a[i as int] == args@[i as int]@);
            if same_text(args[i].as_str(), "--devMode") {
                debug_mode = true;
            }
            assert(has_flag(a, "--devMode"@, i + 1) == (has_flag(a, "--devMode"@, i as int) || a[i as int] == "--devMode"@));
            i = i + 1;
        }
        AppConfig { token_path, secret, server_url, debug_mode }
    }

    /// The settings of a host: from the stored preference values on macOS, from
    /// the command-line arguments elsewhere.
    pub fn load(
        host: HostOs,
        token_path: Option<String>,
        secret: Option<String>,
        server_url: Option<String>,
        dev_mode: Option<String>,
        args: &[String],
    ) -> (r: AppConfig)
        ensures
            host == HostOs::Macos ==> r.token_path == token_path && r.secret == secret
                && r.server_url == server_url
                && r.debug_mode == (dev_mode is Some && means_true(dev_mode->0@)),
            host != HostOs::Macos ==> opt_view(r.token_path) == flag_value(texts(args@), "--openframe-token-path"@, args@.len() as int),
            host != HostOs::Macos ==> opt_view(r.secret) == flag_value(texts(args@), "--openframe-secret"@, args@.len() as int),
            host != HostOs::Macos ==> opt_view(r.server_url) == flag_value(texts(args@), "--serverUrl"@, args@.len() as int),
            host != HostOs::Macos ==> r.debug_mode == has_flag(texts(args@), "--devMode"@, args@.len() as int),
    {
        match config_source(host) {
            ConfigSource::Preferences => AppConfig::from_preferences(token_path, secret, server_url, dev_mode),
            ConfigSource::CommandLine => AppConfig::from_cli_args(args),
        }
    }

    /// `true` when the token path, the secret and the server URL are all present.
    pub fn is_valid(&self) -> (r: bool)
        ensures
            r == (self.token_path is Some && self.secret is Some && self.server_url is Some),
    {
        self.token_path.is_some() && self.secret.is_some() && self.server_url.is_some()
    }
}

} // verus!
