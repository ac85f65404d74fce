//! Tool descriptors: what a directive says about a tool's delivery and install shape.
use vstd::prelude::*;
use crate::paths::{component_count, path_component_count};
use crate::text::{ascii_case_eq, ascii_lower, eq_ignore_case};

verus! {

/// How an installed tool is laid out on disk.
#[derive(Clone, Copy, Debug, PartialEq, Eq, Structural, Default)]
pub enum InstallationType {
    #[default]
    Standard,
    GuiApp,
}

/// The operating system this process runs on.
#[derive(Clone, Copy, Debug, PartialEq, Eq, Structural)]
pub enum HostOs {
    Windows,
    Macos,
    Linux,
    Other,
}

/// Name under which a directive refers to the host system, if it has one.
pub open spec fn host_os_name(h: HostOs) -> Option<Seq<char>> {
    match h {
        HostOs::Windows => Some(seq!['w', 'i', 'n', 'd', 'o', 'w', 's']),
        HostOs::Macos => Some(seq!['m', 'a', 'c', 'o', 's']),
        HostOs::Linux => Some(seq!['l', 'i', 'n', 'u', 'x']),
        HostOs::Other => None,
    }
}

/// `true` when the system name `os` designates the host, ignoring ASCII case.
pub open spec fn os_matches(os: Seq<char>, host: HostOs) -> bool {
    match host_os_name(host) {
        Some(n) => ascii_case_eq(os, n),
        None => false,
    }
}

/// Compares a system name from a directive with the host's name.
pub fn os_matches_host(os: &str, host: HostOs) -> (r: bool)
    ensures
        r == os_matches(os@, host),
{
    match host {
        HostOs::Windows => {
            proof {
                reveal_strlit("windows");
            }
            eq_ignore_case(os, "windows")
        },
        HostOs::Macos => {
            proof {
                reveal_strlit("macos");
            }
            eq_ignore_case(os, "macos")
        },
        HostOs::Linux => {
            proof {
                reveal_strlit("linux");
            }
            eq_ignore_case(os, "linux")
        },
        HostOs::Other => false,
    }
}

/// Whether a system name matches the host does not depend on the ASCII case of its letters.
pub proof fn lemma_os_match_ignores_case(a: Seq<char>, b: Seq<char>, host: HostOs)
    requires
        ascii_case_eq(a, b),
    ensures
        os_matches(a, host) == os_matches(b, host),
{
    if let Some(n) = host_os_name(host) {
        if ascii_case_eq(a, n) {
            assert forall|i: int| 0 <= i < b.len() implies ascii_lower(#[trigger] b[i]) == ascii_lower(n[i]) by {
                assert(ascii_lower(a[i]) == ascii_lower(b[i]));
            }
        }
        if ascii_case_eq(b, n) {
            assert forall|i: int| 0 <= i < a.len() implies ascii_lower(#[trigger] a[i]) == ascii_lower(n[i]) by {
                assert(ascii_lower(a[i]) == ascii_lower(b[i]));
            }
        }
    }
}

/// Where and how to fetch one artifact of a tool.
#[derive(Clone, Debug)]
pub struct DownloadConfiguration {
    pub os: String,
    pub file_name: String,
    pub target_file_name: String,
    pub link: String,
    pub installation_type: InstallationType,
    pub bundle_id: Option<String>,
}

impl DownloadConfiguration {
    /// `true` when the target name is a path of several components, so the whole
    /// archive is extracted rather than one file.
    pub fn is_folder_extraction(&self) -> (r: bool)
        ensures
            r == (path_component_count(self.target_file_name@) > 1),
    {
        component_count(&self.target_file_name) > 1
    }

    /// `true` when this configuration is meant for the host system.
    pub fn matches_current_os(&self, host: HostOs) -> (r: bool)
        ensures
            r == os_matches(self.os@, host),
    {
        os_matches_host(&self.os, host)
    }
}

/// The install or uninstall directive for one tool.
#[derive(Clone, Debug)]
pub struct ToolInstallationMessage {
    pub tool_agent_id: String,
    pub tool_id: String,
    pub tool_type: String,
    pub version: String,
    pub reinstall: bool,
    pub session_type: Option<SessionType>,
    pub download_configurations: Option<Vec<DownloadConfiguration>>,
    pub installation_command_args: Option<Vec<String>>,
    pub uninstallation_command_args: Option<Vec<String>>,
    pub run_command_args: Vec<String>,
    pub tool_agent_id_command_args: Option<Vec<String>>,
    pub assets: Option<Vec<Asset>>,
}

/// In which session a tool runs.
#[derive(Clone, Copy, Debug, PartialEq, Eq, Structural)]
pub enum SessionType {
    Service,
    Console,
    User,
}

/// A sub-resource of a tool.
#[derive(Clone, Debug)]
pub struct Asset {
    pub id: String,
    pub local_filename_configuration: Vec<LocalFilenameConfig>,
    pub source: AssetSource,
    pub path: Option<String>,
    pub executable: bool,
    pub download_configurations: Option<Vec<DownloadConfiguration>>,
    pub version: Option<String>,
}

/// The local file name of an asset on one system.
#[derive(Clone, Debug)]
pub struct LocalFilenameConfig {
    pub filename: String,
    pub os: String,
}

impl LocalFilenameConfig {
    /// `true` when this entry is meant for the host system.
    pub fn matches_current_os(&self, host: HostOs) -> (r: bool)
        ensures
            r == os_matches(self.os@, host),
    {
        os_matches_host(&self.os, host)
    }
}

/// Where an asset is fetched from.
#[derive(Clone, Copy, Debug, PartialEq, Eq, Structural)]
pub enum AssetSource {
    Artifactory,
    ToolApi,
    Github,
}

/// A tool as the installed-tool registry records it.
#[derive(Clone, Debug)]
pub struct InstalledTool {
    pub tool_agent_id: String,
    pub installation_type: InstallationType,
    pub executable_path: Option<String>,
    pub uninstallation_command_args: Option<Vec<String>>,
}

} // verus!
