use openframe::model::{
    DownloadConfiguration, HostOs, InstallationType, LocalFilenameConfig,
};

fn config(os: &str, target: &str) -> DownloadConfiguration {
    DownloadConfiguration {
        os: os.to_string(),
        file_name: "tool.zip".to_string(),
        target_file_name: target.to_string(),
        link: "https://example.com/tool.zip".to_string(),
        installation_type: InstallationType::Standard,
        bundle_id: None,
    }
}

#[test]
fn folder_extraction_for_nested_path() {
    assert!(config("macos", "agent/bin/tool").is_folder_extraction());
}

#[test]
fn no_folder_extraction_for_plain_name() {
    assert!(!config("macos", "tool.zip").is_folder_extraction());
}

#[test]
fn no_folder_extraction_for_empty_name() {
    assert!(!config("macos", "").is_folder_extraction());
}

#[test]
fn os_match_ignores_case() {
    for os in ["macos", "MacOS", "MACOS", "mAcOs"] {
        assert!(config(os, "x").matches_current_os(HostOs::Macos));
        let entry = LocalFilenameConfig { filename: "x".to_string(), os: os.to_string() };
        assert!(entry.matches_current_os(HostOs::Macos));
    }
    assert!(config("Windows", "x").matches_current_os(HostOs::Windows));
    assert!(config("LINUX", "x").matches_current_os(HostOs::Linux));
}

#[test]
fn os_match_rejects_other_systems() {
    assert!(!config("windows", "x").matches_current_os(HostOs::Macos));
    assert!(!config("macos ", "x").matches_current_os(HostOs::Macos));
    assert!(!config("linux", "x").matches_current_os(HostOs::Other));
    let entry = LocalFilenameConfig { filename: "x".to_string(), os: "linuxx".to_string() };
    assert!(!entry.matches_current_os(HostOs::Linux));
}

#[test]
fn installation_type_defaults_to_standard() {
    assert_eq!(InstallationType::default(), InstallationType::Standard);
}
