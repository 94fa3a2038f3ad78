use cogniscribe::obs::config_writer::OBSConfigWriter;
use cogniscribe::obs::detector::{OBSDetector, ObsProbe};
use cogniscribe::obs::error::ObsError;
use cogniscribe::obs::installer::OBSInstaller;
use cogniscribe::obs::manager::{OBSManager, PresetKind};
use cogniscribe::obs::types::{OBSInfo, WebSocketInfo};
use cogniscribe::platform::{Arch, Platform};

fn nothing_found() -> ObsProbe {
    ObsProbe { path: None, version: None, is_running: false, websocket: None }
}

#[test]
fn test_get_config_dir() {
    let result = OBSConfigWriter::get_config_dir(Platform::Linux, "/home/user");

    match result {
        Ok(dir) => {
            println!("OBS config directory: {:?}", dir);
            assert!(dir.contains("obs-studio"));
        }
        Err(e) => {
            println!("Could not get OBS config dir (expected on some systems): {}", e.message());
        }
    }
}

#[test]
fn test_config_dir_macos() {
    let result = OBSConfigWriter::get_config_dir(Platform::MacOs, "/Users/user");

    if let Ok(dir) = result {
        assert!(dir.contains("Library/Application Support/obs-studio"));
    }
}

#[test]
fn test_enable_websocket_content() {
    // Test the content that would be written
    let websocket_config = "[OBSWebSocket]\nServerEnabled=true\nServerPort=4455\nAuthRequired=false\n";

    assert!(websocket_config.contains("ServerEnabled=true"));
    assert!(websocket_config.contains("ServerPort=4455"));
    assert!(websocket_config.contains("AuthRequired=false"));

    let written = OBSConfigWriter::enable_websocket("");
    assert!(written.contains(websocket_config));
    assert!(written.contains("ServerEnabled=true"));
    assert!(written.contains("ServerPort=4455"));
    assert!(written.contains("AuthRequired=false"));
}

#[test]
fn test_recording_settings_format() {
    let basic_config = format!(
        r#"[SimpleOutput]
RecFormat=mkv
RecQuality=Small
RecAudioBitrate=192

[Audio]
SampleRate=48000
ChannelSetup=Stereo"#
    );

    assert!(basic_config.contains("RecFormat=mkv"));
    assert!(basic_config.contains("SampleRate=48000"));
    assert!(basic_config.contains("ChannelSetup=Stereo"));
    assert!(basic_config.contains("RecAudioBitrate=192"));

    let written = OBSConfigWriter::set_recording_settings("/home/user");
    assert!(written.contains("RecFormat=mkv"));
    assert!(written.contains("SampleRate=48000"));
    assert!(written.contains("ChannelSetup=Stereo"));
    assert!(written.contains("RecAudioBitrate=192"));
}

#[test]
fn test_find_obs_path() {
    let candidates = OBSDetector::candidate_paths(Platform::Linux, "/home/user");
    let path = candidates.into_iter().find(|p| p == "/usr/local/bin/obs");

    match path {
        Some(p) => {
            println!("Found OBS at: {:?}", p);
            assert!(p.starts_with('/'));
        }
        None => {
            println!("OBS not found (this is OK for testing)");
        }
    }
}

#[test]
fn test_detect() {
    // Test that detect() returns a valid OBSInfo struct
    let result = OBSDetector::detect(nothing_found());
    assert!(result.is_ok());

    let info = result.unwrap();

    // Verify the struct fields are populated
    println!("OBS Info: installed={}, running={}, ws_enabled={}",
             info.installed, info.is_running, info.websocket_enabled);

    // Basic sanity checks
    assert!(info.websocket_port == 4455 || info.websocket_port == 4444 || info.websocket_port == 0);
}

#[test]
fn test_macos_paths() {
    // Test macOS-specific path detection
    let expected_paths = vec![
        "/Applications/OBS.app",
        "/Applications/OBS Studio.app",
    ];

    let candidates = OBSDetector::candidate_paths(Platform::MacOs, "/Users/user");
    for path in expected_paths {
        let listed = candidates.iter().any(|p| p == path);
        println!("Checking path: {:?} - listed: {}", path, listed);
        assert!(listed);
    }
}

#[test]
fn test_websocket_info_creation() {
    let ws_info = WebSocketInfo {
        enabled: true,
        port: 4455,
    };

    assert_eq!(ws_info.enabled, true);
    assert_eq!(ws_info.port, 4455);
}

#[test]
fn test_get_download_url_macos() {
    let result = OBSInstaller::get_download_url(Platform::MacOs, "arm64\n");
    assert!(result.is_ok());

    let url = result.unwrap();
    assert!(url.contains("https://"));
    assert!(url.contains("obs-studio"));
    assert!(url.contains(".dmg"));

    // Check for Apple or Intel specific naming
    assert!(url.contains("Apple") || url.contains("Intel"));
}

#[test]
fn test_get_download_url_windows() {
    let result = OBSInstaller::get_download_url(Platform::Windows, "");
    assert!(result.is_ok());

    let url = result.unwrap();
    assert!(url.contains("https://"));
    assert!(url.contains("obs-studio"));
    assert!(url.contains(".exe"));
}

#[test]
fn test_get_download_url_linux_error() {
    let result = OBSInstaller::get_download_url(Platform::Linux, "x86_64");
    assert!(result.is_err());
}

#[test]
fn default_info_reports_nothing() {
    let info = OBSInfo::default();
    assert!(!info.installed);
    assert_eq!(info.version, None);
    assert_eq!(info.path, None);
    assert!(!info.websocket_enabled);
    assert_eq!(info.websocket_port, 4455);
    assert!(!info.is_running);
    assert_eq!(OBSDetector::detect(nothing_found()), Ok(info));
}

#[test]
fn detect_puts_the_findings_together() {
    let probe = ObsProbe {
        path: Some("/usr/bin/obs".to_string()),
        version: Some("30.2.2".to_string()),
        is_running: true,
        websocket: Some(WebSocketInfo { enabled: true, port: 4444 }),
    };
    let info = OBSDetector::detect(probe).unwrap();
    assert!(info.installed);
    assert_eq!(info.path, Some("/usr/bin/obs".to_string()));
    assert_eq!(info.version, Some("30.2.2".to_string()));
    assert!(info.is_running);
    assert!(info.websocket_enabled);
    assert_eq!(info.websocket_port, 4444);
}

#[test]
fn detect_ignores_what_does_not_count() {
    let probe = ObsProbe {
        path: None,
        version: Some("30.2.2".to_string()),
        is_running: false,
        websocket: Some(WebSocketInfo { enabled: true, port: 4444 }),
    };
    let info = OBSDetector::detect(probe).unwrap();
    assert!(!info.installed);
    assert_eq!(info.version, None);
    assert!(!info.websocket_enabled);
    assert_eq!(info.websocket_port, 4455);
}

#[test]
fn candidate_paths_follow_the_platform() {
    assert_eq!(
        OBSDetector::candidate_paths(Platform::MacOs, "/Users/ann"),
        vec![
            "/Applications/OBS.app".to_string(),
            "/Applications/OBS Studio.app".to_string(),
            "/Users/ann/Applications/OBS.app".to_string(),
        ]
    );
    assert_eq!(
        OBSDetector::candidate_paths(Platform::Windows, ""),
        vec![
            "C:\\Program Files\\obs-studio\\bin\\64bit\\obs64.exe".to_string(),
            "C:\\Program Files (x86)\\obs-studio\\bin\\64bit\\obs64.exe".to_string(),
        ]
    );
    assert_eq!(
        OBSDetector::candidate_paths(Platform::Linux, ""),
        vec![
            "/usr/bin/obs".to_string(),
            "/usr/local/bin/obs".to_string(),
            "/.local/bin/obs".to_string(),
        ]
    );
    assert!(OBSDetector::candidate_paths(Platform::Other, "/home").is_empty());
}

#[test]
fn plist_version_is_read() {
    let plist = "<dict>\n<key>CFBundleName</key>\n<string>OBS</string>\n<key>CFBundleShortVersionString</key>\n\t<string>30.2.2</string>\n<key>Other</key><string>x</string></dict>";
    assert_eq!(OBSDetector::version_from_plist(plist), Some("30.2.2".to_string()));
    assert_eq!(OBSDetector::version_from_plist("<key>CFBundleShortVersionString</key>"), None);
    assert_eq!(
        OBSDetector::version_from_plist("<key>CFBundleShortVersionString</key><string>1.0"),
        None
    );
    assert_eq!(OBSDetector::version_from_plist("<string>1.0</string>"), None);
    assert_eq!(
        OBSDetector::version_from_plist("é<key>CFBundleShortVersionString</key><string>ü1</string>"),
        Some("ü1".to_string())
    );
    assert_eq!(
        OBSDetector::version_from_plist("<key>CFBundleShortVersionString</key><string></string>"),
        Some(String::new())
    );
}

#[test]
fn command_output_is_trimmed() {
    assert_eq!(OBSDetector::version_from_output("  OBS Studio - 30.2.2\n"), "OBS Studio - 30.2.2");
    assert_eq!(OBSDetector::version_from_output("\n\t \n"), "");
    assert_eq!(OBSDetector::version_from_output(""), "");
    assert_eq!(OBSDetector::version_from_output("a"), "a");
}

#[test]
fn obs_processes_are_recognised() {
    assert!(OBSDetector::is_obs_process("obs", Platform::Linux));
    assert!(OBSDetector::is_obs_process("OBS", Platform::MacOs));
    assert!(OBSDetector::is_obs_process("Jobs", Platform::Linux));
    assert!(OBSDetector::is_obs_process("OBS64.EXE", Platform::Windows));
    assert!(OBSDetector::is_obs_process("obs32.exe", Platform::Windows));
    assert!(!OBSDetector::is_obs_process("obs", Platform::Windows));
    assert!(!OBSDetector::is_obs_process("firefox", Platform::Linux));
    assert!(!OBSDetector::is_obs_process("obs", Platform::Other));
}

#[test]
fn websocket_probe_is_read() {
    assert_eq!(OBSDetector::websocket_ports(), vec![4455, 4444]);
    assert_eq!(
        OBSDetector::detect_websocket(Some(4444)),
        Ok(WebSocketInfo { enabled: true, port: 4444 })
    );
    assert_eq!(
        OBSDetector::detect_websocket(None),
        Ok(WebSocketInfo { enabled: false, port: 4455 })
    );
}

#[test]
fn config_dir_follows_the_platform() {
    assert_eq!(OBSConfigWriter::base_variable(Platform::Windows), "APPDATA");
    assert_eq!(OBSConfigWriter::base_variable(Platform::MacOs), "HOME");
    assert_eq!(OBSConfigWriter::base_variable(Platform::Linux), "HOME");
    assert_eq!(
        OBSConfigWriter::get_config_dir(Platform::MacOs, "/Users/ann"),
        Ok("/Users/ann/Library/Application Support/obs-studio".to_string())
    );
    assert_eq!(
        OBSConfigWriter::get_config_dir(Platform::Windows, "C:\\Users\\ann\\AppData"),
        Ok("C:\\Users\\ann\\AppData\\obs-studio".to_string())
    );
    assert_eq!(
        OBSConfigWriter::get_config_dir(Platform::Linux, "/home/ann"),
        Ok("/home/ann/.config/obs-studio".to_string())
    );
    assert_eq!(
        OBSConfigWriter::get_config_dir(Platform::Other, "/home/ann"),
        Err(ObsError::UnsupportedPlatform)
    );
}

#[test]
fn websocket_section_is_appended_once() {
    let fresh = OBSConfigWriter::enable_websocket("[General]\nName=x\n");
    assert_eq!(
        fresh,
        "[General]\nName=x\n\n[OBSWebSocket]\nServerEnabled=true\nServerPort=4455\nAuthRequired=false\nServerPassword=\nAlertsEnabled=true\n"
    );
    assert_eq!(OBSConfigWriter::enable_websocket(&fresh), fresh);
}

#[test]
fn existing_websocket_section_is_updated() {
    let disabled = "[OBSWebSocket]\nServerEnabled=false\nServerPort=4460\n";
    assert_eq!(
        OBSConfigWriter::enable_websocket(disabled),
        "[OBSWebSocket]\nServerEnabled=true\nServerPort=4460\n"
    );
    let portless = "[A]\nx=1\n[OBSWebSocket]\nServerEnabled=false\n";
    assert_eq!(
        OBSConfigWriter::enable_websocket(portless),
        "[A]\nx=1\n[OBSWebSocket]\nServerPort=4455\nServerEnabled=true\n"
    );
    let several = "ServerEnabled=false ServerEnabled=false [OBSWebSocket] [OBSWebSocket]";
    assert_eq!(
        OBSConfigWriter::enable_websocket(several),
        several.replace("ServerEnabled=false", "ServerEnabled=true")
            .replace("[OBSWebSocket]", "[OBSWebSocket]\nServerPort=4455")
    );
}

#[test]
fn recording_settings_name_the_movies_directory() {
    let written = OBSConfigWriter::set_recording_settings("/home/ann");
    assert!(written.starts_with("[Output]\nMode=Simple\n\n[SimpleOutput]\nFilePath=/home/ann/Movies\nRecFormat=mkv\n"));
    assert!(written.ends_with("[Video]\nBaseCX=1920\nBaseCY=1080\nOutputCX=1920\nOutputCY=1080\nFPSType=0\nFPSCommon=30\n"));
    assert_eq!(written.lines().count(), 21);
}

#[test]
fn download_url_follows_platform_and_machine() {
    assert_eq!(
        OBSInstaller::get_download_url(Platform::MacOs, " arm64 \n"),
        Ok("https://github.com/obsproject/obs-studio/releases/download/30.2.2/OBS-Studio-30.2.2-macOS-Apple.dmg".to_string())
    );
    assert_eq!(
        OBSInstaller::get_download_url(Platform::MacOs, "x86_64\n"),
        Ok("https://github.com/obsproject/obs-studio/releases/download/30.2.2/OBS-Studio-30.2.2-macOS-Intel.dmg".to_string())
    );
    assert_eq!(
        OBSInstaller::get_download_url(Platform::Windows, "arm64"),
        Ok("https://github.com/obsproject/obs-studio/releases/download/30.2.2/OBS-Studio-30.2.2-Windows-Installer.exe".to_string())
    );
    assert_eq!(
        OBSInstaller::get_download_url(Platform::Linux, "arm64"),
        Err(ObsError::UnsupportedPlatform)
    );
    assert_eq!(OBSInstaller::installer_file_name(Platform::MacOs), Some("OBS-Studio.dmg"));
    assert_eq!(
        OBSInstaller::installer_file_name(Platform::Windows),
        Some("OBS-Studio-Installer.exe")
    );
    assert_eq!(OBSInstaller::installer_file_name(Platform::Linux), None);
}

#[test]
fn download_message_counts_megabytes() {
    assert_eq!(OBSInstaller::download_message(0, 0), "Downloaded 0 MB / 0 MB");
    assert_eq!(
        OBSInstaller::download_message(12_999_999, 150_000_000),
        "Downloaded 12 MB / 150 MB"
    );
}

#[test]
fn mount_point_is_the_last_word_of_the_volume_line() {
    let output = "/dev/disk4          \tGUID_partition_scheme          \t\n/dev/disk4s1        \tApple_HFS                      \t/Volumes/OBS-Studio\n";
    assert_eq!(OBSInstaller::mount_point(output), Ok("/Volumes/OBS-Studio".to_string()));
    assert_eq!(
        OBSInstaller::mount_point("x /Volumes/OBS Studio 30\r\ny /Volumes/other"),
        Ok("30".to_string())
    );
    assert_eq!(OBSInstaller::mount_point("/dev/disk4\n"), Err(ObsError::MountPointNotFound));
    assert_eq!(OBSInstaller::mount_point(""), Err(ObsError::MountPointNotFound));
    assert_eq!(
        OBSInstaller::copy_script("/Volumes/OBS-Studio"),
        "do shell script \"cp -R '/Volumes/OBS-Studio/OBS.app' '/Applications/OBS.app'\" with administrator privileges"
    );
}

#[test]
fn manager_tracks_the_connection() {
    let mut manager = OBSManager::new();
    assert!(!manager.is_connected());
    assert_eq!(manager.require_connection(), Err(ObsError::NotConnected));
    assert_eq!(manager.start_recording(), Err(ObsError::NotConnected));
    assert_eq!(manager.stop_recording(), Err(ObsError::NotConnected));
    assert!(!manager.is_recording());

    let status = manager.connect("30.2.2".to_string(), "5.5.2".to_string());
    assert!(status.connected);
    assert_eq!(status.obs_version, Some("30.2.2".to_string()));
    assert_eq!(status.websocket_version, Some("5.5.2".to_string()));
    assert_eq!(status.available_features, vec!["recording", "audio_sources", "filters", "scenes"]);
    assert!(manager.is_connected());
    assert_eq!(manager.require_connection(), Ok(()));
    assert_eq!(manager.start_recording(), Ok(()));
    assert!(manager.is_recording());
    assert_eq!(manager.stop_recording(), Ok(()));
    assert!(!manager.is_recording());

    manager.start_recording().unwrap();
    manager.disconnect();
    assert!(!manager.is_connected());
    assert!(!manager.is_recording());
}

#[test]
fn manager_names_what_it_asks_for() {
    assert_eq!(OBSManager::connection_url("localhost", 4455), "localhost:4455");
    assert_eq!(OBSManager::filter_name("noise_gate", 0), "noise_gate_0");
    assert_eq!(OBSManager::filter_name("compressor", 12), "compressor_12");
    assert!(OBSManager::is_audio_input("coreaudio_input_capture"));
    assert!(OBSManager::is_audio_input("wasapi_input_capture"));
    assert!(OBSManager::is_audio_input("pulse_audio_output"));
    assert!(OBSManager::is_audio_input("window_capture"));
    assert!(!OBSManager::is_audio_input("browser_source"));
}

#[test]
fn presets_are_found_by_name() {
    assert_eq!(PresetKind::from_name("lecture_hall"), Ok(PresetKind::LectureHall));
    assert_eq!(PresetKind::from_name("clinical_skills"), Ok(PresetKind::ClinicalSkills));
    assert_eq!(PresetKind::from_name("online_lecture"), Ok(PresetKind::OnlineLecture));
    assert_eq!(PresetKind::from_name("Lecture Hall"), Err(ObsError::UnknownPreset));
    assert_eq!(PresetKind::LectureHall.title(), "Lecture Hall");
    assert_eq!(
        PresetKind::OnlineLecture.description(),
        "For capturing Zoom/Teams lectures with system audio"
    );
    assert_eq!(
        OBSManager::get_filter_presets(),
        vec![PresetKind::LectureHall, PresetKind::ClinicalSkills, PresetKind::OnlineLecture]
    );
    assert_eq!(ObsError::UnknownPreset.message(), "Unknown preset");
    assert_eq!(ObsError::NotConnected.message(), "Not connected to OBS");
}

#[test]
fn platforms_are_read_from_their_names() {
    assert_eq!(Platform::from_os_name("macos"), Platform::MacOs);
    assert_eq!(Platform::from_os_name("windows"), Platform::Windows);
    assert_eq!(Platform::from_os_name("linux"), Platform::Linux);
    assert_eq!(Platform::from_os_name("freebsd"), Platform::Other);
    assert_eq!(Arch::from_name("x86_64"), Arch::X86_64);
    assert_eq!(Arch::from_name("aarch64"), Arch::Aarch64);
    assert_eq!(Arch::from_name("arm64"), Arch::Aarch64);
    assert_eq!(Arch::from_name("riscv64"), Arch::Other);
}
