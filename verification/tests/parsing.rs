use php_discovery::Platform;
use php_discovery::builds::Architecture;
use php_discovery::builds::Build;
use php_discovery::builds::scan_info;
use php_discovery::error::InstallationError;
use php_discovery::version::Version;

const GOOD_INFO: &str = "phpinfo()\nPHP Version => 8.1.2\n\nDebug Build => no\nThread Safety => disabled\nZend Extension => 420210902\nPHP Extension => 20210902\n";

#[test]
fn version_formatting_with_extra() {
    let v = Version { major: 8, minor: 2, release: 0, extra: Some("RC6".to_string()) };
    assert_eq!("8.2.0RC6", v.to_display_string());
}

#[test]
fn version_formatting_without_extra() {
    let v = Version { major: 7, minor: 4, release: 11, extra: None };
    assert_eq!("7.4.11", v.to_display_string());
}

#[test]
fn thread_safety_line_disabled() {
    let sum = scan_info("Thread Safety => disabled");
    assert!(!sum.is_thread_safety_enabled);
}

#[test]
fn thread_safety_line_enabled() {
    let sum = scan_info("Thread Safety => enabled");
    assert!(sum.is_thread_safety_enabled);
}

#[test]
fn debug_build_line() {
    let sum = scan_info("Debug Build => no\n");
    assert!(!sum.is_debug);
    let sum = scan_info("Debug Build => yes\n");
    assert!(sum.is_debug);
}

#[test]
fn api_lines_parse_numbers() {
    let sum = scan_info(GOOD_INFO);
    assert_eq!(sum.php_api, Some(20210902));
    assert_eq!(sum.zend_api, Some(420210902));
    assert!(!sum.is_debug);
    assert!(!sum.is_thread_safety_enabled);
}

#[test]
fn info_lines_tolerate_carriage_returns() {
    let sum = scan_info("Thread Safety => enabled\r\nPHP Extension => 20220829\r\n");
    assert!(sum.is_thread_safety_enabled);
    assert_eq!(sum.php_api, Some(20220829));
}

#[test]
fn api_value_must_be_a_plain_decimal() {
    // an overflowing or non-numeric value leaves the field unset
    let sum = scan_info("Zend Extension => 99999999999999999999\n");
    assert_eq!(sum.zend_api, None);
    let sum = scan_info("PHP Extension => 2021x\n");
    assert_eq!(sum.php_api, None);
}

#[test]
fn later_labeled_lines_override_earlier_ones() {
    let sum = scan_info("Thread Safety => enabled\nThread Safety => disabled\n");
    assert!(!sum.is_thread_safety_enabled);
}

#[test]
fn probe_builds_full_record() {
    let r = Build::from_outputs(
        "/fake/bin/php".to_string(),
        "8.1.2.",
        GOOD_INFO,
        Platform::Linux,
    );
    let b = r.expect("well-formed outputs must probe successfully");
    assert_eq!(b.version.major, 8);
    assert_eq!(b.version.minor, 1);
    assert_eq!(b.version.release, 2);
    assert!(b.version.extra.is_none());
    assert_eq!(b.binary, "/fake/bin/php");
    assert_eq!(b.directory, "/fake/bin");
    assert_eq!(b.php_api, 20210902);
    assert_eq!(b.zend_api, 420210902);
    assert!(b.architecture.is_none());
}

#[test]
fn probe_keeps_version_extra() {
    let r = Build::from_outputs(
        "/fake/bin/php".to_string(),
        "8.2.0.RC6",
        GOOD_INFO,
        Platform::Linux,
    );
    let b = r.unwrap();
    assert_eq!(b.version.extra.as_deref(), Some("RC6"));
    assert_eq!(b.version.to_display_string(), "8.2.0RC6");
}

#[test]
fn probe_without_zend_extension_line_fails() {
    let info = "Debug Build => no\nThread Safety => enabled\nPHP Extension => 20210902\n";
    let r = Build::from_outputs("/fake/bin/php".to_string(), "8.1.2.", info, Platform::Linux);
    assert!(matches!(r, Err(InstallationError::FailedToRetrieveAPIVersion)));
}

#[test]
fn probe_without_php_extension_line_fails() {
    let info = "Debug Build => no\nZend Extension => 420210902\n";
    let r = Build::from_outputs("/fake/bin/php".to_string(), "8.1.2.", info, Platform::Linux);
    assert!(matches!(r, Err(InstallationError::FailedToRetrieveAPIVersion)));
}

#[test]
fn probe_with_malformed_version_fails() {
    let r = Build::from_outputs("/fake/bin/php".to_string(), "8.1", GOOD_INFO, Platform::Linux);
    assert!(matches!(r, Err(InstallationError::MalformedVersionOutput)));
    let r = Build::from_outputs(
        "/fake/bin/php".to_string(),
        "8.x.2.",
        GOOD_INFO,
        Platform::Linux,
    );
    assert!(matches!(r, Err(InstallationError::MalformedVersionOutput)));
}

#[test]
fn probe_on_windows_reads_architecture() {
    let info = "Thread Safety => enabled\nDebug Build => no\nArchitecture => x64\nZend Extension => 420220829\nPHP Extension => 20220829\n";
    let r = Build::from_outputs(
        "C:\\tools\\php\\php.exe".to_string(),
        "8.2.1.",
        info,
        Platform::Windows,
    );
    let b = r.unwrap();
    assert_eq!(b.architecture, Some(Architecture::X64));
    assert_eq!(b.directory, "C:\\tools\\php");
}

#[test]
fn probe_on_windows_without_architecture_fails() {
    let r = Build::from_outputs(
        "C:\\tools\\php\\php.exe".to_string(),
        "8.2.1.",
        GOOD_INFO,
        Platform::Windows,
    );
    assert!(matches!(r, Err(InstallationError::FailedToRetrieveArch)));
}

#[test]
fn probe_with_unknown_architecture_fails() {
    let info = "Architecture => mips\nZend Extension => 420220829\nPHP Extension => 20220829\n";
    let r = Build::from_outputs(
        "C:\\tools\\php\\php.exe".to_string(),
        "8.2.1.",
        info,
        Platform::Windows,
    );
    assert!(matches!(r, Err(InstallationError::FailedToRetrieveArch)));
}

#[test]
fn architecture_tokens_round_trip() {
    assert_eq!(Architecture::from_token("x86"), Some(Architecture::X86));
    assert_eq!(Architecture::from_token("x64"), Some(Architecture::X64));
    assert_eq!(Architecture::from_token("arm64"), Some(Architecture::AArch64));
    assert_eq!(Architecture::from_token("sparc"), None);
    assert_eq!(Architecture::X86.token(), "x86");
    assert_eq!(Architecture::AArch64.token(), "arm64");
}

#[test]
fn sibling_candidates_replace_the_base_token() {
    let b = Build::from_outputs(
        "/usr/bin/php7.4".to_string(),
        "7.4.11.",
        GOOD_INFO,
        Platform::Linux,
    )
    .unwrap();
    assert_eq!(
        b.config_candidate(Platform::Linux).as_deref(),
        Some("/usr/bin/php-config7.4")
    );
    assert_eq!(b.cgi_candidate(Platform::Linux).as_deref(), Some("/usr/bin/php-cgi7.4"));
    assert_eq!(b.phpize_candidate(Platform::Linux).as_deref(), Some("/usr/bin/phpize7.4"));
    assert_eq!(b.phpdbg_candidate(Platform::Linux).as_deref(), Some("/usr/bin/phpdbg7.4"));
}

#[test]
fn builds_compare_by_every_field() {
    let a = Build::from_outputs("/x/php".to_string(), "8.1.2.", GOOD_INFO, Platform::Linux)
        .unwrap();
    let b = Build::from_outputs("/x/php".to_string(), "8.1.2.", GOOD_INFO, Platform::Linux)
        .unwrap();
    let c = Build::from_outputs("/y/php".to_string(), "8.1.2.", GOOD_INFO, Platform::Linux)
        .unwrap();
    assert!(a.same_as(&b));
    assert!(!a.same_as(&c));
}
