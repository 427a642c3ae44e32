use php_discovery::Platform;
use php_discovery::builds::Build;
use php_discovery::error::DiscoveryError;
use php_discovery::locations::Strategy;
use php_discovery::locations::locations;
use php_discovery::matcher::matches_binary_name;
use php_discovery::scanner::DirListing;
use php_discovery::scanner::Entry;
use php_discovery::scanner::Scanner;

const GOOD_INFO: &str =
    "Debug Build => no\nThread Safety => disabled\nZend Extension => 420210902\nPHP Extension => 20210902\n";

fn entry(path: &str, is_dir: bool) -> Entry {
    Entry { path: path.to_string(), is_dir }
}

#[test]
fn matcher_accepts_interpreter_names() {
    for name in ["php", "php74", "php7.4", "php-fpm", "php7.4-cgi", "php-fpm74"] {
        assert!(matches_binary_name(name, false), "{name} should match");
    }
}

#[test]
fn matcher_rejects_other_names() {
    for name in ["phpunit", "myphp", "php.conf"] {
        assert!(!matches_binary_name(name, false), "{name} should not match");
    }
}

#[test]
fn matcher_grammar_edges() {
    // an underscore-introduced word is as good as a dash-introduced one
    assert!(matches_binary_name("php_fpm", false));
    // a separator or dot must introduce something
    assert!(!matches_binary_name("php-", false));
    assert!(!matches_binary_name("php7.", false));
    assert!(!matches_binary_name("php..4", false));
    assert!(!matches_binary_name("php--fpm", false));
    // the match is case-sensitive on the base name
    assert!(!matches_binary_name("PHP", false));
}

#[test]
fn windows_matcher_requires_an_extension() {
    assert!(matches_binary_name("php.exe", true));
    assert!(matches_binary_name("php74.bat", true));
    assert!(!matches_binary_name("php", true));
    assert!(!matches_binary_name("php.txt", true));
}

#[test]
fn symlinked_directory_changes_nothing() {
    let mut scanner = Scanner::new();
    scanner.push_location("/fake".to_string());
    let before_pending = scanner.pending.len();
    let before_builds = scanner.builds.len();
    let bins = scanner.process_listing(DirListing::Inaccessible, false);
    assert!(bins.is_empty());
    assert_eq!(scanner.pending.len(), before_pending);
    assert_eq!(scanner.builds.len(), before_builds);
}

#[test]
fn nested_version_manager_layout_is_discovered() {
    let mut scanner = Scanner::new();
    // a tree scan of /vm: the root has one child directory, 7.4.2
    scanner.queue_tree("/vm".to_string(), vec!["/vm/7.4.2".to_string()]);

    // the root itself holds nothing php-like
    let d = scanner.take_job().unwrap();
    assert_eq!(d, "/vm");
    let bins = scanner.process_listing(DirListing::Entries(vec![]), false);
    assert!(bins.is_empty());

    // the child carries bin/php, which the merged glob reports
    let d = scanner.take_job().unwrap();
    assert_eq!(d, "/vm/7.4.2");
    let bins = scanner.process_listing(
        DirListing::Entries(vec![entry("/vm/7.4.2/bin/php", false)]),
        false,
    );
    assert_eq!(bins, vec!["/vm/7.4.2/bin/php".to_string()]);

    let b = Build::from_outputs(bins[0].clone(), "7.4.2.", GOOD_INFO, Platform::Linux).unwrap();
    scanner.add_build(b);
    assert_eq!(scanner.builds.len(), 1);
    assert_eq!(scanner.builds[0].binary, "/vm/7.4.2/bin/php");
}

#[test]
fn php_named_subdirectories_are_queued_when_no_binary_is_found() {
    let mut scanner = Scanner::new();
    scanner.push_location("/wamp/bin/php".to_string());
    let d = scanner.take_job().unwrap();
    assert_eq!(d, "/wamp/bin/php");
    let bins = scanner.process_listing(
        DirListing::Entries(vec![
            entry("/wamp/bin/php/php7.4.11", true),
            entry("/wamp/bin/php/php8.0.1", true),
        ]),
        false,
    );
    assert!(bins.is_empty());
    // depth-first: the first-listed subdirectory comes out first
    assert_eq!(scanner.take_job().unwrap(), "/wamp/bin/php/php7.4.11");
    assert_eq!(scanner.take_job().unwrap(), "/wamp/bin/php/php8.0.1");
    assert!(scanner.take_job().is_none());
}

#[test]
fn subdirectories_are_not_queued_when_a_binary_is_found() {
    let mut scanner = Scanner::new();
    let bins = scanner.process_listing(
        DirListing::Entries(vec![
            entry("/opt/php/php8.1", false),
            entry("/opt/php/php-src", true),
        ]),
        false,
    );
    assert_eq!(bins, vec!["/opt/php/php8.1".to_string()]);
    assert!(scanner.take_job().is_none());
}

#[test]
fn listing_deduplicates_candidates_by_path() {
    // a file reachable through both glob patterns is probed once
    let mut scanner = Scanner::new();
    let bins = scanner.process_listing(
        DirListing::Entries(vec![
            entry("/opt/bin/php", false),
            entry("/opt/bin/php", false),
        ]),
        false,
    );
    assert_eq!(bins, vec!["/opt/bin/php".to_string()]);
}

#[test]
fn equal_builds_are_inserted_once() {
    let mut scanner = Scanner::new();
    let a = Build::from_outputs("/x/bin/php".to_string(), "8.1.2.", GOOD_INFO, Platform::Linux)
        .unwrap();
    let b = Build::from_outputs("/x/bin/php".to_string(), "8.1.2.", GOOD_INFO, Platform::Linux)
        .unwrap();
    scanner.add_build(a);
    scanner.add_build(b);
    assert_eq!(scanner.builds.len(), 1);
}

#[test]
fn different_paths_stay_distinct() {
    // a symlink path and its target count as two builds: no canonicalization
    let mut scanner = Scanner::new();
    let a = Build::from_outputs("/x/bin/php".to_string(), "8.1.2.", GOOD_INFO, Platform::Linux)
        .unwrap();
    let b = Build::from_outputs(
        "/x/bin/php8.1".to_string(),
        "8.1.2.",
        GOOD_INFO,
        Platform::Linux,
    )
    .unwrap();
    scanner.add_build(a);
    scanner.add_build(b);
    assert_eq!(scanner.builds.len(), 2);
}

#[test]
fn linux_locations_start_with_the_search_path() {
    let jobs = locations(
        Platform::Linux,
        Some("/fake/bin:/other/bin".to_string()),
        Some("/home/u".to_string()),
        None,
    )
    .unwrap();
    let dirs: Vec<&str> = jobs.iter().map(|j| j.dir.as_str()).collect();
    assert_eq!(
        dirs,
        vec![
            "/fake/bin",
            "/other/bin",
            "/home/u/.phpbrew/php",
            "/home/u/.phpenv/versions",
            "/usr",
            "/opt/remi",
        ]
    );
    assert!(matches!(jobs[0].strategy, Strategy::Direct));
    assert!(matches!(jobs[2].strategy, Strategy::Tree));
    assert!(matches!(jobs[4].strategy, Strategy::Tree));
}

#[test]
fn macos_locations_use_the_package_roots() {
    let jobs = locations(Platform::MacOs, None, None, None).unwrap();
    let dirs: Vec<&str> = jobs.iter().map(|j| j.dir.as_str()).collect();
    assert_eq!(dirs, vec!["/opt/local", "/Applications/MAMP/bin/php/"]);
}

#[test]
fn windows_locations_require_the_system_drive() {
    let r = locations(Platform::Windows, None, None, None);
    assert!(matches!(r, Err(DiscoveryError::FailedToLocateSystemDrive)));
}

#[test]
fn windows_locations_sit_under_the_system_drive() {
    let jobs = locations(
        Platform::Windows,
        Some("C:\\php".to_string()),
        None,
        Some("C:".to_string()),
    )
    .unwrap();
    let dirs: Vec<&str> = jobs.iter().map(|j| j.dir.as_str()).collect();
    assert_eq!(
        dirs,
        vec![
            "C:\\php",
            "C:\\xampp\\php",
            "C:\\cygwin64\\bin",
            "C:\\cygwin\\bin",
            "C:\\tools",
            "C:\\wamp64\\bin\\php",
            "C:\\wamp\\bin\\php",
            "C:\\mamp\\bin\\php",
        ]
    );
    assert!(jobs.iter().all(|j| matches!(j.strategy, Strategy::Direct)));
}

#[test]
fn discovery_of_a_fake_search_path_yields_one_build() {
    // end to end over simulated filesystem answers: one PATH directory
    // holding one well-formed interpreter
    let jobs = locations(Platform::OtherUnix, Some("/fake/bin".to_string()), None, None)
        .unwrap();
    assert_eq!(jobs.len(), 1);

    let mut scanner = Scanner::new();
    for job in jobs {
        assert!(matches!(job.strategy, Strategy::Direct));
        scanner.push_location(job.dir);
        while let Some(dir) = scanner.take_job() {
            let listing = if dir == "/fake/bin" {
                DirListing::Entries(vec![entry("/fake/bin/php", false)])
            } else {
                DirListing::Inaccessible
            };
            let bins = scanner.process_listing(listing, false);
            for bin in bins {
                // canned answers of the fake interpreter script
                let build = Build::from_outputs(
                    bin,
                    "8.1.2.",
                    "Thread Safety => enabled\nDebug Build => no\nZend Extension => 420210902\nPHP Extension => 20210902\n",
                    Platform::OtherUnix,
                )
                .unwrap();
                scanner.add_build(build);
            }
        }
    }
    let builds = scanner.into_builds();
    assert_eq!(builds.len(), 1);
    assert_eq!(builds[0].binary, "/fake/bin/php");
    assert_eq!(builds[0].version.to_display_string(), "8.1.2");
    assert_eq!(builds[0].php_api, 20210902);
    assert_eq!(builds[0].zend_api, 420210902);
    assert!(builds[0].is_thread_safety_enabled);
    assert!(!builds[0].is_debug);
}
