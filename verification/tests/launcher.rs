use wurst_launcher::archive::archive_path;
use wurst_launcher::archive::check_archive;
use wurst_launcher::args::build_java_args;
use wurst_launcher::command::CommandSpec;
use wurst_launcher::config::settings_of_outcome;
use wurst_launcher::config::validate_settings;
use wurst_launcher::config::LoadOutcome;
use wurst_launcher::errors::child_exit_code;
use wurst_launcher::errors::LaunchError;
use wurst_launcher::locate::candidate_paths;
use wurst_launcher::locate::choose_runtime;
use wurst_launcher::locate::filter_java_paths;
use wurst_launcher::locate::first_match;
use wurst_launcher::locate::locate_runtime;
use wurst_launcher::locate::probe_paths;
use wurst_launcher::settings::Settings;
use wurst_launcher::text::split_paths;
use wurst_launcher::text::str_contains;
use wurst_launcher::text::u32_to_string;

fn settings_all_unset() -> Settings {
    Settings {
        initial_heap_size: None,
        maximum_heap_size: None,
        thread_stack_size: None,
        java_path: None,
        java_args: None,
        wurst_path: None,
    }
}

#[test]
fn decimal_rendering_exact() {
    assert_eq!(u32_to_string(0), "0");
    assert_eq!(u32_to_string(7), "7");
    assert_eq!(u32_to_string(10), "10");
    assert_eq!(u32_to_string(256), "256");
    assert_eq!(u32_to_string(u32::MAX), "4294967295");
}

#[test]
fn split_on_semicolons() {
    assert_eq!(split_paths("a;b;;c"), vec!["a", "b", "", "c"]);
    assert_eq!(split_paths(""), vec![""]);
    assert_eq!(split_paths(";"), vec!["", ""]);
    assert_eq!(split_paths("C:\\Java\\bin"), vec!["C:\\Java\\bin"]);
}

#[test]
fn substring_search() {
    assert!(str_contains("c:\\program files\\java\\jdk", "java"));
    assert!(!str_contains("c:\\windows", "java"));
    assert!(str_contains("java", "java"));
    assert!(str_contains("anything", ""));
    assert!(!str_contains("jav", "java"));
}

#[test]
fn filter_keeps_entries_with_java_in_any_case() {
    let entries = vec![
        "C:\\JAVA17".to_string(),
        "C:\\Temp".to_string(),
        "C:\\tools\\java\\bin".to_string(),
    ];
    let kept = filter_java_paths(&entries);
    assert_eq!(kept, vec!["C:\\JAVA17", "C:\\tools\\java\\bin"]);
}

#[test]
fn candidates_home_first_then_filtered_search_path() {
    let r = candidate_paths(
        Some("C:\\jdk".to_string()),
        Some("C:\\Windows;C:\\Java17\\bin;D:\\other".to_string()),
    );
    assert_eq!(r, vec!["C:\\jdk", "C:\\Java17\\bin"]);

    let r = candidate_paths(None, None);
    assert!(r.is_empty());

    let r = candidate_paths(None, Some("x;C:\\JavaSoft".to_string()));
    assert_eq!(r, vec!["C:\\JavaSoft"]);
}

#[test]
fn probes_in_search_order() {
    let dirs = vec!["C:\\Java17".to_string(), "C:\\Other".to_string()];
    let probes = probe_paths(&dirs, "javaw.exe");
    assert_eq!(
        probes,
        vec![
            "C:\\Java17\\javaw.exe",
            "C:\\Java17\\bin\\javaw.exe",
            "C:\\Other\\javaw.exe",
            "C:\\Other\\bin\\javaw.exe",
        ]
    );
}

#[test]
fn first_match_returns_first_set_flag() {
    let probes = vec!["a".to_string(), "b".to_string(), "c".to_string()];
    assert_eq!(
        first_match(&probes, &vec![false, true, true]),
        Some("b".to_string())
    );
    assert_eq!(first_match(&probes, &vec![false, false, false]), None);
}

#[test]
fn locator_finds_second_candidate_only() {
    let dirs = vec!["C:\\Java17".to_string(), "C:\\Other".to_string()];
    let existing = vec!["C:\\Other\\bin\\java.exe".to_string()];
    let found = locate_runtime(&dirs, "java.exe", &existing);
    assert_eq!(found, Some("C:\\Other\\bin\\java.exe".to_string()));
}

#[test]
fn locator_yields_none_when_nothing_exists() {
    let dirs = vec!["C:\\Java17".to_string()];
    let existing: Vec<String> = vec![];
    assert_eq!(locate_runtime(&dirs, "javaw.exe", &existing), None);
}

#[test]
fn explicit_runtime_preferred_over_detected() {
    let r = choose_runtime(
        Some("C:\\custom\\javaw.exe".to_string()),
        true,
        Some("C:\\auto\\javaw.exe".to_string()),
    );
    assert_eq!(r, Ok("C:\\custom\\javaw.exe".to_string()));
}

#[test]
fn invalid_explicit_runtime_fails_fast() {
    let r = choose_runtime(
        Some("C:\\gone\\javaw.exe".to_string()),
        false,
        Some("C:\\auto\\javaw.exe".to_string()),
    );
    assert_eq!(r, Err(LaunchError::JavaPathInvalid));
}

#[test]
fn detected_runtime_used_without_explicit_path() {
    let r = choose_runtime(None, true, Some("C:\\auto\\javaw.exe".to_string()));
    assert_eq!(r, Ok("C:\\auto\\javaw.exe".to_string()));
    let r = choose_runtime(None, true, None);
    assert_eq!(r, Err(LaunchError::JavaMissing));
}

#[test]
fn only_initial_heap_gives_one_flag() {
    let mut s = settings_all_unset();
    s.initial_heap_size = Some(256);
    assert_eq!(build_java_args(&s), vec!["-Xms256m"]);
}

#[test]
fn flag_order_with_all_settings() {
    let s = Settings {
        initial_heap_size: Some(128),
        maximum_heap_size: Some(2048),
        thread_stack_size: Some(4),
        java_path: None,
        java_args: Some(vec!["-Denv=prod".to_string(), "-ea".to_string()]),
        wurst_path: None,
    };
    assert_eq!(
        build_java_args(&s),
        vec!["-Xms128m", "-Xmx2048m", "-Xss4m", "-Denv=prod", "-ea"]
    );
}

#[test]
fn flag_order_with_subset() {
    let mut s = settings_all_unset();
    s.maximum_heap_size = Some(512);
    s.java_args = Some(vec!["-verbose".to_string()]);
    assert_eq!(build_java_args(&s), vec!["-Xmx512m", "-verbose"]);

    let mut s = settings_all_unset();
    s.thread_stack_size = Some(1);
    assert_eq!(build_java_args(&s), vec!["-Xss1m"]);

    assert!(build_java_args(&settings_all_unset()).is_empty());
}

#[test]
fn missing_config_gives_all_unset_settings() {
    let r = settings_of_outcome(LoadOutcome::Missing);
    let s = r.expect("an absent configuration file is not an error");
    assert_eq!(s.initial_heap_size, None);
    assert_eq!(s.maximum_heap_size, None);
    assert_eq!(s.thread_stack_size, None);
    assert_eq!(s.java_path, None);
    assert!(s.java_args.is_none());
    assert_eq!(s.wurst_path, None);
}

#[test]
fn malformed_config_is_fatal_with_status_one() {
    let r = settings_of_outcome(LoadOutcome::Malformed);
    match r {
        Err(e) => {
            assert_eq!(e, LaunchError::ConfigUnparsable);
            assert_eq!(e.exit_code(), 1);
            assert_eq!(e.message(), "Found wrapper config file but unable to parse.");
        }
        Ok(_) => panic!("a malformed configuration file must be fatal"),
    }
}

#[test]
fn parsed_config_is_kept_as_is() {
    let mut s = settings_all_unset();
    s.initial_heap_size = Some(64);
    s.wurst_path = Some("C:\\wurst".to_string());
    let r = settings_of_outcome(LoadOutcome::Parsed(s)).expect("parsed settings are kept");
    assert_eq!(r.initial_heap_size, Some(64));
    assert_eq!(r.wurst_path, Some("C:\\wurst".to_string()));
}

#[test]
fn path_validation_order_and_errors() {
    let mut s = settings_all_unset();
    s.java_path = Some("C:\\nope\\javaw.exe".to_string());
    s.wurst_path = Some("C:\\nope".to_string());
    assert_eq!(
        validate_settings(&s, false, false),
        Err(LaunchError::JavaPathInvalid)
    );
    assert_eq!(
        validate_settings(&s, true, false),
        Err(LaunchError::WurstPathInvalid)
    );
    assert_eq!(validate_settings(&s, true, true), Ok(()));
    assert_eq!(validate_settings(&settings_all_unset(), false, false), Ok(()));
}

#[test]
fn archive_path_precedence() {
    assert_eq!(
        archive_path(Some("C:\\wurst\\".to_string()), Some("C:\\Users\\me".to_string())),
        "C:\\wurst\\wurstscript.jar"
    );
    assert_eq!(
        archive_path(None, Some("C:\\Users\\me".to_string())),
        "C:\\Users\\me\\.wurst\\wurstscript.jar"
    );
    assert_eq!(archive_path(None, None), "wurstscript.jar");
}

#[test]
fn missing_archive_is_fatal() {
    let p = "C:\\w\\wurstscript.jar".to_string();
    assert_eq!(check_archive(p.clone(), true), Ok(p));
    let r = check_archive("wurstscript.jar".to_string(), false);
    match r {
        Err(e) => {
            assert_eq!(e, LaunchError::ArchiveMissing);
            assert_eq!(e.message(), "wurstscript.jar could not be found!");
            assert_eq!(e.exit_code(), 1);
        }
        Ok(_) => panic!("a missing archive must be fatal"),
    }
}

#[test]
fn forwarded_arguments_follow_archive_token() {
    let cmd = CommandSpec {
        java: "C:\\jdk\\bin\\javaw.exe".to_string(),
        flags: vec!["-Xms128m".to_string()],
        archive: "C:\\w\\wurstscript.jar".to_string(),
        forwarded: vec!["build".to_string(), "--release".to_string()],
    };
    let tokens = cmd.arg_tokens();
    assert_eq!(
        tokens,
        vec![
            "-Xms128m",
            "-jar",
            "C:\\w\\wurstscript.jar",
            "build",
            "--release",
        ]
    );
    let archive_at = tokens.iter().position(|t| t == "C:\\w\\wurstscript.jar").unwrap();
    assert_eq!(&tokens[archive_at + 1..], &["build", "--release"]);
}

#[test]
fn diagnostics_match_the_launcher() {
    assert_eq!(
        LaunchError::JavaPathInvalid.message(),
        "Found configured java path but file not found.  Consider commenting out or deleting java_path from your wrapper_config.toml to automatically detect a java path."
    );
    assert_eq!(
        LaunchError::WurstPathInvalid.message(),
        "Found configured wurst path but file not found.  Make sure the wurstscript.jar is inside the provided folder"
    );
    assert_eq!(LaunchError::JavaMissing.message(), "Failed to locate javaw.exe");
}

#[test]
fn child_exit_code_propagated_or_sentinel() {
    assert_eq!(child_exit_code(Some(0)), 0);
    assert_eq!(child_exit_code(Some(42)), 42);
    assert_eq!(child_exit_code(None), -1);
}
