//! Bootstrap idempotence, supervisor decisions, configuration and the
//! install command's arguments.

use pgrx_tests::bootstrap::BootstrapState;
use pgrx_tests::cargoargs::{
    install_command_args, join_with_spaces, merge_features, parse_cargo_test_features,
    plan_install_args, split_feature_value, split_ws_value,
};
use pgrx_tests::conf::conf_content;
use pgrx_tests::errors::FrameworkError;
use pgrx_tests::provision::{
    create_extension_statement, dropdb_failure_is_expected, normalize_extension_name,
    role_create_statement, role_grant_statement, role_lookup_statement, role_relax_statement,
    test_dbname,
};
use pgrx_tests::supervisor::{
    pgdata_dir_path, pid_file_path, pidfile_poll_decision, postmaster_args, valgrind_preamble,
    valgrind_suppressions_path, StartPoll, MAX_PIDFILE_RETRIES,
};

#[test]
fn bootstrap_runs_once_and_later_callers_observe_it() {
    let mut state = BootstrapState::new();
    assert!(state.needs_bootstrap());
    state.record_install_success("aa.1".to_string());
    assert!(!state.needs_bootstrap());
    assert_eq!(state.current_system_id(), "aa.1");
    assert!(!state.needs_bootstrap());
}

#[test]
fn fresh_bootstrap_reports_the_sentinel_session() {
    let state = BootstrapState::new();
    assert_eq!(state.current_system_id(), "NONE");
}

#[test]
fn pidfile_polling_proceeds_past_the_retry_bound() {
    assert_eq!(pidfile_poll_decision(true, MAX_PIDFILE_RETRIES + 1), StartPoll::Proceed);
    assert_eq!(pidfile_poll_decision(true, MAX_PIDFILE_RETRIES), StartPoll::WaitAndRetry);
    assert_eq!(pidfile_poll_decision(true, 0), StartPoll::WaitAndRetry);
    assert_eq!(pidfile_poll_decision(false, 0), StartPoll::Proceed);
}

#[test]
fn postmaster_arguments_are_exact() {
    let args = postmaster_args("/data/pg16", "localhost", 28816);
    assert_eq!(
        args,
        vec![
            "-D",
            "/data/pg16",
            "-h",
            "localhost",
            "-p",
            "28816",
            "-c",
            "log_destination=stderr",
            "-c",
            "logging_collector=off",
        ]
    );
}

#[test]
fn valgrind_preamble_lists_the_fixed_flags_and_optional_suppressions() {
    let bare = valgrind_preamble(None);
    assert_eq!(
        bare,
        vec![
            "--leak-check=no",
            "--gen-suppressions=all",
            "--time-stamp=yes",
            "--error-markers=VALGRINDERROR-BEGIN,VALGRINDERROR-END",
            "--trace-children=yes",
        ]
    );
    let path = "/home/u/.pgrx/16/src/tools/valgrind.supp".to_string();
    let with = valgrind_preamble(Some(&path));
    assert_eq!(with.len(), 6);
    assert_eq!(
        with[5],
        "--suppressions=/home/u/.pgrx/16/src/tools/valgrind.supp"
    );
}

#[test]
fn supervisor_paths_are_exact() {
    assert_eq!(pgdata_dir_path("/target", 16), "/target/pgrx-test-data-16");
    assert_eq!(pid_file_path("/target/pgrx-test-data-16"), "/target/pgrx-test-data-16/postmaster.pid");
    assert_eq!(
        valgrind_suppressions_path("/home/u/.pgrx", "16.2"),
        "/home/u/.pgrx/16.2/src/tools/valgrind.supp"
    );
}

#[test]
fn injected_configuration_keeps_the_wire_contract_first() {
    let settings = vec!["shared_preload_libraries='x'".to_string()];
    let content = conf_content(&settings, "/home/u/.pgrx");
    assert_eq!(
        content,
        "log_line_prefix='[%m] [%p] [%c]: '\nshared_preload_libraries='x'\nunix_socket_directories = '/home/u/.pgrx'"
    );
}

#[test]
fn feature_value_splits_on_whitespace_and_commas_keeping_empties() {
    assert_eq!(split_feature_value("a, b"), vec!["a", "", "b"]);
    assert_eq!(split_feature_value("a b"), vec!["a", "b"]);
    assert_eq!(split_feature_value("one"), vec!["one"]);
}

#[test]
fn environment_features_split_on_whitespace_dropping_empties() {
    assert_eq!(split_ws_value("  a \t b  "), vec!["a", "b"]);
    assert!(split_ws_value("").is_empty());
}

#[test]
fn cargo_arguments_yield_their_feature_flags() {
    let args: Vec<String> = ["cargo", "test", "--features", "foo bar", "--all-features"]
        .iter()
        .map(|s| s.to_string())
        .collect();
    let features = parse_cargo_test_features(&args).unwrap();
    assert_eq!(features.features, vec!["foo", "bar"]);
    assert!(!features.no_default_features);
    assert!(features.all_features);
}

#[test]
fn trailing_features_flag_is_an_error() {
    let args: Vec<String> = ["cargo", "test", "--features"].iter().map(|s| s.to_string()).collect();
    let err = parse_cargo_test_features(&args).unwrap_err();
    assert_eq!(err, FrameworkError::MissingFeatureList);
    assert_eq!(err.describe(), "no `--features` specified in the cargo argument list");
}

#[test]
fn merged_features_keep_first_occurrences_only() {
    let env: Vec<String> = vec!["a".to_string(), "pg_test".to_string()];
    let cargo: Vec<String> = vec!["b".to_string(), "a".to_string()];
    assert_eq!(merge_features(&env, &cargo), vec!["a", "pg_test", "b"]);
}

#[test]
fn mandatory_test_feature_is_always_merged_in() {
    let none: Vec<String> = Vec::new();
    assert_eq!(merge_features(&none, &none), vec!["pg_test"]);
}

#[test]
fn space_join_has_no_trailing_separator() {
    let fields: Vec<String> = vec!["a".to_string(), "b".to_string()];
    assert_eq!(join_with_spaces(&fields), "a b");
    assert_eq!(join_with_spaces(&vec!["solo".to_string()]), "solo");
    assert_eq!(join_with_spaces(&Vec::new()), "");
}

#[test]
fn install_arguments_are_exact_for_a_release_build() {
    let features: Vec<String> = vec!["pg_test".to_string(), "extra".to_string()];
    let manifest = "/work/Cargo.toml".to_string();
    let args = install_command_args(
        "/usr/bin/pg_config",
        Some(&manifest),
        &features,
        true,
        false,
        "release",
        true,
    );
    assert_eq!(
        args,
        vec![
            "install",
            "--test",
            "--pg-config",
            "/usr/bin/pg_config",
            "--manifest-path",
            "/work/Cargo.toml",
            "--features",
            "pg_test extra",
            "--no-default-features",
            "--release",
            "--no-schema",
        ]
    );
}

#[test]
fn debug_profiles_add_no_profile_arguments() {
    let features: Vec<String> = Vec::new();
    for profile in ["debug", "dev", ""] {
        let args = install_command_args("/pgc", None, &features, false, false, profile, false);
        assert_eq!(args, vec!["install", "--test", "--pg-config", "/pgc"]);
    }
}

#[test]
fn named_profiles_are_selected_explicitly() {
    let features: Vec<String> = Vec::new();
    let args = install_command_args("/pgc", None, &features, false, false, "bench", false);
    assert_eq!(
        args,
        vec!["install", "--test", "--pg-config", "/pgc", "--profile", "bench"]
    );
}

#[test]
fn install_plan_combines_environment_and_cargo_sources() {
    let cargo_args: Vec<String> = ["cargo", "test", "--no-default-features"]
        .iter()
        .map(|s| s.to_string())
        .collect();
    let args = plan_install_args("/pgc", None, "extra", false, false, "debug", false, &cargo_args)
        .unwrap();
    assert_eq!(
        args,
        vec![
            "install",
            "--test",
            "--pg-config",
            "/pgc",
            "--features",
            "extra pg_test",
            "--no-default-features",
        ]
    );
}

#[test]
fn install_plan_propagates_the_feature_list_error() {
    let cargo_args: Vec<String> = ["cargo", "test", "--features"].iter().map(|s| s.to_string()).collect();
    let err = plan_install_args("/pgc", None, "", false, false, "debug", false, &cargo_args);
    assert_eq!(err.unwrap_err(), FrameworkError::MissingFeatureList);
}

#[test]
fn provisioning_statements_are_exact() {
    assert_eq!(test_dbname(), "pgrx_tests");
    assert_eq!(create_extension_statement("my_ext"), "CREATE EXTENSION my_ext CASCADE;");
    assert_eq!(role_lookup_statement(), "SELECT rolname FROM pg_roles WHERE rolname = 'pgrx'");
    assert_eq!(role_create_statement(), "CREATE ROLE pgrx WITH NOSUPERUSER LOGIN");
    assert_eq!(role_relax_statement(), "ALTER ROLE pgrx WITH NOSUPERUSER LOGIN");
    assert_eq!(role_grant_statement(), "GRANT USAGE ON SCHEMA auth TO pgrx");
}

#[test]
fn dropping_a_database_that_never_existed_is_tolerated() {
    let stderr = "dropdb: error: ERROR:  database \"pgrx_tests\" does not exist\n";
    assert!(dropdb_failure_is_expected(stderr, "pgrx_tests"));
    assert!(!dropdb_failure_is_expected("dropdb: connection refused", "pgrx_tests"));
    assert!(!dropdb_failure_is_expected(stderr, "other_db"));
}

#[test]
fn extension_names_swap_dashes_for_underscores() {
    assert_eq!(normalize_extension_name("my-ext-name"), "my_ext_name");
    assert_eq!(normalize_extension_name("plain"), "plain");
}
