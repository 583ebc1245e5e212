use vdev_show::config::{IntegrationTestConfig, RunnerConfig};
use vdev_show::envmap::Environment;
use vdev_show::errors::ShowError;
use vdev_show::loader::{collect_all, load, load_source, ConfigSource, SourceLookup};
use vdev_show::render::{render_entry, render_env_lines, render_volume_lines};
use vdev_show::state::{EnvsDir, StateRead};
use vdev_show::view::{detail, environment_labels, join_strings, summary, summary_width};

fn s(text: &str) -> String {
    text.to_string()
}

fn empty_source() -> ConfigSource {
    ConfigSource {
        args: vec![],
        env: vec![],
        runner_env: vec![],
        volumes: vec![],
        needs_docker_socket: false,
        environments: vec![],
    }
}

fn api_source() -> ConfigSource {
    ConfigSource {
        args: vec![s("--all"), s("--quiet")],
        env: vec![(s("RUST_LOG"), Some(s("info"))), (s("HOME"), None)],
        runner_env: vec![(s("RUNNER_MODE"), Some(s("ci")))],
        volumes: vec![(s("/var/run"), s("/host/run"))],
        needs_docker_socket: true,
        environments: vec![(s("dev"), vec![]), (s("staging"), vec![])],
    }
}

fn api_config() -> IntegrationTestConfig {
    load_source(&s("api"), api_source()).expect("api source loads")
}

#[test]
fn empty_map_is_empty_and_iterates_nothing() {
    let env = Environment::new();
    assert!(env.is_empty());
    assert_eq!(env.len(), 0);
    assert_eq!(env.entries().len(), 0);
}

#[test]
fn nonempty_map_is_not_empty_and_iterates_all_pairs() {
    let env = Environment::from_entries(vec![
        (s("A"), Some(s("1"))),
        (s("B"), None),
    ])
    .expect("unique keys");
    assert!(!env.is_empty());
    assert_eq!(env.len(), 2);
    let entries = env.entries();
    assert_eq!(entries[0], (s("A"), Some(s("1"))));
    assert_eq!(entries[1], (s("B"), None));
}

#[test]
fn duplicate_keys_are_rejected() {
    let r = Environment::from_entries(vec![
        (s("A"), Some(s("1"))),
        (s("A"), None),
    ]);
    assert!(r.is_none());
}

#[test]
fn present_value_renders_with_equals_and_quotes() {
    assert_eq!(render_entry(&s("KEY"), &Some(s("a b"))), "KEY=\"a b\"");
    assert_eq!(render_entry(&s("KEY"), &Some(s("x\"y"))), "KEY=\"x\\\"y\"");
    assert_eq!(render_entry(&s("KEY"), &Some(s(""))), "KEY=\"\"");
}

#[test]
fn absent_value_renders_as_passthrough() {
    assert_eq!(render_entry(&s("HOME"), &None), "HOME (passthrough)");
}

#[test]
fn empty_env_renders_explicit_na_line() {
    let env = Environment::new();
    assert_eq!(render_env_lines("  ", &env), vec![s("  N/A")]);
}

#[test]
fn env_lines_follow_declaration_order() {
    let env = Environment::from_entries(vec![
        (s("RUST_LOG"), Some(s("info"))),
        (s("HOME"), None),
    ])
    .expect("unique keys");
    assert_eq!(
        render_env_lines("    ", &env),
        vec![s("    RUST_LOG=\"info\""), s("    HOME (passthrough)")]
    );
}

#[test]
fn empty_volumes_render_explicit_na_line() {
    assert_eq!(render_volume_lines("    ", &vec![]), vec![s("    N/A")]);
}

#[test]
fn volumes_render_target_arrow_source() {
    let volumes = vec![(s("/var/run"), s("/host/run")), (s("/data"), s("/tmp/data"))];
    assert_eq!(
        render_volume_lines("    ", &volumes),
        vec![s("    /var/run => /host/run"), s("    /data => /tmp/data")]
    );
}

#[test]
fn never_activated_integration_reads_absent_not_error() {
    let envs_dir = EnvsDir::new(&s("api"), StateRead::NoRecord);
    assert_eq!(envs_dir.active(), Ok(None));
}

#[test]
fn recorded_activation_reads_back() {
    let envs_dir = EnvsDir::new(&s("api"), StateRead::Active(s("staging")));
    assert_eq!(envs_dir.active(), Ok(Some(s("staging"))));
}

#[test]
fn unreadable_state_is_an_error_with_context() {
    let envs_dir = EnvsDir::new(&s("api"), StateRead::Unreadable(s("bad json")));
    let e = envs_dir.active().expect_err("unreadable state");
    assert_eq!(
        e,
        ShowError::StateReadError { integration: s("api"), cause: s("bad json") }
    );
    assert_eq!(
        e.message(),
        "integration api: cannot read active-environment state: bad json"
    );
}

#[test]
fn width_is_sixteen_for_short_names() {
    let entries = vec![(s("api"), api_config())];
    assert_eq!(summary_width(&entries), 16);
    let no_entries: Vec<(String, IntegrationTestConfig)> = vec![];
    assert_eq!(summary_width(&no_entries), 16);
}

#[test]
fn width_grows_to_longest_name() {
    let long = s("a-very-long-integration-name");
    let entries = vec![(s("api"), api_config()), (long.clone(), api_config())];
    assert_eq!(summary_width(&entries), long.len());
}

#[test]
fn active_name_gets_active_suffix() {
    assert_eq!(vdev_show::view::format(&Some(s("staging")), "staging"), "staging (active)");
}

#[test]
fn other_names_stay_unsuffixed() {
    assert_eq!(vdev_show::view::format(&Some(s("staging")), "dev"), "dev");
    assert_eq!(vdev_show::view::format(&None, "dev"), "dev");
    assert_eq!(vdev_show::view::format(&Some(s("Dev")), "dev"), "dev");
}

#[test]
fn labels_join_with_two_spaces() {
    let labels = vec![s("dev"), s("staging (active)")];
    assert_eq!(join_strings(&labels, "  "), "dev  staging (active)");
    assert_eq!(join_strings(&vec![], "  "), "");
    assert_eq!(join_strings(&vec![s("dev")], "  "), "dev");
}

#[test]
fn summary_row_for_api_labels_staging_active() {
    let entries = vec![(s("api"), api_config())];
    let view = summary(&entries, vec![StateRead::Active(s("staging"))])
        .expect("state readable");
    assert_eq!(view.width, 16);
    assert_eq!(view.rows.len(), 1);
    assert_eq!(view.rows[0].integration, "api");
    assert_eq!(view.rows[0].environments, "dev  staging (active)");
}

#[test]
fn summary_without_activation_labels_nothing_active() {
    let entries = vec![(s("api"), api_config())];
    let view = summary(&entries, vec![StateRead::NoRecord]).expect("state readable");
    assert_eq!(view.rows[0].environments, "dev  staging");
}

#[test]
fn summary_aborts_on_unreadable_state() {
    let entries = vec![(s("api"), api_config())];
    let e = summary(&entries, vec![StateRead::Unreadable(s("corrupt"))])
        .expect_err("unreadable state");
    assert_eq!(
        e,
        ShowError::StateReadError { integration: s("api"), cause: s("corrupt") }
    );
}

#[test]
fn detail_for_api_exposes_configuration_and_labels() {
    let lookup = SourceLookup::Found(s("tests/api"), api_source());
    let v = detail(&s("api"), lookup, StateRead::Active(s("staging")))
        .expect("valid source and state");
    assert_eq!(v.location, "tests/api");
    assert_eq!(v.args, vec![s("--all"), s("--quiet")]);
    assert_eq!(v.env.entries().len(), 2);
    assert_eq!(v.runner.env.entries().len(), 1);
    assert_eq!(v.runner.volumes, vec![(s("/var/run"), s("/host/run"))]);
    assert!(v.runner.needs_docker_socket);
    assert_eq!(v.active_env, Some(s("staging")));
    assert_eq!(v.environment_labels, vec![s("dev"), s("staging (active)")]);
}

#[test]
fn detail_for_batch_shows_no_environments_and_no_active() {
    let lookup = SourceLookup::Found(s("tests/batch"), empty_source());
    let v = detail(&s("batch"), lookup, StateRead::NoRecord).expect("valid source");
    assert!(v.environment_labels.is_empty());
    assert_eq!(v.active_env, None);
}

#[test]
fn detail_for_unknown_integration_is_not_found() {
    let e = detail(&s("unknown"), SourceLookup::Missing, StateRead::NoRecord)
        .expect_err("missing source");
    assert_eq!(e, ShowError::NotFound { integration: s("unknown") });
    assert_eq!(e.message(), "integration unknown: no configuration source found");
}

#[test]
fn loading_same_source_twice_is_identical() {
    let source = api_source();
    let (loc1, c1) = load(&s("api"), SourceLookup::Found(s("tests/api"), source.clone()))
        .expect("valid source");
    let (loc2, c2) = load(&s("api"), SourceLookup::Found(s("tests/api"), source))
        .expect("valid source");
    assert_eq!(loc1, loc2);
    assert_eq!(c1, c2);
}

#[test]
fn undecodable_source_keeps_its_cause() {
    let e = load(&s("api"), SourceLookup::Malformed(s("bad toml at line 3")))
        .expect_err("malformed source");
    assert_eq!(
        e,
        ShowError::ParseError { integration: s("api"), cause: s("bad toml at line 3") }
    );
    assert_eq!(
        e.message(),
        "integration api: malformed configuration source: bad toml at line 3"
    );
}

#[test]
fn duplicate_base_key_fails_to_load() {
    let mut source = empty_source();
    source.env = vec![(s("A"), None), (s("A"), Some(s("1")))];
    let e = load_source(&s("api"), source).expect_err("duplicate key");
    assert_eq!(
        e,
        ShowError::ParseError {
            integration: s("api"),
            cause: s("duplicate variable key, or empty or repeated environment name"),
        }
    );
}

#[test]
fn duplicate_runner_key_fails_to_load() {
    let mut source = empty_source();
    source.runner_env = vec![(s("M"), None), (s("M"), None)];
    assert!(load_source(&s("api"), source).is_err());
}

#[test]
fn empty_environment_name_fails_to_load() {
    let mut source = empty_source();
    source.environments = vec![(s(""), vec![])];
    assert!(load_source(&s("api"), source).is_err());
}

#[test]
fn repeated_environment_name_fails_to_load() {
    let mut source = empty_source();
    source.environments = vec![(s("dev"), vec![]), (s("dev"), vec![])];
    assert!(load_source(&s("api"), source).is_err());
}

#[test]
fn duplicate_override_key_fails_to_load() {
    let mut source = empty_source();
    source.environments = vec![(s("dev"), vec![(s("K"), None), (s("K"), None)])];
    assert!(load_source(&s("api"), source).is_err());
}

#[test]
fn loaded_configuration_reflects_the_source() {
    let config = api_config();
    assert_eq!(config.args, vec![s("--all"), s("--quiet")]);
    assert_eq!(
        config.env.entries(),
        &vec![(s("RUST_LOG"), Some(s("info"))), (s("HOME"), None)]
    );
    assert_eq!(
        config.runner.env.entries(),
        &vec![(s("RUNNER_MODE"), Some(s("ci")))]
    );
    assert!(config.runner.needs_docker_socket);
    let environments = config.environments();
    assert_eq!(environments.len(), 2);
    assert_eq!(environments[0].0, "dev");
    assert_eq!(environments[1].0, "staging");
}

#[test]
fn collect_all_maps_every_valid_integration() {
    let found = vec![
        (s("api"), SourceLookup::Found(s("tests/api"), api_source())),
        (s("batch"), SourceLookup::Found(s("tests/batch"), empty_source())),
    ];
    let m = collect_all(found).expect("all valid");
    assert_eq!(m.len(), 2);
    assert_eq!(m[0].0, "api");
    assert_eq!(m[1].0, "batch");
    assert_eq!(m[0].1, api_config());
}

#[test]
fn collect_all_aborts_on_a_missing_source() {
    let found = vec![
        (s("api"), SourceLookup::Found(s("tests/api"), api_source())),
        (s("ghost"), SourceLookup::Missing),
    ];
    let e = collect_all(found).expect_err("one missing");
    assert_eq!(e, ShowError::NotFound { integration: s("ghost") });
}

#[test]
fn direct_construction_rejects_bad_environment_names() {
    let runner = RunnerConfig {
        env: Environment::new(),
        volumes: vec![],
        needs_docker_socket: false,
    };
    let bad = IntegrationTestConfig::new(
        vec![],
        Environment::new(),
        runner,
        vec![(s("dev"), Environment::new()), (s("dev"), Environment::new())],
    );
    assert!(bad.is_none());

    let runner = RunnerConfig {
        env: Environment::new(),
        volumes: vec![],
        needs_docker_socket: false,
    };
    let good = IntegrationTestConfig::new(
        vec![],
        Environment::new(),
        runner,
        vec![(s("dev"), Environment::new())],
    )
    .expect("valid names");
    assert_eq!(good.environments().len(), 1);
}

#[test]
fn collect_all_reports_the_first_failure() {
    let found = vec![
        (s("alpha"), SourceLookup::Malformed(s("bad json"))),
        (s("beta"), SourceLookup::Missing),
    ];
    let e = collect_all(found).expect_err("two failures");
    assert_eq!(
        e,
        ShowError::ParseError { integration: s("alpha"), cause: s("bad json") }
    );
}

#[test]
fn summary_reports_the_first_unreadable_state() {
    let entries = vec![(s("api"), api_config()), (s("batch"), api_config())];
    let reads = vec![
        StateRead::Unreadable(s("first")),
        StateRead::Unreadable(s("second")),
    ];
    let e = summary(&entries, reads).expect_err("unreadable states");
    assert_eq!(
        e,
        ShowError::StateReadError { integration: s("api"), cause: s("first") }
    );
}

#[test]
fn environment_labels_follow_declared_order() {
    let config = api_config();
    let labels = environment_labels(&Some(s("dev")), config.environments());
    assert_eq!(labels, vec![s("dev (active)"), s("staging")]);
}
