use greentic_config::defaults::default_layer;
use greentic_config::domain::base_domain_ok;
use greentic_config::env::{
    apply_env_var, env_layer_from, load_env_layers_detailed_from, parse_u16_warn, EnvVar, FloatReading,
};
use greentic_config::explain::{decimal, explain_detailed, explain, render_record, render_source};
use greentic_config::layers::{
    ConfigLayer, EnvironmentLayer, NetworkLayer, PackSourceLayer, PacksLayer, PathsLayer, TelemetryLayer,
};
use greentic_config::merge::{MergeState, MergeStateDetailed, ProvenanceCtx};
use greentic_config::numbers::{parse_bool, parse_u16, parse_u32, parse_u64};
use greentic_config::overrides::{transport_to_layer, CliOverrides};
use greentic_config::paths::{discover_project_root, is_absolute, join, make_absolute, DefaultPaths};
use greentic_config::provenance::{ConfigSource, PathMap, ProvenancePath, ProvenanceRecord};
use greentic_config::resolve::{parse_exporter, parse_tls_mode, MergeError};
use greentic_config::resolver::{ConfigResolver, ResolveError};
use greentic_config::types::{
    ConnectionKind, EnvId, F32Bits, F64Bits, PackSourceConfig, ServiceTransportConfig, TelemetryExporterKind,
    TlsMode,
};
use greentic_config::validate::{is_dev_env, is_local_url, validate_config, ValidationError};
use greentic_config::weburl::Url;

const ROOT: &str = "/srv/greentic-project";

fn var(key: &str, value: &str) -> EnvVar {
    EnvVar { key: key.to_string(), value: value.to_string(), float: None }
}

fn float_var(key: &str, value: &str, x: f32) -> EnvVar {
    EnvVar {
        key: key.to_string(),
        value: value.to_string(),
        float: Some(FloatReading { as_f32: F32Bits(x.to_bits()), as_f64: F64Bits((x as f64).to_bits()) }),
    }
}

fn finalize_one(layer: ConfigLayer, source: ConfigSource) -> Result<greentic_config::types::GreenticConfig, MergeError> {
    let defaults = DefaultPaths::from_root(ROOT);
    let mut merged = MergeState::new(default_layer(ROOT, &defaults), ConfigSource::Default);
    merged.apply(layer, source);
    merged.finalize(&defaults).map(|(c, _, _)| c)
}

#[test]
fn numbers_parse_like_std() {
    for s in ["0", "7", "+42", "65535", "65536", "", "+", "-1", " 1", "1 ", "12a", "007", "18446744073709551615", "18446744073709551616"] {
        assert_eq!(parse_u64(s), s.parse::<u64>().ok(), "u64 {s:?}");
        assert_eq!(parse_u32(s), s.parse::<u32>().ok(), "u32 {s:?}");
        assert_eq!(parse_u16(s), s.parse::<u16>().ok(), "u16 {s:?}");
    }
}

#[test]
fn bool_words_ignore_ascii_case() {
    for s in ["1", "true", "TRUE", "Yes", "on"] {
        assert_eq!(parse_bool(s), Some(true));
    }
    for s in ["0", "false", "No", "OFF"] {
        assert_eq!(parse_bool(s), Some(false));
    }
    for s in ["", "2", "enabled", "tru", " true"] {
        assert_eq!(parse_bool(s), None);
    }
}

#[test]
fn bad_port_is_ignored_with_warning() {
    let mut warnings = Vec::new();
    assert_eq!(parse_u16_warn("8080", "GREENTIC_SERVICES_RUNNER_PORT", &mut warnings), Some(8080));
    assert!(warnings.is_empty());
    assert_eq!(parse_u16_warn("70000", "GREENTIC_SERVICES_RUNNER_PORT", &mut warnings), None);
    assert_eq!(warnings, vec!["Ignored GREENTIC_SERVICES_RUNNER_PORT: expected u16 but got '70000'".to_string()]);
}

#[test]
fn base_domain_rules() {
    for ok in ["deploy.greentic.ai", "localhost", "a.b", "x-1.example.com", "  example.com  "] {
        assert!(base_domain_ok(ok), "{ok}");
    }
    for bad in ["", "   ", "https://bad-domain", "-a.com", "a-.com", "a..com", "a_b.com", "exa mple.com"] {
        assert!(!base_domain_ok(bad), "{bad}");
    }
    let long_label = format!("{}.com", "a".repeat(64));
    assert!(!base_domain_ok(&long_label));
    let max_label = format!("{}.com", "a".repeat(63));
    assert!(base_domain_ok(&max_label));
}

#[test]
fn urls_are_normalised_by_the_url_crate() {
    let u = Url::parse("https://cli.example.com").unwrap();
    assert_eq!(u.to_string(), "https://cli.example.com/");
    assert_eq!(u.as_str(), "https://cli.example.com/");
    assert_eq!(u.host_str(), Some("cli.example.com"));
    assert!(Url::parse("not a url").is_err());
}

#[test]
fn local_urls_are_recognised() {
    assert!(is_local_url(&Url::parse("http://localhost:4317").unwrap()));
    assert!(is_local_url(&Url::parse("http://127.0.0.1:4317").unwrap()));
    // The host of an IPv6 URL keeps its brackets, so it does not parse as an IP address.
    assert!(!is_local_url(&Url::parse("http://[::1]:4317").unwrap()));
    assert!(!is_local_url(&Url::parse("https://otlp.example.com:4317").unwrap()));
    assert!(!is_local_url(&Url::parse("http://10.0.0.1").unwrap()));
}

#[test]
fn dev_environments_are_recognised() {
    assert!(is_dev_env(&EnvId("dev".into())));
    assert!(is_dev_env(&EnvId("local-dev".into())));
    assert!(!is_dev_env(&EnvId("prod".into())));
    assert!(!is_dev_env(&EnvId("staging".into())));
}

#[test]
fn paths_join_and_absolutise() {
    assert!(is_absolute("/a/b"));
    assert!(!is_absolute("a/b"));
    assert_eq!(join("/a", "b"), "/a/b");
    assert_eq!(join("/a/", "b"), "/a/b");
    assert_eq!(join("/a", "/b"), "/b");
    assert_eq!(make_absolute("rel/x".to_string(), "/root"), "/root/rel/x");
    assert_eq!(make_absolute("/abs/x".to_string(), "/root"), "/abs/x");
    let d = DefaultPaths::from_root("/p");
    assert_eq!(d.state_dir, "/p/.greentic");
    assert_eq!(d.cache_dir, "/p/.greentic/cache");
    assert_eq!(d.logs_dir, "/p/.greentic/logs");
}

#[test]
fn discovery_walks_up_to_the_filesystem_root() {
    let found = discover_project_root("/no-such-greentic-dir/a/b/c");
    if let Some(root) = found {
        assert!("/no-such-greentic-dir/a/b/c".starts_with(&root));
    }
}

#[test]
fn defaults_resolve_to_the_documented_layout() {
    let c = finalize_one(ConfigLayer::default(), ConfigSource::Project).unwrap();
    assert_eq!(c.schema_version.0, "1");
    assert_eq!(c.environment.env_id.0, "dev");
    assert_eq!(c.paths.greentic_root, ROOT);
    assert_eq!(c.paths.state_dir, format!("{ROOT}/.greentic"));
    assert_eq!(c.paths.cache_dir, format!("{ROOT}/.greentic/cache"));
    assert_eq!(c.paths.logs_dir, format!("{ROOT}/.greentic/logs"));
    assert_eq!(c.telemetry.exporter, TelemetryExporterKind::NoExporter);
    assert_eq!(c.telemetry.sampling, F32Bits(1.0f32.to_bits()));
    assert_eq!(c.network.tls_mode, TlsMode::System);
    assert_eq!(c.secrets.kind, "none");
    let packs = c.packs.unwrap();
    assert_eq!(packs.cache_dir, format!("{ROOT}/.greentic/cache/packs"));
    assert_eq!(packs.source, PackSourceConfig::LocalIndex { path: format!("{ROOT}/.greentic/packs/index.json") });
    assert!(validate_config(&finalize_one(ConfigLayer::default(), ConfigSource::Project).unwrap(), false).is_ok());
}

#[test]
fn unknown_exporter_and_tls_mode_fall_back_with_warnings() {
    let (kind, warning) = parse_exporter(Some("otlp".into()));
    assert_eq!(kind, TelemetryExporterKind::Otlp);
    assert!(warning.is_none());
    let (kind, warning) = parse_exporter(Some("carrier-pigeon".into()));
    assert_eq!(kind, TelemetryExporterKind::NoExporter);
    assert!(warning.unwrap().contains("carrier-pigeon"));
    let (kind, warning) = parse_exporter(None);
    assert_eq!(kind, TelemetryExporterKind::NoExporter);
    assert!(warning.is_none());

    let (mode, warning) = parse_tls_mode(Some("strict".into()));
    assert_eq!(mode, TlsMode::Strict);
    assert!(warning.is_none());
    let (mode, warning) = parse_tls_mode(Some("paranoid".into()));
    assert_eq!(mode, TlsMode::System);
    assert!(warning.unwrap().contains("paranoid"));
}

#[test]
fn pack_sources_without_location_are_merge_errors() {
    let http = ConfigLayer {
        packs: Some(PacksLayer { source: Some(PackSourceLayer::HttpIndex { url: None }), ..Default::default() }),
        ..Default::default()
    };
    assert_eq!(finalize_one(http, ConfigSource::Project).unwrap_err(), MergeError::PackSourceMissingUrl);
    let oci = ConfigLayer {
        packs: Some(PacksLayer { source: Some(PackSourceLayer::OciRegistry { reference: None }), ..Default::default() }),
        ..Default::default()
    };
    assert_eq!(finalize_one(oci, ConfigSource::Project).unwrap_err(), MergeError::PackSourceMissingReference);
    assert!(MergeError::PackSourceMissingUrl.message().contains("url"));
}

#[test]
fn later_layer_wins_and_unset_leaves_keep_earlier_values() {
    let defaults = DefaultPaths::from_root(ROOT);
    let mut merged = MergeState::new(default_layer(ROOT, &defaults), ConfigSource::Default);
    merged.apply(
        ConfigLayer {
            paths: Some(PathsLayer { logs_dir: Some("/var/log/user".into()), ..Default::default() }),
            telemetry: Some(TelemetryLayer { exporter: Some("stdout".into()), ..Default::default() }),
            ..Default::default()
        },
        ConfigSource::User,
    );
    merged.apply(
        ConfigLayer {
            telemetry: Some(TelemetryLayer { exporter: Some("otlp".into()), ..Default::default() }),
            ..Default::default()
        },
        ConfigSource::Project,
    );
    let (c, p, _) = merged.finalize(&defaults).unwrap();
    assert_eq!(c.paths.logs_dir, "/var/log/user");
    assert_eq!(c.telemetry.exporter, TelemetryExporterKind::Otlp);
    assert_eq!(p.get(&ProvenancePath("paths.logs_dir".into())).cloned(), Some(ConfigSource::User));
    assert_eq!(p.get(&ProvenancePath("telemetry.exporter".into())).cloned(), Some(ConfigSource::Project));
    assert_eq!(p.get(&ProvenancePath("paths.state_dir".into())).cloned(), Some(ConfigSource::Default));
    assert_eq!(p.get(&ProvenancePath("no.such.leaf".into())), None);
}

#[test]
fn applying_the_same_layer_twice_changes_nothing() {
    let defaults = DefaultPaths::from_root(ROOT);
    let layer = ConfigLayer {
        network: Some(NetworkLayer { tls_mode: Some("strict".into()), connect_timeout_ms: Some(5), ..Default::default() }),
        ..Default::default()
    };
    let mut once = MergeState::new(default_layer(ROOT, &defaults), ConfigSource::Default);
    once.apply(layer.clone(), ConfigSource::Project);
    let mut twice = MergeState::new(default_layer(ROOT, &defaults), ConfigSource::Default);
    twice.apply(layer.clone(), ConfigSource::Project);
    twice.apply(layer, ConfigSource::Project);
    let a = once.finalize(&defaults).unwrap().0;
    let b = twice.finalize(&defaults).unwrap().0;
    assert_eq!(a, b);
    assert_eq!(a.network.tls_mode, TlsMode::Strict);
    assert_eq!(a.network.connect_timeout_ms, Some(5));
}

#[test]
fn path_map_keeps_the_last_value() {
    let mut m: PathMap<ConfigSource> = PathMap::new();
    assert!(m.is_empty());
    m.insert(ProvenancePath("a".into()), ConfigSource::User);
    m.insert(ProvenancePath("b".into()), ConfigSource::Project);
    m.insert(ProvenancePath("a".into()), ConfigSource::Cli);
    assert!(!m.is_empty());
    assert_eq!(m.get(&ProvenancePath("a".into())).cloned(), Some(ConfigSource::Cli));
    assert_eq!(m.get(&ProvenancePath("b".into())).cloned(), Some(ConfigSource::Project));
    assert_eq!(m.records().len(), 3);
}

#[test]
fn environment_variables_map_to_leaves() {
    let vars = vec![
        var("GREENTIC_ENVIRONMENT_ENV_ID", "staging"),
        var("GREENTIC_ENVIRONMENT_CONNECTION", "offline"),
        var("GREENTIC_TELEMETRY_EXPORTER", "OTLP"),
        var("GREENTIC_NETWORK_TLS_MODE", "Strict"),
        var("GREENTIC_SERVICES_RUNNER_KIND", "HTTP"),
        var("GREENTIC_SERVICES_RUNNER_URL", "https://runner.example.com"),
        var("GREENTIC_SERVICES_RUNNER_PORT", "not-a-port"),
        var("GREENTIC_RUNTIME_MAX_CONCURRENCY", "16"),
        var("GREENTIC_EVENTS_RECONNECT_ENABLED", "yes"),
        float_var("GREENTIC_TELEMETRY_SAMPLING", "0.25", 0.25),
        float_var("GREENTIC_EVENTS_BACKOFF_MULTIPLIER", "1.5", 1.5),
        var("UNRELATED", "x"),
        var("GREENTIC_NOT_A_SETTING", "x"),
    ];
    let (layer, warnings) = env_layer_from(&vars);
    assert_eq!(warnings, vec!["Ignored GREENTIC_SERVICES_RUNNER_PORT: expected u16 but got 'not-a-port'".to_string()]);
    let env = layer.environment.clone().unwrap();
    assert_eq!(env.env_id, Some(EnvId("staging".into())));
    assert_eq!(env.connection, Some(ConnectionKind::Offline));
    let telemetry = layer.telemetry.clone().unwrap();
    assert_eq!(telemetry.exporter.as_deref(), Some("otlp"));
    assert_eq!(telemetry.sampling, Some(F32Bits(0.25f32.to_bits())));
    assert_eq!(layer.network.clone().unwrap().tls_mode.as_deref(), Some("strict"));
    let runner = layer.services.clone().unwrap().runner.unwrap();
    assert_eq!(runner.transport.kind.as_deref(), Some("http"));
    assert_eq!(runner.transport.url.unwrap().as_str(), "https://runner.example.com/");
    assert_eq!(layer.runtime.clone().unwrap().max_concurrency, Some(16));
    assert_eq!(layer.events.clone().unwrap().reconnect.unwrap().enabled, Some(true));
    assert_eq!(layer.events.clone().unwrap().backoff.unwrap().multiplier, Some(F64Bits(1.5f64.to_bits())));

    let detailed = load_env_layers_detailed_from(vars);
    let keys: Vec<&str> = detailed.iter().map(|(_, k, _)| k.as_str()).collect();
    assert_eq!(keys.len(), 11);
    assert!(!keys.contains(&"UNRELATED"));
    assert!(!keys.contains(&"GREENTIC_NOT_A_SETTING"));
}

#[test]
fn invalid_environment_identifier_is_ignored() {
    let mut layer = ConfigLayer::default();
    let mut warnings = Vec::new();
    assert!(apply_env_var("GREENTIC_ENVIRONMENT_ENV_ID", "not valid!", None, &mut layer, &mut warnings));
    assert_eq!(layer.environment.unwrap().env_id, None);
    assert!(!apply_env_var("PATH", "/bin", None, &mut ConfigLayer::default(), &mut warnings));
    assert!(warnings.is_empty());
}

#[test]
fn transports_become_layers() {
    let url = Url::parse("nats://nats.example.com:4222").unwrap();
    let l = transport_to_layer(ServiceTransportConfig::Nats { url: url.clone(), subject_prefix: Some("greentic".into()) });
    assert_eq!(l.kind.as_deref(), Some("nats"));
    assert_eq!(l.url, Some(url));
    assert_eq!(l.subject_prefix.as_deref(), Some("greentic"));
    let l = transport_to_layer(ServiceTransportConfig::Noop);
    assert_eq!(l.kind.as_deref(), Some("noop"));
    assert!(l.url.is_none());
}

#[test]
fn cli_overrides_win_in_a_full_resolution() {
    let overrides = CliOverrides::new()
        .with_env_id(EnvId("prod".into()))
        .with_connection(ConnectionKind::Online)
        .with_region("eu-west-1".into())
        .with_services_events_url(Url::parse("https://events.example.com").unwrap())
        .with_runtime_admin_secrets_explain_enabled(true);
    let project = ConfigLayer {
        environment: Some(EnvironmentLayer { env_id: Some(EnvId("staging".into())), ..Default::default() }),
        ..Default::default()
    };
    let env = vec![var("GREENTIC_ENVIRONMENT_ENV_ID", "qa"), var("GREENTIC_PATHS_LOGS_DIR", "/var/log/greentic")];
    let resolved = ConfigResolver::new()
        .with_cli_overrides_typed(overrides)
        .resolve(ROOT, ConfigLayer::default(), project, &env)
        .unwrap();
    assert_eq!(resolved.config.environment.env_id.0, "prod");
    assert_eq!(resolved.config.environment.region.as_deref(), Some("eu-west-1"));
    assert_eq!(resolved.config.paths.logs_dir, "/var/log/greentic");
    assert_eq!(resolved.provenance.get(&ProvenancePath("environment.env_id".into())).cloned(), Some(ConfigSource::Cli));
    assert_eq!(
        resolved.provenance.get(&ProvenancePath("paths.logs_dir".into())).cloned(),
        Some(ConfigSource::Environment)
    );
    assert_eq!(
        resolved.config.services.unwrap().events.unwrap().url.as_str(),
        "https://events.example.com/"
    );
}

#[test]
fn resolution_rejects_dev_settings_outside_dev() {
    let project = ConfigLayer {
        environment: Some(EnvironmentLayer { env_id: Some(EnvId("prod".into())), ..Default::default() }),
        dev: Some(greentic_config::layers::DevLayer { default_tenant: Some("acme".into()), ..Default::default() }),
        ..Default::default()
    };
    let err = ConfigResolver::new().resolve(ROOT, ConfigLayer::default(), project.clone(), &Vec::new()).unwrap_err();
    assert!(matches!(err, ResolveError::Validation(ValidationError::DevNotAllowed(_))));
    assert!(ConfigResolver::new().with_allow_dev(true).resolve(ROOT, ConfigLayer::default(), project, &Vec::new()).is_ok());
}

#[test]
fn detailed_resolution_records_origins() {
    let project = ConfigLayer {
        paths: Some(PathsLayer { state_dir: Some("state".into()), ..Default::default() }),
        ..Default::default()
    };
    let env_layers = load_env_layers_detailed_from(vec![var("GREENTIC_PATHS_CACHE_DIR", "/cache")]);
    let resolved = ConfigResolver::new()
        .resolve_detailed(ROOT, ConfigLayer::default(), None, project, "/srv/greentic-project/.greentic/config.toml".into(), env_layers)
        .unwrap();
    assert_eq!(resolved.config.paths.state_dir, format!("{ROOT}/state"));
    assert_eq!(resolved.config.paths.cache_dir, "/cache");
    let rec = resolved.provenance.get(&ProvenancePath("paths.cache_dir".into())).unwrap();
    assert_eq!(rec.source, ConfigSource::Environment);
    assert_eq!(rec.origin.as_deref(), Some("GREENTIC_PATHS_CACHE_DIR"));
    let rec = resolved.provenance.get(&ProvenancePath("paths.logs_dir".into())).unwrap();
    assert_eq!(rec.source, ConfigSource::Default);
    assert_eq!(rec.origin.as_deref(), Some("defaults"));
}

#[test]
fn explain_reports_values_and_sources() {
    assert_eq!(render_source(Some(&ConfigSource::Environment)), "env");
    assert_eq!(render_source(None), "unknown");
    let rec = ProvenanceRecord { source: ConfigSource::User, origin: Some("/home/u/config.toml".into()) };
    assert_eq!(render_record(Some(&rec)), "user@/home/u/config.toml");
    assert_eq!(decimal(0), "0");
    assert_eq!(decimal(18446744073709551615), "18446744073709551615");

    let defaults = DefaultPaths::from_root(ROOT);
    let mut merged = MergeState::new(default_layer(ROOT, &defaults), ConfigSource::Default);
    merged.apply(
        ConfigLayer {
            environment: Some(EnvironmentLayer { env_id: Some(EnvId("prod".into())), ..Default::default() }),
            ..Default::default()
        },
        ConfigSource::Cli,
    );
    let (c, p, _) = merged.finalize(&defaults).unwrap();
    let text = explain(&c, &p, &["heads up".to_string()]);
    let lines: Vec<&str> = text.lines().collect();
    assert_eq!(lines[0], "Configuration:");
    assert_eq!(lines[1], "- schema_version: 1");
    assert_eq!(lines[2], "- environment.env_id: EnvId(\"prod\") (cli)");
    assert!(text.contains(&format!("- paths.state_dir: {ROOT}/.greentic (default)")));
    assert!(text.contains("- telemetry.exporter: None (default)"));
    assert!(text.contains("- deployer.base_domain: deploy.greentic.ai (default)"));
    assert!(text.contains("heads up"));

    let mut detailed = MergeStateDetailed::new(
        default_layer(ROOT, &defaults),
        ProvenanceCtx::new(ConfigSource::Default, Some("defaults".into())),
    );
    detailed.apply(
        ConfigLayer {
            environment: Some(EnvironmentLayer { env_id: Some(EnvId("qa".into())), ..Default::default() }),
            ..Default::default()
        },
        ProvenanceCtx::new(ConfigSource::Environment, Some("GREENTIC_ENVIRONMENT_ENV_ID".into())),
    );
    let (c, p, _) = detailed.finalize_detailed(&defaults).unwrap();
    let text = explain_detailed(&c, &p, &[]);
    assert!(text.contains("- environment.env_id: EnvId(\"qa\") (env@GREENTIC_ENVIRONMENT_ENV_ID)"));
    assert!(text.contains(&format!("- paths.state_dir: {ROOT}/.greentic (default@defaults)")));
}

#[test]
fn resolver_defaults_and_conversions() {
    let r = ConfigResolver::default();
    assert!(r.project_root().is_none());
    assert!(r.config_path().is_none());
    let r = r.with_project_root("/a".into()).with_config_path("/a/explicit.toml".into());
    assert_eq!(r.project_root().map(|s| s.as_str()), Some("/a"));
    assert_eq!(r.config_path().map(|s| s.as_str()), Some("/a/explicit.toml"));
    let r = r.with_project_root_opt(None);
    assert_eq!(r.project_root().map(|s| s.as_str()), Some("/a"));

    let layer: ConfigLayer = CliOverrides::new().with_region("us-east-1".into()).into();
    assert_eq!(layer.environment.unwrap().region.as_deref(), Some("us-east-1"));

    assert!(greentic_config::types::default_enabled());
    assert_eq!(greentic_config::types::default_sampling(), F32Bits(1.0f32.to_bits()));
    assert_eq!(greentic_config::types::default_backend_kind(), "none");
}

#[test]
fn single_checks_name_the_offending_value() {
    assert!(greentic_config::validate::ensure_absolute(&"/abs".to_string()).is_ok());
    assert_eq!(
        greentic_config::validate::ensure_absolute(&"rel".to_string()).unwrap_err(),
        ValidationError::RelativePath("rel".into())
    );
    assert!(greentic_config::validate::validate_base_domain("cli.greentic.test").is_ok());
    assert_eq!(
        greentic_config::validate::validate_base_domain("a..b").unwrap_err(),
        ValidationError::DeployerBaseDomain("a..b".into())
    );
}

#[test]
fn resolved_configuration_explains_itself() {
    let resolved = ConfigResolver::new().resolve(ROOT, ConfigLayer::default(), ConfigLayer::default(), &Vec::new()).unwrap();
    let text = resolved.explain();
    assert!(text.starts_with("Configuration:\n- schema_version: 1\n- environment.env_id: EnvId(\"dev\") (default)"));
}

#[test]
fn cli_transport_overrides_fill_their_service_slot() {
    let http = |u: &str| ServiceTransportConfig::Http { url: Url::parse(u).unwrap(), headers: None };
    let layer = CliOverrides::new()
        .with_services_runner_transport(http("https://runner.example.com"))
        .with_services_deployer_transport(ServiceTransportConfig::Noop)
        .with_services_events_transport(http("https://events.example.com"))
        .with_services_source_transport(http("https://source.example.com"))
        .with_services_publish_transport(http("https://publish.example.com"))
        .with_services_metadata_transport(http("https://metadata.example.com"))
        .with_services_oauth_broker_transport(http("https://oauth.example.com"))
        .into_layer();
    let services = layer.services.unwrap();
    let url_of = |s: Option<greentic_config::layers::ServiceLayer>| s.unwrap().transport.url.map(|u| u.to_string());
    assert_eq!(url_of(services.runner.clone()).as_deref(), Some("https://runner.example.com/"));
    assert_eq!(services.deployer.clone().unwrap().transport.kind.as_deref(), Some("noop"));
    assert_eq!(url_of(services.events_transport.clone()).as_deref(), Some("https://events.example.com/"));
    assert_eq!(url_of(services.source.clone()).as_deref(), Some("https://source.example.com/"));
    assert_eq!(url_of(services.publish.clone()).as_deref(), Some("https://publish.example.com/"));
    assert_eq!(url_of(services.metadata.clone()).as_deref(), Some("https://metadata.example.com/"));
    assert_eq!(url_of(services.oauth_broker.clone()).as_deref(), Some("https://oauth.example.com/"));
    assert!(services.runner.unwrap().service.is_none());
}

#[test]
fn merging_an_empty_layer_or_a_premerged_pair_changes_nothing() {
    let defaults = DefaultPaths::from_root(ROOT);
    let finish = |layers: Vec<ConfigLayer>| {
        let mut m = MergeState::new(default_layer(ROOT, &defaults), ConfigSource::Default);
        for l in layers {
            m.apply(l, ConfigSource::Project);
        }
        m.finalize(&defaults).unwrap()
    };
    let b = ConfigLayer {
        telemetry: Some(TelemetryLayer { exporter: Some("stdout".into()), endpoint: Some("http://localhost:4317".into()), ..Default::default() }),
        ..Default::default()
    };
    let c = ConfigLayer {
        telemetry: Some(TelemetryLayer { exporter: Some("otlp".into()), ..Default::default() }),
        network: Some(NetworkLayer { read_timeout_ms: Some(9), ..Default::default() }),
        ..Default::default()
    };
    let b_then_c = ConfigLayer {
        telemetry: Some(TelemetryLayer { exporter: Some("otlp".into()), endpoint: Some("http://localhost:4317".into()), ..Default::default() }),
        network: Some(NetworkLayer { read_timeout_ms: Some(9), ..Default::default() }),
        ..Default::default()
    };
    let base = finish(vec![]);
    assert_eq!(finish(vec![ConfigLayer::default()]).0, base.0);
    assert_eq!(finish(vec![ConfigLayer::default()]).1.records().len(), base.1.records().len());
    let sequential = finish(vec![b, c]).0;
    let premerged = finish(vec![b_then_c]).0;
    assert_eq!(sequential, premerged);
    assert_eq!(sequential.telemetry.exporter, TelemetryExporterKind::Otlp);
    assert_eq!(sequential.telemetry.endpoint.as_deref(), Some("http://localhost:4317"));
}

#[test]
fn ancestors_and_nearest_marked_directory() {
    let chain = greentic_config::paths::ancestors("/a/b/c");
    assert_eq!(chain, vec!["/a/b/c".to_string(), "/a/b".into(), "/a".into(), "/".into()]);
    let pick = greentic_config::paths::nearest_marked(&chain, &vec![false, true]);
    assert_eq!(pick.as_deref(), Some("/a/b"));
    assert_eq!(greentic_config::paths::nearest_marked(&chain, &vec![false, false, false]), None);
    assert_eq!(greentic_config::paths::nearest_marked(&chain, &vec![]), None);
    assert_eq!(
        MergeError::PackSourceMissingReference.message(),
        "packs.source is an oci_registry without a reference"
    );
}

#[test]
fn provenance_labels_name_each_path_once() {
    let mut m: PathMap<ConfigSource> = PathMap::new();
    m.insert(ProvenancePath("a".into()), ConfigSource::Default);
    m.insert(ProvenancePath("b".into()), ConfigSource::Environment);
    m.insert(ProvenancePath("a".into()), ConfigSource::Cli);
    let mut labels = greentic_config::explain::provenance_labels(&m);
    labels.sort();
    assert_eq!(labels, vec![("a".to_string(), "cli".to_string()), ("b".to_string(), "env".to_string())]);

    let mut d: PathMap<ProvenanceRecord> = PathMap::new();
    d.insert(ProvenancePath("paths.state_dir".into()), ProvenanceRecord { source: ConfigSource::User, origin: Some("/u.toml".into()) });
    d.insert(ProvenancePath("paths.state_dir".into()), ProvenanceRecord { source: ConfigSource::Cli, origin: Some("cli".into()) });
    d.insert(ProvenancePath("paths.logs_dir".into()), ProvenanceRecord { source: ConfigSource::Default, origin: None });
    let mut records = greentic_config::explain::provenance_records(&d);
    records.sort();
    assert_eq!(
        records,
        vec![
            ("paths.logs_dir".to_string(), "default".to_string(), None),
            ("paths.state_dir".to_string(), "cli".to_string(), Some("cli".to_string())),
        ]
    );
}

#[test]
fn project_markers_are_probed_in_order() {
    let probes = greentic_config::paths::marker_probes("/w/proj");
    assert_eq!(
        probes,
        vec![
            ("/w/proj/.greentic".to_string(), true),
            ("/w/proj/.git".to_string(), true),
            ("/w/proj/Cargo.toml".to_string(), false),
        ]
    );
}

#[test]
fn loopback_addresses_follow_std() {
    for host in ["http://127.0.0.1", "http://127.8.9.10:80", "http://localhost"] {
        assert!(is_local_url(&Url::parse(host).unwrap()), "{host}");
    }
    for host in ["http://128.0.0.1", "http://0.0.0.0", "http://example.com"] {
        assert!(!is_local_url(&Url::parse(host).unwrap()), "{host}");
    }
}

#[test]
fn deployment_variable_never_parses_from_a_string() {
    let mut layer = ConfigLayer::default();
    let mut warnings = Vec::new();
    assert!(apply_env_var("GREENTIC_ENVIRONMENT_DEPLOYMENT", "aws", None, &mut layer, &mut warnings));
    assert!(layer.environment.unwrap().deployment.is_none());
}

#[test]
fn any_found_marker_marks_the_directory() {
    assert!(!greentic_config::paths::marker_found(&vec![false, false, false]));
    assert!(greentic_config::paths::marker_found(&vec![false, true]));
    assert!(greentic_config::paths::marker_found(&vec![true]));
    assert!(!greentic_config::paths::marker_found(&vec![]));
}
