use greentic_config::defaults::{default_layer, DEFAULT_DEPLOYER_BASE_DOMAIN};
use greentic_config::env::{load_env_layers_detailed_from, EnvVar};
use greentic_config::layers::{
    AdminEndpointsLayer, BackoffLayer, ConfigLayer, DeployerLayer, DevLayer, EnvironmentLayer,
    EventsLayer, PackSourceLayer, PacksLayer, PathsLayer, RuntimeLayer, ServiceEndpointLayer,
    ServiceLayer, ServiceTransportLayer, ServicesLayer,
};
use greentic_config::merge::{MergeState, MergeStateDetailed, ProvenanceCtx};
use greentic_config::paths::DefaultPaths;
use greentic_config::provenance::{ConfigSource, ProvenancePath};
use greentic_config::types::{
    ConnectionKind, EnvId, F64Bits, PackSourceConfig, ServiceEndpointConfig,
    ServiceTransportConfig, ServicesConfig, TelemetryExporterKind,
};
use greentic_config::validate::{validate_config, validate_config_with_overrides, ValidationError};
use greentic_config::weburl::Url;
use std::path::{Path, PathBuf};

const ROOT: &str = "/tmp/greentic-config-test-root";

fn env_id(s: &str) -> EnvId {
    EnvId(s.to_string())
}

fn environment(id: &str, connection: Option<ConnectionKind>) -> EnvironmentLayer {
    EnvironmentLayer { env_id: Some(env_id(id)), deployment: None, connection, region: None }
}

fn start(root: &str, default_paths: &DefaultPaths) -> MergeState {
    MergeState::new(default_layer(root, default_paths), ConfigSource::Default)
}

fn events_url_layer(url: &str) -> ConfigLayer {
    ConfigLayer {
        services: Some(ServicesLayer {
            events: Some(ServiceEndpointLayer { url: Some(Url::parse(url).unwrap()), headers: None }),
            ..Default::default()
        }),
        ..Default::default()
    }
}

fn runner_layer(url: &str) -> ConfigLayer {
    ConfigLayer {
        services: Some(ServicesLayer {
            runner: Some(ServiceLayer {
                transport: ServiceTransportLayer {
                    kind: Some("http".into()),
                    url: Some(Url::parse(url).unwrap()),
                    ..Default::default()
                },
                service: None,
            }),
            ..Default::default()
        }),
        ..Default::default()
    }
}

fn admin_layer(enabled: bool) -> ConfigLayer {
    ConfigLayer {
        runtime: Some(RuntimeLayer {
            admin_endpoints: Some(AdminEndpointsLayer { secrets_explain_enabled: Some(enabled) }),
            ..Default::default()
        }),
        ..Default::default()
    }
}

fn deployer_layer(domain: &str) -> ConfigLayer {
    ConfigLayer {
        deployer: Some(DeployerLayer { base_domain: Some(domain.into()), provider: None }),
        ..Default::default()
    }
}

fn state_dir_layer(dir: &str) -> ConfigLayer {
    ConfigLayer {
        paths: Some(PathsLayer { state_dir: Some(dir.into()), ..Default::default() }),
        ..Default::default()
    }
}

fn path_key(s: &str) -> ProvenancePath {
    ProvenancePath(s.into())
}

#[test]
fn precedence_prefers_cli_over_env() {
    let root = ROOT.to_string();
    let env_layer = ConfigLayer { environment: Some(environment("staging", None)), ..Default::default() };
    let cli_layer = ConfigLayer { environment: Some(environment("prod", None)), ..Default::default() };

    let default_paths = DefaultPaths::from_root(&root);
    let mut merged = start(&root, &default_paths);
    merged.apply(env_layer, ConfigSource::Environment);
    merged.apply(cli_layer, ConfigSource::Cli);
    let (resolved, _, _) = merged.finalize(&default_paths).unwrap();
    assert!(resolved.environment.env_id.0.contains("prod"));
}

#[test]
fn relative_paths_resolve_to_absolute() {
    let root = ROOT.to_string();
    let default_paths = DefaultPaths::from_root(&root);

    let layer = ConfigLayer {
        paths: Some(PathsLayer {
            state_dir: Some("relative/state".into()),
            cache_dir: Some("relative/cache".into()),
            logs_dir: Some("relative/logs".into()),
            greentic_root: Some(".".into()),
        }),
        packs: Some(PacksLayer {
            cache_dir: Some("relative/packs/cache".into()),
            source: Some(PackSourceLayer::LocalIndex { path: Some("relative/packs/index.json".into()) }),
            ..Default::default()
        }),
        ..Default::default()
    };

    let mut merged = start(&root, &default_paths);
    merged.apply(layer, ConfigSource::Project);
    let (resolved, _, _) = merged.finalize(&default_paths).unwrap();
    assert!(Path::new(&resolved.paths.state_dir).is_absolute());
    assert!(Path::new(&resolved.paths.cache_dir).is_absolute());
    assert!(Path::new(&resolved.paths.logs_dir).is_absolute());
    let packs = resolved.packs.unwrap();
    assert!(Path::new(&packs.cache_dir).is_absolute());
    if let PackSourceConfig::LocalIndex { path } = packs.source {
        assert!(Path::new(&path).is_absolute());
    }
}

#[test]
fn dev_config_requires_dev_env_without_allow() {
    let root = ROOT.to_string();
    let default_paths = DefaultPaths::from_root(&root);

    let layer = ConfigLayer {
        dev: Some(DevLayer {
            default_env: Some(env_id("dev")),
            default_tenant: Some("acme".into()),
            default_team: None,
        }),
        environment: Some(environment("prod", None)),
        ..Default::default()
    };

    let mut merged = start(&root, &default_paths);
    merged.apply(layer, ConfigSource::Cli);
    let (resolved, _, _) = merged.finalize(&default_paths).unwrap();
    let validation = validate_config(&resolved, false);
    assert!(validation.is_err());
}

#[test]
fn packs_default_to_paths_based_locations() {
    let root = ROOT.to_string();
    let default_paths = DefaultPaths::from_root(&root);
    let cache_dir = PathBuf::from(&root).join("custom_cache");
    let state_dir = PathBuf::from(&root).join(".state_dir");

    let layer = ConfigLayer {
        paths: Some(PathsLayer {
            cache_dir: Some(cache_dir.to_string_lossy().into_owned()),
            state_dir: Some(state_dir.to_string_lossy().into_owned()),
            greentic_root: Some(root.clone()),
            logs_dir: None,
        }),
        ..Default::default()
    };

    let mut merged = start(&root, &default_paths);
    merged.apply(layer, ConfigSource::Project);
    let (resolved, _, _) = merged.finalize(&default_paths).unwrap();
    let packs = resolved.packs.unwrap();
    assert_eq!(PathBuf::from(&packs.cache_dir), cache_dir.join("packs"));
    if let PackSourceConfig::LocalIndex { path } = packs.source {
        assert_eq!(PathBuf::from(&path), state_dir.join("packs").join("index.json"));
    } else {
        panic!("expected local index default");
    }
}

#[test]
fn offline_env_forbids_remote_packs() {
    let root = ROOT.to_string();
    let default_paths = DefaultPaths::from_root(&root);

    let layer = ConfigLayer {
        environment: Some(environment("dev", Some(ConnectionKind::Offline))),
        packs: Some(PacksLayer {
            source: Some(PackSourceLayer::HttpIndex { url: Some("https://example.com/index.json".into()) }),
            ..Default::default()
        }),
        ..Default::default()
    };

    let mut merged = start(&root, &default_paths);
    merged.apply(layer, ConfigSource::Project);
    let (resolved, _, _) = merged.finalize(&default_paths).unwrap();
    let validation = validate_config(&resolved, false);
    assert!(matches!(validation, Err(ValidationError::PacksSourceOffline)));
}

#[test]
fn events_endpoint_precedence_and_provenance() {
    let root = ROOT.to_string();
    let default_paths = DefaultPaths::from_root(&root);

    let mut merged = start(&root, &default_paths);
    merged.apply(events_url_layer("https://user.example.com"), ConfigSource::User);
    merged.apply(events_url_layer("https://project.example.com"), ConfigSource::Project);
    merged.apply(events_url_layer("https://env.example.com"), ConfigSource::Environment);
    merged.apply(events_url_layer("https://cli.example.com"), ConfigSource::Cli);
    let (resolved, provenance, _) = merged.finalize(&default_paths).unwrap();

    let url = resolved.services.unwrap().events.unwrap().url.to_string();
    assert_eq!(url, "https://cli.example.com/");
    assert_eq!(provenance.get(&path_key("services.events.url")).cloned(), Some(ConfigSource::Cli));
}

#[test]
fn runner_transport_precedence_and_provenance() {
    let root = ROOT.to_string();
    let default_paths = DefaultPaths::from_root(&root);

    let mut merged = start(&root, &default_paths);
    merged.apply(runner_layer("https://user-runner.example.com"), ConfigSource::User);
    merged.apply(runner_layer("https://project-runner.example.com"), ConfigSource::Project);
    merged.apply(runner_layer("https://env-runner.example.com"), ConfigSource::Environment);
    merged.apply(runner_layer("https://cli-runner.example.com"), ConfigSource::Cli);
    let (resolved, provenance, _) = merged.finalize(&default_paths).unwrap();

    let runner = resolved.services.unwrap().runner.unwrap();
    let runner_url = match runner.transport.as_ref().unwrap() {
        ServiceTransportConfig::Http { url, .. } | ServiceTransportConfig::Nats { url, .. } => url.to_string(),
        ServiceTransportConfig::Noop => panic!("expected http or nats transport"),
    };
    assert_eq!(runner_url, "https://cli-runner.example.com/");
    assert_eq!(provenance.get(&path_key("services.runner.url")).cloned(), Some(ConfigSource::Cli));
}

#[test]
fn runtime_admin_endpoints_precedence_and_provenance() {
    let root = ROOT.to_string();
    let default_paths = DefaultPaths::from_root(&root);

    let mut merged = start(&root, &default_paths);
    merged.apply(admin_layer(false), ConfigSource::User);
    merged.apply(admin_layer(true), ConfigSource::Project);
    merged.apply(admin_layer(false), ConfigSource::Environment);
    merged.apply(admin_layer(true), ConfigSource::Cli);
    let (resolved, provenance, _) = merged.finalize(&default_paths).unwrap();

    let enabled = resolved.runtime.admin_endpoints.as_ref().map(|a| a.secrets_explain_enabled).unwrap();
    assert!(enabled);
    assert_eq!(
        provenance.get(&path_key("runtime.admin_endpoints.secrets_explain_enabled")).cloned(),
        Some(ConfigSource::Cli)
    );
}

#[test]
fn offline_env_blocks_remote_events_endpoint() {
    let root = ROOT.to_string();
    let default_paths = DefaultPaths::from_root(&root);

    let mut layer = events_url_layer("https://events.example.com");
    layer.environment = Some(environment("dev", Some(ConnectionKind::Offline)));

    let mut merged = start(&root, &default_paths);
    merged.apply(layer, ConfigSource::Project);
    let (resolved, _, _) = merged.finalize(&default_paths).unwrap();
    let validation = validate_config(&resolved, false);
    assert!(matches!(validation, Err(ValidationError::EventsEndpointOffline(_))));
}

#[test]
fn backoff_validation_catches_invalid_values() {
    let root = ROOT.to_string();
    let default_paths = DefaultPaths::from_root(&root);

    let invalid_backoff = ConfigLayer {
        events: Some(EventsLayer {
            backoff: Some(BackoffLayer {
                initial_ms: Some(0),
                max_ms: Some(10),
                multiplier: Some(F64Bits(0.5f64.to_bits())),
                jitter: None,
            }),
            ..Default::default()
        }),
        ..Default::default()
    };

    let mut merged = start(&root, &default_paths);
    merged.apply(invalid_backoff, ConfigSource::Project);
    let (resolved, _, _) = merged.finalize(&default_paths).unwrap();
    let validation = validate_config(&resolved, true);
    assert!(matches!(validation, Err(ValidationError::EventsBackoffInitial(0))));

    let invalid_max = ConfigLayer {
        events: Some(EventsLayer {
            backoff: Some(BackoffLayer {
                initial_ms: Some(200),
                max_ms: Some(100),
                multiplier: Some(F64Bits(2.0f64.to_bits())),
                jitter: None,
            }),
            ..Default::default()
        }),
        ..Default::default()
    };

    let mut merged = start(&root, &default_paths);
    merged.apply(invalid_max, ConfigSource::Project);
    let (resolved, _, _) = merged.finalize(&default_paths).unwrap();
    let validation = validate_config(&resolved, true);
    assert!(matches!(validation, Err(ValidationError::EventsBackoffMax { .. })));
}

#[test]
fn deployer_base_domain_defaults_and_validation() {
    let root = ROOT.to_string();
    let default_paths = DefaultPaths::from_root(&root);

    let merged = start(&root, &default_paths);
    let (resolved, _, _) = merged.finalize(&default_paths).unwrap();
    assert_eq!(
        resolved.deployer.as_ref().and_then(|d| d.base_domain.as_deref()),
        Some(DEFAULT_DEPLOYER_BASE_DOMAIN)
    );

    let mut merged = start(&root, &default_paths);
    merged.apply(deployer_layer("https://bad-domain"), ConfigSource::Project);
    let (resolved, _, _) = merged.finalize(&default_paths).unwrap();
    let validation = validate_config(&resolved, true);
    assert!(matches!(validation, Err(ValidationError::DeployerBaseDomain(_))));
}

#[test]
fn deployer_base_domain_precedence_and_provenance() {
    let root = ROOT.to_string();
    let default_paths = DefaultPaths::from_root(&root);

    let mut merged = start(&root, &default_paths);
    merged.apply(deployer_layer("user.greentic.test"), ConfigSource::User);
    merged.apply(deployer_layer("project.greentic.test"), ConfigSource::Project);
    merged.apply(deployer_layer("env.greentic.test"), ConfigSource::Environment);
    merged.apply(deployer_layer("cli.greentic.test"), ConfigSource::Cli);

    let (resolved, provenance, _) = merged.finalize(&default_paths).unwrap();
    let base_domain = resolved.deployer.as_ref().and_then(|d| d.base_domain.as_deref()).unwrap();
    assert_eq!(base_domain, "cli.greentic.test");
    assert_eq!(provenance.get(&path_key("deployer.base_domain")).cloned(), Some(ConfigSource::Cli));
}

#[test]
fn detailed_precedence_prefers_cli_and_tracks_origin() {
    let root = ROOT.to_string();
    let default_paths = DefaultPaths::from_root(&root);

    let base = default_layer(&root, &default_paths);
    let mut merged = MergeStateDetailed::new(base, ProvenanceCtx::new(ConfigSource::Default, Some("defaults".into())));

    merged.apply(
        state_dir_layer("/tmp/user-state"),
        ProvenanceCtx::new(ConfigSource::User, Some("/user/config.toml".into())),
    );
    merged.apply(
        state_dir_layer("/tmp/project-state"),
        ProvenanceCtx::new(ConfigSource::Project, Some("/repo/.greentic/config.toml".into())),
    );

    let env_layers = load_env_layers_detailed_from(vec![EnvVar {
        key: "GREENTIC_PATHS_STATE_DIR".to_string(),
        value: "/tmp/env-state".to_string(),
        float: None,
    }]);
    for (layer, key, _) in env_layers {
        merged.apply(layer, ProvenanceCtx::new(ConfigSource::Environment, Some(key)));
    }

    merged.apply(state_dir_layer("/tmp/cli-state"), ProvenanceCtx::new(ConfigSource::Cli, Some("cli".into())));

    let (resolved, provenance, _) = merged.finalize_detailed(&default_paths).unwrap();
    assert_eq!(PathBuf::from(&resolved.paths.state_dir), PathBuf::from("/tmp/cli-state"));
    let rec = provenance.get(&path_key("paths.state_dir")).unwrap();
    assert_eq!(rec.source, ConfigSource::Cli);
    assert_eq!(rec.origin.as_deref(), Some("cli"));
}

#[test]
fn offline_telemetry_endpoint_warns_unless_allow_network() {
    let root = ROOT.to_string();
    let default_paths = DefaultPaths::from_root(&root);
    let merged = start(&root, &default_paths);
    let (mut config, _, _) = merged.finalize(&default_paths).unwrap();
    config.environment.connection = Some(ConnectionKind::Offline);
    config.telemetry.enabled = true;
    config.telemetry.endpoint = Some("https://otlp.example.com:4317".into());
    config.telemetry.exporter = TelemetryExporterKind::Otlp;

    let warnings = validate_config_with_overrides(&config, true, false).unwrap();
    assert!(warnings.iter().any(|w| w.contains("telemetry.endpoint")));

    let warnings = validate_config_with_overrides(&config, true, true).unwrap();
    assert!(!warnings.iter().any(|w| w.contains("telemetry.endpoint")));
}

#[test]
fn offline_events_endpoint_error_is_suppressed_with_allow_network() {
    let root = ROOT.to_string();
    let default_paths = DefaultPaths::from_root(&root);
    let merged = start(&root, &default_paths);
    let (mut config, _, _) = merged.finalize(&default_paths).unwrap();
    config.environment.connection = Some(ConnectionKind::Offline);
    config.services = Some(ServicesConfig {
        events: Some(ServiceEndpointConfig { url: Url::parse("https://events.example.com").unwrap(), headers: None }),
        ..Default::default()
    });

    let err = validate_config_with_overrides(&config, true, false).unwrap_err();
    assert!(matches!(err, ValidationError::EventsEndpointOffline(_)));

    let warnings = validate_config_with_overrides(&config, true, true).unwrap();
    assert!(!warnings.iter().any(|w| w.contains("events endpoint") || w.contains("EventsEndpointOffline")));
}

#[test]
fn offline_service_transport_emits_warning() {
    let root = ROOT.to_string();
    let default_paths = DefaultPaths::from_root(&root);
    let mut merged = start(&root, &default_paths);

    let mut layer = runner_layer("https://runner.example.com");
    layer.environment = Some(environment("dev", Some(ConnectionKind::Offline)));

    merged.apply(layer, ConfigSource::Project);
    let (resolved, _, _) = merged.finalize(&default_paths).unwrap();
    let warnings =
        validate_config_with_overrides(&resolved, true, false).expect("validation should warn, not error");
    assert!(warnings.iter().any(|w| w.contains("services.runner") && w.contains("offline")));
}
