//! Precedence across many layers: each leaf of a merge holds the value of the last layer
//! that sets it.
use vstd::prelude::*;
use crate::layers::{
    AdminEndpointsLayer,
    BackoffLayer,
    ConfigLayer,
    DeployerLayer,
    DeployerProviderDefaultsLayer,
    DevLayer,
    EnvironmentLayer,
    EventsLayer,
    MetricsLayer,
    NetworkLayer,
    PackTrustLayer,
    PacksLayer,
    PathsLayer,
    ReconnectLayer,
    RuntimeLayer,
    SecretsBackendRefLayer,
    ServiceConfigLayer,
    ServiceEndpointLayer,
    ServiceLayer,
    ServiceTransportLayer,
    ServicesLayer,
    TelemetryLayer,
    agrees_admin_endpoints_layer,
    agrees_backoff_layer,
    agrees_config_layer,
    agrees_deployer_layer,
    agrees_deployer_provider_defaults_layer,
    agrees_dev_layer,
    agrees_environment_layer,
    agrees_events_layer,
    agrees_metrics_layer,
    agrees_network_layer,
    agrees_opt_admin_endpoints_layer,
    agrees_opt_backoff_layer,
    agrees_opt_deployer_layer,
    agrees_opt_deployer_provider_defaults_layer,
    agrees_opt_dev_layer,
    agrees_opt_environment_layer,
    agrees_opt_events_layer,
    agrees_opt_metrics_layer,
    agrees_opt_network_layer,
    agrees_opt_pack_trust_layer,
    agrees_opt_packs_layer,
    agrees_opt_paths_layer,
    agrees_opt_reconnect_layer,
    agrees_opt_runtime_layer,
    agrees_opt_secrets_backend_ref_layer,
    agrees_opt_service_config_layer,
    agrees_opt_service_endpoint_layer,
    agrees_opt_service_layer,
    agrees_opt_services_layer,
    agrees_opt_telemetry_layer,
    agrees_pack_trust_layer,
    agrees_packs_layer,
    agrees_paths_layer,
    agrees_reconnect_layer,
    agrees_runtime_layer,
    agrees_secrets_backend_ref_layer,
    agrees_service_config_layer,
    agrees_service_endpoint_layer,
    agrees_service_layer,
    agrees_service_transport_layer,
    agrees_services_layer,
    agrees_telemetry_layer,
    empty_admin_endpoints_layer,
    empty_backoff_layer,
    empty_deployer_layer,
    empty_deployer_provider_defaults_layer,
    empty_dev_layer,
    empty_environment_layer,
    empty_events_layer,
    empty_metrics_layer,
    empty_network_layer,
    empty_pack_trust_layer,
    empty_packs_layer,
    empty_paths_layer,
    empty_reconnect_layer,
    empty_runtime_layer,
    empty_secrets_backend_ref_layer,
    empty_service_config_layer,
    empty_service_endpoint_layer,
    empty_service_layer,
    empty_services_layer,
    empty_telemetry_layer,
    keys_admin_endpoints_layer,
    keys_backoff_layer,
    keys_config_layer,
    keys_deployer_layer,
    keys_deployer_provider_defaults_layer,
    keys_dev_layer,
    keys_environment_layer,
    keys_events_layer,
    keys_metrics_layer,
    keys_network_layer,
    keys_opt_admin_endpoints_layer,
    keys_opt_backoff_layer,
    keys_opt_deployer_layer,
    keys_opt_deployer_provider_defaults_layer,
    keys_opt_dev_layer,
    keys_opt_environment_layer,
    keys_opt_events_layer,
    keys_opt_metrics_layer,
    keys_opt_network_layer,
    keys_opt_pack_trust_layer,
    keys_opt_packs_layer,
    keys_opt_paths_layer,
    keys_opt_reconnect_layer,
    keys_opt_runtime_layer,
    keys_opt_secrets_backend_ref_layer,
    keys_opt_service_config_layer,
    keys_opt_service_endpoint_layer,
    keys_opt_service_layer,
    keys_opt_services_layer,
    keys_opt_telemetry_layer,
    keys_pack_trust_layer,
    keys_packs_layer,
    keys_paths_layer,
    keys_reconnect_layer,
    keys_runtime_layer,
    keys_secrets_backend_ref_layer,
    keys_service_config_layer,
    keys_service_endpoint_layer,
    keys_service_layer,
    keys_service_transport_layer,
    keys_services_layer,
    keys_telemetry_layer,
    lemma_later_layer_wins,
    overlay_admin_endpoints_layer,
    overlay_backoff_layer,
    overlay_config_layer,
    overlay_deployer_layer,
    overlay_deployer_provider_defaults_layer,
    overlay_dev_layer,
    overlay_environment_layer,
    overlay_events_layer,
    overlay_metrics_layer,
    overlay_network_layer,
    overlay_opt_admin_endpoints_layer,
    overlay_opt_backoff_layer,
    overlay_opt_deployer_layer,
    overlay_opt_deployer_provider_defaults_layer,
    overlay_opt_dev_layer,
    overlay_opt_environment_layer,
    overlay_opt_events_layer,
    overlay_opt_metrics_layer,
    overlay_opt_network_layer,
    overlay_opt_pack_trust_layer,
    overlay_opt_packs_layer,
    overlay_opt_paths_layer,
    overlay_opt_reconnect_layer,
    overlay_opt_runtime_layer,
    overlay_opt_secrets_backend_ref_layer,
    overlay_opt_service_config_layer,
    overlay_opt_service_endpoint_layer,
    overlay_opt_service_layer,
    overlay_opt_services_layer,
    overlay_opt_telemetry_layer,
    overlay_pack_trust_layer,
    overlay_packs_layer,
    overlay_paths_layer,
    overlay_reconnect_layer,
    overlay_runtime_layer,
    overlay_secrets_backend_ref_layer,
    overlay_service_config_layer,
    overlay_service_endpoint_layer,
    overlay_service_layer,
    overlay_service_transport_layer,
    overlay_services_layer,
    overlay_telemetry_layer,
};

verus! {

/// Whether the set `small` lies within `large`.
pub open spec fn within(small: Set<Seq<char>>, large: Set<Seq<char>>) -> bool {
    forall|k: Seq<char>| #[trigger] small.contains(k) ==> large.contains(k)
}

/// Whether `r` holds the value of every leaf that `b` sets and whose path is not in `shadow`.
pub open spec fn kept_environment_layer(r: EnvironmentLayer, b: EnvironmentLayer, shadow: Set<Seq<char>>, prefix: Seq<char>) -> bool {
    (b.env_id is Some && !shadow.contains(prefix + "env_id"@) ==> r.env_id == b.env_id)
    && (b.deployment is Some && !shadow.contains(prefix + "deployment"@) ==> r.deployment == b.deployment)
    && (b.connection is Some && !shadow.contains(prefix + "connection"@) ==> r.connection == b.connection)
    && (b.region is Some && !shadow.contains(prefix + "region"@) ==> r.region == b.region)
}

pub open spec fn kept_opt_environment_layer(r: Option<EnvironmentLayer>, b: Option<EnvironmentLayer>, shadow: Set<Seq<char>>, prefix: Seq<char>) -> bool {
    match b {
        None => true,
        Some(y) => kept_environment_layer(r.unwrap_or(empty_environment_layer()), y, shadow, prefix),
    }
}

/// Whether `r` holds the value of every leaf that `b` sets and whose path is not in `shadow`.
pub open spec fn kept_paths_layer(r: PathsLayer, b: PathsLayer, shadow: Set<Seq<char>>, prefix: Seq<char>) -> bool {
    (b.greentic_root is Some && !shadow.contains(prefix + "greentic_root"@) ==> r.greentic_root == b.greentic_root)
    && (b.state_dir is Some && !shadow.contains(prefix + "state_dir"@) ==> r.state_dir == b.state_dir)
    && (b.cache_dir is Some && !shadow.contains(prefix + "cache_dir"@) ==> r.cache_dir == b.cache_dir)
    && (b.logs_dir is Some && !shadow.contains(prefix + "logs_dir"@) ==> r.logs_dir == b.logs_dir)
}

pub open spec fn kept_opt_paths_layer(r: Option<PathsLayer>, b: Option<PathsLayer>, shadow: Set<Seq<char>>, prefix: Seq<char>) -> bool {
    match b {
        None => true,
        Some(y) => kept_paths_layer(r.unwrap_or(empty_paths_layer()), y, shadow, prefix),
    }
}

/// Whether `r` holds the value of every leaf that `b` sets and whose path is not in `shadow`.
pub open spec fn kept_service_endpoint_layer(r: ServiceEndpointLayer, b: ServiceEndpointLayer, shadow: Set<Seq<char>>, prefix: Seq<char>) -> bool {
    (b.url is Some && !shadow.contains(prefix + "url"@) ==> r.url == b.url)
    && (b.headers is Some && !shadow.contains(prefix + "headers"@) ==> r.headers == b.headers)
}

pub open spec fn kept_opt_service_endpoint_layer(r: Option<ServiceEndpointLayer>, b: Option<ServiceEndpointLayer>, shadow: Set<Seq<char>>, prefix: Seq<char>) -> bool {
    match b {
        None => true,
        Some(y) => kept_service_endpoint_layer(r.unwrap_or(empty_service_endpoint_layer()), y, shadow, prefix),
    }
}

/// Whether `r` holds the value of every leaf that `b` sets and whose path is not in `shadow`.
pub open spec fn kept_service_transport_layer(r: ServiceTransportLayer, b: ServiceTransportLayer, shadow: Set<Seq<char>>, prefix: Seq<char>) -> bool {
    (b.kind is Some && !shadow.contains(prefix + "kind"@) ==> r.kind == b.kind)
    && (b.url is Some && !shadow.contains(prefix + "url"@) ==> r.url == b.url)
    && (b.headers is Some && !shadow.contains(prefix + "headers"@) ==> r.headers == b.headers)
    && (b.subject_prefix is Some && !shadow.contains(prefix + "subject_prefix"@) ==> r.subject_prefix == b.subject_prefix)
}

/// Whether `r` holds the value of every leaf that `b` sets and whose path is not in `shadow`.
pub open spec fn kept_metrics_layer(r: MetricsLayer, b: MetricsLayer, shadow: Set<Seq<char>>, prefix: Seq<char>) -> bool {
    (b.enabled is Some && !shadow.contains(prefix + "enabled"@) ==> r.enabled == b.enabled)
    && (b.bind_addr is Some && !shadow.contains(prefix + "bind_addr"@) ==> r.bind_addr == b.bind_addr)
    && (b.port is Some && !shadow.contains(prefix + "port"@) ==> r.port == b.port)
    && (b.path is Some && !shadow.contains(prefix + "path"@) ==> r.path == b.path)
}

pub open spec fn kept_opt_metrics_layer(r: Option<MetricsLayer>, b: Option<MetricsLayer>, shadow: Set<Seq<char>>, prefix: Seq<char>) -> bool {
    match b {
        None => true,
        Some(y) => kept_metrics_layer(r.unwrap_or(empty_metrics_layer()), y, shadow, prefix),
    }
}

/// Whether `r` holds the value of every leaf that `b` sets and whose path is not in `shadow`.
pub open spec fn kept_service_config_layer(r: ServiceConfigLayer, b: ServiceConfigLayer, shadow: Set<Seq<char>>, prefix: Seq<char>) -> bool {
    (b.bind_addr is Some && !shadow.contains(prefix + "bind_addr"@) ==> r.bind_addr == b.bind_addr)
    && (b.port is Some && !shadow.contains(prefix + "port"@) ==> r.port == b.port)
    && (b.public_base_url is Some && !shadow.contains(prefix + "public_base_url"@) ==> r.public_base_url == b.public_base_url)
    && kept_opt_metrics_layer(r.metrics, b.metrics, shadow, prefix + "metrics."@)
}

pub open spec fn kept_opt_service_config_layer(r: Option<ServiceConfigLayer>, b: Option<ServiceConfigLayer>, shadow: Set<Seq<char>>, prefix: Seq<char>) -> bool {
    match b {
        None => true,
        Some(y) => kept_service_config_layer(r.unwrap_or(empty_service_config_layer()), y, shadow, prefix),
    }
}

/// Whether `r` holds the value of every leaf that `b` sets and whose path is not in `shadow`.
pub open spec fn kept_service_layer(r: ServiceLayer, b: ServiceLayer, shadow: Set<Seq<char>>, prefix: Seq<char>) -> bool {
    kept_service_transport_layer(r.transport, b.transport, shadow, prefix)
    && kept_opt_service_config_layer(r.service, b.service, shadow, prefix + "service."@)
}

pub open spec fn kept_opt_service_layer(r: Option<ServiceLayer>, b: Option<ServiceLayer>, shadow: Set<Seq<char>>, prefix: Seq<char>) -> bool {
    match b {
        None => true,
        Some(y) => kept_service_layer(r.unwrap_or(empty_service_layer()), y, shadow, prefix),
    }
}

/// Whether `r` holds the value of every leaf that `b` sets and whose path is not in `shadow`.
pub open spec fn kept_services_layer(r: ServicesLayer, b: ServicesLayer, shadow: Set<Seq<char>>, prefix: Seq<char>) -> bool {
    kept_opt_service_endpoint_layer(r.events, b.events, shadow, prefix + "events."@)
    && kept_opt_service_layer(r.runner, b.runner, shadow, prefix + "runner."@)
    && kept_opt_service_layer(r.deployer, b.deployer, shadow, prefix + "deployer."@)
    && kept_opt_service_layer(r.events_transport, b.events_transport, shadow, prefix + "events_transport."@)
    && kept_opt_service_layer(r.source, b.source, shadow, prefix + "source."@)
    && kept_opt_service_layer(r.publish, b.publish, shadow, prefix + "publish."@)
    && kept_opt_service_layer(r.metadata, b.metadata, shadow, prefix + "metadata."@)
    && kept_opt_service_layer(r.oauth_broker, b.oauth_broker, shadow, prefix + "oauth_broker."@)
}

pub open spec fn kept_opt_services_layer(r: Option<ServicesLayer>, b: Option<ServicesLayer>, shadow: Set<Seq<char>>, prefix: Seq<char>) -> bool {
    match b {
        None => true,
        Some(y) => kept_services_layer(r.unwrap_or(empty_services_layer()), y, shadow, prefix),
    }
}

/// Whether `r` holds the value of every leaf that `b` sets and whose path is not in `shadow`.
pub open spec fn kept_reconnect_layer(r: ReconnectLayer, b: ReconnectLayer, shadow: Set<Seq<char>>, prefix: Seq<char>) -> bool {
    (b.enabled is Some && !shadow.contains(prefix + "enabled"@) ==> r.enabled == b.enabled)
    && (b.max_retries is Some && !shadow.contains(prefix + "max_retries"@) ==> r.max_retries == b.max_retries)
}

pub open spec fn kept_opt_reconnect_layer(r: Option<ReconnectLayer>, b: Option<ReconnectLayer>, shadow: Set<Seq<char>>, prefix: Seq<char>) -> bool {
    match b {
        None => true,
        Some(y) => kept_reconnect_layer(r.unwrap_or(empty_reconnect_layer()), y, shadow, prefix),
    }
}

/// Whether `r` holds the value of every leaf that `b` sets and whose path is not in `shadow`.
pub open spec fn kept_backoff_layer(r: BackoffLayer, b: BackoffLayer, shadow: Set<Seq<char>>, prefix: Seq<char>) -> bool {
    (b.initial_ms is Some && !shadow.contains(prefix + "initial_ms"@) ==> r.initial_ms == b.initial_ms)
    && (b.max_ms is Some && !shadow.contains(prefix + "max_ms"@) ==> r.max_ms == b.max_ms)
    && (b.multiplier is Some && !shadow.contains(prefix + "multiplier"@) ==> r.multiplier == b.multiplier)
    && (b.jitter is Some && !shadow.contains(prefix + "jitter"@) ==> r.jitter == b.jitter)
}

pub open spec fn kept_opt_backoff_layer(r: Option<BackoffLayer>, b: Option<BackoffLayer>, shadow: Set<Seq<char>>, prefix: Seq<char>) -> bool {
    match b {
        None => true,
        Some(y) => kept_backoff_layer(r.unwrap_or(empty_backoff_layer()), y, shadow, prefix),
    }
}

/// Whether `r` holds the value of every leaf that `b` sets and whose path is not in `shadow`.
pub open spec fn kept_events_layer(r: EventsLayer, b: EventsLayer, shadow: Set<Seq<char>>, prefix: Seq<char>) -> bool {
    kept_opt_reconnect_layer(r.reconnect, b.reconnect, shadow, prefix + "reconnect."@)
    && kept_opt_backoff_layer(r.backoff, b.backoff, shadow, prefix + "backoff."@)
}

pub open spec fn kept_opt_events_layer(r: Option<EventsLayer>, b: Option<EventsLayer>, shadow: Set<Seq<char>>, prefix: Seq<char>) -> bool {
    match b {
        None => true,
        Some(y) => kept_events_layer(r.unwrap_or(empty_events_layer()), y, shadow, prefix),
    }
}

/// Whether `r` holds the value of every leaf that `b` sets and whose path is not in `shadow`.
pub open spec fn kept_admin_endpoints_layer(r: AdminEndpointsLayer, b: AdminEndpointsLayer, shadow: Set<Seq<char>>, prefix: Seq<char>) -> bool {
    (b.secrets_explain_enabled is Some && !shadow.contains(prefix + "secrets_explain_enabled"@) ==> r.secrets_explain_enabled == b.secrets_explain_enabled)
}

pub open spec fn kept_opt_admin_endpoints_layer(r: Option<AdminEndpointsLayer>, b: Option<AdminEndpointsLayer>, shadow: Set<Seq<char>>, prefix: Seq<char>) -> bool {
    match b {
        None => true,
        Some(y) => kept_admin_endpoints_layer(r.unwrap_or(empty_admin_endpoints_layer()), y, shadow, prefix),
    }
}

/// Whether `r` holds the value of every leaf that `b` sets and whose path is not in `shadow`.
pub open spec fn kept_runtime_layer(r: RuntimeLayer, b: RuntimeLayer, shadow: Set<Seq<char>>, prefix: Seq<char>) -> bool {
    (b.max_concurrency is Some && !shadow.contains(prefix + "max_concurrency"@) ==> r.max_concurrency == b.max_concurrency)
    && (b.task_timeout_ms is Some && !shadow.contains(prefix + "task_timeout_ms"@) ==> r.task_timeout_ms == b.task_timeout_ms)
    && (b.shutdown_grace_ms is Some && !shadow.contains(prefix + "shutdown_grace_ms"@) ==> r.shutdown_grace_ms == b.shutdown_grace_ms)
    && kept_opt_admin_endpoints_layer(r.admin_endpoints, b.admin_endpoints, shadow, prefix + "admin_endpoints."@)
}

pub open spec fn kept_opt_runtime_layer(r: Option<RuntimeLayer>, b: Option<RuntimeLayer>, shadow: Set<Seq<char>>, prefix: Seq<char>) -> bool {
    match b {
        None => true,
        Some(y) => kept_runtime_layer(r.unwrap_or(empty_runtime_layer()), y, shadow, prefix),
    }
}

/// Whether `r` holds the value of every leaf that `b` sets and whose path is not in `shadow`.
pub open spec fn kept_telemetry_layer(r: TelemetryLayer, b: TelemetryLayer, shadow: Set<Seq<char>>, prefix: Seq<char>) -> bool {
    (b.enabled is Some && !shadow.contains(prefix + "enabled"@) ==> r.enabled == b.enabled)
    && (b.exporter is Some && !shadow.contains(prefix + "exporter"@) ==> r.exporter == b.exporter)
    && (b.endpoint is Some && !shadow.contains(prefix + "endpoint"@) ==> r.endpoint == b.endpoint)
    && (b.sampling is Some && !shadow.contains(prefix + "sampling"@) ==> r.sampling == b.sampling)
}

pub open spec fn kept_opt_telemetry_layer(r: Option<TelemetryLayer>, b: Option<TelemetryLayer>, shadow: Set<Seq<char>>, prefix: Seq<char>) -> bool {
    match b {
        None => true,
        Some(y) => kept_telemetry_layer(r.unwrap_or(empty_telemetry_layer()), y, shadow, prefix),
    }
}

/// Whether `r` holds the value of every leaf that `b` sets and whose path is not in `shadow`.
pub open spec fn kept_network_layer(r: NetworkLayer, b: NetworkLayer, shadow: Set<Seq<char>>, prefix: Seq<char>) -> bool {
    (b.proxy_url is Some && !shadow.contains(prefix + "proxy_url"@) ==> r.proxy_url == b.proxy_url)
    && (b.tls_mode is Some && !shadow.contains(prefix + "tls_mode"@) ==> r.tls_mode == b.tls_mode)
    && (b.connect_timeout_ms is Some && !shadow.contains(prefix + "connect_timeout_ms"@) ==> r.connect_timeout_ms == b.connect_timeout_ms)
    && (b.read_timeout_ms is Some && !shadow.contains(prefix + "read_timeout_ms"@) ==> r.read_timeout_ms == b.read_timeout_ms)
}

pub open spec fn kept_opt_network_layer(r: Option<NetworkLayer>, b: Option<NetworkLayer>, shadow: Set<Seq<char>>, prefix: Seq<char>) -> bool {
    match b {
        None => true,
        Some(y) => kept_network_layer(r.unwrap_or(empty_network_layer()), y, shadow, prefix),
    }
}

/// Whether `r` holds the value of every leaf that `b` sets and whose path is not in `shadow`.
pub open spec fn kept_deployer_provider_defaults_layer(r: DeployerProviderDefaultsLayer, b: DeployerProviderDefaultsLayer, shadow: Set<Seq<char>>, prefix: Seq<char>) -> bool {
    (b.provider_kind is Some && !shadow.contains(prefix + "provider_kind"@) ==> r.provider_kind == b.provider_kind)
    && (b.region is Some && !shadow.contains(prefix + "region"@) ==> r.region == b.region)
}

pub open spec fn kept_opt_deployer_provider_defaults_layer(r: Option<DeployerProviderDefaultsLayer>, b: Option<DeployerProviderDefaultsLayer>, shadow: Set<Seq<char>>, prefix: Seq<char>) -> bool {
    match b {
        None => true,
        Some(y) => kept_deployer_provider_defaults_layer(r.unwrap_or(empty_deployer_provider_defaults_layer()), y, shadow, prefix),
    }
}

/// Whether `r` holds the value of every leaf that `b` sets and whose path is not in `shadow`.
pub open spec fn kept_deployer_layer(r: DeployerLayer, b: DeployerLayer, shadow: Set<Seq<char>>, prefix: Seq<char>) -> bool {
    (b.base_domain is Some && !shadow.contains(prefix + "base_domain"@) ==> r.base_domain == b.base_domain)
    && kept_opt_deployer_provider_defaults_layer(r.provider, b.provider, shadow, prefix + "provider."@)
}

pub open spec fn kept_opt_deployer_layer(r: Option<DeployerLayer>, b: Option<DeployerLayer>, shadow: Set<Seq<char>>, prefix: Seq<char>) -> bool {
    match b {
        None => true,
        Some(y) => kept_deployer_layer(r.unwrap_or(empty_deployer_layer()), y, shadow, prefix),
    }
}

/// Whether `r` holds the value of every leaf that `b` sets and whose path is not in `shadow`.
pub open spec fn kept_secrets_backend_ref_layer(r: SecretsBackendRefLayer, b: SecretsBackendRefLayer, shadow: Set<Seq<char>>, prefix: Seq<char>) -> bool {
    (b.kind is Some && !shadow.contains(prefix + "kind"@) ==> r.kind == b.kind)
    && (b.reference is Some && !shadow.contains(prefix + "reference"@) ==> r.reference == b.reference)
}

pub open spec fn kept_opt_secrets_backend_ref_layer(r: Option<SecretsBackendRefLayer>, b: Option<SecretsBackendRefLayer>, shadow: Set<Seq<char>>, prefix: Seq<char>) -> bool {
    match b {
        None => true,
        Some(y) => kept_secrets_backend_ref_layer(r.unwrap_or(empty_secrets_backend_ref_layer()), y, shadow, prefix),
    }
}

/// Whether `r` holds the value of every leaf that `b` sets and whose path is not in `shadow`.
pub open spec fn kept_pack_trust_layer(r: PackTrustLayer, b: PackTrustLayer, shadow: Set<Seq<char>>, prefix: Seq<char>) -> bool {
    (b.public_keys is Some && !shadow.contains(prefix + "public_keys"@) ==> r.public_keys == b.public_keys)
    && (b.require_signatures is Some && !shadow.contains(prefix + "require_signatures"@) ==> r.require_signatures == b.require_signatures)
}

pub open spec fn kept_opt_pack_trust_layer(r: Option<PackTrustLayer>, b: Option<PackTrustLayer>, shadow: Set<Seq<char>>, prefix: Seq<char>) -> bool {
    match b {
        None => true,
        Some(y) => kept_pack_trust_layer(r.unwrap_or(empty_pack_trust_layer()), y, shadow, prefix),
    }
}

/// Whether `r` holds the value of every leaf that `b` sets and whose path is not in `shadow`.
pub open spec fn kept_packs_layer(r: PacksLayer, b: PacksLayer, shadow: Set<Seq<char>>, prefix: Seq<char>) -> bool {
    (b.source is Some && !shadow.contains(prefix + "source"@) ==> r.source == b.source)
    && (b.cache_dir is Some && !shadow.contains(prefix + "cache_dir"@) ==> r.cache_dir == b.cache_dir)
    && (b.index_cache_ttl_secs is Some && !shadow.contains(prefix + "index_cache_ttl_secs"@) ==> r.index_cache_ttl_secs == b.index_cache_ttl_secs)
    && kept_opt_pack_trust_layer(r.trust, b.trust, shadow, prefix + "trust."@)
}

pub open spec fn kept_opt_packs_layer(r: Option<PacksLayer>, b: Option<PacksLayer>, shadow: Set<Seq<char>>, prefix: Seq<char>) -> bool {
    match b {
        None => true,
        Some(y) => kept_packs_layer(r.unwrap_or(empty_packs_layer()), y, shadow, prefix),
    }
}

/// Whether `r` holds the value of every leaf that `b` sets and whose path is not in `shadow`.
pub open spec fn kept_dev_layer(r: DevLayer, b: DevLayer, shadow: Set<Seq<char>>, prefix: Seq<char>) -> bool {
    (b.default_env is Some && !shadow.contains(prefix + "default_env"@) ==> r.default_env == b.default_env)
    && (b.default_tenant is Some && !shadow.contains(prefix + "default_tenant"@) ==> r.default_tenant == b.default_tenant)
    && (b.default_team is Some && !shadow.contains(prefix + "default_team"@) ==> r.default_team == b.default_team)
}

pub open spec fn kept_opt_dev_layer(r: Option<DevLayer>, b: Option<DevLayer>, shadow: Set<Seq<char>>, prefix: Seq<char>) -> bool {
    match b {
        None => true,
        Some(y) => kept_dev_layer(r.unwrap_or(empty_dev_layer()), y, shadow, prefix),
    }
}

/// Whether `r` holds the value of every leaf that `b` sets and whose path is not in `shadow`.
pub open spec fn kept_config_layer(r: ConfigLayer, b: ConfigLayer, shadow: Set<Seq<char>>, prefix: Seq<char>) -> bool {
    (b.schema_version is Some && !shadow.contains(prefix + "schema_version"@) ==> r.schema_version == b.schema_version)
    && kept_opt_environment_layer(r.environment, b.environment, shadow, prefix + "environment."@)
    && kept_opt_paths_layer(r.paths, b.paths, shadow, prefix + "paths."@)
    && kept_opt_services_layer(r.services, b.services, shadow, prefix + "services."@)
    && kept_opt_events_layer(r.events, b.events, shadow, prefix + "events."@)
    && kept_opt_runtime_layer(r.runtime, b.runtime, shadow, prefix + "runtime."@)
    && kept_opt_telemetry_layer(r.telemetry, b.telemetry, shadow, prefix + "telemetry."@)
    && kept_opt_network_layer(r.network, b.network, shadow, prefix + "network."@)
    && kept_opt_deployer_layer(r.deployer, b.deployer, shadow, prefix + "deployer."@)
    && kept_opt_secrets_backend_ref_layer(r.secrets, b.secrets, shadow, prefix + "secrets."@)
    && kept_opt_packs_layer(r.packs, b.packs, shadow, prefix + "packs."@)
    && kept_opt_dev_layer(r.dev, b.dev, shadow, prefix + "dev."@)
}

proof fn lemma_kept_agrees_environment_layer(r: EnvironmentLayer, b: EnvironmentLayer, shadow: Set<Seq<char>>, prefix: Seq<char>)
    requires
        agrees_environment_layer(r, b),
    ensures
        kept_environment_layer(r, b, shadow, prefix),
{

}

proof fn lemma_kept_agrees_opt_environment_layer(r: Option<EnvironmentLayer>, b: Option<EnvironmentLayer>, shadow: Set<Seq<char>>, prefix: Seq<char>)
    requires
        agrees_opt_environment_layer(r, b),
    ensures
        kept_opt_environment_layer(r, b, shadow, prefix),
{
    if let Some(y) = b {
        lemma_kept_agrees_environment_layer(r->0, y, shadow, prefix);
    }
}

proof fn lemma_kept_mono_environment_layer(r: EnvironmentLayer, b: EnvironmentLayer, s1: Set<Seq<char>>, s2: Set<Seq<char>>, prefix: Seq<char>)
    requires
        kept_environment_layer(r, b, s1, prefix),
        within(s1, s2),
    ensures
        kept_environment_layer(r, b, s2, prefix),
{
    assert(s1.contains(prefix + "env_id"@) ==> s2.contains(prefix + "env_id"@));
    assert(s1.contains(prefix + "deployment"@) ==> s2.contains(prefix + "deployment"@));
    assert(s1.contains(prefix + "connection"@) ==> s2.contains(prefix + "connection"@));
    assert(s1.contains(prefix + "region"@) ==> s2.contains(prefix + "region"@));

}

proof fn lemma_kept_mono_opt_environment_layer(r: Option<EnvironmentLayer>, b: Option<EnvironmentLayer>, s1: Set<Seq<char>>, s2: Set<Seq<char>>, prefix: Seq<char>)
    requires
        kept_opt_environment_layer(r, b, s1, prefix),
        within(s1, s2),
    ensures
        kept_opt_environment_layer(r, b, s2, prefix),
{
    if let Some(y) = b {
        lemma_kept_mono_environment_layer(r.unwrap_or(empty_environment_layer()), y, s1, s2, prefix);
    }
}

proof fn lemma_kept_step_environment_layer(a: EnvironmentLayer, b: EnvironmentLayer, c: EnvironmentLayer, s1: Set<Seq<char>>, s2: Set<Seq<char>>, prefix: Seq<char>)
    requires
        kept_environment_layer(a, b, s1, prefix),
        within(s1, s2),
        within(keys_environment_layer(c, prefix), s2),
    ensures
        kept_environment_layer(overlay_environment_layer(a, c), b, s2, prefix),
{
    if c.env_id is Some {
        assert(keys_environment_layer(c, prefix).contains(prefix + "env_id"@));
    }
    assert(s1.contains(prefix + "env_id"@) ==> s2.contains(prefix + "env_id"@));
    if c.deployment is Some {
        assert(keys_environment_layer(c, prefix).contains(prefix + "deployment"@));
    }
    assert(s1.contains(prefix + "deployment"@) ==> s2.contains(prefix + "deployment"@));
    if c.connection is Some {
        assert(keys_environment_layer(c, prefix).contains(prefix + "connection"@));
    }
    assert(s1.contains(prefix + "connection"@) ==> s2.contains(prefix + "connection"@));
    if c.region is Some {
        assert(keys_environment_layer(c, prefix).contains(prefix + "region"@));
    }
    assert(s1.contains(prefix + "region"@) ==> s2.contains(prefix + "region"@));

}

proof fn lemma_kept_step_opt_environment_layer(a: Option<EnvironmentLayer>, b: Option<EnvironmentLayer>, c: Option<EnvironmentLayer>, s1: Set<Seq<char>>, s2: Set<Seq<char>>, prefix: Seq<char>)
    requires
        kept_opt_environment_layer(a, b, s1, prefix),
        within(s1, s2),
        within(keys_opt_environment_layer(c, prefix), s2),
    ensures
        kept_opt_environment_layer(overlay_opt_environment_layer(a, c), b, s2, prefix),
{
    if let Some(y) = b {
        match c {
            None => {
                lemma_kept_mono_environment_layer(a.unwrap_or(empty_environment_layer()), y, s1, s2, prefix);
            },
            Some(z) => {
                lemma_kept_step_environment_layer(a.unwrap_or(empty_environment_layer()), y, z, s1, s2, prefix);
            },
        }
    }
}

proof fn lemma_kept_agrees_paths_layer(r: PathsLayer, b: PathsLayer, shadow: Set<Seq<char>>, prefix: Seq<char>)
    requires
        agrees_paths_layer(r, b),
    ensures
        kept_paths_layer(r, b, shadow, prefix),
{

}

proof fn lemma_kept_agrees_opt_paths_layer(r: Option<PathsLayer>, b: Option<PathsLayer>, shadow: Set<Seq<char>>, prefix: Seq<char>)
    requires
        agrees_opt_paths_layer(r, b),
    ensures
        kept_opt_paths_layer(r, b, shadow, prefix),
{
    if let Some(y) = b {
        lemma_kept_agrees_paths_layer(r->0, y, shadow, prefix);
    }
}

proof fn lemma_kept_mono_paths_layer(r: PathsLayer, b: PathsLayer, s1: Set<Seq<char>>, s2: Set<Seq<char>>, prefix: Seq<char>)
    requires
        kept_paths_layer(r, b, s1, prefix),
        within(s1, s2),
    ensures
        kept_paths_layer(r, b, s2, prefix),
{
    assert(s1.contains(prefix + "greentic_root"@) ==> s2.contains(prefix + "greentic_root"@));
    assert(s1.contains(prefix + "state_dir"@) ==> s2.contains(prefix + "state_dir"@));
    assert(s1.contains(prefix + "cache_dir"@) ==> s2.contains(prefix + "cache_dir"@));
    assert(s1.contains(prefix + "logs_dir"@) ==> s2.contains(prefix + "logs_dir"@));

}

proof fn lemma_kept_mono_opt_paths_layer(r: Option<PathsLayer>, b: Option<PathsLayer>, s1: Set<Seq<char>>, s2: Set<Seq<char>>, prefix: Seq<char>)
    requires
        kept_opt_paths_layer(r, b, s1, prefix),
        within(s1, s2),
    ensures
        kept_opt_paths_layer(r, b, s2, prefix),
{
    if let Some(y) = b {
        lemma_kept_mono_paths_layer(r.unwrap_or(empty_paths_layer()), y, s1, s2, prefix);
    }
}

proof fn lemma_kept_step_paths_layer(a: PathsLayer, b: PathsLayer, c: PathsLayer, s1: Set<Seq<char>>, s2: Set<Seq<char>>, prefix: Seq<char>)
    requires
        kept_paths_layer(a, b, s1, prefix),
        within(s1, s2),
        within(keys_paths_layer(c, prefix), s2),
    ensures
        kept_paths_layer(overlay_paths_layer(a, c), b, s2, prefix),
{
    if c.greentic_root is Some {
        assert(keys_paths_layer(c, prefix).contains(prefix + "greentic_root"@));
    }
    assert(s1.contains(prefix + "greentic_root"@) ==> s2.contains(prefix + "greentic_root"@));
    if c.state_dir is Some {
        assert(keys_paths_layer(c, prefix).contains(prefix + "state_dir"@));
    }
    assert(s1.contains(prefix + "state_dir"@) ==> s2.contains(prefix + "state_dir"@));
    if c.cache_dir is Some {
        assert(keys_paths_layer(c, prefix).contains(prefix + "cache_dir"@));
    }
    assert(s1.contains(prefix + "cache_dir"@) ==> s2.contains(prefix + "cache_dir"@));
    if c.logs_dir is Some {
        assert(keys_paths_layer(c, prefix).contains(prefix + "logs_dir"@));
    }
    assert(s1.contains(prefix + "logs_dir"@) ==> s2.contains(prefix + "logs_dir"@));

}

proof fn lemma_kept_step_opt_paths_layer(a: Option<PathsLayer>, b: Option<PathsLayer>, c: Option<PathsLayer>, s1: Set<Seq<char>>, s2: Set<Seq<char>>, prefix: Seq<char>)
    requires
        kept_opt_paths_layer(a, b, s1, prefix),
        within(s1, s2),
        within(keys_opt_paths_layer(c, prefix), s2),
    ensures
        kept_opt_paths_layer(overlay_opt_paths_layer(a, c), b, s2, prefix),
{
    if let Some(y) = b {
        match c {
            None => {
                lemma_kept_mono_paths_layer(a.unwrap_or(empty_paths_layer()), y, s1, s2, prefix);
            },
            Some(z) => {
                lemma_kept_step_paths_layer(a.unwrap_or(empty_paths_layer()), y, z, s1, s2, prefix);
            },
        }
    }
}

proof fn lemma_kept_agrees_service_endpoint_layer(r: ServiceEndpointLayer, b: ServiceEndpointLayer, shadow: Set<Seq<char>>, prefix: Seq<char>)
    requires
        agrees_service_endpoint_layer(r, b),
    ensures
        kept_service_endpoint_layer(r, b, shadow, prefix),
{

}

proof fn lemma_kept_agrees_opt_service_endpoint_layer(r: Option<ServiceEndpointLayer>, b: Option<ServiceEndpointLayer>, shadow: Set<Seq<char>>, prefix: Seq<char>)
    requires
        agrees_opt_service_endpoint_layer(r, b),
    ensures
        kept_opt_service_endpoint_layer(r, b, shadow, prefix),
{
    if let Some(y) = b {
        lemma_kept_agrees_service_endpoint_layer(r->0, y, shadow, prefix);
    }
}

proof fn lemma_kept_mono_service_endpoint_layer(r: ServiceEndpointLayer, b: ServiceEndpointLayer, s1: Set<Seq<char>>, s2: Set<Seq<char>>, prefix: Seq<char>)
    requires
        kept_service_endpoint_layer(r, b, s1, prefix),
        within(s1, s2),
    ensures
        kept_service_endpoint_layer(r, b, s2, prefix),
{
    assert(s1.contains(prefix + "url"@) ==> s2.contains(prefix + "url"@));
    assert(s1.contains(prefix + "headers"@) ==> s2.contains(prefix + "headers"@));

}

proof fn lemma_kept_mono_opt_service_endpoint_layer(r: Option<ServiceEndpointLayer>, b: Option<ServiceEndpointLayer>, s1: Set<Seq<char>>, s2: Set<Seq<char>>, prefix: Seq<char>)
    requires
        kept_opt_service_endpoint_layer(r, b, s1, prefix),
        within(s1, s2),
    ensures
        kept_opt_service_endpoint_layer(r, b, s2, prefix),
{
    if let Some(y) = b {
        lemma_kept_mono_service_endpoint_layer(r.unwrap_or(empty_service_endpoint_layer()), y, s1, s2, prefix);
    }
}

proof fn lemma_kept_step_service_endpoint_layer(a: ServiceEndpointLayer, b: ServiceEndpointLayer, c: ServiceEndpointLayer, s1: Set<Seq<char>>, s2: Set<Seq<char>>, prefix: Seq<char>)
    requires
        kept_service_endpoint_layer(a, b, s1, prefix),
        within(s1, s2),
        within(keys_service_endpoint_layer(c, prefix), s2),
    ensures
        kept_service_endpoint_layer(overlay_service_endpoint_layer(a, c), b, s2, prefix),
{
    if c.url is Some {
        assert(keys_service_endpoint_layer(c, prefix).contains(prefix + "url"@));
    }
    assert(s1.contains(prefix + "url"@) ==> s2.contains(prefix + "url"@));
    if c.headers is Some {
        assert(keys_service_endpoint_layer(c, prefix).contains(prefix + "headers"@));
    }
    assert(s1.contains(prefix + "headers"@) ==> s2.contains(prefix + "headers"@));

}

proof fn lemma_kept_step_opt_service_endpoint_layer(a: Option<ServiceEndpointLayer>, b: Option<ServiceEndpointLayer>, c: Option<ServiceEndpointLayer>, s1: Set<Seq<char>>, s2: Set<Seq<char>>, prefix: Seq<char>)
    requires
        kept_opt_service_endpoint_layer(a, b, s1, prefix),
        within(s1, s2),
        within(keys_opt_service_endpoint_layer(c, prefix), s2),
    ensures
        kept_opt_service_endpoint_layer(overlay_opt_service_endpoint_layer(a, c), b, s2, prefix),
{
    if let Some(y) = b {
        match c {
            None => {
                lemma_kept_mono_service_endpoint_layer(a.unwrap_or(empty_service_endpoint_layer()), y, s1, s2, prefix);
            },
            Some(z) => {
                lemma_kept_step_service_endpoint_layer(a.unwrap_or(empty_service_endpoint_layer()), y, z, s1, s2, prefix);
            },
        }
    }
}

proof fn lemma_kept_agrees_service_transport_layer(r: ServiceTransportLayer, b: ServiceTransportLayer, shadow: Set<Seq<char>>, prefix: Seq<char>)
    requires
        agrees_service_transport_layer(r, b),
    ensures
        kept_service_transport_layer(r, b, shadow, prefix),
{

}

proof fn lemma_kept_mono_service_transport_layer(r: ServiceTransportLayer, b: ServiceTransportLayer, s1: Set<Seq<char>>, s2: Set<Seq<char>>, prefix: Seq<char>)
    requires
        kept_service_transport_layer(r, b, s1, prefix),
        within(s1, s2),
    ensures
        kept_service_transport_layer(r, b, s2, prefix),
{
    assert(s1.contains(prefix + "kind"@) ==> s2.contains(prefix + "kind"@));
    assert(s1.contains(prefix + "url"@) ==> s2.contains(prefix + "url"@));
    assert(s1.contains(prefix + "headers"@) ==> s2.contains(prefix + "headers"@));
    assert(s1.contains(prefix + "subject_prefix"@) ==> s2.contains(prefix + "subject_prefix"@));

}

proof fn lemma_kept_step_service_transport_layer(a: ServiceTransportLayer, b: ServiceTransportLayer, c: ServiceTransportLayer, s1: Set<Seq<char>>, s2: Set<Seq<char>>, prefix: Seq<char>)
    requires
        kept_service_transport_layer(a, b, s1, prefix),
        within(s1, s2),
        within(keys_service_transport_layer(c, prefix), s2),
    ensures
        kept_service_transport_layer(overlay_service_transport_layer(a, c), b, s2, prefix),
{
    if c.kind is Some {
        assert(keys_service_transport_layer(c, prefix).contains(prefix + "kind"@));
    }
    assert(s1.contains(prefix + "kind"@) ==> s2.contains(prefix + "kind"@));
    if c.url is Some {
        assert(keys_service_transport_layer(c, prefix).contains(prefix + "url"@));
    }
    assert(s1.contains(prefix + "url"@) ==> s2.contains(prefix + "url"@));
    if c.headers is Some {
        assert(keys_service_transport_layer(c, prefix).contains(prefix + "headers"@));
    }
    assert(s1.contains(prefix + "headers"@) ==> s2.contains(prefix + "headers"@));
    if c.subject_prefix is Some {
        assert(keys_service_transport_layer(c, prefix).contains(prefix + "subject_prefix"@));
    }
    assert(s1.contains(prefix + "subject_prefix"@) ==> s2.contains(prefix + "subject_prefix"@));

}

proof fn lemma_kept_agrees_metrics_layer(r: MetricsLayer, b: MetricsLayer, shadow: Set<Seq<char>>, prefix: Seq<char>)
    requires
        agrees_metrics_layer(r, b),
    ensures
        kept_metrics_layer(r, b, shadow, prefix),
{

}

proof fn lemma_kept_agrees_opt_metrics_layer(r: Option<MetricsLayer>, b: Option<MetricsLayer>, shadow: Set<Seq<char>>, prefix: Seq<char>)
    requires
        agrees_opt_metrics_layer(r, b),
    ensures
        kept_opt_metrics_layer(r, b, shadow, prefix),
{
    if let Some(y) = b {
        lemma_kept_agrees_metrics_layer(r->0, y, shadow, prefix);
    }
}

proof fn lemma_kept_mono_metrics_layer(r: MetricsLayer, b: MetricsLayer, s1: Set<Seq<char>>, s2: Set<Seq<char>>, prefix: Seq<char>)
    requires
        kept_metrics_layer(r, b, s1, prefix),
        within(s1, s2),
    ensures
        kept_metrics_layer(r, b, s2, prefix),
{
    assert(s1.contains(prefix + "enabled"@) ==> s2.contains(prefix + "enabled"@));
    assert(s1.contains(prefix + "bind_addr"@) ==> s2.contains(prefix + "bind_addr"@));
    assert(s1.contains(prefix + "port"@) ==> s2.contains(prefix + "port"@));
    assert(s1.contains(prefix + "path"@) ==> s2.contains(prefix + "path"@));

}

proof fn lemma_kept_mono_opt_metrics_layer(r: Option<MetricsLayer>, b: Option<MetricsLayer>, s1: Set<Seq<char>>, s2: Set<Seq<char>>, prefix: Seq<char>)
    requires
        kept_opt_metrics_layer(r, b, s1, prefix),
        within(s1, s2),
    ensures
        kept_opt_metrics_layer(r, b, s2, prefix),
{
    if let Some(y) = b {
        lemma_kept_mono_metrics_layer(r.unwrap_or(empty_metrics_layer()), y, s1, s2, prefix);
    }
}

proof fn lemma_kept_step_metrics_layer(a: MetricsLayer, b: MetricsLayer, c: MetricsLayer, s1: Set<Seq<char>>, s2: Set<Seq<char>>, prefix: Seq<char>)
    requires
        kept_metrics_layer(a, b, s1, prefix),
        within(s1, s2),
        within(keys_metrics_layer(c, prefix), s2),
    ensures
        kept_metrics_layer(overlay_metrics_layer(a, c), b, s2, prefix),
{
    if c.enabled is Some {
        assert(keys_metrics_layer(c, prefix).contains(prefix + "enabled"@));
    }
    assert(s1.contains(prefix + "enabled"@) ==> s2.contains(prefix + "enabled"@));
    if c.bind_addr is Some {
        assert(keys_metrics_layer(c, prefix).contains(prefix + "bind_addr"@));
    }
    assert(s1.contains(prefix + "bind_addr"@) ==> s2.contains(prefix + "bind_addr"@));
    if c.port is Some {
        assert(keys_metrics_layer(c, prefix).contains(prefix + "port"@));
    }
    assert(s1.contains(prefix + "port"@) ==> s2.contains(prefix + "port"@));
    if c.path is Some {
        assert(keys_metrics_layer(c, prefix).contains(prefix + "path"@));
    }
    assert(s1.contains(prefix + "path"@) ==> s2.contains(prefix + "path"@));

}

proof fn lemma_kept_step_opt_metrics_layer(a: Option<MetricsLayer>, b: Option<MetricsLayer>, c: Option<MetricsLayer>, s1: Set<Seq<char>>, s2: Set<Seq<char>>, prefix: Seq<char>)
    requires
        kept_opt_metrics_layer(a, b, s1, prefix),
        within(s1, s2),
        within(keys_opt_metrics_layer(c, prefix), s2),
    ensures
        kept_opt_metrics_layer(overlay_opt_metrics_layer(a, c), b, s2, prefix),
{
    if let Some(y) = b {
        match c {
            None => {
                lemma_kept_mono_metrics_layer(a.unwrap_or(empty_metrics_layer()), y, s1, s2, prefix);
            },
            Some(z) => {
                lemma_kept_step_metrics_layer(a.unwrap_or(empty_metrics_layer()), y, z, s1, s2, prefix);
            },
        }
    }
}

proof fn lemma_kept_agrees_service_config_layer(r: ServiceConfigLayer, b: ServiceConfigLayer, shadow: Set<Seq<char>>, prefix: Seq<char>)
    requires
        agrees_service_config_layer(r, b),
    ensures
        kept_service_config_layer(r, b, shadow, prefix),
{
    lemma_kept_agrees_opt_metrics_layer(r.metrics, b.metrics, shadow, prefix + "metrics."@);
}

proof fn lemma_kept_agrees_opt_service_config_layer(r: Option<ServiceConfigLayer>, b: Option<ServiceConfigLayer>, shadow: Set<Seq<char>>, prefix: Seq<char>)
    requires
        agrees_opt_service_config_layer(r, b),
    ensures
        kept_opt_service_config_layer(r, b, shadow, prefix),
{
    if let Some(y) = b {
        lemma_kept_agrees_service_config_layer(r->0, y, shadow, prefix);
    }
}

proof fn lemma_kept_mono_service_config_layer(r: ServiceConfigLayer, b: ServiceConfigLayer, s1: Set<Seq<char>>, s2: Set<Seq<char>>, prefix: Seq<char>)
    requires
        kept_service_config_layer(r, b, s1, prefix),
        within(s1, s2),
    ensures
        kept_service_config_layer(r, b, s2, prefix),
{
    assert(s1.contains(prefix + "bind_addr"@) ==> s2.contains(prefix + "bind_addr"@));
    assert(s1.contains(prefix + "port"@) ==> s2.contains(prefix + "port"@));
    assert(s1.contains(prefix + "public_base_url"@) ==> s2.contains(prefix + "public_base_url"@));
    lemma_kept_mono_opt_metrics_layer(r.metrics, b.metrics, s1, s2, prefix + "metrics."@);
}

proof fn lemma_kept_mono_opt_service_config_layer(r: Option<ServiceConfigLayer>, b: Option<ServiceConfigLayer>, s1: Set<Seq<char>>, s2: Set<Seq<char>>, prefix: Seq<char>)
    requires
        kept_opt_service_config_layer(r, b, s1, prefix),
        within(s1, s2),
    ensures
        kept_opt_service_config_layer(r, b, s2, prefix),
{
    if let Some(y) = b {
        lemma_kept_mono_service_config_layer(r.unwrap_or(empty_service_config_layer()), y, s1, s2, prefix);
    }
}

proof fn lemma_kept_step_service_config_layer(a: ServiceConfigLayer, b: ServiceConfigLayer, c: ServiceConfigLayer, s1: Set<Seq<char>>, s2: Set<Seq<char>>, prefix: Seq<char>)
    requires
        kept_service_config_layer(a, b, s1, prefix),
        within(s1, s2),
        within(keys_service_config_layer(c, prefix), s2),
    ensures
        kept_service_config_layer(overlay_service_config_layer(a, c), b, s2, prefix),
{
    if c.bind_addr is Some {
        assert(keys_service_config_layer(c, prefix).contains(prefix + "bind_addr"@));
    }
    assert(s1.contains(prefix + "bind_addr"@) ==> s2.contains(prefix + "bind_addr"@));
    if c.port is Some {
        assert(keys_service_config_layer(c, prefix).contains(prefix + "port"@));
    }
    assert(s1.contains(prefix + "port"@) ==> s2.contains(prefix + "port"@));
    if c.public_base_url is Some {
        assert(keys_service_config_layer(c, prefix).contains(prefix + "public_base_url"@));
    }
    assert(s1.contains(prefix + "public_base_url"@) ==> s2.contains(prefix + "public_base_url"@));
    assert forall|k: Seq<char>| #[trigger] keys_opt_metrics_layer(c.metrics, prefix + "metrics."@).contains(k) implies s2.contains(k) by {
        assert(keys_service_config_layer(c, prefix).contains(k));
    }
    lemma_kept_step_opt_metrics_layer(a.metrics, b.metrics, c.metrics, s1, s2, prefix + "metrics."@);
}

proof fn lemma_kept_step_opt_service_config_layer(a: Option<ServiceConfigLayer>, b: Option<ServiceConfigLayer>, c: Option<ServiceConfigLayer>, s1: Set<Seq<char>>, s2: Set<Seq<char>>, prefix: Seq<char>)
    requires
        kept_opt_service_config_layer(a, b, s1, prefix),
        within(s1, s2),
        within(keys_opt_service_config_layer(c, prefix), s2),
    ensures
        kept_opt_service_config_layer(overlay_opt_service_config_layer(a, c), b, s2, prefix),
{
    if let Some(y) = b {
        match c {
            None => {
                lemma_kept_mono_service_config_layer(a.unwrap_or(empty_service_config_layer()), y, s1, s2, prefix);
            },
            Some(z) => {
                lemma_kept_step_service_config_layer(a.unwrap_or(empty_service_config_layer()), y, z, s1, s2, prefix);
            },
        }
    }
}

proof fn lemma_kept_agrees_service_layer(r: ServiceLayer, b: ServiceLayer, shadow: Set<Seq<char>>, prefix: Seq<char>)
    requires
        agrees_service_layer(r, b),
    ensures
        kept_service_layer(r, b, shadow, prefix),
{
    lemma_kept_agrees_service_transport_layer(r.transport, b.transport, shadow, prefix);
    lemma_kept_agrees_opt_service_config_layer(r.service, b.service, shadow, prefix + "service."@);
}

proof fn lemma_kept_agrees_opt_service_layer(r: Option<ServiceLayer>, b: Option<ServiceLayer>, shadow: Set<Seq<char>>, prefix: Seq<char>)
    requires
        agrees_opt_service_layer(r, b),
    ensures
        kept_opt_service_layer(r, b, shadow, prefix),
{
    if let Some(y) = b {
        lemma_kept_agrees_service_layer(r->0, y, shadow, prefix);
    }
}

proof fn lemma_kept_mono_service_layer(r: ServiceLayer, b: ServiceLayer, s1: Set<Seq<char>>, s2: Set<Seq<char>>, prefix: Seq<char>)
    requires
        kept_service_layer(r, b, s1, prefix),
        within(s1, s2),
    ensures
        kept_service_layer(r, b, s2, prefix),
{
    lemma_kept_mono_service_transport_layer(r.transport, b.transport, s1, s2, prefix);
    lemma_kept_mono_opt_service_config_layer(r.service, b.service, s1, s2, prefix + "service."@);
}

proof fn lemma_kept_mono_opt_service_layer(r: Option<ServiceLayer>, b: Option<ServiceLayer>, s1: Set<Seq<char>>, s2: Set<Seq<char>>, prefix: Seq<char>)
    requires
        kept_opt_service_layer(r, b, s1, prefix),
        within(s1, s2),
    ensures
        kept_opt_service_layer(r, b, s2, prefix),
{
    if let Some(y) = b {
        lemma_kept_mono_service_layer(r.unwrap_or(empty_service_layer()), y, s1, s2, prefix);
    }
}

proof fn lemma_kept_step_service_layer(a: ServiceLayer, b: ServiceLayer, c: ServiceLayer, s1: Set<Seq<char>>, s2: Set<Seq<char>>, prefix: Seq<char>)
    requires
        kept_service_layer(a, b, s1, prefix),
        within(s1, s2),
        within(keys_service_layer(c, prefix), s2),
    ensures
        kept_service_layer(overlay_service_layer(a, c), b, s2, prefix),
{
    assert forall|k: Seq<char>| #[trigger] keys_service_transport_layer(c.transport, prefix).contains(k) implies s2.contains(k) by {
        assert(keys_service_layer(c, prefix).contains(k));
    }
    assert forall|k: Seq<char>| #[trigger] keys_opt_service_config_layer(c.service, prefix + "service."@).contains(k) implies s2.contains(k) by {
        assert(keys_service_layer(c, prefix).contains(k));
    }
    lemma_kept_step_service_transport_layer(a.transport, b.transport, c.transport, s1, s2, prefix);
    lemma_kept_step_opt_service_config_layer(a.service, b.service, c.service, s1, s2, prefix + "service."@);
}

proof fn lemma_kept_step_opt_service_layer(a: Option<ServiceLayer>, b: Option<ServiceLayer>, c: Option<ServiceLayer>, s1: Set<Seq<char>>, s2: Set<Seq<char>>, prefix: Seq<char>)
    requires
        kept_opt_service_layer(a, b, s1, prefix),
        within(s1, s2),
        within(keys_opt_service_layer(c, prefix), s2),
    ensures
        kept_opt_service_layer(overlay_opt_service_layer(a, c), b, s2, prefix),
{
    if let Some(y) = b {
        match c {
            None => {
                lemma_kept_mono_service_layer(a.unwrap_or(empty_service_layer()), y, s1, s2, prefix);
            },
            Some(z) => {
                lemma_kept_step_service_layer(a.unwrap_or(empty_service_layer()), y, z, s1, s2, prefix);
            },
        }
    }
}

proof fn lemma_kept_agrees_services_layer(r: ServicesLayer, b: ServicesLayer, shadow: Set<Seq<char>>, prefix: Seq<char>)
    requires
        agrees_services_layer(r, b),
    ensures
        kept_services_layer(r, b, shadow, prefix),
{
    lemma_kept_agrees_opt_service_endpoint_layer(r.events, b.events, shadow, prefix + "events."@);
    lemma_kept_agrees_opt_service_layer(r.runner, b.runner, shadow, prefix + "runner."@);
    lemma_kept_agrees_opt_service_layer(r.deployer, b.deployer, shadow, prefix + "deployer."@);
    lemma_kept_agrees_opt_service_layer(r.events_transport, b.events_transport, shadow, prefix + "events_transport."@);
    lemma_kept_agrees_opt_service_layer(r.source, b.source, shadow, prefix + "source."@);
    lemma_kept_agrees_opt_service_layer(r.publish, b.publish, shadow, prefix + "publish."@);
    lemma_kept_agrees_opt_service_layer(r.metadata, b.metadata, shadow, prefix + "metadata."@);
    lemma_kept_agrees_opt_service_layer(r.oauth_broker, b.oauth_broker, shadow, prefix + "oauth_broker."@);
}

proof fn lemma_kept_agrees_opt_services_layer(r: Option<ServicesLayer>, b: Option<ServicesLayer>, shadow: Set<Seq<char>>, prefix: Seq<char>)
    requires
        agrees_opt_services_layer(r, b),
    ensures
        kept_opt_services_layer(r, b, shadow, prefix),
{
    if let Some(y) = b {
        lemma_kept_agrees_services_layer(r->0, y, shadow, prefix);
    }
}

proof fn lemma_kept_mono_services_layer(r: ServicesLayer, b: ServicesLayer, s1: Set<Seq<char>>, s2: Set<Seq<char>>, prefix: Seq<char>)
    requires
        kept_services_layer(r, b, s1, prefix),
        within(s1, s2),
    ensures
        kept_services_layer(r, b, s2, prefix),
{
    lemma_kept_mono_opt_service_endpoint_layer(r.events, b.events, s1, s2, prefix + "events."@);
    lemma_kept_mono_opt_service_layer(r.runner, b.runner, s1, s2, prefix + "runner."@);
    lemma_kept_mono_opt_service_layer(r.deployer, b.deployer, s1, s2, prefix + "deployer."@);
    lemma_kept_mono_opt_service_layer(r.events_transport, b.events_transport, s1, s2, prefix + "events_transport."@);
    lemma_kept_mono_opt_service_layer(r.source, b.source, s1, s2, prefix + "source."@);
    lemma_kept_mono_opt_service_layer(r.publish, b.publish, s1, s2, prefix + "publish."@);
    lemma_kept_mono_opt_service_layer(r.metadata, b.metadata, s1, s2, prefix + "metadata."@);
    lemma_kept_mono_opt_service_layer(r.oauth_broker, b.oauth_broker, s1, s2, prefix + "oauth_broker."@);
}

proof fn lemma_kept_mono_opt_services_layer(r: Option<ServicesLayer>, b: Option<ServicesLayer>, s1: Set<Seq<char>>, s2: Set<Seq<char>>, prefix: Seq<char>)
    requires
        kept_opt_services_layer(r, b, s1, prefix),
        within(s1, s2),
    ensures
        kept_opt_services_layer(r, b, s2, prefix),
{
    if let Some(y) = b {
        lemma_kept_mono_services_layer(r.unwrap_or(empty_services_layer()), y, s1, s2, prefix);
    }
}

proof fn lemma_kept_step_services_layer(a: ServicesLayer, b: ServicesLayer, c: ServicesLayer, s1: Set<Seq<char>>, s2: Set<Seq<char>>, prefix: Seq<char>)
    requires
        kept_services_layer(a, b, s1, prefix),
        within(s1, s2),
        within(keys_services_layer(c, prefix), s2),
    ensures
        kept_services_layer(overlay_services_layer(a, c), b, s2, prefix),
{
    assert forall|k: Seq<char>| #[trigger] keys_opt_service_endpoint_layer(c.events, prefix + "events."@).contains(k) implies s2.contains(k) by {
        assert(keys_services_layer(c, prefix).contains(k));
    }
    assert forall|k: Seq<char>| #[trigger] keys_opt_service_layer(c.runner, prefix + "runner."@).contains(k) implies s2.contains(k) by {
        assert(keys_services_layer(c, prefix).contains(k));
    }
    assert forall|k: Seq<char>| #[trigger] keys_opt_service_layer(c.deployer, prefix + "deployer."@).contains(k) implies s2.contains(k) by {
        assert(keys_services_layer(c, prefix).contains(k));
    }
    assert forall|k: Seq<char>| #[trigger] keys_opt_service_layer(c.events_transport, prefix + "events_transport."@).contains(k) implies s2.contains(k) by {
        assert(keys_services_layer(c, prefix).contains(k));
    }
    assert forall|k: Seq<char>| #[trigger] keys_opt_service_layer(c.source, prefix + "source."@).contains(k) implies s2.contains(k) by {
        assert(keys_services_layer(c, prefix).contains(k));
    }
    assert forall|k: Seq<char>| #[trigger] keys_opt_service_layer(c.publish, prefix + "publish."@).contains(k) implies s2.contains(k) by {
        assert(keys_services_layer(c, prefix).contains(k));
    }
    assert forall|k: Seq<char>| #[trigger] keys_opt_service_layer(c.metadata, prefix + "metadata."@).contains(k) implies s2.contains(k) by {
        assert(keys_services_layer(c, prefix).contains(k));
    }
    assert forall|k: Seq<char>| #[trigger] keys_opt_service_layer(c.oauth_broker, prefix + "oauth_broker."@).contains(k) implies s2.contains(k) by {
        assert(keys_services_layer(c, prefix).contains(k));
    }
    lemma_kept_step_opt_service_endpoint_layer(a.events, b.events, c.events, s1, s2, prefix + "events."@);
    lemma_kept_step_opt_service_layer(a.runner, b.runner, c.runner, s1, s2, prefix + "runner."@);
    lemma_kept_step_opt_service_layer(a.deployer, b.deployer, c.deployer, s1, s2, prefix + "deployer."@);
    lemma_kept_step_opt_service_layer(a.events_transport, b.events_transport, c.events_transport, s1, s2, prefix + "events_transport."@);
    lemma_kept_step_opt_service_layer(a.source, b.source, c.source, s1, s2, prefix + "source."@);
    lemma_kept_step_opt_service_layer(a.publish, b.publish, c.publish, s1, s2, prefix + "publish."@);
    lemma_kept_step_opt_service_layer(a.metadata, b.metadata, c.metadata, s1, s2, prefix + "metadata."@);
    lemma_kept_step_opt_service_layer(a.oauth_broker, b.oauth_broker, c.oauth_broker, s1, s2, prefix + "oauth_broker."@);
}

proof fn lemma_kept_step_opt_services_layer(a: Option<ServicesLayer>, b: Option<ServicesLayer>, c: Option<ServicesLayer>, s1: Set<Seq<char>>, s2: Set<Seq<char>>, prefix: Seq<char>)
    requires
        kept_opt_services_layer(a, b, s1, prefix),
        within(s1, s2),
        within(keys_opt_services_layer(c, prefix), s2),
    ensures
        kept_opt_services_layer(overlay_opt_services_layer(a, c), b, s2, prefix),
{
    if let Some(y) = b {
        match c {
            None => {
                lemma_kept_mono_services_layer(a.unwrap_or(empty_services_layer()), y, s1, s2, prefix);
            },
            Some(z) => {
                lemma_kept_step_services_layer(a.unwrap_or(empty_services_layer()), y, z, s1, s2, prefix);
            },
        }
    }
}

proof fn lemma_kept_agrees_reconnect_layer(r: ReconnectLayer, b: ReconnectLayer, shadow: Set<Seq<char>>, prefix: Seq<char>)
    requires
        agrees_reconnect_layer(r, b),
    ensures
        kept_reconnect_layer(r, b, shadow, prefix),
{

}

proof fn lemma_kept_agrees_opt_reconnect_layer(r: Option<ReconnectLayer>, b: Option<ReconnectLayer>, shadow: Set<Seq<char>>, prefix: Seq<char>)
    requires
        agrees_opt_reconnect_layer(r, b),
    ensures
        kept_opt_reconnect_layer(r, b, shadow, prefix),
{
    if let Some(y) = b {
        lemma_kept_agrees_reconnect_layer(r->0, y, shadow, prefix);
    }
}

proof fn lemma_kept_mono_reconnect_layer(r: ReconnectLayer, b: ReconnectLayer, s1: Set<Seq<char>>, s2: Set<Seq<char>>, prefix: Seq<char>)
    requires
        kept_reconnect_layer(r, b, s1, prefix),
        within(s1, s2),
    ensures
        kept_reconnect_layer(r, b, s2, prefix),
{
    assert(s1.contains(prefix + "enabled"@) ==> s2.contains(prefix + "enabled"@));
    assert(s1.contains(prefix + "max_retries"@) ==> s2.contains(prefix + "max_retries"@));

}

proof fn lemma_kept_mono_opt_reconnect_layer(r: Option<ReconnectLayer>, b: Option<ReconnectLayer>, s1: Set<Seq<char>>, s2: Set<Seq<char>>, prefix: Seq<char>)
    requires
        kept_opt_reconnect_layer(r, b, s1, prefix),
        within(s1, s2),
    ensures
        kept_opt_reconnect_layer(r, b, s2, prefix),
{
    if let Some(y) = b {
        lemma_kept_mono_reconnect_layer(r.unwrap_or(empty_reconnect_layer()), y, s1, s2, prefix);
    }
}

proof fn lemma_kept_step_reconnect_layer(a: ReconnectLayer, b: ReconnectLayer, c: ReconnectLayer, s1: Set<Seq<char>>, s2: Set<Seq<char>>, prefix: Seq<char>)
    requires
        kept_reconnect_layer(a, b, s1, prefix),
        within(s1, s2),
        within(keys_reconnect_layer(c, prefix), s2),
    ensures
        kept_reconnect_layer(overlay_reconnect_layer(a, c), b, s2, prefix),
{
    if c.enabled is Some {
        assert(keys_reconnect_layer(c, prefix).contains(prefix + "enabled"@));
    }
    assert(s1.contains(prefix + "enabled"@) ==> s2.contains(prefix + "enabled"@));
    if c.max_retries is Some {
        assert(keys_reconnect_layer(c, prefix).contains(prefix + "max_retries"@));
    }
    assert(s1.contains(prefix + "max_retries"@) ==> s2.contains(prefix + "max_retries"@));

}

proof fn lemma_kept_step_opt_reconnect_layer(a: Option<ReconnectLayer>, b: Option<ReconnectLayer>, c: Option<ReconnectLayer>, s1: Set<Seq<char>>, s2: Set<Seq<char>>, prefix: Seq<char>)
    requires
        kept_opt_reconnect_layer(a, b, s1, prefix),
        within(s1, s2),
        within(keys_opt_reconnect_layer(c, prefix), s2),
    ensures
        kept_opt_reconnect_layer(overlay_opt_reconnect_layer(a, c), b, s2, prefix),
{
    if let Some(y) = b {
        match c {
            None => {
                lemma_kept_mono_reconnect_layer(a.unwrap_or(empty_reconnect_layer()), y, s1, s2, prefix);
            },
            Some(z) => {
                lemma_kept_step_reconnect_layer(a.unwrap_or(empty_reconnect_layer()), y, z, s1, s2, prefix);
            },
        }
    }
}

proof fn lemma_kept_agrees_backoff_layer(r: BackoffLayer, b: BackoffLayer, shadow: Set<Seq<char>>, prefix: Seq<char>)
    requires
        agrees_backoff_layer(r, b),
    ensures
        kept_backoff_layer(r, b, shadow, prefix),
{

}

proof fn lemma_kept_agrees_opt_backoff_layer(r: Option<BackoffLayer>, b: Option<BackoffLayer>, shadow: Set<Seq<char>>, prefix: Seq<char>)
    requires
        agrees_opt_backoff_layer(r, b),
    ensures
        kept_opt_backoff_layer(r, b, shadow, prefix),
{
    if let Some(y) = b {
        lemma_kept_agrees_backoff_layer(r->0, y, shadow, prefix);
    }
}

proof fn lemma_kept_mono_backoff_layer(r: BackoffLayer, b: BackoffLayer, s1: Set<Seq<char>>, s2: Set<Seq<char>>, prefix: Seq<char>)
    requires
        kept_backoff_layer(r, b, s1, prefix),
        within(s1, s2),
    ensures
        kept_backoff_layer(r, b, s2, prefix),
{
    assert(s1.contains(prefix + "initial_ms"@) ==> s2.contains(prefix + "initial_ms"@));
    assert(s1.contains(prefix + "max_ms"@) ==> s2.contains(prefix + "max_ms"@));
    assert(s1.contains(prefix + "multiplier"@) ==> s2.contains(prefix + "multiplier"@));
    assert(s1.contains(prefix + "jitter"@) ==> s2.contains(prefix + "jitter"@));

}

proof fn lemma_kept_mono_opt_backoff_layer(r: Option<BackoffLayer>, b: Option<BackoffLayer>, s1: Set<Seq<char>>, s2: Set<Seq<char>>, prefix: Seq<char>)
    requires
        kept_opt_backoff_layer(r, b, s1, prefix),
        within(s1, s2),
    ensures
        kept_opt_backoff_layer(r, b, s2, prefix),
{
    if let Some(y) = b {
        lemma_kept_mono_backoff_layer(r.unwrap_or(empty_backoff_layer()), y, s1, s2, prefix);
    }
}

proof fn lemma_kept_step_backoff_layer(a: BackoffLayer, b: BackoffLayer, c: BackoffLayer, s1: Set<Seq<char>>, s2: Set<Seq<char>>, prefix: Seq<char>)
    requires
        kept_backoff_layer(a, b, s1, prefix),
        within(s1, s2),
        within(keys_backoff_layer(c, prefix), s2),
    ensures
        kept_backoff_layer(overlay_backoff_layer(a, c), b, s2, prefix),
{
    if c.initial_ms is Some {
        assert(keys_backoff_layer(c, prefix).contains(prefix + "initial_ms"@));
    }
    assert(s1.contains(prefix + "initial_ms"@) ==> s2.contains(prefix + "initial_ms"@));
    if c.max_ms is Some {
        assert(keys_backoff_layer(c, prefix).contains(prefix + "max_ms"@));
    }
    assert(s1.contains(prefix + "max_ms"@) ==> s2.contains(prefix + "max_ms"@));
    if c.multiplier is Some {
        assert(keys_backoff_layer(c, prefix).contains(prefix + "multiplier"@));
    }
    assert(s1.contains(prefix + "multiplier"@) ==> s2.contains(prefix + "multiplier"@));
    if c.jitter is Some {
        assert(keys_backoff_layer(c, prefix).contains(prefix + "jitter"@));
    }
    assert(s1.contains(prefix + "jitter"@) ==> s2.contains(prefix + "jitter"@));

}

proof fn lemma_kept_step_opt_backoff_layer(a: Option<BackoffLayer>, b: Option<BackoffLayer>, c: Option<BackoffLayer>, s1: Set<Seq<char>>, s2: Set<Seq<char>>, prefix: Seq<char>)
    requires
        kept_opt_backoff_layer(a, b, s1, prefix),
        within(s1, s2),
        within(keys_opt_backoff_layer(c, prefix), s2),
    ensures
        kept_opt_backoff_layer(overlay_opt_backoff_layer(a, c), b, s2, prefix),
{
    if let Some(y) = b {
        match c {
            None => {
                lemma_kept_mono_backoff_layer(a.unwrap_or(empty_backoff_layer()), y, s1, s2, prefix);
            },
            Some(z) => {
                lemma_kept_step_backoff_layer(a.unwrap_or(empty_backoff_layer()), y, z, s1, s2, prefix);
            },
        }
    }
}

proof fn lemma_kept_agrees_events_layer(r: EventsLayer, b: EventsLayer, shadow: Set<Seq<char>>, prefix: Seq<char>)
    requires
        agrees_events_layer(r, b),
    ensures
        kept_events_layer(r, b, shadow, prefix),
{
    lemma_kept_agrees_opt_reconnect_layer(r.reconnect, b.reconnect, shadow, prefix + "reconnect."@);
    lemma_kept_agrees_opt_backoff_layer(r.backoff, b.backoff, shadow, prefix + "backoff."@);
}

proof fn lemma_kept_agrees_opt_events_layer(r: Option<EventsLayer>, b: Option<EventsLayer>, shadow: Set<Seq<char>>, prefix: Seq<char>)
    requires
        agrees_opt_events_layer(r, b),
    ensures
        kept_opt_events_layer(r, b, shadow, prefix),
{
    if let Some(y) = b {
        lemma_kept_agrees_events_layer(r->0, y, shadow, prefix);
    }
}

proof fn lemma_kept_mono_events_layer(r: EventsLayer, b: EventsLayer, s1: Set<Seq<char>>, s2: Set<Seq<char>>, prefix: Seq<char>)
    requires
        kept_events_layer(r, b, s1, prefix),
        within(s1, s2),
    ensures
        kept_events_layer(r, b, s2, prefix),
{
    lemma_kept_mono_opt_reconnect_layer(r.reconnect, b.reconnect, s1, s2, prefix + "reconnect."@);
    lemma_kept_mono_opt_backoff_layer(r.backoff, b.backoff, s1, s2, prefix + "backoff."@);
}

proof fn lemma_kept_mono_opt_events_layer(r: Option<EventsLayer>, b: Option<EventsLayer>, s1: Set<Seq<char>>, s2: Set<Seq<char>>, prefix: Seq<char>)
    requires
        kept_opt_events_layer(r, b, s1, prefix),
        within(s1, s2),
    ensures
        kept_opt_events_layer(r, b, s2, prefix),
{
    if let Some(y) = b {
        lemma_kept_mono_events_layer(r.unwrap_or(empty_events_layer()), y, s1, s2, prefix);
    }
}

proof fn lemma_kept_step_events_layer(a: EventsLayer, b: EventsLayer, c: EventsLayer, s1: Set<Seq<char>>, s2: Set<Seq<char>>, prefix: Seq<char>)
    requires
        kept_events_layer(a, b, s1, prefix),
        within(s1, s2),
        within(keys_events_layer(c, prefix), s2),
    ensures
        kept_events_layer(overlay_events_layer(a, c), b, s2, prefix),
{
    assert forall|k: Seq<char>| #[trigger] keys_opt_reconnect_layer(c.reconnect, prefix + "reconnect."@).contains(k) implies s2.contains(k) by {
        assert(keys_events_layer(c, prefix).contains(k));
    }
    assert forall|k: Seq<char>| #[trigger] keys_opt_backoff_layer(c.backoff, prefix + "backoff."@).contains(k) implies s2.contains(k) by {
        assert(keys_events_layer(c, prefix).contains(k));
    }
    lemma_kept_step_opt_reconnect_layer(a.reconnect, b.reconnect, c.reconnect, s1, s2, prefix + "reconnect."@);
    lemma_kept_step_opt_backoff_layer(a.backoff, b.backoff, c.backoff, s1, s2, prefix + "backoff."@);
}

proof fn lemma_kept_step_opt_events_layer(a: Option<EventsLayer>, b: Option<EventsLayer>, c: Option<EventsLayer>, s1: Set<Seq<char>>, s2: Set<Seq<char>>, prefix: Seq<char>)
    requires
        kept_opt_events_layer(a, b, s1, prefix),
        within(s1, s2),
        within(keys_opt_events_layer(c, prefix), s2),
    ensures
        kept_opt_events_layer(overlay_opt_events_layer(a, c), b, s2, prefix),
{
    if let Some(y) = b {
        match c {
            None => {
                lemma_kept_mono_events_layer(a.unwrap_or(empty_events_layer()), y, s1, s2, prefix);
            },
            Some(z) => {
                lemma_kept_step_events_layer(a.unwrap_or(empty_events_layer()), y, z, s1, s2, prefix);
            },
        }
    }
}

proof fn lemma_kept_agrees_admin_endpoints_layer(r: AdminEndpointsLayer, b: AdminEndpointsLayer, shadow: Set<Seq<char>>, prefix: Seq<char>)
    requires
        agrees_admin_endpoints_layer(r, b),
    ensures
        kept_admin_endpoints_layer(r, b, shadow, prefix),
{

}

proof fn lemma_kept_agrees_opt_admin_endpoints_layer(r: Option<AdminEndpointsLayer>, b: Option<AdminEndpointsLayer>, shadow: Set<Seq<char>>, prefix: Seq<char>)
    requires
        agrees_opt_admin_endpoints_layer(r, b),
    ensures
        kept_opt_admin_endpoints_layer(r, b, shadow, prefix),
{
    if let Some(y) = b {
        lemma_kept_agrees_admin_endpoints_layer(r->0, y, shadow, prefix);
    }
}

proof fn lemma_kept_mono_admin_endpoints_layer(r: AdminEndpointsLayer, b: AdminEndpointsLayer, s1: Set<Seq<char>>, s2: Set<Seq<char>>, prefix: Seq<char>)
    requires
        kept_admin_endpoints_layer(r, b, s1, prefix),
        within(s1, s2),
    ensures
        kept_admin_endpoints_layer(r, b, s2, prefix),
{
    assert(s1.contains(prefix + "secrets_explain_enabled"@) ==> s2.contains(prefix + "secrets_explain_enabled"@));

}

proof fn lemma_kept_mono_opt_admin_endpoints_layer(r: Option<AdminEndpointsLayer>, b: Option<AdminEndpointsLayer>, s1: Set<Seq<char>>, s2: Set<Seq<char>>, prefix: Seq<char>)
    requires
        kept_opt_admin_endpoints_layer(r, b, s1, prefix),
        within(s1, s2),
    ensures
        kept_opt_admin_endpoints_layer(r, b, s2, prefix),
{
    if let Some(y) = b {
        lemma_kept_mono_admin_endpoints_layer(r.unwrap_or(empty_admin_endpoints_layer()), y, s1, s2, prefix);
    }
}

proof fn lemma_kept_step_admin_endpoints_layer(a: AdminEndpointsLayer, b: AdminEndpointsLayer, c: AdminEndpointsLayer, s1: Set<Seq<char>>, s2: Set<Seq<char>>, prefix: Seq<char>)
    requires
        kept_admin_endpoints_layer(a, b, s1, prefix),
        within(s1, s2),
        within(keys_admin_endpoints_layer(c, prefix), s2),
    ensures
        kept_admin_endpoints_layer(overlay_admin_endpoints_layer(a, c), b, s2, prefix),
{
    if c.secrets_explain_enabled is Some {
        assert(keys_admin_endpoints_layer(c, prefix).contains(prefix + "secrets_explain_enabled"@));
    }
    assert(s1.contains(prefix + "secrets_explain_enabled"@) ==> s2.contains(prefix + "secrets_explain_enabled"@));

}

proof fn lemma_kept_step_opt_admin_endpoints_layer(a: Option<AdminEndpointsLayer>, b: Option<AdminEndpointsLayer>, c: Option<AdminEndpointsLayer>, s1: Set<Seq<char>>, s2: Set<Seq<char>>, prefix: Seq<char>)
    requires
        kept_opt_admin_endpoints_layer(a, b, s1, prefix),
        within(s1, s2),
        within(keys_opt_admin_endpoints_layer(c, prefix), s2),
    ensures
        kept_opt_admin_endpoints_layer(overlay_opt_admin_endpoints_layer(a, c), b, s2, prefix),
{
    if let Some(y) = b {
        match c {
            None => {
                lemma_kept_mono_admin_endpoints_layer(a.unwrap_or(empty_admin_endpoints_layer()), y, s1, s2, prefix);
            },
            Some(z) => {
                lemma_kept_step_admin_endpoints_layer(a.unwrap_or(empty_admin_endpoints_layer()), y, z, s1, s2, prefix);
            },
        }
    }
}

proof fn lemma_kept_agrees_runtime_layer(r: RuntimeLayer, b: RuntimeLayer, shadow: Set<Seq<char>>, prefix: Seq<char>)
    requires
        agrees_runtime_layer(r, b),
    ensures
        kept_runtime_layer(r, b, shadow, prefix),
{
    lemma_kept_agrees_opt_admin_endpoints_layer(r.admin_endpoints, b.admin_endpoints, shadow, prefix + "admin_endpoints."@);
}

proof fn lemma_kept_agrees_opt_runtime_layer(r: Option<RuntimeLayer>, b: Option<RuntimeLayer>, shadow: Set<Seq<char>>, prefix: Seq<char>)
    requires
        agrees_opt_runtime_layer(r, b),
    ensures
        kept_opt_runtime_layer(r, b, shadow, prefix),
{
    if let Some(y) = b {
        lemma_kept_agrees_runtime_layer(r->0, y, shadow, prefix);
    }
}

proof fn lemma_kept_mono_runtime_layer(r: RuntimeLayer, b: RuntimeLayer, s1: Set<Seq<char>>, s2: Set<Seq<char>>, prefix: Seq<char>)
    requires
        kept_runtime_layer(r, b, s1, prefix),
        within(s1, s2),
    ensures
        kept_runtime_layer(r, b, s2, prefix),
{
    assert(s1.contains(prefix + "max_concurrency"@) ==> s2.contains(prefix + "max_concurrency"@));
    assert(s1.contains(prefix + "task_timeout_ms"@) ==> s2.contains(prefix + "task_timeout_ms"@));
    assert(s1.contains(prefix + "shutdown_grace_ms"@) ==> s2.contains(prefix + "shutdown_grace_ms"@));
    lemma_kept_mono_opt_admin_endpoints_layer(r.admin_endpoints, b.admin_endpoints, s1, s2, prefix + "admin_endpoints."@);
}

proof fn lemma_kept_mono_opt_runtime_layer(r: Option<RuntimeLayer>, b: Option<RuntimeLayer>, s1: Set<Seq<char>>, s2: Set<Seq<char>>, prefix: Seq<char>)
    requires
        kept_opt_runtime_layer(r, b, s1, prefix),
        within(s1, s2),
    ensures
        kept_opt_runtime_layer(r, b, s2, prefix),
{
    if let Some(y) = b {
        lemma_kept_mono_runtime_layer(r.unwrap_or(empty_runtime_layer()), y, s1, s2, prefix);
    }
}

proof fn lemma_kept_step_runtime_layer(a: RuntimeLayer, b: RuntimeLayer, c: RuntimeLayer, s1: Set<Seq<char>>, s2: Set<Seq<char>>, prefix: Seq<char>)
    requires
        kept_runtime_layer(a, b, s1, prefix),
        within(s1, s2),
        within(keys_runtime_layer(c, prefix), s2),
    ensures
        kept_runtime_layer(overlay_runtime_layer(a, c), b, s2, prefix),
{
    if c.max_concurrency is Some {
        assert(keys_runtime_layer(c, prefix).contains(prefix + "max_concurrency"@));
    }
    assert(s1.contains(prefix + "max_concurrency"@) ==> s2.contains(prefix + "max_concurrency"@));
    if c.task_timeout_ms is Some {
        assert(keys_runtime_layer(c, prefix).contains(prefix + "task_timeout_ms"@));
    }
    assert(s1.contains(prefix + "task_timeout_ms"@) ==> s2.contains(prefix + "task_timeout_ms"@));
    if c.shutdown_grace_ms is Some {
        assert(keys_runtime_layer(c, prefix).contains(prefix + "shutdown_grace_ms"@));
    }
    assert(s1.contains(prefix + "shutdown_grace_ms"@) ==> s2.contains(prefix + "shutdown_grace_ms"@));
    assert forall|k: Seq<char>| #[trigger] keys_opt_admin_endpoints_layer(c.admin_endpoints, prefix + "admin_endpoints."@).contains(k) implies s2.contains(k) by {
        assert(keys_runtime_layer(c, prefix).contains(k));
    }
    lemma_kept_step_opt_admin_endpoints_layer(a.admin_endpoints, b.admin_endpoints, c.admin_endpoints, s1, s2, prefix + "admin_endpoints."@);
}

proof fn lemma_kept_step_opt_runtime_layer(a: Option<RuntimeLayer>, b: Option<RuntimeLayer>, c: Option<RuntimeLayer>, s1: Set<Seq<char>>, s2: Set<Seq<char>>, prefix: Seq<char>)
    requires
        kept_opt_runtime_layer(a, b, s1, prefix),
        within(s1, s2),
        within(keys_opt_runtime_layer(c, prefix), s2),
    ensures
        kept_opt_runtime_layer(overlay_opt_runtime_layer(a, c), b, s2, prefix),
{
    if let Some(y) = b {
        match c {
            None => {
                lemma_kept_mono_runtime_layer(a.unwrap_or(empty_runtime_layer()), y, s1, s2, prefix);
            },
            Some(z) => {
                lemma_kept_step_runtime_layer(a.unwrap_or(empty_runtime_layer()), y, z, s1, s2, prefix);
            },
        }
    }
}

proof fn lemma_kept_agrees_telemetry_layer(r: TelemetryLayer, b: TelemetryLayer, shadow: Set<Seq<char>>, prefix: Seq<char>)
    requires
        agrees_telemetry_layer(r, b),
    ensures
        kept_telemetry_layer(r, b, shadow, prefix),
{

}

proof fn lemma_kept_agrees_opt_telemetry_layer(r: Option<TelemetryLayer>, b: Option<TelemetryLayer>, shadow: Set<Seq<char>>, prefix: Seq<char>)
    requires
        agrees_opt_telemetry_layer(r, b),
    ensures
        kept_opt_telemetry_layer(r, b, shadow, prefix),
{
    if let Some(y) = b {
        lemma_kept_agrees_telemetry_layer(r->0, y, shadow, prefix);
    }
}

proof fn lemma_kept_mono_telemetry_layer(r: TelemetryLayer, b: TelemetryLayer, s1: Set<Seq<char>>, s2: Set<Seq<char>>, prefix: Seq<char>)
    requires
        kept_telemetry_layer(r, b, s1, prefix),
        within(s1, s2),
    ensures
        kept_telemetry_layer(r, b, s2, prefix),
{
    assert(s1.contains(prefix + "enabled"@) ==> s2.contains(prefix + "enabled"@));
    assert(s1.contains(prefix + "exporter"@) ==> s2.contains(prefix + "exporter"@));
    assert(s1.contains(prefix + "endpoint"@) ==> s2.contains(prefix + "endpoint"@));
    assert(s1.contains(prefix + "sampling"@) ==> s2.contains(prefix + "sampling"@));

}

proof fn lemma_kept_mono_opt_telemetry_layer(r: Option<TelemetryLayer>, b: Option<TelemetryLayer>, s1: Set<Seq<char>>, s2: Set<Seq<char>>, prefix: Seq<char>)
    requires
        kept_opt_telemetry_layer(r, b, s1, prefix),
        within(s1, s2),
    ensures
        kept_opt_telemetry_layer(r, b, s2, prefix),
{
    if let Some(y) = b {
        lemma_kept_mono_telemetry_layer(r.unwrap_or(empty_telemetry_layer()), y, s1, s2, prefix);
    }
}

proof fn lemma_kept_step_telemetry_layer(a: TelemetryLayer, b: TelemetryLayer, c: TelemetryLayer, s1: Set<Seq<char>>, s2: Set<Seq<char>>, prefix: Seq<char>)
    requires
        kept_telemetry_layer(a, b, s1, prefix),
        within(s1, s2),
        within(keys_telemetry_layer(c, prefix), s2),
    ensures
        kept_telemetry_layer(overlay_telemetry_layer(a, c), b, s2, prefix),
{
    if c.enabled is Some {
        assert(keys_telemetry_layer(c, prefix).contains(prefix + "enabled"@));
    }
    assert(s1.contains(prefix + "enabled"@) ==> s2.contains(prefix + "enabled"@));
    if c.exporter is Some {
        assert(keys_telemetry_layer(c, prefix).contains(prefix + "exporter"@));
    }
    assert(s1.contains(prefix + "exporter"@) ==> s2.contains(prefix + "exporter"@));
    if c.endpoint is Some {
        assert(keys_telemetry_layer(c, prefix).contains(prefix + "endpoint"@));
    }
    assert(s1.contains(prefix + "endpoint"@) ==> s2.contains(prefix + "endpoint"@));
    if c.sampling is Some {
        assert(keys_telemetry_layer(c, prefix).contains(prefix + "sampling"@));
    }
    assert(s1.contains(prefix + "sampling"@) ==> s2.contains(prefix + "sampling"@));

}

proof fn lemma_kept_step_opt_telemetry_layer(a: Option<TelemetryLayer>, b: Option<TelemetryLayer>, c: Option<TelemetryLayer>, s1: Set<Seq<char>>, s2: Set<Seq<char>>, prefix: Seq<char>)
    requires
        kept_opt_telemetry_layer(a, b, s1, prefix),
        within(s1, s2),
        within(keys_opt_telemetry_layer(c, prefix), s2),
    ensures
        kept_opt_telemetry_layer(overlay_opt_telemetry_layer(a, c), b, s2, prefix),
{
    if let Some(y) = b {
        match c {
            None => {
                lemma_kept_mono_telemetry_layer(a.unwrap_or(empty_telemetry_layer()), y, s1, s2, prefix);
            },
            Some(z) => {
                lemma_kept_step_telemetry_layer(a.unwrap_or(empty_telemetry_layer()), y, z, s1, s2, prefix);
            },
        }
    }
}

proof fn lemma_kept_agrees_network_layer(r: NetworkLayer, b: NetworkLayer, shadow: Set<Seq<char>>, prefix: Seq<char>)
    requires
        agrees_network_layer(r, b),
    ensures
        kept_network_layer(r, b, shadow, prefix),
{

}

proof fn lemma_kept_agrees_opt_network_layer(r: Option<NetworkLayer>, b: Option<NetworkLayer>, shadow: Set<Seq<char>>, prefix: Seq<char>)
    requires
        agrees_opt_network_layer(r, b),
    ensures
        kept_opt_network_layer(r, b, shadow, prefix),
{
    if let Some(y) = b {
        lemma_kept_agrees_network_layer(r->0, y, shadow, prefix);
    }
}

proof fn lemma_kept_mono_network_layer(r: NetworkLayer, b: NetworkLayer, s1: Set<Seq<char>>, s2: Set<Seq<char>>, prefix: Seq<char>)
    requires
        kept_network_layer(r, b, s1, prefix),
        within(s1, s2),
    ensures
        kept_network_layer(r, b, s2, prefix),
{
    assert(s1.contains(prefix + "proxy_url"@) ==> s2.contains(prefix + "proxy_url"@));
    assert(s1.contains(prefix + "tls_mode"@) ==> s2.contains(prefix + "tls_mode"@));
    assert(s1.contains(prefix + "connect_timeout_ms"@) ==> s2.contains(prefix + "connect_timeout_ms"@));
    assert(s1.contains(prefix + "read_timeout_ms"@) ==> s2.contains(prefix + "read_timeout_ms"@));

}

proof fn lemma_kept_mono_opt_network_layer(r: Option<NetworkLayer>, b: Option<NetworkLayer>, s1: Set<Seq<char>>, s2: Set<Seq<char>>, prefix: Seq<char>)
    requires
        kept_opt_network_layer(r, b, s1, prefix),
        within(s1, s2),
    ensures
        kept_opt_network_layer(r, b, s2, prefix),
{
    if let Some(y) = b {
        lemma_kept_mono_network_layer(r.unwrap_or(empty_network_layer()), y, s1, s2, prefix);
    }
}

proof fn lemma_kept_step_network_layer(a: NetworkLayer, b: NetworkLayer, c: NetworkLayer, s1: Set<Seq<char>>, s2: Set<Seq<char>>, prefix: Seq<char>)
    requires
        kept_network_layer(a, b, s1, prefix),
        within(s1, s2),
        within(keys_network_layer(c, prefix), s2),
    ensures
        kept_network_layer(overlay_network_layer(a, c), b, s2, prefix),
{
    if c.proxy_url is Some {
        assert(keys_network_layer(c, prefix).contains(prefix + "proxy_url"@));
    }
    assert(s1.contains(prefix + "proxy_url"@) ==> s2.contains(prefix + "proxy_url"@));
    if c.tls_mode is Some {
        assert(keys_network_layer(c, prefix).contains(prefix + "tls_mode"@));
    }
    assert(s1.contains(prefix + "tls_mode"@) ==> s2.contains(prefix + "tls_mode"@));
    if c.connect_timeout_ms is Some {
        assert(keys_network_layer(c, prefix).contains(prefix + "connect_timeout_ms"@));
    }
    assert(s1.contains(prefix + "connect_timeout_ms"@) ==> s2.contains(prefix + "connect_timeout_ms"@));
    if c.read_timeout_ms is Some {
        assert(keys_network_layer(c, prefix).contains(prefix + "read_timeout_ms"@));
    }
    assert(s1.contains(prefix + "read_timeout_ms"@) ==> s2.contains(prefix + "read_timeout_ms"@));

}

proof fn lemma_kept_step_opt_network_layer(a: Option<NetworkLayer>, b: Option<NetworkLayer>, c: Option<NetworkLayer>, s1: Set<Seq<char>>, s2: Set<Seq<char>>, prefix: Seq<char>)
    requires
        kept_opt_network_layer(a, b, s1, prefix),
        within(s1, s2),
        within(keys_opt_network_layer(c, prefix), s2),
    ensures
        kept_opt_network_layer(overlay_opt_network_layer(a, c), b, s2, prefix),
{
    if let Some(y) = b {
        match c {
            None => {
                lemma_kept_mono_network_layer(a.unwrap_or(empty_network_layer()), y, s1, s2, prefix);
            },
            Some(z) => {
                lemma_kept_step_network_layer(a.unwrap_or(empty_network_layer()), y, z, s1, s2, prefix);
            },
        }
    }
}

proof fn lemma_kept_agrees_deployer_provider_defaults_layer(r: DeployerProviderDefaultsLayer, b: DeployerProviderDefaultsLayer, shadow: Set<Seq<char>>, prefix: Seq<char>)
    requires
        agrees_deployer_provider_defaults_layer(r, b),
    ensures
        kept_deployer_provider_defaults_layer(r, b, shadow, prefix),
{

}

proof fn lemma_kept_agrees_opt_deployer_provider_defaults_layer(r: Option<DeployerProviderDefaultsLayer>, b: Option<DeployerProviderDefaultsLayer>, shadow: Set<Seq<char>>, prefix: Seq<char>)
    requires
        agrees_opt_deployer_provider_defaults_layer(r, b),
    ensures
        kept_opt_deployer_provider_defaults_layer(r, b, shadow, prefix),
{
    if let Some(y) = b {
        lemma_kept_agrees_deployer_provider_defaults_layer(r->0, y, shadow, prefix);
    }
}

proof fn lemma_kept_mono_deployer_provider_defaults_layer(r: DeployerProviderDefaultsLayer, b: DeployerProviderDefaultsLayer, s1: Set<Seq<char>>, s2: Set<Seq<char>>, prefix: Seq<char>)
    requires
        kept_deployer_provider_defaults_layer(r, b, s1, prefix),
        within(s1, s2),
    ensures
        kept_deployer_provider_defaults_layer(r, b, s2, prefix),
{
    assert(s1.contains(prefix + "provider_kind"@) ==> s2.contains(prefix + "provider_kind"@));
    assert(s1.contains(prefix + "region"@) ==> s2.contains(prefix + "region"@));

}

proof fn lemma_kept_mono_opt_deployer_provider_defaults_layer(r: Option<DeployerProviderDefaultsLayer>, b: Option<DeployerProviderDefaultsLayer>, s1: Set<Seq<char>>, s2: Set<Seq<char>>, prefix: Seq<char>)
    requires
        kept_opt_deployer_provider_defaults_layer(r, b, s1, prefix),
        within(s1, s2),
    ensures
        kept_opt_deployer_provider_defaults_layer(r, b, s2, prefix),
{
    if let Some(y) = b {
        lemma_kept_mono_deployer_provider_defaults_layer(r.unwrap_or(empty_deployer_provider_defaults_layer()), y, s1, s2, prefix);
    }
}

proof fn lemma_kept_step_deployer_provider_defaults_layer(a: DeployerProviderDefaultsLayer, b: DeployerProviderDefaultsLayer, c: DeployerProviderDefaultsLayer, s1: Set<Seq<char>>, s2: Set<Seq<char>>, prefix: Seq<char>)
    requires
        kept_deployer_provider_defaults_layer(a, b, s1, prefix),
        within(s1, s2),
        within(keys_deployer_provider_defaults_layer(c, prefix), s2),
    ensures
        kept_deployer_provider_defaults_layer(overlay_deployer_provider_defaults_layer(a, c), b, s2, prefix),
{
    if c.provider_kind is Some {
        assert(keys_deployer_provider_defaults_layer(c, prefix).contains(prefix + "provider_kind"@));
    }
    assert(s1.contains(prefix + "provider_kind"@) ==> s2.contains(prefix + "provider_kind"@));
    if c.region is Some {
        assert(keys_deployer_provider_defaults_layer(c, prefix).contains(prefix + "region"@));
    }
    assert(s1.contains(prefix + "region"@) ==> s2.contains(prefix + "region"@));

}

proof fn lemma_kept_step_opt_deployer_provider_defaults_layer(a: Option<DeployerProviderDefaultsLayer>, b: Option<DeployerProviderDefaultsLayer>, c: Option<DeployerProviderDefaultsLayer>, s1: Set<Seq<char>>, s2: Set<Seq<char>>, prefix: Seq<char>)
    requires
        kept_opt_deployer_provider_defaults_layer(a, b, s1, prefix),
        within(s1, s2),
        within(keys_opt_deployer_provider_defaults_layer(c, prefix), s2),
    ensures
        kept_opt_deployer_provider_defaults_layer(overlay_opt_deployer_provider_defaults_layer(a, c), b, s2, prefix),
{
    if let Some(y) = b {
        match c {
            None => {
                lemma_kept_mono_deployer_provider_defaults_layer(a.unwrap_or(empty_deployer_provider_defaults_layer()), y, s1, s2, prefix);
            },
            Some(z) => {
                lemma_kept_step_deployer_provider_defaults_layer(a.unwrap_or(empty_deployer_provider_defaults_layer()), y, z, s1, s2, prefix);
            },
        }
    }
}

proof fn lemma_kept_agrees_deployer_layer(r: DeployerLayer, b: DeployerLayer, shadow: Set<Seq<char>>, prefix: Seq<char>)
    requires
        agrees_deployer_layer(r, b),
    ensures
        kept_deployer_layer(r, b, shadow, prefix),
{
    lemma_kept_agrees_opt_deployer_provider_defaults_layer(r.provider, b.provider, shadow, prefix + "provider."@);
}

proof fn lemma_kept_agrees_opt_deployer_layer(r: Option<DeployerLayer>, b: Option<DeployerLayer>, shadow: Set<Seq<char>>, prefix: Seq<char>)
    requires
        agrees_opt_deployer_layer(r, b),
    ensures
        kept_opt_deployer_layer(r, b, shadow, prefix),
{
    if let Some(y) = b {
        lemma_kept_agrees_deployer_layer(r->0, y, shadow, prefix);
    }
}

proof fn lemma_kept_mono_deployer_layer(r: DeployerLayer, b: DeployerLayer, s1: Set<Seq<char>>, s2: Set<Seq<char>>, prefix: Seq<char>)
    requires
        kept_deployer_layer(r, b, s1, prefix),
        within(s1, s2),
    ensures
        kept_deployer_layer(r, b, s2, prefix),
{
    assert(s1.contains(prefix + "base_domain"@) ==> s2.contains(prefix + "base_domain"@));
    lemma_kept_mono_opt_deployer_provider_defaults_layer(r.provider, b.provider, s1, s2, prefix + "provider."@);
}

proof fn lemma_kept_mono_opt_deployer_layer(r: Option<DeployerLayer>, b: Option<DeployerLayer>, s1: Set<Seq<char>>, s2: Set<Seq<char>>, prefix: Seq<char>)
    requires
        kept_opt_deployer_layer(r, b, s1, prefix),
        within(s1, s2),
    ensures
        kept_opt_deployer_layer(r, b, s2, prefix),
{
    if let Some(y) = b {
        lemma_kept_mono_deployer_layer(r.unwrap_or(empty_deployer_layer()), y, s1, s2, prefix);
    }
}

proof fn lemma_kept_step_deployer_layer(a: DeployerLayer, b: DeployerLayer, c: DeployerLayer, s1: Set<Seq<char>>, s2: Set<Seq<char>>, prefix: Seq<char>)
    requires
        kept_deployer_layer(a, b, s1, prefix),
        within(s1, s2),
        within(keys_deployer_layer(c, prefix), s2),
    ensures
        kept_deployer_layer(overlay_deployer_layer(a, c), b, s2, prefix),
{
    if c.base_domain is Some {
        assert(keys_deployer_layer(c, prefix).contains(prefix + "base_domain"@));
    }
    assert(s1.contains(prefix + "base_domain"@) ==> s2.contains(prefix + "base_domain"@));
    assert forall|k: Seq<char>| #[trigger] keys_opt_deployer_provider_defaults_layer(c.provider, prefix + "provider."@).contains(k) implies s2.contains(k) by {
        assert(keys_deployer_layer(c, prefix).contains(k));
    }
    lemma_kept_step_opt_deployer_provider_defaults_layer(a.provider, b.provider, c.provider, s1, s2, prefix + "provider."@);
}

proof fn lemma_kept_step_opt_deployer_layer(a: Option<DeployerLayer>, b: Option<DeployerLayer>, c: Option<DeployerLayer>, s1: Set<Seq<char>>, s2: Set<Seq<char>>, prefix: Seq<char>)
    requires
        kept_opt_deployer_layer(a, b, s1, prefix),
        within(s1, s2),
        within(keys_opt_deployer_layer(c, prefix), s2),
    ensures
        kept_opt_deployer_layer(overlay_opt_deployer_layer(a, c), b, s2, prefix),
{
    if let Some(y) = b {
        match c {
            None => {
                lemma_kept_mono_deployer_layer(a.unwrap_or(empty_deployer_layer()), y, s1, s2, prefix);
            },
            Some(z) => {
                lemma_kept_step_deployer_layer(a.unwrap_or(empty_deployer_layer()), y, z, s1, s2, prefix);
            },
        }
    }
}

proof fn lemma_kept_agrees_secrets_backend_ref_layer(r: SecretsBackendRefLayer, b: SecretsBackendRefLayer, shadow: Set<Seq<char>>, prefix: Seq<char>)
    requires
        agrees_secrets_backend_ref_layer(r, b),
    ensures
        kept_secrets_backend_ref_layer(r, b, shadow, prefix),
{

}

proof fn lemma_kept_agrees_opt_secrets_backend_ref_layer(r: Option<SecretsBackendRefLayer>, b: Option<SecretsBackendRefLayer>, shadow: Set<Seq<char>>, prefix: Seq<char>)
    requires
        agrees_opt_secrets_backend_ref_layer(r, b),
    ensures
        kept_opt_secrets_backend_ref_layer(r, b, shadow, prefix),
{
    if let Some(y) = b {
        lemma_kept_agrees_secrets_backend_ref_layer(r->0, y, shadow, prefix);
    }
}

proof fn lemma_kept_mono_secrets_backend_ref_layer(r: SecretsBackendRefLayer, b: SecretsBackendRefLayer, s1: Set<Seq<char>>, s2: Set<Seq<char>>, prefix: Seq<char>)
    requires
        kept_secrets_backend_ref_layer(r, b, s1, prefix),
        within(s1, s2),
    ensures
        kept_secrets_backend_ref_layer(r, b, s2, prefix),
{
    assert(s1.contains(prefix + "kind"@) ==> s2.contains(prefix + "kind"@));
    assert(s1.contains(prefix + "reference"@) ==> s2.contains(prefix + "reference"@));

}

proof fn lemma_kept_mono_opt_secrets_backend_ref_layer(r: Option<SecretsBackendRefLayer>, b: Option<SecretsBackendRefLayer>, s1: Set<Seq<char>>, s2: Set<Seq<char>>, prefix: Seq<char>)
    requires
        kept_opt_secrets_backend_ref_layer(r, b, s1, prefix),
        within(s1, s2),
    ensures
        kept_opt_secrets_backend_ref_layer(r, b, s2, prefix),
{
    if let Some(y) = b {
        lemma_kept_mono_secrets_backend_ref_layer(r.unwrap_or(empty_secrets_backend_ref_layer()), y, s1, s2, prefix);
    }
}

proof fn lemma_kept_step_secrets_backend_ref_layer(a: SecretsBackendRefLayer, b: SecretsBackendRefLayer, c: SecretsBackendRefLayer, s1: Set<Seq<char>>, s2: Set<Seq<char>>, prefix: Seq<char>)
    requires
        kept_secrets_backend_ref_layer(a, b, s1, prefix),
        within(s1, s2),
        within(keys_secrets_backend_ref_layer(c, prefix), s2),
    ensures
        kept_secrets_backend_ref_layer(overlay_secrets_backend_ref_layer(a, c), b, s2, prefix),
{
    if c.kind is Some {
        assert(keys_secrets_backend_ref_layer(c, prefix).contains(prefix + "kind"@));
    }
    assert(s1.contains(prefix + "kind"@) ==> s2.contains(prefix + "kind"@));
    if c.reference is Some {
        assert(keys_secrets_backend_ref_layer(c, prefix).contains(prefix + "reference"@));
    }
    assert(s1.contains(prefix + "reference"@) ==> s2.contains(prefix + "reference"@));

}

proof fn lemma_kept_step_opt_secrets_backend_ref_layer(a: Option<SecretsBackendRefLayer>, b: Option<SecretsBackendRefLayer>, c: Option<SecretsBackendRefLayer>, s1: Set<Seq<char>>, s2: Set<Seq<char>>, prefix: Seq<char>)
    requires
        kept_opt_secrets_backend_ref_layer(a, b, s1, prefix),
        within(s1, s2),
        within(keys_opt_secrets_backend_ref_layer(c, prefix), s2),
    ensures
        kept_opt_secrets_backend_ref_layer(overlay_opt_secrets_backend_ref_layer(a, c), b, s2, prefix),
{
    if let Some(y) = b {
        match c {
            None => {
                lemma_kept_mono_secrets_backend_ref_layer(a.unwrap_or(empty_secrets_backend_ref_layer()), y, s1, s2, prefix);
            },
            Some(z) => {
                lemma_kept_step_secrets_backend_ref_layer(a.unwrap_or(empty_secrets_backend_ref_layer()), y, z, s1, s2, prefix);
            },
        }
    }
}

proof fn lemma_kept_agrees_pack_trust_layer(r: PackTrustLayer, b: PackTrustLayer, shadow: Set<Seq<char>>, prefix: Seq<char>)
    requires
        agrees_pack_trust_layer(r, b),
    ensures
        kept_pack_trust_layer(r, b, shadow, prefix),
{

}

proof fn lemma_kept_agrees_opt_pack_trust_layer(r: Option<PackTrustLayer>, b: Option<PackTrustLayer>, shadow: Set<Seq<char>>, prefix: Seq<char>)
    requires
        agrees_opt_pack_trust_layer(r, b),
    ensures
        kept_opt_pack_trust_layer(r, b, shadow, prefix),
{
    if let Some(y) = b {
        lemma_kept_agrees_pack_trust_layer(r->0, y, shadow, prefix);
    }
}

proof fn lemma_kept_mono_pack_trust_layer(r: PackTrustLayer, b: PackTrustLayer, s1: Set<Seq<char>>, s2: Set<Seq<char>>, prefix: Seq<char>)
    requires
        kept_pack_trust_layer(r, b, s1, prefix),
        within(s1, s2),
    ensures
        kept_pack_trust_layer(r, b, s2, prefix),
{
    assert(s1.contains(prefix + "public_keys"@) ==> s2.contains(prefix + "public_keys"@));
    assert(s1.contains(prefix + "require_signatures"@) ==> s2.contains(prefix + "require_signatures"@));

}

proof fn lemma_kept_mono_opt_pack_trust_layer(r: Option<PackTrustLayer>, b: Option<PackTrustLayer>, s1: Set<Seq<char>>, s2: Set<Seq<char>>, prefix: Seq<char>)
    requires
        kept_opt_pack_trust_layer(r, b, s1, prefix),
        within(s1, s2),
    ensures
        kept_opt_pack_trust_layer(r, b, s2, prefix),
{
    if let Some(y) = b {
        lemma_kept_mono_pack_trust_layer(r.unwrap_or(empty_pack_trust_layer()), y, s1, s2, prefix);
    }
}

proof fn lemma_kept_step_pack_trust_layer(a: PackTrustLayer, b: PackTrustLayer, c: PackTrustLayer, s1: Set<Seq<char>>, s2: Set<Seq<char>>, prefix: Seq<char>)
    requires
        kept_pack_trust_layer(a, b, s1, prefix),
        within(s1, s2),
        within(keys_pack_trust_layer(c, prefix), s2),
    ensures
        kept_pack_trust_layer(overlay_pack_trust_layer(a, c), b, s2, prefix),
{
    if c.public_keys is Some {
        assert(keys_pack_trust_layer(c, prefix).contains(prefix + "public_keys"@));
    }
    assert(s1.contains(prefix + "public_keys"@) ==> s2.contains(prefix + "public_keys"@));
    if c.require_signatures is Some {
        assert(keys_pack_trust_layer(c, prefix).contains(prefix + "require_signatures"@));
    }
    assert(s1.contains(prefix + "require_signatures"@) ==> s2.contains(prefix + "require_signatures"@));

}

proof fn lemma_kept_step_opt_pack_trust_layer(a: Option<PackTrustLayer>, b: Option<PackTrustLayer>, c: Option<PackTrustLayer>, s1: Set<Seq<char>>, s2: Set<Seq<char>>, prefix: Seq<char>)
    requires
        kept_opt_pack_trust_layer(a, b, s1, prefix),
        within(s1, s2),
        within(keys_opt_pack_trust_layer(c, prefix), s2),
    ensures
        kept_opt_pack_trust_layer(overlay_opt_pack_trust_layer(a, c), b, s2, prefix),
{
    if let Some(y) = b {
        match c {
            None => {
                lemma_kept_mono_pack_trust_layer(a.unwrap_or(empty_pack_trust_layer()), y, s1, s2, prefix);
            },
            Some(z) => {
                lemma_kept_step_pack_trust_layer(a.unwrap_or(empty_pack_trust_layer()), y, z, s1, s2, prefix);
            },
        }
    }
}

proof fn lemma_kept_agrees_packs_layer(r: PacksLayer, b: PacksLayer, shadow: Set<Seq<char>>, prefix: Seq<char>)
    requires
        agrees_packs_layer(r, b),
    ensures
        kept_packs_layer(r, b, shadow, prefix),
{
    lemma_kept_agrees_opt_pack_trust_layer(r.trust, b.trust, shadow, prefix + "trust."@);
}

proof fn lemma_kept_agrees_opt_packs_layer(r: Option<PacksLayer>, b: Option<PacksLayer>, shadow: Set<Seq<char>>, prefix: Seq<char>)
    requires
        agrees_opt_packs_layer(r, b),
    ensures
        kept_opt_packs_layer(r, b, shadow, prefix),
{
    if let Some(y) = b {
        lemma_kept_agrees_packs_layer(r->0, y, shadow, prefix);
    }
}

proof fn lemma_kept_mono_packs_layer(r: PacksLayer, b: PacksLayer, s1: Set<Seq<char>>, s2: Set<Seq<char>>, prefix: Seq<char>)
    requires
        kept_packs_layer(r, b, s1, prefix),
        within(s1, s2),
    ensures
        kept_packs_layer(r, b, s2, prefix),
{
    assert(s1.contains(prefix + "source"@) ==> s2.contains(prefix + "source"@));
    assert(s1.contains(prefix + "cache_dir"@) ==> s2.contains(prefix + "cache_dir"@));
    assert(s1.contains(prefix + "index_cache_ttl_secs"@) ==> s2.contains(prefix + "index_cache_ttl_secs"@));
    lemma_kept_mono_opt_pack_trust_layer(r.trust, b.trust, s1, s2, prefix + "trust."@);
}

proof fn lemma_kept_mono_opt_packs_layer(r: Option<PacksLayer>, b: Option<PacksLayer>, s1: Set<Seq<char>>, s2: Set<Seq<char>>, prefix: Seq<char>)
    requires
        kept_opt_packs_layer(r, b, s1, prefix),
        within(s1, s2),
    ensures
        kept_opt_packs_layer(r, b, s2, prefix),
{
    if let Some(y) = b {
        lemma_kept_mono_packs_layer(r.unwrap_or(empty_packs_layer()), y, s1, s2, prefix);
    }
}

proof fn lemma_kept_step_packs_layer(a: PacksLayer, b: PacksLayer, c: PacksLayer, s1: Set<Seq<char>>, s2: Set<Seq<char>>, prefix: Seq<char>)
    requires
        kept_packs_layer(a, b, s1, prefix),
        within(s1, s2),
        within(keys_packs_layer(c, prefix), s2),
    ensures
        kept_packs_layer(overlay_packs_layer(a, c), b, s2, prefix),
{
    if c.source is Some {
        assert(keys_packs_layer(c, prefix).contains(prefix + "source"@));
    }
    assert(s1.contains(prefix + "source"@) ==> s2.contains(prefix + "source"@));
    if c.cache_dir is Some {
        assert(keys_packs_layer(c, prefix).contains(prefix + "cache_dir"@));
    }
    assert(s1.contains(prefix + "cache_dir"@) ==> s2.contains(prefix + "cache_dir"@));
    if c.index_cache_ttl_secs is Some {
        assert(keys_packs_layer(c, prefix).contains(prefix + "index_cache_ttl_secs"@));
    }
    assert(s1.contains(prefix + "index_cache_ttl_secs"@) ==> s2.contains(prefix + "index_cache_ttl_secs"@));
    assert forall|k: Seq<char>| #[trigger] keys_opt_pack_trust_layer(c.trust, prefix + "trust."@).contains(k) implies s2.contains(k) by {
        assert(keys_packs_layer(c, prefix).contains(k));
    }
    lemma_kept_step_opt_pack_trust_layer(a.trust, b.trust, c.trust, s1, s2, prefix + "trust."@);
}

proof fn lemma_kept_step_opt_packs_layer(a: Option<PacksLayer>, b: Option<PacksLayer>, c: Option<PacksLayer>, s1: Set<Seq<char>>, s2: Set<Seq<char>>, prefix: Seq<char>)
    requires
        kept_opt_packs_layer(a, b, s1, prefix),
        within(s1, s2),
        within(keys_opt_packs_layer(c, prefix), s2),
    ensures
        kept_opt_packs_layer(overlay_opt_packs_layer(a, c), b, s2, prefix),
{
    if let Some(y) = b {
        match c {
            None => {
                lemma_kept_mono_packs_layer(a.unwrap_or(empty_packs_layer()), y, s1, s2, prefix);
            },
            Some(z) => {
                lemma_kept_step_packs_layer(a.unwrap_or(empty_packs_layer()), y, z, s1, s2, prefix);
            },
        }
    }
}

proof fn lemma_kept_agrees_dev_layer(r: DevLayer, b: DevLayer, shadow: Set<Seq<char>>, prefix: Seq<char>)
    requires
        agrees_dev_layer(r, b),
    ensures
        kept_dev_layer(r, b, shadow, prefix),
{

}

proof fn lemma_kept_agrees_opt_dev_layer(r: Option<DevLayer>, b: Option<DevLayer>, shadow: Set<Seq<char>>, prefix: Seq<char>)
    requires
        agrees_opt_dev_layer(r, b),
    ensures
        kept_opt_dev_layer(r, b, shadow, prefix),
{
    if let Some(y) = b {
        lemma_kept_agrees_dev_layer(r->0, y, shadow, prefix);
    }
}

proof fn lemma_kept_mono_dev_layer(r: DevLayer, b: DevLayer, s1: Set<Seq<char>>, s2: Set<Seq<char>>, prefix: Seq<char>)
    requires
        kept_dev_layer(r, b, s1, prefix),
        within(s1, s2),
    ensures
        kept_dev_layer(r, b, s2, prefix),
{
    assert(s1.contains(prefix + "default_env"@) ==> s2.contains(prefix + "default_env"@));
    assert(s1.contains(prefix + "default_tenant"@) ==> s2.contains(prefix + "default_tenant"@));
    assert(s1.contains(prefix + "default_team"@) ==> s2.contains(prefix + "default_team"@));

}

proof fn lemma_kept_mono_opt_dev_layer(r: Option<DevLayer>, b: Option<DevLayer>, s1: Set<Seq<char>>, s2: Set<Seq<char>>, prefix: Seq<char>)
    requires
        kept_opt_dev_layer(r, b, s1, prefix),
        within(s1, s2),
    ensures
        kept_opt_dev_layer(r, b, s2, prefix),
{
    if let Some(y) = b {
        lemma_kept_mono_dev_layer(r.unwrap_or(empty_dev_layer()), y, s1, s2, prefix);
    }
}

proof fn lemma_kept_step_dev_layer(a: DevLayer, b: DevLayer, c: DevLayer, s1: Set<Seq<char>>, s2: Set<Seq<char>>, prefix: Seq<char>)
    requires
        kept_dev_layer(a, b, s1, prefix),
        within(s1, s2),
        within(keys_dev_layer(c, prefix), s2),
    ensures
        kept_dev_layer(overlay_dev_layer(a, c), b, s2, prefix),
{
    if c.default_env is Some {
        assert(keys_dev_layer(c, prefix).contains(prefix + "default_env"@));
    }
    assert(s1.contains(prefix + "default_env"@) ==> s2.contains(prefix + "default_env"@));
    if c.default_tenant is Some {
        assert(keys_dev_layer(c, prefix).contains(prefix + "default_tenant"@));
    }
    assert(s1.contains(prefix + "default_tenant"@) ==> s2.contains(prefix + "default_tenant"@));
    if c.default_team is Some {
        assert(keys_dev_layer(c, prefix).contains(prefix + "default_team"@));
    }
    assert(s1.contains(prefix + "default_team"@) ==> s2.contains(prefix + "default_team"@));

}

proof fn lemma_kept_step_opt_dev_layer(a: Option<DevLayer>, b: Option<DevLayer>, c: Option<DevLayer>, s1: Set<Seq<char>>, s2: Set<Seq<char>>, prefix: Seq<char>)
    requires
        kept_opt_dev_layer(a, b, s1, prefix),
        within(s1, s2),
        within(keys_opt_dev_layer(c, prefix), s2),
    ensures
        kept_opt_dev_layer(overlay_opt_dev_layer(a, c), b, s2, prefix),
{
    if let Some(y) = b {
        match c {
            None => {
                lemma_kept_mono_dev_layer(a.unwrap_or(empty_dev_layer()), y, s1, s2, prefix);
            },
            Some(z) => {
                lemma_kept_step_dev_layer(a.unwrap_or(empty_dev_layer()), y, z, s1, s2, prefix);
            },
        }
    }
}

proof fn lemma_kept_agrees_config_layer(r: ConfigLayer, b: ConfigLayer, shadow: Set<Seq<char>>, prefix: Seq<char>)
    requires
        agrees_config_layer(r, b),
    ensures
        kept_config_layer(r, b, shadow, prefix),
{
    lemma_kept_agrees_opt_environment_layer(r.environment, b.environment, shadow, prefix + "environment."@);
    lemma_kept_agrees_opt_paths_layer(r.paths, b.paths, shadow, prefix + "paths."@);
    lemma_kept_agrees_opt_services_layer(r.services, b.services, shadow, prefix + "services."@);
    lemma_kept_agrees_opt_events_layer(r.events, b.events, shadow, prefix + "events."@);
    lemma_kept_agrees_opt_runtime_layer(r.runtime, b.runtime, shadow, prefix + "runtime."@);
    lemma_kept_agrees_opt_telemetry_layer(r.telemetry, b.telemetry, shadow, prefix + "telemetry."@);
    lemma_kept_agrees_opt_network_layer(r.network, b.network, shadow, prefix + "network."@);
    lemma_kept_agrees_opt_deployer_layer(r.deployer, b.deployer, shadow, prefix + "deployer."@);
    lemma_kept_agrees_opt_secrets_backend_ref_layer(r.secrets, b.secrets, shadow, prefix + "secrets."@);
    lemma_kept_agrees_opt_packs_layer(r.packs, b.packs, shadow, prefix + "packs."@);
    lemma_kept_agrees_opt_dev_layer(r.dev, b.dev, shadow, prefix + "dev."@);
}

proof fn lemma_kept_mono_config_layer(r: ConfigLayer, b: ConfigLayer, s1: Set<Seq<char>>, s2: Set<Seq<char>>, prefix: Seq<char>)
    requires
        kept_config_layer(r, b, s1, prefix),
        within(s1, s2),
    ensures
        kept_config_layer(r, b, s2, prefix),
{
    assert(s1.contains(prefix + "schema_version"@) ==> s2.contains(prefix + "schema_version"@));
    lemma_kept_mono_opt_environment_layer(r.environment, b.environment, s1, s2, prefix + "environment."@);
    lemma_kept_mono_opt_paths_layer(r.paths, b.paths, s1, s2, prefix + "paths."@);
    lemma_kept_mono_opt_services_layer(r.services, b.services, s1, s2, prefix + "services."@);
    lemma_kept_mono_opt_events_layer(r.events, b.events, s1, s2, prefix + "events."@);
    lemma_kept_mono_opt_runtime_layer(r.runtime, b.runtime, s1, s2, prefix + "runtime."@);
    lemma_kept_mono_opt_telemetry_layer(r.telemetry, b.telemetry, s1, s2, prefix + "telemetry."@);
    lemma_kept_mono_opt_network_layer(r.network, b.network, s1, s2, prefix + "network."@);
    lemma_kept_mono_opt_deployer_layer(r.deployer, b.deployer, s1, s2, prefix + "deployer."@);
    lemma_kept_mono_opt_secrets_backend_ref_layer(r.secrets, b.secrets, s1, s2, prefix + "secrets."@);
    lemma_kept_mono_opt_packs_layer(r.packs, b.packs, s1, s2, prefix + "packs."@);
    lemma_kept_mono_opt_dev_layer(r.dev, b.dev, s1, s2, prefix + "dev."@);
}

proof fn lemma_kept_step_config_layer(a: ConfigLayer, b: ConfigLayer, c: ConfigLayer, s1: Set<Seq<char>>, s2: Set<Seq<char>>, prefix: Seq<char>)
    requires
        kept_config_layer(a, b, s1, prefix),
        within(s1, s2),
        within(keys_config_layer(c, prefix), s2),
    ensures
        kept_config_layer(overlay_config_layer(a, c), b, s2, prefix),
{
    if c.schema_version is Some {
        assert(keys_config_layer(c, prefix).contains(prefix + "schema_version"@));
    }
    assert(s1.contains(prefix + "schema_version"@) ==> s2.contains(prefix + "schema_version"@));
    assert forall|k: Seq<char>| #[trigger] keys_opt_environment_layer(c.environment, prefix + "environment."@).contains(k) implies s2.contains(k) by {
        assert(keys_config_layer(c, prefix).contains(k));
    }
    assert forall|k: Seq<char>| #[trigger] keys_opt_paths_layer(c.paths, prefix + "paths."@).contains(k) implies s2.contains(k) by {
        assert(keys_config_layer(c, prefix).contains(k));
    }
    assert forall|k: Seq<char>| #[trigger] keys_opt_services_layer(c.services, prefix + "services."@).contains(k) implies s2.contains(k) by {
        assert(keys_config_layer(c, prefix).contains(k));
    }
    assert forall|k: Seq<char>| #[trigger] keys_opt_events_layer(c.events, prefix + "events."@).contains(k) implies s2.contains(k) by {
        assert(keys_config_layer(c, prefix).contains(k));
    }
    assert forall|k: Seq<char>| #[trigger] keys_opt_runtime_layer(c.runtime, prefix + "runtime."@).contains(k) implies s2.contains(k) by {
        assert(keys_config_layer(c, prefix).contains(k));
    }
    assert forall|k: Seq<char>| #[trigger] keys_opt_telemetry_layer(c.telemetry, prefix + "telemetry."@).contains(k) implies s2.contains(k) by {
        assert(keys_config_layer(c, prefix).contains(k));
    }
    assert forall|k: Seq<char>| #[trigger] keys_opt_network_layer(c.network, prefix + "network."@).contains(k) implies s2.contains(k) by {
        assert(keys_config_layer(c, prefix).contains(k));
    }
    assert forall|k: Seq<char>| #[trigger] keys_opt_deployer_layer(c.deployer, prefix + "deployer."@).contains(k) implies s2.contains(k) by {
        assert(keys_config_layer(c, prefix).contains(k));
    }
    assert forall|k: Seq<char>| #[trigger] keys_opt_secrets_backend_ref_layer(c.secrets, prefix + "secrets."@).contains(k) implies s2.contains(k) by {
        assert(keys_config_layer(c, prefix).contains(k));
    }
    assert forall|k: Seq<char>| #[trigger] keys_opt_packs_layer(c.packs, prefix + "packs."@).contains(k) implies s2.contains(k) by {
        assert(keys_config_layer(c, prefix).contains(k));
    }
    assert forall|k: Seq<char>| #[trigger] keys_opt_dev_layer(c.dev, prefix + "dev."@).contains(k) implies s2.contains(k) by {
        assert(keys_config_layer(c, prefix).contains(k));
    }
    lemma_kept_step_opt_environment_layer(a.environment, b.environment, c.environment, s1, s2, prefix + "environment."@);
    lemma_kept_step_opt_paths_layer(a.paths, b.paths, c.paths, s1, s2, prefix + "paths."@);
    lemma_kept_step_opt_services_layer(a.services, b.services, c.services, s1, s2, prefix + "services."@);
    lemma_kept_step_opt_events_layer(a.events, b.events, c.events, s1, s2, prefix + "events."@);
    lemma_kept_step_opt_runtime_layer(a.runtime, b.runtime, c.runtime, s1, s2, prefix + "runtime."@);
    lemma_kept_step_opt_telemetry_layer(a.telemetry, b.telemetry, c.telemetry, s1, s2, prefix + "telemetry."@);
    lemma_kept_step_opt_network_layer(a.network, b.network, c.network, s1, s2, prefix + "network."@);
    lemma_kept_step_opt_deployer_layer(a.deployer, b.deployer, c.deployer, s1, s2, prefix + "deployer."@);
    lemma_kept_step_opt_secrets_backend_ref_layer(a.secrets, b.secrets, c.secrets, s1, s2, prefix + "secrets."@);
    lemma_kept_step_opt_packs_layer(a.packs, b.packs, c.packs, s1, s2, prefix + "packs."@);
    lemma_kept_step_opt_dev_layer(a.dev, b.dev, c.dev, s1, s2, prefix + "dev."@);
}

/// Whether `r` holds the value of every leaf that `b` sets and whose path is not in `shadow`.
pub open spec fn kept(r: ConfigLayer, b: ConfigLayer, shadow: Set<Seq<char>>) -> bool {
    kept_config_layer(r, b, shadow, ""@)
}

/// A merge holds every leaf value of its last layer.
pub proof fn lemma_kept_last(a: ConfigLayer, b: ConfigLayer, shadow: Set<Seq<char>>)
    ensures
        kept(overlay_config_layer(a, b), b, shadow),
{
    lemma_later_layer_wins(a, b);
    lemma_kept_agrees_config_layer(overlay_config_layer(a, b), b, shadow, ""@);
}

/// Applying a layer `c` keeps every leaf of `b` that `c` does not set.
pub proof fn lemma_kept_step(a: ConfigLayer, b: ConfigLayer, c: ConfigLayer, shadow: Set<Seq<char>>)
    requires
        kept(a, b, shadow),
    ensures
        kept(overlay_config_layer(a, c), b, shadow.union(keys_config_layer(c, ""@))),
{
    lemma_kept_step_config_layer(a, b, c, shadow, shadow.union(keys_config_layer(c, ""@)), ""@);
}

} // verus!
