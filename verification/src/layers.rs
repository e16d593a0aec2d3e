//! Partial configuration layers and how one layer overrides another.
//!
//! A layer sets some configuration leaves and leaves the others unset. Layers are merged
//! in precedence order (defaults, user, project, environment, CLI); a leaf set by a later
//! layer replaces the value of an earlier one.
use vstd::prelude::*;
use crate::provenance::leaf_keys;
use crate::types::{ConfigVersion, ConnectionKind, EnvId, F32Bits, F64Bits, Headers};
use crate::weburl::Url;

verus! {

/// Which format a configuration file is written in.
#[derive(Debug, Clone, Copy, PartialEq, Eq, Structural)]
pub enum ConfigFileFormat {
    Toml,
    Json,
}

/// Where the pack index comes from, as far as a layer specifies it.
#[derive(Debug, Clone, PartialEq)]
pub enum PackSourceLayer {
    LocalIndex { path: Option<String> },
    HttpIndex { url: Option<String> },
    OciRegistry { reference: Option<String> },
}

impl Default for PackSourceLayer {
    fn default() -> (r: Self)
        ensures
            r == (PackSourceLayer::LocalIndex { path: None }),
    {
        PackSourceLayer::LocalIndex { path: None }
    }
}

/// `b` when it holds a value, `a` otherwise.
pub open spec fn pick<T>(a: Option<T>, b: Option<T>) -> Option<T> {
    if b is Some {
        b
    } else {
        a
    }
}

/// Whether `r` holds `b`'s value wherever `b` has one.
pub open spec fn agrees_leaf<T>(r: Option<T>, b: Option<T>) -> bool {
    b is Some ==> r == b
}

#[derive(Debug, Clone, Default, PartialEq)]
pub struct EnvironmentLayer {
    pub env_id: Option<EnvId>,
    pub deployment: Option<greentic_types::DeploymentCtx>,
    pub connection: Option<ConnectionKind>,
    pub region: Option<String>,
}

#[derive(Debug, Clone, Default, PartialEq)]
pub struct PathsLayer {
    pub greentic_root: Option<String>,
    pub state_dir: Option<String>,
    pub cache_dir: Option<String>,
    pub logs_dir: Option<String>,
}

#[derive(Debug, Clone, Default, PartialEq)]
pub struct ServiceEndpointLayer {
    pub url: Option<Url>,
    pub headers: Option<Headers>,
}

#[derive(Debug, Clone, Default, PartialEq)]
pub struct ServiceTransportLayer {
    pub kind: Option<String>,
    pub url: Option<Url>,
    pub headers: Option<Headers>,
    pub subject_prefix: Option<String>,
}

#[derive(Debug, Clone, Default, PartialEq)]
pub struct MetricsLayer {
    pub enabled: Option<bool>,
    pub bind_addr: Option<String>,
    pub port: Option<u16>,
    pub path: Option<String>,
}

#[derive(Debug, Clone, Default, PartialEq)]
pub struct ServiceConfigLayer {
    pub bind_addr: Option<String>,
    pub port: Option<u16>,
    pub public_base_url: Option<String>,
    pub metrics: Option<MetricsLayer>,
}

#[derive(Debug, Clone, Default, PartialEq)]
pub struct ServiceLayer {
    pub transport: ServiceTransportLayer,
    pub service: Option<ServiceConfigLayer>,
}

#[derive(Debug, Clone, Default, PartialEq)]
pub struct ServicesLayer {
    pub events: Option<ServiceEndpointLayer>,
    pub runner: Option<ServiceLayer>,
    pub deployer: Option<ServiceLayer>,
    pub events_transport: Option<ServiceLayer>,
    pub source: Option<ServiceLayer>,
    pub publish: Option<ServiceLayer>,
    pub metadata: Option<ServiceLayer>,
    pub oauth_broker: Option<ServiceLayer>,
}

#[derive(Debug, Clone, Default, PartialEq)]
pub struct ReconnectLayer {
    pub enabled: Option<bool>,
    pub max_retries: Option<u32>,
}

#[derive(Debug, Clone, Default, PartialEq)]
pub struct BackoffLayer {
    pub initial_ms: Option<u64>,
    pub max_ms: Option<u64>,
    pub multiplier: Option<F64Bits>,
    pub jitter: Option<bool>,
}

#[derive(Debug, Clone, Default, PartialEq)]
pub struct EventsLayer {
    pub reconnect: Option<ReconnectLayer>,
    pub backoff: Option<BackoffLayer>,
}

#[derive(Debug, Clone, Default, PartialEq)]
pub struct AdminEndpointsLayer {
    pub secrets_explain_enabled: Option<bool>,
}

#[derive(Debug, Clone, Default, PartialEq)]
pub struct RuntimeLayer {
    pub max_concurrency: Option<u32>,
    pub task_timeout_ms: Option<u64>,
    pub shutdown_grace_ms: Option<u64>,
    pub admin_endpoints: Option<AdminEndpointsLayer>,
}

#[derive(Debug, Clone, Default, PartialEq)]
pub struct TelemetryLayer {
    pub enabled: Option<bool>,
    pub exporter: Option<String>,
    pub endpoint: Option<String>,
    pub sampling: Option<F32Bits>,
}

#[derive(Debug, Clone, Default, PartialEq)]
pub struct NetworkLayer {
    pub proxy_url: Option<String>,
    pub tls_mode: Option<String>,
    pub connect_timeout_ms: Option<u64>,
    pub read_timeout_ms: Option<u64>,
}

#[derive(Debug, Clone, Default, PartialEq)]
pub struct DeployerProviderDefaultsLayer {
    pub provider_kind: Option<String>,
    pub region: Option<String>,
}

#[derive(Debug, Clone, Default, PartialEq)]
pub struct DeployerLayer {
    pub base_domain: Option<String>,
    pub provider: Option<DeployerProviderDefaultsLayer>,
}

#[derive(Debug, Clone, Default, PartialEq)]
pub struct SecretsBackendRefLayer {
    pub kind: Option<String>,
    pub reference: Option<String>,
}

#[derive(Debug, Clone, Default, PartialEq)]
pub struct PackTrustLayer {
    pub public_keys: Option<Vec<String>>,
    pub require_signatures: Option<bool>,
}

#[derive(Debug, Clone, Default, PartialEq)]
pub struct PacksLayer {
    pub source: Option<PackSourceLayer>,
    pub cache_dir: Option<String>,
    pub index_cache_ttl_secs: Option<u64>,
    pub trust: Option<PackTrustLayer>,
}

#[derive(Debug, Clone, Default, PartialEq)]
pub struct DevLayer {
    pub default_env: Option<EnvId>,
    pub default_tenant: Option<String>,
    pub default_team: Option<String>,
}

#[derive(Debug, Clone, Default, PartialEq)]
pub struct ConfigLayer {
    pub schema_version: Option<ConfigVersion>,
    pub environment: Option<EnvironmentLayer>,
    pub paths: Option<PathsLayer>,
    pub services: Option<ServicesLayer>,
    pub events: Option<EventsLayer>,
    pub runtime: Option<RuntimeLayer>,
    pub telemetry: Option<TelemetryLayer>,
    pub network: Option<NetworkLayer>,
    pub deployer: Option<DeployerLayer>,
    pub secrets: Option<SecretsBackendRefLayer>,
    pub packs: Option<PacksLayer>,
    pub dev: Option<DevLayer>,
}

/// The EnvironmentLayer that sets nothing.
pub open spec fn empty_environment_layer() -> EnvironmentLayer {
    EnvironmentLayer {
        env_id: None,
        deployment: None,
        connection: None,
        region: None,
    }
}

/// `a` overridden by `b`: every leaf `b` sets replaces the one in `a`.
pub open spec fn overlay_environment_layer(a: EnvironmentLayer, b: EnvironmentLayer) -> EnvironmentLayer {
    EnvironmentLayer {
        env_id: pick(a.env_id, b.env_id),
        deployment: pick(a.deployment, b.deployment),
        connection: pick(a.connection, b.connection),
        region: pick(a.region, b.region),
    }
}

/// An optional EnvironmentLayer overridden by another; a section that only one side has is kept.
pub open spec fn overlay_opt_environment_layer(a: Option<EnvironmentLayer>, b: Option<EnvironmentLayer>) -> Option<EnvironmentLayer> {
    match b {
        None => a,
        Some(y) => Some(overlay_environment_layer(a.unwrap_or(empty_environment_layer()), y)),
    }
}

/// The paths of the leaves that `b` sets, each path starting with `prefix`.
pub open spec fn keys_environment_layer(b: EnvironmentLayer, prefix: Seq<char>) -> Set<Seq<char>> {
    leaf_keys(b.env_id, prefix + "env_id"@).union(leaf_keys(b.deployment, prefix + "deployment"@)).union(leaf_keys(b.connection, prefix + "connection"@)).union(leaf_keys(b.region, prefix + "region"@))
}

pub open spec fn keys_opt_environment_layer(b: Option<EnvironmentLayer>, prefix: Seq<char>) -> Set<Seq<char>> {
    match b {
        None => Set::empty(),
        Some(y) => keys_environment_layer(y, prefix),
    }
}

/// Whether `r` holds every leaf value that `b` sets.
pub open spec fn agrees_environment_layer(r: EnvironmentLayer, b: EnvironmentLayer) -> bool {
    agrees_leaf(r.env_id, b.env_id)
    && agrees_leaf(r.deployment, b.deployment)
    && agrees_leaf(r.connection, b.connection)
    && agrees_leaf(r.region, b.region)
}

pub open spec fn agrees_opt_environment_layer(r: Option<EnvironmentLayer>, b: Option<EnvironmentLayer>) -> bool {
    match b {
        None => true,
        Some(y) => r is Some && agrees_environment_layer(r->0, y),
    }
}

impl EnvironmentLayer {
    /// The layer section that sets nothing.
    pub fn empty() -> (r: Self)
        ensures
            r == empty_environment_layer(),
    {
        EnvironmentLayer {
            env_id: None,
            deployment: None,
            connection: None,
            region: None,
        }
    }
}

/// The PathsLayer that sets nothing.
pub open spec fn empty_paths_layer() -> PathsLayer {
    PathsLayer {
        greentic_root: None,
        state_dir: None,
        cache_dir: None,
        logs_dir: None,
    }
}

/// `a` overridden by `b`: every leaf `b` sets replaces the one in `a`.
pub open spec fn overlay_paths_layer(a: PathsLayer, b: PathsLayer) -> PathsLayer {
    PathsLayer {
        greentic_root: pick(a.greentic_root, b.greentic_root),
        state_dir: pick(a.state_dir, b.state_dir),
        cache_dir: pick(a.cache_dir, b.cache_dir),
        logs_dir: pick(a.logs_dir, b.logs_dir),
    }
}

/// An optional PathsLayer overridden by another; a section that only one side has is kept.
pub open spec fn overlay_opt_paths_layer(a: Option<PathsLayer>, b: Option<PathsLayer>) -> Option<PathsLayer> {
    match b {
        None => a,
        Some(y) => Some(overlay_paths_layer(a.unwrap_or(empty_paths_layer()), y)),
    }
}

/// The paths of the leaves that `b` sets, each path starting with `prefix`.
pub open spec fn keys_paths_layer(b: PathsLayer, prefix: Seq<char>) -> Set<Seq<char>> {
    leaf_keys(b.greentic_root, prefix + "greentic_root"@).union(leaf_keys(b.state_dir, prefix + "state_dir"@)).union(leaf_keys(b.cache_dir, prefix + "cache_dir"@)).union(leaf_keys(b.logs_dir, prefix + "logs_dir"@))
}

pub open spec fn keys_opt_paths_layer(b: Option<PathsLayer>, prefix: Seq<char>) -> Set<Seq<char>> {
    match b {
        None => Set::empty(),
        Some(y) => keys_paths_layer(y, prefix),
    }
}

/// Whether `r` holds every leaf value that `b` sets.
pub open spec fn agrees_paths_layer(r: PathsLayer, b: PathsLayer) -> bool {
    agrees_leaf(r.greentic_root, b.greentic_root)
    && agrees_leaf(r.state_dir, b.state_dir)
    && agrees_leaf(r.cache_dir, b.cache_dir)
    && agrees_leaf(r.logs_dir, b.logs_dir)
}

pub open spec fn agrees_opt_paths_layer(r: Option<PathsLayer>, b: Option<PathsLayer>) -> bool {
    match b {
        None => true,
        Some(y) => r is Some && agrees_paths_layer(r->0, y),
    }
}

impl PathsLayer {
    /// The layer section that sets nothing.
    pub fn empty() -> (r: Self)
        ensures
            r == empty_paths_layer(),
    {
        PathsLayer {
            greentic_root: None,
            state_dir: None,
            cache_dir: None,
            logs_dir: None,
        }
    }
}

/// The ServiceEndpointLayer that sets nothing.
pub open spec fn empty_service_endpoint_layer() -> ServiceEndpointLayer {
    ServiceEndpointLayer {
        url: None,
        headers: None,
    }
}

/// `a` overridden by `b`: every leaf `b` sets replaces the one in `a`.
pub open spec fn overlay_service_endpoint_layer(a: ServiceEndpointLayer, b: ServiceEndpointLayer) -> ServiceEndpointLayer {
    ServiceEndpointLayer {
        url: pick(a.url, b.url),
        headers: pick(a.headers, b.headers),
    }
}

/// An optional ServiceEndpointLayer overridden by another; a section that only one side has is kept.
pub open spec fn overlay_opt_service_endpoint_layer(a: Option<ServiceEndpointLayer>, b: Option<ServiceEndpointLayer>) -> Option<ServiceEndpointLayer> {
    match b {
        None => a,
        Some(y) => Some(overlay_service_endpoint_layer(a.unwrap_or(empty_service_endpoint_layer()), y)),
    }
}

/// The paths of the leaves that `b` sets, each path starting with `prefix`.
pub open spec fn keys_service_endpoint_layer(b: ServiceEndpointLayer, prefix: Seq<char>) -> Set<Seq<char>> {
    leaf_keys(b.url, prefix + "url"@).union(leaf_keys(b.headers, prefix + "headers"@))
}

pub open spec fn keys_opt_service_endpoint_layer(b: Option<ServiceEndpointLayer>, prefix: Seq<char>) -> Set<Seq<char>> {
    match b {
        None => Set::empty(),
        Some(y) => keys_service_endpoint_layer(y, prefix),
    }
}

/// Whether `r` holds every leaf value that `b` sets.
pub open spec fn agrees_service_endpoint_layer(r: ServiceEndpointLayer, b: ServiceEndpointLayer) -> bool {
    agrees_leaf(r.url, b.url)
    && agrees_leaf(r.headers, b.headers)
}

pub open spec fn agrees_opt_service_endpoint_layer(r: Option<ServiceEndpointLayer>, b: Option<ServiceEndpointLayer>) -> bool {
    match b {
        None => true,
        Some(y) => r is Some && agrees_service_endpoint_layer(r->0, y),
    }
}

impl ServiceEndpointLayer {
    /// The layer section that sets nothing.
    pub fn empty() -> (r: Self)
        ensures
            r == empty_service_endpoint_layer(),
    {
        ServiceEndpointLayer {
            url: None,
            headers: None,
        }
    }
}

/// The ServiceTransportLayer that sets nothing.
pub open spec fn empty_service_transport_layer() -> ServiceTransportLayer {
    ServiceTransportLayer {
        kind: None,
        url: None,
        headers: None,
        subject_prefix: None,
    }
}

/// `a` overridden by `b`: every leaf `b` sets replaces the one in `a`.
pub open spec fn overlay_service_transport_layer(a: ServiceTransportLayer, b: ServiceTransportLayer) -> ServiceTransportLayer {
    ServiceTransportLayer {
        kind: pick(a.kind, b.kind),
        url: pick(a.url, b.url),
        headers: pick(a.headers, b.headers),
        subject_prefix: pick(a.subject_prefix, b.subject_prefix),
    }
}

/// An optional ServiceTransportLayer overridden by another; a section that only one side has is kept.
pub open spec fn overlay_opt_service_transport_layer(a: Option<ServiceTransportLayer>, b: Option<ServiceTransportLayer>) -> Option<ServiceTransportLayer> {
    match b {
        None => a,
        Some(y) => Some(overlay_service_transport_layer(a.unwrap_or(empty_service_transport_layer()), y)),
    }
}

/// The paths of the leaves that `b` sets, each path starting with `prefix`.
pub open spec fn keys_service_transport_layer(b: ServiceTransportLayer, prefix: Seq<char>) -> Set<Seq<char>> {
    leaf_keys(b.kind, prefix + "kind"@).union(leaf_keys(b.url, prefix + "url"@)).union(leaf_keys(b.headers, prefix + "headers"@)).union(leaf_keys(b.subject_prefix, prefix + "subject_prefix"@))
}

pub open spec fn keys_opt_service_transport_layer(b: Option<ServiceTransportLayer>, prefix: Seq<char>) -> Set<Seq<char>> {
    match b {
        None => Set::empty(),
        Some(y) => keys_service_transport_layer(y, prefix),
    }
}

/// Whether `r` holds every leaf value that `b` sets.
pub open spec fn agrees_service_transport_layer(r: ServiceTransportLayer, b: ServiceTransportLayer) -> bool {
    agrees_leaf(r.kind, b.kind)
    && agrees_leaf(r.url, b.url)
    && agrees_leaf(r.headers, b.headers)
    && agrees_leaf(r.subject_prefix, b.subject_prefix)
}

impl ServiceTransportLayer {
    /// The layer section that sets nothing.
    pub fn empty() -> (r: Self)
        ensures
            r == empty_service_transport_layer(),
    {
        ServiceTransportLayer {
            kind: None,
            url: None,
            headers: None,
            subject_prefix: None,
        }
    }
}

/// The MetricsLayer that sets nothing.
pub open spec fn empty_metrics_layer() -> MetricsLayer {
    MetricsLayer {
        enabled: None,
        bind_addr: None,
        port: None,
        path: None,
    }
}

/// `a` overridden by `b`: every leaf `b` sets replaces the one in `a`.
pub open spec fn overlay_metrics_layer(a: MetricsLayer, b: MetricsLayer) -> MetricsLayer {
    MetricsLayer {
        enabled: pick(a.enabled, b.enabled),
        bind_addr: pick(a.bind_addr, b.bind_addr),
        port: pick(a.port, b.port),
        path: pick(a.path, b.path),
    }
}

/// An optional MetricsLayer overridden by another; a section that only one side has is kept.
pub open spec fn overlay_opt_metrics_layer(a: Option<MetricsLayer>, b: Option<MetricsLayer>) -> Option<MetricsLayer> {
    match b {
        None => a,
        Some(y) => Some(overlay_metrics_layer(a.unwrap_or(empty_metrics_layer()), y)),
    }
}

/// The paths of the leaves that `b` sets, each path starting with `prefix`.
pub open spec fn keys_metrics_layer(b: MetricsLayer, prefix: Seq<char>) -> Set<Seq<char>> {
    leaf_keys(b.enabled, prefix + "enabled"@).union(leaf_keys(b.bind_addr, prefix + "bind_addr"@)).union(leaf_keys(b.port, prefix + "port"@)).union(leaf_keys(b.path, prefix + "path"@))
}

pub open spec fn keys_opt_metrics_layer(b: Option<MetricsLayer>, prefix: Seq<char>) -> Set<Seq<char>> {
    match b {
        None => Set::empty(),
        Some(y) => keys_metrics_layer(y, prefix),
    }
}

/// Whether `r` holds every leaf value that `b` sets.
pub open spec fn agrees_metrics_layer(r: MetricsLayer, b: MetricsLayer) -> bool {
    agrees_leaf(r.enabled, b.enabled)
    && agrees_leaf(r.bind_addr, b.bind_addr)
    && agrees_leaf(r.port, b.port)
    && agrees_leaf(r.path, b.path)
}

pub open spec fn agrees_opt_metrics_layer(r: Option<MetricsLayer>, b: Option<MetricsLayer>) -> bool {
    match b {
        None => true,
        Some(y) => r is Some && agrees_metrics_layer(r->0, y),
    }
}

impl MetricsLayer {
    /// The layer section that sets nothing.
    pub fn empty() -> (r: Self)
        ensures
            r == empty_metrics_layer(),
    {
        MetricsLayer {
            enabled: None,
            bind_addr: None,
            port: None,
            path: None,
        }
    }
}

/// The ServiceConfigLayer that sets nothing.
pub open spec fn empty_service_config_layer() -> ServiceConfigLayer {
    ServiceConfigLayer {
        bind_addr: None,
        port: None,
        public_base_url: None,
        metrics: None,
    }
}

/// `a` overridden by `b`: every leaf `b` sets replaces the one in `a`.
pub open spec fn overlay_service_config_layer(a: ServiceConfigLayer, b: ServiceConfigLayer) -> ServiceConfigLayer {
    ServiceConfigLayer {
        bind_addr: pick(a.bind_addr, b.bind_addr),
        port: pick(a.port, b.port),
        public_base_url: pick(a.public_base_url, b.public_base_url),
        metrics: overlay_opt_metrics_layer(a.metrics, b.metrics),
    }
}

/// An optional ServiceConfigLayer overridden by another; a section that only one side has is kept.
pub open spec fn overlay_opt_service_config_layer(a: Option<ServiceConfigLayer>, b: Option<ServiceConfigLayer>) -> Option<ServiceConfigLayer> {
    match b {
        None => a,
        Some(y) => Some(overlay_service_config_layer(a.unwrap_or(empty_service_config_layer()), y)),
    }
}

/// The paths of the leaves that `b` sets, each path starting with `prefix`.
pub open spec fn keys_service_config_layer(b: ServiceConfigLayer, prefix: Seq<char>) -> Set<Seq<char>> {
    leaf_keys(b.bind_addr, prefix + "bind_addr"@).union(leaf_keys(b.port, prefix + "port"@)).union(leaf_keys(b.public_base_url, prefix + "public_base_url"@)).union(keys_opt_metrics_layer(b.metrics, prefix + "metrics."@))
}

pub open spec fn keys_opt_service_config_layer(b: Option<ServiceConfigLayer>, prefix: Seq<char>) -> Set<Seq<char>> {
    match b {
        None => Set::empty(),
        Some(y) => keys_service_config_layer(y, prefix),
    }
}

/// Whether `r` holds every leaf value that `b` sets.
pub open spec fn agrees_service_config_layer(r: ServiceConfigLayer, b: ServiceConfigLayer) -> bool {
    agrees_leaf(r.bind_addr, b.bind_addr)
    && agrees_leaf(r.port, b.port)
    && agrees_leaf(r.public_base_url, b.public_base_url)
    && agrees_opt_metrics_layer(r.metrics, b.metrics)
}

pub open spec fn agrees_opt_service_config_layer(r: Option<ServiceConfigLayer>, b: Option<ServiceConfigLayer>) -> bool {
    match b {
        None => true,
        Some(y) => r is Some && agrees_service_config_layer(r->0, y),
    }
}

impl ServiceConfigLayer {
    /// The layer section that sets nothing.
    pub fn empty() -> (r: Self)
        ensures
            r == empty_service_config_layer(),
    {
        ServiceConfigLayer {
            bind_addr: None,
            port: None,
            public_base_url: None,
            metrics: None,
        }
    }
}

/// The ServiceLayer that sets nothing.
pub open spec fn empty_service_layer() -> ServiceLayer {
    ServiceLayer {
        transport: empty_service_transport_layer(),
        service: None,
    }
}

/// `a` overridden by `b`: every leaf `b` sets replaces the one in `a`.
pub open spec fn overlay_service_layer(a: ServiceLayer, b: ServiceLayer) -> ServiceLayer {
    ServiceLayer {
        transport: overlay_service_transport_layer(a.transport, b.transport),
        service: overlay_opt_service_config_layer(a.service, b.service),
    }
}

/// An optional ServiceLayer overridden by another; a section that only one side has is kept.
pub open spec fn overlay_opt_service_layer(a: Option<ServiceLayer>, b: Option<ServiceLayer>) -> Option<ServiceLayer> {
    match b {
        None => a,
        Some(y) => Some(overlay_service_layer(a.unwrap_or(empty_service_layer()), y)),
    }
}

/// The paths of the leaves that `b` sets, each path starting with `prefix`.
pub open spec fn keys_service_layer(b: ServiceLayer, prefix: Seq<char>) -> Set<Seq<char>> {
    keys_service_transport_layer(b.transport, prefix).union(keys_opt_service_config_layer(b.service, prefix + "service."@))
}

pub open spec fn keys_opt_service_layer(b: Option<ServiceLayer>, prefix: Seq<char>) -> Set<Seq<char>> {
    match b {
        None => Set::empty(),
        Some(y) => keys_service_layer(y, prefix),
    }
}

/// Whether `r` holds every leaf value that `b` sets.
pub open spec fn agrees_service_layer(r: ServiceLayer, b: ServiceLayer) -> bool {
    agrees_service_transport_layer(r.transport, b.transport)
    && agrees_opt_service_config_layer(r.service, b.service)
}

pub open spec fn agrees_opt_service_layer(r: Option<ServiceLayer>, b: Option<ServiceLayer>) -> bool {
    match b {
        None => true,
        Some(y) => r is Some && agrees_service_layer(r->0, y),
    }
}

impl ServiceLayer {
    /// The layer section that sets nothing.
    pub fn empty() -> (r: Self)
        ensures
            r == empty_service_layer(),
    {
        ServiceLayer {
            transport: ServiceTransportLayer::empty(),
            service: None,
        }
    }
}

/// The ServicesLayer that sets nothing.
pub open spec fn empty_services_layer() -> ServicesLayer {
    ServicesLayer {
        events: None,
        runner: None,
        deployer: None,
        events_transport: None,
        source: None,
        publish: None,
        metadata: None,
        oauth_broker: None,
    }
}

/// `a` overridden by `b`: every leaf `b` sets replaces the one in `a`.
pub open spec fn overlay_services_layer(a: ServicesLayer, b: ServicesLayer) -> ServicesLayer {
    ServicesLayer {
        events: overlay_opt_service_endpoint_layer(a.events, b.events),
        runner: overlay_opt_service_layer(a.runner, b.runner),
        deployer: overlay_opt_service_layer(a.deployer, b.deployer),
        events_transport: overlay_opt_service_layer(a.events_transport, b.events_transport),
        source: overlay_opt_service_layer(a.source, b.source),
        publish: overlay_opt_service_layer(a.publish, b.publish),
        metadata: overlay_opt_service_layer(a.metadata, b.metadata),
        oauth_broker: overlay_opt_service_layer(a.oauth_broker, b.oauth_broker),
    }
}

/// An optional ServicesLayer overridden by another; a section that only one side has is kept.
pub open spec fn overlay_opt_services_layer(a: Option<ServicesLayer>, b: Option<ServicesLayer>) -> Option<ServicesLayer> {
    match b {
        None => a,
        Some(y) => Some(overlay_services_layer(a.unwrap_or(empty_services_layer()), y)),
    }
}

/// The paths of the leaves that `b` sets, each path starting with `prefix`.
pub open spec fn keys_services_layer(b: ServicesLayer, prefix: Seq<char>) -> Set<Seq<char>> {
    keys_opt_service_endpoint_layer(b.events, prefix + "events."@).union(keys_opt_service_layer(b.runner, prefix + "runner."@)).union(keys_opt_service_layer(b.deployer, prefix + "deployer."@)).union(keys_opt_service_layer(b.events_transport, prefix + "events_transport."@)).union(keys_opt_service_layer(b.source, prefix + "source."@)).union(keys_opt_service_layer(b.publish, prefix + "publish."@)).union(keys_opt_service_layer(b.metadata, prefix + "metadata."@)).union(keys_opt_service_layer(b.oauth_broker, prefix + "oauth_broker."@))
}

pub open spec fn keys_opt_services_layer(b: Option<ServicesLayer>, prefix: Seq<char>) -> Set<Seq<char>> {
    match b {
        None => Set::empty(),
        Some(y) => keys_services_layer(y, prefix),
    }
}

/// Whether `r` holds every leaf value that `b` sets.
pub open spec fn agrees_services_layer(r: ServicesLayer, b: ServicesLayer) -> bool {
    agrees_opt_service_endpoint_layer(r.events, b.events)
    && agrees_opt_service_layer(r.runner, b.runner)
    && agrees_opt_service_layer(r.deployer, b.deployer)
    && agrees_opt_service_layer(r.events_transport, b.events_transport)
    && agrees_opt_service_layer(r.source, b.source)
    && agrees_opt_service_layer(r.publish, b.publish)
    && agrees_opt_service_layer(r.metadata, b.metadata)
    && agrees_opt_service_layer(r.oauth_broker, b.oauth_broker)
}

pub open spec fn agrees_opt_services_layer(r: Option<ServicesLayer>, b: Option<ServicesLayer>) -> bool {
    match b {
        None => true,
        Some(y) => r is Some && agrees_services_layer(r->0, y),
    }
}

impl ServicesLayer {
    /// The layer section that sets nothing.
    pub fn empty() -> (r: Self)
        ensures
            r == empty_services_layer(),
    {
        ServicesLayer {
            events: None,
            runner: None,
            deployer: None,
            events_transport: None,
            source: None,
            publish: None,
            metadata: None,
            oauth_broker: None,
        }
    }
}

/// The ReconnectLayer that sets nothing.
pub open spec fn empty_reconnect_layer() -> ReconnectLayer {
    ReconnectLayer {
        enabled: None,
        max_retries: None,
    }
}

/// `a` overridden by `b`: every leaf `b` sets replaces the one in `a`.
pub open spec fn overlay_reconnect_layer(a: ReconnectLayer, b: ReconnectLayer) -> ReconnectLayer {
    ReconnectLayer {
        enabled: pick(a.enabled, b.enabled),
        max_retries: pick(a.max_retries, b.max_retries),
    }
}

/// An optional ReconnectLayer overridden by another; a section that only one side has is kept.
pub open spec fn overlay_opt_reconnect_layer(a: Option<ReconnectLayer>, b: Option<ReconnectLayer>) -> Option<ReconnectLayer> {
    match b {
        None => a,
        Some(y) => Some(overlay_reconnect_layer(a.unwrap_or(empty_reconnect_layer()), y)),
    }
}

/// The paths of the leaves that `b` sets, each path starting with `prefix`.
pub open spec fn keys_reconnect_layer(b: ReconnectLayer, prefix: Seq<char>) -> Set<Seq<char>> {
    leaf_keys(b.enabled, prefix + "enabled"@).union(leaf_keys(b.max_retries, prefix + "max_retries"@))
}

pub open spec fn keys_opt_reconnect_layer(b: Option<ReconnectLayer>, prefix: Seq<char>) -> Set<Seq<char>> {
    match b {
        None => Set::empty(),
        Some(y) => keys_reconnect_layer(y, prefix),
    }
}

/// Whether `r` holds every leaf value that `b` sets.
pub open spec fn agrees_reconnect_layer(r: ReconnectLayer, b: ReconnectLayer) -> bool {
    agrees_leaf(r.enabled, b.enabled)
    && agrees_leaf(r.max_retries, b.max_retries)
}

pub open spec fn agrees_opt_reconnect_layer(r: Option<ReconnectLayer>, b: Option<ReconnectLayer>) -> bool {
    match b {
        None => true,
        Some(y) => r is Some && agrees_reconnect_layer(r->0, y),
    }
}

impl ReconnectLayer {
    /// The layer section that sets nothing.
    pub fn empty() -> (r: Self)
        ensures
            r == empty_reconnect_layer(),
    {
        ReconnectLayer {
            enabled: None,
            max_retries: None,
        }
    }
}

/// The BackoffLayer that sets nothing.
pub open spec fn empty_backoff_layer() -> BackoffLayer {
    BackoffLayer {
        initial_ms: None,
        max_ms: None,
        multiplier: None,
        jitter: None,
    }
}

/// `a` overridden by `b`: every leaf `b` sets replaces the one in `a`.
pub open spec fn overlay_backoff_layer(a: BackoffLayer, b: BackoffLayer) -> BackoffLayer {
    BackoffLayer {
        initial_ms: pick(a.initial_ms, b.initial_ms),
        max_ms: pick(a.max_ms, b.max_ms),
        multiplier: pick(a.multiplier, b.multiplier),
        jitter: pick(a.jitter, b.jitter),
    }
}

/// An optional BackoffLayer overridden by another; a section that only one side has is kept.
pub open spec fn overlay_opt_backoff_layer(a: Option<BackoffLayer>, b: Option<BackoffLayer>) -> Option<BackoffLayer> {
    match b {
        None => a,
        Some(y) => Some(overlay_backoff_layer(a.unwrap_or(empty_backoff_layer()), y)),
    }
}

/// The paths of the leaves that `b` sets, each path starting with `prefix`.
pub open spec fn keys_backoff_layer(b: BackoffLayer, prefix: Seq<char>) -> Set<Seq<char>> {
    leaf_keys(b.initial_ms, prefix + "initial_ms"@).union(leaf_keys(b.max_ms, prefix + "max_ms"@)).union(leaf_keys(b.multiplier, prefix + "multiplier"@)).union(leaf_keys(b.jitter, prefix + "jitter"@))
}

pub open spec fn keys_opt_backoff_layer(b: Option<BackoffLayer>, prefix: Seq<char>) -> Set<Seq<char>> {
    match b {
        None => Set::empty(),
        Some(y) => keys_backoff_layer(y, prefix),
    }
}

/// Whether `r` holds every leaf value that `b` sets.
pub open spec fn agrees_backoff_layer(r: BackoffLayer, b: BackoffLayer) -> bool {
    agrees_leaf(r.initial_ms, b.initial_ms)
    && agrees_leaf(r.max_ms, b.max_ms)
    && agrees_leaf(r.multiplier, b.multiplier)
    && agrees_leaf(r.jitter, b.jitter)
}

pub open spec fn agrees_opt_backoff_layer(r: Option<BackoffLayer>, b: Option<BackoffLayer>) -> bool {
    match b {
        None => true,
        Some(y) => r is Some && agrees_backoff_layer(r->0, y),
    }
}

impl BackoffLayer {
    /// The layer section that sets nothing.
    pub fn empty() -> (r: Self)
        ensures
            r == empty_backoff_layer(),
    {
        BackoffLayer {
            initial_ms: None,
            max_ms: None,
            multiplier: None,
            jitter: None,
        }
    }
}

/// The EventsLayer that sets nothing.
pub open spec fn empty_events_layer() -> EventsLayer {
    EventsLayer {
        reconnect: None,
        backoff: None,
    }
}

/// `a` overridden by `b`: every leaf `b` sets replaces the one in `a`.
pub open spec fn overlay_events_layer(a: EventsLayer, b: EventsLayer) -> EventsLayer {
    EventsLayer {
        reconnect: overlay_opt_reconnect_layer(a.reconnect, b.reconnect),
        backoff: overlay_opt_backoff_layer(a.backoff, b.backoff),
    }
}

/// An optional EventsLayer overridden by another; a section that only one side has is kept.
pub open spec fn overlay_opt_events_layer(a: Option<EventsLayer>, b: Option<EventsLayer>) -> Option<EventsLayer> {
    match b {
        None => a,
        Some(y) => Some(overlay_events_layer(a.unwrap_or(empty_events_layer()), y)),
    }
}

/// The paths of the leaves that `b` sets, each path starting with `prefix`.
pub open spec fn keys_events_layer(b: EventsLayer, prefix: Seq<char>) -> Set<Seq<char>> {
    keys_opt_reconnect_layer(b.reconnect, prefix + "reconnect."@).union(keys_opt_backoff_layer(b.backoff, prefix + "backoff."@))
}

pub open spec fn keys_opt_events_layer(b: Option<EventsLayer>, prefix: Seq<char>) -> Set<Seq<char>> {
    match b {
        None => Set::empty(),
        Some(y) => keys_events_layer(y, prefix),
    }
}

/// Whether `r` holds every leaf value that `b` sets.
pub open spec fn agrees_events_layer(r: EventsLayer, b: EventsLayer) -> bool {
    agrees_opt_reconnect_layer(r.reconnect, b.reconnect)
    && agrees_opt_backoff_layer(r.backoff, b.backoff)
}

pub open spec fn agrees_opt_events_layer(r: Option<EventsLayer>, b: Option<EventsLayer>) -> bool {
    match b {
        None => true,
        Some(y) => r is Some && agrees_events_layer(r->0, y),
    }
}

impl EventsLayer {
    /// The layer section that sets nothing.
    pub fn empty() -> (r: Self)
        ensures
            r == empty_events_layer(),
    {
        EventsLayer {
            reconnect: None,
            backoff: None,
        }
    }
}

/// The AdminEndpointsLayer that sets nothing.
pub open spec fn empty_admin_endpoints_layer() -> AdminEndpointsLayer {
    AdminEndpointsLayer {
        secrets_explain_enabled: None,
    }
}

/// `a` overridden by `b`: every leaf `b` sets replaces the one in `a`.
pub open spec fn overlay_admin_endpoints_layer(a: AdminEndpointsLayer, b: AdminEndpointsLayer) -> AdminEndpointsLayer {
    AdminEndpointsLayer {
        secrets_explain_enabled: pick(a.secrets_explain_enabled, b.secrets_explain_enabled),
    }
}

/// An optional AdminEndpointsLayer overridden by another; a section that only one side has is kept.
pub open spec fn overlay_opt_admin_endpoints_layer(a: Option<AdminEndpointsLayer>, b: Option<AdminEndpointsLayer>) -> Option<AdminEndpointsLayer> {
    match b {
        None => a,
        Some(y) => Some(overlay_admin_endpoints_layer(a.unwrap_or(empty_admin_endpoints_layer()), y)),
    }
}

/// The paths of the leaves that `b` sets, each path starting with `prefix`.
pub open spec fn keys_admin_endpoints_layer(b: AdminEndpointsLayer, prefix: Seq<char>) -> Set<Seq<char>> {
    leaf_keys(b.secrets_explain_enabled, prefix + "secrets_explain_enabled"@)
}

pub open spec fn keys_opt_admin_endpoints_layer(b: Option<AdminEndpointsLayer>, prefix: Seq<char>) -> Set<Seq<char>> {
    match b {
        None => Set::empty(),
        Some(y) => keys_admin_endpoints_layer(y, prefix),
    }
}

/// Whether `r` holds every leaf value that `b` sets.
pub open spec fn agrees_admin_endpoints_layer(r: AdminEndpointsLayer, b: AdminEndpointsLayer) -> bool {
    agrees_leaf(r.secrets_explain_enabled, b.secrets_explain_enabled)
}

pub open spec fn agrees_opt_admin_endpoints_layer(r: Option<AdminEndpointsLayer>, b: Option<AdminEndpointsLayer>) -> bool {
    match b {
        None => true,
        Some(y) => r is Some && agrees_admin_endpoints_layer(r->0, y),
    }
}

impl AdminEndpointsLayer {
    /// The layer section that sets nothing.
    pub fn empty() -> (r: Self)
        ensures
            r == empty_admin_endpoints_layer(),
    {
        AdminEndpointsLayer {
            secrets_explain_enabled: None,
        }
    }
}

/// The RuntimeLayer that sets nothing.
pub open spec fn empty_runtime_layer() -> RuntimeLayer {
    RuntimeLayer {
        max_concurrency: None,
        task_timeout_ms: None,
        shutdown_grace_ms: None,
        admin_endpoints: None,
    }
}

/// `a` overridden by `b`: every leaf `b` sets replaces the one in `a`.
pub open spec fn overlay_runtime_layer(a: RuntimeLayer, b: RuntimeLayer) -> RuntimeLayer {
    RuntimeLayer {
        max_concurrency: pick(a.max_concurrency, b.max_concurrency),
        task_timeout_ms: pick(a.task_timeout_ms, b.task_timeout_ms),
        shutdown_grace_ms: pick(a.shutdown_grace_ms, b.shutdown_grace_ms),
        admin_endpoints: overlay_opt_admin_endpoints_layer(a.admin_endpoints, b.admin_endpoints),
    }
}

/// An optional RuntimeLayer overridden by another; a section that only one side has is kept.
pub open spec fn overlay_opt_runtime_layer(a: Option<RuntimeLayer>, b: Option<RuntimeLayer>) -> Option<RuntimeLayer> {
    match b {
        None => a,
        Some(y) => Some(overlay_runtime_layer(a.unwrap_or(empty_runtime_layer()), y)),
    }
}

/// The paths of the leaves that `b` sets, each path starting with `prefix`.
pub open spec fn keys_runtime_layer(b: RuntimeLayer, prefix: Seq<char>) -> Set<Seq<char>> {
    leaf_keys(b.max_concurrency, prefix + "max_concurrency"@).union(leaf_keys(b.task_timeout_ms, prefix + "task_timeout_ms"@)).union(leaf_keys(b.shutdown_grace_ms, prefix + "shutdown_grace_ms"@)).union(keys_opt_admin_endpoints_layer(b.admin_endpoints, prefix + "admin_endpoints."@))
}

pub open spec fn keys_opt_runtime_layer(b: Option<RuntimeLayer>, prefix: Seq<char>) -> Set<Seq<char>> {
    match b {
        None => Set::empty(),
        Some(y) => keys_runtime_layer(y, prefix),
    }
}

/// Whether `r` holds every leaf value that `b` sets.
pub open spec fn agrees_runtime_layer(r: RuntimeLayer, b: RuntimeLayer) -> bool {
    agrees_leaf(r.max_concurrency, b.max_concurrency)
    && agrees_leaf(r.task_timeout_ms, b.task_timeout_ms)
    && agrees_leaf(r.shutdown_grace_ms, b.shutdown_grace_ms)
    && agrees_opt_admin_endpoints_layer(r.admin_endpoints, b.admin_endpoints)
}

pub open spec fn agrees_opt_runtime_layer(r: Option<RuntimeLayer>, b: Option<RuntimeLayer>) -> bool {
    match b {
        None => true,
        Some(y) => r is Some && agrees_runtime_layer(r->0, y),
    }
}

impl RuntimeLayer {
    /// The layer section that sets nothing.
    pub fn empty() -> (r: Self)
        ensures
            r == empty_runtime_layer(),
    {
        RuntimeLayer {
            max_concurrency: None,
            task_timeout_ms: None,
            shutdown_grace_ms: None,
            admin_endpoints: None,
        }
    }
}

/// The TelemetryLayer that sets nothing.
pub open spec fn empty_telemetry_layer() -> TelemetryLayer {
    TelemetryLayer {
        enabled: None,
        exporter: None,
        endpoint: None,
        sampling: None,
    }
}

/// `a` overridden by `b`: every leaf `b` sets replaces the one in `a`.
pub open spec fn overlay_telemetry_layer(a: TelemetryLayer, b: TelemetryLayer) -> TelemetryLayer {
    TelemetryLayer {
        enabled: pick(a.enabled, b.enabled),
        exporter: pick(a.exporter, b.exporter),
        endpoint: pick(a.endpoint, b.endpoint),
        sampling: pick(a.sampling, b.sampling),
    }
}

/// An optional TelemetryLayer overridden by another; a section that only one side has is kept.
pub open spec fn overlay_opt_telemetry_layer(a: Option<TelemetryLayer>, b: Option<TelemetryLayer>) -> Option<TelemetryLayer> {
    match b {
        None => a,
        Some(y) => Some(overlay_telemetry_layer(a.unwrap_or(empty_telemetry_layer()), y)),
    }
}

/// The paths of the leaves that `b` sets, each path starting with `prefix`.
pub open spec fn keys_telemetry_layer(b: TelemetryLayer, prefix: Seq<char>) -> Set<Seq<char>> {
    leaf_keys(b.enabled, prefix + "enabled"@).union(leaf_keys(b.exporter, prefix + "exporter"@)).union(leaf_keys(b.endpoint, prefix + "endpoint"@)).union(leaf_keys(b.sampling, prefix + "sampling"@))
}

pub open spec fn keys_opt_telemetry_layer(b: Option<TelemetryLayer>, prefix: Seq<char>) -> Set<Seq<char>> {
    match b {
        None => Set::empty(),
        Some(y) => keys_telemetry_layer(y, prefix),
    }
}

/// Whether `r` holds every leaf value that `b` sets.
pub open spec fn agrees_telemetry_layer(r: TelemetryLayer, b: TelemetryLayer) -> bool {
    agrees_leaf(r.enabled, b.enabled)
    && agrees_leaf(r.exporter, b.exporter)
    && agrees_leaf(r.endpoint, b.endpoint)
    && agrees_leaf(r.sampling, b.sampling)
}

pub open spec fn agrees_opt_telemetry_layer(r: Option<TelemetryLayer>, b: Option<TelemetryLayer>) -> bool {
    match b {
        None => true,
        Some(y) => r is Some && agrees_telemetry_layer(r->0, y),
    }
}

impl TelemetryLayer {
    /// The layer section that sets nothing.
    pub fn empty() -> (r: Self)
        ensures
            r == empty_telemetry_layer(),
    {
        TelemetryLayer {
            enabled: None,
            exporter: None,
            endpoint: None,
            sampling: None,
        }
    }
}

/// The NetworkLayer that sets nothing.
pub open spec fn empty_network_layer() -> NetworkLayer {
    NetworkLayer {
        proxy_url: None,
        tls_mode: None,
        connect_timeout_ms: None,
        read_timeout_ms: None,
    }
}

/// `a` overridden by `b`: every leaf `b` sets replaces the one in `a`.
pub open spec fn overlay_network_layer(a: NetworkLayer, b: NetworkLayer) -> NetworkLayer {
    NetworkLayer {
        proxy_url: pick(a.proxy_url, b.proxy_url),
        tls_mode: pick(a.tls_mode, b.tls_mode),
        connect_timeout_ms: pick(a.connect_timeout_ms, b.connect_timeout_ms),
        read_timeout_ms: pick(a.read_timeout_ms, b.read_timeout_ms),
    }
}

/// An optional NetworkLayer overridden by another; a section that only one side has is kept.
pub open spec fn overlay_opt_network_layer(a: Option<NetworkLayer>, b: Option<NetworkLayer>) -> Option<NetworkLayer> {
    match b {
        None => a,
        Some(y) => Some(overlay_network_layer(a.unwrap_or(empty_network_layer()), y)),
    }
}

/// The paths of the leaves that `b` sets, each path starting with `prefix`.
pub open spec fn keys_network_layer(b: NetworkLayer, prefix: Seq<char>) -> Set<Seq<char>> {
    leaf_keys(b.proxy_url, prefix + "proxy_url"@).union(leaf_keys(b.tls_mode, prefix + "tls_mode"@)).union(leaf_keys(b.connect_timeout_ms, prefix + "connect_timeout_ms"@)).union(leaf_keys(b.read_timeout_ms, prefix + "read_timeout_ms"@))
}

pub open spec fn keys_opt_network_layer(b: Option<NetworkLayer>, prefix: Seq<char>) -> Set<Seq<char>> {
    match b {
        None => Set::empty(),
        Some(y) => keys_network_layer(y, prefix),
    }
}

/// Whether `r` holds every leaf value that `b` sets.
pub open spec fn agrees_network_layer(r: NetworkLayer, b: NetworkLayer) -> bool {
    agrees_leaf(r.proxy_url, b.proxy_url)
    && agrees_leaf(r.tls_mode, b.tls_mode)
    && agrees_leaf(r.connect_timeout_ms, b.connect_timeout_ms)
    && agrees_leaf(r.read_timeout_ms, b.read_timeout_ms)
}

pub open spec fn agrees_opt_network_layer(r: Option<NetworkLayer>, b: Option<NetworkLayer>) -> bool {
    match b {
        None => true,
        Some(y) => r is Some && agrees_network_layer(r->0, y),
    }
}

impl NetworkLayer {
    /// The layer section that sets nothing.
    pub fn empty() -> (r: Self)
        ensures
            r == empty_network_layer(),
    {
        NetworkLayer {
            proxy_url: None,
            tls_mode: None,
            connect_timeout_ms: None,
            read_timeout_ms: None,
        }
    }
}

/// The DeployerProviderDefaultsLayer that sets nothing.
pub open spec fn empty_deployer_provider_defaults_layer() -> DeployerProviderDefaultsLayer {
    DeployerProviderDefaultsLayer {
        provider_kind: None,
        region: None,
    }
}

/// `a` overridden by `b`: every leaf `b` sets replaces the one in `a`.
pub open spec fn overlay_deployer_provider_defaults_layer(a: DeployerProviderDefaultsLayer, b: DeployerProviderDefaultsLayer) -> DeployerProviderDefaultsLayer {
    DeployerProviderDefaultsLayer {
        provider_kind: pick(a.provider_kind, b.provider_kind),
        region: pick(a.region, b.region),
    }
}

/// An optional DeployerProviderDefaultsLayer overridden by another; a section that only one side has is kept.
pub open spec fn overlay_opt_deployer_provider_defaults_layer(a: Option<DeployerProviderDefaultsLayer>, b: Option<DeployerProviderDefaultsLayer>) -> Option<DeployerProviderDefaultsLayer> {
    match b {
        None => a,
        Some(y) => Some(overlay_deployer_provider_defaults_layer(a.unwrap_or(empty_deployer_provider_defaults_layer()), y)),
    }
}

/// The paths of the leaves that `b` sets, each path starting with `prefix`.
pub open spec fn keys_deployer_provider_defaults_layer(b: DeployerProviderDefaultsLayer, prefix: Seq<char>) -> Set<Seq<char>> {
    leaf_keys(b.provider_kind, prefix + "provider_kind"@).union(leaf_keys(b.region, prefix + "region"@))
}

pub open spec fn keys_opt_deployer_provider_defaults_layer(b: Option<DeployerProviderDefaultsLayer>, prefix: Seq<char>) -> Set<Seq<char>> {
    match b {
        None => Set::empty(),
        Some(y) => keys_deployer_provider_defaults_layer(y, prefix),
    }
}

/// Whether `r` holds every leaf value that `b` sets.
pub open spec fn agrees_deployer_provider_defaults_layer(r: DeployerProviderDefaultsLayer, b: DeployerProviderDefaultsLayer) -> bool {
    agrees_leaf(r.provider_kind, b.provider_kind)
    && agrees_leaf(r.region, b.region)
}

pub open spec fn agrees_opt_deployer_provider_defaults_layer(r: Option<DeployerProviderDefaultsLayer>, b: Option<DeployerProviderDefaultsLayer>) -> bool {
    match b {
        None => true,
        Some(y) => r is Some && agrees_deployer_provider_defaults_layer(r->0, y),
    }
}

impl DeployerProviderDefaultsLayer {
    /// The layer section that sets nothing.
    pub fn empty() -> (r: Self)
        ensures
            r == empty_deployer_provider_defaults_layer(),
    {
        DeployerProviderDefaultsLayer {
            provider_kind: None,
            region: None,
        }
    }
}

/// The DeployerLayer that sets nothing.
pub open spec fn empty_deployer_layer() -> DeployerLayer {
    DeployerLayer {
        base_domain: None,
        provider: None,
    }
}

/// `a` overridden by `b`: every leaf `b` sets replaces the one in `a`.
pub open spec fn overlay_deployer_layer(a: DeployerLayer, b: DeployerLayer) -> DeployerLayer {
    DeployerLayer {
        base_domain: pick(a.base_domain, b.base_domain),
        provider: overlay_opt_deployer_provider_defaults_layer(a.provider, b.provider),
    }
}

/// An optional DeployerLayer overridden by another; a section that only one side has is kept.
pub open spec fn overlay_opt_deployer_layer(a: Option<DeployerLayer>, b: Option<DeployerLayer>) -> Option<DeployerLayer> {
    match b {
        None => a,
        Some(y) => Some(overlay_deployer_layer(a.unwrap_or(empty_deployer_layer()), y)),
    }
}

/// The paths of the leaves that `b` sets, each path starting with `prefix`.
pub open spec fn keys_deployer_layer(b: DeployerLayer, prefix: Seq<char>) -> Set<Seq<char>> {
    leaf_keys(b.base_domain, prefix + "base_domain"@).union(keys_opt_deployer_provider_defaults_layer(b.provider, prefix + "provider."@))
}

pub open spec fn keys_opt_deployer_layer(b: Option<DeployerLayer>, prefix: Seq<char>) -> Set<Seq<char>> {
    match b {
        None => Set::empty(),
        Some(y) => keys_deployer_layer(y, prefix),
    }
}

/// Whether `r` holds every leaf value that `b` sets.
pub open spec fn agrees_deployer_layer(r: DeployerLayer, b: DeployerLayer) -> bool {
    agrees_leaf(r.base_domain, b.base_domain)
    && agrees_opt_deployer_provider_defaults_layer(r.provider, b.provider)
}

pub open spec fn agrees_opt_deployer_layer(r: Option<DeployerLayer>, b: Option<DeployerLayer>) -> bool {
    match b {
        None => true,
        Some(y) => r is Some && agrees_deployer_layer(r->0, y),
    }
}

impl DeployerLayer {
    /// The layer section that sets nothing.
    pub fn empty() -> (r: Self)
        ensures
            r == empty_deployer_layer(),
    {
        DeployerLayer {
            base_domain: None,
            provider: None,
        }
    }
}

/// The SecretsBackendRefLayer that sets nothing.
pub open spec fn empty_secrets_backend_ref_layer() -> SecretsBackendRefLayer {
    SecretsBackendRefLayer {
        kind: None,
        reference: None,
    }
}

/// `a` overridden by `b`: every leaf `b` sets replaces the one in `a`.
pub open spec fn overlay_secrets_backend_ref_layer(a: SecretsBackendRefLayer, b: SecretsBackendRefLayer) -> SecretsBackendRefLayer {
    SecretsBackendRefLayer {
        kind: pick(a.kind, b.kind),
        reference: pick(a.reference, b.reference),
    }
}

/// An optional SecretsBackendRefLayer overridden by another; a section that only one side has is kept.
pub open spec fn overlay_opt_secrets_backend_ref_layer(a: Option<SecretsBackendRefLayer>, b: Option<SecretsBackendRefLayer>) -> Option<SecretsBackendRefLayer> {
    match b {
        None => a,
        Some(y) => Some(overlay_secrets_backend_ref_layer(a.unwrap_or(empty_secrets_backend_ref_layer()), y)),
    }
}

/// The paths of the leaves that `b` sets, each path starting with `prefix`.
pub open spec fn keys_secrets_backend_ref_layer(b: SecretsBackendRefLayer, prefix: Seq<char>) -> Set<Seq<char>> {
    leaf_keys(b.kind, prefix + "kind"@).union(leaf_keys(b.reference, prefix + "reference"@))
}

pub open spec fn keys_opt_secrets_backend_ref_layer(b: Option<SecretsBackendRefLayer>, prefix: Seq<char>) -> Set<Seq<char>> {
    match b {
        None => Set::empty(),
        Some(y) => keys_secrets_backend_ref_layer(y, prefix),
    }
}

/// Whether `r` holds every leaf value that `b` sets.
pub open spec fn agrees_secrets_backend_ref_layer(r: SecretsBackendRefLayer, b: SecretsBackendRefLayer) -> bool {
    agrees_leaf(r.kind, b.kind)
    && agrees_leaf(r.reference, b.reference)
}

pub open spec fn agrees_opt_secrets_backend_ref_layer(r: Option<SecretsBackendRefLayer>, b: Option<SecretsBackendRefLayer>) -> bool {
    match b {
        None => true,
        Some(y) => r is Some && agrees_secrets_backend_ref_layer(r->0, y),
    }
}

impl SecretsBackendRefLayer {
    /// The layer section that sets nothing.
    pub fn empty() -> (r: Self)
        ensures
            r == empty_secrets_backend_ref_layer(),
    {
        SecretsBackendRefLayer {
            kind: None,
            reference: None,
        }
    }
}

/// The PackTrustLayer that sets nothing.
pub open spec fn empty_pack_trust_layer() -> PackTrustLayer {
    PackTrustLayer {
        public_keys: None,
        require_signatures: None,
    }
}

/// `a` overridden by `b`: every leaf `b` sets replaces the one in `a`.
pub open spec fn overlay_pack_trust_layer(a: PackTrustLayer, b: PackTrustLayer) -> PackTrustLayer {
    PackTrustLayer {
        public_keys: pick(a.public_keys, b.public_keys),
        require_signatures: pick(a.require_signatures, b.require_signatures),
    }
}

/// An optional PackTrustLayer overridden by another; a section that only one side has is kept.
pub open spec fn overlay_opt_pack_trust_layer(a: Option<PackTrustLayer>, b: Option<PackTrustLayer>) -> Option<PackTrustLayer> {
    match b {
        None => a,
        Some(y) => Some(overlay_pack_trust_layer(a.unwrap_or(empty_pack_trust_layer()), y)),
    }
}

/// The paths of the leaves that `b` sets, each path starting with `prefix`.
pub open spec fn keys_pack_trust_layer(b: PackTrustLayer, prefix: Seq<char>) -> Set<Seq<char>> {
    leaf_keys(b.public_keys, prefix + "public_keys"@).union(leaf_keys(b.require_signatures, prefix + "require_signatures"@))
}

pub open spec fn keys_opt_pack_trust_layer(b: Option<PackTrustLayer>, prefix: Seq<char>) -> Set<Seq<char>> {
    match b {
        None => Set::empty(),
        Some(y) => keys_pack_trust_layer(y, prefix),
    }
}

/// Whether `r` holds every leaf value that `b` sets.
pub open spec fn agrees_pack_trust_layer(r: PackTrustLayer, b: PackTrustLayer) -> bool {
    agrees_leaf(r.public_keys, b.public_keys)
    && agrees_leaf(r.require_signatures, b.require_signatures)
}

pub open spec fn agrees_opt_pack_trust_layer(r: Option<PackTrustLayer>, b: Option<PackTrustLayer>) -> bool {
    match b {
        None => true,
        Some(y) => r is Some && agrees_pack_trust_layer(r->0, y),
    }
}

impl PackTrustLayer {
    /// The layer section that sets nothing.
    pub fn empty() -> (r: Self)
        ensures
            r == empty_pack_trust_layer(),
    {
        PackTrustLayer {
            public_keys: None,
            require_signatures: None,
        }
    }
}

/// The PacksLayer that sets nothing.
pub open spec fn empty_packs_layer() -> PacksLayer {
    PacksLayer {
        source: None,
        cache_dir: None,
        index_cache_ttl_secs: None,
        trust: None,
    }
}

/// `a` overridden by `b`: every leaf `b` sets replaces the one in `a`.
pub open spec fn overlay_packs_layer(a: PacksLayer, b: PacksLayer) -> PacksLayer {
    PacksLayer {
        source: pick(a.source, b.source),
        cache_dir: pick(a.cache_dir, b.cache_dir),
        index_cache_ttl_secs: pick(a.index_cache_ttl_secs, b.index_cache_ttl_secs),
        trust: overlay_opt_pack_trust_layer(a.trust, b.trust),
    }
}

/// An optional PacksLayer overridden by another; a section that only one side has is kept.
pub open spec fn overlay_opt_packs_layer(a: Option<PacksLayer>, b: Option<PacksLayer>) -> Option<PacksLayer> {
    match b {
        None => a,
        Some(y) => Some(overlay_packs_layer(a.unwrap_or(empty_packs_layer()), y)),
    }
}

/// The paths of the leaves that `b` sets, each path starting with `prefix`.
pub open spec fn keys_packs_layer(b: PacksLayer, prefix: Seq<char>) -> Set<Seq<char>> {
    leaf_keys(b.source, prefix + "source"@).union(leaf_keys(b.cache_dir, prefix + "cache_dir"@)).union(leaf_keys(b.index_cache_ttl_secs, prefix + "index_cache_ttl_secs"@)).union(keys_opt_pack_trust_layer(b.trust, prefix + "trust."@))
}

pub open spec fn keys_opt_packs_layer(b: Option<PacksLayer>, prefix: Seq<char>) -> Set<Seq<char>> {
    match b {
        None => Set::empty(),
        Some(y) => keys_packs_layer(y, prefix),
    }
}

/// Whether `r` holds every leaf value that `b` sets.
pub open spec fn agrees_packs_layer(r: PacksLayer, b: PacksLayer) -> bool {
    agrees_leaf(r.source, b.source)
    && agrees_leaf(r.cache_dir, b.cache_dir)
    && agrees_leaf(r.index_cache_ttl_secs, b.index_cache_ttl_secs)
    && agrees_opt_pack_trust_layer(r.trust, b.trust)
}

pub open spec fn agrees_opt_packs_layer(r: Option<PacksLayer>, b: Option<PacksLayer>) -> bool {
    match b {
        None => true,
        Some(y) => r is Some && agrees_packs_layer(r->0, y),
    }
}

impl PacksLayer {
    /// The layer section that sets nothing.
    pub fn empty() -> (r: Self)
        ensures
            r == empty_packs_layer(),
    {
        PacksLayer {
            source: None,
            cache_dir: None,
            index_cache_ttl_secs: None,
            trust: None,
        }
    }
}

/// The DevLayer that sets nothing.
pub open spec fn empty_dev_layer() -> DevLayer {
    DevLayer {
        default_env: None,
        default_tenant: None,
        default_team: None,
    }
}

/// `a` overridden by `b`: every leaf `b` sets replaces the one in `a`.
pub open spec fn overlay_dev_layer(a: DevLayer, b: DevLayer) -> DevLayer {
    DevLayer {
        default_env: pick(a.default_env, b.default_env),
        default_tenant: pick(a.default_tenant, b.default_tenant),
        default_team: pick(a.default_team, b.default_team),
    }
}

/// An optional DevLayer overridden by another; a section that only one side has is kept.
pub open spec fn overlay_opt_dev_layer(a: Option<DevLayer>, b: Option<DevLayer>) -> Option<DevLayer> {
    match b {
        None => a,
        Some(y) => Some(overlay_dev_layer(a.unwrap_or(empty_dev_layer()), y)),
    }
}

/// The paths of the leaves that `b` sets, each path starting with `prefix`.
pub open spec fn keys_dev_layer(b: DevLayer, prefix: Seq<char>) -> Set<Seq<char>> {
    leaf_keys(b.default_env, prefix + "default_env"@).union(leaf_keys(b.default_tenant, prefix + "default_tenant"@)).union(leaf_keys(b.default_team, prefix + "default_team"@))
}

pub open spec fn keys_opt_dev_layer(b: Option<DevLayer>, prefix: Seq<char>) -> Set<Seq<char>> {
    match b {
        None => Set::empty(),
        Some(y) => keys_dev_layer(y, prefix),
    }
}

/// Whether `r` holds every leaf value that `b` sets.
pub open spec fn agrees_dev_layer(r: DevLayer, b: DevLayer) -> bool {
    agrees_leaf(r.default_env, b.default_env)
    && agrees_leaf(r.default_tenant, b.default_tenant)
    && agrees_leaf(r.default_team, b.default_team)
}

pub open spec fn agrees_opt_dev_layer(r: Option<DevLayer>, b: Option<DevLayer>) -> bool {
    match b {
        None => true,
        Some(y) => r is Some && agrees_dev_layer(r->0, y),
    }
}

impl DevLayer {
    /// The layer section that sets nothing.
    pub fn empty() -> (r: Self)
        ensures
            r == empty_dev_layer(),
    {
        DevLayer {
            default_env: None,
            default_tenant: None,
            default_team: None,
        }
    }
}

/// The ConfigLayer that sets nothing.
pub open spec fn empty_config_layer() -> ConfigLayer {
    ConfigLayer {
        schema_version: None,
        environment: None,
        paths: None,
        services: None,
        events: None,
        runtime: None,
        telemetry: None,
        network: None,
        deployer: None,
        secrets: None,
        packs: None,
        dev: None,
    }
}

/// `a` overridden by `b`: every leaf `b` sets replaces the one in `a`.
pub open spec fn overlay_config_layer(a: ConfigLayer, b: ConfigLayer) -> ConfigLayer {
    ConfigLayer {
        schema_version: pick(a.schema_version, b.schema_version),
        environment: overlay_opt_environment_layer(a.environment, b.environment),
        paths: overlay_opt_paths_layer(a.paths, b.paths),
        services: overlay_opt_services_layer(a.services, b.services),
        events: overlay_opt_events_layer(a.events, b.events),
        runtime: overlay_opt_runtime_layer(a.runtime, b.runtime),
        telemetry: overlay_opt_telemetry_layer(a.telemetry, b.telemetry),
        network: overlay_opt_network_layer(a.network, b.network),
        deployer: overlay_opt_deployer_layer(a.deployer, b.deployer),
        secrets: overlay_opt_secrets_backend_ref_layer(a.secrets, b.secrets),
        packs: overlay_opt_packs_layer(a.packs, b.packs),
        dev: overlay_opt_dev_layer(a.dev, b.dev),
    }
}

/// An optional ConfigLayer overridden by another; a section that only one side has is kept.
pub open spec fn overlay_opt_config_layer(a: Option<ConfigLayer>, b: Option<ConfigLayer>) -> Option<ConfigLayer> {
    match b {
        None => a,
        Some(y) => Some(overlay_config_layer(a.unwrap_or(empty_config_layer()), y)),
    }
}

/// The paths of the leaves that `b` sets, each path starting with `prefix`.
pub open spec fn keys_config_layer(b: ConfigLayer, prefix: Seq<char>) -> Set<Seq<char>> {
    leaf_keys(b.schema_version, prefix + "schema_version"@).union(keys_opt_environment_layer(b.environment, prefix + "environment."@)).union(keys_opt_paths_layer(b.paths, prefix + "paths."@)).union(keys_opt_services_layer(b.services, prefix + "services."@)).union(keys_opt_events_layer(b.events, prefix + "events."@)).union(keys_opt_runtime_layer(b.runtime, prefix + "runtime."@)).union(keys_opt_telemetry_layer(b.telemetry, prefix + "telemetry."@)).union(keys_opt_network_layer(b.network, prefix + "network."@)).union(keys_opt_deployer_layer(b.deployer, prefix + "deployer."@)).union(keys_opt_secrets_backend_ref_layer(b.secrets, prefix + "secrets."@)).union(keys_opt_packs_layer(b.packs, prefix + "packs."@)).union(keys_opt_dev_layer(b.dev, prefix + "dev."@))
}

pub open spec fn keys_opt_config_layer(b: Option<ConfigLayer>, prefix: Seq<char>) -> Set<Seq<char>> {
    match b {
        None => Set::empty(),
        Some(y) => keys_config_layer(y, prefix),
    }
}

/// Whether `r` holds every leaf value that `b` sets.
pub open spec fn agrees_config_layer(r: ConfigLayer, b: ConfigLayer) -> bool {
    agrees_leaf(r.schema_version, b.schema_version)
    && agrees_opt_environment_layer(r.environment, b.environment)
    && agrees_opt_paths_layer(r.paths, b.paths)
    && agrees_opt_services_layer(r.services, b.services)
    && agrees_opt_events_layer(r.events, b.events)
    && agrees_opt_runtime_layer(r.runtime, b.runtime)
    && agrees_opt_telemetry_layer(r.telemetry, b.telemetry)
    && agrees_opt_network_layer(r.network, b.network)
    && agrees_opt_deployer_layer(r.deployer, b.deployer)
    && agrees_opt_secrets_backend_ref_layer(r.secrets, b.secrets)
    && agrees_opt_packs_layer(r.packs, b.packs)
    && agrees_opt_dev_layer(r.dev, b.dev)
}

impl ConfigLayer {
    /// The layer section that sets nothing.
    pub fn empty() -> (r: Self)
        ensures
            r == empty_config_layer(),
    {
        ConfigLayer {
            schema_version: None,
            environment: None,
            paths: None,
            services: None,
            events: None,
            runtime: None,
            telemetry: None,
            network: None,
            deployer: None,
            secrets: None,
            packs: None,
            dev: None,
        }
    }
}

proof fn lemma_empty_left_environment_layer(a: EnvironmentLayer)
    ensures
        overlay_environment_layer(empty_environment_layer(), a) == a,
{

}

proof fn lemma_empty_left_opt_environment_layer(a: Option<EnvironmentLayer>)
    ensures
        overlay_opt_environment_layer(None, a) == a,
{
    if let Some(x) = a {
        lemma_empty_left_environment_layer(x);
    }
}

proof fn lemma_empty_right_opt_environment_layer(a: Option<EnvironmentLayer>)
    ensures
        overlay_opt_environment_layer(a, None) == a,
{
}

proof fn lemma_assoc_environment_layer(a: EnvironmentLayer, b: EnvironmentLayer, c: EnvironmentLayer)
    ensures
        overlay_environment_layer(overlay_environment_layer(a, b), c) == overlay_environment_layer(a, overlay_environment_layer(b, c)),
{

}

proof fn lemma_assoc_opt_environment_layer(a: Option<EnvironmentLayer>, b: Option<EnvironmentLayer>, c: Option<EnvironmentLayer>)
    ensures
        overlay_opt_environment_layer(overlay_opt_environment_layer(a, b), c) == overlay_opt_environment_layer(a, overlay_opt_environment_layer(b, c)),
{
    if let Some(z) = c {
        let a1 = a.unwrap_or(empty_environment_layer());
        match b {
            None => {
                lemma_empty_left_environment_layer(z);
            },
            Some(y) => {
                lemma_assoc_environment_layer(a1, y, z);
            },
        }
    }
}

proof fn lemma_idem_environment_layer(a: EnvironmentLayer, b: EnvironmentLayer)
    ensures
        overlay_environment_layer(overlay_environment_layer(a, b), b) == overlay_environment_layer(a, b),
{

}

proof fn lemma_idem_opt_environment_layer(a: Option<EnvironmentLayer>, b: Option<EnvironmentLayer>)
    ensures
        overlay_opt_environment_layer(overlay_opt_environment_layer(a, b), b) == overlay_opt_environment_layer(a, b),
{
    if let Some(y) = b {
        lemma_idem_environment_layer(a.unwrap_or(empty_environment_layer()), y);
    }
}

proof fn lemma_wins_environment_layer(a: EnvironmentLayer, b: EnvironmentLayer)
    ensures
        agrees_environment_layer(overlay_environment_layer(a, b), b),
{

}

proof fn lemma_wins_opt_environment_layer(a: Option<EnvironmentLayer>, b: Option<EnvironmentLayer>)
    ensures
        agrees_opt_environment_layer(overlay_opt_environment_layer(a, b), b),
{
    if let Some(y) = b {
        lemma_wins_environment_layer(a.unwrap_or(empty_environment_layer()), y);
    }
}

proof fn lemma_empty_left_paths_layer(a: PathsLayer)
    ensures
        overlay_paths_layer(empty_paths_layer(), a) == a,
{

}

proof fn lemma_empty_left_opt_paths_layer(a: Option<PathsLayer>)
    ensures
        overlay_opt_paths_layer(None, a) == a,
{
    if let Some(x) = a {
        lemma_empty_left_paths_layer(x);
    }
}

proof fn lemma_empty_right_opt_paths_layer(a: Option<PathsLayer>)
    ensures
        overlay_opt_paths_layer(a, None) == a,
{
}

proof fn lemma_assoc_paths_layer(a: PathsLayer, b: PathsLayer, c: PathsLayer)
    ensures
        overlay_paths_layer(overlay_paths_layer(a, b), c) == overlay_paths_layer(a, overlay_paths_layer(b, c)),
{

}

proof fn lemma_assoc_opt_paths_layer(a: Option<PathsLayer>, b: Option<PathsLayer>, c: Option<PathsLayer>)
    ensures
        overlay_opt_paths_layer(overlay_opt_paths_layer(a, b), c) == overlay_opt_paths_layer(a, overlay_opt_paths_layer(b, c)),
{
    if let Some(z) = c {
        let a1 = a.unwrap_or(empty_paths_layer());
        match b {
            None => {
                lemma_empty_left_paths_layer(z);
            },
            Some(y) => {
                lemma_assoc_paths_layer(a1, y, z);
            },
        }
    }
}

proof fn lemma_idem_paths_layer(a: PathsLayer, b: PathsLayer)
    ensures
        overlay_paths_layer(overlay_paths_layer(a, b), b) == overlay_paths_layer(a, b),
{

}

proof fn lemma_idem_opt_paths_layer(a: Option<PathsLayer>, b: Option<PathsLayer>)
    ensures
        overlay_opt_paths_layer(overlay_opt_paths_layer(a, b), b) == overlay_opt_paths_layer(a, b),
{
    if let Some(y) = b {
        lemma_idem_paths_layer(a.unwrap_or(empty_paths_layer()), y);
    }
}

proof fn lemma_wins_paths_layer(a: PathsLayer, b: PathsLayer)
    ensures
        agrees_paths_layer(overlay_paths_layer(a, b), b),
{

}

proof fn lemma_wins_opt_paths_layer(a: Option<PathsLayer>, b: Option<PathsLayer>)
    ensures
        agrees_opt_paths_layer(overlay_opt_paths_layer(a, b), b),
{
    if let Some(y) = b {
        lemma_wins_paths_layer(a.unwrap_or(empty_paths_layer()), y);
    }
}

proof fn lemma_empty_left_service_endpoint_layer(a: ServiceEndpointLayer)
    ensures
        overlay_service_endpoint_layer(empty_service_endpoint_layer(), a) == a,
{

}

proof fn lemma_empty_left_opt_service_endpoint_layer(a: Option<ServiceEndpointLayer>)
    ensures
        overlay_opt_service_endpoint_layer(None, a) == a,
{
    if let Some(x) = a {
        lemma_empty_left_service_endpoint_layer(x);
    }
}

proof fn lemma_assoc_service_endpoint_layer(a: ServiceEndpointLayer, b: ServiceEndpointLayer, c: ServiceEndpointLayer)
    ensures
        overlay_service_endpoint_layer(overlay_service_endpoint_layer(a, b), c) == overlay_service_endpoint_layer(a, overlay_service_endpoint_layer(b, c)),
{

}

proof fn lemma_assoc_opt_service_endpoint_layer(a: Option<ServiceEndpointLayer>, b: Option<ServiceEndpointLayer>, c: Option<ServiceEndpointLayer>)
    ensures
        overlay_opt_service_endpoint_layer(overlay_opt_service_endpoint_layer(a, b), c) == overlay_opt_service_endpoint_layer(a, overlay_opt_service_endpoint_layer(b, c)),
{
    if let Some(z) = c {
        let a1 = a.unwrap_or(empty_service_endpoint_layer());
        match b {
            None => {
                lemma_empty_left_service_endpoint_layer(z);
            },
            Some(y) => {
                lemma_assoc_service_endpoint_layer(a1, y, z);
            },
        }
    }
}

proof fn lemma_idem_service_endpoint_layer(a: ServiceEndpointLayer, b: ServiceEndpointLayer)
    ensures
        overlay_service_endpoint_layer(overlay_service_endpoint_layer(a, b), b) == overlay_service_endpoint_layer(a, b),
{

}

proof fn lemma_idem_opt_service_endpoint_layer(a: Option<ServiceEndpointLayer>, b: Option<ServiceEndpointLayer>)
    ensures
        overlay_opt_service_endpoint_layer(overlay_opt_service_endpoint_layer(a, b), b) == overlay_opt_service_endpoint_layer(a, b),
{
    if let Some(y) = b {
        lemma_idem_service_endpoint_layer(a.unwrap_or(empty_service_endpoint_layer()), y);
    }
}

proof fn lemma_wins_service_endpoint_layer(a: ServiceEndpointLayer, b: ServiceEndpointLayer)
    ensures
        agrees_service_endpoint_layer(overlay_service_endpoint_layer(a, b), b),
{

}

proof fn lemma_wins_opt_service_endpoint_layer(a: Option<ServiceEndpointLayer>, b: Option<ServiceEndpointLayer>)
    ensures
        agrees_opt_service_endpoint_layer(overlay_opt_service_endpoint_layer(a, b), b),
{
    if let Some(y) = b {
        lemma_wins_service_endpoint_layer(a.unwrap_or(empty_service_endpoint_layer()), y);
    }
}

proof fn lemma_empty_left_service_transport_layer(a: ServiceTransportLayer)
    ensures
        overlay_service_transport_layer(empty_service_transport_layer(), a) == a,
{

}

proof fn lemma_assoc_service_transport_layer(a: ServiceTransportLayer, b: ServiceTransportLayer, c: ServiceTransportLayer)
    ensures
        overlay_service_transport_layer(overlay_service_transport_layer(a, b), c) == overlay_service_transport_layer(a, overlay_service_transport_layer(b, c)),
{

}

proof fn lemma_idem_service_transport_layer(a: ServiceTransportLayer, b: ServiceTransportLayer)
    ensures
        overlay_service_transport_layer(overlay_service_transport_layer(a, b), b) == overlay_service_transport_layer(a, b),
{

}

proof fn lemma_wins_service_transport_layer(a: ServiceTransportLayer, b: ServiceTransportLayer)
    ensures
        agrees_service_transport_layer(overlay_service_transport_layer(a, b), b),
{

}

proof fn lemma_empty_left_metrics_layer(a: MetricsLayer)
    ensures
        overlay_metrics_layer(empty_metrics_layer(), a) == a,
{

}

proof fn lemma_empty_left_opt_metrics_layer(a: Option<MetricsLayer>)
    ensures
        overlay_opt_metrics_layer(None, a) == a,
{
    if let Some(x) = a {
        lemma_empty_left_metrics_layer(x);
    }
}

proof fn lemma_assoc_metrics_layer(a: MetricsLayer, b: MetricsLayer, c: MetricsLayer)
    ensures
        overlay_metrics_layer(overlay_metrics_layer(a, b), c) == overlay_metrics_layer(a, overlay_metrics_layer(b, c)),
{

}

proof fn lemma_assoc_opt_metrics_layer(a: Option<MetricsLayer>, b: Option<MetricsLayer>, c: Option<MetricsLayer>)
    ensures
        overlay_opt_metrics_layer(overlay_opt_metrics_layer(a, b), c) == overlay_opt_metrics_layer(a, overlay_opt_metrics_layer(b, c)),
{
    if let Some(z) = c {
        let a1 = a.unwrap_or(empty_metrics_layer());
        match b {
            None => {
                lemma_empty_left_metrics_layer(z);
            },
            Some(y) => {
                lemma_assoc_metrics_layer(a1, y, z);
            },
        }
    }
}

proof fn lemma_idem_metrics_layer(a: MetricsLayer, b: MetricsLayer)
    ensures
        overlay_metrics_layer(overlay_metrics_layer(a, b), b) == overlay_metrics_layer(a, b),
{

}

proof fn lemma_idem_opt_metrics_layer(a: Option<MetricsLayer>, b: Option<MetricsLayer>)
    ensures
        overlay_opt_metrics_layer(overlay_opt_metrics_layer(a, b), b) == overlay_opt_metrics_layer(a, b),
{
    if let Some(y) = b {
        lemma_idem_metrics_layer(a.unwrap_or(empty_metrics_layer()), y);
    }
}

proof fn lemma_wins_metrics_layer(a: MetricsLayer, b: MetricsLayer)
    ensures
        agrees_metrics_layer(overlay_metrics_layer(a, b), b),
{

}

proof fn lemma_wins_opt_metrics_layer(a: Option<MetricsLayer>, b: Option<MetricsLayer>)
    ensures
        agrees_opt_metrics_layer(overlay_opt_metrics_layer(a, b), b),
{
    if let Some(y) = b {
        lemma_wins_metrics_layer(a.unwrap_or(empty_metrics_layer()), y);
    }
}

proof fn lemma_empty_left_service_config_layer(a: ServiceConfigLayer)
    ensures
        overlay_service_config_layer(empty_service_config_layer(), a) == a,
{
    lemma_empty_left_opt_metrics_layer(a.metrics);
}

proof fn lemma_empty_left_opt_service_config_layer(a: Option<ServiceConfigLayer>)
    ensures
        overlay_opt_service_config_layer(None, a) == a,
{
    if let Some(x) = a {
        lemma_empty_left_service_config_layer(x);
    }
}

proof fn lemma_assoc_service_config_layer(a: ServiceConfigLayer, b: ServiceConfigLayer, c: ServiceConfigLayer)
    ensures
        overlay_service_config_layer(overlay_service_config_layer(a, b), c) == overlay_service_config_layer(a, overlay_service_config_layer(b, c)),
{
    lemma_assoc_opt_metrics_layer(a.metrics, b.metrics, c.metrics);
}

proof fn lemma_assoc_opt_service_config_layer(a: Option<ServiceConfigLayer>, b: Option<ServiceConfigLayer>, c: Option<ServiceConfigLayer>)
    ensures
        overlay_opt_service_config_layer(overlay_opt_service_config_layer(a, b), c) == overlay_opt_service_config_layer(a, overlay_opt_service_config_layer(b, c)),
{
    if let Some(z) = c {
        let a1 = a.unwrap_or(empty_service_config_layer());
        match b {
            None => {
                lemma_empty_left_service_config_layer(z);
            },
            Some(y) => {
                lemma_assoc_service_config_layer(a1, y, z);
            },
        }
    }
}

proof fn lemma_idem_service_config_layer(a: ServiceConfigLayer, b: ServiceConfigLayer)
    ensures
        overlay_service_config_layer(overlay_service_config_layer(a, b), b) == overlay_service_config_layer(a, b),
{
    lemma_idem_opt_metrics_layer(a.metrics, b.metrics);
}

proof fn lemma_idem_opt_service_config_layer(a: Option<ServiceConfigLayer>, b: Option<ServiceConfigLayer>)
    ensures
        overlay_opt_service_config_layer(overlay_opt_service_config_layer(a, b), b) == overlay_opt_service_config_layer(a, b),
{
    if let Some(y) = b {
        lemma_idem_service_config_layer(a.unwrap_or(empty_service_config_layer()), y);
    }
}

proof fn lemma_wins_service_config_layer(a: ServiceConfigLayer, b: ServiceConfigLayer)
    ensures
        agrees_service_config_layer(overlay_service_config_layer(a, b), b),
{
    lemma_wins_opt_metrics_layer(a.metrics, b.metrics);
}

proof fn lemma_wins_opt_service_config_layer(a: Option<ServiceConfigLayer>, b: Option<ServiceConfigLayer>)
    ensures
        agrees_opt_service_config_layer(overlay_opt_service_config_layer(a, b), b),
{
    if let Some(y) = b {
        lemma_wins_service_config_layer(a.unwrap_or(empty_service_config_layer()), y);
    }
}

proof fn lemma_empty_left_service_layer(a: ServiceLayer)
    ensures
        overlay_service_layer(empty_service_layer(), a) == a,
{
    lemma_empty_left_service_transport_layer(a.transport);
    lemma_empty_left_opt_service_config_layer(a.service);
}

proof fn lemma_empty_left_opt_service_layer(a: Option<ServiceLayer>)
    ensures
        overlay_opt_service_layer(None, a) == a,
{
    if let Some(x) = a {
        lemma_empty_left_service_layer(x);
    }
}

proof fn lemma_assoc_service_layer(a: ServiceLayer, b: ServiceLayer, c: ServiceLayer)
    ensures
        overlay_service_layer(overlay_service_layer(a, b), c) == overlay_service_layer(a, overlay_service_layer(b, c)),
{
    lemma_assoc_service_transport_layer(a.transport, b.transport, c.transport);
    lemma_assoc_opt_service_config_layer(a.service, b.service, c.service);
}

proof fn lemma_assoc_opt_service_layer(a: Option<ServiceLayer>, b: Option<ServiceLayer>, c: Option<ServiceLayer>)
    ensures
        overlay_opt_service_layer(overlay_opt_service_layer(a, b), c) == overlay_opt_service_layer(a, overlay_opt_service_layer(b, c)),
{
    if let Some(z) = c {
        let a1 = a.unwrap_or(empty_service_layer());
        match b {
            None => {
                lemma_empty_left_service_layer(z);
            },
            Some(y) => {
                lemma_assoc_service_layer(a1, y, z);
            },
        }
    }
}

proof fn lemma_idem_service_layer(a: ServiceLayer, b: ServiceLayer)
    ensures
        overlay_service_layer(overlay_service_layer(a, b), b) == overlay_service_layer(a, b),
{
    lemma_idem_service_transport_layer(a.transport, b.transport);
    lemma_idem_opt_service_config_layer(a.service, b.service);
}

proof fn lemma_idem_opt_service_layer(a: Option<ServiceLayer>, b: Option<ServiceLayer>)
    ensures
        overlay_opt_service_layer(overlay_opt_service_layer(a, b), b) == overlay_opt_service_layer(a, b),
{
    if let Some(y) = b {
        lemma_idem_service_layer(a.unwrap_or(empty_service_layer()), y);
    }
}

proof fn lemma_wins_service_layer(a: ServiceLayer, b: ServiceLayer)
    ensures
        agrees_service_layer(overlay_service_layer(a, b), b),
{
    lemma_wins_service_transport_layer(a.transport, b.transport);
    lemma_wins_opt_service_config_layer(a.service, b.service);
}

proof fn lemma_wins_opt_service_layer(a: Option<ServiceLayer>, b: Option<ServiceLayer>)
    ensures
        agrees_opt_service_layer(overlay_opt_service_layer(a, b), b),
{
    if let Some(y) = b {
        lemma_wins_service_layer(a.unwrap_or(empty_service_layer()), y);
    }
}

proof fn lemma_empty_left_services_layer(a: ServicesLayer)
    ensures
        overlay_services_layer(empty_services_layer(), a) == a,
{
    lemma_empty_left_opt_service_endpoint_layer(a.events);
    lemma_empty_left_opt_service_layer(a.runner);
    lemma_empty_left_opt_service_layer(a.deployer);
    lemma_empty_left_opt_service_layer(a.events_transport);
    lemma_empty_left_opt_service_layer(a.source);
    lemma_empty_left_opt_service_layer(a.publish);
    lemma_empty_left_opt_service_layer(a.metadata);
    lemma_empty_left_opt_service_layer(a.oauth_broker);
}

proof fn lemma_empty_left_opt_services_layer(a: Option<ServicesLayer>)
    ensures
        overlay_opt_services_layer(None, a) == a,
{
    if let Some(x) = a {
        lemma_empty_left_services_layer(x);
    }
}

proof fn lemma_empty_right_opt_services_layer(a: Option<ServicesLayer>)
    ensures
        overlay_opt_services_layer(a, None) == a,
{
}

proof fn lemma_assoc_services_layer(a: ServicesLayer, b: ServicesLayer, c: ServicesLayer)
    ensures
        overlay_services_layer(overlay_services_layer(a, b), c) == overlay_services_layer(a, overlay_services_layer(b, c)),
{
    lemma_assoc_opt_service_endpoint_layer(a.events, b.events, c.events);
    lemma_assoc_opt_service_layer(a.runner, b.runner, c.runner);
    lemma_assoc_opt_service_layer(a.deployer, b.deployer, c.deployer);
    lemma_assoc_opt_service_layer(a.events_transport, b.events_transport, c.events_transport);
    lemma_assoc_opt_service_layer(a.source, b.source, c.source);
    lemma_assoc_opt_service_layer(a.publish, b.publish, c.publish);
    lemma_assoc_opt_service_layer(a.metadata, b.metadata, c.metadata);
    lemma_assoc_opt_service_layer(a.oauth_broker, b.oauth_broker, c.oauth_broker);
}

proof fn lemma_assoc_opt_services_layer(a: Option<ServicesLayer>, b: Option<ServicesLayer>, c: Option<ServicesLayer>)
    ensures
        overlay_opt_services_layer(overlay_opt_services_layer(a, b), c) == overlay_opt_services_layer(a, overlay_opt_services_layer(b, c)),
{
    if let Some(z) = c {
        let a1 = a.unwrap_or(empty_services_layer());
        match b {
            None => {
                lemma_empty_left_services_layer(z);
            },
            Some(y) => {
                lemma_assoc_services_layer(a1, y, z);
            },
        }
    }
}

proof fn lemma_idem_services_layer(a: ServicesLayer, b: ServicesLayer)
    ensures
        overlay_services_layer(overlay_services_layer(a, b), b) == overlay_services_layer(a, b),
{
    lemma_idem_opt_service_endpoint_layer(a.events, b.events);
    lemma_idem_opt_service_layer(a.runner, b.runner);
    lemma_idem_opt_service_layer(a.deployer, b.deployer);
    lemma_idem_opt_service_layer(a.events_transport, b.events_transport);
    lemma_idem_opt_service_layer(a.source, b.source);
    lemma_idem_opt_service_layer(a.publish, b.publish);
    lemma_idem_opt_service_layer(a.metadata, b.metadata);
    lemma_idem_opt_service_layer(a.oauth_broker, b.oauth_broker);
}

proof fn lemma_idem_opt_services_layer(a: Option<ServicesLayer>, b: Option<ServicesLayer>)
    ensures
        overlay_opt_services_layer(overlay_opt_services_layer(a, b), b) == overlay_opt_services_layer(a, b),
{
    if let Some(y) = b {
        lemma_idem_services_layer(a.unwrap_or(empty_services_layer()), y);
    }
}

proof fn lemma_wins_services_layer(a: ServicesLayer, b: ServicesLayer)
    ensures
        agrees_services_layer(overlay_services_layer(a, b), b),
{
    lemma_wins_opt_service_endpoint_layer(a.events, b.events);
    lemma_wins_opt_service_layer(a.runner, b.runner);
    lemma_wins_opt_service_layer(a.deployer, b.deployer);
    lemma_wins_opt_service_layer(a.events_transport, b.events_transport);
    lemma_wins_opt_service_layer(a.source, b.source);
    lemma_wins_opt_service_layer(a.publish, b.publish);
    lemma_wins_opt_service_layer(a.metadata, b.metadata);
    lemma_wins_opt_service_layer(a.oauth_broker, b.oauth_broker);
}

proof fn lemma_wins_opt_services_layer(a: Option<ServicesLayer>, b: Option<ServicesLayer>)
    ensures
        agrees_opt_services_layer(overlay_opt_services_layer(a, b), b),
{
    if let Some(y) = b {
        lemma_wins_services_layer(a.unwrap_or(empty_services_layer()), y);
    }
}

proof fn lemma_empty_left_reconnect_layer(a: ReconnectLayer)
    ensures
        overlay_reconnect_layer(empty_reconnect_layer(), a) == a,
{

}

proof fn lemma_empty_left_opt_reconnect_layer(a: Option<ReconnectLayer>)
    ensures
        overlay_opt_reconnect_layer(None, a) == a,
{
    if let Some(x) = a {
        lemma_empty_left_reconnect_layer(x);
    }
}

proof fn lemma_assoc_reconnect_layer(a: ReconnectLayer, b: ReconnectLayer, c: ReconnectLayer)
    ensures
        overlay_reconnect_layer(overlay_reconnect_layer(a, b), c) == overlay_reconnect_layer(a, overlay_reconnect_layer(b, c)),
{

}

proof fn lemma_assoc_opt_reconnect_layer(a: Option<ReconnectLayer>, b: Option<ReconnectLayer>, c: Option<ReconnectLayer>)
    ensures
        overlay_opt_reconnect_layer(overlay_opt_reconnect_layer(a, b), c) == overlay_opt_reconnect_layer(a, overlay_opt_reconnect_layer(b, c)),
{
    if let Some(z) = c {
        let a1 = a.unwrap_or(empty_reconnect_layer());
        match b {
            None => {
                lemma_empty_left_reconnect_layer(z);
            },
            Some(y) => {
                lemma_assoc_reconnect_layer(a1, y, z);
            },
        }
    }
}

proof fn lemma_idem_reconnect_layer(a: ReconnectLayer, b: ReconnectLayer)
    ensures
        overlay_reconnect_layer(overlay_reconnect_layer(a, b), b) == overlay_reconnect_layer(a, b),
{

}

proof fn lemma_idem_opt_reconnect_layer(a: Option<ReconnectLayer>, b: Option<ReconnectLayer>)
    ensures
        overlay_opt_reconnect_layer(overlay_opt_reconnect_layer(a, b), b) == overlay_opt_reconnect_layer(a, b),
{
    if let Some(y) = b {
        lemma_idem_reconnect_layer(a.unwrap_or(empty_reconnect_layer()), y);
    }
}

proof fn lemma_wins_reconnect_layer(a: ReconnectLayer, b: ReconnectLayer)
    ensures
        agrees_reconnect_layer(overlay_reconnect_layer(a, b), b),
{

}

proof fn lemma_wins_opt_reconnect_layer(a: Option<ReconnectLayer>, b: Option<ReconnectLayer>)
    ensures
        agrees_opt_reconnect_layer(overlay_opt_reconnect_layer(a, b), b),
{
    if let Some(y) = b {
        lemma_wins_reconnect_layer(a.unwrap_or(empty_reconnect_layer()), y);
    }
}

proof fn lemma_empty_left_backoff_layer(a: BackoffLayer)
    ensures
        overlay_backoff_layer(empty_backoff_layer(), a) == a,
{

}

proof fn lemma_empty_left_opt_backoff_layer(a: Option<BackoffLayer>)
    ensures
        overlay_opt_backoff_layer(None, a) == a,
{
    if let Some(x) = a {
        lemma_empty_left_backoff_layer(x);
    }
}

proof fn lemma_assoc_backoff_layer(a: BackoffLayer, b: BackoffLayer, c: BackoffLayer)
    ensures
        overlay_backoff_layer(overlay_backoff_layer(a, b), c) == overlay_backoff_layer(a, overlay_backoff_layer(b, c)),
{

}

proof fn lemma_assoc_opt_backoff_layer(a: Option<BackoffLayer>, b: Option<BackoffLayer>, c: Option<BackoffLayer>)
    ensures
        overlay_opt_backoff_layer(overlay_opt_backoff_layer(a, b), c) == overlay_opt_backoff_layer(a, overlay_opt_backoff_layer(b, c)),
{
    if let Some(z) = c {
        let a1 = a.unwrap_or(empty_backoff_layer());
        match b {
            None => {
                lemma_empty_left_backoff_layer(z);
            },
            Some(y) => {
                lemma_assoc_backoff_layer(a1, y, z);
            },
        }
    }
}

proof fn lemma_idem_backoff_layer(a: BackoffLayer, b: BackoffLayer)
    ensures
        overlay_backoff_layer(overlay_backoff_layer(a, b), b) == overlay_backoff_layer(a, b),
{

}

proof fn lemma_idem_opt_backoff_layer(a: Option<BackoffLayer>, b: Option<BackoffLayer>)
    ensures
        overlay_opt_backoff_layer(overlay_opt_backoff_layer(a, b), b) == overlay_opt_backoff_layer(a, b),
{
    if let Some(y) = b {
        lemma_idem_backoff_layer(a.unwrap_or(empty_backoff_layer()), y);
    }
}

proof fn lemma_wins_backoff_layer(a: BackoffLayer, b: BackoffLayer)
    ensures
        agrees_backoff_layer(overlay_backoff_layer(a, b), b),
{

}

proof fn lemma_wins_opt_backoff_layer(a: Option<BackoffLayer>, b: Option<BackoffLayer>)
    ensures
        agrees_opt_backoff_layer(overlay_opt_backoff_layer(a, b), b),
{
    if let Some(y) = b {
        lemma_wins_backoff_layer(a.unwrap_or(empty_backoff_layer()), y);
    }
}

proof fn lemma_empty_left_events_layer(a: EventsLayer)
    ensures
        overlay_events_layer(empty_events_layer(), a) == a,
{
    lemma_empty_left_opt_reconnect_layer(a.reconnect);
    lemma_empty_left_opt_backoff_layer(a.backoff);
}

proof fn lemma_empty_left_opt_events_layer(a: Option<EventsLayer>)
    ensures
        overlay_opt_events_layer(None, a) == a,
{
    if let Some(x) = a {
        lemma_empty_left_events_layer(x);
    }
}

proof fn lemma_empty_right_opt_events_layer(a: Option<EventsLayer>)
    ensures
        overlay_opt_events_layer(a, None) == a,
{
}

proof fn lemma_assoc_events_layer(a: EventsLayer, b: EventsLayer, c: EventsLayer)
    ensures
        overlay_events_layer(overlay_events_layer(a, b), c) == overlay_events_layer(a, overlay_events_layer(b, c)),
{
    lemma_assoc_opt_reconnect_layer(a.reconnect, b.reconnect, c.reconnect);
    lemma_assoc_opt_backoff_layer(a.backoff, b.backoff, c.backoff);
}

proof fn lemma_assoc_opt_events_layer(a: Option<EventsLayer>, b: Option<EventsLayer>, c: Option<EventsLayer>)
    ensures
        overlay_opt_events_layer(overlay_opt_events_layer(a, b), c) == overlay_opt_events_layer(a, overlay_opt_events_layer(b, c)),
{
    if let Some(z) = c {
        let a1 = a.unwrap_or(empty_events_layer());
        match b {
            None => {
                lemma_empty_left_events_layer(z);
            },
            Some(y) => {
                lemma_assoc_events_layer(a1, y, z);
            },
        }
    }
}

proof fn lemma_idem_events_layer(a: EventsLayer, b: EventsLayer)
    ensures
        overlay_events_layer(overlay_events_layer(a, b), b) == overlay_events_layer(a, b),
{
    lemma_idem_opt_reconnect_layer(a.reconnect, b.reconnect);
    lemma_idem_opt_backoff_layer(a.backoff, b.backoff);
}

proof fn lemma_idem_opt_events_layer(a: Option<EventsLayer>, b: Option<EventsLayer>)
    ensures
        overlay_opt_events_layer(overlay_opt_events_layer(a, b), b) == overlay_opt_events_layer(a, b),
{
    if let Some(y) = b {
        lemma_idem_events_layer(a.unwrap_or(empty_events_layer()), y);
    }
}

proof fn lemma_wins_events_layer(a: EventsLayer, b: EventsLayer)
    ensures
        agrees_events_layer(overlay_events_layer(a, b), b),
{
    lemma_wins_opt_reconnect_layer(a.reconnect, b.reconnect);
    lemma_wins_opt_backoff_layer(a.backoff, b.backoff);
}

proof fn lemma_wins_opt_events_layer(a: Option<EventsLayer>, b: Option<EventsLayer>)
    ensures
        agrees_opt_events_layer(overlay_opt_events_layer(a, b), b),
{
    if let Some(y) = b {
        lemma_wins_events_layer(a.unwrap_or(empty_events_layer()), y);
    }
}

proof fn lemma_empty_left_admin_endpoints_layer(a: AdminEndpointsLayer)
    ensures
        overlay_admin_endpoints_layer(empty_admin_endpoints_layer(), a) == a,
{

}

proof fn lemma_empty_left_opt_admin_endpoints_layer(a: Option<AdminEndpointsLayer>)
    ensures
        overlay_opt_admin_endpoints_layer(None, a) == a,
{
    if let Some(x) = a {
        lemma_empty_left_admin_endpoints_layer(x);
    }
}

proof fn lemma_assoc_admin_endpoints_layer(a: AdminEndpointsLayer, b: AdminEndpointsLayer, c: AdminEndpointsLayer)
    ensures
        overlay_admin_endpoints_layer(overlay_admin_endpoints_layer(a, b), c) == overlay_admin_endpoints_layer(a, overlay_admin_endpoints_layer(b, c)),
{

}

proof fn lemma_assoc_opt_admin_endpoints_layer(a: Option<AdminEndpointsLayer>, b: Option<AdminEndpointsLayer>, c: Option<AdminEndpointsLayer>)
    ensures
        overlay_opt_admin_endpoints_layer(overlay_opt_admin_endpoints_layer(a, b), c) == overlay_opt_admin_endpoints_layer(a, overlay_opt_admin_endpoints_layer(b, c)),
{
    if let Some(z) = c {
        let a1 = a.unwrap_or(empty_admin_endpoints_layer());
        match b {
            None => {
                lemma_empty_left_admin_endpoints_layer(z);
            },
            Some(y) => {
                lemma_assoc_admin_endpoints_layer(a1, y, z);
            },
        }
    }
}

proof fn lemma_idem_admin_endpoints_layer(a: AdminEndpointsLayer, b: AdminEndpointsLayer)
    ensures
        overlay_admin_endpoints_layer(overlay_admin_endpoints_layer(a, b), b) == overlay_admin_endpoints_layer(a, b),
{

}

proof fn lemma_idem_opt_admin_endpoints_layer(a: Option<AdminEndpointsLayer>, b: Option<AdminEndpointsLayer>)
    ensures
        overlay_opt_admin_endpoints_layer(overlay_opt_admin_endpoints_layer(a, b), b) == overlay_opt_admin_endpoints_layer(a, b),
{
    if let Some(y) = b {
        lemma_idem_admin_endpoints_layer(a.unwrap_or(empty_admin_endpoints_layer()), y);
    }
}

proof fn lemma_wins_admin_endpoints_layer(a: AdminEndpointsLayer, b: AdminEndpointsLayer)
    ensures
        agrees_admin_endpoints_layer(overlay_admin_endpoints_layer(a, b), b),
{

}

proof fn lemma_wins_opt_admin_endpoints_layer(a: Option<AdminEndpointsLayer>, b: Option<AdminEndpointsLayer>)
    ensures
        agrees_opt_admin_endpoints_layer(overlay_opt_admin_endpoints_layer(a, b), b),
{
    if let Some(y) = b {
        lemma_wins_admin_endpoints_layer(a.unwrap_or(empty_admin_endpoints_layer()), y);
    }
}

proof fn lemma_empty_left_runtime_layer(a: RuntimeLayer)
    ensures
        overlay_runtime_layer(empty_runtime_layer(), a) == a,
{
    lemma_empty_left_opt_admin_endpoints_layer(a.admin_endpoints);
}

proof fn lemma_empty_left_opt_runtime_layer(a: Option<RuntimeLayer>)
    ensures
        overlay_opt_runtime_layer(None, a) == a,
{
    if let Some(x) = a {
        lemma_empty_left_runtime_layer(x);
    }
}

proof fn lemma_empty_right_opt_runtime_layer(a: Option<RuntimeLayer>)
    ensures
        overlay_opt_runtime_layer(a, None) == a,
{
}

proof fn lemma_assoc_runtime_layer(a: RuntimeLayer, b: RuntimeLayer, c: RuntimeLayer)
    ensures
        overlay_runtime_layer(overlay_runtime_layer(a, b), c) == overlay_runtime_layer(a, overlay_runtime_layer(b, c)),
{
    lemma_assoc_opt_admin_endpoints_layer(a.admin_endpoints, b.admin_endpoints, c.admin_endpoints);
}

proof fn lemma_assoc_opt_runtime_layer(a: Option<RuntimeLayer>, b: Option<RuntimeLayer>, c: Option<RuntimeLayer>)
    ensures
        overlay_opt_runtime_layer(overlay_opt_runtime_layer(a, b), c) == overlay_opt_runtime_layer(a, overlay_opt_runtime_layer(b, c)),
{
    if let Some(z) = c {
        let a1 = a.unwrap_or(empty_runtime_layer());
        match b {
            None => {
                lemma_empty_left_runtime_layer(z);
            },
            Some(y) => {
                lemma_assoc_runtime_layer(a1, y, z);
            },
        }
    }
}

proof fn lemma_idem_runtime_layer(a: RuntimeLayer, b: RuntimeLayer)
    ensures
        overlay_runtime_layer(overlay_runtime_layer(a, b), b) == overlay_runtime_layer(a, b),
{
    lemma_idem_opt_admin_endpoints_layer(a.admin_endpoints, b.admin_endpoints);
}

proof fn lemma_idem_opt_runtime_layer(a: Option<RuntimeLayer>, b: Option<RuntimeLayer>)
    ensures
        overlay_opt_runtime_layer(overlay_opt_runtime_layer(a, b), b) == overlay_opt_runtime_layer(a, b),
{
    if let Some(y) = b {
        lemma_idem_runtime_layer(a.unwrap_or(empty_runtime_layer()), y);
    }
}

proof fn lemma_wins_runtime_layer(a: RuntimeLayer, b: RuntimeLayer)
    ensures
        agrees_runtime_layer(overlay_runtime_layer(a, b), b),
{
    lemma_wins_opt_admin_endpoints_layer(a.admin_endpoints, b.admin_endpoints);
}

proof fn lemma_wins_opt_runtime_layer(a: Option<RuntimeLayer>, b: Option<RuntimeLayer>)
    ensures
        agrees_opt_runtime_layer(overlay_opt_runtime_layer(a, b), b),
{
    if let Some(y) = b {
        lemma_wins_runtime_layer(a.unwrap_or(empty_runtime_layer()), y);
    }
}

proof fn lemma_empty_left_telemetry_layer(a: TelemetryLayer)
    ensures
        overlay_telemetry_layer(empty_telemetry_layer(), a) == a,
{

}

proof fn lemma_empty_left_opt_telemetry_layer(a: Option<TelemetryLayer>)
    ensures
        overlay_opt_telemetry_layer(None, a) == a,
{
    if let Some(x) = a {
        lemma_empty_left_telemetry_layer(x);
    }
}

proof fn lemma_empty_right_opt_telemetry_layer(a: Option<TelemetryLayer>)
    ensures
        overlay_opt_telemetry_layer(a, None) == a,
{
}

proof fn lemma_assoc_telemetry_layer(a: TelemetryLayer, b: TelemetryLayer, c: TelemetryLayer)
    ensures
        overlay_telemetry_layer(overlay_telemetry_layer(a, b), c) == overlay_telemetry_layer(a, overlay_telemetry_layer(b, c)),
{

}

proof fn lemma_assoc_opt_telemetry_layer(a: Option<TelemetryLayer>, b: Option<TelemetryLayer>, c: Option<TelemetryLayer>)
    ensures
        overlay_opt_telemetry_layer(overlay_opt_telemetry_layer(a, b), c) == overlay_opt_telemetry_layer(a, overlay_opt_telemetry_layer(b, c)),
{
    if let Some(z) = c {
        let a1 = a.unwrap_or(empty_telemetry_layer());
        match b {
            None => {
                lemma_empty_left_telemetry_layer(z);
            },
            Some(y) => {
                lemma_assoc_telemetry_layer(a1, y, z);
            },
        }
    }
}

proof fn lemma_idem_telemetry_layer(a: TelemetryLayer, b: TelemetryLayer)
    ensures
        overlay_telemetry_layer(overlay_telemetry_layer(a, b), b) == overlay_telemetry_layer(a, b),
{

}

proof fn lemma_idem_opt_telemetry_layer(a: Option<TelemetryLayer>, b: Option<TelemetryLayer>)
    ensures
        overlay_opt_telemetry_layer(overlay_opt_telemetry_layer(a, b), b) == overlay_opt_telemetry_layer(a, b),
{
    if let Some(y) = b {
        lemma_idem_telemetry_layer(a.unwrap_or(empty_telemetry_layer()), y);
    }
}

proof fn lemma_wins_telemetry_layer(a: TelemetryLayer, b: TelemetryLayer)
    ensures
        agrees_telemetry_layer(overlay_telemetry_layer(a, b), b),
{

}

proof fn lemma_wins_opt_telemetry_layer(a: Option<TelemetryLayer>, b: Option<TelemetryLayer>)
    ensures
        agrees_opt_telemetry_layer(overlay_opt_telemetry_layer(a, b), b),
{
    if let Some(y) = b {
        lemma_wins_telemetry_layer(a.unwrap_or(empty_telemetry_layer()), y);
    }
}

proof fn lemma_empty_left_network_layer(a: NetworkLayer)
    ensures
        overlay_network_layer(empty_network_layer(), a) == a,
{

}

proof fn lemma_empty_left_opt_network_layer(a: Option<NetworkLayer>)
    ensures
        overlay_opt_network_layer(None, a) == a,
{
    if let Some(x) = a {
        lemma_empty_left_network_layer(x);
    }
}

proof fn lemma_empty_right_opt_network_layer(a: Option<NetworkLayer>)
    ensures
        overlay_opt_network_layer(a, None) == a,
{
}

proof fn lemma_assoc_network_layer(a: NetworkLayer, b: NetworkLayer, c: NetworkLayer)
    ensures
        overlay_network_layer(overlay_network_layer(a, b), c) == overlay_network_layer(a, overlay_network_layer(b, c)),
{

}

proof fn lemma_assoc_opt_network_layer(a: Option<NetworkLayer>, b: Option<NetworkLayer>, c: Option<NetworkLayer>)
    ensures
        overlay_opt_network_layer(overlay_opt_network_layer(a, b), c) == overlay_opt_network_layer(a, overlay_opt_network_layer(b, c)),
{
    if let Some(z) = c {
        let a1 = a.unwrap_or(empty_network_layer());
        match b {
            None => {
                lemma_empty_left_network_layer(z);
            },
            Some(y) => {
                lemma_assoc_network_layer(a1, y, z);
            },
        }
    }
}

proof fn lemma_idem_network_layer(a: NetworkLayer, b: NetworkLayer)
    ensures
        overlay_network_layer(overlay_network_layer(a, b), b) == overlay_network_layer(a, b),
{

}

proof fn lemma_idem_opt_network_layer(a: Option<NetworkLayer>, b: Option<NetworkLayer>)
    ensures
        overlay_opt_network_layer(overlay_opt_network_layer(a, b), b) == overlay_opt_network_layer(a, b),
{
    if let Some(y) = b {
        lemma_idem_network_layer(a.unwrap_or(empty_network_layer()), y);
    }
}

proof fn lemma_wins_network_layer(a: NetworkLayer, b: NetworkLayer)
    ensures
        agrees_network_layer(overlay_network_layer(a, b), b),
{

}

proof fn lemma_wins_opt_network_layer(a: Option<NetworkLayer>, b: Option<NetworkLayer>)
    ensures
        agrees_opt_network_layer(overlay_opt_network_layer(a, b), b),
{
    if let Some(y) = b {
        lemma_wins_network_layer(a.unwrap_or(empty_network_layer()), y);
    }
}

proof fn lemma_empty_left_deployer_provider_defaults_layer(a: DeployerProviderDefaultsLayer)
    ensures
        overlay_deployer_provider_defaults_layer(empty_deployer_provider_defaults_layer(), a) == a,
{

}

proof fn lemma_empty_left_opt_deployer_provider_defaults_layer(a: Option<DeployerProviderDefaultsLayer>)
    ensures
        overlay_opt_deployer_provider_defaults_layer(None, a) == a,
{
    if let Some(x) = a {
        lemma_empty_left_deployer_provider_defaults_layer(x);
    }
}

proof fn lemma_assoc_deployer_provider_defaults_layer(a: DeployerProviderDefaultsLayer, b: DeployerProviderDefaultsLayer, c: DeployerProviderDefaultsLayer)
    ensures
        overlay_deployer_provider_defaults_layer(overlay_deployer_provider_defaults_layer(a, b), c) == overlay_deployer_provider_defaults_layer(a, overlay_deployer_provider_defaults_layer(b, c)),
{

}

proof fn lemma_assoc_opt_deployer_provider_defaults_layer(a: Option<DeployerProviderDefaultsLayer>, b: Option<DeployerProviderDefaultsLayer>, c: Option<DeployerProviderDefaultsLayer>)
    ensures
        overlay_opt_deployer_provider_defaults_layer(overlay_opt_deployer_provider_defaults_layer(a, b), c) == overlay_opt_deployer_provider_defaults_layer(a, overlay_opt_deployer_provider_defaults_layer(b, c)),
{
    if let Some(z) = c {
        let a1 = a.unwrap_or(empty_deployer_provider_defaults_layer());
        match b {
            None => {
                lemma_empty_left_deployer_provider_defaults_layer(z);
            },
            Some(y) => {
                lemma_assoc_deployer_provider_defaults_layer(a1, y, z);
            },
        }
    }
}

proof fn lemma_idem_deployer_provider_defaults_layer(a: DeployerProviderDefaultsLayer, b: DeployerProviderDefaultsLayer)
    ensures
        overlay_deployer_provider_defaults_layer(overlay_deployer_provider_defaults_layer(a, b), b) == overlay_deployer_provider_defaults_layer(a, b),
{

}

proof fn lemma_idem_opt_deployer_provider_defaults_layer(a: Option<DeployerProviderDefaultsLayer>, b: Option<DeployerProviderDefaultsLayer>)
    ensures
        overlay_opt_deployer_provider_defaults_layer(overlay_opt_deployer_provider_defaults_layer(a, b), b) == overlay_opt_deployer_provider_defaults_layer(a, b),
{
    if let Some(y) = b {
        lemma_idem_deployer_provider_defaults_layer(a.unwrap_or(empty_deployer_provider_defaults_layer()), y);
    }
}

proof fn lemma_wins_deployer_provider_defaults_layer(a: DeployerProviderDefaultsLayer, b: DeployerProviderDefaultsLayer)
    ensures
        agrees_deployer_provider_defaults_layer(overlay_deployer_provider_defaults_layer(a, b), b),
{

}

proof fn lemma_wins_opt_deployer_provider_defaults_layer(a: Option<DeployerProviderDefaultsLayer>, b: Option<DeployerProviderDefaultsLayer>)
    ensures
        agrees_opt_deployer_provider_defaults_layer(overlay_opt_deployer_provider_defaults_layer(a, b), b),
{
    if let Some(y) = b {
        lemma_wins_deployer_provider_defaults_layer(a.unwrap_or(empty_deployer_provider_defaults_layer()), y);
    }
}

proof fn lemma_empty_left_deployer_layer(a: DeployerLayer)
    ensures
        overlay_deployer_layer(empty_deployer_layer(), a) == a,
{
    lemma_empty_left_opt_deployer_provider_defaults_layer(a.provider);
}

proof fn lemma_empty_left_opt_deployer_layer(a: Option<DeployerLayer>)
    ensures
        overlay_opt_deployer_layer(None, a) == a,
{
    if let Some(x) = a {
        lemma_empty_left_deployer_layer(x);
    }
}

proof fn lemma_empty_right_opt_deployer_layer(a: Option<DeployerLayer>)
    ensures
        overlay_opt_deployer_layer(a, None) == a,
{
}

proof fn lemma_assoc_deployer_layer(a: DeployerLayer, b: DeployerLayer, c: DeployerLayer)
    ensures
        overlay_deployer_layer(overlay_deployer_layer(a, b), c) == overlay_deployer_layer(a, overlay_deployer_layer(b, c)),
{
    lemma_assoc_opt_deployer_provider_defaults_layer(a.provider, b.provider, c.provider);
}

proof fn lemma_assoc_opt_deployer_layer(a: Option<DeployerLayer>, b: Option<DeployerLayer>, c: Option<DeployerLayer>)
    ensures
        overlay_opt_deployer_layer(overlay_opt_deployer_layer(a, b), c) == overlay_opt_deployer_layer(a, overlay_opt_deployer_layer(b, c)),
{
    if let Some(z) = c {
        let a1 = a.unwrap_or(empty_deployer_layer());
        match b {
            None => {
                lemma_empty_left_deployer_layer(z);
            },
            Some(y) => {
                lemma_assoc_deployer_layer(a1, y, z);
            },
        }
    }
}

proof fn lemma_idem_deployer_layer(a: DeployerLayer, b: DeployerLayer)
    ensures
        overlay_deployer_layer(overlay_deployer_layer(a, b), b) == overlay_deployer_layer(a, b),
{
    lemma_idem_opt_deployer_provider_defaults_layer(a.provider, b.provider);
}

proof fn lemma_idem_opt_deployer_layer(a: Option<DeployerLayer>, b: Option<DeployerLayer>)
    ensures
        overlay_opt_deployer_layer(overlay_opt_deployer_layer(a, b), b) == overlay_opt_deployer_layer(a, b),
{
    if let Some(y) = b {
        lemma_idem_deployer_layer(a.unwrap_or(empty_deployer_layer()), y);
    }
}

proof fn lemma_wins_deployer_layer(a: DeployerLayer, b: DeployerLayer)
    ensures
        agrees_deployer_layer(overlay_deployer_layer(a, b), b),
{
    lemma_wins_opt_deployer_provider_defaults_layer(a.provider, b.provider);
}

proof fn lemma_wins_opt_deployer_layer(a: Option<DeployerLayer>, b: Option<DeployerLayer>)
    ensures
        agrees_opt_deployer_layer(overlay_opt_deployer_layer(a, b), b),
{
    if let Some(y) = b {
        lemma_wins_deployer_layer(a.unwrap_or(empty_deployer_layer()), y);
    }
}

proof fn lemma_empty_left_secrets_backend_ref_layer(a: SecretsBackendRefLayer)
    ensures
        overlay_secrets_backend_ref_layer(empty_secrets_backend_ref_layer(), a) == a,
{

}

proof fn lemma_empty_left_opt_secrets_backend_ref_layer(a: Option<SecretsBackendRefLayer>)
    ensures
        overlay_opt_secrets_backend_ref_layer(None, a) == a,
{
    if let Some(x) = a {
        lemma_empty_left_secrets_backend_ref_layer(x);
    }
}

proof fn lemma_empty_right_opt_secrets_backend_ref_layer(a: Option<SecretsBackendRefLayer>)
    ensures
        overlay_opt_secrets_backend_ref_layer(a, None) == a,
{
}

proof fn lemma_assoc_secrets_backend_ref_layer(a: SecretsBackendRefLayer, b: SecretsBackendRefLayer, c: SecretsBackendRefLayer)
    ensures
        overlay_secrets_backend_ref_layer(overlay_secrets_backend_ref_layer(a, b), c) == overlay_secrets_backend_ref_layer(a, overlay_secrets_backend_ref_layer(b, c)),
{

}

proof fn lemma_assoc_opt_secrets_backend_ref_layer(a: Option<SecretsBackendRefLayer>, b: Option<SecretsBackendRefLayer>, c: Option<SecretsBackendRefLayer>)
    ensures
        overlay_opt_secrets_backend_ref_layer(overlay_opt_secrets_backend_ref_layer(a, b), c) == overlay_opt_secrets_backend_ref_layer(a, overlay_opt_secrets_backend_ref_layer(b, c)),
{
    if let Some(z) = c {
        let a1 = a.unwrap_or(empty_secrets_backend_ref_layer());
        match b {
            None => {
                lemma_empty_left_secrets_backend_ref_layer(z);
            },
            Some(y) => {
                lemma_assoc_secrets_backend_ref_layer(a1, y, z);
            },
        }
    }
}

proof fn lemma_idem_secrets_backend_ref_layer(a: SecretsBackendRefLayer, b: SecretsBackendRefLayer)
    ensures
        overlay_secrets_backend_ref_layer(overlay_secrets_backend_ref_layer(a, b), b) == overlay_secrets_backend_ref_layer(a, b),
{

}

proof fn lemma_idem_opt_secrets_backend_ref_layer(a: Option<SecretsBackendRefLayer>, b: Option<SecretsBackendRefLayer>)
    ensures
        overlay_opt_secrets_backend_ref_layer(overlay_opt_secrets_backend_ref_layer(a, b), b) == overlay_opt_secrets_backend_ref_layer(a, b),
{
    if let Some(y) = b {
        lemma_idem_secrets_backend_ref_layer(a.unwrap_or(empty_secrets_backend_ref_layer()), y);
    }
}

proof fn lemma_wins_secrets_backend_ref_layer(a: SecretsBackendRefLayer, b: SecretsBackendRefLayer)
    ensures
        agrees_secrets_backend_ref_layer(overlay_secrets_backend_ref_layer(a, b), b),
{

}

proof fn lemma_wins_opt_secrets_backend_ref_layer(a: Option<SecretsBackendRefLayer>, b: Option<SecretsBackendRefLayer>)
    ensures
        agrees_opt_secrets_backend_ref_layer(overlay_opt_secrets_backend_ref_layer(a, b), b),
{
    if let Some(y) = b {
        lemma_wins_secrets_backend_ref_layer(a.unwrap_or(empty_secrets_backend_ref_layer()), y);
    }
}

proof fn lemma_empty_left_pack_trust_layer(a: PackTrustLayer)
    ensures
        overlay_pack_trust_layer(empty_pack_trust_layer(), a) == a,
{

}

proof fn lemma_empty_left_opt_pack_trust_layer(a: Option<PackTrustLayer>)
    ensures
        overlay_opt_pack_trust_layer(None, a) == a,
{
    if let Some(x) = a {
        lemma_empty_left_pack_trust_layer(x);
    }
}

proof fn lemma_assoc_pack_trust_layer(a: PackTrustLayer, b: PackTrustLayer, c: PackTrustLayer)
    ensures
        overlay_pack_trust_layer(overlay_pack_trust_layer(a, b), c) == overlay_pack_trust_layer(a, overlay_pack_trust_layer(b, c)),
{

}

proof fn lemma_assoc_opt_pack_trust_layer(a: Option<PackTrustLayer>, b: Option<PackTrustLayer>, c: Option<PackTrustLayer>)
    ensures
        overlay_opt_pack_trust_layer(overlay_opt_pack_trust_layer(a, b), c) == overlay_opt_pack_trust_layer(a, overlay_opt_pack_trust_layer(b, c)),
{
    if let Some(z) = c {
        let a1 = a.unwrap_or(empty_pack_trust_layer());
        match b {
            None => {
                lemma_empty_left_pack_trust_layer(z);
            },
            Some(y) => {
                lemma_assoc_pack_trust_layer(a1, y, z);
            },
        }
    }
}

proof fn lemma_idem_pack_trust_layer(a: PackTrustLayer, b: PackTrustLayer)
    ensures
        overlay_pack_trust_layer(overlay_pack_trust_layer(a, b), b) == overlay_pack_trust_layer(a, b),
{

}

proof fn lemma_idem_opt_pack_trust_layer(a: Option<PackTrustLayer>, b: Option<PackTrustLayer>)
    ensures
        overlay_opt_pack_trust_layer(overlay_opt_pack_trust_layer(a, b), b) == overlay_opt_pack_trust_layer(a, b),
{
    if let Some(y) = b {
        lemma_idem_pack_trust_layer(a.unwrap_or(empty_pack_trust_layer()), y);
    }
}

proof fn lemma_wins_pack_trust_layer(a: PackTrustLayer, b: PackTrustLayer)
    ensures
        agrees_pack_trust_layer(overlay_pack_trust_layer(a, b), b),
{

}

proof fn lemma_wins_opt_pack_trust_layer(a: Option<PackTrustLayer>, b: Option<PackTrustLayer>)
    ensures
        agrees_opt_pack_trust_layer(overlay_opt_pack_trust_layer(a, b), b),
{
    if let Some(y) = b {
        lemma_wins_pack_trust_layer(a.unwrap_or(empty_pack_trust_layer()), y);
    }
}

proof fn lemma_empty_left_packs_layer(a: PacksLayer)
    ensures
        overlay_packs_layer(empty_packs_layer(), a) == a,
{
    lemma_empty_left_opt_pack_trust_layer(a.trust);
}

proof fn lemma_empty_left_opt_packs_layer(a: Option<PacksLayer>)
    ensures
        overlay_opt_packs_layer(None, a) == a,
{
    if let Some(x) = a {
        lemma_empty_left_packs_layer(x);
    }
}

proof fn lemma_empty_right_opt_packs_layer(a: Option<PacksLayer>)
    ensures
        overlay_opt_packs_layer(a, None) == a,
{
}

proof fn lemma_assoc_packs_layer(a: PacksLayer, b: PacksLayer, c: PacksLayer)
    ensures
        overlay_packs_layer(overlay_packs_layer(a, b), c) == overlay_packs_layer(a, overlay_packs_layer(b, c)),
{
    lemma_assoc_opt_pack_trust_layer(a.trust, b.trust, c.trust);
}

proof fn lemma_assoc_opt_packs_layer(a: Option<PacksLayer>, b: Option<PacksLayer>, c: Option<PacksLayer>)
    ensures
        overlay_opt_packs_layer(overlay_opt_packs_layer(a, b), c) == overlay_opt_packs_layer(a, overlay_opt_packs_layer(b, c)),
{
    if let Some(z) = c {
        let a1 = a.unwrap_or(empty_packs_layer());
        match b {
            None => {
                lemma_empty_left_packs_layer(z);
            },
            Some(y) => {
                lemma_assoc_packs_layer(a1, y, z);
            },
        }
    }
}

proof fn lemma_idem_packs_layer(a: PacksLayer, b: PacksLayer)
    ensures
        overlay_packs_layer(overlay_packs_layer(a, b), b) == overlay_packs_layer(a, b),
{
    lemma_idem_opt_pack_trust_layer(a.trust, b.trust);
}

proof fn lemma_idem_opt_packs_layer(a: Option<PacksLayer>, b: Option<PacksLayer>)
    ensures
        overlay_opt_packs_layer(overlay_opt_packs_layer(a, b), b) == overlay_opt_packs_layer(a, b),
{
    if let Some(y) = b {
        lemma_idem_packs_layer(a.unwrap_or(empty_packs_layer()), y);
    }
}

proof fn lemma_wins_packs_layer(a: PacksLayer, b: PacksLayer)
    ensures
        agrees_packs_layer(overlay_packs_layer(a, b), b),
{
    lemma_wins_opt_pack_trust_layer(a.trust, b.trust);
}

proof fn lemma_wins_opt_packs_layer(a: Option<PacksLayer>, b: Option<PacksLayer>)
    ensures
        agrees_opt_packs_layer(overlay_opt_packs_layer(a, b), b),
{
    if let Some(y) = b {
        lemma_wins_packs_layer(a.unwrap_or(empty_packs_layer()), y);
    }
}

proof fn lemma_empty_left_dev_layer(a: DevLayer)
    ensures
        overlay_dev_layer(empty_dev_layer(), a) == a,
{

}

proof fn lemma_empty_left_opt_dev_layer(a: Option<DevLayer>)
    ensures
        overlay_opt_dev_layer(None, a) == a,
{
    if let Some(x) = a {
        lemma_empty_left_dev_layer(x);
    }
}

proof fn lemma_empty_right_opt_dev_layer(a: Option<DevLayer>)
    ensures
        overlay_opt_dev_layer(a, None) == a,
{
}

proof fn lemma_assoc_dev_layer(a: DevLayer, b: DevLayer, c: DevLayer)
    ensures
        overlay_dev_layer(overlay_dev_layer(a, b), c) == overlay_dev_layer(a, overlay_dev_layer(b, c)),
{

}

proof fn lemma_assoc_opt_dev_layer(a: Option<DevLayer>, b: Option<DevLayer>, c: Option<DevLayer>)
    ensures
        overlay_opt_dev_layer(overlay_opt_dev_layer(a, b), c) == overlay_opt_dev_layer(a, overlay_opt_dev_layer(b, c)),
{
    if let Some(z) = c {
        let a1 = a.unwrap_or(empty_dev_layer());
        match b {
            None => {
                lemma_empty_left_dev_layer(z);
            },
            Some(y) => {
                lemma_assoc_dev_layer(a1, y, z);
            },
        }
    }
}

proof fn lemma_idem_dev_layer(a: DevLayer, b: DevLayer)
    ensures
        overlay_dev_layer(overlay_dev_layer(a, b), b) == overlay_dev_layer(a, b),
{

}

proof fn lemma_idem_opt_dev_layer(a: Option<DevLayer>, b: Option<DevLayer>)
    ensures
        overlay_opt_dev_layer(overlay_opt_dev_layer(a, b), b) == overlay_opt_dev_layer(a, b),
{
    if let Some(y) = b {
        lemma_idem_dev_layer(a.unwrap_or(empty_dev_layer()), y);
    }
}

proof fn lemma_wins_dev_layer(a: DevLayer, b: DevLayer)
    ensures
        agrees_dev_layer(overlay_dev_layer(a, b), b),
{

}

proof fn lemma_wins_opt_dev_layer(a: Option<DevLayer>, b: Option<DevLayer>)
    ensures
        agrees_opt_dev_layer(overlay_opt_dev_layer(a, b), b),
{
    if let Some(y) = b {
        lemma_wins_dev_layer(a.unwrap_or(empty_dev_layer()), y);
    }
}

proof fn lemma_empty_left_config_layer(a: ConfigLayer)
    ensures
        overlay_config_layer(empty_config_layer(), a) == a,
{
    lemma_empty_left_opt_environment_layer(a.environment);
    lemma_empty_left_opt_paths_layer(a.paths);
    lemma_empty_left_opt_services_layer(a.services);
    lemma_empty_left_opt_events_layer(a.events);
    lemma_empty_left_opt_runtime_layer(a.runtime);
    lemma_empty_left_opt_telemetry_layer(a.telemetry);
    lemma_empty_left_opt_network_layer(a.network);
    lemma_empty_left_opt_deployer_layer(a.deployer);
    lemma_empty_left_opt_secrets_backend_ref_layer(a.secrets);
    lemma_empty_left_opt_packs_layer(a.packs);
    lemma_empty_left_opt_dev_layer(a.dev);
}

proof fn lemma_empty_right_config_layer(a: ConfigLayer)
    ensures
        overlay_config_layer(a, empty_config_layer()) == a,
{
    lemma_empty_right_opt_environment_layer(a.environment);
    lemma_empty_right_opt_paths_layer(a.paths);
    lemma_empty_right_opt_services_layer(a.services);
    lemma_empty_right_opt_events_layer(a.events);
    lemma_empty_right_opt_runtime_layer(a.runtime);
    lemma_empty_right_opt_telemetry_layer(a.telemetry);
    lemma_empty_right_opt_network_layer(a.network);
    lemma_empty_right_opt_deployer_layer(a.deployer);
    lemma_empty_right_opt_secrets_backend_ref_layer(a.secrets);
    lemma_empty_right_opt_packs_layer(a.packs);
    lemma_empty_right_opt_dev_layer(a.dev);
}

proof fn lemma_assoc_config_layer(a: ConfigLayer, b: ConfigLayer, c: ConfigLayer)
    ensures
        overlay_config_layer(overlay_config_layer(a, b), c) == overlay_config_layer(a, overlay_config_layer(b, c)),
{
    lemma_assoc_opt_environment_layer(a.environment, b.environment, c.environment);
    lemma_assoc_opt_paths_layer(a.paths, b.paths, c.paths);
    lemma_assoc_opt_services_layer(a.services, b.services, c.services);
    lemma_assoc_opt_events_layer(a.events, b.events, c.events);
    lemma_assoc_opt_runtime_layer(a.runtime, b.runtime, c.runtime);
    lemma_assoc_opt_telemetry_layer(a.telemetry, b.telemetry, c.telemetry);
    lemma_assoc_opt_network_layer(a.network, b.network, c.network);
    lemma_assoc_opt_deployer_layer(a.deployer, b.deployer, c.deployer);
    lemma_assoc_opt_secrets_backend_ref_layer(a.secrets, b.secrets, c.secrets);
    lemma_assoc_opt_packs_layer(a.packs, b.packs, c.packs);
    lemma_assoc_opt_dev_layer(a.dev, b.dev, c.dev);
}

proof fn lemma_idem_config_layer(a: ConfigLayer, b: ConfigLayer)
    ensures
        overlay_config_layer(overlay_config_layer(a, b), b) == overlay_config_layer(a, b),
{
    lemma_idem_opt_environment_layer(a.environment, b.environment);
    lemma_idem_opt_paths_layer(a.paths, b.paths);
    lemma_idem_opt_services_layer(a.services, b.services);
    lemma_idem_opt_events_layer(a.events, b.events);
    lemma_idem_opt_runtime_layer(a.runtime, b.runtime);
    lemma_idem_opt_telemetry_layer(a.telemetry, b.telemetry);
    lemma_idem_opt_network_layer(a.network, b.network);
    lemma_idem_opt_deployer_layer(a.deployer, b.deployer);
    lemma_idem_opt_secrets_backend_ref_layer(a.secrets, b.secrets);
    lemma_idem_opt_packs_layer(a.packs, b.packs);
    lemma_idem_opt_dev_layer(a.dev, b.dev);
}

proof fn lemma_wins_config_layer(a: ConfigLayer, b: ConfigLayer)
    ensures
        agrees_config_layer(overlay_config_layer(a, b), b),
{
    lemma_wins_opt_environment_layer(a.environment, b.environment);
    lemma_wins_opt_paths_layer(a.paths, b.paths);
    lemma_wins_opt_services_layer(a.services, b.services);
    lemma_wins_opt_events_layer(a.events, b.events);
    lemma_wins_opt_runtime_layer(a.runtime, b.runtime);
    lemma_wins_opt_telemetry_layer(a.telemetry, b.telemetry);
    lemma_wins_opt_network_layer(a.network, b.network);
    lemma_wins_opt_deployer_layer(a.deployer, b.deployer);
    lemma_wins_opt_secrets_backend_ref_layer(a.secrets, b.secrets);
    lemma_wins_opt_packs_layer(a.packs, b.packs);
    lemma_wins_opt_dev_layer(a.dev, b.dev);
}

/// Merging with a layer that sets nothing changes nothing, on either side.
pub proof fn lemma_merge_identity(a: ConfigLayer)
    ensures
        overlay_config_layer(a, empty_config_layer()) == a,
        overlay_config_layer(empty_config_layer(), a) == a,
{
    lemma_empty_right_config_layer(a);
    lemma_empty_left_config_layer(a);
}

/// Merging is associative: applying `b` and then `c` on top of `a` is the same as applying
/// the merge of `b` and `c` on top of `a`.
pub proof fn lemma_merge_associative(a: ConfigLayer, b: ConfigLayer, c: ConfigLayer)
    ensures
        overlay_config_layer(overlay_config_layer(a, b), c) == overlay_config_layer(a, overlay_config_layer(b, c)),
{
    lemma_assoc_config_layer(a, b, c);
}

/// Applying the same layer twice is the same as applying it once.
pub proof fn lemma_merge_idempotent(a: ConfigLayer, b: ConfigLayer)
    ensures
        overlay_config_layer(overlay_config_layer(a, b), b) == overlay_config_layer(a, b),
{
    lemma_idem_config_layer(a, b);
}

/// Every leaf that the later layer sets ends up with the later layer's value.
pub proof fn lemma_later_layer_wins(a: ConfigLayer, b: ConfigLayer)
    ensures
        agrees_config_layer(overlay_config_layer(a, b), b),
{
    lemma_wins_config_layer(a, b);
}

} // verus!
