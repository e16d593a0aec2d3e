//! The resolved configuration schema.
use vstd::prelude::*;
use std::collections::BTreeMap;
use crate::text::owned;
use crate::weburl::Url;


verus! {

#[verifier::external_type_specification]
#[verifier::external_body]
pub struct ExDeploymentCtx(greentic_types::DeploymentCtx);

/// The schema version of a configuration document.
#[derive(Clone, Debug, PartialEq, Eq)]
pub struct ConfigVersion(pub String);

impl ConfigVersion {
    /// Version `"1"`.
    pub fn v1() -> (r: Self)
        ensures
            r.0@ == seq!['1'],
    {
        let s = owned("1");
        proof {
            reveal_strlit("1");
        }
        ConfigVersion(s)
    }
}

impl Default for ConfigVersion {
    fn default() -> (r: Self)
        ensures
            r.0@ == seq!['1'],
    {
        Self::v1()
    }
}

/// An environment identifier.
#[derive(Clone, Debug, PartialEq, Eq, Hash)]
pub struct EnvId(pub String);

/// How an environment reaches the network.
#[derive(Clone, Copy, Debug, PartialEq, Eq, Hash, Structural)]
pub enum ConnectionKind {
    Online,
    Offline,
}

/// An IEEE-754 binary32 number, held as its bit pattern.
#[derive(Clone, Copy, Debug, PartialEq, Eq, Hash, Structural)]
pub struct F32Bits(pub u32);

/// An IEEE-754 binary64 number, held as its bit pattern.
#[derive(Clone, Copy, Debug, PartialEq, Eq, Hash, Structural)]
pub struct F64Bits(pub u64);

/// The bit pattern of the binary32 number 1.0.
pub const F32_ONE_BITS: u32 = 0x3f80_0000u32;

/// Headers sent along with requests to a service (non-secret routing metadata only).
pub type Headers = BTreeMap<String, String>;

#[derive(Clone, Debug, PartialEq)]
pub struct GreenticConfig {
    pub schema_version: ConfigVersion,
    pub environment: EnvironmentConfig,
    pub paths: PathsConfig,
    pub packs: Option<PacksConfig>,
    pub services: Option<ServicesConfig>,
    pub events: Option<EventsConfig>,
    pub runtime: RuntimeConfig,
    pub telemetry: TelemetryConfig,
    pub network: NetworkConfig,
    pub deployer: Option<DeployerConfig>,
    pub secrets: SecretsBackendRefConfig,
    pub dev: Option<DevConfig>,
}

#[derive(Clone, Debug, PartialEq)]
pub struct EnvironmentConfig {
    pub env_id: EnvId,
    pub deployment: Option<greentic_types::DeploymentCtx>,
    pub connection: Option<ConnectionKind>,
    pub region: Option<String>,
}

/// Directory locations; every path is absolute once resolved.
#[derive(Clone, Debug, PartialEq, Eq)]
pub struct PathsConfig {
    pub greentic_root: String,
    pub state_dir: String,
    pub cache_dir: String,
    pub logs_dir: String,
}

#[derive(Clone, Debug, Default, PartialEq, Eq)]
pub struct ServicesConfig {
    pub events: Option<ServiceEndpointConfig>,
    pub runner: Option<ServiceDefinitionConfig>,
    pub deployer: Option<ServiceDefinitionConfig>,
    /// Transport selector for events; `events` keeps the legacy HTTP-only endpoint shape.
    pub events_transport: Option<ServiceDefinitionConfig>,
    pub source: Option<ServiceDefinitionConfig>,
    pub publish: Option<ServiceDefinitionConfig>,
    pub store: Option<ServiceDefinitionConfig>,
    pub metadata: Option<ServiceDefinitionConfig>,
    pub oauth_broker: Option<ServiceDefinitionConfig>,
}

#[derive(Clone, Debug, PartialEq, Eq)]
pub struct ServiceEndpointConfig {
    pub url: Url,
    pub headers: Option<Headers>,
}

#[derive(Clone, Debug, Default, PartialEq, Eq)]
pub struct ServiceDefinitionConfig {
    pub transport: Option<ServiceTransportConfig>,
    pub service: Option<ServiceConfig>,
}

#[derive(Clone, Debug, PartialEq, Eq)]
pub enum ServiceTransportConfig {
    /// Explicitly disables this service integration.
    Noop,
    /// HTTP transport with a base URL and optional non-secret headers.
    Http { url: Url, headers: Option<Headers> },
    /// NATS transport; authentication is handled by the secrets backend.
    Nats { url: Url, subject_prefix: Option<String> },
}

#[derive(Clone, Debug, Default, PartialEq, Eq)]
pub struct ServiceConfig {
    pub bind_addr: Option<String>,
    pub port: Option<u16>,
    pub public_base_url: Option<String>,
    pub metrics: Option<MetricsConfig>,
}

#[derive(Clone, Debug, Default, PartialEq, Eq)]
pub struct MetricsConfig {
    pub enabled: Option<bool>,
    pub bind_addr: Option<String>,
    pub port: Option<u16>,
    pub path: Option<String>,
}

#[derive(Clone, Debug, PartialEq, Eq)]
pub struct EventsConfig {
    pub reconnect: Option<ReconnectConfig>,
    pub backoff: Option<BackoffConfig>,
}

#[derive(Clone, Copy, Debug, PartialEq, Eq, Structural)]
pub struct ReconnectConfig {
    pub enabled: Option<bool>,
    pub max_retries: Option<u32>,
}

#[derive(Clone, Copy, Debug, PartialEq, Eq, Structural)]
pub struct BackoffConfig {
    pub initial_ms: Option<u64>,
    pub max_ms: Option<u64>,
    pub multiplier: Option<F64Bits>,
    pub jitter: Option<bool>,
}

#[derive(Clone, Debug, PartialEq, Eq)]
pub struct PacksConfig {
    pub source: PackSourceConfig,
    pub cache_dir: String,
    pub index_cache_ttl_secs: Option<u64>,
    pub trust: Option<PackTrustConfig>,
}

#[derive(Clone, Debug, PartialEq, Eq)]
pub enum PackSourceConfig {
    LocalIndex { path: String },
    HttpIndex { url: String },
    OciRegistry { reference: String },
}

#[derive(Clone, Debug, PartialEq, Eq)]
pub struct PackTrustConfig {
    pub public_keys: Vec<String>,
    pub require_signatures: bool,
}

#[derive(Clone, Debug, PartialEq, Eq, Default)]
pub struct RuntimeConfig {
    pub max_concurrency: Option<u32>,
    pub task_timeout_ms: Option<u64>,
    pub shutdown_grace_ms: Option<u64>,
    pub admin_endpoints: Option<AdminEndpointsConfig>,
}

#[derive(Clone, Copy, Debug, Default, PartialEq, Eq, Structural)]
pub struct AdminEndpointsConfig {
    /// Enables sensitive admin endpoints (default: false).
    pub secrets_explain_enabled: bool,
}

#[derive(Clone, Debug, PartialEq)]
pub struct TelemetryConfig {
    pub enabled: bool,
    pub exporter: TelemetryExporterKind,
    pub endpoint: Option<String>,
    /// Sampling ratio, as a binary32 bit pattern.
    pub sampling: F32Bits,
}

impl Default for TelemetryConfig {
    fn default() -> (r: Self)
        ensures
            r.enabled,
            r.exporter == TelemetryExporterKind::NoExporter,
            r.endpoint is None,
            r.sampling == F32Bits(F32_ONE_BITS),
    {
        TelemetryConfig {
            enabled: default_enabled(),
            exporter: TelemetryExporterKind::NoExporter,
            endpoint: None,
            sampling: default_sampling(),
        }
    }
}

/// Telemetry is enabled unless configured otherwise.
pub fn default_enabled() -> (r: bool)
    ensures
        r,
{
    true
}

/// Full sampling, 1.0.
pub fn default_sampling() -> (r: F32Bits)
    ensures
        r == F32Bits(F32_ONE_BITS),
{
    F32Bits(F32_ONE_BITS)
}

#[derive(Clone, Copy, Debug, PartialEq, Eq, Structural)]
pub enum TelemetryExporterKind {
    Otlp,
    Stdout,
    Gcp,
    Azure,
    Aws,
    /// No exporter: telemetry is not shipped anywhere.
    NoExporter,
}

#[derive(Clone, Debug, PartialEq, Eq)]
pub struct NetworkConfig {
    pub proxy_url: Option<String>,
    pub tls_mode: TlsMode,
    pub connect_timeout_ms: Option<u64>,
    pub read_timeout_ms: Option<u64>,
}

impl Default for NetworkConfig {
    fn default() -> (r: Self)
        ensures
            r.proxy_url is None,
            r.tls_mode == TlsMode::System,
            r.connect_timeout_ms is None,
            r.read_timeout_ms is None,
    {
        NetworkConfig { proxy_url: None, tls_mode: TlsMode::System, connect_timeout_ms: None, read_timeout_ms: None }
    }
}

#[derive(Clone, Copy, Debug, PartialEq, Eq, Structural)]
pub enum TlsMode {
    Disabled,
    System,
    Strict,
}

#[derive(Clone, Debug, PartialEq, Eq, Default)]
pub struct DeployerConfig {
    /// Default domain used when generating deployment URLs / routing domains.
    pub base_domain: Option<String>,
    pub provider: Option<DeployerProviderDefaults>,
}

#[derive(Clone, Debug, PartialEq, Eq, Default)]
pub struct DeployerProviderDefaults {
    pub provider_kind: Option<String>,
    pub region: Option<String>,
}

#[derive(Clone, Debug, PartialEq, Eq)]
pub struct SecretsBackendRefConfig {
    pub kind: String,
    pub reference: Option<String>,
}

impl Default for SecretsBackendRefConfig {
    fn default() -> (r: Self)
        ensures
            r.kind@ == "none"@,
            r.reference is None,
    {
        SecretsBackendRefConfig { kind: default_backend_kind(), reference: None }
    }
}

/// The secrets backend used unless configured otherwise: `none`.
pub fn default_backend_kind() -> (r: String)
    ensures
        r@ == "none"@,
{
    let s = owned("none");
    proof {
        reveal_strlit("none");
    }
    s
}

#[derive(Clone, Debug, PartialEq, Eq)]
pub struct DevConfig {
    pub default_env: EnvId,
    pub default_tenant: String,
    pub default_team: Option<String>,
}

} // verus!
