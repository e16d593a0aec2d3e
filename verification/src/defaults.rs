//! The built-in defaults layer.
use vstd::prelude::*;
use crate::layers::{
    BackoffLayer, ConfigLayer, DeployerLayer, EnvironmentLayer, EventsLayer, NetworkLayer, PathsLayer, ReconnectLayer,
    RuntimeLayer, SecretsBackendRefLayer, TelemetryLayer, empty_runtime_layer,
};
use crate::paths::DefaultPaths;
use crate::text::owned;
use crate::types::{ConfigVersion, EnvId, F32Bits, F64Bits, F32_ONE_BITS};

verus! {

/// The domain used for deployment URLs unless a layer says otherwise.
pub const DEFAULT_DEPLOYER_BASE_DOMAIN: &'static str = "deploy.greentic.ai";

/// The bit pattern of the binary64 number 2.0.
pub const F64_TWO_BITS: u64 = 0x4000_0000_0000_0000u64;

/// The default environment identifier, `dev`.
pub fn default_env_id() -> (r: EnvId)
    ensures
        r.0@ == "dev"@,
{
    EnvId(owned("dev"))
}

/// Whether `l` is the defaults layer for the project root `root` with default layout `d`:
/// schema version `1`, environment `dev`, the default directories, events reconnecting (up
/// to 50 retries) with backoff from 250 ms to 30 s doubling with jitter, telemetry enabled
/// without exporter at full sampling, system TLS, deployer base domain
/// `deploy.greentic.ai`, and secrets backend `none`.
pub open spec fn is_default_layer(l: ConfigLayer, root: Seq<char>, d: DefaultPaths) -> bool {
    &&& l.schema_version is Some && (l.schema_version->0).0@ == seq!['1']
    &&& l.environment is Some
    &&& l.environment->0.env_id is Some && (l.environment->0.env_id->0).0@ == "dev"@
    &&& l.environment->0.deployment is None && l.environment->0.connection is None && l.environment->0.region is None
    &&& l.paths is Some
    &&& l.paths->0.greentic_root is Some && l.paths->0.greentic_root->0@ == root
    &&& l.paths->0.state_dir is Some && l.paths->0.state_dir->0@ == d.state_dir@
    &&& l.paths->0.cache_dir is Some && l.paths->0.cache_dir->0@ == d.cache_dir@
    &&& l.paths->0.logs_dir is Some && l.paths->0.logs_dir->0@ == d.logs_dir@
    &&& l.services is None
    &&& l.events == Some(EventsLayer {
        reconnect: Some(ReconnectLayer { enabled: Some(true), max_retries: Some(50u32) }),
        backoff: Some(BackoffLayer {
            initial_ms: Some(250u64),
            max_ms: Some(30_000u64),
            multiplier: Some(F64Bits(F64_TWO_BITS)),
            jitter: Some(true),
        }),
    })
    &&& l.runtime == Some(empty_runtime_layer())
    &&& l.telemetry is Some && l.telemetry->0.enabled == Some(true)
    &&& l.telemetry->0.exporter is Some && l.telemetry->0.exporter->0@ == "none"@
    &&& l.telemetry->0.endpoint is None && l.telemetry->0.sampling == Some(F32Bits(F32_ONE_BITS))
    &&& l.network is Some && l.network->0.proxy_url is None
    &&& l.network->0.tls_mode is Some && l.network->0.tls_mode->0@ == "system"@
    &&& l.network->0.connect_timeout_ms is None && l.network->0.read_timeout_ms is None
    &&& l.deployer is Some && l.deployer->0.provider is None
    &&& l.deployer->0.base_domain is Some && l.deployer->0.base_domain->0@ == "deploy.greentic.ai"@
    &&& l.secrets is Some && l.secrets->0.reference is None
    &&& l.secrets->0.kind is Some && l.secrets->0.kind->0@ == "none"@
    &&& l.packs is None
    &&& l.dev is None
}

/// The defaults layer for the project root `root` with default layout `defaults`.
pub fn default_layer(root: &str, defaults: &DefaultPaths) -> (l: ConfigLayer)
    ensures
        is_default_layer(l, root@, *defaults),
{
    ConfigLayer {
        schema_version: Some(ConfigVersion::v1()),
        environment: Some(EnvironmentLayer { env_id: Some(default_env_id()), deployment: None, connection: None, region: None }),
        paths: Some(PathsLayer {
            greentic_root: Some(owned(root)),
            state_dir: Some(defaults.state_dir.clone()),
            cache_dir: Some(defaults.cache_dir.clone()),
            logs_dir: Some(defaults.logs_dir.clone()),
        }),
        services: None,
        events: Some(EventsLayer {
            reconnect: Some(ReconnectLayer { enabled: Some(true), max_retries: Some(50) }),
            backoff: Some(BackoffLayer {
                initial_ms: Some(250),
                max_ms: Some(30_000),
                multiplier: Some(F64Bits(F64_TWO_BITS)),
                jitter: Some(true),
            }),
        }),
        runtime: Some(RuntimeLayer::empty()),
        telemetry: Some(TelemetryLayer {
            enabled: Some(true),
            exporter: Some(owned("none")),
            endpoint: None,
            sampling: Some(F32Bits(F32_ONE_BITS)),
        }),
        network: Some(NetworkLayer { proxy_url: None, tls_mode: Some(owned("system")), connect_timeout_ms: None, read_timeout_ms: None }),
        deployer: Some(DeployerLayer { base_domain: Some(owned(DEFAULT_DEPLOYER_BASE_DOMAIN)), provider: None }),
        secrets: Some(SecretsBackendRefLayer { kind: Some(owned("none")), reference: None }),
        packs: None,
        dev: None,
    }
}

} // verus!
