//! Configuration layers read from `GREENTIC_*` environment variables.
use vstd::prelude::*;
use crate::layers::{
    empty_admin_endpoints_layer, empty_backoff_layer, empty_config_layer, empty_dev_layer, empty_environment_layer,
    empty_events_layer, empty_metrics_layer, empty_network_layer, empty_paths_layer, empty_reconnect_layer,
    empty_runtime_layer, empty_secrets_backend_ref_layer, empty_service_config_layer, empty_service_endpoint_layer,
    empty_service_layer, empty_services_layer, empty_telemetry_layer, AdminEndpointsLayer, BackoffLayer, ConfigLayer,
    DevLayer, EnvironmentLayer, EventsLayer, MetricsLayer, NetworkLayer, PathsLayer, ReconnectLayer, RuntimeLayer,
    SecretsBackendRefLayer, ServiceConfigLayer, ServiceEndpointLayer, ServiceLayer, ServiceTransportLayer, ServicesLayer,
    TelemetryLayer,
};
use crate::numbers::{bool_of, decimal_at_most, parse_bool, parse_u16, parse_u32, parse_u64};
use crate::resolve::{push_warning, strings_view};
use crate::text::{chars_eq, chars_of, concat, has_prefix, owned, starts_with};
use crate::types::{ConfigVersion, ConnectionKind, EnvId, F32Bits, F64Bits};
use crate::validate::valid_identifier;
use crate::weburl::{url_parse_result, Url};

verus! {

/// A value read as a binary32 number where floating point is available: the number, and
/// the same number widened to binary64.
#[derive(Debug, Clone, Copy, PartialEq, Eq, Structural)]
pub struct FloatReading {
    pub as_f32: F32Bits,
    pub as_f64: F64Bits,
}

/// One environment variable, with its value read as a binary32 number when it is one.
#[derive(Debug, Clone, PartialEq, Eq)]
pub struct EnvVar {
    pub key: String,
    pub value: String,
    pub float: Option<FloatReading>,
}

/// A service that environment variables can configure.
#[derive(Debug, Clone, Copy, PartialEq, Eq, Structural)]
pub enum ServiceSlot {
    Runner,
    Deployer,
    EventsTransport,
    Source,
    Publish,
    Metadata,
    OauthBroker,
}

/// A setting of a service that environment variables can configure.
#[derive(Debug, Clone, Copy, PartialEq, Eq, Structural)]
pub enum ServiceLeaf {
    Kind,
    Url,
    BindAddr,
    Port,
    PublicBaseUrl,
    MetricsEnabled,
    MetricsBindAddr,
    MetricsPort,
    MetricsPath,
}

/// The configuration leaf an environment variable sets.
#[derive(Debug, Clone, Copy, PartialEq, Eq, Structural)]
pub enum EnvTarget {
    SchemaVersion,
    EnvironmentEnvId,
    EnvironmentDeployment,
    EnvironmentConnection,
    EnvironmentRegion,
    PathsGreenticRoot,
    PathsStateDir,
    PathsCacheDir,
    PathsLogsDir,
    ServicesEventsUrl,
    Service(ServiceSlot, ServiceLeaf),
    RuntimeMaxConcurrency,
    RuntimeTaskTimeoutMs,
    RuntimeShutdownGraceMs,
    RuntimeAdminSecretsExplainEnabled,
    TelemetryEnabled,
    TelemetryExporter,
    TelemetryEndpoint,
    TelemetrySampling,
    NetworkProxyUrl,
    NetworkTlsMode,
    NetworkConnectTimeoutMs,
    NetworkReadTimeoutMs,
    SecretsKind,
    SecretsReference,
    DevDefaultEnv,
    DevDefaultTenant,
    DevDefaultTeam,
    EventsReconnectEnabled,
    EventsReconnectMaxRetries,
    EventsBackoffInitialMs,
    EventsBackoffMaxMs,
    EventsBackoffMultiplier,
    EventsBackoffJitter,
}

/// A leaf value, of whichever type the leaf has.
pub enum EnvLeaf {
    Text(Option<String>),
    Version(Option<ConfigVersion>),
    Env(Option<EnvId>),
    Deployment(Option<greentic_types::DeploymentCtx>),
    Connection(Option<ConnectionKind>),
    Link(Option<Url>),
    Number64(Option<u64>),
    Number32(Option<u32>),
    Number16(Option<u16>),
    Flag(Option<bool>),
    Ratio(Option<F32Bits>),
    Factor(Option<F64Bits>),
}

/// The leaf the environment variable `key` sets, if it is one of the supported variables.
pub open spec fn env_target(key: Seq<char>) -> Option<EnvTarget> {
    if key == "GREENTIC_SCHEMA_VERSION"@ {
        Some(EnvTarget::SchemaVersion)
    } else if key == "GREENTIC_ENVIRONMENT_ENV_ID"@ {
        Some(EnvTarget::EnvironmentEnvId)
    } else if key == "GREENTIC_ENVIRONMENT_DEPLOYMENT"@ {
        Some(EnvTarget::EnvironmentDeployment)
    } else if key == "GREENTIC_ENVIRONMENT_CONNECTION"@ {
        Some(EnvTarget::EnvironmentConnection)
    } else if key == "GREENTIC_ENVIRONMENT_REGION"@ {
        Some(EnvTarget::EnvironmentRegion)
    } else if key == "GREENTIC_PATHS_GREENTIC_ROOT"@ {
        Some(EnvTarget::PathsGreenticRoot)
    } else if key == "GREENTIC_PATHS_STATE_DIR"@ {
        Some(EnvTarget::PathsStateDir)
    } else if key == "GREENTIC_PATHS_CACHE_DIR"@ {
        Some(EnvTarget::PathsCacheDir)
    } else if key == "GREENTIC_PATHS_LOGS_DIR"@ {
        Some(EnvTarget::PathsLogsDir)
    } else if key == "GREENTIC_SERVICES_EVENTS_URL"@ {
        Some(EnvTarget::ServicesEventsUrl)
    } else if key == "GREENTIC_SERVICES_RUNNER_KIND"@ {
        Some(EnvTarget::Service(ServiceSlot::Runner, ServiceLeaf::Kind))
    } else if key == "GREENTIC_SERVICES_RUNNER_URL"@ {
        Some(EnvTarget::Service(ServiceSlot::Runner, ServiceLeaf::Url))
    } else if key == "GREENTIC_SERVICES_RUNNER_BIND_ADDR"@ {
        Some(EnvTarget::Service(ServiceSlot::Runner, ServiceLeaf::BindAddr))
    } else if key == "GREENTIC_SERVICES_RUNNER_PORT"@ {
        Some(EnvTarget::Service(ServiceSlot::Runner, ServiceLeaf::Port))
    } else if key == "GREENTIC_SERVICES_RUNNER_PUBLIC_BASE_URL"@ {
        Some(EnvTarget::Service(ServiceSlot::Runner, ServiceLeaf::PublicBaseUrl))
    } else if key == "GREENTIC_SERVICES_RUNNER_METRICS_ENABLED"@ {
        Some(EnvTarget::Service(ServiceSlot::Runner, ServiceLeaf::MetricsEnabled))
    } else if key == "GREENTIC_SERVICES_RUNNER_METRICS_BIND_ADDR"@ {
        Some(EnvTarget::Service(ServiceSlot::Runner, ServiceLeaf::MetricsBindAddr))
    } else if key == "GREENTIC_SERVICES_RUNNER_METRICS_PORT"@ {
        Some(EnvTarget::Service(ServiceSlot::Runner, ServiceLeaf::MetricsPort))
    } else if key == "GREENTIC_SERVICES_RUNNER_METRICS_PATH"@ {
        Some(EnvTarget::Service(ServiceSlot::Runner, ServiceLeaf::MetricsPath))
    } else if key == "GREENTIC_SERVICES_DEPLOYER_KIND"@ {
        Some(EnvTarget::Service(ServiceSlot::Deployer, ServiceLeaf::Kind))
    } else if key == "GREENTIC_SERVICES_DEPLOYER_URL"@ {
        Some(EnvTarget::Service(ServiceSlot::Deployer, ServiceLeaf::Url))
    } else if key == "GREENTIC_SERVICES_DEPLOYER_BIND_ADDR"@ {
        Some(EnvTarget::Service(ServiceSlot::Deployer, ServiceLeaf::BindAddr))
    } else if key == "GREENTIC_SERVICES_DEPLOYER_PORT"@ {
        Some(EnvTarget::Service(ServiceSlot::Deployer, ServiceLeaf::Port))
    } else if key == "GREENTIC_SERVICES_DEPLOYER_PUBLIC_BASE_URL"@ {
        Some(EnvTarget::Service(ServiceSlot::Deployer, ServiceLeaf::PublicBaseUrl))
    } else if key == "GREENTIC_SERVICES_DEPLOYER_METRICS_ENABLED"@ {
        Some(EnvTarget::Service(ServiceSlot::Deployer, ServiceLeaf::MetricsEnabled))
    } else if key == "GREENTIC_SERVICES_DEPLOYER_METRICS_BIND_ADDR"@ {
        Some(EnvTarget::Service(ServiceSlot::Deployer, ServiceLeaf::MetricsBindAddr))
    } else if key == "GREENTIC_SERVICES_DEPLOYER_METRICS_PORT"@ {
        Some(EnvTarget::Service(ServiceSlot::Deployer, ServiceLeaf::MetricsPort))
    } else if key == "GREENTIC_SERVICES_DEPLOYER_METRICS_PATH"@ {
        Some(EnvTarget::Service(ServiceSlot::Deployer, ServiceLeaf::MetricsPath))
    } else if key == "GREENTIC_SERVICES_EVENTS_TRANSPORT_KIND"@ {
        Some(EnvTarget::Service(ServiceSlot::EventsTransport, ServiceLeaf::Kind))
    } else if key == "GREENTIC_SERVICES_EVENTS_TRANSPORT_URL"@ {
        Some(EnvTarget::Service(ServiceSlot::EventsTransport, ServiceLeaf::Url))
    } else if key == "GREENTIC_SERVICES_EVENTS_TRANSPORT_BIND_ADDR"@ {
        Some(EnvTarget::Service(ServiceSlot::EventsTransport, ServiceLeaf::BindAddr))
    } else if key == "GREENTIC_SERVICES_EVENTS_TRANSPORT_PORT"@ {
        Some(EnvTarget::Service(ServiceSlot::EventsTransport, ServiceLeaf::Port))
    } else if key == "GREENTIC_SERVICES_EVENTS_TRANSPORT_PUBLIC_BASE_URL"@ {
        Some(EnvTarget::Service(ServiceSlot::EventsTransport, ServiceLeaf::PublicBaseUrl))
    } else if key == "GREENTIC_SERVICES_EVENTS_TRANSPORT_METRICS_ENABLED"@ {
        Some(EnvTarget::Service(ServiceSlot::EventsTransport, ServiceLeaf::MetricsEnabled))
    } else if key == "GREENTIC_SERVICES_EVENTS_TRANSPORT_METRICS_BIND_ADDR"@ {
        Some(EnvTarget::Service(ServiceSlot::EventsTransport, ServiceLeaf::MetricsBindAddr))
    } else if key == "GREENTIC_SERVICES_EVENTS_TRANSPORT_METRICS_PORT"@ {
        Some(EnvTarget::Service(ServiceSlot::EventsTransport, ServiceLeaf::MetricsPort))
    } else if key == "GREENTIC_SERVICES_EVENTS_TRANSPORT_METRICS_PATH"@ {
        Some(EnvTarget::Service(ServiceSlot::EventsTransport, ServiceLeaf::MetricsPath))
    } else if key == "GREENTIC_SERVICES_SOURCE_KIND"@ {
        Some(EnvTarget::Service(ServiceSlot::Source, ServiceLeaf::Kind))
    } else if key == "GREENTIC_SERVICES_SOURCE_URL"@ {
        Some(EnvTarget::Service(ServiceSlot::Source, ServiceLeaf::Url))
    } else if key == "GREENTIC_SERVICES_SOURCE_BIND_ADDR"@ {
        Some(EnvTarget::Service(ServiceSlot::Source, ServiceLeaf::BindAddr))
    } else if key == "GREENTIC_SERVICES_SOURCE_PORT"@ {
        Some(EnvTarget::Service(ServiceSlot::Source, ServiceLeaf::Port))
    } else if key == "GREENTIC_SERVICES_SOURCE_PUBLIC_BASE_URL"@ {
        Some(EnvTarget::Service(ServiceSlot::Source, ServiceLeaf::PublicBaseUrl))
    } else if key == "GREENTIC_SERVICES_SOURCE_METRICS_ENABLED"@ {
        Some(EnvTarget::Service(ServiceSlot::Source, ServiceLeaf::MetricsEnabled))
    } else if key == "GREENTIC_SERVICES_SOURCE_METRICS_BIND_ADDR"@ {
        Some(EnvTarget::Service(ServiceSlot::Source, ServiceLeaf::MetricsBindAddr))
    } else if key == "GREENTIC_SERVICES_SOURCE_METRICS_PORT"@ {
        Some(EnvTarget::Service(ServiceSlot::Source, ServiceLeaf::MetricsPort))
    } else if key == "GREENTIC_SERVICES_SOURCE_METRICS_PATH"@ {
        Some(EnvTarget::Service(ServiceSlot::Source, ServiceLeaf::MetricsPath))
    } else if key == "GREENTIC_SERVICES_PUBLISH_KIND"@ {
        Some(EnvTarget::Service(ServiceSlot::Publish, ServiceLeaf::Kind))
    } else if key == "GREENTIC_SERVICES_PUBLISH_URL"@ {
        Some(EnvTarget::Service(ServiceSlot::Publish, ServiceLeaf::Url))
    } else if key == "GREENTIC_SERVICES_PUBLISH_BIND_ADDR"@ {
        Some(EnvTarget::Service(ServiceSlot::Publish, ServiceLeaf::BindAddr))
    } else if key == "GREENTIC_SERVICES_PUBLISH_PORT"@ {
        Some(EnvTarget::Service(ServiceSlot::Publish, ServiceLeaf::Port))
    } else if key == "GREENTIC_SERVICES_PUBLISH_PUBLIC_BASE_URL"@ {
        Some(EnvTarget::Service(ServiceSlot::Publish, ServiceLeaf::PublicBaseUrl))
    } else if key == "GREENTIC_SERVICES_PUBLISH_METRICS_ENABLED"@ {
        Some(EnvTarget::Service(ServiceSlot::Publish, ServiceLeaf::MetricsEnabled))
    } else if key == "GREENTIC_SERVICES_PUBLISH_METRICS_BIND_ADDR"@ {
        Some(EnvTarget::Service(ServiceSlot::Publish, ServiceLeaf::MetricsBindAddr))
    } else if key == "GREENTIC_SERVICES_PUBLISH_METRICS_PORT"@ {
        Some(EnvTarget::Service(ServiceSlot::Publish, ServiceLeaf::MetricsPort))
    } else if key == "GREENTIC_SERVICES_PUBLISH_METRICS_PATH"@ {
        Some(EnvTarget::Service(ServiceSlot::Publish, ServiceLeaf::MetricsPath))
    } else if key == "GREENTIC_SERVICES_METADATA_KIND"@ {
        Some(EnvTarget::Service(ServiceSlot::Metadata, ServiceLeaf::Kind))
    } else if key == "GREENTIC_SERVICES_METADATA_URL"@ {
        Some(EnvTarget::Service(ServiceSlot::Metadata, ServiceLeaf::Url))
    } else if key == "GREENTIC_SERVICES_METADATA_BIND_ADDR"@ {
        Some(EnvTarget::Service(ServiceSlot::Metadata, ServiceLeaf::BindAddr))
    } else if key == "GREENTIC_SERVICES_METADATA_PORT"@ {
        Some(EnvTarget::Service(ServiceSlot::Metadata, ServiceLeaf::Port))
    } else if key == "GREENTIC_SERVICES_METADATA_PUBLIC_BASE_URL"@ {
        Some(EnvTarget::Service(ServiceSlot::Metadata, ServiceLeaf::PublicBaseUrl))
    } else if key == "GREENTIC_SERVICES_METADATA_METRICS_ENABLED"@ {
        Some(EnvTarget::Service(ServiceSlot::Metadata, ServiceLeaf::MetricsEnabled))
    } else if key == "GREENTIC_SERVICES_METADATA_METRICS_BIND_ADDR"@ {
        Some(EnvTarget::Service(ServiceSlot::Metadata, ServiceLeaf::MetricsBindAddr))
    } else if key == "GREENTIC_SERVICES_METADATA_METRICS_PORT"@ {
        Some(EnvTarget::Service(ServiceSlot::Metadata, ServiceLeaf::MetricsPort))
    } else if key == "GREENTIC_SERVICES_METADATA_METRICS_PATH"@ {
        Some(EnvTarget::Service(ServiceSlot::Metadata, ServiceLeaf::MetricsPath))
    } else if key == "GREENTIC_SERVICES_OAUTH_BROKER_KIND"@ {
        Some(EnvTarget::Service(ServiceSlot::OauthBroker, ServiceLeaf::Kind))
    } else if key == "GREENTIC_SERVICES_OAUTH_BROKER_URL"@ {
        Some(EnvTarget::Service(ServiceSlot::OauthBroker, ServiceLeaf::Url))
    } else if key == "GREENTIC_SERVICES_OAUTH_BROKER_BIND_ADDR"@ {
        Some(EnvTarget::Service(ServiceSlot::OauthBroker, ServiceLeaf::BindAddr))
    } else if key == "GREENTIC_SERVICES_OAUTH_BROKER_PORT"@ {
        Some(EnvTarget::Service(ServiceSlot::OauthBroker, ServiceLeaf::Port))
    } else if key == "GREENTIC_SERVICES_OAUTH_BROKER_PUBLIC_BASE_URL"@ {
        Some(EnvTarget::Service(ServiceSlot::OauthBroker, ServiceLeaf::PublicBaseUrl))
    } else if key == "GREENTIC_SERVICES_OAUTH_BROKER_METRICS_ENABLED"@ {
        Some(EnvTarget::Service(ServiceSlot::OauthBroker, ServiceLeaf::MetricsEnabled))
    } else if key == "GREENTIC_SERVICES_OAUTH_BROKER_METRICS_BIND_ADDR"@ {
        Some(EnvTarget::Service(ServiceSlot::OauthBroker, ServiceLeaf::MetricsBindAddr))
    } else if key == "GREENTIC_SERVICES_OAUTH_BROKER_METRICS_PORT"@ {
        Some(EnvTarget::Service(ServiceSlot::OauthBroker, ServiceLeaf::MetricsPort))
    } else if key == "GREENTIC_SERVICES_OAUTH_BROKER_METRICS_PATH"@ {
        Some(EnvTarget::Service(ServiceSlot::OauthBroker, ServiceLeaf::MetricsPath))
    } else if key == "GREENTIC_RUNTIME_MAX_CONCURRENCY"@ {
        Some(EnvTarget::RuntimeMaxConcurrency)
    } else if key == "GREENTIC_RUNTIME_TASK_TIMEOUT_MS"@ {
        Some(EnvTarget::RuntimeTaskTimeoutMs)
    } else if key == "GREENTIC_RUNTIME_SHUTDOWN_GRACE_MS"@ {
        Some(EnvTarget::RuntimeShutdownGraceMs)
    } else if key == "GREENTIC_RUNTIME_ADMIN_SECRETS_EXPLAIN_ENABLED"@ {
        Some(EnvTarget::RuntimeAdminSecretsExplainEnabled)
    } else if key == "GREENTIC_TELEMETRY_ENABLED"@ {
        Some(EnvTarget::TelemetryEnabled)
    } else if key == "GREENTIC_TELEMETRY_EXPORTER"@ {
        Some(EnvTarget::TelemetryExporter)
    } else if key == "GREENTIC_TELEMETRY_ENDPOINT"@ {
        Some(EnvTarget::TelemetryEndpoint)
    } else if key == "GREENTIC_TELEMETRY_SAMPLING"@ {
        Some(EnvTarget::TelemetrySampling)
    } else if key == "GREENTIC_NETWORK_PROXY_URL"@ {
        Some(EnvTarget::NetworkProxyUrl)
    } else if key == "GREENTIC_NETWORK_TLS_MODE"@ {
        Some(EnvTarget::NetworkTlsMode)
    } else if key == "GREENTIC_NETWORK_CONNECT_TIMEOUT_MS"@ {
        Some(EnvTarget::NetworkConnectTimeoutMs)
    } else if key == "GREENTIC_NETWORK_READ_TIMEOUT_MS"@ {
        Some(EnvTarget::NetworkReadTimeoutMs)
    } else if key == "GREENTIC_SECRETS_KIND"@ {
        Some(EnvTarget::SecretsKind)
    } else if key == "GREENTIC_SECRETS_REFERENCE"@ {
        Some(EnvTarget::SecretsReference)
    } else if key == "GREENTIC_DEV_DEFAULT_ENV"@ {
        Some(EnvTarget::DevDefaultEnv)
    } else if key == "GREENTIC_DEV_DEFAULT_TENANT"@ {
        Some(EnvTarget::DevDefaultTenant)
    } else if key == "GREENTIC_DEV_DEFAULT_TEAM"@ {
        Some(EnvTarget::DevDefaultTeam)
    } else if key == "GREENTIC_EVENTS_RECONNECT_ENABLED"@ {
        Some(EnvTarget::EventsReconnectEnabled)
    } else if key == "GREENTIC_EVENTS_RECONNECT_MAX_RETRIES"@ {
        Some(EnvTarget::EventsReconnectMaxRetries)
    } else if key == "GREENTIC_EVENTS_BACKOFF_INITIAL_MS"@ {
        Some(EnvTarget::EventsBackoffInitialMs)
    } else if key == "GREENTIC_EVENTS_BACKOFF_MAX_MS"@ {
        Some(EnvTarget::EventsBackoffMaxMs)
    } else if key == "GREENTIC_EVENTS_BACKOFF_MULTIPLIER"@ {
        Some(EnvTarget::EventsBackoffMultiplier)
    } else if key == "GREENTIC_EVENTS_BACKOFF_JITTER"@ {
        Some(EnvTarget::EventsBackoffJitter)
    } else {
        None
    }
}

/// The leaf the environment variable `key` sets, if it is one of the supported variables.
pub fn env_target_of(key: &str) -> (r: Option<EnvTarget>)
    ensures
        r == env_target(key@),
{
    let k = chars_of(key);
    if chars_eq(&k, &chars_of("GREENTIC_SCHEMA_VERSION")) {
        return Some(EnvTarget::SchemaVersion);
    }
    if chars_eq(&k, &chars_of("GREENTIC_ENVIRONMENT_ENV_ID")) {
        return Some(EnvTarget::EnvironmentEnvId);
    }
    if chars_eq(&k, &chars_of("GREENTIC_ENVIRONMENT_DEPLOYMENT")) {
        return Some(EnvTarget::EnvironmentDeployment);
    }
    if chars_eq(&k, &chars_of("GREENTIC_ENVIRONMENT_CONNECTION")) {
        return Some(EnvTarget::EnvironmentConnection);
    }
    if chars_eq(&k, &chars_of("GREENTIC_ENVIRONMENT_REGION")) {
        return Some(EnvTarget::EnvironmentRegion);
    }
    if chars_eq(&k, &chars_of("GREENTIC_PATHS_GREENTIC_ROOT")) {
        return Some(EnvTarget::PathsGreenticRoot);
    }
    if chars_eq(&k, &chars_of("GREENTIC_PATHS_STATE_DIR")) {
        return Some(EnvTarget::PathsStateDir);
    }
    if chars_eq(&k, &chars_of("GREENTIC_PATHS_CACHE_DIR")) {
        return Some(EnvTarget::PathsCacheDir);
    }
    if chars_eq(&k, &chars_of("GREENTIC_PATHS_LOGS_DIR")) {
        return Some(EnvTarget::PathsLogsDir);
    }
    if chars_eq(&k, &chars_of("GREENTIC_SERVICES_EVENTS_URL")) {
        return Some(EnvTarget::ServicesEventsUrl);
    }
    if chars_eq(&k, &chars_of("GREENTIC_SERVICES_RUNNER_KIND")) {
        return Some(EnvTarget::Service(ServiceSlot::Runner, ServiceLeaf::Kind));
    }
    if chars_eq(&k, &chars_of("GREENTIC_SERVICES_RUNNER_URL")) {
        return Some(EnvTarget::Service(ServiceSlot::Runner, ServiceLeaf::Url));
    }
    if chars_eq(&k, &chars_of("GREENTIC_SERVICES_RUNNER_BIND_ADDR")) {
        return Some(EnvTarget::Service(ServiceSlot::Runner, ServiceLeaf::BindAddr));
    }
    if chars_eq(&k, &chars_of("GREENTIC_SERVICES_RUNNER_PORT")) {
        return Some(EnvTarget::Service(ServiceSlot::Runner, ServiceLeaf::Port));
    }
    if chars_eq(&k, &chars_of("GREENTIC_SERVICES_RUNNER_PUBLIC_BASE_URL")) {
        return Some(EnvTarget::Service(ServiceSlot::Runner, ServiceLeaf::PublicBaseUrl));
    }
    if chars_eq(&k, &chars_of("GREENTIC_SERVICES_RUNNER_METRICS_ENABLED")) {
        return Some(EnvTarget::Service(ServiceSlot::Runner, ServiceLeaf::MetricsEnabled));
    }
    if chars_eq(&k, &chars_of("GREENTIC_SERVICES_RUNNER_METRICS_BIND_ADDR")) {
        return Some(EnvTarget::Service(ServiceSlot::Runner, ServiceLeaf::MetricsBindAddr));
    }
    if chars_eq(&k, &chars_of("GREENTIC_SERVICES_RUNNER_METRICS_PORT")) {
        return Some(EnvTarget::Service(ServiceSlot::Runner, ServiceLeaf::MetricsPort));
    }
    if chars_eq(&k, &chars_of("GREENTIC_SERVICES_RUNNER_METRICS_PATH")) {
        return Some(EnvTarget::Service(ServiceSlot::Runner, ServiceLeaf::MetricsPath));
    }
    if chars_eq(&k, &chars_of("GREENTIC_SERVICES_DEPLOYER_KIND")) {
        return Some(EnvTarget::Service(ServiceSlot::Deployer, ServiceLeaf::Kind));
    }
    if chars_eq(&k, &chars_of("GREENTIC_SERVICES_DEPLOYER_URL")) {
        return Some(EnvTarget::Service(ServiceSlot::Deployer, ServiceLeaf::Url));
    }
    if chars_eq(&k, &chars_of("GREENTIC_SERVICES_DEPLOYER_BIND_ADDR")) {
        return Some(EnvTarget::Service(ServiceSlot::Deployer, ServiceLeaf::BindAddr));
    }
    if chars_eq(&k, &chars_of("GREENTIC_SERVICES_DEPLOYER_PORT")) {
        return Some(EnvTarget::Service(ServiceSlot::Deployer, ServiceLeaf::Port));
    }
    if chars_eq(&k, &chars_of("GREENTIC_SERVICES_DEPLOYER_PUBLIC_BASE_URL")) {
        return Some(EnvTarget::Service(ServiceSlot::Deployer, ServiceLeaf::PublicBaseUrl));
    }
    if chars_eq(&k, &chars_of("GREENTIC_SERVICES_DEPLOYER_METRICS_ENABLED")) {
        return Some(EnvTarget::Service(ServiceSlot::Deployer, ServiceLeaf::MetricsEnabled));
    }
    if chars_eq(&k, &chars_of("GREENTIC_SERVICES_DEPLOYER_METRICS_BIND_ADDR")) {
        return Some(EnvTarget::Service(ServiceSlot::Deployer, ServiceLeaf::MetricsBindAddr));
    }
    if chars_eq(&k, &chars_of("GREENTIC_SERVICES_DEPLOYER_METRICS_PORT")) {
        return Some(EnvTarget::Service(ServiceSlot::Deployer, ServiceLeaf::MetricsPort));
    }
    if chars_eq(&k, &chars_of("GREENTIC_SERVICES_DEPLOYER_METRICS_PATH")) {
        return Some(EnvTarget::Service(ServiceSlot::Deployer, ServiceLeaf::MetricsPath));
    }
    if chars_eq(&k, &chars_of("GREENTIC_SERVICES_EVENTS_TRANSPORT_KIND")) {
        return Some(EnvTarget::Service(ServiceSlot::EventsTransport, ServiceLeaf::Kind));
    }
    if chars_eq(&k, &chars_of("GREENTIC_SERVICES_EVENTS_TRANSPORT_URL")) {
        return Some(EnvTarget::Service(ServiceSlot::EventsTransport, ServiceLeaf::Url));
    }
    if chars_eq(&k, &chars_of("GREENTIC_SERVICES_EVENTS_TRANSPORT_BIND_ADDR")) {
        return Some(EnvTarget::Service(ServiceSlot::EventsTransport, ServiceLeaf::BindAddr));
    }
    if chars_eq(&k, &chars_of("GREENTIC_SERVICES_EVENTS_TRANSPORT_PORT")) {
        return Some(EnvTarget::Service(ServiceSlot::EventsTransport, ServiceLeaf::Port));
    }
    if chars_eq(&k, &chars_of("GREENTIC_SERVICES_EVENTS_TRANSPORT_PUBLIC_BASE_URL")) {
        return Some(EnvTarget::Service(ServiceSlot::EventsTransport, ServiceLeaf::PublicBaseUrl));
    }
    if chars_eq(&k, &chars_of("GREENTIC_SERVICES_EVENTS_TRANSPORT_METRICS_ENABLED")) {
        return Some(EnvTarget::Service(ServiceSlot::EventsTransport, ServiceLeaf::MetricsEnabled));
    }
    if chars_eq(&k, &chars_of("GREENTIC_SERVICES_EVENTS_TRANSPORT_METRICS_BIND_ADDR")) {
        return Some(EnvTarget::Service(ServiceSlot::EventsTransport, ServiceLeaf::MetricsBindAddr));
    }
    if chars_eq(&k, &chars_of("GREENTIC_SERVICES_EVENTS_TRANSPORT_METRICS_PORT")) {
        return Some(EnvTarget::Service(ServiceSlot::EventsTransport, ServiceLeaf::MetricsPort));
    }
    if chars_eq(&k, &chars_of("GREENTIC_SERVICES_EVENTS_TRANSPORT_METRICS_PATH")) {
        return Some(EnvTarget::Service(ServiceSlot::EventsTransport, ServiceLeaf::MetricsPath));
    }
    if chars_eq(&k, &chars_of("GREENTIC_SERVICES_SOURCE_KIND")) {
        return Some(EnvTarget::Service(ServiceSlot::Source, ServiceLeaf::Kind));
    }
    if chars_eq(&k, &chars_of("GREENTIC_SERVICES_SOURCE_URL")) {
        return Some(EnvTarget::Service(ServiceSlot::Source, ServiceLeaf::Url));
    }
    if chars_eq(&k, &chars_of("GREENTIC_SERVICES_SOURCE_BIND_ADDR")) {
        return Some(EnvTarget::Service(ServiceSlot::Source, ServiceLeaf::BindAddr));
    }
    if chars_eq(&k, &chars_of("GREENTIC_SERVICES_SOURCE_PORT")) {
        return Some(EnvTarget::Service(ServiceSlot::Source, ServiceLeaf::Port));
    }
    if chars_eq(&k, &chars_of("GREENTIC_SERVICES_SOURCE_PUBLIC_BASE_URL")) {
        return Some(EnvTarget::Service(ServiceSlot::Source, ServiceLeaf::PublicBaseUrl));
    }
    if chars_eq(&k, &chars_of("GREENTIC_SERVICES_SOURCE_METRICS_ENABLED")) {
        return Some(EnvTarget::Service(ServiceSlot::Source, ServiceLeaf::MetricsEnabled));
    }
    if chars_eq(&k, &chars_of("GREENTIC_SERVICES_SOURCE_METRICS_BIND_ADDR")) {
        return Some(EnvTarget::Service(ServiceSlot::Source, ServiceLeaf::MetricsBindAddr));
    }
    if chars_eq(&k, &chars_of("GREENTIC_SERVICES_SOURCE_METRICS_PORT")) {
        return Some(EnvTarget::Service(ServiceSlot::Source, ServiceLeaf::MetricsPort));
    }
    if chars_eq(&k, &chars_of("GREENTIC_SERVICES_SOURCE_METRICS_PATH")) {
        return Some(EnvTarget::Service(ServiceSlot::Source, ServiceLeaf::MetricsPath));
    }
    if chars_eq(&k, &chars_of("GREENTIC_SERVICES_PUBLISH_KIND")) {
        return Some(EnvTarget::Service(ServiceSlot::Publish, ServiceLeaf::Kind));
    }
    if chars_eq(&k, &chars_of("GREENTIC_SERVICES_PUBLISH_URL")) {
        return Some(EnvTarget::Service(ServiceSlot::Publish, ServiceLeaf::Url));
    }
    if chars_eq(&k, &chars_of("GREENTIC_SERVICES_PUBLISH_BIND_ADDR")) {
        return Some(EnvTarget::Service(ServiceSlot::Publish, ServiceLeaf::BindAddr));
    }
    if chars_eq(&k, &chars_of("GREENTIC_SERVICES_PUBLISH_PORT")) {
        return Some(EnvTarget::Service(ServiceSlot::Publish, ServiceLeaf::Port));
    }
    if chars_eq(&k, &chars_of("GREENTIC_SERVICES_PUBLISH_PUBLIC_BASE_URL")) {
        return Some(EnvTarget::Service(ServiceSlot::Publish, ServiceLeaf::PublicBaseUrl));
    }
    if chars_eq(&k, &chars_of("GREENTIC_SERVICES_PUBLISH_METRICS_ENABLED")) {
        return Some(EnvTarget::Service(ServiceSlot::Publish, ServiceLeaf::MetricsEnabled));
    }
    if chars_eq(&k, &chars_of("GREENTIC_SERVICES_PUBLISH_METRICS_BIND_ADDR")) {
        return Some(EnvTarget::Service(ServiceSlot::Publish, ServiceLeaf::MetricsBindAddr));
    }
    if chars_eq(&k, &chars_of("GREENTIC_SERVICES_PUBLISH_METRICS_PORT")) {
        return Some(EnvTarget::Service(ServiceSlot::Publish, ServiceLeaf::MetricsPort));
    }
    if chars_eq(&k, &chars_of("GREENTIC_SERVICES_PUBLISH_METRICS_PATH")) {
        return Some(EnvTarget::Service(ServiceSlot::Publish, ServiceLeaf::MetricsPath));
    }
    if chars_eq(&k, &chars_of("GREENTIC_SERVICES_METADATA_KIND")) {
        return Some(EnvTarget::Service(ServiceSlot::Metadata, ServiceLeaf::Kind));
    }
    if chars_eq(&k, &chars_of("GREENTIC_SERVICES_METADATA_URL")) {
        return Some(EnvTarget::Service(ServiceSlot::Metadata, ServiceLeaf::Url));
    }
    if chars_eq(&k, &chars_of("GREENTIC_SERVICES_METADATA_BIND_ADDR")) {
        return Some(EnvTarget::Service(ServiceSlot::Metadata, ServiceLeaf::BindAddr));
    }
    if chars_eq(&k, &chars_of("GREENTIC_SERVICES_METADATA_PORT")) {
        return Some(EnvTarget::Service(ServiceSlot::Metadata, ServiceLeaf::Port));
    }
    if chars_eq(&k, &chars_of("GREENTIC_SERVICES_METADATA_PUBLIC_BASE_URL")) {
        return Some(EnvTarget::Service(ServiceSlot::Metadata, ServiceLeaf::PublicBaseUrl));
    }
    if chars_eq(&k, &chars_of("GREENTIC_SERVICES_METADATA_METRICS_ENABLED")) {
        return Some(EnvTarget::Service(ServiceSlot::Metadata, ServiceLeaf::MetricsEnabled));
    }
    if chars_eq(&k, &chars_of("GREENTIC_SERVICES_METADATA_METRICS_BIND_ADDR")) {
        return Some(EnvTarget::Service(ServiceSlot::Metadata, ServiceLeaf::MetricsBindAddr));
    }
    if chars_eq(&k, &chars_of("GREENTIC_SERVICES_METADATA_METRICS_PORT")) {
        return Some(EnvTarget::Service(ServiceSlot::Metadata, ServiceLeaf::MetricsPort));
    }
    if chars_eq(&k, &chars_of("GREENTIC_SERVICES_METADATA_METRICS_PATH")) {
        return Some(EnvTarget::Service(ServiceSlot::Metadata, ServiceLeaf::MetricsPath));
    }
    if chars_eq(&k, &chars_of("GREENTIC_SERVICES_OAUTH_BROKER_KIND")) {
        return Some(EnvTarget::Service(ServiceSlot::OauthBroker, ServiceLeaf::Kind));
    }
    if chars_eq(&k, &chars_of("GREENTIC_SERVICES_OAUTH_BROKER_URL")) {
        return Some(EnvTarget::Service(ServiceSlot::OauthBroker, ServiceLeaf::Url));
    }
    if chars_eq(&k, &chars_of("GREENTIC_SERVICES_OAUTH_BROKER_BIND_ADDR")) {
        return Some(EnvTarget::Service(ServiceSlot::OauthBroker, ServiceLeaf::BindAddr));
    }
    if chars_eq(&k, &chars_of("GREENTIC_SERVICES_OAUTH_BROKER_PORT")) {
        return Some(EnvTarget::Service(ServiceSlot::OauthBroker, ServiceLeaf::Port));
    }
    if chars_eq(&k, &chars_of("GREENTIC_SERVICES_OAUTH_BROKER_PUBLIC_BASE_URL")) {
        return Some(EnvTarget::Service(ServiceSlot::OauthBroker, ServiceLeaf::PublicBaseUrl));
    }
    if chars_eq(&k, &chars_of("GREENTIC_SERVICES_OAUTH_BROKER_METRICS_ENABLED")) {
        return Some(EnvTarget::Service(ServiceSlot::OauthBroker, ServiceLeaf::MetricsEnabled));
    }
    if chars_eq(&k, &chars_of("GREENTIC_SERVICES_OAUTH_BROKER_METRICS_BIND_ADDR")) {
        return Some(EnvTarget::Service(ServiceSlot::OauthBroker, ServiceLeaf::MetricsBindAddr));
    }
    if chars_eq(&k, &chars_of("GREENTIC_SERVICES_OAUTH_BROKER_METRICS_PORT")) {
        return Some(EnvTarget::Service(ServiceSlot::OauthBroker, ServiceLeaf::MetricsPort));
    }
    if chars_eq(&k, &chars_of("GREENTIC_SERVICES_OAUTH_BROKER_METRICS_PATH")) {
        return Some(EnvTarget::Service(ServiceSlot::OauthBroker, ServiceLeaf::MetricsPath));
    }
    if chars_eq(&k, &chars_of("GREENTIC_RUNTIME_MAX_CONCURRENCY")) {
        return Some(EnvTarget::RuntimeMaxConcurrency);
    }
    if chars_eq(&k, &chars_of("GREENTIC_RUNTIME_TASK_TIMEOUT_MS")) {
        return Some(EnvTarget::RuntimeTaskTimeoutMs);
    }
    if chars_eq(&k, &chars_of("GREENTIC_RUNTIME_SHUTDOWN_GRACE_MS")) {
        return Some(EnvTarget::RuntimeShutdownGraceMs);
    }
    if chars_eq(&k, &chars_of("GREENTIC_RUNTIME_ADMIN_SECRETS_EXPLAIN_ENABLED")) {
        return Some(EnvTarget::RuntimeAdminSecretsExplainEnabled);
    }
    if chars_eq(&k, &chars_of("GREENTIC_TELEMETRY_ENABLED")) {
        return Some(EnvTarget::TelemetryEnabled);
    }
    if chars_eq(&k, &chars_of("GREENTIC_TELEMETRY_EXPORTER")) {
        return Some(EnvTarget::TelemetryExporter);
    }
    if chars_eq(&k, &chars_of("GREENTIC_TELEMETRY_ENDPOINT")) {
        return Some(EnvTarget::TelemetryEndpoint);
    }
    if chars_eq(&k, &chars_of("GREENTIC_TELEMETRY_SAMPLING")) {
        return Some(EnvTarget::TelemetrySampling);
    }
    if chars_eq(&k, &chars_of("GREENTIC_NETWORK_PROXY_URL")) {
        return Some(EnvTarget::NetworkProxyUrl);
    }
    if chars_eq(&k, &chars_of("GREENTIC_NETWORK_TLS_MODE")) {
        return Some(EnvTarget::NetworkTlsMode);
    }
    if chars_eq(&k, &chars_of("GREENTIC_NETWORK_CONNECT_TIMEOUT_MS")) {
        return Some(EnvTarget::NetworkConnectTimeoutMs);
    }
    if chars_eq(&k, &chars_of("GREENTIC_NETWORK_READ_TIMEOUT_MS")) {
        return Some(EnvTarget::NetworkReadTimeoutMs);
    }
    if chars_eq(&k, &chars_of("GREENTIC_SECRETS_KIND")) {
        return Some(EnvTarget::SecretsKind);
    }
    if chars_eq(&k, &chars_of("GREENTIC_SECRETS_REFERENCE")) {
        return Some(EnvTarget::SecretsReference);
    }
    if chars_eq(&k, &chars_of("GREENTIC_DEV_DEFAULT_ENV")) {
        return Some(EnvTarget::DevDefaultEnv);
    }
    if chars_eq(&k, &chars_of("GREENTIC_DEV_DEFAULT_TENANT")) {
        return Some(EnvTarget::DevDefaultTenant);
    }
    if chars_eq(&k, &chars_of("GREENTIC_DEV_DEFAULT_TEAM")) {
        return Some(EnvTarget::DevDefaultTeam);
    }
    if chars_eq(&k, &chars_of("GREENTIC_EVENTS_RECONNECT_ENABLED")) {
        return Some(EnvTarget::EventsReconnectEnabled);
    }
    if chars_eq(&k, &chars_of("GREENTIC_EVENTS_RECONNECT_MAX_RETRIES")) {
        return Some(EnvTarget::EventsReconnectMaxRetries);
    }
    if chars_eq(&k, &chars_of("GREENTIC_EVENTS_BACKOFF_INITIAL_MS")) {
        return Some(EnvTarget::EventsBackoffInitialMs);
    }
    if chars_eq(&k, &chars_of("GREENTIC_EVENTS_BACKOFF_MAX_MS")) {
        return Some(EnvTarget::EventsBackoffMaxMs);
    }
    if chars_eq(&k, &chars_of("GREENTIC_EVENTS_BACKOFF_MULTIPLIER")) {
        return Some(EnvTarget::EventsBackoffMultiplier);
    }
    if chars_eq(&k, &chars_of("GREENTIC_EVENTS_BACKOFF_JITTER")) {
        return Some(EnvTarget::EventsBackoffJitter);
    }
    None
}

pub open spec fn get_slot(s: ServicesLayer, slot: ServiceSlot) -> Option<ServiceLayer> {
    match slot {
        ServiceSlot::Runner => s.runner,
        ServiceSlot::Deployer => s.deployer,
        ServiceSlot::EventsTransport => s.events_transport,
        ServiceSlot::Source => s.source,
        ServiceSlot::Publish => s.publish,
        ServiceSlot::Metadata => s.metadata,
        ServiceSlot::OauthBroker => s.oauth_broker,
    }
}

pub open spec fn set_slot(s: ServicesLayer, slot: ServiceSlot, v: Option<ServiceLayer>) -> ServicesLayer {
    match slot {
        ServiceSlot::Runner => ServicesLayer { runner: v, ..s },
        ServiceSlot::Deployer => ServicesLayer { deployer: v, ..s },
        ServiceSlot::EventsTransport => ServicesLayer { events_transport: v, ..s },
        ServiceSlot::Source => ServicesLayer { source: v, ..s },
        ServiceSlot::Publish => ServicesLayer { publish: v, ..s },
        ServiceSlot::Metadata => ServicesLayer { metadata: v, ..s },
        ServiceSlot::OauthBroker => ServicesLayer { oauth_broker: v, ..s },
    }
}

fn take_slot(s: &mut ServicesLayer, slot: ServiceSlot) -> (r: ServiceLayer)
    ensures
        r == get_slot(*old(s), slot).unwrap_or(empty_service_layer()),
        *final(s) == set_slot(*old(s), slot, None),
{
    let taken = match slot {
        ServiceSlot::Runner => s.runner.take(),
        ServiceSlot::Deployer => s.deployer.take(),
        ServiceSlot::EventsTransport => s.events_transport.take(),
        ServiceSlot::Source => s.source.take(),
        ServiceSlot::Publish => s.publish.take(),
        ServiceSlot::Metadata => s.metadata.take(),
        ServiceSlot::OauthBroker => s.oauth_broker.take(),
    };
    match taken {
        Some(x) => x,
        None => ServiceLayer::empty(),
    }
}

fn put_slot(s: &mut ServicesLayer, slot: ServiceSlot, v: ServiceLayer)
    ensures
        *final(s) == set_slot(*old(s), slot, Some(v)),
{
    match slot {
        ServiceSlot::Runner => {
            s.runner = Some(v);
        },
        ServiceSlot::Deployer => {
            s.deployer = Some(v);
        },
        ServiceSlot::EventsTransport => {
            s.events_transport = Some(v);
        },
        ServiceSlot::Source => {
            s.source = Some(v);
        },
        ServiceSlot::Publish => {
            s.publish = Some(v);
        },
        ServiceSlot::Metadata => {
            s.metadata = Some(v);
        },
        ServiceSlot::OauthBroker => {
            s.oauth_broker = Some(v);
        },
    }
}

/// `sl` with one setting replaced, creating the enclosing sections as needed.
pub open spec fn set_service_leaf(sl: ServiceLayer, leaf: ServiceLeaf, v: EnvLeaf) -> ServiceLayer {
    let svc = sl.service.unwrap_or(empty_service_config_layer());
    let m = svc.metrics.unwrap_or(empty_metrics_layer());
    match (leaf, v) {
        (ServiceLeaf::Kind, EnvLeaf::Text(x)) => ServiceLayer { transport: ServiceTransportLayer { kind: x, ..sl.transport }, ..sl },
        (ServiceLeaf::Url, EnvLeaf::Link(x)) => ServiceLayer { transport: ServiceTransportLayer { url: x, ..sl.transport }, ..sl },
        (ServiceLeaf::BindAddr, EnvLeaf::Text(x)) => ServiceLayer { service: Some(ServiceConfigLayer { bind_addr: x, ..svc }), ..sl },
        (ServiceLeaf::Port, EnvLeaf::Number16(x)) => ServiceLayer { service: Some(ServiceConfigLayer { port: x, ..svc }), ..sl },
        (ServiceLeaf::PublicBaseUrl, EnvLeaf::Text(x)) => ServiceLayer { service: Some(ServiceConfigLayer { public_base_url: x, ..svc }), ..sl },
        (ServiceLeaf::MetricsEnabled, EnvLeaf::Flag(x)) => ServiceLayer { service: Some(ServiceConfigLayer { metrics: Some(MetricsLayer { enabled: x, ..m }), ..svc }), ..sl },
        (ServiceLeaf::MetricsBindAddr, EnvLeaf::Text(x)) => ServiceLayer { service: Some(ServiceConfigLayer { metrics: Some(MetricsLayer { bind_addr: x, ..m }), ..svc }), ..sl },
        (ServiceLeaf::MetricsPort, EnvLeaf::Number16(x)) => ServiceLayer { service: Some(ServiceConfigLayer { metrics: Some(MetricsLayer { port: x, ..m }), ..svc }), ..sl },
        (ServiceLeaf::MetricsPath, EnvLeaf::Text(x)) => ServiceLayer { service: Some(ServiceConfigLayer { metrics: Some(MetricsLayer { path: x, ..m }), ..svc }), ..sl },
        _ => sl,
    }
}

/// `l` with the leaf `t` replaced by `v`, creating the enclosing sections as needed.
pub open spec fn with_env_leaf(l: ConfigLayer, t: EnvTarget, v: EnvLeaf) -> ConfigLayer {
    match (t, v) {
        (EnvTarget::SchemaVersion, EnvLeaf::Version(x)) => ConfigLayer { schema_version: x, ..l },
        (EnvTarget::EnvironmentEnvId, EnvLeaf::Env(x)) => { let s0 = l.environment.unwrap_or(empty_environment_layer()); ConfigLayer { environment: Some(EnvironmentLayer { env_id: x, ..s0 }), ..l } },
        (EnvTarget::EnvironmentDeployment, EnvLeaf::Deployment(x)) => { let s0 = l.environment.unwrap_or(empty_environment_layer()); ConfigLayer { environment: Some(EnvironmentLayer { deployment: x, ..s0 }), ..l } },
        (EnvTarget::EnvironmentConnection, EnvLeaf::Connection(x)) => { let s0 = l.environment.unwrap_or(empty_environment_layer()); ConfigLayer { environment: Some(EnvironmentLayer { connection: x, ..s0 }), ..l } },
        (EnvTarget::EnvironmentRegion, EnvLeaf::Text(x)) => { let s0 = l.environment.unwrap_or(empty_environment_layer()); ConfigLayer { environment: Some(EnvironmentLayer { region: x, ..s0 }), ..l } },
        (EnvTarget::PathsGreenticRoot, EnvLeaf::Text(x)) => { let s0 = l.paths.unwrap_or(empty_paths_layer()); ConfigLayer { paths: Some(PathsLayer { greentic_root: x, ..s0 }), ..l } },
        (EnvTarget::PathsStateDir, EnvLeaf::Text(x)) => { let s0 = l.paths.unwrap_or(empty_paths_layer()); ConfigLayer { paths: Some(PathsLayer { state_dir: x, ..s0 }), ..l } },
        (EnvTarget::PathsCacheDir, EnvLeaf::Text(x)) => { let s0 = l.paths.unwrap_or(empty_paths_layer()); ConfigLayer { paths: Some(PathsLayer { cache_dir: x, ..s0 }), ..l } },
        (EnvTarget::PathsLogsDir, EnvLeaf::Text(x)) => { let s0 = l.paths.unwrap_or(empty_paths_layer()); ConfigLayer { paths: Some(PathsLayer { logs_dir: x, ..s0 }), ..l } },
        (EnvTarget::ServicesEventsUrl, EnvLeaf::Link(x)) => { let s0 = l.services.unwrap_or(empty_services_layer()); let s1 = s0.events.unwrap_or(empty_service_endpoint_layer()); ConfigLayer { services: Some(ServicesLayer { events: Some(ServiceEndpointLayer { url: x, ..s1 }), ..s0 }), ..l } },
        (EnvTarget::Service(slot, leaf), v) => {
            let s = l.services.unwrap_or(empty_services_layer());
            ConfigLayer { services: Some(set_slot(s, slot, Some(set_service_leaf(get_slot(s, slot).unwrap_or(empty_service_layer()), leaf, v)))), ..l }
        },
        (EnvTarget::RuntimeMaxConcurrency, EnvLeaf::Number32(x)) => { let s0 = l.runtime.unwrap_or(empty_runtime_layer()); ConfigLayer { runtime: Some(RuntimeLayer { max_concurrency: x, ..s0 }), ..l } },
        (EnvTarget::RuntimeTaskTimeoutMs, EnvLeaf::Number64(x)) => { let s0 = l.runtime.unwrap_or(empty_runtime_layer()); ConfigLayer { runtime: Some(RuntimeLayer { task_timeout_ms: x, ..s0 }), ..l } },
        (EnvTarget::RuntimeShutdownGraceMs, EnvLeaf::Number64(x)) => { let s0 = l.runtime.unwrap_or(empty_runtime_layer()); ConfigLayer { runtime: Some(RuntimeLayer { shutdown_grace_ms: x, ..s0 }), ..l } },
        (EnvTarget::RuntimeAdminSecretsExplainEnabled, EnvLeaf::Flag(x)) => { let s0 = l.runtime.unwrap_or(empty_runtime_layer()); let s1 = s0.admin_endpoints.unwrap_or(empty_admin_endpoints_layer()); ConfigLayer { runtime: Some(RuntimeLayer { admin_endpoints: Some(AdminEndpointsLayer { secrets_explain_enabled: x, ..s1 }), ..s0 }), ..l } },
        (EnvTarget::TelemetryEnabled, EnvLeaf::Flag(x)) => { let s0 = l.telemetry.unwrap_or(empty_telemetry_layer()); ConfigLayer { telemetry: Some(TelemetryLayer { enabled: x, ..s0 }), ..l } },
        (EnvTarget::TelemetryExporter, EnvLeaf::Text(x)) => { let s0 = l.telemetry.unwrap_or(empty_telemetry_layer()); ConfigLayer { telemetry: Some(TelemetryLayer { exporter: x, ..s0 }), ..l } },
        (EnvTarget::TelemetryEndpoint, EnvLeaf::Text(x)) => { let s0 = l.telemetry.unwrap_or(empty_telemetry_layer()); ConfigLayer { telemetry: Some(TelemetryLayer { endpoint: x, ..s0 }), ..l } },
        (EnvTarget::TelemetrySampling, EnvLeaf::Ratio(x)) => { let s0 = l.telemetry.unwrap_or(empty_telemetry_layer()); ConfigLayer { telemetry: Some(TelemetryLayer { sampling: x, ..s0 }), ..l } },
        (EnvTarget::NetworkProxyUrl, EnvLeaf::Text(x)) => { let s0 = l.network.unwrap_or(empty_network_layer()); ConfigLayer { network: Some(NetworkLayer { proxy_url: x, ..s0 }), ..l } },
        (EnvTarget::NetworkTlsMode, EnvLeaf::Text(x)) => { let s0 = l.network.unwrap_or(empty_network_layer()); ConfigLayer { network: Some(NetworkLayer { tls_mode: x, ..s0 }), ..l } },
        (EnvTarget::NetworkConnectTimeoutMs, EnvLeaf::Number64(x)) => { let s0 = l.network.unwrap_or(empty_network_layer()); ConfigLayer { network: Some(NetworkLayer { connect_timeout_ms: x, ..s0 }), ..l } },
        (EnvTarget::NetworkReadTimeoutMs, EnvLeaf::Number64(x)) => { let s0 = l.network.unwrap_or(empty_network_layer()); ConfigLayer { network: Some(NetworkLayer { read_timeout_ms: x, ..s0 }), ..l } },
        (EnvTarget::SecretsKind, EnvLeaf::Text(x)) => { let s0 = l.secrets.unwrap_or(empty_secrets_backend_ref_layer()); ConfigLayer { secrets: Some(SecretsBackendRefLayer { kind: x, ..s0 }), ..l } },
        (EnvTarget::SecretsReference, EnvLeaf::Text(x)) => { let s0 = l.secrets.unwrap_or(empty_secrets_backend_ref_layer()); ConfigLayer { secrets: Some(SecretsBackendRefLayer { reference: x, ..s0 }), ..l } },
        (EnvTarget::DevDefaultEnv, EnvLeaf::Env(x)) => { let s0 = l.dev.unwrap_or(empty_dev_layer()); ConfigLayer { dev: Some(DevLayer { default_env: x, ..s0 }), ..l } },
        (EnvTarget::DevDefaultTenant, EnvLeaf::Text(x)) => { let s0 = l.dev.unwrap_or(empty_dev_layer()); ConfigLayer { dev: Some(DevLayer { default_tenant: x, ..s0 }), ..l } },
        (EnvTarget::DevDefaultTeam, EnvLeaf::Text(x)) => { let s0 = l.dev.unwrap_or(empty_dev_layer()); ConfigLayer { dev: Some(DevLayer { default_team: x, ..s0 }), ..l } },
        (EnvTarget::EventsReconnectEnabled, EnvLeaf::Flag(x)) => { let s0 = l.events.unwrap_or(empty_events_layer()); let s1 = s0.reconnect.unwrap_or(empty_reconnect_layer()); ConfigLayer { events: Some(EventsLayer { reconnect: Some(ReconnectLayer { enabled: x, ..s1 }), ..s0 }), ..l } },
        (EnvTarget::EventsReconnectMaxRetries, EnvLeaf::Number32(x)) => { let s0 = l.events.unwrap_or(empty_events_layer()); let s1 = s0.reconnect.unwrap_or(empty_reconnect_layer()); ConfigLayer { events: Some(EventsLayer { reconnect: Some(ReconnectLayer { max_retries: x, ..s1 }), ..s0 }), ..l } },
        (EnvTarget::EventsBackoffInitialMs, EnvLeaf::Number64(x)) => { let s0 = l.events.unwrap_or(empty_events_layer()); let s1 = s0.backoff.unwrap_or(empty_backoff_layer()); ConfigLayer { events: Some(EventsLayer { backoff: Some(BackoffLayer { initial_ms: x, ..s1 }), ..s0 }), ..l } },
        (EnvTarget::EventsBackoffMaxMs, EnvLeaf::Number64(x)) => { let s0 = l.events.unwrap_or(empty_events_layer()); let s1 = s0.backoff.unwrap_or(empty_backoff_layer()); ConfigLayer { events: Some(EventsLayer { backoff: Some(BackoffLayer { max_ms: x, ..s1 }), ..s0 }), ..l } },
        (EnvTarget::EventsBackoffMultiplier, EnvLeaf::Factor(x)) => { let s0 = l.events.unwrap_or(empty_events_layer()); let s1 = s0.backoff.unwrap_or(empty_backoff_layer()); ConfigLayer { events: Some(EventsLayer { backoff: Some(BackoffLayer { multiplier: x, ..s1 }), ..s0 }), ..l } },
        (EnvTarget::EventsBackoffJitter, EnvLeaf::Flag(x)) => { let s0 = l.events.unwrap_or(empty_events_layer()); let s1 = s0.backoff.unwrap_or(empty_backoff_layer()); ConfigLayer { events: Some(EventsLayer { backoff: Some(BackoffLayer { jitter: x, ..s1 }), ..s0 }), ..l } },
        _ => l,
    }
}

/// Whether `x` is what `value` reads as for an environment identifier: the JSON string with
/// that content, when it is a valid identifier.
pub open spec fn env_id_read(x: Option<EnvId>, value: Seq<char>) -> bool {
    match json_string_content(value) {
        None => x is None,
        Some(c) => if valid_identifier(c) {
            x is Some && (x->0).0@ == c
        } else {
            x is None
        },
    }
}

/// Whether `x` is what `value` reads as for a URL: the JSON string with that content, parsed.
pub open spec fn url_read(x: Option<Url>, value: Seq<char>) -> bool {
    match json_string_content(value) {
        None => x is None,
        Some(c) => match url_parse_result(c) {
            None => x is None,
            Some(u) => x is Some && x->0@ == u,
        },
    }
}

/// Whether the optional number `x` is the number `d`.
pub open spec fn number_read(x: Option<nat>, d: Option<nat>) -> bool {
    x == d
}

/// The connection kind named by a JSON string's content: `online` or `offline`.
pub open spec fn connection_of(content: Option<Seq<char>>) -> Option<ConnectionKind> {
    match content {
        Some(c) => if c == "online"@ {
            Some(ConnectionKind::Online)
        } else if c == "offline"@ {
            Some(ConnectionKind::Offline)
        } else {
            None
        },
        None => None,
    }
}

/// Whether `v` is the value that an environment variable holding `value` gives the leaf `t`.
pub open spec fn env_leaf_ok(t: EnvTarget, v: EnvLeaf, value: Seq<char>, float: Option<FloatReading>) -> bool {
    match (t, v) {
        (EnvTarget::SchemaVersion, EnvLeaf::Version(x)) => x is Some && (x->0).0@ == value,
        (EnvTarget::EnvironmentEnvId, EnvLeaf::Env(x)) => env_id_read(x, value),
        (EnvTarget::EnvironmentDeployment, EnvLeaf::Deployment(x)) => x is None,
        (EnvTarget::EnvironmentConnection, EnvLeaf::Connection(x)) => x == connection_of(json_string_content(value)),
        (EnvTarget::EnvironmentRegion, EnvLeaf::Text(x)) => x is Some && x->0@ == value,
        (EnvTarget::PathsGreenticRoot, EnvLeaf::Text(x)) => x is Some && x->0@ == value,
        (EnvTarget::PathsStateDir, EnvLeaf::Text(x)) => x is Some && x->0@ == value,
        (EnvTarget::PathsCacheDir, EnvLeaf::Text(x)) => x is Some && x->0@ == value,
        (EnvTarget::PathsLogsDir, EnvLeaf::Text(x)) => x is Some && x->0@ == value,
        (EnvTarget::ServicesEventsUrl, EnvLeaf::Link(x)) => url_read(x, value),
        (EnvTarget::Service(_, ServiceLeaf::Kind), EnvLeaf::Text(x)) => x is Some && x->0@ == lowercase(value),
        (EnvTarget::Service(_, ServiceLeaf::Url), EnvLeaf::Link(x)) => url_read(x, value),
        (EnvTarget::Service(_, ServiceLeaf::BindAddr), EnvLeaf::Text(x)) => x is Some && x->0@ == value,
        (EnvTarget::Service(_, ServiceLeaf::Port), EnvLeaf::Number16(x)) => number_read(match x { Some(n) => Some(n as nat), None => None }, decimal_at_most(value, u16::MAX as nat)),
        (EnvTarget::Service(_, ServiceLeaf::PublicBaseUrl), EnvLeaf::Text(x)) => x is Some && x->0@ == value,
        (EnvTarget::Service(_, ServiceLeaf::MetricsEnabled), EnvLeaf::Flag(x)) => x == bool_of(value),
        (EnvTarget::Service(_, ServiceLeaf::MetricsBindAddr), EnvLeaf::Text(x)) => x is Some && x->0@ == value,
        (EnvTarget::Service(_, ServiceLeaf::MetricsPort), EnvLeaf::Number16(x)) => number_read(match x { Some(n) => Some(n as nat), None => None }, decimal_at_most(value, u16::MAX as nat)),
        (EnvTarget::Service(_, ServiceLeaf::MetricsPath), EnvLeaf::Text(x)) => x is Some && x->0@ == value,
        (EnvTarget::RuntimeMaxConcurrency, EnvLeaf::Number32(x)) => number_read(match x { Some(n) => Some(n as nat), None => None }, decimal_at_most(value, u32::MAX as nat)),
        (EnvTarget::RuntimeTaskTimeoutMs, EnvLeaf::Number64(x)) => number_read(match x { Some(n) => Some(n as nat), None => None }, decimal_at_most(value, u64::MAX as nat)),
        (EnvTarget::RuntimeShutdownGraceMs, EnvLeaf::Number64(x)) => number_read(match x { Some(n) => Some(n as nat), None => None }, decimal_at_most(value, u64::MAX as nat)),
        (EnvTarget::RuntimeAdminSecretsExplainEnabled, EnvLeaf::Flag(x)) => x == bool_of(value),
        (EnvTarget::TelemetryEnabled, EnvLeaf::Flag(x)) => x == bool_of(value),
        (EnvTarget::TelemetryExporter, EnvLeaf::Text(x)) => x is Some && x->0@ == lowercase(value),
        (EnvTarget::TelemetryEndpoint, EnvLeaf::Text(x)) => x is Some && x->0@ == value,
        (EnvTarget::TelemetrySampling, EnvLeaf::Ratio(x)) => x == (match float { Some(f) => Some(f.as_f32), None => None }),
        (EnvTarget::NetworkProxyUrl, EnvLeaf::Text(x)) => x is Some && x->0@ == value,
        (EnvTarget::NetworkTlsMode, EnvLeaf::Text(x)) => x is Some && x->0@ == lowercase(value),
        (EnvTarget::NetworkConnectTimeoutMs, EnvLeaf::Number64(x)) => number_read(match x { Some(n) => Some(n as nat), None => None }, decimal_at_most(value, u64::MAX as nat)),
        (EnvTarget::NetworkReadTimeoutMs, EnvLeaf::Number64(x)) => number_read(match x { Some(n) => Some(n as nat), None => None }, decimal_at_most(value, u64::MAX as nat)),
        (EnvTarget::SecretsKind, EnvLeaf::Text(x)) => x is Some && x->0@ == value,
        (EnvTarget::SecretsReference, EnvLeaf::Text(x)) => x is Some && x->0@ == value,
        (EnvTarget::DevDefaultEnv, EnvLeaf::Env(x)) => env_id_read(x, value),
        (EnvTarget::DevDefaultTenant, EnvLeaf::Text(x)) => x is Some && x->0@ == value,
        (EnvTarget::DevDefaultTeam, EnvLeaf::Text(x)) => x is Some && x->0@ == value,
        (EnvTarget::EventsReconnectEnabled, EnvLeaf::Flag(x)) => x == bool_of(value),
        (EnvTarget::EventsReconnectMaxRetries, EnvLeaf::Number32(x)) => number_read(match x { Some(n) => Some(n as nat), None => None }, decimal_at_most(value, u32::MAX as nat)),
        (EnvTarget::EventsBackoffInitialMs, EnvLeaf::Number64(x)) => number_read(match x { Some(n) => Some(n as nat), None => None }, decimal_at_most(value, u64::MAX as nat)),
        (EnvTarget::EventsBackoffMaxMs, EnvLeaf::Number64(x)) => number_read(match x { Some(n) => Some(n as nat), None => None }, decimal_at_most(value, u64::MAX as nat)),
        (EnvTarget::EventsBackoffMultiplier, EnvLeaf::Factor(x)) => x == (match float { Some(f) => Some(f.as_f64), None => None }),
        (EnvTarget::EventsBackoffJitter, EnvLeaf::Flag(x)) => x == bool_of(value),
        _ => false,
    }
}

/// The warning that reading `value` for `t` gives: only a port that is not a `u16` gives one.
pub open spec fn env_warning(t: EnvTarget, key: Seq<char>, value: Seq<char>) -> Seq<Seq<char>> {
    match t {
        EnvTarget::Service(_, leaf) => if (leaf == ServiceLeaf::Port || leaf == ServiceLeaf::MetricsPort)
            && decimal_at_most(value, u16::MAX as nat) is None {
            seq!["Ignored "@ + key + ": expected u16 but got '"@ + value + "'"@]
        } else {
            seq![]
        },
        _ => seq![],
    }
}

/// The content of the JSON string literal `"<value>"` (the text between the quotes with its
/// escapes decoded), or `None` when that is not a valid JSON string.
pub uninterp spec fn json_string_content(value: Seq<char>) -> Option<Seq<char>>;

/// The Unicode lower-case form of `s`, as `str::to_lowercase` computes it.
pub uninterp spec fn lowercase(s: Seq<char>) -> Seq<char>;

/// Trusted: `serde_json::from_str::<String>` on `value` wrapped in double quotes. The
/// contract names the outcome.
#[verifier::external_body]
fn json_string(value: &str) -> (r: Option<String>)
    ensures
        r is Some == json_string_content(value@) is Some,
        r matches Some(s) ==> s@ == json_string_content(value@)->0,
{
    serde_json::from_str::<String>(&format!("\"{value}\"")).ok()
}

/// Trusted: `serde_json::from_str::<greentic_types::DeploymentCtx>` on `value` wrapped in
/// double quotes. `DeploymentCtx` derives its deserializer as a struct, which `serde_json`
/// reads only from a JSON object or array, so a JSON string never parses and the result is
/// always `None`.
#[verifier::external_body]
fn deployment_value(value: &str) -> (r: Option<greentic_types::DeploymentCtx>)
    ensures
        r is None,
{
    serde_json::from_str::<greentic_types::DeploymentCtx>(&format!("\"{value}\"")).ok()
}

/// Trusted: `str::to_lowercase`. The contract names the outcome.
#[verifier::external_body]
fn unicode_lowercase(value: &str) -> (r: String)
    ensures
        r@ == lowercase(value@),
{
    value.to_lowercase()
}

/// Trusted: `greentic_types::EnvId::from_str`, which accepts exactly the non-empty strings of
/// ASCII letters, digits, `.`, `_` and `-`.
#[verifier::external_body]
fn env_id_from_str(s: &str) -> (r: Option<EnvId>)
    ensures
        r is Some == valid_identifier(s@),
        r matches Some(e) ==> e.0@ == s@,
{
    <greentic_types::EnvId as std::str::FromStr>::from_str(s).ok().map(|e| EnvId(e.0))
}

fn env_id_value(value: &str) -> (r: Option<EnvId>)
    ensures
        env_id_read(r, value@),
{
    match json_string(value) {
        None => None,
        Some(c) => env_id_from_str(c.as_str()),
    }
}

fn url_value(value: &str) -> (r: Option<Url>)
    ensures
        url_read(r, value@),
{
    match json_string(value) {
        None => None,
        Some(c) => match Url::parse(c.as_str()) {
            Ok(u) => Some(u),
            Err(_) => None,
        },
    }
}

fn connection_value(value: &str) -> (r: Option<ConnectionKind>)
    ensures
        r == connection_of(json_string_content(value@)),
{
    match json_string(value) {
        None => None,
        Some(c) => {
            let v = chars_of(c.as_str());
            if chars_eq(&v, &chars_of("online")) {
                Some(ConnectionKind::Online)
            } else if chars_eq(&v, &chars_of("offline")) {
                Some(ConnectionKind::Offline)
            } else {
                None
            }
        },
    }
}

/// `value` parsed as a `u16`, with a warning naming `key` when it is not one.
pub fn parse_u16_warn(value: &str, key: &str, warnings: &mut Vec<String>) -> (r: Option<u16>)
    ensures
        match r {
            Some(n) => decimal_at_most(value@, u16::MAX as nat) == Some(n as nat),
            None => decimal_at_most(value@, u16::MAX as nat) is None,
        },
        strings_view(final(warnings)@) == strings_view(old(warnings)@) + (if r is None {
            seq!["Ignored "@ + key@ + ": expected u16 but got '"@ + value@ + "'"@]
        } else {
            Seq::<Seq<char>>::empty()
        }),
{
    match parse_u16(value) {
        Some(v) => {
            assert(strings_view(warnings@) =~= strings_view(old(warnings)@) + Seq::<Seq<char>>::empty());
            Some(v)
        },
        None => {
            let a = concat(concat("Ignored ", key).as_str(), ": expected u16 but got '");
            let b = concat(concat(a.as_str(), value).as_str(), "'");
            push_warning(warnings, b);
            None
        },
    }
}

fn take_admin_endpoints_layer(o: &mut Option<AdminEndpointsLayer>) -> (r: AdminEndpointsLayer)
    ensures
        r == old(o).unwrap_or(empty_admin_endpoints_layer()),
        *final(o) is None,
{
    match o.take() {
        Some(x) => x,
        None => AdminEndpointsLayer::empty(),
    }
}

fn take_backoff_layer(o: &mut Option<BackoffLayer>) -> (r: BackoffLayer)
    ensures
        r == old(o).unwrap_or(empty_backoff_layer()),
        *final(o) is None,
{
    match o.take() {
        Some(x) => x,
        None => BackoffLayer::empty(),
    }
}

fn take_dev_layer(o: &mut Option<DevLayer>) -> (r: DevLayer)
    ensures
        r == old(o).unwrap_or(empty_dev_layer()),
        *final(o) is None,
{
    match o.take() {
        Some(x) => x,
        None => DevLayer::empty(),
    }
}

fn take_environment_layer(o: &mut Option<EnvironmentLayer>) -> (r: EnvironmentLayer)
    ensures
        r == old(o).unwrap_or(empty_environment_layer()),
        *final(o) is None,
{
    match o.take() {
        Some(x) => x,
        None => EnvironmentLayer::empty(),
    }
}

fn take_events_layer(o: &mut Option<EventsLayer>) -> (r: EventsLayer)
    ensures
        r == old(o).unwrap_or(empty_events_layer()),
        *final(o) is None,
{
    match o.take() {
        Some(x) => x,
        None => EventsLayer::empty(),
    }
}

fn take_metrics_layer(o: &mut Option<MetricsLayer>) -> (r: MetricsLayer)
    ensures
        r == old(o).unwrap_or(empty_metrics_layer()),
        *final(o) is None,
{
    match o.take() {
        Some(x) => x,
        None => MetricsLayer::empty(),
    }
}

fn take_network_layer(o: &mut Option<NetworkLayer>) -> (r: NetworkLayer)
    ensures
        r == old(o).unwrap_or(empty_network_layer()),
        *final(o) is None,
{
    match o.take() {
        Some(x) => x,
        None => NetworkLayer::empty(),
    }
}

fn take_paths_layer(o: &mut Option<PathsLayer>) -> (r: PathsLayer)
    ensures
        r == old(o).unwrap_or(empty_paths_layer()),
        *final(o) is None,
{
    match o.take() {
        Some(x) => x,
        None => PathsLayer::empty(),
    }
}

fn take_reconnect_layer(o: &mut Option<ReconnectLayer>) -> (r: ReconnectLayer)
    ensures
        r == old(o).unwrap_or(empty_reconnect_layer()),
        *final(o) is None,
{
    match o.take() {
        Some(x) => x,
        None => ReconnectLayer::empty(),
    }
}

fn take_runtime_layer(o: &mut Option<RuntimeLayer>) -> (r: RuntimeLayer)
    ensures
        r == old(o).unwrap_or(empty_runtime_layer()),
        *final(o) is None,
{
    match o.take() {
        Some(x) => x,
        None => RuntimeLayer::empty(),
    }
}

fn take_secrets_backend_ref_layer(o: &mut Option<SecretsBackendRefLayer>) -> (r: SecretsBackendRefLayer)
    ensures
        r == old(o).unwrap_or(empty_secrets_backend_ref_layer()),
        *final(o) is None,
{
    match o.take() {
        Some(x) => x,
        None => SecretsBackendRefLayer::empty(),
    }
}

fn take_service_config_layer(o: &mut Option<ServiceConfigLayer>) -> (r: ServiceConfigLayer)
    ensures
        r == old(o).unwrap_or(empty_service_config_layer()),
        *final(o) is None,
{
    match o.take() {
        Some(x) => x,
        None => ServiceConfigLayer::empty(),
    }
}

fn take_service_endpoint_layer(o: &mut Option<ServiceEndpointLayer>) -> (r: ServiceEndpointLayer)
    ensures
        r == old(o).unwrap_or(empty_service_endpoint_layer()),
        *final(o) is None,
{
    match o.take() {
        Some(x) => x,
        None => ServiceEndpointLayer::empty(),
    }
}

fn take_services_layer(o: &mut Option<ServicesLayer>) -> (r: ServicesLayer)
    ensures
        r == old(o).unwrap_or(empty_services_layer()),
        *final(o) is None,
{
    match o.take() {
        Some(x) => x,
        None => ServicesLayer::empty(),
    }
}

fn take_telemetry_layer(o: &mut Option<TelemetryLayer>) -> (r: TelemetryLayer)
    ensures
        r == old(o).unwrap_or(empty_telemetry_layer()),
        *final(o) is None,
{
    match o.take() {
        Some(x) => x,
        None => TelemetryLayer::empty(),
    }
}

fn apply_service_leaf(sl: &mut ServiceLayer, leaf: ServiceLeaf, key: &str, value: &str, warnings: &mut Vec<String>) -> (g: Ghost<EnvLeaf>)
    ensures
        env_leaf_ok(EnvTarget::Service(ServiceSlot::Runner, leaf), g@, value@, None),
        *final(sl) == set_service_leaf(*old(sl), leaf, g@),
        strings_view(final(warnings)@) == strings_view(old(warnings)@) + env_warning(EnvTarget::Service(ServiceSlot::Runner, leaf), key@, value@),
{
    let ghost w0 = strings_view(warnings@);
    match leaf {
        ServiceLeaf::Kind => {
            let x = Some(unicode_lowercase(value));
            let ghost g = EnvLeaf::Text(x);
            sl.transport.kind = x;
            assert(strings_view(warnings@) =~= w0 + env_warning(EnvTarget::Service(ServiceSlot::Runner, leaf), key@, value@));
            Ghost(g)
        },
        ServiceLeaf::Url => {
            let x = url_value(value);
            let ghost g = EnvLeaf::Link(x);
            sl.transport.url = x;
            assert(strings_view(warnings@) =~= w0 + env_warning(EnvTarget::Service(ServiceSlot::Runner, leaf), key@, value@));
            Ghost(g)
        },
        ServiceLeaf::BindAddr => {
            let x = Some(owned(value));
            let ghost g = EnvLeaf::Text(x);
            let mut svc = take_service_config_layer(&mut sl.service);
            svc.bind_addr = x;
            sl.service = Some(svc);
            assert(strings_view(warnings@) =~= w0 + env_warning(EnvTarget::Service(ServiceSlot::Runner, leaf), key@, value@));
            Ghost(g)
        },
        ServiceLeaf::Port => {
            let x = parse_u16_warn(value, key, warnings);
            let ghost g = EnvLeaf::Number16(x);
            let mut svc = take_service_config_layer(&mut sl.service);
            svc.port = x;
            sl.service = Some(svc);
            Ghost(g)
        },
        ServiceLeaf::PublicBaseUrl => {
            let x = Some(owned(value));
            let ghost g = EnvLeaf::Text(x);
            let mut svc = take_service_config_layer(&mut sl.service);
            svc.public_base_url = x;
            sl.service = Some(svc);
            assert(strings_view(warnings@) =~= w0 + env_warning(EnvTarget::Service(ServiceSlot::Runner, leaf), key@, value@));
            Ghost(g)
        },
        ServiceLeaf::MetricsEnabled => {
            let x = parse_bool(value);
            let ghost g = EnvLeaf::Flag(x);
            let mut svc = take_service_config_layer(&mut sl.service);
            let mut m = take_metrics_layer(&mut svc.metrics);
            m.enabled = x;
            svc.metrics = Some(m);
            sl.service = Some(svc);
            assert(strings_view(warnings@) =~= w0 + env_warning(EnvTarget::Service(ServiceSlot::Runner, leaf), key@, value@));
            Ghost(g)
        },
        ServiceLeaf::MetricsBindAddr => {
            let x = Some(owned(value));
            let ghost g = EnvLeaf::Text(x);
            let mut svc = take_service_config_layer(&mut sl.service);
            let mut m = take_metrics_layer(&mut svc.metrics);
            m.bind_addr = x;
            svc.metrics = Some(m);
            sl.service = Some(svc);
            assert(strings_view(warnings@) =~= w0 + env_warning(EnvTarget::Service(ServiceSlot::Runner, leaf), key@, value@));
            Ghost(g)
        },
        ServiceLeaf::MetricsPort => {
            let x = parse_u16_warn(value, key, warnings);
            let ghost g = EnvLeaf::Number16(x);
            let mut svc = take_service_config_layer(&mut sl.service);
            let mut m = take_metrics_layer(&mut svc.metrics);
            m.port = x;
            svc.metrics = Some(m);
            sl.service = Some(svc);
            Ghost(g)
        },
        ServiceLeaf::MetricsPath => {
            let x = Some(owned(value));
            let ghost g = EnvLeaf::Text(x);
            let mut svc = take_service_config_layer(&mut sl.service);
            let mut m = take_metrics_layer(&mut svc.metrics);
            m.path = x;
            svc.metrics = Some(m);
            sl.service = Some(svc);
            assert(strings_view(warnings@) =~= w0 + env_warning(EnvTarget::Service(ServiceSlot::Runner, leaf), key@, value@));
            Ghost(g)
        },
    }
}

fn apply_env_target(t: EnvTarget, key: &str, value: &str, float: Option<FloatReading>, layer: &mut ConfigLayer, warnings: &mut Vec<String>) -> (g: Ghost<EnvLeaf>)
    ensures
        env_leaf_ok(t, g@, value@, float),
        *final(layer) == with_env_leaf(*old(layer), t, g@),
        strings_view(final(warnings)@) == strings_view(old(warnings)@) + env_warning(t, key@, value@),
{
    let ghost w0 = strings_view(warnings@);
    match t {
        EnvTarget::Service(slot, leaf) => {
            let mut s = take_services_layer(&mut layer.services);
            let mut sl = take_slot(&mut s, slot);
            let g = apply_service_leaf(&mut sl, leaf, key, value, warnings);
            put_slot(&mut s, slot, sl);
            layer.services = Some(s);
            g
        },
        EnvTarget::SchemaVersion => {
            let x = Some(ConfigVersion(owned(value)));
            let ghost g = EnvLeaf::Version(x);
            layer.schema_version = x;
            assert(strings_view(warnings@) =~= w0 + env_warning(t, key@, value@));
            Ghost(g)
        },
        EnvTarget::EnvironmentEnvId => {
            let x = env_id_value(value);
            let ghost g = EnvLeaf::Env(x);
            let mut s0 = take_environment_layer(&mut layer.environment);
            s0.env_id = x;
            layer.environment = Some(s0);
            assert(strings_view(warnings@) =~= w0 + env_warning(t, key@, value@));
            Ghost(g)
        },
        EnvTarget::EnvironmentDeployment => {
            let x = deployment_value(value);
            let ghost g = EnvLeaf::Deployment(x);
            let mut s0 = take_environment_layer(&mut layer.environment);
            s0.deployment = x;
            layer.environment = Some(s0);
            assert(strings_view(warnings@) =~= w0 + env_warning(t, key@, value@));
            Ghost(g)
        },
        EnvTarget::EnvironmentConnection => {
            let x = connection_value(value);
            let ghost g = EnvLeaf::Connection(x);
            let mut s0 = take_environment_layer(&mut layer.environment);
            s0.connection = x;
            layer.environment = Some(s0);
            assert(strings_view(warnings@) =~= w0 + env_warning(t, key@, value@));
            Ghost(g)
        },
        EnvTarget::EnvironmentRegion => {
            let x = Some(owned(value));
            let ghost g = EnvLeaf::Text(x);
            let mut s0 = take_environment_layer(&mut layer.environment);
            s0.region = x;
            layer.environment = Some(s0);
            assert(strings_view(warnings@) =~= w0 + env_warning(t, key@, value@));
            Ghost(g)
        },
        EnvTarget::PathsGreenticRoot => {
            let x = Some(owned(value));
            let ghost g = EnvLeaf::Text(x);
            let mut s0 = take_paths_layer(&mut layer.paths);
            s0.greentic_root = x;
            layer.paths = Some(s0);
            assert(strings_view(warnings@) =~= w0 + env_warning(t, key@, value@));
            Ghost(g)
        },
        EnvTarget::PathsStateDir => {
            let x = Some(owned(value));
            let ghost g = EnvLeaf::Text(x);
            let mut s0 = take_paths_layer(&mut layer.paths);
            s0.state_dir = x;
            layer.paths = Some(s0);
            assert(strings_view(warnings@) =~= w0 + env_warning(t, key@, value@));
            Ghost(g)
        },
        EnvTarget::PathsCacheDir => {
            let x = Some(owned(value));
            let ghost g = EnvLeaf::Text(x);
            let mut s0 = take_paths_layer(&mut layer.paths);
            s0.cache_dir = x;
            layer.paths = Some(s0);
            assert(strings_view(warnings@) =~= w0 + env_warning(t, key@, value@));
            Ghost(g)
        },
        EnvTarget::PathsLogsDir => {
            let x = Some(owned(value));
            let ghost g = EnvLeaf::Text(x);
            let mut s0 = take_paths_layer(&mut layer.paths);
            s0.logs_dir = x;
            layer.paths = Some(s0);
            assert(strings_view(warnings@) =~= w0 + env_warning(t, key@, value@));
            Ghost(g)
        },
        EnvTarget::ServicesEventsUrl => {
            let x = url_value(value);
            let ghost g = EnvLeaf::Link(x);
            let mut s0 = take_services_layer(&mut layer.services);
            let mut s1 = take_service_endpoint_layer(&mut s0.events);
            s1.url = x;
            s0.events = Some(s1);
            layer.services = Some(s0);
            assert(strings_view(warnings@) =~= w0 + env_warning(t, key@, value@));
            Ghost(g)
        },
        EnvTarget::RuntimeMaxConcurrency => {
            let x = parse_u32(value);
            let ghost g = EnvLeaf::Number32(x);
            let mut s0 = take_runtime_layer(&mut layer.runtime);
            s0.max_concurrency = x;
            layer.runtime = Some(s0);
            assert(strings_view(warnings@) =~= w0 + env_warning(t, key@, value@));
            Ghost(g)
        },
        EnvTarget::RuntimeTaskTimeoutMs => {
            let x = parse_u64(value);
            let ghost g = EnvLeaf::Number64(x);
            let mut s0 = take_runtime_layer(&mut layer.runtime);
            s0.task_timeout_ms = x;
            layer.runtime = Some(s0);
            assert(strings_view(warnings@) =~= w0 + env_warning(t, key@, value@));
            Ghost(g)
        },
        EnvTarget::RuntimeShutdownGraceMs => {
            let x = parse_u64(value);
            let ghost g = EnvLeaf::Number64(x);
            let mut s0 = take_runtime_layer(&mut layer.runtime);
            s0.shutdown_grace_ms = x;
            layer.runtime = Some(s0);
            assert(strings_view(warnings@) =~= w0 + env_warning(t, key@, value@));
            Ghost(g)
        },
        EnvTarget::RuntimeAdminSecretsExplainEnabled => {
            let x = parse_bool(value);
            let ghost g = EnvLeaf::Flag(x);
            let mut s0 = take_runtime_layer(&mut layer.runtime);
            let mut s1 = take_admin_endpoints_layer(&mut s0.admin_endpoints);
            s1.secrets_explain_enabled = x;
            s0.admin_endpoints = Some(s1);
            layer.runtime = Some(s0);
            assert(strings_view(warnings@) =~= w0 + env_warning(t, key@, value@));
            Ghost(g)
        },
        EnvTarget::TelemetryEnabled => {
            let x = parse_bool(value);
            let ghost g = EnvLeaf::Flag(x);
            let mut s0 = take_telemetry_layer(&mut layer.telemetry);
            s0.enabled = x;
            layer.telemetry = Some(s0);
            assert(strings_view(warnings@) =~= w0 + env_warning(t, key@, value@));
            Ghost(g)
        },
        EnvTarget::TelemetryExporter => {
            let x = Some(unicode_lowercase(value));
            let ghost g = EnvLeaf::Text(x);
            let mut s0 = take_telemetry_layer(&mut layer.telemetry);
            s0.exporter = x;
            layer.telemetry = Some(s0);
            assert(strings_view(warnings@) =~= w0 + env_warning(t, key@, value@));
            Ghost(g)
        },
        EnvTarget::TelemetryEndpoint => {
            let x = Some(owned(value));
            let ghost g = EnvLeaf::Text(x);
            let mut s0 = take_telemetry_layer(&mut layer.telemetry);
            s0.endpoint = x;
            layer.telemetry = Some(s0);
            assert(strings_view(warnings@) =~= w0 + env_warning(t, key@, value@));
            Ghost(g)
        },
        EnvTarget::TelemetrySampling => {
            let x = match &float { Some(f) => Some(f.as_f32), None => None };
            let ghost g = EnvLeaf::Ratio(x);
            let mut s0 = take_telemetry_layer(&mut layer.telemetry);
            s0.sampling = x;
            layer.telemetry = Some(s0);
            assert(strings_view(warnings@) =~= w0 + env_warning(t, key@, value@));
            Ghost(g)
        },
        EnvTarget::NetworkProxyUrl => {
            let x = Some(owned(value));
            let ghost g = EnvLeaf::Text(x);
            let mut s0 = take_network_layer(&mut layer.network);
            s0.proxy_url = x;
            layer.network = Some(s0);
            assert(strings_view(warnings@) =~= w0 + env_warning(t, key@, value@));
            Ghost(g)
        },
        EnvTarget::NetworkTlsMode => {
            let x = Some(unicode_lowercase(value));
            let ghost g = EnvLeaf::Text(x);
            let mut s0 = take_network_layer(&mut layer.network);
            s0.tls_mode = x;
            layer.network = Some(s0);
            assert(strings_view(warnings@) =~= w0 + env_warning(t, key@, value@));
            Ghost(g)
        },
        EnvTarget::NetworkConnectTimeoutMs => {
            let x = parse_u64(value);
            let ghost g = EnvLeaf::Number64(x);
            let mut s0 = take_network_layer(&mut layer.network);
            s0.connect_timeout_ms = x;
            layer.network = Some(s0);
            assert(strings_view(warnings@) =~= w0 + env_warning(t, key@, value@));
            Ghost(g)
        },
        EnvTarget::NetworkReadTimeoutMs => {
            let x = parse_u64(value);
            let ghost g = EnvLeaf::Number64(x);
            let mut s0 = take_network_layer(&mut layer.network);
            s0.read_timeout_ms = x;
            layer.network = Some(s0);
            assert(strings_view(warnings@) =~= w0 + env_warning(t, key@, value@));
            Ghost(g)
        },
        EnvTarget::SecretsKind => {
            let x = Some(owned(value));
            let ghost g = EnvLeaf::Text(x);
            let mut s0 = take_secrets_backend_ref_layer(&mut layer.secrets);
            s0.kind = x;
            layer.secrets = Some(s0);
            assert(strings_view(warnings@) =~= w0 + env_warning(t, key@, value@));
            Ghost(g)
        },
        EnvTarget::SecretsReference => {
            let x = Some(owned(value));
            let ghost g = EnvLeaf::Text(x);
            let mut s0 = take_secrets_backend_ref_layer(&mut layer.secrets);
            s0.reference = x;
            layer.secrets = Some(s0);
            assert(strings_view(warnings@) =~= w0 + env_warning(t, key@, value@));
            Ghost(g)
        },
        EnvTarget::DevDefaultEnv => {
            let x = env_id_value(value);
            let ghost g = EnvLeaf::Env(x);
            let mut s0 = take_dev_layer(&mut layer.dev);
            s0.default_env = x;
            layer.dev = Some(s0);
            assert(strings_view(warnings@) =~= w0 + env_warning(t, key@, value@));
            Ghost(g)
        },
        EnvTarget::DevDefaultTenant => {
            let x = Some(owned(value));
            let ghost g = EnvLeaf::Text(x);
            let mut s0 = take_dev_layer(&mut layer.dev);
            s0.default_tenant = x;
            layer.dev = Some(s0);
            assert(strings_view(warnings@) =~= w0 + env_warning(t, key@, value@));
            Ghost(g)
        },
        EnvTarget::DevDefaultTeam => {
            let x = Some(owned(value));
            let ghost g = EnvLeaf::Text(x);
            let mut s0 = take_dev_layer(&mut layer.dev);
            s0.default_team = x;
            layer.dev = Some(s0);
            assert(strings_view(warnings@) =~= w0 + env_warning(t, key@, value@));
            Ghost(g)
        },
        EnvTarget::EventsReconnectEnabled => {
            let x = parse_bool(value);
            let ghost g = EnvLeaf::Flag(x);
            let mut s0 = take_events_layer(&mut layer.events);
            let mut s1 = take_reconnect_layer(&mut s0.reconnect);
            s1.enabled = x;
            s0.reconnect = Some(s1);
            layer.events = Some(s0);
            assert(strings_view(warnings@) =~= w0 + env_warning(t, key@, value@));
            Ghost(g)
        },
        EnvTarget::EventsReconnectMaxRetries => {
            let x = parse_u32(value);
            let ghost g = EnvLeaf::Number32(x);
            let mut s0 = take_events_layer(&mut layer.events);
            let mut s1 = take_reconnect_layer(&mut s0.reconnect);
            s1.max_retries = x;
            s0.reconnect = Some(s1);
            layer.events = Some(s0);
            assert(strings_view(warnings@) =~= w0 + env_warning(t, key@, value@));
            Ghost(g)
        },
        EnvTarget::EventsBackoffInitialMs => {
            let x = parse_u64(value);
            let ghost g = EnvLeaf::Number64(x);
            let mut s0 = take_events_layer(&mut layer.events);
            let mut s1 = take_backoff_layer(&mut s0.backoff);
            s1.initial_ms = x;
            s0.backoff = Some(s1);
            layer.events = Some(s0);
            assert(strings_view(warnings@) =~= w0 + env_warning(t, key@, value@));
            Ghost(g)
        },
        EnvTarget::EventsBackoffMaxMs => {
            let x = parse_u64(value);
            let ghost g = EnvLeaf::Number64(x);
            let mut s0 = take_events_layer(&mut layer.events);
            let mut s1 = take_backoff_layer(&mut s0.backoff);
            s1.max_ms = x;
            s0.backoff = Some(s1);
            layer.events = Some(s0);
            assert(strings_view(warnings@) =~= w0 + env_warning(t, key@, value@));
            Ghost(g)
        },
        EnvTarget::EventsBackoffMultiplier => {
            let x = match &float { Some(f) => Some(f.as_f64), None => None };
            let ghost g = EnvLeaf::Factor(x);
            let mut s0 = take_events_layer(&mut layer.events);
            let mut s1 = take_backoff_layer(&mut s0.backoff);
            s1.multiplier = x;
            s0.backoff = Some(s1);
            layer.events = Some(s0);
            assert(strings_view(warnings@) =~= w0 + env_warning(t, key@, value@));
            Ghost(g)
        },
        EnvTarget::EventsBackoffJitter => {
            let x = parse_bool(value);
            let ghost g = EnvLeaf::Flag(x);
            let mut s0 = take_events_layer(&mut layer.events);
            let mut s1 = take_backoff_layer(&mut s0.backoff);
            s1.jitter = x;
            s0.backoff = Some(s1);
            layer.events = Some(s0);
            assert(strings_view(warnings@) =~= w0 + env_warning(t, key@, value@));
            Ghost(g)
        },
    }
}

/// Applies the environment variable `key=value` to `layer`. Returns whether `key` is a
/// supported variable; an unsupported one changes nothing.
pub fn apply_env_var(key: &str, value: &str, float: Option<FloatReading>, layer: &mut ConfigLayer, warnings: &mut Vec<String>) -> (r: bool)
    ensures
        r == env_target(key@) is Some,
        match env_target(key@) {
            Some(t) => (exists|v: EnvLeaf| env_leaf_ok(t, v, value@, float) && *final(layer) == with_env_leaf(*old(layer), t, v))
                && strings_view(final(warnings)@) == strings_view(old(warnings)@) + env_warning(t, key@, value@),
            None => *final(layer) == *old(layer) && final(warnings)@ == old(warnings)@,
        },
{
    match env_target_of(key) {
        Some(t) => {
            let g = apply_env_target(t, key, value, float, layer, warnings);
            assert(env_leaf_ok(t, g@, value@, float) && *layer == with_env_leaf(*old(layer), t, g@));
            true
        },
        None => false,
    }
}

/// Whether `key` names a variable this crate reads: it starts with `GREENTIC_` and is supported.
pub open spec fn env_key_supported(key: Seq<char>) -> bool {
    has_prefix(key, "GREENTIC_"@) && env_target(key) is Some
}

/// Whether `entry` is the layer that the single variable `var` gives, with its key and warnings.
pub open spec fn env_entry_for(var: EnvVar, entry: (ConfigLayer, String, Vec<String>)) -> bool {
    let t = env_target(var.key@)->0;
    &&& entry.1@ == var.key@
    &&& exists|v: EnvLeaf| env_leaf_ok(t, v, var.value@, var.float) && entry.0 == with_env_leaf(empty_config_layer(), t, v)
    &&& strings_view(entry.2@) == env_warning(t, var.key@, var.value@)
}

/// One layer per supported variable of `vars`, in order, each with the variable's key and
/// the warnings reading it gave.
pub fn load_env_layers_detailed_from(vars: Vec<EnvVar>) -> (r: Vec<(ConfigLayer, String, Vec<String>)>)
    ensures
        r@.len() == vars@.filter(|v: EnvVar| env_key_supported(v.key@)).len(),
        forall|i: int| 0 <= i < r@.len() ==> env_entry_for(vars@.filter(|v: EnvVar| env_key_supported(v.key@))[i], #[trigger] r@[i]),
{
    let ghost pred = |v: EnvVar| env_key_supported(v.key@);
    let mut layers: Vec<(ConfigLayer, String, Vec<String>)> = Vec::new();
    let mut i: usize = 0;
    while i < vars.len()
        invariant
            i <= vars.len(),
            pred == (|v: EnvVar| env_key_supported(v.key@)),
            layers@.len() == vars@.take(i as int).filter(pred).len(),
            forall|j: int| 0 <= j < layers@.len() ==> env_entry_for(vars@.take(i as int).filter(pred)[j], #[trigger] layers@[j]),
        decreases vars.len() - i,
    {
        let var = &vars[i];
        proof {
            assert(vars@.take(i + 1) =~= vars@.take(i as int).push(vars@[i as int]));
            vars@.take(i as int).lemma_filter_push(vars@[i as int], pred);
        }
        let key_chars = chars_of(var.key.as_str());
        if starts_with(&key_chars, "GREENTIC_") {
            let mut layer = ConfigLayer::empty();
            let mut warnings: Vec<String> = Vec::new();
            if apply_env_var(var.key.as_str(), var.value.as_str(), var.float, &mut layer, &mut warnings) {
                assert(strings_view(warnings@) =~= env_warning(env_target(var.key@)->0, var.key@, var.value@));
                layers.push((layer, var.key.clone(), warnings));
            }
        }
        i = i + 1;
    }
    assert(vars@.take(vars.len() as int) =~= vars@);
    layers
}

/// Whether applying the variable `var` to `before` gives `after`.
pub open spec fn env_step(before: ConfigLayer, var: EnvVar, after: ConfigLayer) -> bool {
    if env_key_supported(var.key@) {
        exists|v: EnvLeaf| env_leaf_ok(env_target(var.key@)->0, v, var.value@, var.float)
            && after == with_env_leaf(before, env_target(var.key@)->0, v)
    } else {
        after == before
    }
}

/// Whether applying `vars` one after the other to `start` gives `end`.
pub open spec fn env_applies(start: ConfigLayer, vars: Seq<EnvVar>, end: ConfigLayer) -> bool
    decreases vars.len(),
{
    if vars.len() == 0 {
        end == start
    } else {
        exists|mid: ConfigLayer| env_applies(start, vars.drop_last(), mid) && env_step(mid, vars.last(), end)
    }
}

/// The warnings that reading `vars` gives, in order.
pub open spec fn env_warnings(vars: Seq<EnvVar>) -> Seq<Seq<char>>
    decreases vars.len(),
{
    if vars.len() == 0 {
        seq![]
    } else {
        let v = vars.last();
        env_warnings(vars.drop_last()) + if env_key_supported(v.key@) {
            env_warning(env_target(v.key@)->0, v.key@, v.value@)
        } else {
            seq![]
        }
    }
}

/// A single layer holding every supported variable of `vars`, applied in order, and the
/// warnings reading them gave.
pub fn env_layer_from(vars: &Vec<EnvVar>) -> (r: (ConfigLayer, Vec<String>))
    ensures
        env_applies(empty_config_layer(), vars@, r.0),
        strings_view(r.1@) == env_warnings(vars@),
{
    let mut layer = ConfigLayer::empty();
    let mut warnings: Vec<String> = Vec::new();
    let mut i: usize = 0;
    assert(vars@.take(0) =~= Seq::<EnvVar>::empty());
    assert(strings_view(warnings@) =~= Seq::<Seq<char>>::empty());
    while i < vars.len()
        invariant
            i <= vars.len(),
            env_applies(empty_config_layer(), vars@.take(i as int), layer),
            strings_view(warnings@) == env_warnings(vars@.take(i as int)),
        decreases vars.len() - i,
    {
        let var = &vars[i];
        let ghost before = layer;
        let ghost w_before = strings_view(warnings@);
        let key_chars = chars_of(var.key.as_str());
        if starts_with(&key_chars, "GREENTIC_") {
            apply_env_var(var.key.as_str(), var.value.as_str(), var.float, &mut layer, &mut warnings);
        } else {
            assert(strings_view(warnings@) =~= w_before + Seq::<Seq<char>>::empty());
        }
        proof {
            let next = vars@.take(i + 1);
            assert(next.drop_last() =~= vars@.take(i as int));
            assert(next.last() == vars@[i as int]);
            assert(env_step(before, vars@[i as int], layer));
            assert(env_applies(empty_config_layer(), next, layer));
            assert(strings_view(warnings@) =~= env_warnings(next));
        }
        i = i + 1;
    }
    assert(vars@.take(vars.len() as int) =~= vars@);
    (layer, warnings)
}

} // verus!
