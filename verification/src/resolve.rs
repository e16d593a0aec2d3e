//! Turning the merged layer into a complete configuration.
use vstd::prelude::*;
use crate::layers::{
    EnvironmentLayer, PathsLayer, SecretsBackendRefLayer,
    empty_environment_layer, empty_network_layer, empty_packs_layer, empty_paths_layer, empty_runtime_layer,
    empty_secrets_backend_ref_layer, empty_telemetry_layer, ConfigLayer, DeployerLayer, EventsLayer, MetricsLayer,
    NetworkLayer, PackSourceLayer, PacksLayer, RuntimeLayer, ServiceConfigLayer, ServiceEndpointLayer, ServiceLayer,
    ServiceTransportLayer, ServicesLayer, TelemetryLayer,
};
use crate::paths::{absolute_in, join, make_absolute, path_is_absolute, path_join, DefaultPaths};
use crate::text::{concat, owned, str_eq};
use crate::types::{
    ConfigVersion, DevConfig, EnvId, EnvironmentConfig, PackTrustConfig, SecretsBackendRefConfig,
    AdminEndpointsConfig, BackoffConfig, DeployerConfig, DeployerProviderDefaults, EventsConfig, F32Bits, GreenticConfig,
    MetricsConfig, NetworkConfig, PackSourceConfig, PacksConfig, PathsConfig, ReconnectConfig, RuntimeConfig,
    ServiceConfig, ServiceDefinitionConfig, ServiceEndpointConfig, ServiceTransportConfig, ServicesConfig,
    TelemetryConfig, TelemetryExporterKind, TlsMode, F32_ONE_BITS,
};

verus! {

/// The characters of each string, in order.
pub open spec fn strings_view(v: Seq<String>) -> Seq<Seq<char>> {
    v.map_values(|s: String| s@)
}

/// The characters of `o`, or `d` when `o` is absent.
pub open spec fn str_or(o: Option<String>, d: Seq<char>) -> Seq<char> {
    match o {
        Some(s) => s@,
        None => d,
    }
}

/// The transport that a transport layer describes: `noop`, `http` with a URL, or `nats`
/// with a URL. Anything else describes no transport.
pub open spec fn resolve_transport(t: ServiceTransportLayer) -> Option<ServiceTransportConfig> {
    match t.kind {
        None => None,
        Some(k) => if k@ == "noop"@ {
            Some(ServiceTransportConfig::Noop)
        } else if k@ == "http"@ {
            match t.url {
                Some(u) => Some(ServiceTransportConfig::Http { url: u, headers: t.headers }),
                None => None,
            }
        } else if k@ == "nats"@ {
            match t.url {
                Some(u) => Some(ServiceTransportConfig::Nats { url: u, subject_prefix: t.subject_prefix }),
                None => None,
            }
        } else {
            None
        },
    }
}

/// The warning given for the transport layer of service `name`, if it describes no
/// transport although it says something.
pub open spec fn transport_warning(name: Seq<char>, t: ServiceTransportLayer) -> Seq<Seq<char>> {
    match t.kind {
        None => if t.url is Some {
            seq!["services."@ + name + ".url is set without a transport kind; ignoring the transport"@]
        } else {
            seq![]
        },
        Some(k) => if k@ == "noop"@ {
            seq![]
        } else if k@ == "http"@ || k@ == "nats"@ {
            if t.url is Some {
                seq![]
            } else {
                seq!["services."@ + name + " transport '"@ + k@ + "' has no url; ignoring the transport"@]
            }
        } else {
            seq!["Unknown transport kind '"@ + k@ + "' for services."@ + name + "; ignoring the transport"@]
        },
    }
}

pub open spec fn resolve_metrics(m: MetricsLayer) -> MetricsConfig {
    MetricsConfig { enabled: m.enabled, bind_addr: m.bind_addr, port: m.port, path: m.path }
}

pub open spec fn resolve_service_config(s: ServiceConfigLayer) -> ServiceConfig {
    ServiceConfig {
        bind_addr: s.bind_addr,
        port: s.port,
        public_base_url: s.public_base_url,
        metrics: match s.metrics {
            Some(m) => Some(resolve_metrics(m)),
            None => None,
        },
    }
}

pub open spec fn resolve_definition(l: Option<ServiceLayer>) -> Option<ServiceDefinitionConfig> {
    match l {
        None => None,
        Some(s) => Some(ServiceDefinitionConfig {
            transport: resolve_transport(s.transport),
            service: match s.service {
                Some(c) => Some(resolve_service_config(c)),
                None => None,
            },
        }),
    }
}

pub open spec fn definition_warning(name: Seq<char>, l: Option<ServiceLayer>) -> Seq<Seq<char>> {
    match l {
        None => seq![],
        Some(s) => transport_warning(name, s.transport),
    }
}

pub open spec fn resolve_endpoint(l: Option<ServiceEndpointLayer>) -> Option<ServiceEndpointConfig> {
    match l {
        Some(e) => match e.url {
            Some(u) => Some(ServiceEndpointConfig { url: u, headers: e.headers }),
            None => None,
        },
        None => None,
    }
}

/// The services section: the legacy events endpoint when it has a URL, and each service
/// definition as its layer describes it. No layer configures `store`.
pub open spec fn resolve_services(l: Option<ServicesLayer>) -> Option<ServicesConfig> {
    match l {
        None => None,
        Some(s) => Some(ServicesConfig {
            events: resolve_endpoint(s.events),
            runner: resolve_definition(s.runner),
            deployer: resolve_definition(s.deployer),
            events_transport: resolve_definition(s.events_transport),
            source: resolve_definition(s.source),
            publish: resolve_definition(s.publish),
            store: None,
            metadata: resolve_definition(s.metadata),
            oauth_broker: resolve_definition(s.oauth_broker),
        }),
    }
}

/// The warnings for service transports that are described but unusable, in field order.
pub open spec fn services_warnings(l: Option<ServicesLayer>) -> Seq<Seq<char>> {
    match l {
        None => seq![],
        Some(s) => definition_warning("runner"@, s.runner) + definition_warning("deployer"@, s.deployer)
            + definition_warning("events_transport"@, s.events_transport) + definition_warning("source"@, s.source)
            + definition_warning("publish"@, s.publish) + definition_warning("metadata"@, s.metadata)
            + definition_warning("oauth_broker"@, s.oauth_broker),
    }
}

pub open spec fn resolve_events(l: Option<EventsLayer>) -> Option<EventsConfig> {
    match l {
        None => None,
        Some(e) => Some(EventsConfig {
            reconnect: match e.reconnect {
                Some(r) => Some(ReconnectConfig { enabled: r.enabled, max_retries: r.max_retries }),
                None => None,
            },
            backoff: match e.backoff {
                Some(b) => Some(BackoffConfig { initial_ms: b.initial_ms, max_ms: b.max_ms, multiplier: b.multiplier, jitter: b.jitter }),
                None => None,
            },
        }),
    }
}

pub open spec fn resolve_runtime(l: RuntimeLayer) -> RuntimeConfig {
    RuntimeConfig {
        max_concurrency: l.max_concurrency,
        task_timeout_ms: l.task_timeout_ms,
        shutdown_grace_ms: l.shutdown_grace_ms,
        admin_endpoints: match l.admin_endpoints {
            Some(a) => Some(AdminEndpointsConfig { secrets_explain_enabled: a.secrets_explain_enabled.unwrap_or(false) }),
            None => None,
        },
    }
}

/// The exporter a telemetry layer names: `otlp`, `stdout`, or none (also for `none`, `off`,
/// `disabled`, an absent value, and any name not listed).
pub open spec fn exporter_of(raw: Option<String>) -> TelemetryExporterKind {
    match raw {
        Some(s) => if s@ == "otlp"@ {
            TelemetryExporterKind::Otlp
        } else if s@ == "stdout"@ {
            TelemetryExporterKind::Stdout
        } else {
            TelemetryExporterKind::NoExporter
        },
        None => TelemetryExporterKind::NoExporter,
    }
}

/// The warning for an exporter name that is not recognized.
pub open spec fn exporter_warning(raw: Option<String>) -> Seq<Seq<char>> {
    match raw {
        Some(s) => if s@ == "otlp"@ || s@ == "stdout"@ || s@ == "none"@ || s@ == "off"@ || s@ == "disabled"@ {
            seq![]
        } else {
            seq!["Unknown telemetry exporter '"@ + s@ + "', defaulting to none"@]
        },
        None => seq![],
    }
}

pub open spec fn resolve_telemetry(l: TelemetryLayer) -> TelemetryConfig {
    TelemetryConfig {
        enabled: l.enabled.unwrap_or(true),
        exporter: exporter_of(l.exporter),
        endpoint: l.endpoint,
        sampling: l.sampling.unwrap_or(F32Bits(F32_ONE_BITS)),
    }
}

/// The TLS mode a network layer names: `disabled` (also `off`, `false`), `strict`, or
/// `system` (also for an absent value and any name not listed).
pub open spec fn tls_mode_of(raw: Option<String>) -> TlsMode {
    match raw {
        Some(s) => if s@ == "disabled"@ || s@ == "off"@ || s@ == "false"@ {
            TlsMode::Disabled
        } else if s@ == "strict"@ {
            TlsMode::Strict
        } else {
            TlsMode::System
        },
        None => TlsMode::System,
    }
}

/// The warning for a TLS mode name that is not recognized.
pub open spec fn tls_warning(raw: Option<String>) -> Seq<Seq<char>> {
    match raw {
        Some(s) => if s@ == "disabled"@ || s@ == "off"@ || s@ == "false"@ || s@ == "strict"@ || s@ == "system"@ {
            seq![]
        } else {
            seq!["Unknown TLS mode '"@ + s@ + "', defaulting to system"@]
        },
        None => seq![],
    }
}

pub open spec fn resolve_network(l: NetworkLayer) -> NetworkConfig {
    NetworkConfig {
        proxy_url: l.proxy_url,
        tls_mode: tls_mode_of(l.tls_mode),
        connect_timeout_ms: l.connect_timeout_ms,
        read_timeout_ms: l.read_timeout_ms,
    }
}

pub open spec fn resolve_deployer(l: Option<DeployerLayer>) -> Option<DeployerConfig> {
    match l {
        None => None,
        Some(d) => Some(DeployerConfig {
            base_domain: d.base_domain,
            provider: match d.provider {
                Some(p) => Some(DeployerProviderDefaults { provider_kind: p.provider_kind, region: p.region }),
                None => None,
            },
        }),
    }
}

/// Whether the packs layer names a remote source without saying where it is.
pub open spec fn pack_source_incomplete(l: Option<PacksLayer>) -> bool {
    match l {
        Some(p) => match p.source {
            Some(PackSourceLayer::HttpIndex { url: None }) => true,
            Some(PackSourceLayer::OciRegistry { reference: None }) => true,
            _ => false,
        },
        None => false,
    }
}

/// Whether `r` is the packs section resolved from `l`, with defaults under the resolved
/// `paths`: the cache in `<cache_dir>/packs` and a local index at
/// `<state_dir>/packs/index.json`. Relative paths are taken relative to `root`.
pub open spec fn packs_resolved(l: Option<PacksLayer>, paths: PathsConfig, root: Seq<char>, r: PacksConfig) -> bool {
    let p = l.unwrap_or(empty_packs_layer());
    &&& r.cache_dir@ == absolute_in(str_or(p.cache_dir, path_join(paths.cache_dir@, "packs"@)), root)
    &&& r.index_cache_ttl_secs == p.index_cache_ttl_secs
    &&& match p.source {
        Some(PackSourceLayer::LocalIndex { path: Some(x) }) => r.source is LocalIndex && r.source->LocalIndex_path@ == absolute_in(x@, root),
        Some(PackSourceLayer::HttpIndex { url: Some(u) }) => r.source == (PackSourceConfig::HttpIndex { url: u }),
        Some(PackSourceLayer::OciRegistry { reference: Some(x) }) => r.source == (PackSourceConfig::OciRegistry { reference: x }),
        _ => r.source is LocalIndex && r.source->LocalIndex_path@ == path_join(path_join(paths.state_dir@, "packs"@), "index.json"@),
    }
    &&& match p.trust {
        None => r.trust is None,
        Some(t) => r.trust is Some && r.trust->0.public_keys@ == (match t.public_keys {
            Some(k) => k@,
            None => Seq::<String>::empty(),
        }) && r.trust->0.require_signatures == t.require_signatures.unwrap_or(false),
    }
}

/// Whether `c` is the complete configuration that the merged layer `acc` resolves to, with
/// `d` as the default layout. Every field not set by `acc` takes its documented default.
pub open spec fn finalized(acc: ConfigLayer, d: DefaultPaths, c: GreenticConfig) -> bool {
    let env = acc.environment.unwrap_or(empty_environment_layer());
    let paths = acc.paths.unwrap_or(empty_paths_layer());
    let root = d.root@;
    &&& c.schema_version.0@ == (match acc.schema_version {
        Some(v) => v.0@,
        None => seq!['1'],
    })
    &&& (match env.env_id {
        Some(e) => c.environment.env_id == e,
        None => c.environment.env_id.0@ == "dev"@,
    })
    &&& c.environment.deployment == env.deployment
    &&& c.environment.connection == env.connection
    &&& c.environment.region == env.region
    &&& c.paths.greentic_root@ == absolute_in(str_or(paths.greentic_root, root), root)
    &&& c.paths.state_dir@ == absolute_in(str_or(paths.state_dir, d.state_dir@), root)
    &&& c.paths.cache_dir@ == absolute_in(str_or(paths.cache_dir, d.cache_dir@), root)
    &&& c.paths.logs_dir@ == absolute_in(str_or(paths.logs_dir, d.logs_dir@), root)
    &&& c.packs is Some && packs_resolved(acc.packs, c.paths, root, c.packs->0)
    &&& c.services == resolve_services(acc.services)
    &&& c.events == resolve_events(acc.events)
    &&& c.runtime == resolve_runtime(acc.runtime.unwrap_or(empty_runtime_layer()))
    &&& c.telemetry == resolve_telemetry(acc.telemetry.unwrap_or(empty_telemetry_layer()))
    &&& c.network == resolve_network(acc.network.unwrap_or(empty_network_layer()))
    &&& c.deployer == resolve_deployer(acc.deployer)
    &&& c.secrets.kind@ == str_or(acc.secrets.unwrap_or(empty_secrets_backend_ref_layer()).kind, "none"@)
    &&& c.secrets.reference == acc.secrets.unwrap_or(empty_secrets_backend_ref_layer()).reference
    &&& match acc.dev {
        Some(dev) => match dev.default_tenant {
            Some(t) => c.dev is Some && c.dev->0.default_tenant == t && c.dev->0.default_team == dev.default_team
                && (match dev.default_env {
                    Some(e) => c.dev->0.default_env == e,
                    None => c.dev->0.default_env.0@ == "dev"@,
                }),
            None => c.dev is None,
        },
        None => c.dev is None,
    }
}

/// A path made absolute against an absolute root is absolute.
pub proof fn lemma_absolute_in_is_absolute(p: Seq<char>, root: Seq<char>)
    requires
        path_is_absolute(root),
    ensures
        path_is_absolute(absolute_in(p, root)),
{
    if !path_is_absolute(p) {
        assert(path_join(root, p)[0] == root[0]);
    }
}

/// With an absolute project root, every directory of a resolved configuration, the pack
/// cache and a local pack index are absolute paths.
pub proof fn lemma_resolved_paths_absolute(acc: ConfigLayer, d: DefaultPaths, c: GreenticConfig)
    requires
        finalized(acc, d, c),
        path_is_absolute(d.root@),
    ensures
        path_is_absolute(c.paths.greentic_root@),
        path_is_absolute(c.paths.state_dir@),
        path_is_absolute(c.paths.cache_dir@),
        path_is_absolute(c.paths.logs_dir@),
        c.packs is Some && path_is_absolute(c.packs->0.cache_dir@),
        c.packs->0.source is LocalIndex ==> path_is_absolute(c.packs->0.source->LocalIndex_path@),
{
    let paths = acc.paths.unwrap_or(empty_paths_layer());
    let root = d.root@;
    lemma_absolute_in_is_absolute(str_or(paths.greentic_root, root), root);
    lemma_absolute_in_is_absolute(str_or(paths.state_dir, d.state_dir@), root);
    lemma_absolute_in_is_absolute(str_or(paths.cache_dir, d.cache_dir@), root);
    lemma_absolute_in_is_absolute(str_or(paths.logs_dir, d.logs_dir@), root);
    let p = acc.packs.unwrap_or(empty_packs_layer());
    lemma_absolute_in_is_absolute(str_or(p.cache_dir, path_join(c.paths.cache_dir@, "packs"@)), root);
    match p.source {
        Some(PackSourceLayer::LocalIndex { path: Some(x) }) => {
            lemma_absolute_in_is_absolute(x@, root);
        },
        Some(PackSourceLayer::HttpIndex { url: Some(u) }) => {},
        Some(PackSourceLayer::OciRegistry { reference: Some(x) }) => {},
        _ => {
            let s = path_join(c.paths.state_dir@, "packs"@);
            assert(path_is_absolute(s)) by {
                reveal_strlit("packs");
            }
            assert(path_is_absolute(path_join(s, "index.json"@))) by {
                reveal_strlit("index.json");
            }
        },
    }
}

/// The warnings resolution gives for `acc`: unusable service transports, then an unknown
/// telemetry exporter, then an unknown TLS mode.
pub open spec fn finalize_warnings(acc: ConfigLayer) -> Seq<Seq<char>> {
    services_warnings(acc.services)
        + exporter_warning(acc.telemetry.unwrap_or(empty_telemetry_layer()).exporter)
        + tls_warning(acc.network.unwrap_or(empty_network_layer()).tls_mode)
}

/// Why a merged layer could not be resolved.
#[derive(Debug, Clone, Copy, PartialEq, Eq, Structural)]
pub enum MergeError {
    /// `packs.source` is an HTTP index without a URL.
    PackSourceMissingUrl,
    /// `packs.source` is an OCI registry without a reference.
    PackSourceMissingReference,
}

/// The description of a merge error.
pub open spec fn merge_error_text(e: MergeError) -> Seq<char> {
    match e {
        MergeError::PackSourceMissingUrl => "packs.source is an http_index without a url"@,
        MergeError::PackSourceMissingReference => "packs.source is an oci_registry without a reference"@,
    }
}

impl MergeError {
    /// A human-readable description.
    pub fn message(&self) -> (r: String)
        ensures
            r@ == merge_error_text(*self),
    {
        match self {
            MergeError::PackSourceMissingUrl => owned("packs.source is an http_index without a url"),
            MergeError::PackSourceMissingReference => owned("packs.source is an oci_registry without a reference"),
        }
    }
}

/// The error that resolving `acc` ends in, if any.
pub open spec fn finalize_error(acc: ConfigLayer) -> Option<MergeError> {
    match acc.packs {
        Some(p) => match p.source {
            Some(PackSourceLayer::HttpIndex { url: None }) => Some(MergeError::PackSourceMissingUrl),
            Some(PackSourceLayer::OciRegistry { reference: None }) => Some(MergeError::PackSourceMissingReference),
            _ => None,
        },
        None => None,
    }
}

/// Appends `w` to the warnings.
pub fn push_warning(warnings: &mut Vec<String>, w: String)
    ensures
        strings_view(final(warnings)@) == strings_view(old(warnings)@).push(w@),
{
    warnings.push(w);
    assert(strings_view(warnings@) =~= strings_view(old(warnings)@).push(w@));
}

fn resolve_transport_layer(name: &str, t: ServiceTransportLayer, warnings: &mut Vec<String>) -> (r: Option<ServiceTransportConfig>)
    ensures
        r == resolve_transport(t),
        strings_view(final(warnings)@) == strings_view(old(warnings)@) + transport_warning(name@, t),
{
    let ghost t0 = t;
    let ServiceTransportLayer { kind, url, headers, subject_prefix } = t;
    match kind {
        None => {
            if url.is_some() {
                let w = concat(concat("services.", name).as_str(), ".url is set without a transport kind; ignoring the transport");
                push_warning(warnings, w);
            } else {
                assert(strings_view(warnings@) =~= strings_view(old(warnings)@) + transport_warning(name@, t0));
            }
            None
        },
        Some(k) => {
            if str_eq(k.as_str(), "noop") {
                assert(strings_view(warnings@) =~= strings_view(old(warnings)@) + transport_warning(name@, t0));
                Some(ServiceTransportConfig::Noop)
            } else if str_eq(k.as_str(), "http") || str_eq(k.as_str(), "nats") {
                let is_http = str_eq(k.as_str(), "http");
                match url {
                    Some(u) => {
                        assert(strings_view(warnings@) =~= strings_view(old(warnings)@) + transport_warning(name@, t0));
                        if is_http {
                            Some(ServiceTransportConfig::Http { url: u, headers })
                        } else {
                            Some(ServiceTransportConfig::Nats { url: u, subject_prefix })
                        }
                    },
                    None => {
                        let a = concat(concat("services.", name).as_str(), " transport '");
                        let b = concat(concat(a.as_str(), k.as_str()).as_str(), "' has no url; ignoring the transport");
                        push_warning(warnings, b);
                        None
                    },
                }
            } else {
                let a = concat(concat("Unknown transport kind '", k.as_str()).as_str(), "' for services.");
                let b = concat(concat(a.as_str(), name).as_str(), "; ignoring the transport");
                push_warning(warnings, b);
                None
            }
        },
    }
}

fn resolve_definition_layer(name: &str, l: Option<ServiceLayer>, warnings: &mut Vec<String>) -> (r: Option<ServiceDefinitionConfig>)
    ensures
        r == resolve_definition(l),
        strings_view(final(warnings)@) == strings_view(old(warnings)@) + definition_warning(name@, l),
{
    match l {
        None => {
            assert(strings_view(warnings@) =~= strings_view(old(warnings)@) + definition_warning(name@, l));
            None
        },
        Some(s) => {
            let ServiceLayer { transport, service } = s;
            let transport = resolve_transport_layer(name, transport, warnings);
            let service = match service {
                Some(c) => {
                    let ServiceConfigLayer { bind_addr, port, public_base_url, metrics } = c;
                    let metrics = match metrics {
                        Some(m) => Some(MetricsConfig { enabled: m.enabled, bind_addr: m.bind_addr, port: m.port, path: m.path }),
                        None => None,
                    };
                    Some(ServiceConfig { bind_addr, port, public_base_url, metrics })
                },
                None => None,
            };
            Some(ServiceDefinitionConfig { transport, service })
        },
    }
}

fn resolve_services_layer(l: Option<ServicesLayer>, warnings: &mut Vec<String>) -> (r: Option<ServicesConfig>)
    ensures
        r == resolve_services(l),
        strings_view(final(warnings)@) == strings_view(old(warnings)@) + services_warnings(l),
{
    match l {
        None => {
            assert(strings_view(warnings@) =~= strings_view(old(warnings)@) + services_warnings(l));
            None
        },
        Some(s) => {
            let ghost w0 = strings_view(warnings@);
            let ServicesLayer { events, runner, deployer, events_transport, source, publish, metadata, oauth_broker } = s;
            let events = match events {
                Some(e) => match e.url {
                    Some(u) => Some(ServiceEndpointConfig { url: u, headers: e.headers }),
                    None => None,
                },
                None => None,
            };
            let runner = resolve_definition_layer("runner", runner, warnings);
            let deployer = resolve_definition_layer("deployer", deployer, warnings);
            let events_transport = resolve_definition_layer("events_transport", events_transport, warnings);
            let source = resolve_definition_layer("source", source, warnings);
            let publish = resolve_definition_layer("publish", publish, warnings);
            let metadata = resolve_definition_layer("metadata", metadata, warnings);
            let oauth_broker = resolve_definition_layer("oauth_broker", oauth_broker, warnings);
            assert(strings_view(warnings@) =~= w0 + services_warnings(l));
            Some(ServicesConfig { events, runner, deployer, events_transport, source, publish, store: None, metadata, oauth_broker })
        },
    }
}

/// The telemetry exporter named by `raw`, and a warning when the name is not recognized.
pub fn parse_exporter(raw: Option<String>) -> (r: (TelemetryExporterKind, Option<String>))
    ensures
        r.0 == exporter_of(raw),
        (match r.1 {
            Some(w) => seq![w@],
            None => Seq::<Seq<char>>::empty(),
        }) == exporter_warning(raw),
{
    match raw {
        None => (TelemetryExporterKind::NoExporter, None),
        Some(s) => {
            if str_eq(s.as_str(), "otlp") {
                (TelemetryExporterKind::Otlp, None)
            } else if str_eq(s.as_str(), "stdout") {
                (TelemetryExporterKind::Stdout, None)
            } else if str_eq(s.as_str(), "none") || str_eq(s.as_str(), "off") || str_eq(s.as_str(), "disabled") {
                (TelemetryExporterKind::NoExporter, None)
            } else {
                let w = concat(concat("Unknown telemetry exporter '", s.as_str()).as_str(), "', defaulting to none");
                (TelemetryExporterKind::NoExporter, Some(w))
            }
        },
    }
}

/// The TLS mode named by `raw`, and a warning when the name is not recognized.
pub fn parse_tls_mode(raw: Option<String>) -> (r: (TlsMode, Option<String>))
    ensures
        r.0 == tls_mode_of(raw),
        (match r.1 {
            Some(w) => seq![w@],
            None => Seq::<Seq<char>>::empty(),
        }) == tls_warning(raw),
{
    match raw {
        None => (TlsMode::System, None),
        Some(s) => {
            if str_eq(s.as_str(), "disabled") || str_eq(s.as_str(), "off") || str_eq(s.as_str(), "false") {
                (TlsMode::Disabled, None)
            } else if str_eq(s.as_str(), "strict") {
                (TlsMode::Strict, None)
            } else if str_eq(s.as_str(), "system") {
                (TlsMode::System, None)
            } else {
                let w = concat(concat("Unknown TLS mode '", s.as_str()).as_str(), "', defaulting to system");
                (TlsMode::System, Some(w))
            }
        },
    }
}

/// `o`'s characters, or a fresh copy of `d` when `o` is absent.
fn string_or(o: Option<String>, d: &str) -> (r: String)
    ensures
        r@ == str_or(o, d@),
{
    match o {
        Some(s) => s,
        None => owned(d),
    }
}

fn resolve_packs_layer(l: Option<PacksLayer>, paths: &PathsConfig, root: &str) -> (r: PacksConfig)
    requires
        !pack_source_incomplete(l),
    ensures
        packs_resolved(l, *paths, root@, r),
{
    let p = match l {
        Some(p) => p,
        None => PacksLayer::empty(),
    };
    let PacksLayer { source, cache_dir, index_cache_ttl_secs, trust } = p;
    let default_cache = join(paths.cache_dir.as_str(), "packs");
    let cache_dir = make_absolute(string_or(cache_dir, default_cache.as_str()), root);
    let default_index = join(join(paths.state_dir.as_str(), "packs").as_str(), "index.json");
    let source = match source {
        Some(PackSourceLayer::LocalIndex { path: Some(x) }) => PackSourceConfig::LocalIndex { path: make_absolute(x, root) },
        Some(PackSourceLayer::HttpIndex { url: Some(u) }) => PackSourceConfig::HttpIndex { url: u },
        Some(PackSourceLayer::OciRegistry { reference: Some(x) }) => PackSourceConfig::OciRegistry { reference: x },
        _ => PackSourceConfig::LocalIndex { path: default_index },
    };
    let trust = match trust {
        None => None,
        Some(t) => {
            let public_keys = match t.public_keys {
                Some(k) => k,
                None => Vec::new(),
            };
            let require_signatures = match t.require_signatures {
                Some(b) => b,
                None => false,
            };
            Some(PackTrustConfig { public_keys, require_signatures })
        },
    };
    PacksConfig { source, cache_dir, index_cache_ttl_secs, trust }
}

/// Resolves the merged layer `acc` into a complete configuration, with `defaults` as the
/// default layout, appending the warnings of `finalize_warnings` to `warnings`.
pub fn finalize_layer(acc: ConfigLayer, defaults: &DefaultPaths, warnings: &mut Vec<String>) -> (r: Result<GreenticConfig, MergeError>)
    ensures
        match r {
            Ok(c) => finalize_error(acc) is None && finalized(acc, *defaults, c)
                && strings_view(final(warnings)@) == strings_view(old(warnings)@) + finalize_warnings(acc),
            Err(e) => finalize_error(acc) == Some(e),
        },
{
    let ghost a = acc;
    let ghost w0 = strings_view(warnings@);
    match &acc.packs {
        Some(p) => match &p.source {
            Some(PackSourceLayer::HttpIndex { url: None }) => {
                return Err(MergeError::PackSourceMissingUrl);
            },
            Some(PackSourceLayer::OciRegistry { reference: None }) => {
                return Err(MergeError::PackSourceMissingReference);
            },
            _ => {},
        },
        None => {},
    }
    let ConfigLayer {
        schema_version,
        environment,
        paths,
        services,
        events,
        runtime,
        telemetry,
        network,
        deployer,
        secrets,
        packs,
        dev,
    } = acc;
    let schema_version = match schema_version {
        Some(v) => v,
        None => ConfigVersion::v1(),
    };
    let env = match environment {
        Some(e) => e,
        None => EnvironmentLayer::empty(),
    };
    let env_id = match env.env_id {
        Some(x) => x,
        None => EnvId(owned("dev")),
    };
    let environment = EnvironmentConfig {
        env_id,
        deployment: env.deployment,
        connection: env.connection,
        region: env.region,
    };
    let root = defaults.root.as_str();
    let pl = match paths {
        Some(p) => p,
        None => PathsLayer::empty(),
    };
    let paths = PathsConfig {
        greentic_root: make_absolute(string_or(pl.greentic_root, root), root),
        state_dir: make_absolute(string_or(pl.state_dir, defaults.state_dir.as_str()), root),
        cache_dir: make_absolute(string_or(pl.cache_dir, defaults.cache_dir.as_str()), root),
        logs_dir: make_absolute(string_or(pl.logs_dir, defaults.logs_dir.as_str()), root),
    };
    let packs = resolve_packs_layer(packs, &paths, root);
    let services = resolve_services_layer(services, warnings);
    let events = match events {
        None => None,
        Some(e) => Some(EventsConfig {
            reconnect: match e.reconnect {
                Some(r) => Some(ReconnectConfig { enabled: r.enabled, max_retries: r.max_retries }),
                None => None,
            },
            backoff: match e.backoff {
                Some(b) => Some(BackoffConfig { initial_ms: b.initial_ms, max_ms: b.max_ms, multiplier: b.multiplier, jitter: b.jitter }),
                None => None,
            },
        }),
    };
    let rl = match runtime {
        Some(r) => r,
        None => RuntimeLayer::empty(),
    };
    let runtime = RuntimeConfig {
        max_concurrency: rl.max_concurrency,
        task_timeout_ms: rl.task_timeout_ms,
        shutdown_grace_ms: rl.shutdown_grace_ms,
        admin_endpoints: match rl.admin_endpoints {
            Some(x) => Some(AdminEndpointsConfig {
                secrets_explain_enabled: match x.secrets_explain_enabled {
                    Some(b) => b,
                    None => false,
                },
            }),
            None => None,
        },
    };
    let tl = match telemetry {
        Some(t) => t,
        None => TelemetryLayer::empty(),
    };
    let (exporter, exporter_warn) = parse_exporter(tl.exporter);
    if let Some(w) = exporter_warn {
        push_warning(warnings, w);
    }
    let telemetry = TelemetryConfig {
        enabled: match tl.enabled {
            Some(b) => b,
            None => true,
        },
        exporter,
        endpoint: tl.endpoint,
        sampling: match tl.sampling {
            Some(x) => x,
            None => F32Bits(F32_ONE_BITS),
        },
    };
    let nl = match network {
        Some(n) => n,
        None => NetworkLayer::empty(),
    };
    let (tls_mode, tls_warn) = parse_tls_mode(nl.tls_mode);
    if let Some(w) = tls_warn {
        push_warning(warnings, w);
    }
    let network = NetworkConfig {
        proxy_url: nl.proxy_url,
        tls_mode,
        connect_timeout_ms: nl.connect_timeout_ms,
        read_timeout_ms: nl.read_timeout_ms,
    };
    let deployer = match deployer {
        None => None,
        Some(dl) => Some(DeployerConfig {
            base_domain: dl.base_domain,
            provider: match dl.provider {
                Some(p) => Some(DeployerProviderDefaults { provider_kind: p.provider_kind, region: p.region }),
                None => None,
            },
        }),
    };
    let sl = match secrets {
        Some(x) => x,
        None => SecretsBackendRefLayer::empty(),
    };
    let secrets = SecretsBackendRefConfig { kind: string_or(sl.kind, "none"), reference: sl.reference };
    let dev = match dev {
        None => None,
        Some(dl) => match dl.default_tenant {
            None => None,
            Some(t) => Some(DevConfig {
                default_env: match dl.default_env {
                    Some(e) => e,
                    None => EnvId(owned("dev")),
                },
                default_tenant: t,
                default_team: dl.default_team,
            }),
        },
    };
    assert(strings_view(warnings@) =~= w0 + finalize_warnings(a));
    Ok(GreenticConfig {
        schema_version,
        environment,
        paths,
        packs: Some(packs),
        services,
        events,
        runtime,
        telemetry,
        network,
        deployer,
        secrets,
        dev,
    })
}

} // verus!
