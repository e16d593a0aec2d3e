//! Checks on a resolved configuration: hard errors and advisory warnings.
use vstd::prelude::*;
use crate::domain::{base_domain_ok, base_domain_valid};
use crate::paths::{is_absolute, path_is_absolute};
use crate::resolve::{push_warning, strings_view};
use crate::text::{ascii_lowercase_chars, ascii_lower, chars_of, concat, contains_chars, contains_seq, owned, str_eq};
use crate::types::{
    BackoffConfig, ConnectionKind, EnvId, EnvironmentConfig, F32Bits, F64Bits, GreenticConfig, PackSourceConfig,
    ServiceDefinitionConfig, ServiceEndpointConfig, ServiceTransportConfig, TelemetryExporterKind,
};
use crate::weburl::{url_parse_result, Url};

verus! {

/// Why a configuration is rejected.
#[derive(Debug, Clone, PartialEq, Eq)]
pub enum ValidationError {
    /// Dev-only settings in an environment that is not a dev environment.
    DevNotAllowed(String),
    /// A path that must be absolute is not.
    RelativePath(String),
    /// The telemetry sampling ratio is outside `0.0..=1.0`.
    TelemetrySampling(F32Bits),
    /// A remote pack source in an offline environment.
    PacksSourceOffline,
    /// A remote events endpoint in an offline environment.
    EventsEndpointOffline(String),
    /// `events.backoff.initial_ms` is zero.
    EventsBackoffInitial(u64),
    /// `events.backoff.max_ms` is below `initial_ms`.
    EventsBackoffMax { max: u64, initial: u64 },
    /// `events.backoff.multiplier` is not a finite number of at least 1.0.
    EventsBackoffMultiplier(F64Bits),
    /// `deployer.base_domain` is not a valid DNS name.
    DeployerBaseDomain(String),
}

/// A validation error with its text as characters.
pub enum ValidationFailure {
    DevNotAllowed(Seq<char>),
    RelativePath(Seq<char>),
    TelemetrySampling(F32Bits),
    PacksSourceOffline,
    EventsEndpointOffline(Seq<char>),
    EventsBackoffInitial(u64),
    EventsBackoffMax { max: u64, initial: u64 },
    EventsBackoffMultiplier(F64Bits),
    DeployerBaseDomain(Seq<char>),
}

impl View for ValidationError {
    type V = ValidationFailure;

    open spec fn view(&self) -> ValidationFailure {
        match self {
            ValidationError::DevNotAllowed(s) => ValidationFailure::DevNotAllowed(s@),
            ValidationError::RelativePath(s) => ValidationFailure::RelativePath(s@),
            ValidationError::TelemetrySampling(x) => ValidationFailure::TelemetrySampling(*x),
            ValidationError::PacksSourceOffline => ValidationFailure::PacksSourceOffline,
            ValidationError::EventsEndpointOffline(s) => ValidationFailure::EventsEndpointOffline(s@),
            ValidationError::EventsBackoffInitial(x) => ValidationFailure::EventsBackoffInitial(*x),
            ValidationError::EventsBackoffMax { max, initial } => ValidationFailure::EventsBackoffMax { max: *max, initial: *initial },
            ValidationError::EventsBackoffMultiplier(x) => ValidationFailure::EventsBackoffMultiplier(*x),
            ValidationError::DeployerBaseDomain(s) => ValidationFailure::DeployerBaseDomain(s@),
        }
    }
}

/// The octets of the IP address that `host` spells, as `str::parse::<core::net::IpAddr>`
/// reads it (four for IPv4, sixteen for IPv6), or `None` when it is not an IP address.
pub uninterp spec fn ip_literal(host: Seq<char>) -> Option<Seq<u8>>;

/// Trusted: `str::parse::<core::net::IpAddr>`, with the address handed back as its octets
/// (`Ipv4Addr::octets` or `Ipv6Addr::octets`). The contract names the outcome and states the
/// octet count of each address family.
#[verifier::external_body]
fn parse_ip_octets(host: &str) -> (r: Option<Vec<u8>>)
    ensures
        r is Some == ip_literal(host@) is Some,
        r matches Some(o) ==> o@ == ip_literal(host@)->0 && (o@.len() == 4 || o@.len() == 16),
{
    match host.parse::<core::net::IpAddr>() {
        Ok(core::net::IpAddr::V4(a)) => Some(a.octets().to_vec()),
        Ok(core::net::IpAddr::V6(a)) => Some(a.octets().to_vec()),
        Err(_) => None,
    }
}

/// Whether the octets of an address are a loopback address: `127.0.0.0/8` for IPv4 and
/// `::1` for IPv6, as `IpAddr::is_loopback` documents.
pub open spec fn loopback_octets(o: Seq<u8>) -> bool {
    if o.len() == 4 {
        o[0] == 127u8
    } else if o.len() == 16 {
        (forall|i: int| 0 <= i < 15 ==> o[i] == 0u8) && o[15] == 1u8
    } else {
        false
    }
}

/// Whether `host` is an IP address literal that is a loopback address.
pub open spec fn ip_literal_is_loopback(host: Seq<char>) -> bool {
    match ip_literal(host) {
        Some(o) => loopback_octets(o),
        None => false,
    }
}

fn octets_loopback(o: &Vec<u8>) -> (r: bool)
    ensures
        r == loopback_octets(o@),
{
    if o.len() == 4 {
        o[0] == 127
    } else if o.len() == 16 {
        let mut i: usize = 0;
        while i < 15
            invariant
                o@.len() == 16,
                i <= 15,
                forall|j: int| 0 <= j < i ==> o@[j] == 0u8,
            decreases 15 - i,
        {
            if o[i] != 0 {
                return false;
            }
            i = i + 1;
        }
        o[15] == 1
    } else {
        false
    }
}

/// Whether `host` is an IP address literal that is a loopback address.
fn host_is_loopback_ip(host: &str) -> (r: bool)
    ensures
        r == ip_literal_is_loopback(host@),
{
    match parse_ip_octets(host) {
        Some(o) => octets_loopback(&o),
        None => false,
    }
}

/// Whether a parsed URL points at the local machine: its host is `localhost` or a loopback
/// IP address.
pub open spec fn url_is_local(u: (Seq<char>, Option<Seq<char>>)) -> bool {
    match u.1 {
        Some(h) => h == "localhost"@ || ip_literal_is_loopback(h),
        None => false,
    }
}

/// Whether `url` points at the local machine.
pub fn is_local_url(url: &Url) -> (r: bool)
    ensures
        r == url_is_local(url@),
{
    match url.host_str() {
        Some(h) => str_eq(h, "localhost") || host_is_loopback_ip(h),
        None => false,
    }
}

/// Whether a telemetry endpoint may reach beyond the local machine: it is set, and it is
/// either not a URL or a URL whose host is not local.
pub open spec fn endpoint_non_loopback(endpoint: Option<Seq<char>>) -> bool {
    match endpoint {
        None => false,
        Some(raw) => match url_parse_result(raw) {
            None => true,
            Some(u) => !url_is_local(u),
        },
    }
}

fn telemetry_endpoint_is_non_loopback(endpoint: Option<&str>) -> (r: bool)
    ensures
        r == endpoint_non_loopback(match endpoint {
            Some(s) => Some(s@),
            None => None,
        }),
{
    match endpoint {
        None => false,
        Some(raw) => match Url::parse(raw) {
            Err(_) => true,
            Ok(url) => !is_local_url(&url),
        },
    }
}

/// The JSON rendering of an environment identifier, as `serde_json` writes it.
pub uninterp spec fn env_id_json(id: Seq<char>) -> Seq<char>;

/// Whether `s` is a valid identifier in `greentic_types`: non-empty, made of ASCII letters,
/// digits, `.`, `_` and `-`.
pub open spec fn valid_identifier(s: Seq<char>) -> bool {
    s.len() > 0 && forall|i: int| 0 <= i < s.len() ==> {
        let c = #[trigger] s[i];
        ('a' <= c && c <= 'z') || ('A' <= c && c <= 'Z') || ('0' <= c && c <= '9') || c == '.' || c == '_' || c == '-'
    }
}

/// Trusted: `serde_json::to_value` of the `greentic_types::EnvId`, rendered with `to_string`
/// (falling back to its `Debug` form should serialization fail). The JSON text of a valid
/// identifier is the identifier in double quotes, since none of its characters is escaped.
#[verifier::external_body]
fn env_id_label(env: &EnvId) -> (r: String)
    ensures
        r@ == env_id_json(env.0@),
        valid_identifier(env.0@) ==> r@ == seq!['"'] + env.0@ + seq!['"'],
{
    let id = greentic_types::EnvId(env.0.clone());
    serde_json::to_value(id.clone()).map(|v| v.to_string()).unwrap_or_else(|_| format!("{id:?}"))
}

/// Whether an environment counts as a dev environment: its JSON label, lower-cased, holds `dev`.
pub open spec fn is_dev_env_id(id: Seq<char>) -> bool {
    contains_seq(ascii_lower(env_id_json(id)), "dev"@)
}

/// Whether a binary32 number, given by its bits, lies in `0.0..=1.0`. Non-negative numbers
/// order like their bit patterns, 1.0 is `0x3f80_0000`, and `-0.0` (`0x8000_0000`) equals 0.0;
/// NaN and every other negative number lie outside.
pub open spec fn sampling_in_range(x: F32Bits) -> bool {
    x.0 <= 0x3f80_0000 || x.0 == 0x8000_0000
}

/// Whether a binary64 number, given by its bits, is finite and at least 1.0: its sign bit is
/// clear and its exponent field is at least that of 1.0 (`0x3ff`) and below all ones (`0x7ff`).
pub open spec fn multiplier_valid(x: F64Bits) -> bool {
    0x3ff0_0000_0000_0000 <= x.0 && x.0 < 0x7ff0_0000_0000_0000
}

/// The first backoff setting that is out of bounds, if any.
pub open spec fn backoff_failure(b: BackoffConfig) -> Option<ValidationFailure> {
    if b.initial_ms == Some(0u64) {
        Some(ValidationFailure::EventsBackoffInitial(0))
    } else if b.max_ms is Some && b.initial_ms is Some && b.max_ms->0 < b.initial_ms->0 {
        Some(ValidationFailure::EventsBackoffMax { max: b.max_ms->0, initial: b.initial_ms->0 })
    } else if b.multiplier is Some && !multiplier_valid(b.multiplier->0) {
        Some(ValidationFailure::EventsBackoffMultiplier(b.multiplier->0))
    } else {
        None
    }
}

/// Whether the environment is offline.
pub open spec fn offline(c: GreenticConfig) -> bool {
    c.environment.connection == Some(ConnectionKind::Offline)
}

/// The warning for a service transport configured at a non-local URL in an offline
/// environment.
pub open spec fn transport_offline_warning(name: Seq<char>, d: Option<ServiceDefinitionConfig>) -> Seq<Seq<char>> {
    match d {
        Some(def) => match def.transport {
            Some(ServiceTransportConfig::Http { url, .. }) => if url_is_local(url@) {
                seq![]
            } else {
                seq!["environment.connection=offline but services."@ + name + " transport configured at "@ + url@.0
                    + "; network operations may be disallowed"@]
            },
            Some(ServiceTransportConfig::Nats { url, .. }) => if url_is_local(url@) {
                seq![]
            } else {
                seq!["environment.connection=offline but services."@ + name + " transport configured at "@ + url@.0
                    + "; network operations may be disallowed"@]
            },
            _ => seq![],
        },
        None => seq![],
    }
}

/// The first relative path among the four directories, in field order.
pub open spec fn first_relative_dir(c: GreenticConfig) -> Option<Seq<char>> {
    if !path_is_absolute(c.paths.greentic_root@) {
        Some(c.paths.greentic_root@)
    } else if !path_is_absolute(c.paths.state_dir@) {
        Some(c.paths.state_dir@)
    } else if !path_is_absolute(c.paths.cache_dir@) {
        Some(c.paths.cache_dir@)
    } else if !path_is_absolute(c.paths.logs_dir@) {
        Some(c.paths.logs_dir@)
    } else {
        None
    }
}

/// The first packs problem, if any: a relative cache directory or local index path, or a
/// remote source while offline without network permission.
pub open spec fn packs_failure(c: GreenticConfig, allow_network: bool) -> Option<ValidationFailure> {
    match c.packs {
        None => None,
        Some(p) => if !path_is_absolute(p.cache_dir@) {
            Some(ValidationFailure::RelativePath(p.cache_dir@))
        } else {
            match p.source {
                PackSourceConfig::LocalIndex { path } => if !path_is_absolute(path@) {
                    Some(ValidationFailure::RelativePath(path@))
                } else {
                    None
                },
                _ => if !allow_network && offline(c) {
                    Some(ValidationFailure::PacksSourceOffline)
                } else {
                    None
                },
            }
        },
    }
}

/// The warnings that depend on the dev section, telemetry and the offline transports.
pub open spec fn dev_warnings(c: GreenticConfig) -> Seq<Seq<char>> {
    match c.dev {
        Some(d) => if d.default_team is None {
            seq!["dev.default_team not set; proceeding without team scoping"@]
        } else {
            seq![]
        },
        None => seq![],
    }
}

/// The warning for a telemetry endpoint beyond the local machine in an offline environment.
pub open spec fn offline_telemetry_warning() -> Seq<char> {
    "environment.connection=offline but telemetry.endpoint is non-loopback; telemetry may attempt outbound network"@
}

pub open spec fn telemetry_warnings(c: GreenticConfig, allow_network: bool) -> Seq<Seq<char>> {
    (if c.telemetry.enabled && c.telemetry.exporter == TelemetryExporterKind::NoExporter {
        seq!["telemetry.enabled=true but exporter=none; telemetry will be disabled"@]
    } else {
        seq![]
    }) + (if !allow_network && offline(c) && endpoint_non_loopback(match c.telemetry.endpoint {
        Some(s) => Some(s@),
        None => None,
    }) {
        seq![offline_telemetry_warning()]
    } else {
        seq![]
    })
}

pub open spec fn transport_warnings(c: GreenticConfig, allow_network: bool) -> Seq<Seq<char>> {
    match c.services {
        Some(s) => if !allow_network && offline(c) {
            transport_offline_warning("runner"@, s.runner) + transport_offline_warning("deployer"@, s.deployer)
                + transport_offline_warning("events_transport"@, s.events_transport)
                + transport_offline_warning("source"@, s.source) + transport_offline_warning("publish"@, s.publish)
                + transport_offline_warning("metadata"@, s.metadata)
                + transport_offline_warning("oauth_broker"@, s.oauth_broker)
        } else {
            seq![]
        },
        None => seq![],
    }
}

/// The events endpoint problem: a non-local endpoint while offline without network permission.
pub open spec fn endpoint_failure(c: GreenticConfig, allow_network: bool) -> Option<ValidationFailure> {
    match c.services {
        Some(s) => match s.events {
            Some(e) => if !allow_network && offline(c) && !url_is_local(e.url@) {
                Some(ValidationFailure::EventsEndpointOffline(e.url@.0))
            } else {
                None
            },
            None => None,
        },
        None => None,
    }
}

/// What validating `c` gives: the first failing check in this order (dev section, directories,
/// sampling, packs, events endpoint, events backoff, deployer base domain), or else the
/// warnings (dev team, telemetry, offline transports).
pub open spec fn validation(c: GreenticConfig, allow_dev: bool, allow_network: bool) -> Result<Seq<Seq<char>>, ValidationFailure> {
    if c.dev is Some && !allow_dev && !is_dev_env_id(c.environment.env_id.0@) {
        Err(ValidationFailure::DevNotAllowed(env_id_json(c.environment.env_id.0@)))
    } else if first_relative_dir(c) is Some {
        Err(ValidationFailure::RelativePath(first_relative_dir(c)->0))
    } else if !sampling_in_range(c.telemetry.sampling) {
        Err(ValidationFailure::TelemetrySampling(c.telemetry.sampling))
    } else if packs_failure(c, allow_network) is Some {
        Err(packs_failure(c, allow_network)->0)
    } else if endpoint_failure(c, allow_network) is Some {
        Err(endpoint_failure(c, allow_network)->0)
    } else if c.events is Some && c.events->0.backoff is Some && backoff_failure(c.events->0.backoff->0) is Some {
        Err(backoff_failure(c.events->0.backoff->0)->0)
    } else if c.deployer is Some && c.deployer->0.base_domain is Some && !base_domain_valid(c.deployer->0.base_domain->0@) {
        Err(ValidationFailure::DeployerBaseDomain(c.deployer->0.base_domain->0@))
    } else {
        Ok(dev_warnings(c) + telemetry_warnings(c, allow_network) + transport_warnings(c, allow_network))
    }
}

/// Whether a validation result is the one `v` describes.
pub open spec fn outcome_matches(r: Result<Vec<String>, ValidationError>, v: Result<Seq<Seq<char>>, ValidationFailure>) -> bool {
    match r {
        Ok(w) => v == Ok::<Seq<Seq<char>>, ValidationFailure>(strings_view(w@)),
        Err(e) => v == Err::<Seq<Seq<char>>, ValidationFailure>(e@),
    }
}

/// Whether `env` is a dev environment.
pub fn is_dev_env(env: &EnvId) -> (r: bool)
    ensures
        r == is_dev_env_id(env.0@),
{
    let label = env_id_label(env);
    let lower = ascii_lowercase_chars(label.as_str());
    let dev = chars_of("dev");
    contains_chars(&lower, &dev)
}

/// `Ok` when `path` is absolute, and the relative-path error naming it otherwise.
pub fn ensure_absolute(path: &String) -> (r: Result<(), ValidationError>)
    ensures
        r is Ok == path_is_absolute(path@),
        r matches Err(e) ==> e@ == ValidationFailure::RelativePath(path@),
{
    if is_absolute(path.as_str()) {
        Ok(())
    } else {
        Err(ValidationError::RelativePath(path.clone()))
    }
}

fn validate_events_endpoint(endpoint: &ServiceEndpointConfig, is_offline: bool) -> (r: Result<(), ValidationError>)
    ensures
        r is Ok == !(is_offline && !url_is_local(endpoint.url@)),
        r matches Err(e) ==> e@ == ValidationFailure::EventsEndpointOffline(endpoint.url@.0),
{
    if is_offline && !is_local_url(&endpoint.url) {
        Err(ValidationError::EventsEndpointOffline(endpoint.url.to_string()))
    } else {
        Ok(())
    }
}

fn validate_backoff(backoff: &BackoffConfig) -> (r: Result<(), ValidationError>)
    ensures
        match r {
            Ok(_) => backoff_failure(*backoff) is None,
            Err(e) => backoff_failure(*backoff) == Some(e@),
        },
{
    if let Some(initial) = backoff.initial_ms {
        if initial == 0 {
            return Err(ValidationError::EventsBackoffInitial(initial));
        }
    }
    if let (Some(max), Some(initial)) = (backoff.max_ms, backoff.initial_ms) {
        if max < initial {
            return Err(ValidationError::EventsBackoffMax { max, initial });
        }
    }
    if let Some(multiplier) = backoff.multiplier {
        if !(0x3ff0_0000_0000_0000u64 <= multiplier.0 && multiplier.0 < 0x7ff0_0000_0000_0000u64) {
            return Err(ValidationError::EventsBackoffMultiplier(multiplier));
        }
    }
    Ok(())
}

/// `Ok` when `domain` is a valid deployer base domain, and the error naming it otherwise.
pub fn validate_base_domain(domain: &str) -> (r: Result<(), ValidationError>)
    ensures
        r is Ok == base_domain_valid(domain@),
        r matches Err(e) ==> e@ == ValidationFailure::DeployerBaseDomain(domain@),
{
    if base_domain_ok(domain) {
        Ok(())
    } else {
        Err(ValidationError::DeployerBaseDomain(owned(domain)))
    }
}

fn warn_offline_transport(warnings: &mut Vec<String>, name: &str, def: &Option<ServiceDefinitionConfig>)
    ensures
        strings_view(final(warnings)@) == strings_view(old(warnings)@) + transport_offline_warning(name@, *def),
{
    let url = match def {
        Some(d) => match &d.transport {
            Some(ServiceTransportConfig::Http { url, .. }) => Some(url),
            Some(ServiceTransportConfig::Nats { url, .. }) => Some(url),
            _ => None,
        },
        None => None,
    };
    match url {
        Some(u) => {
            if !is_local_url(u) {
                let a = concat(concat("environment.connection=offline but services.", name).as_str(), " transport configured at ");
                let b = concat(concat(a.as_str(), u.as_str()).as_str(), "; network operations may be disallowed");
                push_warning(warnings, b);
            } else {
                assert(strings_view(warnings@) =~= strings_view(old(warnings)@) + transport_offline_warning(name@, *def));
            }
        },
        None => {
            assert(strings_view(warnings@) =~= strings_view(old(warnings)@) + transport_offline_warning(name@, *def));
        },
    }
}

/// Validates `config` without network permission.
pub fn validate_config(config: &GreenticConfig, allow_dev: bool) -> (r: Result<Vec<String>, ValidationError>)
    ensures
        outcome_matches(r, validation(*config, allow_dev, false)),
{
    validate_config_with_overrides(config, allow_dev, false)
}

fn check_dev(config: &GreenticConfig, allow_dev: bool, warnings: &mut Vec<String>) -> (r: Result<(), ValidationError>)
    requires
        old(warnings)@.len() == 0,
    ensures
        match r {
            Ok(_) => !(config.dev is Some && !allow_dev && !is_dev_env_id(config.environment.env_id.0@))
                && strings_view(final(warnings)@) == dev_warnings(*config),
            Err(e) => config.dev is Some && !allow_dev && !is_dev_env_id(config.environment.env_id.0@)
                && e@ == ValidationFailure::DevNotAllowed(env_id_json(config.environment.env_id.0@)),
        },
{
    if let Some(dev) = &config.dev {
        if !allow_dev && !is_dev_env(&config.environment.env_id) {
            let label = env_id_label(&config.environment.env_id);
            return Err(ValidationError::DevNotAllowed(label));
        }
        if dev.default_team.is_none() {
            push_warning(warnings, owned("dev.default_team not set; proceeding without team scoping"));
        }
    }
    assert(strings_view(warnings@) =~= dev_warnings(*config));
    Ok(())
}

fn check_dirs(config: &GreenticConfig) -> (r: Result<(), ValidationError>)
    ensures
        match r {
            Ok(_) => first_relative_dir(*config) is None,
            Err(e) => first_relative_dir(*config) is Some && e@ == ValidationFailure::RelativePath(first_relative_dir(*config)->0),
        },
{
    ensure_absolute(&config.paths.greentic_root)?;
    ensure_absolute(&config.paths.state_dir)?;
    ensure_absolute(&config.paths.cache_dir)?;
    ensure_absolute(&config.paths.logs_dir)?;
    Ok(())
}

fn is_offline(config: &GreenticConfig) -> (r: bool)
    ensures
        r == offline(*config),
{
    match config.environment.connection {
        Some(ConnectionKind::Offline) => true,
        _ => false,
    }
}

fn warn_telemetry(config: &GreenticConfig, allow_network: bool, warnings: &mut Vec<String>)
    ensures
        strings_view(final(warnings)@) == strings_view(old(warnings)@) + telemetry_warnings(*config, allow_network),
{
    let no_exporter = match config.telemetry.exporter {
        TelemetryExporterKind::NoExporter => true,
        _ => false,
    };
    if config.telemetry.enabled && no_exporter {
        push_warning(warnings, owned("telemetry.enabled=true but exporter=none; telemetry will be disabled"));
    }
    let endpoint = match &config.telemetry.endpoint {
        Some(e) => Some(e.as_str()),
        None => None,
    };
    if !allow_network && is_offline(config) && telemetry_endpoint_is_non_loopback(endpoint) {
        push_warning(
            warnings,
            owned("environment.connection=offline but telemetry.endpoint is non-loopback; telemetry may attempt outbound network"),
        );
    }
    assert(strings_view(warnings@) =~= strings_view(old(warnings)@) + telemetry_warnings(*config, allow_network));
}

fn check_packs(config: &GreenticConfig, allow_network: bool) -> (r: Result<(), ValidationError>)
    ensures
        match r {
            Ok(_) => packs_failure(*config, allow_network) is None,
            Err(e) => packs_failure(*config, allow_network) == Some(e@),
        },
{
    if let Some(packs) = &config.packs {
        ensure_absolute(&packs.cache_dir)?;
        match &packs.source {
            PackSourceConfig::LocalIndex { path } => {
                ensure_absolute(path)?;
            },
            _ => {
                if !allow_network && is_offline(config) {
                    return Err(ValidationError::PacksSourceOffline);
                }
            },
        }
    }
    Ok(())
}

fn check_endpoint(config: &GreenticConfig, allow_network: bool) -> (r: Result<(), ValidationError>)
    ensures
        match r {
            Ok(_) => endpoint_failure(*config, allow_network) is None,
            Err(e) => endpoint_failure(*config, allow_network) == Some(e@),
        },
{
    if let Some(services) = &config.services {
        if let Some(events) = &services.events {
            if !allow_network {
                validate_events_endpoint(events, is_offline(config))?;
            }
        }
    }
    Ok(())
}

fn warn_transports(config: &GreenticConfig, allow_network: bool, warnings: &mut Vec<String>)
    ensures
        strings_view(final(warnings)@) == strings_view(old(warnings)@) + transport_warnings(*config, allow_network),
{
    if let Some(services) = &config.services {
        if !allow_network && is_offline(config) {
            warn_offline_transport(warnings, "runner", &services.runner);
            warn_offline_transport(warnings, "deployer", &services.deployer);
            warn_offline_transport(warnings, "events_transport", &services.events_transport);
            warn_offline_transport(warnings, "source", &services.source);
            warn_offline_transport(warnings, "publish", &services.publish);
            warn_offline_transport(warnings, "metadata", &services.metadata);
            warn_offline_transport(warnings, "oauth_broker", &services.oauth_broker);
        }
    }
    assert(strings_view(warnings@) =~= strings_view(old(warnings)@) + transport_warnings(*config, allow_network));
}

fn check_backoff(config: &GreenticConfig) -> (r: Result<(), ValidationError>)
    ensures
        match r {
            Ok(_) => !(config.events is Some && config.events->0.backoff is Some
                && backoff_failure(config.events->0.backoff->0) is Some),
            Err(e) => config.events is Some && config.events->0.backoff is Some
                && backoff_failure(config.events->0.backoff->0) == Some(e@),
        },
{
    if let Some(events) = &config.events {
        if let Some(backoff) = &events.backoff {
            validate_backoff(backoff)?;
        }
    }
    Ok(())
}

fn check_deployer(config: &GreenticConfig) -> (r: Result<(), ValidationError>)
    ensures
        match r {
            Ok(_) => !(config.deployer is Some && config.deployer->0.base_domain is Some
                && !base_domain_valid(config.deployer->0.base_domain->0@)),
            Err(e) => config.deployer is Some && config.deployer->0.base_domain is Some
                && !base_domain_valid(config.deployer->0.base_domain->0@)
                && e@ == ValidationFailure::DeployerBaseDomain(config.deployer->0.base_domain->0@),
        },
{
    if let Some(deployer) = &config.deployer {
        if let Some(base_domain) = &deployer.base_domain {
            validate_base_domain(base_domain.as_str())?;
        }
    }
    Ok(())
}

/// Validates `config`. `allow_dev` permits dev settings outside dev environments;
/// `allow_network` lifts the offline restrictions on endpoints, pack sources and transports.
pub fn validate_config_with_overrides(config: &GreenticConfig, allow_dev: bool, allow_network: bool) -> (r: Result<Vec<String>, ValidationError>)
    ensures
        outcome_matches(r, validation(*config, allow_dev, allow_network)),
{
    let mut warnings: Vec<String> = Vec::new();
    check_dev(config, allow_dev, &mut warnings)?;
    check_dirs(config)?;
    let sampling = config.telemetry.sampling;
    if !(sampling.0 <= 0x3f80_0000u32 || sampling.0 == 0x8000_0000u32) {
        return Err(ValidationError::TelemetrySampling(sampling));
    }
    warn_telemetry(config, allow_network, &mut warnings);
    check_packs(config, allow_network)?;
    check_endpoint(config, allow_network)?;
    warn_transports(config, allow_network, &mut warnings);
    check_backoff(config)?;
    check_deployer(config)?;
    Ok(warnings)
}

/// Granting network access never turns an accepted configuration into a rejected one.
pub proof fn lemma_allow_network_only_relaxes(c: GreenticConfig, allow_dev: bool)
    ensures
        validation(c, allow_dev, false) is Ok ==> validation(c, allow_dev, true) is Ok,
{
}

/// Granting dev permission never turns an accepted configuration into a rejected one, and
/// does not change the warnings.
pub proof fn lemma_allow_dev_only_relaxes(c: GreenticConfig, allow_network: bool)
    ensures
        validation(c, false, allow_network) is Ok ==> validation(c, true, allow_network) == validation(c, false, allow_network),
{
}

/// An offline environment with a remote events endpoint is rejected unless network access
/// is granted.
pub proof fn lemma_offline_remote_events_endpoint_rejected(c: GreenticConfig, allow_dev: bool)
    requires
        offline(c),
        c.services is Some,
        c.services->0.events is Some,
        !url_is_local(c.services->0.events->0.url@),
    ensures
        validation(c, allow_dev, false) is Err,
{
}

/// Granting network access validates a configuration exactly as if its environment were
/// online without that permission.
pub proof fn lemma_allow_network_is_online(c: GreenticConfig, allow_dev: bool)
    ensures
        validation(c, allow_dev, true) == validation(
            (GreenticConfig {
                environment: (EnvironmentConfig { connection: Some(ConnectionKind::Online), ..c.environment }),
                ..c
            }),
            allow_dev,
            false,
        ),
{
    let o = GreenticConfig {
        environment: EnvironmentConfig { connection: Some(ConnectionKind::Online), ..c.environment },
        ..c
    };
    assert(packs_failure(c, true) == packs_failure(o, false));
    assert(endpoint_failure(c, true) == endpoint_failure(o, false));
    assert(telemetry_warnings(c, true) == telemetry_warnings(o, false));
    assert(transport_warnings(c, true) == transport_warnings(o, false));
}

/// Offline and without network access, a telemetry endpoint beyond the local machine draws
/// a warning whenever the configuration is accepted; with network access it draws none.
pub proof fn lemma_offline_telemetry_endpoint_warns(c: GreenticConfig, allow_dev: bool)
    requires
        offline(c),
        c.telemetry.endpoint is Some,
        endpoint_non_loopback(Some(c.telemetry.endpoint->0@)),
    ensures
        validation(c, allow_dev, false) is Ok ==> validation(c, allow_dev, false)->Ok_0.contains(offline_telemetry_warning()),
        validation(c, allow_dev, true) is Ok ==> !validation(c, allow_dev, true)->Ok_0.contains(offline_telemetry_warning()),
{
    let d = dev_warnings(c);
    let t = telemetry_warnings(c, false);
    let w = d + t + transport_warnings(c, false);
    if validation(c, allow_dev, false) is Ok {
        assert(t.last() == offline_telemetry_warning());
        assert(w[d.len() + t.len() - 1] == offline_telemetry_warning());
    }
    if validation(c, allow_dev, true) is Ok {
        let w2 = d + telemetry_warnings(c, true) + transport_warnings(c, true);
        assert(transport_warnings(c, true) =~= Seq::<Seq<char>>::empty());
        assert forall|i: int| 0 <= i < w2.len() implies w2[i] != offline_telemetry_warning() by {
            reveal_strlit("dev.default_team not set; proceeding without team scoping");
            reveal_strlit("environment.connection=offline but telemetry.endpoint is non-loopback; telemetry may attempt outbound network");
            if i < d.len() {
                assert(w2[i] == d[i]);
                assert(w2[i][0] != offline_telemetry_warning()[0]);
            } else {
                reveal_strlit("telemetry.enabled=true but exporter=none; telemetry will be disabled");
                reveal_strlit("environment.connection=offline but telemetry.endpoint is non-loopback; telemetry may attempt outbound network");
                assert(w2[i] == telemetry_warnings(c, true)[i - d.len()]);
                assert(w2[i][0] != offline_telemetry_warning()[0]);
            }
        }
    }
}

/// Whether `w` is a warning about an offline environment: it starts with
/// `environment.connection=offline`.
pub open spec fn is_offline_warning(w: Seq<char>) -> bool {
    crate::text::has_prefix(w, "environment.connection=offline"@)
}

proof fn lemma_filter_keeps_all(s: Seq<Seq<char>>, p: spec_fn(Seq<char>) -> bool)
    requires
        forall|i: int| 0 <= i < s.len() ==> p(#[trigger] s[i]),
    ensures
        s.filter(p) == s,
    decreases s.len(),
{
    reveal(Seq::filter);
    if s.len() > 0 {
        lemma_filter_keeps_all(s.drop_last(), p);
        assert(s.drop_last().push(s.last()) =~= s);
    }
}

proof fn lemma_filter_drops_all(s: Seq<Seq<char>>, p: spec_fn(Seq<char>) -> bool)
    requires
        forall|i: int| 0 <= i < s.len() ==> !p(#[trigger] s[i]),
    ensures
        s.filter(p) == Seq::<Seq<char>>::empty(),
    decreases s.len(),
{
    reveal(Seq::filter);
    if s.len() > 0 {
        lemma_filter_drops_all(s.drop_last(), p);
    }
    assert(s.filter(p) =~= Seq::<Seq<char>>::empty());
}

proof fn lemma_transport_warning_offline(name: Seq<char>, d: Option<ServiceDefinitionConfig>)
    ensures
        forall|i: int| 0 <= i < transport_offline_warning(name, d).len()
            ==> is_offline_warning(#[trigger] transport_offline_warning(name, d)[i]),
{
    reveal_strlit("environment.connection=offline");
    reveal_strlit("environment.connection=offline but services.");
    let head = "environment.connection=offline but services."@;
    assert forall|rest: Seq<char>| is_offline_warning(#[trigger] (head + rest)) by {
        assert((head + rest).take(30) =~= "environment.connection=offline"@);
    }
    assert forall|i: int| 0 <= i < transport_offline_warning(name, d).len()
        implies is_offline_warning(#[trigger] transport_offline_warning(name, d)[i]) by {
        let w = transport_offline_warning(name, d)[i];
        let rest = w.skip(head.len() as int);
        match d {
            Some(def) => match def.transport {
                Some(ServiceTransportConfig::Http { url, .. }) => {
                    let tail = name + " transport configured at "@ + url@.0 + "; network operations may be disallowed"@;
                    assert(w =~= head + tail);
                    assert(is_offline_warning(head + tail));
                },
                Some(ServiceTransportConfig::Nats { url, .. }) => {
                    let tail = name + " transport configured at "@ + url@.0 + "; network operations may be disallowed"@;
                    assert(w =~= head + tail);
                    assert(is_offline_warning(head + tail));
                },
                _ => {},
            },
            None => {},
        }
    }
}

proof fn lemma_not_offline_warning(w: Seq<char>)
    requires
        w.len() > 0,
        w[0] != 'e',
    ensures
        !is_offline_warning(w),
{
    reveal_strlit("environment.connection=offline");
    if w.len() >= 30 {
        assert(w.take(30)[0] == w[0]);
    }
}

proof fn lemma_kept_warnings(c: GreenticConfig)
    ensures
        forall|i: int| 0 <= i < dev_warnings(c).len() ==> !is_offline_warning(#[trigger] dev_warnings(c)[i]),
        forall|i: int| 0 <= i < telemetry_warnings(c, true).len() ==> !is_offline_warning(#[trigger] telemetry_warnings(c, true)[i]),
{
    reveal_strlit("dev.default_team not set; proceeding without team scoping");
    reveal_strlit("telemetry.enabled=true but exporter=none; telemetry will be disabled");
    if dev_warnings(c).len() > 0 {
        lemma_not_offline_warning(dev_warnings(c)[0]);
    }
    if telemetry_warnings(c, true).len() > 0 {
        assert(telemetry_warnings(c, true).len() == 1);
        lemma_not_offline_warning(telemetry_warnings(c, true)[0]);
    }
}

proof fn lemma_telemetry_offline_part(c: GreenticConfig)
    ensures
        telemetry_warnings(c, false) == telemetry_warnings(c, true) + telemetry_warnings(c, false).skip(
            telemetry_warnings(c, true).len() as int,
        ),
        forall|i: int| telemetry_warnings(c, true).len() <= i < telemetry_warnings(c, false).len()
            ==> is_offline_warning(#[trigger] telemetry_warnings(c, false)[i]),
{
    reveal_strlit("environment.connection=offline");
    reveal_strlit("environment.connection=offline but telemetry.endpoint is non-loopback; telemetry may attempt outbound network");
    assert(offline_telemetry_warning().take(30) =~= "environment.connection=offline"@);
    assert(telemetry_warnings(c, false) =~= telemetry_warnings(c, true) + telemetry_warnings(c, false).skip(
        telemetry_warnings(c, true).len() as int,
    ));
}

proof fn lemma_transport_offline(c: GreenticConfig)
    ensures
        forall|i: int| 0 <= i < transport_warnings(c, false).len() ==> is_offline_warning(#[trigger] transport_warnings(c, false)[i]),
        transport_warnings(c, true) == Seq::<Seq<char>>::empty(),
{
    assert(transport_warnings(c, true) =~= Seq::<Seq<char>>::empty());
    let tr = transport_warnings(c, false);
    match c.services {
        Some(s) => if offline(c) {
            let t1 = transport_offline_warning("runner"@, s.runner);
            let t2 = transport_offline_warning("deployer"@, s.deployer);
            let t3 = transport_offline_warning("events_transport"@, s.events_transport);
            let t4 = transport_offline_warning("source"@, s.source);
            let t5 = transport_offline_warning("publish"@, s.publish);
            let t6 = transport_offline_warning("metadata"@, s.metadata);
            let t7 = transport_offline_warning("oauth_broker"@, s.oauth_broker);
            lemma_transport_warning_offline("runner"@, s.runner);
            lemma_transport_warning_offline("deployer"@, s.deployer);
            lemma_transport_warning_offline("events_transport"@, s.events_transport);
            lemma_transport_warning_offline("source"@, s.source);
            lemma_transport_warning_offline("publish"@, s.publish);
            lemma_transport_warning_offline("metadata"@, s.metadata);
            lemma_transport_warning_offline("oauth_broker"@, s.oauth_broker);
            assert forall|i: int| 0 <= i < tr.len() implies is_offline_warning(#[trigger] tr[i]) by {
                let n1 = t1.len() as int;
                let n2 = n1 + t2.len();
                let n3 = n2 + t3.len();
                let n4 = n3 + t4.len();
                let n5 = n4 + t5.len();
                let n6 = n5 + t6.len();
                if i < n1 {
                    assert(tr[i] == t1[i]);
                } else if i < n2 {
                    assert(tr[i] == t2[i - n1]);
                } else if i < n3 {
                    assert(tr[i] == t3[i - n2]);
                } else if i < n4 {
                    assert(tr[i] == t4[i - n3]);
                } else if i < n5 {
                    assert(tr[i] == t5[i - n4]);
                } else if i < n6 {
                    assert(tr[i] == t6[i - n5]);
                } else {
                    assert(tr[i] == t7[i - n6]);
                }
            }
        } else {
        },
        None => {},
    }
}

proof fn lemma_filter_warning_parts(
    d: Seq<Seq<char>>,
    t: Seq<Seq<char>>,
    off: Seq<Seq<char>>,
    tr: Seq<Seq<char>>,
    p: spec_fn(Seq<char>) -> bool,
)
    requires
        forall|i: int| 0 <= i < d.len() ==> p(#[trigger] d[i]),
        forall|i: int| 0 <= i < t.len() ==> p(#[trigger] t[i]),
        forall|i: int| 0 <= i < off.len() ==> !p(#[trigger] off[i]),
        forall|i: int| 0 <= i < tr.len() ==> !p(#[trigger] tr[i]),
    ensures
        (d + (t + off) + tr).filter(p) == d + t,
{
    lemma_filter_keeps_all(d, p);
    lemma_filter_keeps_all(t, p);
    lemma_filter_drops_all(off, p);
    lemma_filter_drops_all(tr, p);
    Seq::filter_distributes_over_add(d + (t + off), tr, p);
    Seq::filter_distributes_over_add(d, t + off, p);
    Seq::filter_distributes_over_add(t, off, p);
    assert((d + (t + off) + tr).filter(p) =~= d + t);
}

proof fn lemma_ok_warnings(c: GreenticConfig, allow_dev: bool, allow_network: bool)
    ensures
        validation(c, allow_dev, allow_network) is Ok ==> validation(c, allow_dev, allow_network)->Ok_0
            == dev_warnings(c) + telemetry_warnings(c, allow_network) + transport_warnings(c, allow_network),
{
}

/// Granting network access keeps an accepted configuration accepted, and its warnings become
/// those it had without that permission, less the warnings about being offline.
#[verifier::spinoff_prover]
pub proof fn lemma_allow_network_drops_offline_warnings(c: GreenticConfig, allow_dev: bool)
    ensures
        validation(c, allow_dev, false) is Ok ==> validation(c, allow_dev, true) is Ok
            && validation(c, allow_dev, true)->Ok_0
                == validation(c, allow_dev, false)->Ok_0.filter(|w: Seq<char>| !is_offline_warning(w)),
{
    lemma_allow_network_only_relaxes(c, allow_dev);
    lemma_ok_warnings(c, allow_dev, false);
    lemma_ok_warnings(c, allow_dev, true);
    let p = |w: Seq<char>| !is_offline_warning(w);
    let d = dev_warnings(c);
    let t1 = telemetry_warnings(c, true);
    let t0 = telemetry_warnings(c, false);
    let off = t0.skip(t1.len() as int);
    let tr = transport_warnings(c, false);
    lemma_kept_warnings(c);
    lemma_telemetry_offline_part(c);
    lemma_transport_offline(c);
    assert forall|i: int| 0 <= i < off.len() implies !p(#[trigger] off[i]) by {
        assert(off[i] == t0[i + t1.len()]);
    }
    lemma_filter_warning_parts(d, t1, off, tr, p);
    assert(d + t0 + tr == d + (t1 + off) + tr);
    assert(d + t1 + transport_warnings(c, true) =~= d + t1);
}

/// The sign bit of a binary64 number given by its bits.
pub open spec fn f64_sign(x: F64Bits) -> u64 {
    x.0 >> 63u64
}

/// The biased exponent field of a binary64 number given by its bits: 0x3ff for numbers in
/// `[1.0, 2.0)`, 0x7ff for infinities and NaN.
pub open spec fn f64_exponent(x: F64Bits) -> u64 {
    (x.0 >> 52u64) & 0x7ffu64
}

/// A backoff multiplier is accepted exactly when it is a finite number of at least 1.0: it
/// is rejected when negative (sign bit set, including -0.0), below 1.0 in magnitude (exponent
/// below that of 1.0), or infinite or NaN (exponent all ones). So 0.5 is rejected, 2.0 is not.
pub proof fn lemma_backoff_multiplier_rule(b: BackoffConfig, x: F64Bits)
    requires
        b.initial_ms != Some(0u64),
        !(b.max_ms is Some && b.initial_ms is Some && b.max_ms->0 < b.initial_ms->0),
        b.multiplier == Some(x),
    ensures
        backoff_failure(b) == (if f64_sign(x) == 1 || f64_exponent(x) < 0x3ff || f64_exponent(x) == 0x7ff {
            Some(ValidationFailure::EventsBackoffMultiplier(x))
        } else {
            None
        }),
{
    let v = x.0;
    assert((v >> 63u64 == 1u64 || (v >> 52u64) & 0x7ffu64 < 0x3ffu64 || (v >> 52u64) & 0x7ffu64 == 0x7ffu64)
        == !(0x3ff0_0000_0000_0000u64 <= v && v < 0x7ff0_0000_0000_0000u64)) by (bit_vector);
}

/// With network access granted, no remote endpoint, pack source or transport causes an
/// error or a warning about being offline.
pub proof fn lemma_allow_network_ignores_offline(c: GreenticConfig, allow_dev: bool)
    ensures
        packs_failure(c, true) is None || packs_failure(c, true)->0 != ValidationFailure::PacksSourceOffline,
        endpoint_failure(c, true) is None,
        transport_warnings(c, true) == Seq::<Seq<char>>::empty(),
{
}

} // verus!
