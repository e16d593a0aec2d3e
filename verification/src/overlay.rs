//! Applying a layer to the accumulated configuration, recording provenance leaf by leaf.
use vstd::prelude::*;
use crate::layers::{
    EnvironmentLayer,
    overlay_environment_layer,
    overlay_opt_environment_layer,
    keys_environment_layer,
    keys_opt_environment_layer,
    PathsLayer,
    overlay_paths_layer,
    overlay_opt_paths_layer,
    keys_paths_layer,
    keys_opt_paths_layer,
    ServiceEndpointLayer,
    overlay_service_endpoint_layer,
    overlay_opt_service_endpoint_layer,
    keys_service_endpoint_layer,
    keys_opt_service_endpoint_layer,
    ServiceTransportLayer,
    overlay_service_transport_layer,
    overlay_opt_service_transport_layer,
    keys_service_transport_layer,
    keys_opt_service_transport_layer,
    MetricsLayer,
    overlay_metrics_layer,
    overlay_opt_metrics_layer,
    keys_metrics_layer,
    keys_opt_metrics_layer,
    ServiceConfigLayer,
    overlay_service_config_layer,
    overlay_opt_service_config_layer,
    keys_service_config_layer,
    keys_opt_service_config_layer,
    ServiceLayer,
    overlay_service_layer,
    overlay_opt_service_layer,
    keys_service_layer,
    keys_opt_service_layer,
    ServicesLayer,
    overlay_services_layer,
    overlay_opt_services_layer,
    keys_services_layer,
    keys_opt_services_layer,
    ReconnectLayer,
    overlay_reconnect_layer,
    overlay_opt_reconnect_layer,
    keys_reconnect_layer,
    keys_opt_reconnect_layer,
    BackoffLayer,
    overlay_backoff_layer,
    overlay_opt_backoff_layer,
    keys_backoff_layer,
    keys_opt_backoff_layer,
    EventsLayer,
    overlay_events_layer,
    overlay_opt_events_layer,
    keys_events_layer,
    keys_opt_events_layer,
    AdminEndpointsLayer,
    overlay_admin_endpoints_layer,
    overlay_opt_admin_endpoints_layer,
    keys_admin_endpoints_layer,
    keys_opt_admin_endpoints_layer,
    RuntimeLayer,
    overlay_runtime_layer,
    overlay_opt_runtime_layer,
    keys_runtime_layer,
    keys_opt_runtime_layer,
    TelemetryLayer,
    overlay_telemetry_layer,
    overlay_opt_telemetry_layer,
    keys_telemetry_layer,
    keys_opt_telemetry_layer,
    NetworkLayer,
    overlay_network_layer,
    overlay_opt_network_layer,
    keys_network_layer,
    keys_opt_network_layer,
    DeployerProviderDefaultsLayer,
    overlay_deployer_provider_defaults_layer,
    overlay_opt_deployer_provider_defaults_layer,
    keys_deployer_provider_defaults_layer,
    keys_opt_deployer_provider_defaults_layer,
    DeployerLayer,
    overlay_deployer_layer,
    overlay_opt_deployer_layer,
    keys_deployer_layer,
    keys_opt_deployer_layer,
    SecretsBackendRefLayer,
    overlay_secrets_backend_ref_layer,
    overlay_opt_secrets_backend_ref_layer,
    keys_secrets_backend_ref_layer,
    keys_opt_secrets_backend_ref_layer,
    PackTrustLayer,
    overlay_pack_trust_layer,
    overlay_opt_pack_trust_layer,
    keys_pack_trust_layer,
    keys_opt_pack_trust_layer,
    PacksLayer,
    overlay_packs_layer,
    overlay_opt_packs_layer,
    keys_packs_layer,
    keys_opt_packs_layer,
    DevLayer,
    overlay_dev_layer,
    overlay_opt_dev_layer,
    keys_dev_layer,
    keys_opt_dev_layer,
    ConfigLayer,
    overlay_config_layer,
    overlay_opt_config_layer,
    keys_config_layer,
    keys_opt_config_layer,
};
use crate::provenance::{leaf_keys, lemma_stamp_empty, lemma_stamp_union, set_field, stamp_keys, PathMap, Stamp};
use crate::text::concat;

verus! {


/// Overrides `target` with every leaf that `incoming` sets, and records `stamp` as the
/// provenance of each such leaf under `prefix`.
fn apply_environment_layer<V: Stamp>(
    target: &mut EnvironmentLayer,
    incoming: EnvironmentLayer,
    provenance: &mut PathMap<V>,
    prefix: &str,
    stamp: &V,
)
    ensures
        *final(target) == overlay_environment_layer(*old(target), incoming),
        final(provenance)@ == stamp_keys(old(provenance)@, keys_environment_layer(incoming, prefix@), *stamp),
{
    let ghost start = provenance@;
    let EnvironmentLayer { env_id, deployment, connection, region } = incoming;
    let leaf_path = concat(prefix, "env_id");
    set_field(&mut target.env_id, env_id, provenance, leaf_path.as_str(), stamp);
    let ghost done = leaf_keys(env_id, prefix@ + "env_id"@);
    let leaf_path = concat(prefix, "deployment");
    set_field(&mut target.deployment, deployment, provenance, leaf_path.as_str(), stamp);
    proof {
        lemma_stamp_union(start, done, leaf_keys(deployment, prefix@ + "deployment"@), *stamp);
    }
    let ghost done = done.union(leaf_keys(deployment, prefix@ + "deployment"@));
    let leaf_path = concat(prefix, "connection");
    set_field(&mut target.connection, connection, provenance, leaf_path.as_str(), stamp);
    proof {
        lemma_stamp_union(start, done, leaf_keys(connection, prefix@ + "connection"@), *stamp);
    }
    let ghost done = done.union(leaf_keys(connection, prefix@ + "connection"@));
    let leaf_path = concat(prefix, "region");
    set_field(&mut target.region, region, provenance, leaf_path.as_str(), stamp);
    proof {
        lemma_stamp_union(start, done, leaf_keys(region, prefix@ + "region"@), *stamp);
    }
    let ghost done = done.union(leaf_keys(region, prefix@ + "region"@));
}

fn apply_opt_environment_layer<V: Stamp>(
    target: &mut Option<EnvironmentLayer>,
    incoming: Option<EnvironmentLayer>,
    provenance: &mut PathMap<V>,
    prefix: &str,
    stamp: &V,
)
    ensures
        *final(target) == overlay_opt_environment_layer(*old(target), incoming),
        final(provenance)@ == stamp_keys(old(provenance)@, keys_opt_environment_layer(incoming, prefix@), *stamp),
{
    match incoming {
        None => {
            proof {
                lemma_stamp_empty(provenance@, *stamp);
            }
        },
        Some(inc) => {
            let mut section = match target.take() {
                Some(t) => t,
                None => EnvironmentLayer::empty(),
            };
            apply_environment_layer(&mut section, inc, provenance, prefix, stamp);
            *target = Some(section);
        },
    }
}

/// Overrides `target` with every leaf that `incoming` sets, and records `stamp` as the
/// provenance of each such leaf under `prefix`.
fn apply_paths_layer<V: Stamp>(
    target: &mut PathsLayer,
    incoming: PathsLayer,
    provenance: &mut PathMap<V>,
    prefix: &str,
    stamp: &V,
)
    ensures
        *final(target) == overlay_paths_layer(*old(target), incoming),
        final(provenance)@ == stamp_keys(old(provenance)@, keys_paths_layer(incoming, prefix@), *stamp),
{
    let ghost start = provenance@;
    let PathsLayer { greentic_root, state_dir, cache_dir, logs_dir } = incoming;
    let leaf_path = concat(prefix, "greentic_root");
    set_field(&mut target.greentic_root, greentic_root, provenance, leaf_path.as_str(), stamp);
    let ghost done = leaf_keys(greentic_root, prefix@ + "greentic_root"@);
    let leaf_path = concat(prefix, "state_dir");
    set_field(&mut target.state_dir, state_dir, provenance, leaf_path.as_str(), stamp);
    proof {
        lemma_stamp_union(start, done, leaf_keys(state_dir, prefix@ + "state_dir"@), *stamp);
    }
    let ghost done = done.union(leaf_keys(state_dir, prefix@ + "state_dir"@));
    let leaf_path = concat(prefix, "cache_dir");
    set_field(&mut target.cache_dir, cache_dir, provenance, leaf_path.as_str(), stamp);
    proof {
        lemma_stamp_union(start, done, leaf_keys(cache_dir, prefix@ + "cache_dir"@), *stamp);
    }
    let ghost done = done.union(leaf_keys(cache_dir, prefix@ + "cache_dir"@));
    let leaf_path = concat(prefix, "logs_dir");
    set_field(&mut target.logs_dir, logs_dir, provenance, leaf_path.as_str(), stamp);
    proof {
        lemma_stamp_union(start, done, leaf_keys(logs_dir, prefix@ + "logs_dir"@), *stamp);
    }
    let ghost done = done.union(leaf_keys(logs_dir, prefix@ + "logs_dir"@));
}

fn apply_opt_paths_layer<V: Stamp>(
    target: &mut Option<PathsLayer>,
    incoming: Option<PathsLayer>,
    provenance: &mut PathMap<V>,
    prefix: &str,
    stamp: &V,
)
    ensures
        *final(target) == overlay_opt_paths_layer(*old(target), incoming),
        final(provenance)@ == stamp_keys(old(provenance)@, keys_opt_paths_layer(incoming, prefix@), *stamp),
{
    match incoming {
        None => {
            proof {
                lemma_stamp_empty(provenance@, *stamp);
            }
        },
        Some(inc) => {
            let mut section = match target.take() {
                Some(t) => t,
                None => PathsLayer::empty(),
            };
            apply_paths_layer(&mut section, inc, provenance, prefix, stamp);
            *target = Some(section);
        },
    }
}

/// Overrides `target` with every leaf that `incoming` sets, and records `stamp` as the
/// provenance of each such leaf under `prefix`.
fn apply_service_endpoint_layer<V: Stamp>(
    target: &mut ServiceEndpointLayer,
    incoming: ServiceEndpointLayer,
    provenance: &mut PathMap<V>,
    prefix: &str,
    stamp: &V,
)
    ensures
        *final(target) == overlay_service_endpoint_layer(*old(target), incoming),
        final(provenance)@ == stamp_keys(old(provenance)@, keys_service_endpoint_layer(incoming, prefix@), *stamp),
{
    let ghost start = provenance@;
    let ServiceEndpointLayer { url, headers } = incoming;
    let leaf_path = concat(prefix, "url");
    set_field(&mut target.url, url, provenance, leaf_path.as_str(), stamp);
    let ghost done = leaf_keys(url, prefix@ + "url"@);
    let leaf_path = concat(prefix, "headers");
    set_field(&mut target.headers, headers, provenance, leaf_path.as_str(), stamp);
    proof {
        lemma_stamp_union(start, done, leaf_keys(headers, prefix@ + "headers"@), *stamp);
    }
    let ghost done = done.union(leaf_keys(headers, prefix@ + "headers"@));
}

fn apply_opt_service_endpoint_layer<V: Stamp>(
    target: &mut Option<ServiceEndpointLayer>,
    incoming: Option<ServiceEndpointLayer>,
    provenance: &mut PathMap<V>,
    prefix: &str,
    stamp: &V,
)
    ensures
        *final(target) == overlay_opt_service_endpoint_layer(*old(target), incoming),
        final(provenance)@ == stamp_keys(old(provenance)@, keys_opt_service_endpoint_layer(incoming, prefix@), *stamp),
{
    match incoming {
        None => {
            proof {
                lemma_stamp_empty(provenance@, *stamp);
            }
        },
        Some(inc) => {
            let mut section = match target.take() {
                Some(t) => t,
                None => ServiceEndpointLayer::empty(),
            };
            apply_service_endpoint_layer(&mut section, inc, provenance, prefix, stamp);
            *target = Some(section);
        },
    }
}

/// Overrides `target` with every leaf that `incoming` sets, and records `stamp` as the
/// provenance of each such leaf under `prefix`.
fn apply_service_transport_layer<V: Stamp>(
    target: &mut ServiceTransportLayer,
    incoming: ServiceTransportLayer,
    provenance: &mut PathMap<V>,
    prefix: &str,
    stamp: &V,
)
    ensures
        *final(target) == overlay_service_transport_layer(*old(target), incoming),
        final(provenance)@ == stamp_keys(old(provenance)@, keys_service_transport_layer(incoming, prefix@), *stamp),
{
    let ghost start = provenance@;
    let ServiceTransportLayer { kind, url, headers, subject_prefix } = incoming;
    let leaf_path = concat(prefix, "kind");
    set_field(&mut target.kind, kind, provenance, leaf_path.as_str(), stamp);
    let ghost done = leaf_keys(kind, prefix@ + "kind"@);
    let leaf_path = concat(prefix, "url");
    set_field(&mut target.url, url, provenance, leaf_path.as_str(), stamp);
    proof {
        lemma_stamp_union(start, done, leaf_keys(url, prefix@ + "url"@), *stamp);
    }
    let ghost done = done.union(leaf_keys(url, prefix@ + "url"@));
    let leaf_path = concat(prefix, "headers");
    set_field(&mut target.headers, headers, provenance, leaf_path.as_str(), stamp);
    proof {
        lemma_stamp_union(start, done, leaf_keys(headers, prefix@ + "headers"@), *stamp);
    }
    let ghost done = done.union(leaf_keys(headers, prefix@ + "headers"@));
    let leaf_path = concat(prefix, "subject_prefix");
    set_field(&mut target.subject_prefix, subject_prefix, provenance, leaf_path.as_str(), stamp);
    proof {
        lemma_stamp_union(start, done, leaf_keys(subject_prefix, prefix@ + "subject_prefix"@), *stamp);
    }
    let ghost done = done.union(leaf_keys(subject_prefix, prefix@ + "subject_prefix"@));
}

/// Overrides `target` with every leaf that `incoming` sets, and records `stamp` as the
/// provenance of each such leaf under `prefix`.
fn apply_metrics_layer<V: Stamp>(
    target: &mut MetricsLayer,
    incoming: MetricsLayer,
    provenance: &mut PathMap<V>,
    prefix: &str,
    stamp: &V,
)
    ensures
        *final(target) == overlay_metrics_layer(*old(target), incoming),
        final(provenance)@ == stamp_keys(old(provenance)@, keys_metrics_layer(incoming, prefix@), *stamp),
{
    let ghost start = provenance@;
    let MetricsLayer { enabled, bind_addr, port, path } = incoming;
    let leaf_path = concat(prefix, "enabled");
    set_field(&mut target.enabled, enabled, provenance, leaf_path.as_str(), stamp);
    let ghost done = leaf_keys(enabled, prefix@ + "enabled"@);
    let leaf_path = concat(prefix, "bind_addr");
    set_field(&mut target.bind_addr, bind_addr, provenance, leaf_path.as_str(), stamp);
    proof {
        lemma_stamp_union(start, done, leaf_keys(bind_addr, prefix@ + "bind_addr"@), *stamp);
    }
    let ghost done = done.union(leaf_keys(bind_addr, prefix@ + "bind_addr"@));
    let leaf_path = concat(prefix, "port");
    set_field(&mut target.port, port, provenance, leaf_path.as_str(), stamp);
    proof {
        lemma_stamp_union(start, done, leaf_keys(port, prefix@ + "port"@), *stamp);
    }
    let ghost done = done.union(leaf_keys(port, prefix@ + "port"@));
    let leaf_path = concat(prefix, "path");
    set_field(&mut target.path, path, provenance, leaf_path.as_str(), stamp);
    proof {
        lemma_stamp_union(start, done, leaf_keys(path, prefix@ + "path"@), *stamp);
    }
    let ghost done = done.union(leaf_keys(path, prefix@ + "path"@));
}

fn apply_opt_metrics_layer<V: Stamp>(
    target: &mut Option<MetricsLayer>,
    incoming: Option<MetricsLayer>,
    provenance: &mut PathMap<V>,
    prefix: &str,
    stamp: &V,
)
    ensures
        *final(target) == overlay_opt_metrics_layer(*old(target), incoming),
        final(provenance)@ == stamp_keys(old(provenance)@, keys_opt_metrics_layer(incoming, prefix@), *stamp),
{
    match incoming {
        None => {
            proof {
                lemma_stamp_empty(provenance@, *stamp);
            }
        },
        Some(inc) => {
            let mut section = match target.take() {
                Some(t) => t,
                None => MetricsLayer::empty(),
            };
            apply_metrics_layer(&mut section, inc, provenance, prefix, stamp);
            *target = Some(section);
        },
    }
}

/// Overrides `target` with every leaf that `incoming` sets, and records `stamp` as the
/// provenance of each such leaf under `prefix`.
fn apply_service_config_layer<V: Stamp>(
    target: &mut ServiceConfigLayer,
    incoming: ServiceConfigLayer,
    provenance: &mut PathMap<V>,
    prefix: &str,
    stamp: &V,
)
    ensures
        *final(target) == overlay_service_config_layer(*old(target), incoming),
        final(provenance)@ == stamp_keys(old(provenance)@, keys_service_config_layer(incoming, prefix@), *stamp),
{
    let ghost start = provenance@;
    let ServiceConfigLayer { bind_addr, port, public_base_url, metrics } = incoming;
    let leaf_path = concat(prefix, "bind_addr");
    set_field(&mut target.bind_addr, bind_addr, provenance, leaf_path.as_str(), stamp);
    let ghost done = leaf_keys(bind_addr, prefix@ + "bind_addr"@);
    let leaf_path = concat(prefix, "port");
    set_field(&mut target.port, port, provenance, leaf_path.as_str(), stamp);
    proof {
        lemma_stamp_union(start, done, leaf_keys(port, prefix@ + "port"@), *stamp);
    }
    let ghost done = done.union(leaf_keys(port, prefix@ + "port"@));
    let leaf_path = concat(prefix, "public_base_url");
    set_field(&mut target.public_base_url, public_base_url, provenance, leaf_path.as_str(), stamp);
    proof {
        lemma_stamp_union(start, done, leaf_keys(public_base_url, prefix@ + "public_base_url"@), *stamp);
    }
    let ghost done = done.union(leaf_keys(public_base_url, prefix@ + "public_base_url"@));
    let leaf_path = concat(prefix, "metrics.");
    apply_opt_metrics_layer(&mut target.metrics, metrics, provenance, leaf_path.as_str(), stamp);
    proof {
        lemma_stamp_union(start, done, keys_opt_metrics_layer(metrics, prefix@ + "metrics."@), *stamp);
    }
    let ghost done = done.union(keys_opt_metrics_layer(metrics, prefix@ + "metrics."@));
}

fn apply_opt_service_config_layer<V: Stamp>(
    target: &mut Option<ServiceConfigLayer>,
    incoming: Option<ServiceConfigLayer>,
    provenance: &mut PathMap<V>,
    prefix: &str,
    stamp: &V,
)
    ensures
        *final(target) == overlay_opt_service_config_layer(*old(target), incoming),
        final(provenance)@ == stamp_keys(old(provenance)@, keys_opt_service_config_layer(incoming, prefix@), *stamp),
{
    match incoming {
        None => {
            proof {
                lemma_stamp_empty(provenance@, *stamp);
            }
        },
        Some(inc) => {
            let mut section = match target.take() {
                Some(t) => t,
                None => ServiceConfigLayer::empty(),
            };
            apply_service_config_layer(&mut section, inc, provenance, prefix, stamp);
            *target = Some(section);
        },
    }
}

/// Overrides `target` with every leaf that `incoming` sets, and records `stamp` as the
/// provenance of each such leaf under `prefix`.
fn apply_service_layer<V: Stamp>(
    target: &mut ServiceLayer,
    incoming: ServiceLayer,
    provenance: &mut PathMap<V>,
    prefix: &str,
    stamp: &V,
)
    ensures
        *final(target) == overlay_service_layer(*old(target), incoming),
        final(provenance)@ == stamp_keys(old(provenance)@, keys_service_layer(incoming, prefix@), *stamp),
{
    let ghost start = provenance@;
    let ServiceLayer { transport, service } = incoming;
    apply_service_transport_layer(&mut target.transport, transport, provenance, prefix, stamp);
    let ghost done = keys_service_transport_layer(transport, prefix@);
    let leaf_path = concat(prefix, "service.");
    apply_opt_service_config_layer(&mut target.service, service, provenance, leaf_path.as_str(), stamp);
    proof {
        lemma_stamp_union(start, done, keys_opt_service_config_layer(service, prefix@ + "service."@), *stamp);
    }
    let ghost done = done.union(keys_opt_service_config_layer(service, prefix@ + "service."@));
}

fn apply_opt_service_layer<V: Stamp>(
    target: &mut Option<ServiceLayer>,
    incoming: Option<ServiceLayer>,
    provenance: &mut PathMap<V>,
    prefix: &str,
    stamp: &V,
)
    ensures
        *final(target) == overlay_opt_service_layer(*old(target), incoming),
        final(provenance)@ == stamp_keys(old(provenance)@, keys_opt_service_layer(incoming, prefix@), *stamp),
{
    match incoming {
        None => {
            proof {
                lemma_stamp_empty(provenance@, *stamp);
            }
        },
        Some(inc) => {
            let mut section = match target.take() {
                Some(t) => t,
                None => ServiceLayer::empty(),
            };
            apply_service_layer(&mut section, inc, provenance, prefix, stamp);
            *target = Some(section);
        },
    }
}

/// Overrides `target` with every leaf that `incoming` sets, and records `stamp` as the
/// provenance of each such leaf under `prefix`.
fn apply_services_layer<V: Stamp>(
    target: &mut ServicesLayer,
    incoming: ServicesLayer,
    provenance: &mut PathMap<V>,
    prefix: &str,
    stamp: &V,
)
    ensures
        *final(target) == overlay_services_layer(*old(target), incoming),
        final(provenance)@ == stamp_keys(old(provenance)@, keys_services_layer(incoming, prefix@), *stamp),
{
    let ghost start = provenance@;
    let ServicesLayer { events, runner, deployer, events_transport, source, publish, metadata, oauth_broker } = incoming;
    let leaf_path = concat(prefix, "events.");
    apply_opt_service_endpoint_layer(&mut target.events, events, provenance, leaf_path.as_str(), stamp);
    let ghost done = keys_opt_service_endpoint_layer(events, prefix@ + "events."@);
    let leaf_path = concat(prefix, "runner.");
    apply_opt_service_layer(&mut target.runner, runner, provenance, leaf_path.as_str(), stamp);
    proof {
        lemma_stamp_union(start, done, keys_opt_service_layer(runner, prefix@ + "runner."@), *stamp);
    }
    let ghost done = done.union(keys_opt_service_layer(runner, prefix@ + "runner."@));
    let leaf_path = concat(prefix, "deployer.");
    apply_opt_service_layer(&mut target.deployer, deployer, provenance, leaf_path.as_str(), stamp);
    proof {
        lemma_stamp_union(start, done, keys_opt_service_layer(deployer, prefix@ + "deployer."@), *stamp);
    }
    let ghost done = done.union(keys_opt_service_layer(deployer, prefix@ + "deployer."@));
    let leaf_path = concat(prefix, "events_transport.");
    apply_opt_service_layer(&mut target.events_transport, events_transport, provenance, leaf_path.as_str(), stamp);
    proof {
        lemma_stamp_union(start, done, keys_opt_service_layer(events_transport, prefix@ + "events_transport."@), *stamp);
    }
    let ghost done = done.union(keys_opt_service_layer(events_transport, prefix@ + "events_transport."@));
    let leaf_path = concat(prefix, "source.");
    apply_opt_service_layer(&mut target.source, source, provenance, leaf_path.as_str(), stamp);
    proof {
        lemma_stamp_union(start, done, keys_opt_service_layer(source, prefix@ + "source."@), *stamp);
    }
    let ghost done = done.union(keys_opt_service_layer(source, prefix@ + "source."@));
    let leaf_path = concat(prefix, "publish.");
    apply_opt_service_layer(&mut target.publish, publish, provenance, leaf_path.as_str(), stamp);
    proof {
        lemma_stamp_union(start, done, keys_opt_service_layer(publish, prefix@ + "publish."@), *stamp);
    }
    let ghost done = done.union(keys_opt_service_layer(publish, prefix@ + "publish."@));
    let leaf_path = concat(prefix, "metadata.");
    apply_opt_service_layer(&mut target.metadata, metadata, provenance, leaf_path.as_str(), stamp);
    proof {
        lemma_stamp_union(start, done, keys_opt_service_layer(metadata, prefix@ + "metadata."@), *stamp);
    }
    let ghost done = done.union(keys_opt_service_layer(metadata, prefix@ + "metadata."@));
    let leaf_path = concat(prefix, "oauth_broker.");
    apply_opt_service_layer(&mut target.oauth_broker, oauth_broker, provenance, leaf_path.as_str(), stamp);
    proof {
        lemma_stamp_union(start, done, keys_opt_service_layer(oauth_broker, prefix@ + "oauth_broker."@), *stamp);
    }
    let ghost done = done.union(keys_opt_service_layer(oauth_broker, prefix@ + "oauth_broker."@));
}

fn apply_opt_services_layer<V: Stamp>(
    target: &mut Option<ServicesLayer>,
    incoming: Option<ServicesLayer>,
    provenance: &mut PathMap<V>,
    prefix: &str,
    stamp: &V,
)
    ensures
        *final(target) == overlay_opt_services_layer(*old(target), incoming),
        final(provenance)@ == stamp_keys(old(provenance)@, keys_opt_services_layer(incoming, prefix@), *stamp),
{
    match incoming {
        None => {
            proof {
                lemma_stamp_empty(provenance@, *stamp);
            }
        },
        Some(inc) => {
            let mut section = match target.take() {
                Some(t) => t,
                None => ServicesLayer::empty(),
            };
            apply_services_layer(&mut section, inc, provenance, prefix, stamp);
            *target = Some(section);
        },
    }
}

/// Overrides `target` with every leaf that `incoming` sets, and records `stamp` as the
/// provenance of each such leaf under `prefix`.
fn apply_reconnect_layer<V: Stamp>(
    target: &mut ReconnectLayer,
    incoming: ReconnectLayer,
    provenance: &mut PathMap<V>,
    prefix: &str,
    stamp: &V,
)
    ensures
        *final(target) == overlay_reconnect_layer(*old(target), incoming),
        final(provenance)@ == stamp_keys(old(provenance)@, keys_reconnect_layer(incoming, prefix@), *stamp),
{
    let ghost start = provenance@;
    let ReconnectLayer { enabled, max_retries } = incoming;
    let leaf_path = concat(prefix, "enabled");
    set_field(&mut target.enabled, enabled, provenance, leaf_path.as_str(), stamp);
    let ghost done = leaf_keys(enabled, prefix@ + "enabled"@);
    let leaf_path = concat(prefix, "max_retries");
    set_field(&mut target.max_retries, max_retries, provenance, leaf_path.as_str(), stamp);
    proof {
        lemma_stamp_union(start, done, leaf_keys(max_retries, prefix@ + "max_retries"@), *stamp);
    }
    let ghost done = done.union(leaf_keys(max_retries, prefix@ + "max_retries"@));
}

fn apply_opt_reconnect_layer<V: Stamp>(
    target: &mut Option<ReconnectLayer>,
    incoming: Option<ReconnectLayer>,
    provenance: &mut PathMap<V>,
    prefix: &str,
    stamp: &V,
)
    ensures
        *final(target) == overlay_opt_reconnect_layer(*old(target), incoming),
        final(provenance)@ == stamp_keys(old(provenance)@, keys_opt_reconnect_layer(incoming, prefix@), *stamp),
{
    match incoming {
        None => {
            proof {
                lemma_stamp_empty(provenance@, *stamp);
            }
        },
        Some(inc) => {
            let mut section = match target.take() {
                Some(t) => t,
                None => ReconnectLayer::empty(),
            };
            apply_reconnect_layer(&mut section, inc, provenance, prefix, stamp);
            *target = Some(section);
        },
    }
}

/// Overrides `target` with every leaf that `incoming` sets, and records `stamp` as the
/// provenance of each such leaf under `prefix`.
fn apply_backoff_layer<V: Stamp>(
    target: &mut BackoffLayer,
    incoming: BackoffLayer,
    provenance: &mut PathMap<V>,
    prefix: &str,
    stamp: &V,
)
    ensures
        *final(target) == overlay_backoff_layer(*old(target), incoming),
        final(provenance)@ == stamp_keys(old(provenance)@, keys_backoff_layer(incoming, prefix@), *stamp),
{
    let ghost start = provenance@;
    let BackoffLayer { initial_ms, max_ms, multiplier, jitter } = incoming;
    let leaf_path = concat(prefix, "initial_ms");
    set_field(&mut target.initial_ms, initial_ms, provenance, leaf_path.as_str(), stamp);
    let ghost done = leaf_keys(initial_ms, prefix@ + "initial_ms"@);
    let leaf_path = concat(prefix, "max_ms");
    set_field(&mut target.max_ms, max_ms, provenance, leaf_path.as_str(), stamp);
    proof {
        lemma_stamp_union(start, done, leaf_keys(max_ms, prefix@ + "max_ms"@), *stamp);
    }
    let ghost done = done.union(leaf_keys(max_ms, prefix@ + "max_ms"@));
    let leaf_path = concat(prefix, "multiplier");
    set_field(&mut target.multiplier, multiplier, provenance, leaf_path.as_str(), stamp);
    proof {
        lemma_stamp_union(start, done, leaf_keys(multiplier, prefix@ + "multiplier"@), *stamp);
    }
    let ghost done = done.union(leaf_keys(multiplier, prefix@ + "multiplier"@));
    let leaf_path = concat(prefix, "jitter");
    set_field(&mut target.jitter, jitter, provenance, leaf_path.as_str(), stamp);
    proof {
        lemma_stamp_union(start, done, leaf_keys(jitter, prefix@ + "jitter"@), *stamp);
    }
    let ghost done = done.union(leaf_keys(jitter, prefix@ + "jitter"@));
}

fn apply_opt_backoff_layer<V: Stamp>(
    target: &mut Option<BackoffLayer>,
    incoming: Option<BackoffLayer>,
    provenance: &mut PathMap<V>,
    prefix: &str,
    stamp: &V,
)
    ensures
        *final(target) == overlay_opt_backoff_layer(*old(target), incoming),
        final(provenance)@ == stamp_keys(old(provenance)@, keys_opt_backoff_layer(incoming, prefix@), *stamp),
{
    match incoming {
        None => {
            proof {
                lemma_stamp_empty(provenance@, *stamp);
            }
        },
        Some(inc) => {
            let mut section = match target.take() {
                Some(t) => t,
                None => BackoffLayer::empty(),
            };
            apply_backoff_layer(&mut section, inc, provenance, prefix, stamp);
            *target = Some(section);
        },
    }
}

/// Overrides `target` with every leaf that `incoming` sets, and records `stamp` as the
/// provenance of each such leaf under `prefix`.
fn apply_events_layer<V: Stamp>(
    target: &mut EventsLayer,
    incoming: EventsLayer,
    provenance: &mut PathMap<V>,
    prefix: &str,
    stamp: &V,
)
    ensures
        *final(target) == overlay_events_layer(*old(target), incoming),
        final(provenance)@ == stamp_keys(old(provenance)@, keys_events_layer(incoming, prefix@), *stamp),
{
    let ghost start = provenance@;
    let EventsLayer { reconnect, backoff } = incoming;
    let leaf_path = concat(prefix, "reconnect.");
    apply_opt_reconnect_layer(&mut target.reconnect, reconnect, provenance, leaf_path.as_str(), stamp);
    let ghost done = keys_opt_reconnect_layer(reconnect, prefix@ + "reconnect."@);
    let leaf_path = concat(prefix, "backoff.");
    apply_opt_backoff_layer(&mut target.backoff, backoff, provenance, leaf_path.as_str(), stamp);
    proof {
        lemma_stamp_union(start, done, keys_opt_backoff_layer(backoff, prefix@ + "backoff."@), *stamp);
    }
    let ghost done = done.union(keys_opt_backoff_layer(backoff, prefix@ + "backoff."@));
}

fn apply_opt_events_layer<V: Stamp>(
    target: &mut Option<EventsLayer>,
    incoming: Option<EventsLayer>,
    provenance: &mut PathMap<V>,
    prefix: &str,
    stamp: &V,
)
    ensures
        *final(target) == overlay_opt_events_layer(*old(target), incoming),
        final(provenance)@ == stamp_keys(old(provenance)@, keys_opt_events_layer(incoming, prefix@), *stamp),
{
    match incoming {
        None => {
            proof {
                lemma_stamp_empty(provenance@, *stamp);
            }
        },
        Some(inc) => {
            let mut section = match target.take() {
                Some(t) => t,
                None => EventsLayer::empty(),
            };
            apply_events_layer(&mut section, inc, provenance, prefix, stamp);
            *target = Some(section);
        },
    }
}

/// Overrides `target` with every leaf that `incoming` sets, and records `stamp` as the
/// provenance of each such leaf under `prefix`.
fn apply_admin_endpoints_layer<V: Stamp>(
    target: &mut AdminEndpointsLayer,
    incoming: AdminEndpointsLayer,
    provenance: &mut PathMap<V>,
    prefix: &str,
    stamp: &V,
)
    ensures
        *final(target) == overlay_admin_endpoints_layer(*old(target), incoming),
        final(provenance)@ == stamp_keys(old(provenance)@, keys_admin_endpoints_layer(incoming, prefix@), *stamp),
{
    let ghost start = provenance@;
    let AdminEndpointsLayer { secrets_explain_enabled } = incoming;
    let leaf_path = concat(prefix, "secrets_explain_enabled");
    set_field(&mut target.secrets_explain_enabled, secrets_explain_enabled, provenance, leaf_path.as_str(), stamp);
    let ghost done = leaf_keys(secrets_explain_enabled, prefix@ + "secrets_explain_enabled"@);
}

fn apply_opt_admin_endpoints_layer<V: Stamp>(
    target: &mut Option<AdminEndpointsLayer>,
    incoming: Option<AdminEndpointsLayer>,
    provenance: &mut PathMap<V>,
    prefix: &str,
    stamp: &V,
)
    ensures
        *final(target) == overlay_opt_admin_endpoints_layer(*old(target), incoming),
        final(provenance)@ == stamp_keys(old(provenance)@, keys_opt_admin_endpoints_layer(incoming, prefix@), *stamp),
{
    match incoming {
        None => {
            proof {
                lemma_stamp_empty(provenance@, *stamp);
            }
        },
        Some(inc) => {
            let mut section = match target.take() {
                Some(t) => t,
                None => AdminEndpointsLayer::empty(),
            };
            apply_admin_endpoints_layer(&mut section, inc, provenance, prefix, stamp);
            *target = Some(section);
        },
    }
}

/// Overrides `target` with every leaf that `incoming` sets, and records `stamp` as the
/// provenance of each such leaf under `prefix`.
fn apply_runtime_layer<V: Stamp>(
    target: &mut RuntimeLayer,
    incoming: RuntimeLayer,
    provenance: &mut PathMap<V>,
    prefix: &str,
    stamp: &V,
)
    ensures
        *final(target) == overlay_runtime_layer(*old(target), incoming),
        final(provenance)@ == stamp_keys(old(provenance)@, keys_runtime_layer(incoming, prefix@), *stamp),
{
    let ghost start = provenance@;
    let RuntimeLayer { max_concurrency, task_timeout_ms, shutdown_grace_ms, admin_endpoints } = incoming;
    let leaf_path = concat(prefix, "max_concurrency");
    set_field(&mut target.max_concurrency, max_concurrency, provenance, leaf_path.as_str(), stamp);
    let ghost done = leaf_keys(max_concurrency, prefix@ + "max_concurrency"@);
    let leaf_path = concat(prefix, "task_timeout_ms");
    set_field(&mut target.task_timeout_ms, task_timeout_ms, provenance, leaf_path.as_str(), stamp);
    proof {
        lemma_stamp_union(start, done, leaf_keys(task_timeout_ms, prefix@ + "task_timeout_ms"@), *stamp);
    }
    let ghost done = done.union(leaf_keys(task_timeout_ms, prefix@ + "task_timeout_ms"@));
    let leaf_path = concat(prefix, "shutdown_grace_ms");
    set_field(&mut target.shutdown_grace_ms, shutdown_grace_ms, provenance, leaf_path.as_str(), stamp);
    proof {
        lemma_stamp_union(start, done, leaf_keys(shutdown_grace_ms, prefix@ + "shutdown_grace_ms"@), *stamp);
    }
    let ghost done = done.union(leaf_keys(shutdown_grace_ms, prefix@ + "shutdown_grace_ms"@));
    let leaf_path = concat(prefix, "admin_endpoints.");
    apply_opt_admin_endpoints_layer(&mut target.admin_endpoints, admin_endpoints, provenance, leaf_path.as_str(), stamp);
    proof {
        lemma_stamp_union(start, done, keys_opt_admin_endpoints_layer(admin_endpoints, prefix@ + "admin_endpoints."@), *stamp);
    }
    let ghost done = done.union(keys_opt_admin_endpoints_layer(admin_endpoints, prefix@ + "admin_endpoints."@));
}

fn apply_opt_runtime_layer<V: Stamp>(
    target: &mut Option<RuntimeLayer>,
    incoming: Option<RuntimeLayer>,
    provenance: &mut PathMap<V>,
    prefix: &str,
    stamp: &V,
)
    ensures
        *final(target) == overlay_opt_runtime_layer(*old(target), incoming),
        final(provenance)@ == stamp_keys(old(provenance)@, keys_opt_runtime_layer(incoming, prefix@), *stamp),
{
    match incoming {
        None => {
            proof {
                lemma_stamp_empty(provenance@, *stamp);
            }
        },
        Some(inc) => {
            let mut section = match target.take() {
                Some(t) => t,
                None => RuntimeLayer::empty(),
            };
            apply_runtime_layer(&mut section, inc, provenance, prefix, stamp);
            *target = Some(section);
        },
    }
}

/// Overrides `target` with every leaf that `incoming` sets, and records `stamp` as the
/// provenance of each such leaf under `prefix`.
fn apply_telemetry_layer<V: Stamp>(
    target: &mut TelemetryLayer,
    incoming: TelemetryLayer,
    provenance: &mut PathMap<V>,
    prefix: &str,
    stamp: &V,
)
    ensures
        *final(target) == overlay_telemetry_layer(*old(target), incoming),
        final(provenance)@ == stamp_keys(old(provenance)@, keys_telemetry_layer(incoming, prefix@), *stamp),
{
    let ghost start = provenance@;
    let TelemetryLayer { enabled, exporter, endpoint, sampling } = incoming;
    let leaf_path = concat(prefix, "enabled");
    set_field(&mut target.enabled, enabled, provenance, leaf_path.as_str(), stamp);
    let ghost done = leaf_keys(enabled, prefix@ + "enabled"@);
    let leaf_path = concat(prefix, "exporter");
    set_field(&mut target.exporter, exporter, provenance, leaf_path.as_str(), stamp);
    proof {
        lemma_stamp_union(start, done, leaf_keys(exporter, prefix@ + "exporter"@), *stamp);
    }
    let ghost done = done.union(leaf_keys(exporter, prefix@ + "exporter"@));
    let leaf_path = concat(prefix, "endpoint");
    set_field(&mut target.endpoint, endpoint, provenance, leaf_path.as_str(), stamp);
    proof {
        lemma_stamp_union(start, done, leaf_keys(endpoint, prefix@ + "endpoint"@), *stamp);
    }
    let ghost done = done.union(leaf_keys(endpoint, prefix@ + "endpoint"@));
    let leaf_path = concat(prefix, "sampling");
    set_field(&mut target.sampling, sampling, provenance, leaf_path.as_str(), stamp);
    proof {
        lemma_stamp_union(start, done, leaf_keys(sampling, prefix@ + "sampling"@), *stamp);
    }
    let ghost done = done.union(leaf_keys(sampling, prefix@ + "sampling"@));
}

fn apply_opt_telemetry_layer<V: Stamp>(
    target: &mut Option<TelemetryLayer>,
    incoming: Option<TelemetryLayer>,
    provenance: &mut PathMap<V>,
    prefix: &str,
    stamp: &V,
)
    ensures
        *final(target) == overlay_opt_telemetry_layer(*old(target), incoming),
        final(provenance)@ == stamp_keys(old(provenance)@, keys_opt_telemetry_layer(incoming, prefix@), *stamp),
{
    match incoming {
        None => {
            proof {
                lemma_stamp_empty(provenance@, *stamp);
            }
        },
        Some(inc) => {
            let mut section = match target.take() {
                Some(t) => t,
                None => TelemetryLayer::empty(),
            };
            apply_telemetry_layer(&mut section, inc, provenance, prefix, stamp);
            *target = Some(section);
        },
    }
}

/// Overrides `target` with every leaf that `incoming` sets, and records `stamp` as the
/// provenance of each such leaf under `prefix`.
fn apply_network_layer<V: Stamp>(
    target: &mut NetworkLayer,
    incoming: NetworkLayer,
    provenance: &mut PathMap<V>,
    prefix: &str,
    stamp: &V,
)
    ensures
        *final(target) == overlay_network_layer(*old(target), incoming),
        final(provenance)@ == stamp_keys(old(provenance)@, keys_network_layer(incoming, prefix@), *stamp),
{
    let ghost start = provenance@;
    let NetworkLayer { proxy_url, tls_mode, connect_timeout_ms, read_timeout_ms } = incoming;
    let leaf_path = concat(prefix, "proxy_url");
    set_field(&mut target.proxy_url, proxy_url, provenance, leaf_path.as_str(), stamp);
    let ghost done = leaf_keys(proxy_url, prefix@ + "proxy_url"@);
    let leaf_path = concat(prefix, "tls_mode");
    set_field(&mut target.tls_mode, tls_mode, provenance, leaf_path.as_str(), stamp);
    proof {
        lemma_stamp_union(start, done, leaf_keys(tls_mode, prefix@ + "tls_mode"@), *stamp);
    }
    let ghost done = done.union(leaf_keys(tls_mode, prefix@ + "tls_mode"@));
    let leaf_path = concat(prefix, "connect_timeout_ms");
    set_field(&mut target.connect_timeout_ms, connect_timeout_ms, provenance, leaf_path.as_str(), stamp);
    proof {
        lemma_stamp_union(start, done, leaf_keys(connect_timeout_ms, prefix@ + "connect_timeout_ms"@), *stamp);
    }
    let ghost done = done.union(leaf_keys(connect_timeout_ms, prefix@ + "connect_timeout_ms"@));
    let leaf_path = concat(prefix, "read_timeout_ms");
    set_field(&mut target.read_timeout_ms, read_timeout_ms, provenance, leaf_path.as_str(), stamp);
    proof {
        lemma_stamp_union(start, done, leaf_keys(read_timeout_ms, prefix@ + "read_timeout_ms"@), *stamp);
    }
    let ghost done = done.union(leaf_keys(read_timeout_ms, prefix@ + "read_timeout_ms"@));
}

fn apply_opt_network_layer<V: Stamp>(
    target: &mut Option<NetworkLayer>,
    incoming: Option<NetworkLayer>,
    provenance: &mut PathMap<V>,
    prefix: &str,
    stamp: &V,
)
    ensures
        *final(target) == overlay_opt_network_layer(*old(target), incoming),
        final(provenance)@ == stamp_keys(old(provenance)@, keys_opt_network_layer(incoming, prefix@), *stamp),
{
    match incoming {
        None => {
            proof {
                lemma_stamp_empty(provenance@, *stamp);
            }
        },
        Some(inc) => {
            let mut section = match target.take() {
                Some(t) => t,
                None => NetworkLayer::empty(),
            };
            apply_network_layer(&mut section, inc, provenance, prefix, stamp);
            *target = Some(section);
        },
    }
}

/// Overrides `target` with every leaf that `incoming` sets, and records `stamp` as the
/// provenance of each such leaf under `prefix`.
fn apply_deployer_provider_defaults_layer<V: Stamp>(
    target: &mut DeployerProviderDefaultsLayer,
    incoming: DeployerProviderDefaultsLayer,
    provenance: &mut PathMap<V>,
    prefix: &str,
    stamp: &V,
)
    ensures
        *final(target) == overlay_deployer_provider_defaults_layer(*old(target), incoming),
        final(provenance)@ == stamp_keys(old(provenance)@, keys_deployer_provider_defaults_layer(incoming, prefix@), *stamp),
{
    let ghost start = provenance@;
    let DeployerProviderDefaultsLayer { provider_kind, region } = incoming;
    let leaf_path = concat(prefix, "provider_kind");
    set_field(&mut target.provider_kind, provider_kind, provenance, leaf_path.as_str(), stamp);
    let ghost done = leaf_keys(provider_kind, prefix@ + "provider_kind"@);
    let leaf_path = concat(prefix, "region");
    set_field(&mut target.region, region, provenance, leaf_path.as_str(), stamp);
    proof {
        lemma_stamp_union(start, done, leaf_keys(region, prefix@ + "region"@), *stamp);
    }
    let ghost done = done.union(leaf_keys(region, prefix@ + "region"@));
}

fn apply_opt_deployer_provider_defaults_layer<V: Stamp>(
    target: &mut Option<DeployerProviderDefaultsLayer>,
    incoming: Option<DeployerProviderDefaultsLayer>,
    provenance: &mut PathMap<V>,
    prefix: &str,
    stamp: &V,
)
    ensures
        *final(target) == overlay_opt_deployer_provider_defaults_layer(*old(target), incoming),
        final(provenance)@ == stamp_keys(old(provenance)@, keys_opt_deployer_provider_defaults_layer(incoming, prefix@), *stamp),
{
    match incoming {
        None => {
            proof {
                lemma_stamp_empty(provenance@, *stamp);
            }
        },
        Some(inc) => {
            let mut section = match target.take() {
                Some(t) => t,
                None => DeployerProviderDefaultsLayer::empty(),
            };
            apply_deployer_provider_defaults_layer(&mut section, inc, provenance, prefix, stamp);
            *target = Some(section);
        },
    }
}

/// Overrides `target` with every leaf that `incoming` sets, and records `stamp` as the
/// provenance of each such leaf under `prefix`.
fn apply_deployer_layer<V: Stamp>(
    target: &mut DeployerLayer,
    incoming: DeployerLayer,
    provenance: &mut PathMap<V>,
    prefix: &str,
    stamp: &V,
)
    ensures
        *final(target) == overlay_deployer_layer(*old(target), incoming),
        final(provenance)@ == stamp_keys(old(provenance)@, keys_deployer_layer(incoming, prefix@), *stamp),
{
    let ghost start = provenance@;
    let DeployerLayer { base_domain, provider } = incoming;
    let leaf_path = concat(prefix, "base_domain");
    set_field(&mut target.base_domain, base_domain, provenance, leaf_path.as_str(), stamp);
    let ghost done = leaf_keys(base_domain, prefix@ + "base_domain"@);
    let leaf_path = concat(prefix, "provider.");
    apply_opt_deployer_provider_defaults_layer(&mut target.provider, provider, provenance, leaf_path.as_str(), stamp);
    proof {
        lemma_stamp_union(start, done, keys_opt_deployer_provider_defaults_layer(provider, prefix@ + "provider."@), *stamp);
    }
    let ghost done = done.union(keys_opt_deployer_provider_defaults_layer(provider, prefix@ + "provider."@));
}

fn apply_opt_deployer_layer<V: Stamp>(
    target: &mut Option<DeployerLayer>,
    incoming: Option<DeployerLayer>,
    provenance: &mut PathMap<V>,
    prefix: &str,
    stamp: &V,
)
    ensures
        *final(target) == overlay_opt_deployer_layer(*old(target), incoming),
        final(provenance)@ == stamp_keys(old(provenance)@, keys_opt_deployer_layer(incoming, prefix@), *stamp),
{
    match incoming {
        None => {
            proof {
                lemma_stamp_empty(provenance@, *stamp);
            }
        },
        Some(inc) => {
            let mut section = match target.take() {
                Some(t) => t,
                None => DeployerLayer::empty(),
            };
            apply_deployer_layer(&mut section, inc, provenance, prefix, stamp);
            *target = Some(section);
        },
    }
}

/// Overrides `target` with every leaf that `incoming` sets, and records `stamp` as the
/// provenance of each such leaf under `prefix`.
fn apply_secrets_backend_ref_layer<V: Stamp>(
    target: &mut SecretsBackendRefLayer,
    incoming: SecretsBackendRefLayer,
    provenance: &mut PathMap<V>,
    prefix: &str,
    stamp: &V,
)
    ensures
        *final(target) == overlay_secrets_backend_ref_layer(*old(target), incoming),
        final(provenance)@ == stamp_keys(old(provenance)@, keys_secrets_backend_ref_layer(incoming, prefix@), *stamp),
{
    let ghost start = provenance@;
    let SecretsBackendRefLayer { kind, reference } = incoming;
    let leaf_path = concat(prefix, "kind");
    set_field(&mut target.kind, kind, provenance, leaf_path.as_str(), stamp);
    let ghost done = leaf_keys(kind, prefix@ + "kind"@);
    let leaf_path = concat(prefix, "reference");
    set_field(&mut target.reference, reference, provenance, leaf_path.as_str(), stamp);
    proof {
        lemma_stamp_union(start, done, leaf_keys(reference, prefix@ + "reference"@), *stamp);
    }
    let ghost done = done.union(leaf_keys(reference, prefix@ + "reference"@));
}

fn apply_opt_secrets_backend_ref_layer<V: Stamp>(
    target: &mut Option<SecretsBackendRefLayer>,
    incoming: Option<SecretsBackendRefLayer>,
    provenance: &mut PathMap<V>,
    prefix: &str,
    stamp: &V,
)
    ensures
        *final(target) == overlay_opt_secrets_backend_ref_layer(*old(target), incoming),
        final(provenance)@ == stamp_keys(old(provenance)@, keys_opt_secrets_backend_ref_layer(incoming, prefix@), *stamp),
{
    match incoming {
        None => {
            proof {
                lemma_stamp_empty(provenance@, *stamp);
            }
        },
        Some(inc) => {
            let mut section = match target.take() {
                Some(t) => t,
                None => SecretsBackendRefLayer::empty(),
            };
            apply_secrets_backend_ref_layer(&mut section, inc, provenance, prefix, stamp);
            *target = Some(section);
        },
    }
}

/// Overrides `target` with every leaf that `incoming` sets, and records `stamp` as the
/// provenance of each such leaf under `prefix`.
fn apply_pack_trust_layer<V: Stamp>(
    target: &mut PackTrustLayer,
    incoming: PackTrustLayer,
    provenance: &mut PathMap<V>,
    prefix: &str,
    stamp: &V,
)
    ensures
        *final(target) == overlay_pack_trust_layer(*old(target), incoming),
        final(provenance)@ == stamp_keys(old(provenance)@, keys_pack_trust_layer(incoming, prefix@), *stamp),
{
    let ghost start = provenance@;
    let PackTrustLayer { public_keys, require_signatures } = incoming;
    let leaf_path = concat(prefix, "public_keys");
    set_field(&mut target.public_keys, public_keys, provenance, leaf_path.as_str(), stamp);
    let ghost done = leaf_keys(public_keys, prefix@ + "public_keys"@);
    let leaf_path = concat(prefix, "require_signatures");
    set_field(&mut target.require_signatures, require_signatures, provenance, leaf_path.as_str(), stamp);
    proof {
        lemma_stamp_union(start, done, leaf_keys(require_signatures, prefix@ + "require_signatures"@), *stamp);
    }
    let ghost done = done.union(leaf_keys(require_signatures, prefix@ + "require_signatures"@));
}

fn apply_opt_pack_trust_layer<V: Stamp>(
    target: &mut Option<PackTrustLayer>,
    incoming: Option<PackTrustLayer>,
    provenance: &mut PathMap<V>,
    prefix: &str,
    stamp: &V,
)
    ensures
        *final(target) == overlay_opt_pack_trust_layer(*old(target), incoming),
        final(provenance)@ == stamp_keys(old(provenance)@, keys_opt_pack_trust_layer(incoming, prefix@), *stamp),
{
    match incoming {
        None => {
            proof {
                lemma_stamp_empty(provenance@, *stamp);
            }
        },
        Some(inc) => {
            let mut section = match target.take() {
                Some(t) => t,
                None => PackTrustLayer::empty(),
            };
            apply_pack_trust_layer(&mut section, inc, provenance, prefix, stamp);
            *target = Some(section);
        },
    }
}

/// Overrides `target` with every leaf that `incoming` sets, and records `stamp` as the
/// provenance of each such leaf under `prefix`.
fn apply_packs_layer<V: Stamp>(
    target: &mut PacksLayer,
    incoming: PacksLayer,
    provenance: &mut PathMap<V>,
    prefix: &str,
    stamp: &V,
)
    ensures
        *final(target) == overlay_packs_layer(*old(target), incoming),
        final(provenance)@ == stamp_keys(old(provenance)@, keys_packs_layer(incoming, prefix@), *stamp),
{
    let ghost start = provenance@;
    let PacksLayer { source, cache_dir, index_cache_ttl_secs, trust } = incoming;
    let leaf_path = concat(prefix, "source");
    set_field(&mut target.source, source, provenance, leaf_path.as_str(), stamp);
    let ghost done = leaf_keys(source, prefix@ + "source"@);
    let leaf_path = concat(prefix, "cache_dir");
    set_field(&mut target.cache_dir, cache_dir, provenance, leaf_path.as_str(), stamp);
    proof {
        lemma_stamp_union(start, done, leaf_keys(cache_dir, prefix@ + "cache_dir"@), *stamp);
    }
    let ghost done = done.union(leaf_keys(cache_dir, prefix@ + "cache_dir"@));
    let leaf_path = concat(prefix, "index_cache_ttl_secs");
    set_field(&mut target.index_cache_ttl_secs, index_cache_ttl_secs, provenance, leaf_path.as_str(), stamp);
    proof {
        lemma_stamp_union(start, done, leaf_keys(index_cache_ttl_secs, prefix@ + "index_cache_ttl_secs"@), *stamp);
    }
    let ghost done = done.union(leaf_keys(index_cache_ttl_secs, prefix@ + "index_cache_ttl_secs"@));
    let leaf_path = concat(prefix, "trust.");
    apply_opt_pack_trust_layer(&mut target.trust, trust, provenance, leaf_path.as_str(), stamp);
    proof {
        lemma_stamp_union(start, done, keys_opt_pack_trust_layer(trust, prefix@ + "trust."@), *stamp);
    }
    let ghost done = done.union(keys_opt_pack_trust_layer(trust, prefix@ + "trust."@));
}

fn apply_opt_packs_layer<V: Stamp>(
    target: &mut Option<PacksLayer>,
    incoming: Option<PacksLayer>,
    provenance: &mut PathMap<V>,
    prefix: &str,
    stamp: &V,
)
    ensures
        *final(target) == overlay_opt_packs_layer(*old(target), incoming),
        final(provenance)@ == stamp_keys(old(provenance)@, keys_opt_packs_layer(incoming, prefix@), *stamp),
{
    match incoming {
        None => {
            proof {
                lemma_stamp_empty(provenance@, *stamp);
            }
        },
        Some(inc) => {
            let mut section = match target.take() {
                Some(t) => t,
                None => PacksLayer::empty(),
            };
            apply_packs_layer(&mut section, inc, provenance, prefix, stamp);
            *target = Some(section);
        },
    }
}

/// Overrides `target` with every leaf that `incoming` sets, and records `stamp` as the
/// provenance of each such leaf under `prefix`.
fn apply_dev_layer<V: Stamp>(
    target: &mut DevLayer,
    incoming: DevLayer,
    provenance: &mut PathMap<V>,
    prefix: &str,
    stamp: &V,
)
    ensures
        *final(target) == overlay_dev_layer(*old(target), incoming),
        final(provenance)@ == stamp_keys(old(provenance)@, keys_dev_layer(incoming, prefix@), *stamp),
{
    let ghost start = provenance@;
    let DevLayer { default_env, default_tenant, default_team } = incoming;
    let leaf_path = concat(prefix, "default_env");
    set_field(&mut target.default_env, default_env, provenance, leaf_path.as_str(), stamp);
    let ghost done = leaf_keys(default_env, prefix@ + "default_env"@);
    let leaf_path = concat(prefix, "default_tenant");
    set_field(&mut target.default_tenant, default_tenant, provenance, leaf_path.as_str(), stamp);
    proof {
        lemma_stamp_union(start, done, leaf_keys(default_tenant, prefix@ + "default_tenant"@), *stamp);
    }
    let ghost done = done.union(leaf_keys(default_tenant, prefix@ + "default_tenant"@));
    let leaf_path = concat(prefix, "default_team");
    set_field(&mut target.default_team, default_team, provenance, leaf_path.as_str(), stamp);
    proof {
        lemma_stamp_union(start, done, leaf_keys(default_team, prefix@ + "default_team"@), *stamp);
    }
    let ghost done = done.union(leaf_keys(default_team, prefix@ + "default_team"@));
}

fn apply_opt_dev_layer<V: Stamp>(
    target: &mut Option<DevLayer>,
    incoming: Option<DevLayer>,
    provenance: &mut PathMap<V>,
    prefix: &str,
    stamp: &V,
)
    ensures
        *final(target) == overlay_opt_dev_layer(*old(target), incoming),
        final(provenance)@ == stamp_keys(old(provenance)@, keys_opt_dev_layer(incoming, prefix@), *stamp),
{
    match incoming {
        None => {
            proof {
                lemma_stamp_empty(provenance@, *stamp);
            }
        },
        Some(inc) => {
            let mut section = match target.take() {
                Some(t) => t,
                None => DevLayer::empty(),
            };
            apply_dev_layer(&mut section, inc, provenance, prefix, stamp);
            *target = Some(section);
        },
    }
}

/// Overrides `target` with every leaf that `incoming` sets, and records `stamp` as the
/// provenance of each such leaf under `prefix`.
pub(crate) fn apply_config_layer<V: Stamp>(
    target: &mut ConfigLayer,
    incoming: ConfigLayer,
    provenance: &mut PathMap<V>,
    prefix: &str,
    stamp: &V,
)
    ensures
        *final(target) == overlay_config_layer(*old(target), incoming),
        final(provenance)@ == stamp_keys(old(provenance)@, keys_config_layer(incoming, prefix@), *stamp),
{
    let ghost start = provenance@;
    let ConfigLayer { schema_version, environment, paths, services, events, runtime, telemetry, network, deployer, secrets, packs, dev } = incoming;
    let leaf_path = concat(prefix, "schema_version");
    set_field(&mut target.schema_version, schema_version, provenance, leaf_path.as_str(), stamp);
    let ghost done = leaf_keys(schema_version, prefix@ + "schema_version"@);
    let leaf_path = concat(prefix, "environment.");
    apply_opt_environment_layer(&mut target.environment, environment, provenance, leaf_path.as_str(), stamp);
    proof {
        lemma_stamp_union(start, done, keys_opt_environment_layer(environment, prefix@ + "environment."@), *stamp);
    }
    let ghost done = done.union(keys_opt_environment_layer(environment, prefix@ + "environment."@));
    let leaf_path = concat(prefix, "paths.");
    apply_opt_paths_layer(&mut target.paths, paths, provenance, leaf_path.as_str(), stamp);
    proof {
        lemma_stamp_union(start, done, keys_opt_paths_layer(paths, prefix@ + "paths."@), *stamp);
    }
    let ghost done = done.union(keys_opt_paths_layer(paths, prefix@ + "paths."@));
    let leaf_path = concat(prefix, "services.");
    apply_opt_services_layer(&mut target.services, services, provenance, leaf_path.as_str(), stamp);
    proof {
        lemma_stamp_union(start, done, keys_opt_services_layer(services, prefix@ + "services."@), *stamp);
    }
    let ghost done = done.union(keys_opt_services_layer(services, prefix@ + "services."@));
    let leaf_path = concat(prefix, "events.");
    apply_opt_events_layer(&mut target.events, events, provenance, leaf_path.as_str(), stamp);
    proof {
        lemma_stamp_union(start, done, keys_opt_events_layer(events, prefix@ + "events."@), *stamp);
    }
    let ghost done = done.union(keys_opt_events_layer(events, prefix@ + "events."@));
    let leaf_path = concat(prefix, "runtime.");
    apply_opt_runtime_layer(&mut target.runtime, runtime, provenance, leaf_path.as_str(), stamp);
    proof {
        lemma_stamp_union(start, done, keys_opt_runtime_layer(runtime, prefix@ + "runtime."@), *stamp);
    }
    let ghost done = done.union(keys_opt_runtime_layer(runtime, prefix@ + "runtime."@));
    let leaf_path = concat(prefix, "telemetry.");
    apply_opt_telemetry_layer(&mut target.telemetry, telemetry, provenance, leaf_path.as_str(), stamp);
    proof {
        lemma_stamp_union(start, done, keys_opt_telemetry_layer(telemetry, prefix@ + "telemetry."@), *stamp);
    }
    let ghost done = done.union(keys_opt_telemetry_layer(telemetry, prefix@ + "telemetry."@));
    let leaf_path = concat(prefix, "network.");
    apply_opt_network_layer(&mut target.network, network, provenance, leaf_path.as_str(), stamp);
    proof {
        lemma_stamp_union(start, done, keys_opt_network_layer(network, prefix@ + "network."@), *stamp);
    }
    let ghost done = done.union(keys_opt_network_layer(network, prefix@ + "network."@));
    let leaf_path = concat(prefix, "deployer.");
    apply_opt_deployer_layer(&mut target.deployer, deployer, provenance, leaf_path.as_str(), stamp);
    proof {
        lemma_stamp_union(start, done, keys_opt_deployer_layer(deployer, prefix@ + "deployer."@), *stamp);
    }
    let ghost done = done.union(keys_opt_deployer_layer(deployer, prefix@ + "deployer."@));
    let leaf_path = concat(prefix, "secrets.");
    apply_opt_secrets_backend_ref_layer(&mut target.secrets, secrets, provenance, leaf_path.as_str(), stamp);
    proof {
        lemma_stamp_union(start, done, keys_opt_secrets_backend_ref_layer(secrets, prefix@ + "secrets."@), *stamp);
    }
    let ghost done = done.union(keys_opt_secrets_backend_ref_layer(secrets, prefix@ + "secrets."@));
    let leaf_path = concat(prefix, "packs.");
    apply_opt_packs_layer(&mut target.packs, packs, provenance, leaf_path.as_str(), stamp);
    proof {
        lemma_stamp_union(start, done, keys_opt_packs_layer(packs, prefix@ + "packs."@), *stamp);
    }
    let ghost done = done.union(keys_opt_packs_layer(packs, prefix@ + "packs."@));
    let leaf_path = concat(prefix, "dev.");
    apply_opt_dev_layer(&mut target.dev, dev, provenance, leaf_path.as_str(), stamp);
    proof {
        lemma_stamp_union(start, done, keys_opt_dev_layer(dev, prefix@ + "dev."@), *stamp);
    }
    let ghost done = done.union(keys_opt_dev_layer(dev, prefix@ + "dev."@));
}

} // verus!
