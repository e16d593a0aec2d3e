//! What each `GREENTIC_*` variable is named after: the one configuration leaf it sets.
use vstd::prelude::*;
use crate::env::{env_leaf_ok, env_target, with_env_leaf, EnvLeaf, EnvTarget, FloatReading, ServiceLeaf, ServiceSlot};
use crate::layers::{empty_config_layer, keys_config_layer};

verus! {

/// The character a leaf path contributes to a variable name: ASCII letters upper-cased, `.`
/// read as `_`.
pub open spec fn variable_char(c: char) -> char {
    if 'a' <= c && c <= 'z' {
        ((c as u32) - 32) as char
    } else if c == '.' {
        '_'
    } else {
        c
    }
}

/// The variable name for the leaf path `p`: `GREENTIC_` followed by the path upper-cased,
/// with `_` in place of `.`.
pub open spec fn variable_for_path(p: Seq<char>) -> Seq<char> {
    "GREENTIC_"@ + p.map_values(|c: char| variable_char(c))
}

/// Whether `key` is the variable name of the leaf at path `p`. Two sections are shortened in
/// names: a service's binding settings sit under its `service.` section, which the names leave
/// out, and `runtime.admin_endpoints` is named `RUNTIME_ADMIN`.
pub open spec fn names_leaf(key: Seq<char>, p: Seq<char>) -> bool {
    ||| key == variable_for_path(p)
    ||| exists|a: Seq<char>, b: Seq<char>| p == a + ".service."@ + b && key == variable_for_path(a + "."@ + b)
    ||| exists|a: Seq<char>, b: Seq<char>| p == a + "_endpoints."@ + b && key == variable_for_path(a + "."@ + b)
}

/// Whether the leaf value `v` is present (a variable whose value did not parse leaves its leaf
/// unset).
pub open spec fn leaf_present(v: EnvLeaf) -> bool {
    match v {
        EnvLeaf::Text(x) => x is Some,
        EnvLeaf::Version(x) => x is Some,
        EnvLeaf::Env(x) => x is Some,
        EnvLeaf::Deployment(x) => x is Some,
        EnvLeaf::Connection(x) => x is Some,
        EnvLeaf::Link(x) => x is Some,
        EnvLeaf::Number64(x) => x is Some,
        EnvLeaf::Number32(x) => x is Some,
        EnvLeaf::Number16(x) => x is Some,
        EnvLeaf::Flag(x) => x is Some,
        EnvLeaf::Ratio(x) => x is Some,
        EnvLeaf::Factor(x) => x is Some,
    }
}

proof fn lemma_names_schema_version(v: EnvLeaf)
    requires
        v is Version,
        leaf_present(v),
    ensures
        keys_config_layer(with_env_leaf(empty_config_layer(), EnvTarget::SchemaVersion, v), ""@) == set!["schema_version"@],
        names_leaf("GREENTIC_SCHEMA_VERSION"@, "schema_version"@),
{
    reveal_strlit("");
    reveal_strlit("GREENTIC_");
    reveal_strlit("GREENTIC_SCHEMA_VERSION");
    reveal_strlit("schema_version");
    assert(""@ + "schema_version"@ =~= "schema_version"@);
    assert(keys_config_layer(with_env_leaf(empty_config_layer(), EnvTarget::SchemaVersion, v), ""@) =~= set!["schema_version"@]);
    assert("GREENTIC_SCHEMA_VERSION"@ =~= variable_for_path("schema_version"@));
}

proof fn lemma_names_environment_env_id(v: EnvLeaf)
    requires
        v is Env,
        leaf_present(v),
    ensures
        keys_config_layer(with_env_leaf(empty_config_layer(), EnvTarget::EnvironmentEnvId, v), ""@) == set!["environment.env_id"@],
        names_leaf("GREENTIC_ENVIRONMENT_ENV_ID"@, "environment.env_id"@),
{
    reveal_strlit("");
    reveal_strlit("GREENTIC_");
    reveal_strlit("GREENTIC_ENVIRONMENT_ENV_ID");
    reveal_strlit("environment.env_id");
    reveal_strlit("environment.");
    reveal_strlit("env_id");
    assert(""@ + "environment."@ + "env_id"@ =~= "environment.env_id"@);
    assert(keys_config_layer(with_env_leaf(empty_config_layer(), EnvTarget::EnvironmentEnvId, v), ""@) =~= set!["environment.env_id"@]);
    assert("GREENTIC_ENVIRONMENT_ENV_ID"@ =~= variable_for_path("environment.env_id"@));
}

proof fn lemma_names_environment_deployment(v: EnvLeaf)
    requires
        v is Deployment,
        leaf_present(v),
    ensures
        keys_config_layer(with_env_leaf(empty_config_layer(), EnvTarget::EnvironmentDeployment, v), ""@) == set!["environment.deployment"@],
        names_leaf("GREENTIC_ENVIRONMENT_DEPLOYMENT"@, "environment.deployment"@),
{
    reveal_strlit("");
    reveal_strlit("GREENTIC_");
    reveal_strlit("GREENTIC_ENVIRONMENT_DEPLOYMENT");
    reveal_strlit("environment.deployment");
    reveal_strlit("environment.");
    reveal_strlit("deployment");
    assert(""@ + "environment."@ + "deployment"@ =~= "environment.deployment"@);
    assert(keys_config_layer(with_env_leaf(empty_config_layer(), EnvTarget::EnvironmentDeployment, v), ""@) =~= set!["environment.deployment"@]);
    assert("GREENTIC_ENVIRONMENT_DEPLOYMENT"@ =~= variable_for_path("environment.deployment"@));
}

proof fn lemma_names_environment_connection(v: EnvLeaf)
    requires
        v is Connection,
        leaf_present(v),
    ensures
        keys_config_layer(with_env_leaf(empty_config_layer(), EnvTarget::EnvironmentConnection, v), ""@) == set!["environment.connection"@],
        names_leaf("GREENTIC_ENVIRONMENT_CONNECTION"@, "environment.connection"@),
{
    reveal_strlit("");
    reveal_strlit("GREENTIC_");
    reveal_strlit("GREENTIC_ENVIRONMENT_CONNECTION");
    reveal_strlit("environment.connection");
    reveal_strlit("environment.");
    reveal_strlit("connection");
    assert(""@ + "environment."@ + "connection"@ =~= "environment.connection"@);
    assert(keys_config_layer(with_env_leaf(empty_config_layer(), EnvTarget::EnvironmentConnection, v), ""@) =~= set!["environment.connection"@]);
    assert("GREENTIC_ENVIRONMENT_CONNECTION"@ =~= variable_for_path("environment.connection"@));
}

proof fn lemma_names_environment_region(v: EnvLeaf)
    requires
        v is Text,
        leaf_present(v),
    ensures
        keys_config_layer(with_env_leaf(empty_config_layer(), EnvTarget::EnvironmentRegion, v), ""@) == set!["environment.region"@],
        names_leaf("GREENTIC_ENVIRONMENT_REGION"@, "environment.region"@),
{
    reveal_strlit("");
    reveal_strlit("GREENTIC_");
    reveal_strlit("GREENTIC_ENVIRONMENT_REGION");
    reveal_strlit("environment.region");
    reveal_strlit("environment.");
    reveal_strlit("region");
    assert(""@ + "environment."@ + "region"@ =~= "environment.region"@);
    assert(keys_config_layer(with_env_leaf(empty_config_layer(), EnvTarget::EnvironmentRegion, v), ""@) =~= set!["environment.region"@]);
    assert("GREENTIC_ENVIRONMENT_REGION"@ =~= variable_for_path("environment.region"@));
}

proof fn lemma_names_paths_greentic_root(v: EnvLeaf)
    requires
        v is Text,
        leaf_present(v),
    ensures
        keys_config_layer(with_env_leaf(empty_config_layer(), EnvTarget::PathsGreenticRoot, v), ""@) == set!["paths.greentic_root"@],
        names_leaf("GREENTIC_PATHS_GREENTIC_ROOT"@, "paths.greentic_root"@),
{
    reveal_strlit("");
    reveal_strlit("GREENTIC_");
    reveal_strlit("GREENTIC_PATHS_GREENTIC_ROOT");
    reveal_strlit("paths.greentic_root");
    reveal_strlit("paths.");
    reveal_strlit("greentic_root");
    assert(""@ + "paths."@ + "greentic_root"@ =~= "paths.greentic_root"@);
    assert(keys_config_layer(with_env_leaf(empty_config_layer(), EnvTarget::PathsGreenticRoot, v), ""@) =~= set!["paths.greentic_root"@]);
    assert("GREENTIC_PATHS_GREENTIC_ROOT"@ =~= variable_for_path("paths.greentic_root"@));
}

proof fn lemma_names_paths_state_dir(v: EnvLeaf)
    requires
        v is Text,
        leaf_present(v),
    ensures
        keys_config_layer(with_env_leaf(empty_config_layer(), EnvTarget::PathsStateDir, v), ""@) == set!["paths.state_dir"@],
        names_leaf("GREENTIC_PATHS_STATE_DIR"@, "paths.state_dir"@),
{
    reveal_strlit("");
    reveal_strlit("GREENTIC_");
    reveal_strlit("GREENTIC_PATHS_STATE_DIR");
    reveal_strlit("paths.state_dir");
    reveal_strlit("paths.");
    reveal_strlit("state_dir");
    assert(""@ + "paths."@ + "state_dir"@ =~= "paths.state_dir"@);
    assert(keys_config_layer(with_env_leaf(empty_config_layer(), EnvTarget::PathsStateDir, v), ""@) =~= set!["paths.state_dir"@]);
    assert("GREENTIC_PATHS_STATE_DIR"@ =~= variable_for_path("paths.state_dir"@));
}

proof fn lemma_names_paths_cache_dir(v: EnvLeaf)
    requires
        v is Text,
        leaf_present(v),
    ensures
        keys_config_layer(with_env_leaf(empty_config_layer(), EnvTarget::PathsCacheDir, v), ""@) == set!["paths.cache_dir"@],
        names_leaf("GREENTIC_PATHS_CACHE_DIR"@, "paths.cache_dir"@),
{
    reveal_strlit("");
    reveal_strlit("GREENTIC_");
    reveal_strlit("GREENTIC_PATHS_CACHE_DIR");
    reveal_strlit("paths.cache_dir");
    reveal_strlit("paths.");
    reveal_strlit("cache_dir");
    assert(""@ + "paths."@ + "cache_dir"@ =~= "paths.cache_dir"@);
    assert(keys_config_layer(with_env_leaf(empty_config_layer(), EnvTarget::PathsCacheDir, v), ""@) =~= set!["paths.cache_dir"@]);
    assert("GREENTIC_PATHS_CACHE_DIR"@ =~= variable_for_path("paths.cache_dir"@));
}

proof fn lemma_names_paths_logs_dir(v: EnvLeaf)
    requires
        v is Text,
        leaf_present(v),
    ensures
        keys_config_layer(with_env_leaf(empty_config_layer(), EnvTarget::PathsLogsDir, v), ""@) == set!["paths.logs_dir"@],
        names_leaf("GREENTIC_PATHS_LOGS_DIR"@, "paths.logs_dir"@),
{
    reveal_strlit("");
    reveal_strlit("GREENTIC_");
    reveal_strlit("GREENTIC_PATHS_LOGS_DIR");
    reveal_strlit("paths.logs_dir");
    reveal_strlit("paths.");
    reveal_strlit("logs_dir");
    assert(""@ + "paths."@ + "logs_dir"@ =~= "paths.logs_dir"@);
    assert(keys_config_layer(with_env_leaf(empty_config_layer(), EnvTarget::PathsLogsDir, v), ""@) =~= set!["paths.logs_dir"@]);
    assert("GREENTIC_PATHS_LOGS_DIR"@ =~= variable_for_path("paths.logs_dir"@));
}

proof fn lemma_names_services_events_url(v: EnvLeaf)
    requires
        v is Link,
        leaf_present(v),
    ensures
        keys_config_layer(with_env_leaf(empty_config_layer(), EnvTarget::ServicesEventsUrl, v), ""@) == set!["services.events.url"@],
        names_leaf("GREENTIC_SERVICES_EVENTS_URL"@, "services.events.url"@),
{
    reveal_strlit("");
    reveal_strlit("GREENTIC_");
    reveal_strlit("GREENTIC_SERVICES_EVENTS_URL");
    reveal_strlit("services.events.url");
    reveal_strlit("services.");
    reveal_strlit("events.");
    reveal_strlit("url");
    assert(""@ + "services."@ + "events."@ + "url"@ =~= "services.events.url"@);
    assert(keys_config_layer(with_env_leaf(empty_config_layer(), EnvTarget::ServicesEventsUrl, v), ""@) =~= set!["services.events.url"@]);
    assert("GREENTIC_SERVICES_EVENTS_URL"@ =~= variable_for_path("services.events.url"@));
}

proof fn lemma_names_service_runner_kind(v: EnvLeaf)
    requires
        v is Text,
        leaf_present(v),
    ensures
        keys_config_layer(with_env_leaf(empty_config_layer(), EnvTarget::Service(ServiceSlot::Runner, ServiceLeaf::Kind), v), ""@) == set!["services.runner.kind"@],
        names_leaf("GREENTIC_SERVICES_RUNNER_KIND"@, "services.runner.kind"@),
{
    reveal_strlit("");
    reveal_strlit("GREENTIC_");
    reveal_strlit("GREENTIC_SERVICES_RUNNER_KIND");
    reveal_strlit("services.runner.kind");
    reveal_strlit("services.");
    reveal_strlit("runner.");
    reveal_strlit("kind");
    assert(""@ + "services."@ + "runner."@ + "kind"@ =~= "services.runner.kind"@);
    assert(keys_config_layer(with_env_leaf(empty_config_layer(), EnvTarget::Service(ServiceSlot::Runner, ServiceLeaf::Kind), v), ""@) =~= set!["services.runner.kind"@]);
    assert("GREENTIC_SERVICES_RUNNER_KIND"@ =~= variable_for_path("services.runner.kind"@));
}

proof fn lemma_names_service_runner_url(v: EnvLeaf)
    requires
        v is Link,
        leaf_present(v),
    ensures
        keys_config_layer(with_env_leaf(empty_config_layer(), EnvTarget::Service(ServiceSlot::Runner, ServiceLeaf::Url), v), ""@) == set!["services.runner.url"@],
        names_leaf("GREENTIC_SERVICES_RUNNER_URL"@, "services.runner.url"@),
{
    reveal_strlit("");
    reveal_strlit("GREENTIC_");
    reveal_strlit("GREENTIC_SERVICES_RUNNER_URL");
    reveal_strlit("services.runner.url");
    reveal_strlit("services.");
    reveal_strlit("runner.");
    reveal_strlit("url");
    assert(""@ + "services."@ + "runner."@ + "url"@ =~= "services.runner.url"@);
    assert(keys_config_layer(with_env_leaf(empty_config_layer(), EnvTarget::Service(ServiceSlot::Runner, ServiceLeaf::Url), v), ""@) =~= set!["services.runner.url"@]);
    assert("GREENTIC_SERVICES_RUNNER_URL"@ =~= variable_for_path("services.runner.url"@));
}

proof fn lemma_names_service_runner_bind_addr(v: EnvLeaf)
    requires
        v is Text,
        leaf_present(v),
    ensures
        keys_config_layer(with_env_leaf(empty_config_layer(), EnvTarget::Service(ServiceSlot::Runner, ServiceLeaf::BindAddr), v), ""@) == set!["services.runner.service.bind_addr"@],
        names_leaf("GREENTIC_SERVICES_RUNNER_BIND_ADDR"@, "services.runner.service.bind_addr"@),
{
    reveal_strlit("");
    reveal_strlit("GREENTIC_");
    reveal_strlit("GREENTIC_SERVICES_RUNNER_BIND_ADDR");
    reveal_strlit("services.runner.service.bind_addr");
    reveal_strlit("services.");
    reveal_strlit("runner.");
    reveal_strlit("service.");
    reveal_strlit("bind_addr");
    reveal_strlit("services.runner");
    reveal_strlit(".service.");
    reveal_strlit(".");
    assert(""@ + "services."@ + "runner."@ + "service."@ + "bind_addr"@ =~= "services.runner.service.bind_addr"@);
    assert(keys_config_layer(with_env_leaf(empty_config_layer(), EnvTarget::Service(ServiceSlot::Runner, ServiceLeaf::BindAddr), v), ""@) =~= set!["services.runner.service.bind_addr"@]);
    assert("services.runner.service.bind_addr"@ =~= "services.runner"@ + ".service."@ + "bind_addr"@);
    assert("GREENTIC_SERVICES_RUNNER_BIND_ADDR"@ =~= variable_for_path("services.runner"@ + "."@ + "bind_addr"@));
}

proof fn lemma_names_service_runner_port(v: EnvLeaf)
    requires
        v is Number16,
        leaf_present(v),
    ensures
        keys_config_layer(with_env_leaf(empty_config_layer(), EnvTarget::Service(ServiceSlot::Runner, ServiceLeaf::Port), v), ""@) == set!["services.runner.service.port"@],
        names_leaf("GREENTIC_SERVICES_RUNNER_PORT"@, "services.runner.service.port"@),
{
    reveal_strlit("");
    reveal_strlit("GREENTIC_");
    reveal_strlit("GREENTIC_SERVICES_RUNNER_PORT");
    reveal_strlit("services.runner.service.port");
    reveal_strlit("services.");
    reveal_strlit("runner.");
    reveal_strlit("service.");
    reveal_strlit("port");
    reveal_strlit("services.runner");
    reveal_strlit(".service.");
    reveal_strlit(".");
    assert(""@ + "services."@ + "runner."@ + "service."@ + "port"@ =~= "services.runner.service.port"@);
    assert(keys_config_layer(with_env_leaf(empty_config_layer(), EnvTarget::Service(ServiceSlot::Runner, ServiceLeaf::Port), v), ""@) =~= set!["services.runner.service.port"@]);
    assert("services.runner.service.port"@ =~= "services.runner"@ + ".service."@ + "port"@);
    assert("GREENTIC_SERVICES_RUNNER_PORT"@ =~= variable_for_path("services.runner"@ + "."@ + "port"@));
}

proof fn lemma_names_service_runner_public_base_url(v: EnvLeaf)
    requires
        v is Text,
        leaf_present(v),
    ensures
        keys_config_layer(with_env_leaf(empty_config_layer(), EnvTarget::Service(ServiceSlot::Runner, ServiceLeaf::PublicBaseUrl), v), ""@) == set!["services.runner.service.public_base_url"@],
        names_leaf("GREENTIC_SERVICES_RUNNER_PUBLIC_BASE_URL"@, "services.runner.service.public_base_url"@),
{
    reveal_strlit("");
    reveal_strlit("GREENTIC_");
    reveal_strlit("GREENTIC_SERVICES_RUNNER_PUBLIC_BASE_URL");
    reveal_strlit("services.runner.service.public_base_url");
    reveal_strlit("services.");
    reveal_strlit("runner.");
    reveal_strlit("service.");
    reveal_strlit("public_base_url");
    reveal_strlit("services.runner");
    reveal_strlit(".service.");
    reveal_strlit(".");
    assert(""@ + "services."@ + "runner."@ + "service."@ + "public_base_url"@ =~= "services.runner.service.public_base_url"@);
    assert(keys_config_layer(with_env_leaf(empty_config_layer(), EnvTarget::Service(ServiceSlot::Runner, ServiceLeaf::PublicBaseUrl), v), ""@) =~= set!["services.runner.service.public_base_url"@]);
    assert("services.runner.service.public_base_url"@ =~= "services.runner"@ + ".service."@ + "public_base_url"@);
    assert("GREENTIC_SERVICES_RUNNER_PUBLIC_BASE_URL"@ =~= variable_for_path("services.runner"@ + "."@ + "public_base_url"@));
}

proof fn lemma_names_service_runner_metrics_enabled(v: EnvLeaf)
    requires
        v is Flag,
        leaf_present(v),
    ensures
        keys_config_layer(with_env_leaf(empty_config_layer(), EnvTarget::Service(ServiceSlot::Runner, ServiceLeaf::MetricsEnabled), v), ""@) == set!["services.runner.service.metrics.enabled"@],
        names_leaf("GREENTIC_SERVICES_RUNNER_METRICS_ENABLED"@, "services.runner.service.metrics.enabled"@),
{
    reveal_strlit("");
    reveal_strlit("GREENTIC_");
    reveal_strlit("GREENTIC_SERVICES_RUNNER_METRICS_ENABLED");
    reveal_strlit("services.runner.service.metrics.enabled");
    reveal_strlit("services.");
    reveal_strlit("runner.");
    reveal_strlit("service.");
    reveal_strlit("metrics.");
    reveal_strlit("enabled");
    reveal_strlit("services.runner");
    reveal_strlit("metrics.enabled");
    reveal_strlit(".service.");
    reveal_strlit(".");
    assert(""@ + "services."@ + "runner."@ + "service."@ + "metrics."@ + "enabled"@ =~= "services.runner.service.metrics.enabled"@);
    assert(keys_config_layer(with_env_leaf(empty_config_layer(), EnvTarget::Service(ServiceSlot::Runner, ServiceLeaf::MetricsEnabled), v), ""@) =~= set!["services.runner.service.metrics.enabled"@]);
    assert("services.runner.service.metrics.enabled"@ =~= "services.runner"@ + ".service."@ + "metrics.enabled"@);
    assert("GREENTIC_SERVICES_RUNNER_METRICS_ENABLED"@ =~= variable_for_path("services.runner"@ + "."@ + "metrics.enabled"@));
}

proof fn lemma_names_service_runner_metrics_bind_addr(v: EnvLeaf)
    requires
        v is Text,
        leaf_present(v),
    ensures
        keys_config_layer(with_env_leaf(empty_config_layer(), EnvTarget::Service(ServiceSlot::Runner, ServiceLeaf::MetricsBindAddr), v), ""@) == set!["services.runner.service.metrics.bind_addr"@],
        names_leaf("GREENTIC_SERVICES_RUNNER_METRICS_BIND_ADDR"@, "services.runner.service.metrics.bind_addr"@),
{
    reveal_strlit("");
    reveal_strlit("GREENTIC_");
    reveal_strlit("GREENTIC_SERVICES_RUNNER_METRICS_BIND_ADDR");
    reveal_strlit("services.runner.service.metrics.bind_addr");
    reveal_strlit("services.");
    reveal_strlit("runner.");
    reveal_strlit("service.");
    reveal_strlit("metrics.");
    reveal_strlit("bind_addr");
    reveal_strlit("services.runner");
    reveal_strlit("metrics.bind_addr");
    reveal_strlit(".service.");
    reveal_strlit(".");
    assert(""@ + "services."@ + "runner."@ + "service."@ + "metrics."@ + "bind_addr"@ =~= "services.runner.service.metrics.bind_addr"@);
    assert(keys_config_layer(with_env_leaf(empty_config_layer(), EnvTarget::Service(ServiceSlot::Runner, ServiceLeaf::MetricsBindAddr), v), ""@) =~= set!["services.runner.service.metrics.bind_addr"@]);
    assert("services.runner.service.metrics.bind_addr"@ =~= "services.runner"@ + ".service."@ + "metrics.bind_addr"@);
    assert("GREENTIC_SERVICES_RUNNER_METRICS_BIND_ADDR"@ =~= variable_for_path("services.runner"@ + "."@ + "metrics.bind_addr"@));
}

proof fn lemma_names_service_runner_metrics_port(v: EnvLeaf)
    requires
        v is Number16,
        leaf_present(v),
    ensures
        keys_config_layer(with_env_leaf(empty_config_layer(), EnvTarget::Service(ServiceSlot::Runner, ServiceLeaf::MetricsPort), v), ""@) == set!["services.runner.service.metrics.port"@],
        names_leaf("GREENTIC_SERVICES_RUNNER_METRICS_PORT"@, "services.runner.service.metrics.port"@),
{
    reveal_strlit("");
    reveal_strlit("GREENTIC_");
    reveal_strlit("GREENTIC_SERVICES_RUNNER_METRICS_PORT");
    reveal_strlit("services.runner.service.metrics.port");
    reveal_strlit("services.");
    reveal_strlit("runner.");
    reveal_strlit("service.");
    reveal_strlit("metrics.");
    reveal_strlit("port");
    reveal_strlit("services.runner");
    reveal_strlit("metrics.port");
    reveal_strlit(".service.");
    reveal_strlit(".");
    assert(""@ + "services."@ + "runner."@ + "service."@ + "metrics."@ + "port"@ =~= "services.runner.service.metrics.port"@);
    assert(keys_config_layer(with_env_leaf(empty_config_layer(), EnvTarget::Service(ServiceSlot::Runner, ServiceLeaf::MetricsPort), v), ""@) =~= set!["services.runner.service.metrics.port"@]);
    assert("services.runner.service.metrics.port"@ =~= "services.runner"@ + ".service."@ + "metrics.port"@);
    assert("GREENTIC_SERVICES_RUNNER_METRICS_PORT"@ =~= variable_for_path("services.runner"@ + "."@ + "metrics.port"@));
}

proof fn lemma_names_service_runner_metrics_path(v: EnvLeaf)
    requires
        v is Text,
        leaf_present(v),
    ensures
        keys_config_layer(with_env_leaf(empty_config_layer(), EnvTarget::Service(ServiceSlot::Runner, ServiceLeaf::MetricsPath), v), ""@) == set!["services.runner.service.metrics.path"@],
        names_leaf("GREENTIC_SERVICES_RUNNER_METRICS_PATH"@, "services.runner.service.metrics.path"@),
{
    reveal_strlit("");
    reveal_strlit("GREENTIC_");
    reveal_strlit("GREENTIC_SERVICES_RUNNER_METRICS_PATH");
    reveal_strlit("services.runner.service.metrics.path");
    reveal_strlit("services.");
    reveal_strlit("runner.");
    reveal_strlit("service.");
    reveal_strlit("metrics.");
    reveal_strlit("path");
    reveal_strlit("services.runner");
    reveal_strlit("metrics.path");
    reveal_strlit(".service.");
    reveal_strlit(".");
    assert(""@ + "services."@ + "runner."@ + "service."@ + "metrics."@ + "path"@ =~= "services.runner.service.metrics.path"@);
    assert(keys_config_layer(with_env_leaf(empty_config_layer(), EnvTarget::Service(ServiceSlot::Runner, ServiceLeaf::MetricsPath), v), ""@) =~= set!["services.runner.service.metrics.path"@]);
    assert("services.runner.service.metrics.path"@ =~= "services.runner"@ + ".service."@ + "metrics.path"@);
    assert("GREENTIC_SERVICES_RUNNER_METRICS_PATH"@ =~= variable_for_path("services.runner"@ + "."@ + "metrics.path"@));
}

proof fn lemma_names_service_deployer_kind(v: EnvLeaf)
    requires
        v is Text,
        leaf_present(v),
    ensures
        keys_config_layer(with_env_leaf(empty_config_layer(), EnvTarget::Service(ServiceSlot::Deployer, ServiceLeaf::Kind), v), ""@) == set!["services.deployer.kind"@],
        names_leaf("GREENTIC_SERVICES_DEPLOYER_KIND"@, "services.deployer.kind"@),
{
    reveal_strlit("");
    reveal_strlit("GREENTIC_");
    reveal_strlit("GREENTIC_SERVICES_DEPLOYER_KIND");
    reveal_strlit("services.deployer.kind");
    reveal_strlit("services.");
    reveal_strlit("deployer.");
    reveal_strlit("kind");
    assert(""@ + "services."@ + "deployer."@ + "kind"@ =~= "services.deployer.kind"@);
    assert(keys_config_layer(with_env_leaf(empty_config_layer(), EnvTarget::Service(ServiceSlot::Deployer, ServiceLeaf::Kind), v), ""@) =~= set!["services.deployer.kind"@]);
    assert("GREENTIC_SERVICES_DEPLOYER_KIND"@ =~= variable_for_path("services.deployer.kind"@));
}

proof fn lemma_names_service_deployer_url(v: EnvLeaf)
    requires
        v is Link,
        leaf_present(v),
    ensures
        keys_config_layer(with_env_leaf(empty_config_layer(), EnvTarget::Service(ServiceSlot::Deployer, ServiceLeaf::Url), v), ""@) == set!["services.deployer.url"@],
        names_leaf("GREENTIC_SERVICES_DEPLOYER_URL"@, "services.deployer.url"@),
{
    reveal_strlit("");
    reveal_strlit("GREENTIC_");
    reveal_strlit("GREENTIC_SERVICES_DEPLOYER_URL");
    reveal_strlit("services.deployer.url");
    reveal_strlit("services.");
    reveal_strlit("deployer.");
    reveal_strlit("url");
    assert(""@ + "services."@ + "deployer."@ + "url"@ =~= "services.deployer.url"@);
    assert(keys_config_layer(with_env_leaf(empty_config_layer(), EnvTarget::Service(ServiceSlot::Deployer, ServiceLeaf::Url), v), ""@) =~= set!["services.deployer.url"@]);
    assert("GREENTIC_SERVICES_DEPLOYER_URL"@ =~= variable_for_path("services.deployer.url"@));
}

proof fn lemma_names_service_deployer_bind_addr(v: EnvLeaf)
    requires
        v is Text,
        leaf_present(v),
    ensures
        keys_config_layer(with_env_leaf(empty_config_layer(), EnvTarget::Service(ServiceSlot::Deployer, ServiceLeaf::BindAddr), v), ""@) == set!["services.deployer.service.bind_addr"@],
        names_leaf("GREENTIC_SERVICES_DEPLOYER_BIND_ADDR"@, "services.deployer.service.bind_addr"@),
{
    reveal_strlit("");
    reveal_strlit("GREENTIC_");
    reveal_strlit("GREENTIC_SERVICES_DEPLOYER_BIND_ADDR");
    reveal_strlit("services.deployer.service.bind_addr");
    reveal_strlit("services.");
    reveal_strlit("deployer.");
    reveal_strlit("service.");
    reveal_strlit("bind_addr");
    reveal_strlit("services.deployer");
    reveal_strlit(".service.");
    reveal_strlit(".");
    assert(""@ + "services."@ + "deployer."@ + "service."@ + "bind_addr"@ =~= "services.deployer.service.bind_addr"@);
    assert(keys_config_layer(with_env_leaf(empty_config_layer(), EnvTarget::Service(ServiceSlot::Deployer, ServiceLeaf::BindAddr), v), ""@) =~= set!["services.deployer.service.bind_addr"@]);
    assert("services.deployer.service.bind_addr"@ =~= "services.deployer"@ + ".service."@ + "bind_addr"@);
    assert("GREENTIC_SERVICES_DEPLOYER_BIND_ADDR"@ =~= variable_for_path("services.deployer"@ + "."@ + "bind_addr"@));
}

proof fn lemma_names_service_deployer_port(v: EnvLeaf)
    requires
        v is Number16,
        leaf_present(v),
    ensures
        keys_config_layer(with_env_leaf(empty_config_layer(), EnvTarget::Service(ServiceSlot::Deployer, ServiceLeaf::Port), v), ""@) == set!["services.deployer.service.port"@],
        names_leaf("GREENTIC_SERVICES_DEPLOYER_PORT"@, "services.deployer.service.port"@),
{
    reveal_strlit("");
    reveal_strlit("GREENTIC_");
    reveal_strlit("GREENTIC_SERVICES_DEPLOYER_PORT");
    reveal_strlit("services.deployer.service.port");
    reveal_strlit("services.");
    reveal_strlit("deployer.");
    reveal_strlit("service.");
    reveal_strlit("port");
    reveal_strlit("services.deployer");
    reveal_strlit(".service.");
    reveal_strlit(".");
    assert(""@ + "services."@ + "deployer."@ + "service."@ + "port"@ =~= "services.deployer.service.port"@);
    assert(keys_config_layer(with_env_leaf(empty_config_layer(), EnvTarget::Service(ServiceSlot::Deployer, ServiceLeaf::Port), v), ""@) =~= set!["services.deployer.service.port"@]);
    assert("services.deployer.service.port"@ =~= "services.deployer"@ + ".service."@ + "port"@);
    assert("GREENTIC_SERVICES_DEPLOYER_PORT"@ =~= variable_for_path("services.deployer"@ + "."@ + "port"@));
}

proof fn lemma_names_service_deployer_public_base_url(v: EnvLeaf)
    requires
        v is Text,
        leaf_present(v),
    ensures
        keys_config_layer(with_env_leaf(empty_config_layer(), EnvTarget::Service(ServiceSlot::Deployer, ServiceLeaf::PublicBaseUrl), v), ""@) == set!["services.deployer.service.public_base_url"@],
        names_leaf("GREENTIC_SERVICES_DEPLOYER_PUBLIC_BASE_URL"@, "services.deployer.service.public_base_url"@),
{
    reveal_strlit("");
    reveal_strlit("GREENTIC_");
    reveal_strlit("GREENTIC_SERVICES_DEPLOYER_PUBLIC_BASE_URL");
    reveal_strlit("services.deployer.service.public_base_url");
    reveal_strlit("services.");
    reveal_strlit("deployer.");
    reveal_strlit("service.");
    reveal_strlit("public_base_url");
    reveal_strlit("services.deployer");
    reveal_strlit(".service.");
    reveal_strlit(".");
    assert(""@ + "services."@ + "deployer."@ + "service."@ + "public_base_url"@ =~= "services.deployer.service.public_base_url"@);
    assert(keys_config_layer(with_env_leaf(empty_config_layer(), EnvTarget::Service(ServiceSlot::Deployer, ServiceLeaf::PublicBaseUrl), v), ""@) =~= set!["services.deployer.service.public_base_url"@]);
    assert("services.deployer.service.public_base_url"@ =~= "services.deployer"@ + ".service."@ + "public_base_url"@);
    assert("GREENTIC_SERVICES_DEPLOYER_PUBLIC_BASE_URL"@ =~= variable_for_path("services.deployer"@ + "."@ + "public_base_url"@));
}

proof fn lemma_names_service_deployer_metrics_enabled(v: EnvLeaf)
    requires
        v is Flag,
        leaf_present(v),
    ensures
        keys_config_layer(with_env_leaf(empty_config_layer(), EnvTarget::Service(ServiceSlot::Deployer, ServiceLeaf::MetricsEnabled), v), ""@) == set!["services.deployer.service.metrics.enabled"@],
        names_leaf("GREENTIC_SERVICES_DEPLOYER_METRICS_ENABLED"@, "services.deployer.service.metrics.enabled"@),
{
    reveal_strlit("");
    reveal_strlit("GREENTIC_");
    reveal_strlit("GREENTIC_SERVICES_DEPLOYER_METRICS_ENABLED");
    reveal_strlit("services.deployer.service.metrics.enabled");
    reveal_strlit("services.");
    reveal_strlit("deployer.");
    reveal_strlit("service.");
    reveal_strlit("metrics.");
    reveal_strlit("enabled");
    reveal_strlit("services.deployer");
    reveal_strlit("metrics.enabled");
    reveal_strlit(".service.");
    reveal_strlit(".");
    assert(""@ + "services."@ + "deployer."@ + "service."@ + "metrics."@ + "enabled"@ =~= "services.deployer.service.metrics.enabled"@);
    assert(keys_config_layer(with_env_leaf(empty_config_layer(), EnvTarget::Service(ServiceSlot::Deployer, ServiceLeaf::MetricsEnabled), v), ""@) =~= set!["services.deployer.service.metrics.enabled"@]);
    assert("services.deployer.service.metrics.enabled"@ =~= "services.deployer"@ + ".service."@ + "metrics.enabled"@);
    assert("GREENTIC_SERVICES_DEPLOYER_METRICS_ENABLED"@ =~= variable_for_path("services.deployer"@ + "."@ + "metrics.enabled"@));
}

proof fn lemma_names_service_deployer_metrics_bind_addr(v: EnvLeaf)
    requires
        v is Text,
        leaf_present(v),
    ensures
        keys_config_layer(with_env_leaf(empty_config_layer(), EnvTarget::Service(ServiceSlot::Deployer, ServiceLeaf::MetricsBindAddr), v), ""@) == set!["services.deployer.service.metrics.bind_addr"@],
        names_leaf("GREENTIC_SERVICES_DEPLOYER_METRICS_BIND_ADDR"@, "services.deployer.service.metrics.bind_addr"@),
{
    reveal_strlit("");
    reveal_strlit("GREENTIC_");
    reveal_strlit("GREENTIC_SERVICES_DEPLOYER_METRICS_BIND_ADDR");
    reveal_strlit("services.deployer.service.metrics.bind_addr");
    reveal_strlit("services.");
    reveal_strlit("deployer.");
    reveal_strlit("service.");
    reveal_strlit("metrics.");
    reveal_strlit("bind_addr");
    reveal_strlit("services.deployer");
    reveal_strlit("metrics.bind_addr");
    reveal_strlit(".service.");
    reveal_strlit(".");
    assert(""@ + "services."@ + "deployer."@ + "service."@ + "metrics."@ + "bind_addr"@ =~= "services.deployer.service.metrics.bind_addr"@);
    assert(keys_config_layer(with_env_leaf(empty_config_layer(), EnvTarget::Service(ServiceSlot::Deployer, ServiceLeaf::MetricsBindAddr), v), ""@) =~= set!["services.deployer.service.metrics.bind_addr"@]);
    assert("services.deployer.service.metrics.bind_addr"@ =~= "services.deployer"@ + ".service."@ + "metrics.bind_addr"@);
    assert("GREENTIC_SERVICES_DEPLOYER_METRICS_BIND_ADDR"@ =~= variable_for_path("services.deployer"@ + "."@ + "metrics.bind_addr"@));
}

proof fn lemma_names_service_deployer_metrics_port(v: EnvLeaf)
    requires
        v is Number16,
        leaf_present(v),
    ensures
        keys_config_layer(with_env_leaf(empty_config_layer(), EnvTarget::Service(ServiceSlot::Deployer, ServiceLeaf::MetricsPort), v), ""@) == set!["services.deployer.service.metrics.port"@],
        names_leaf("GREENTIC_SERVICES_DEPLOYER_METRICS_PORT"@, "services.deployer.service.metrics.port"@),
{
    reveal_strlit("");
    reveal_strlit("GREENTIC_");
    reveal_strlit("GREENTIC_SERVICES_DEPLOYER_METRICS_PORT");
    reveal_strlit("services.deployer.service.metrics.port");
    reveal_strlit("services.");
    reveal_strlit("deployer.");
    reveal_strlit("service.");
    reveal_strlit("metrics.");
    reveal_strlit("port");
    reveal_strlit("services.deployer");
    reveal_strlit("metrics.port");
    reveal_strlit(".service.");
    reveal_strlit(".");
    assert(""@ + "services."@ + "deployer."@ + "service."@ + "metrics."@ + "port"@ =~= "services.deployer.service.metrics.port"@);
    assert(keys_config_layer(with_env_leaf(empty_config_layer(), EnvTarget::Service(ServiceSlot::Deployer, ServiceLeaf::MetricsPort), v), ""@) =~= set!["services.deployer.service.metrics.port"@]);
    assert("services.deployer.service.metrics.port"@ =~= "services.deployer"@ + ".service."@ + "metrics.port"@);
    assert("GREENTIC_SERVICES_DEPLOYER_METRICS_PORT"@ =~= variable_for_path("services.deployer"@ + "."@ + "metrics.port"@));
}

proof fn lemma_names_service_deployer_metrics_path(v: EnvLeaf)
    requires
        v is Text,
        leaf_present(v),
    ensures
        keys_config_layer(with_env_leaf(empty_config_layer(), EnvTarget::Service(ServiceSlot::Deployer, ServiceLeaf::MetricsPath), v), ""@) == set!["services.deployer.service.metrics.path"@],
        names_leaf("GREENTIC_SERVICES_DEPLOYER_METRICS_PATH"@, "services.deployer.service.metrics.path"@),
{
    reveal_strlit("");
    reveal_strlit("GREENTIC_");
    reveal_strlit("GREENTIC_SERVICES_DEPLOYER_METRICS_PATH");
    reveal_strlit("services.deployer.service.metrics.path");
    reveal_strlit("services.");
    reveal_strlit("deployer.");
    reveal_strlit("service.");
    reveal_strlit("metrics.");
    reveal_strlit("path");
    reveal_strlit("services.deployer");
    reveal_strlit("metrics.path");
    reveal_strlit(".service.");
    reveal_strlit(".");
    assert(""@ + "services."@ + "deployer."@ + "service."@ + "metrics."@ + "path"@ =~= "services.deployer.service.metrics.path"@);
    assert(keys_config_layer(with_env_leaf(empty_config_layer(), EnvTarget::Service(ServiceSlot::Deployer, ServiceLeaf::MetricsPath), v), ""@) =~= set!["services.deployer.service.metrics.path"@]);
    assert("services.deployer.service.metrics.path"@ =~= "services.deployer"@ + ".service."@ + "metrics.path"@);
    assert("GREENTIC_SERVICES_DEPLOYER_METRICS_PATH"@ =~= variable_for_path("services.deployer"@ + "."@ + "metrics.path"@));
}

proof fn lemma_names_service_events_transport_kind(v: EnvLeaf)
    requires
        v is Text,
        leaf_present(v),
    ensures
        keys_config_layer(with_env_leaf(empty_config_layer(), EnvTarget::Service(ServiceSlot::EventsTransport, ServiceLeaf::Kind), v), ""@) == set!["services.events_transport.kind"@],
        names_leaf("GREENTIC_SERVICES_EVENTS_TRANSPORT_KIND"@, "services.events_transport.kind"@),
{
    reveal_strlit("");
    reveal_strlit("GREENTIC_");
    reveal_strlit("GREENTIC_SERVICES_EVENTS_TRANSPORT_KIND");
    reveal_strlit("services.events_transport.kind");
    reveal_strlit("services.");
    reveal_strlit("events_transport.");
    reveal_strlit("kind");
    assert(""@ + "services."@ + "events_transport."@ + "kind"@ =~= "services.events_transport.kind"@);
    assert(keys_config_layer(with_env_leaf(empty_config_layer(), EnvTarget::Service(ServiceSlot::EventsTransport, ServiceLeaf::Kind), v), ""@) =~= set!["services.events_transport.kind"@]);
    assert("GREENTIC_SERVICES_EVENTS_TRANSPORT_KIND"@ =~= variable_for_path("services.events_transport.kind"@));
}

proof fn lemma_names_service_events_transport_url(v: EnvLeaf)
    requires
        v is Link,
        leaf_present(v),
    ensures
        keys_config_layer(with_env_leaf(empty_config_layer(), EnvTarget::Service(ServiceSlot::EventsTransport, ServiceLeaf::Url), v), ""@) == set!["services.events_transport.url"@],
        names_leaf("GREENTIC_SERVICES_EVENTS_TRANSPORT_URL"@, "services.events_transport.url"@),
{
    reveal_strlit("");
    reveal_strlit("GREENTIC_");
    reveal_strlit("GREENTIC_SERVICES_EVENTS_TRANSPORT_URL");
    reveal_strlit("services.events_transport.url");
    reveal_strlit("services.");
    reveal_strlit("events_transport.");
    reveal_strlit("url");
    assert(""@ + "services."@ + "events_transport."@ + "url"@ =~= "services.events_transport.url"@);
    assert(keys_config_layer(with_env_leaf(empty_config_layer(), EnvTarget::Service(ServiceSlot::EventsTransport, ServiceLeaf::Url), v), ""@) =~= set!["services.events_transport.url"@]);
    assert("GREENTIC_SERVICES_EVENTS_TRANSPORT_URL"@ =~= variable_for_path("services.events_transport.url"@));
}

proof fn lemma_names_service_events_transport_bind_addr(v: EnvLeaf)
    requires
        v is Text,
        leaf_present(v),
    ensures
        keys_config_layer(with_env_leaf(empty_config_layer(), EnvTarget::Service(ServiceSlot::EventsTransport, ServiceLeaf::BindAddr), v), ""@) == set!["services.events_transport.service.bind_addr"@],
        names_leaf("GREENTIC_SERVICES_EVENTS_TRANSPORT_BIND_ADDR"@, "services.events_transport.service.bind_addr"@),
{
    reveal_strlit("");
    reveal_strlit("GREENTIC_");
    reveal_strlit("GREENTIC_SERVICES_EVENTS_TRANSPORT_BIND_ADDR");
    reveal_strlit("services.events_transport.service.bind_addr");
    reveal_strlit("services.");
    reveal_strlit("events_transport.");
    reveal_strlit("service.");
    reveal_strlit("bind_addr");
    reveal_strlit("services.events_transport");
    reveal_strlit(".service.");
    reveal_strlit(".");
    assert(""@ + "services."@ + "events_transport."@ + "service."@ + "bind_addr"@ =~= "services.events_transport.service.bind_addr"@);
    assert(keys_config_layer(with_env_leaf(empty_config_layer(), EnvTarget::Service(ServiceSlot::EventsTransport, ServiceLeaf::BindAddr), v), ""@) =~= set!["services.events_transport.service.bind_addr"@]);
    assert("services.events_transport.service.bind_addr"@ =~= "services.events_transport"@ + ".service."@ + "bind_addr"@);
    assert("GREENTIC_SERVICES_EVENTS_TRANSPORT_BIND_ADDR"@ =~= variable_for_path("services.events_transport"@ + "."@ + "bind_addr"@));
}

proof fn lemma_names_service_events_transport_port(v: EnvLeaf)
    requires
        v is Number16,
        leaf_present(v),
    ensures
        keys_config_layer(with_env_leaf(empty_config_layer(), EnvTarget::Service(ServiceSlot::EventsTransport, ServiceLeaf::Port), v), ""@) == set!["services.events_transport.service.port"@],
        names_leaf("GREENTIC_SERVICES_EVENTS_TRANSPORT_PORT"@, "services.events_transport.service.port"@),
{
    reveal_strlit("");
    reveal_strlit("GREENTIC_");
    reveal_strlit("GREENTIC_SERVICES_EVENTS_TRANSPORT_PORT");
    reveal_strlit("services.events_transport.service.port");
    reveal_strlit("services.");
    reveal_strlit("events_transport.");
    reveal_strlit("service.");
    reveal_strlit("port");
    reveal_strlit("services.events_transport");
    reveal_strlit(".service.");
    reveal_strlit(".");
    assert(""@ + "services."@ + "events_transport."@ + "service."@ + "port"@ =~= "services.events_transport.service.port"@);
    assert(keys_config_layer(with_env_leaf(empty_config_layer(), EnvTarget::Service(ServiceSlot::EventsTransport, ServiceLeaf::Port), v), ""@) =~= set!["services.events_transport.service.port"@]);
    assert("services.events_transport.service.port"@ =~= "services.events_transport"@ + ".service."@ + "port"@);
    assert("GREENTIC_SERVICES_EVENTS_TRANSPORT_PORT"@ =~= variable_for_path("services.events_transport"@ + "."@ + "port"@));
}

proof fn lemma_names_service_events_transport_public_base_url(v: EnvLeaf)
    requires
        v is Text,
        leaf_present(v),
    ensures
        keys_config_layer(with_env_leaf(empty_config_layer(), EnvTarget::Service(ServiceSlot::EventsTransport, ServiceLeaf::PublicBaseUrl), v), ""@) == set!["services.events_transport.service.public_base_url"@],
        names_leaf("GREENTIC_SERVICES_EVENTS_TRANSPORT_PUBLIC_BASE_URL"@, "services.events_transport.service.public_base_url"@),
{
    reveal_strlit("");
    reveal_strlit("GREENTIC_");
    reveal_strlit("GREENTIC_SERVICES_EVENTS_TRANSPORT_PUBLIC_BASE_URL");
    reveal_strlit("services.events_transport.service.public_base_url");
    reveal_strlit("services.");
    reveal_strlit("events_transport.");
    reveal_strlit("service.");
    reveal_strlit("public_base_url");
    reveal_strlit("services.events_transport");
    reveal_strlit(".service.");
    reveal_strlit(".");
    assert(""@ + "services."@ + "events_transport."@ + "service."@ + "public_base_url"@ =~= "services.events_transport.service.public_base_url"@);
    assert(keys_config_layer(with_env_leaf(empty_config_layer(), EnvTarget::Service(ServiceSlot::EventsTransport, ServiceLeaf::PublicBaseUrl), v), ""@) =~= set!["services.events_transport.service.public_base_url"@]);
    assert("services.events_transport.service.public_base_url"@ =~= "services.events_transport"@ + ".service."@ + "public_base_url"@);
    assert("GREENTIC_SERVICES_EVENTS_TRANSPORT_PUBLIC_BASE_URL"@ =~= variable_for_path("services.events_transport"@ + "."@ + "public_base_url"@));
}

proof fn lemma_names_service_events_transport_metrics_enabled(v: EnvLeaf)
    requires
        v is Flag,
        leaf_present(v),
    ensures
        keys_config_layer(with_env_leaf(empty_config_layer(), EnvTarget::Service(ServiceSlot::EventsTransport, ServiceLeaf::MetricsEnabled), v), ""@) == set!["services.events_transport.service.metrics.enabled"@],
        names_leaf("GREENTIC_SERVICES_EVENTS_TRANSPORT_METRICS_ENABLED"@, "services.events_transport.service.metrics.enabled"@),
{
    reveal_strlit("");
    reveal_strlit("GREENTIC_");
    reveal_strlit("GREENTIC_SERVICES_EVENTS_TRANSPORT_METRICS_ENABLED");
    reveal_strlit("services.events_transport.service.metrics.enabled");
    reveal_strlit("services.");
    reveal_strlit("events_transport.");
    reveal_strlit("service.");
    reveal_strlit("metrics.");
    reveal_strlit("enabled");
    reveal_strlit("services.events_transport");
    reveal_strlit("metrics.enabled");
    reveal_strlit(".service.");
    reveal_strlit(".");
    assert(""@ + "services."@ + "events_transport."@ + "service."@ + "metrics."@ + "enabled"@ =~= "services.events_transport.service.metrics.enabled"@);
    assert(keys_config_layer(with_env_leaf(empty_config_layer(), EnvTarget::Service(ServiceSlot::EventsTransport, ServiceLeaf::MetricsEnabled), v), ""@) =~= set!["services.events_transport.service.metrics.enabled"@]);
    assert("services.events_transport.service.metrics.enabled"@ =~= "services.events_transport"@ + ".service."@ + "metrics.enabled"@);
    assert("GREENTIC_SERVICES_EVENTS_TRANSPORT_METRICS_ENABLED"@ =~= variable_for_path("services.events_transport"@ + "."@ + "metrics.enabled"@));
}

proof fn lemma_names_service_events_transport_metrics_bind_addr(v: EnvLeaf)
    requires
        v is Text,
        leaf_present(v),
    ensures
        keys_config_layer(with_env_leaf(empty_config_layer(), EnvTarget::Service(ServiceSlot::EventsTransport, ServiceLeaf::MetricsBindAddr), v), ""@) == set!["services.events_transport.service.metrics.bind_addr"@],
        names_leaf("GREENTIC_SERVICES_EVENTS_TRANSPORT_METRICS_BIND_ADDR"@, "services.events_transport.service.metrics.bind_addr"@),
{
    reveal_strlit("");
    reveal_strlit("GREENTIC_");
    reveal_strlit("GREENTIC_SERVICES_EVENTS_TRANSPORT_METRICS_BIND_ADDR");
    reveal_strlit("services.events_transport.service.metrics.bind_addr");
    reveal_strlit("services.");
    reveal_strlit("events_transport.");
    reveal_strlit("service.");
    reveal_strlit("metrics.");
    reveal_strlit("bind_addr");
    reveal_strlit("services.events_transport");
    reveal_strlit("metrics.bind_addr");
    reveal_strlit(".service.");
    reveal_strlit(".");
    assert(""@ + "services."@ + "events_transport."@ + "service."@ + "metrics."@ + "bind_addr"@ =~= "services.events_transport.service.metrics.bind_addr"@);
    assert(keys_config_layer(with_env_leaf(empty_config_layer(), EnvTarget::Service(ServiceSlot::EventsTransport, ServiceLeaf::MetricsBindAddr), v), ""@) =~= set!["services.events_transport.service.metrics.bind_addr"@]);
    assert("services.events_transport.service.metrics.bind_addr"@ =~= "services.events_transport"@ + ".service."@ + "metrics.bind_addr"@);
    assert("GREENTIC_SERVICES_EVENTS_TRANSPORT_METRICS_BIND_ADDR"@ =~= variable_for_path("services.events_transport"@ + "."@ + "metrics.bind_addr"@));
}

proof fn lemma_names_service_events_transport_metrics_port(v: EnvLeaf)
    requires
        v is Number16,
        leaf_present(v),
    ensures
        keys_config_layer(with_env_leaf(empty_config_layer(), EnvTarget::Service(ServiceSlot::EventsTransport, ServiceLeaf::MetricsPort), v), ""@) == set!["services.events_transport.service.metrics.port"@],
        names_leaf("GREENTIC_SERVICES_EVENTS_TRANSPORT_METRICS_PORT"@, "services.events_transport.service.metrics.port"@),
{
    reveal_strlit("");
    reveal_strlit("GREENTIC_");
    reveal_strlit("GREENTIC_SERVICES_EVENTS_TRANSPORT_METRICS_PORT");
    reveal_strlit("services.events_transport.service.metrics.port");
    reveal_strlit("services.");
    reveal_strlit("events_transport.");
    reveal_strlit("service.");
    reveal_strlit("metrics.");
    reveal_strlit("port");
    reveal_strlit("services.events_transport");
    reveal_strlit("metrics.port");
    reveal_strlit(".service.");
    reveal_strlit(".");
    assert(""@ + "services."@ + "events_transport."@ + "service."@ + "metrics."@ + "port"@ =~= "services.events_transport.service.metrics.port"@);
    assert(keys_config_layer(with_env_leaf(empty_config_layer(), EnvTarget::Service(ServiceSlot::EventsTransport, ServiceLeaf::MetricsPort), v), ""@) =~= set!["services.events_transport.service.metrics.port"@]);
    assert("services.events_transport.service.metrics.port"@ =~= "services.events_transport"@ + ".service."@ + "metrics.port"@);
    assert("GREENTIC_SERVICES_EVENTS_TRANSPORT_METRICS_PORT"@ =~= variable_for_path("services.events_transport"@ + "."@ + "metrics.port"@));
}

proof fn lemma_names_service_events_transport_metrics_path(v: EnvLeaf)
    requires
        v is Text,
        leaf_present(v),
    ensures
        keys_config_layer(with_env_leaf(empty_config_layer(), EnvTarget::Service(ServiceSlot::EventsTransport, ServiceLeaf::MetricsPath), v), ""@) == set!["services.events_transport.service.metrics.path"@],
        names_leaf("GREENTIC_SERVICES_EVENTS_TRANSPORT_METRICS_PATH"@, "services.events_transport.service.metrics.path"@),
{
    reveal_strlit("");
    reveal_strlit("GREENTIC_");
    reveal_strlit("GREENTIC_SERVICES_EVENTS_TRANSPORT_METRICS_PATH");
    reveal_strlit("services.events_transport.service.metrics.path");
    reveal_strlit("services.");
    reveal_strlit("events_transport.");
    reveal_strlit("service.");
    reveal_strlit("metrics.");
    reveal_strlit("path");
    reveal_strlit("services.events_transport");
    reveal_strlit("metrics.path");
    reveal_strlit(".service.");
    reveal_strlit(".");
    assert(""@ + "services."@ + "events_transport."@ + "service."@ + "metrics."@ + "path"@ =~= "services.events_transport.service.metrics.path"@);
    assert(keys_config_layer(with_env_leaf(empty_config_layer(), EnvTarget::Service(ServiceSlot::EventsTransport, ServiceLeaf::MetricsPath), v), ""@) =~= set!["services.events_transport.service.metrics.path"@]);
    assert("services.events_transport.service.metrics.path"@ =~= "services.events_transport"@ + ".service."@ + "metrics.path"@);
    assert("GREENTIC_SERVICES_EVENTS_TRANSPORT_METRICS_PATH"@ =~= variable_for_path("services.events_transport"@ + "."@ + "metrics.path"@));
}

proof fn lemma_names_service_source_kind(v: EnvLeaf)
    requires
        v is Text,
        leaf_present(v),
    ensures
        keys_config_layer(with_env_leaf(empty_config_layer(), EnvTarget::Service(ServiceSlot::Source, ServiceLeaf::Kind), v), ""@) == set!["services.source.kind"@],
        names_leaf("GREENTIC_SERVICES_SOURCE_KIND"@, "services.source.kind"@),
{
    reveal_strlit("");
    reveal_strlit("GREENTIC_");
    reveal_strlit("GREENTIC_SERVICES_SOURCE_KIND");
    reveal_strlit("services.source.kind");
    reveal_strlit("services.");
    reveal_strlit("source.");
    reveal_strlit("kind");
    assert(""@ + "services."@ + "source."@ + "kind"@ =~= "services.source.kind"@);
    assert(keys_config_layer(with_env_leaf(empty_config_layer(), EnvTarget::Service(ServiceSlot::Source, ServiceLeaf::Kind), v), ""@) =~= set!["services.source.kind"@]);
    assert("GREENTIC_SERVICES_SOURCE_KIND"@ =~= variable_for_path("services.source.kind"@));
}

proof fn lemma_names_service_source_url(v: EnvLeaf)
    requires
        v is Link,
        leaf_present(v),
    ensures
        keys_config_layer(with_env_leaf(empty_config_layer(), EnvTarget::Service(ServiceSlot::Source, ServiceLeaf::Url), v), ""@) == set!["services.source.url"@],
        names_leaf("GREENTIC_SERVICES_SOURCE_URL"@, "services.source.url"@),
{
    reveal_strlit("");
    reveal_strlit("GREENTIC_");
    reveal_strlit("GREENTIC_SERVICES_SOURCE_URL");
    reveal_strlit("services.source.url");
    reveal_strlit("services.");
    reveal_strlit("source.");
    reveal_strlit("url");
    assert(""@ + "services."@ + "source."@ + "url"@ =~= "services.source.url"@);
    assert(keys_config_layer(with_env_leaf(empty_config_layer(), EnvTarget::Service(ServiceSlot::Source, ServiceLeaf::Url), v), ""@) =~= set!["services.source.url"@]);
    assert("GREENTIC_SERVICES_SOURCE_URL"@ =~= variable_for_path("services.source.url"@));
}

proof fn lemma_names_service_source_bind_addr(v: EnvLeaf)
    requires
        v is Text,
        leaf_present(v),
    ensures
        keys_config_layer(with_env_leaf(empty_config_layer(), EnvTarget::Service(ServiceSlot::Source, ServiceLeaf::BindAddr), v), ""@) == set!["services.source.service.bind_addr"@],
        names_leaf("GREENTIC_SERVICES_SOURCE_BIND_ADDR"@, "services.source.service.bind_addr"@),
{
    reveal_strlit("");
    reveal_strlit("GREENTIC_");
    reveal_strlit("GREENTIC_SERVICES_SOURCE_BIND_ADDR");
    reveal_strlit("services.source.service.bind_addr");
    reveal_strlit("services.");
    reveal_strlit("source.");
    reveal_strlit("service.");
    reveal_strlit("bind_addr");
    reveal_strlit("services.source");
    reveal_strlit(".service.");
    reveal_strlit(".");
    assert(""@ + "services."@ + "source."@ + "service."@ + "bind_addr"@ =~= "services.source.service.bind_addr"@);
    assert(keys_config_layer(with_env_leaf(empty_config_layer(), EnvTarget::Service(ServiceSlot::Source, ServiceLeaf::BindAddr), v), ""@) =~= set!["services.source.service.bind_addr"@]);
    assert("services.source.service.bind_addr"@ =~= "services.source"@ + ".service."@ + "bind_addr"@);
    assert("GREENTIC_SERVICES_SOURCE_BIND_ADDR"@ =~= variable_for_path("services.source"@ + "."@ + "bind_addr"@));
}

proof fn lemma_names_service_source_port(v: EnvLeaf)
    requires
        v is Number16,
        leaf_present(v),
    ensures
        keys_config_layer(with_env_leaf(empty_config_layer(), EnvTarget::Service(ServiceSlot::Source, ServiceLeaf::Port), v), ""@) == set!["services.source.service.port"@],
        names_leaf("GREENTIC_SERVICES_SOURCE_PORT"@, "services.source.service.port"@),
{
    reveal_strlit("");
    reveal_strlit("GREENTIC_");
    reveal_strlit("GREENTIC_SERVICES_SOURCE_PORT");
    reveal_strlit("services.source.service.port");
    reveal_strlit("services.");
    reveal_strlit("source.");
    reveal_strlit("service.");
    reveal_strlit("port");
    reveal_strlit("services.source");
    reveal_strlit(".service.");
    reveal_strlit(".");
    assert(""@ + "services."@ + "source."@ + "service."@ + "port"@ =~= "services.source.service.port"@);
    assert(keys_config_layer(with_env_leaf(empty_config_layer(), EnvTarget::Service(ServiceSlot::Source, ServiceLeaf::Port), v), ""@) =~= set!["services.source.service.port"@]);
    assert("services.source.service.port"@ =~= "services.source"@ + ".service."@ + "port"@);
    assert("GREENTIC_SERVICES_SOURCE_PORT"@ =~= variable_for_path("services.source"@ + "."@ + "port"@));
}

proof fn lemma_names_service_source_public_base_url(v: EnvLeaf)
    requires
        v is Text,
        leaf_present(v),
    ensures
        keys_config_layer(with_env_leaf(empty_config_layer(), EnvTarget::Service(ServiceSlot::Source, ServiceLeaf::PublicBaseUrl), v), ""@) == set!["services.source.service.public_base_url"@],
        names_leaf("GREENTIC_SERVICES_SOURCE_PUBLIC_BASE_URL"@, "services.source.service.public_base_url"@),
{
    reveal_strlit("");
    reveal_strlit("GREENTIC_");
    reveal_strlit("GREENTIC_SERVICES_SOURCE_PUBLIC_BASE_URL");
    reveal_strlit("services.source.service.public_base_url");
    reveal_strlit("services.");
    reveal_strlit("source.");
    reveal_strlit("service.");
    reveal_strlit("public_base_url");
    reveal_strlit("services.source");
    reveal_strlit(".service.");
    reveal_strlit(".");
    assert(""@ + "services."@ + "source."@ + "service."@ + "public_base_url"@ =~= "services.source.service.public_base_url"@);
    assert(keys_config_layer(with_env_leaf(empty_config_layer(), EnvTarget::Service(ServiceSlot::Source, ServiceLeaf::PublicBaseUrl), v), ""@) =~= set!["services.source.service.public_base_url"@]);
    assert("services.source.service.public_base_url"@ =~= "services.source"@ + ".service."@ + "public_base_url"@);
    assert("GREENTIC_SERVICES_SOURCE_PUBLIC_BASE_URL"@ =~= variable_for_path("services.source"@ + "."@ + "public_base_url"@));
}

proof fn lemma_names_service_source_metrics_enabled(v: EnvLeaf)
    requires
        v is Flag,
        leaf_present(v),
    ensures
        keys_config_layer(with_env_leaf(empty_config_layer(), EnvTarget::Service(ServiceSlot::Source, ServiceLeaf::MetricsEnabled), v), ""@) == set!["services.source.service.metrics.enabled"@],
        names_leaf("GREENTIC_SERVICES_SOURCE_METRICS_ENABLED"@, "services.source.service.metrics.enabled"@),
{
    reveal_strlit("");
    reveal_strlit("GREENTIC_");
    reveal_strlit("GREENTIC_SERVICES_SOURCE_METRICS_ENABLED");
    reveal_strlit("services.source.service.metrics.enabled");
    reveal_strlit("services.");
    reveal_strlit("source.");
    reveal_strlit("service.");
    reveal_strlit("metrics.");
    reveal_strlit("enabled");
    reveal_strlit("services.source");
    reveal_strlit("metrics.enabled");
    reveal_strlit(".service.");
    reveal_strlit(".");
    assert(""@ + "services."@ + "source."@ + "service."@ + "metrics."@ + "enabled"@ =~= "services.source.service.metrics.enabled"@);
    assert(keys_config_layer(with_env_leaf(empty_config_layer(), EnvTarget::Service(ServiceSlot::Source, ServiceLeaf::MetricsEnabled), v), ""@) =~= set!["services.source.service.metrics.enabled"@]);
    assert("services.source.service.metrics.enabled"@ =~= "services.source"@ + ".service."@ + "metrics.enabled"@);
    assert("GREENTIC_SERVICES_SOURCE_METRICS_ENABLED"@ =~= variable_for_path("services.source"@ + "."@ + "metrics.enabled"@));
}

proof fn lemma_names_service_source_metrics_bind_addr(v: EnvLeaf)
    requires
        v is Text,
        leaf_present(v),
    ensures
        keys_config_layer(with_env_leaf(empty_config_layer(), EnvTarget::Service(ServiceSlot::Source, ServiceLeaf::MetricsBindAddr), v), ""@) == set!["services.source.service.metrics.bind_addr"@],
        names_leaf("GREENTIC_SERVICES_SOURCE_METRICS_BIND_ADDR"@, "services.source.service.metrics.bind_addr"@),
{
    reveal_strlit("");
    reveal_strlit("GREENTIC_");
    reveal_strlit("GREENTIC_SERVICES_SOURCE_METRICS_BIND_ADDR");
    reveal_strlit("services.source.service.metrics.bind_addr");
    reveal_strlit("services.");
    reveal_strlit("source.");
    reveal_strlit("service.");
    reveal_strlit("metrics.");
    reveal_strlit("bind_addr");
    reveal_strlit("services.source");
    reveal_strlit("metrics.bind_addr");
    reveal_strlit(".service.");
    reveal_strlit(".");
    assert(""@ + "services."@ + "source."@ + "service."@ + "metrics."@ + "bind_addr"@ =~= "services.source.service.metrics.bind_addr"@);
    assert(keys_config_layer(with_env_leaf(empty_config_layer(), EnvTarget::Service(ServiceSlot::Source, ServiceLeaf::MetricsBindAddr), v), ""@) =~= set!["services.source.service.metrics.bind_addr"@]);
    assert("services.source.service.metrics.bind_addr"@ =~= "services.source"@ + ".service."@ + "metrics.bind_addr"@);
    assert("GREENTIC_SERVICES_SOURCE_METRICS_BIND_ADDR"@ =~= variable_for_path("services.source"@ + "."@ + "metrics.bind_addr"@));
}

proof fn lemma_names_service_source_metrics_port(v: EnvLeaf)
    requires
        v is Number16,
        leaf_present(v),
    ensures
        keys_config_layer(with_env_leaf(empty_config_layer(), EnvTarget::Service(ServiceSlot::Source, ServiceLeaf::MetricsPort), v), ""@) == set!["services.source.service.metrics.port"@],
        names_leaf("GREENTIC_SERVICES_SOURCE_METRICS_PORT"@, "services.source.service.metrics.port"@),
{
    reveal_strlit("");
    reveal_strlit("GREENTIC_");
    reveal_strlit("GREENTIC_SERVICES_SOURCE_METRICS_PORT");
    reveal_strlit("services.source.service.metrics.port");
    reveal_strlit("services.");
    reveal_strlit("source.");
    reveal_strlit("service.");
    reveal_strlit("metrics.");
    reveal_strlit("port");
    reveal_strlit("services.source");
    reveal_strlit("metrics.port");
    reveal_strlit(".service.");
    reveal_strlit(".");
    assert(""@ + "services."@ + "source."@ + "service."@ + "metrics."@ + "port"@ =~= "services.source.service.metrics.port"@);
    assert(keys_config_layer(with_env_leaf(empty_config_layer(), EnvTarget::Service(ServiceSlot::Source, ServiceLeaf::MetricsPort), v), ""@) =~= set!["services.source.service.metrics.port"@]);
    assert("services.source.service.metrics.port"@ =~= "services.source"@ + ".service."@ + "metrics.port"@);
    assert("GREENTIC_SERVICES_SOURCE_METRICS_PORT"@ =~= variable_for_path("services.source"@ + "."@ + "metrics.port"@));
}

proof fn lemma_names_service_source_metrics_path(v: EnvLeaf)
    requires
        v is Text,
        leaf_present(v),
    ensures
        keys_config_layer(with_env_leaf(empty_config_layer(), EnvTarget::Service(ServiceSlot::Source, ServiceLeaf::MetricsPath), v), ""@) == set!["services.source.service.metrics.path"@],
        names_leaf("GREENTIC_SERVICES_SOURCE_METRICS_PATH"@, "services.source.service.metrics.path"@),
{
    reveal_strlit("");
    reveal_strlit("GREENTIC_");
    reveal_strlit("GREENTIC_SERVICES_SOURCE_METRICS_PATH");
    reveal_strlit("services.source.service.metrics.path");
    reveal_strlit("services.");
    reveal_strlit("source.");
    reveal_strlit("service.");
    reveal_strlit("metrics.");
    reveal_strlit("path");
    reveal_strlit("services.source");
    reveal_strlit("metrics.path");
    reveal_strlit(".service.");
    reveal_strlit(".");
    assert(""@ + "services."@ + "source."@ + "service."@ + "metrics."@ + "path"@ =~= "services.source.service.metrics.path"@);
    assert(keys_config_layer(with_env_leaf(empty_config_layer(), EnvTarget::Service(ServiceSlot::Source, ServiceLeaf::MetricsPath), v), ""@) =~= set!["services.source.service.metrics.path"@]);
    assert("services.source.service.metrics.path"@ =~= "services.source"@ + ".service."@ + "metrics.path"@);
    assert("GREENTIC_SERVICES_SOURCE_METRICS_PATH"@ =~= variable_for_path("services.source"@ + "."@ + "metrics.path"@));
}

proof fn lemma_names_service_publish_kind(v: EnvLeaf)
    requires
        v is Text,
        leaf_present(v),
    ensures
        keys_config_layer(with_env_leaf(empty_config_layer(), EnvTarget::Service(ServiceSlot::Publish, ServiceLeaf::Kind), v), ""@) == set!["services.publish.kind"@],
        names_leaf("GREENTIC_SERVICES_PUBLISH_KIND"@, "services.publish.kind"@),
{
    reveal_strlit("");
    reveal_strlit("GREENTIC_");
    reveal_strlit("GREENTIC_SERVICES_PUBLISH_KIND");
    reveal_strlit("services.publish.kind");
    reveal_strlit("services.");
    reveal_strlit("publish.");
    reveal_strlit("kind");
    assert(""@ + "services."@ + "publish."@ + "kind"@ =~= "services.publish.kind"@);
    assert(keys_config_layer(with_env_leaf(empty_config_layer(), EnvTarget::Service(ServiceSlot::Publish, ServiceLeaf::Kind), v), ""@) =~= set!["services.publish.kind"@]);
    assert("GREENTIC_SERVICES_PUBLISH_KIND"@ =~= variable_for_path("services.publish.kind"@));
}

proof fn lemma_names_service_publish_url(v: EnvLeaf)
    requires
        v is Link,
        leaf_present(v),
    ensures
        keys_config_layer(with_env_leaf(empty_config_layer(), EnvTarget::Service(ServiceSlot::Publish, ServiceLeaf::Url), v), ""@) == set!["services.publish.url"@],
        names_leaf("GREENTIC_SERVICES_PUBLISH_URL"@, "services.publish.url"@),
{
    reveal_strlit("");
    reveal_strlit("GREENTIC_");
    reveal_strlit("GREENTIC_SERVICES_PUBLISH_URL");
    reveal_strlit("services.publish.url");
    reveal_strlit("services.");
    reveal_strlit("publish.");
    reveal_strlit("url");
    assert(""@ + "services."@ + "publish."@ + "url"@ =~= "services.publish.url"@);
    assert(keys_config_layer(with_env_leaf(empty_config_layer(), EnvTarget::Service(ServiceSlot::Publish, ServiceLeaf::Url), v), ""@) =~= set!["services.publish.url"@]);
    assert("GREENTIC_SERVICES_PUBLISH_URL"@ =~= variable_for_path("services.publish.url"@));
}

proof fn lemma_names_service_publish_bind_addr(v: EnvLeaf)
    requires
        v is Text,
        leaf_present(v),
    ensures
        keys_config_layer(with_env_leaf(empty_config_layer(), EnvTarget::Service(ServiceSlot::Publish, ServiceLeaf::BindAddr), v), ""@) == set!["services.publish.service.bind_addr"@],
        names_leaf("GREENTIC_SERVICES_PUBLISH_BIND_ADDR"@, "services.publish.service.bind_addr"@),
{
    reveal_strlit("");
    reveal_strlit("GREENTIC_");
    reveal_strlit("GREENTIC_SERVICES_PUBLISH_BIND_ADDR");
    reveal_strlit("services.publish.service.bind_addr");
    reveal_strlit("services.");
    reveal_strlit("publish.");
    reveal_strlit("service.");
    reveal_strlit("bind_addr");
    reveal_strlit("services.publish");
    reveal_strlit(".service.");
    reveal_strlit(".");
    assert(""@ + "services."@ + "publish."@ + "service."@ + "bind_addr"@ =~= "services.publish.service.bind_addr"@);
    assert(keys_config_layer(with_env_leaf(empty_config_layer(), EnvTarget::Service(ServiceSlot::Publish, ServiceLeaf::BindAddr), v), ""@) =~= set!["services.publish.service.bind_addr"@]);
    assert("services.publish.service.bind_addr"@ =~= "services.publish"@ + ".service."@ + "bind_addr"@);
    assert("GREENTIC_SERVICES_PUBLISH_BIND_ADDR"@ =~= variable_for_path("services.publish"@ + "."@ + "bind_addr"@));
}

proof fn lemma_names_service_publish_port(v: EnvLeaf)
    requires
        v is Number16,
        leaf_present(v),
    ensures
        keys_config_layer(with_env_leaf(empty_config_layer(), EnvTarget::Service(ServiceSlot::Publish, ServiceLeaf::Port), v), ""@) == set!["services.publish.service.port"@],
        names_leaf("GREENTIC_SERVICES_PUBLISH_PORT"@, "services.publish.service.port"@),
{
    reveal_strlit("");
    reveal_strlit("GREENTIC_");
    reveal_strlit("GREENTIC_SERVICES_PUBLISH_PORT");
    reveal_strlit("services.publish.service.port");
    reveal_strlit("services.");
    reveal_strlit("publish.");
    reveal_strlit("service.");
    reveal_strlit("port");
    reveal_strlit("services.publish");
    reveal_strlit(".service.");
    reveal_strlit(".");
    assert(""@ + "services."@ + "publish."@ + "service."@ + "port"@ =~= "services.publish.service.port"@);
    assert(keys_config_layer(with_env_leaf(empty_config_layer(), EnvTarget::Service(ServiceSlot::Publish, ServiceLeaf::Port), v), ""@) =~= set!["services.publish.service.port"@]);
    assert("services.publish.service.port"@ =~= "services.publish"@ + ".service."@ + "port"@);
    assert("GREENTIC_SERVICES_PUBLISH_PORT"@ =~= variable_for_path("services.publish"@ + "."@ + "port"@));
}

proof fn lemma_names_service_publish_public_base_url(v: EnvLeaf)
    requires
        v is Text,
        leaf_present(v),
    ensures
        keys_config_layer(with_env_leaf(empty_config_layer(), EnvTarget::Service(ServiceSlot::Publish, ServiceLeaf::PublicBaseUrl), v), ""@) == set!["services.publish.service.public_base_url"@],
        names_leaf("GREENTIC_SERVICES_PUBLISH_PUBLIC_BASE_URL"@, "services.publish.service.public_base_url"@),
{
    reveal_strlit("");
    reveal_strlit("GREENTIC_");
    reveal_strlit("GREENTIC_SERVICES_PUBLISH_PUBLIC_BASE_URL");
    reveal_strlit("services.publish.service.public_base_url");
    reveal_strlit("services.");
    reveal_strlit("publish.");
    reveal_strlit("service.");
    reveal_strlit("public_base_url");
    reveal_strlit("services.publish");
    reveal_strlit(".service.");
    reveal_strlit(".");
    assert(""@ + "services."@ + "publish."@ + "service."@ + "public_base_url"@ =~= "services.publish.service.public_base_url"@);
    assert(keys_config_layer(with_env_leaf(empty_config_layer(), EnvTarget::Service(ServiceSlot::Publish, ServiceLeaf::PublicBaseUrl), v), ""@) =~= set!["services.publish.service.public_base_url"@]);
    assert("services.publish.service.public_base_url"@ =~= "services.publish"@ + ".service."@ + "public_base_url"@);
    assert("GREENTIC_SERVICES_PUBLISH_PUBLIC_BASE_URL"@ =~= variable_for_path("services.publish"@ + "."@ + "public_base_url"@));
}

proof fn lemma_names_service_publish_metrics_enabled(v: EnvLeaf)
    requires
        v is Flag,
        leaf_present(v),
    ensures
        keys_config_layer(with_env_leaf(empty_config_layer(), EnvTarget::Service(ServiceSlot::Publish, ServiceLeaf::MetricsEnabled), v), ""@) == set!["services.publish.service.metrics.enabled"@],
        names_leaf("GREENTIC_SERVICES_PUBLISH_METRICS_ENABLED"@, "services.publish.service.metrics.enabled"@),
{
    reveal_strlit("");
    reveal_strlit("GREENTIC_");
    reveal_strlit("GREENTIC_SERVICES_PUBLISH_METRICS_ENABLED");
    reveal_strlit("services.publish.service.metrics.enabled");
    reveal_strlit("services.");
    reveal_strlit("publish.");
    reveal_strlit("service.");
    reveal_strlit("metrics.");
    reveal_strlit("enabled");
    reveal_strlit("services.publish");
    reveal_strlit("metrics.enabled");
    reveal_strlit(".service.");
    reveal_strlit(".");
    assert(""@ + "services."@ + "publish."@ + "service."@ + "metrics."@ + "enabled"@ =~= "services.publish.service.metrics.enabled"@);
    assert(keys_config_layer(with_env_leaf(empty_config_layer(), EnvTarget::Service(ServiceSlot::Publish, ServiceLeaf::MetricsEnabled), v), ""@) =~= set!["services.publish.service.metrics.enabled"@]);
    assert("services.publish.service.metrics.enabled"@ =~= "services.publish"@ + ".service."@ + "metrics.enabled"@);
    assert("GREENTIC_SERVICES_PUBLISH_METRICS_ENABLED"@ =~= variable_for_path("services.publish"@ + "."@ + "metrics.enabled"@));
}

proof fn lemma_names_service_publish_metrics_bind_addr(v: EnvLeaf)
    requires
        v is Text,
        leaf_present(v),
    ensures
        keys_config_layer(with_env_leaf(empty_config_layer(), EnvTarget::Service(ServiceSlot::Publish, ServiceLeaf::MetricsBindAddr), v), ""@) == set!["services.publish.service.metrics.bind_addr"@],
        names_leaf("GREENTIC_SERVICES_PUBLISH_METRICS_BIND_ADDR"@, "services.publish.service.metrics.bind_addr"@),
{
    reveal_strlit("");
    reveal_strlit("GREENTIC_");
    reveal_strlit("GREENTIC_SERVICES_PUBLISH_METRICS_BIND_ADDR");
    reveal_strlit("services.publish.service.metrics.bind_addr");
    reveal_strlit("services.");
    reveal_strlit("publish.");
    reveal_strlit("service.");
    reveal_strlit("metrics.");
    reveal_strlit("bind_addr");
    reveal_strlit("services.publish");
    reveal_strlit("metrics.bind_addr");
    reveal_strlit(".service.");
    reveal_strlit(".");
    assert(""@ + "services."@ + "publish."@ + "service."@ + "metrics."@ + "bind_addr"@ =~= "services.publish.service.metrics.bind_addr"@);
    assert(keys_config_layer(with_env_leaf(empty_config_layer(), EnvTarget::Service(ServiceSlot::Publish, ServiceLeaf::MetricsBindAddr), v), ""@) =~= set!["services.publish.service.metrics.bind_addr"@]);
    assert("services.publish.service.metrics.bind_addr"@ =~= "services.publish"@ + ".service."@ + "metrics.bind_addr"@);
    assert("GREENTIC_SERVICES_PUBLISH_METRICS_BIND_ADDR"@ =~= variable_for_path("services.publish"@ + "."@ + "metrics.bind_addr"@));
}

proof fn lemma_names_service_publish_metrics_port(v: EnvLeaf)
    requires
        v is Number16,
        leaf_present(v),
    ensures
        keys_config_layer(with_env_leaf(empty_config_layer(), EnvTarget::Service(ServiceSlot::Publish, ServiceLeaf::MetricsPort), v), ""@) == set!["services.publish.service.metrics.port"@],
        names_leaf("GREENTIC_SERVICES_PUBLISH_METRICS_PORT"@, "services.publish.service.metrics.port"@),
{
    reveal_strlit("");
    reveal_strlit("GREENTIC_");
    reveal_strlit("GREENTIC_SERVICES_PUBLISH_METRICS_PORT");
    reveal_strlit("services.publish.service.metrics.port");
    reveal_strlit("services.");
    reveal_strlit("publish.");
    reveal_strlit("service.");
    reveal_strlit("metrics.");
    reveal_strlit("port");
    reveal_strlit("services.publish");
    reveal_strlit("metrics.port");
    reveal_strlit(".service.");
    reveal_strlit(".");
    assert(""@ + "services."@ + "publish."@ + "service."@ + "metrics."@ + "port"@ =~= "services.publish.service.metrics.port"@);
    assert(keys_config_layer(with_env_leaf(empty_config_layer(), EnvTarget::Service(ServiceSlot::Publish, ServiceLeaf::MetricsPort), v), ""@) =~= set!["services.publish.service.metrics.port"@]);
    assert("services.publish.service.metrics.port"@ =~= "services.publish"@ + ".service."@ + "metrics.port"@);
    assert("GREENTIC_SERVICES_PUBLISH_METRICS_PORT"@ =~= variable_for_path("services.publish"@ + "."@ + "metrics.port"@));
}

proof fn lemma_names_service_publish_metrics_path(v: EnvLeaf)
    requires
        v is Text,
        leaf_present(v),
    ensures
        keys_config_layer(with_env_leaf(empty_config_layer(), EnvTarget::Service(ServiceSlot::Publish, ServiceLeaf::MetricsPath), v), ""@) == set!["services.publish.service.metrics.path"@],
        names_leaf("GREENTIC_SERVICES_PUBLISH_METRICS_PATH"@, "services.publish.service.metrics.path"@),
{
    reveal_strlit("");
    reveal_strlit("GREENTIC_");
    reveal_strlit("GREENTIC_SERVICES_PUBLISH_METRICS_PATH");
    reveal_strlit("services.publish.service.metrics.path");
    reveal_strlit("services.");
    reveal_strlit("publish.");
    reveal_strlit("service.");
    reveal_strlit("metrics.");
    reveal_strlit("path");
    reveal_strlit("services.publish");
    reveal_strlit("metrics.path");
    reveal_strlit(".service.");
    reveal_strlit(".");
    assert(""@ + "services."@ + "publish."@ + "service."@ + "metrics."@ + "path"@ =~= "services.publish.service.metrics.path"@);
    assert(keys_config_layer(with_env_leaf(empty_config_layer(), EnvTarget::Service(ServiceSlot::Publish, ServiceLeaf::MetricsPath), v), ""@) =~= set!["services.publish.service.metrics.path"@]);
    assert("services.publish.service.metrics.path"@ =~= "services.publish"@ + ".service."@ + "metrics.path"@);
    assert("GREENTIC_SERVICES_PUBLISH_METRICS_PATH"@ =~= variable_for_path("services.publish"@ + "."@ + "metrics.path"@));
}

proof fn lemma_names_service_metadata_kind(v: EnvLeaf)
    requires
        v is Text,
        leaf_present(v),
    ensures
        keys_config_layer(with_env_leaf(empty_config_layer(), EnvTarget::Service(ServiceSlot::Metadata, ServiceLeaf::Kind), v), ""@) == set!["services.metadata.kind"@],
        names_leaf("GREENTIC_SERVICES_METADATA_KIND"@, "services.metadata.kind"@),
{
    reveal_strlit("");
    reveal_strlit("GREENTIC_");
    reveal_strlit("GREENTIC_SERVICES_METADATA_KIND");
    reveal_strlit("services.metadata.kind");
    reveal_strlit("services.");
    reveal_strlit("metadata.");
    reveal_strlit("kind");
    assert(""@ + "services."@ + "metadata."@ + "kind"@ =~= "services.metadata.kind"@);
    assert(keys_config_layer(with_env_leaf(empty_config_layer(), EnvTarget::Service(ServiceSlot::Metadata, ServiceLeaf::Kind), v), ""@) =~= set!["services.metadata.kind"@]);
    assert("GREENTIC_SERVICES_METADATA_KIND"@ =~= variable_for_path("services.metadata.kind"@));
}

proof fn lemma_names_service_metadata_url(v: EnvLeaf)
    requires
        v is Link,
        leaf_present(v),
    ensures
        keys_config_layer(with_env_leaf(empty_config_layer(), EnvTarget::Service(ServiceSlot::Metadata, ServiceLeaf::Url), v), ""@) == set!["services.metadata.url"@],
        names_leaf("GREENTIC_SERVICES_METADATA_URL"@, "services.metadata.url"@),
{
    reveal_strlit("");
    reveal_strlit("GREENTIC_");
    reveal_strlit("GREENTIC_SERVICES_METADATA_URL");
    reveal_strlit("services.metadata.url");
    reveal_strlit("services.");
    reveal_strlit("metadata.");
    reveal_strlit("url");
    assert(""@ + "services."@ + "metadata."@ + "url"@ =~= "services.metadata.url"@);
    assert(keys_config_layer(with_env_leaf(empty_config_layer(), EnvTarget::Service(ServiceSlot::Metadata, ServiceLeaf::Url), v), ""@) =~= set!["services.metadata.url"@]);
    assert("GREENTIC_SERVICES_METADATA_URL"@ =~= variable_for_path("services.metadata.url"@));
}

proof fn lemma_names_service_metadata_bind_addr(v: EnvLeaf)
    requires
        v is Text,
        leaf_present(v),
    ensures
        keys_config_layer(with_env_leaf(empty_config_layer(), EnvTarget::Service(ServiceSlot::Metadata, ServiceLeaf::BindAddr), v), ""@) == set!["services.metadata.service.bind_addr"@],
        names_leaf("GREENTIC_SERVICES_METADATA_BIND_ADDR"@, "services.metadata.service.bind_addr"@),
{
    reveal_strlit("");
    reveal_strlit("GREENTIC_");
    reveal_strlit("GREENTIC_SERVICES_METADATA_BIND_ADDR");
    reveal_strlit("services.metadata.service.bind_addr");
    reveal_strlit("services.");
    reveal_strlit("metadata.");
    reveal_strlit("service.");
    reveal_strlit("bind_addr");
    reveal_strlit("services.metadata");
    reveal_strlit(".service.");
    reveal_strlit(".");
    assert(""@ + "services."@ + "metadata."@ + "service."@ + "bind_addr"@ =~= "services.metadata.service.bind_addr"@);
    assert(keys_config_layer(with_env_leaf(empty_config_layer(), EnvTarget::Service(ServiceSlot::Metadata, ServiceLeaf::BindAddr), v), ""@) =~= set!["services.metadata.service.bind_addr"@]);
    assert("services.metadata.service.bind_addr"@ =~= "services.metadata"@ + ".service."@ + "bind_addr"@);
    assert("GREENTIC_SERVICES_METADATA_BIND_ADDR"@ =~= variable_for_path("services.metadata"@ + "."@ + "bind_addr"@));
}

proof fn lemma_names_service_metadata_port(v: EnvLeaf)
    requires
        v is Number16,
        leaf_present(v),
    ensures
        keys_config_layer(with_env_leaf(empty_config_layer(), EnvTarget::Service(ServiceSlot::Metadata, ServiceLeaf::Port), v), ""@) == set!["services.metadata.service.port"@],
        names_leaf("GREENTIC_SERVICES_METADATA_PORT"@, "services.metadata.service.port"@),
{
    reveal_strlit("");
    reveal_strlit("GREENTIC_");
    reveal_strlit("GREENTIC_SERVICES_METADATA_PORT");
    reveal_strlit("services.metadata.service.port");
    reveal_strlit("services.");
    reveal_strlit("metadata.");
    reveal_strlit("service.");
    reveal_strlit("port");
    reveal_strlit("services.metadata");
    reveal_strlit(".service.");
    reveal_strlit(".");
    assert(""@ + "services."@ + "metadata."@ + "service."@ + "port"@ =~= "services.metadata.service.port"@);
    assert(keys_config_layer(with_env_leaf(empty_config_layer(), EnvTarget::Service(ServiceSlot::Metadata, ServiceLeaf::Port), v), ""@) =~= set!["services.metadata.service.port"@]);
    assert("services.metadata.service.port"@ =~= "services.metadata"@ + ".service."@ + "port"@);
    assert("GREENTIC_SERVICES_METADATA_PORT"@ =~= variable_for_path("services.metadata"@ + "."@ + "port"@));
}

proof fn lemma_names_service_metadata_public_base_url(v: EnvLeaf)
    requires
        v is Text,
        leaf_present(v),
    ensures
        keys_config_layer(with_env_leaf(empty_config_layer(), EnvTarget::Service(ServiceSlot::Metadata, ServiceLeaf::PublicBaseUrl), v), ""@) == set!["services.metadata.service.public_base_url"@],
        names_leaf("GREENTIC_SERVICES_METADATA_PUBLIC_BASE_URL"@, "services.metadata.service.public_base_url"@),
{
    reveal_strlit("");
    reveal_strlit("GREENTIC_");
    reveal_strlit("GREENTIC_SERVICES_METADATA_PUBLIC_BASE_URL");
    reveal_strlit("services.metadata.service.public_base_url");
    reveal_strlit("services.");
    reveal_strlit("metadata.");
    reveal_strlit("service.");
    reveal_strlit("public_base_url");
    reveal_strlit("services.metadata");
    reveal_strlit(".service.");
    reveal_strlit(".");
    assert(""@ + "services."@ + "metadata."@ + "service."@ + "public_base_url"@ =~= "services.metadata.service.public_base_url"@);
    assert(keys_config_layer(with_env_leaf(empty_config_layer(), EnvTarget::Service(ServiceSlot::Metadata, ServiceLeaf::PublicBaseUrl), v), ""@) =~= set!["services.metadata.service.public_base_url"@]);
    assert("services.metadata.service.public_base_url"@ =~= "services.metadata"@ + ".service."@ + "public_base_url"@);
    assert("GREENTIC_SERVICES_METADATA_PUBLIC_BASE_URL"@ =~= variable_for_path("services.metadata"@ + "."@ + "public_base_url"@));
}

proof fn lemma_names_service_metadata_metrics_enabled(v: EnvLeaf)
    requires
        v is Flag,
        leaf_present(v),
    ensures
        keys_config_layer(with_env_leaf(empty_config_layer(), EnvTarget::Service(ServiceSlot::Metadata, ServiceLeaf::MetricsEnabled), v), ""@) == set!["services.metadata.service.metrics.enabled"@],
        names_leaf("GREENTIC_SERVICES_METADATA_METRICS_ENABLED"@, "services.metadata.service.metrics.enabled"@),
{
    reveal_strlit("");
    reveal_strlit("GREENTIC_");
    reveal_strlit("GREENTIC_SERVICES_METADATA_METRICS_ENABLED");
    reveal_strlit("services.metadata.service.metrics.enabled");
    reveal_strlit("services.");
    reveal_strlit("metadata.");
    reveal_strlit("service.");
    reveal_strlit("metrics.");
    reveal_strlit("enabled");
    reveal_strlit("services.metadata");
    reveal_strlit("metrics.enabled");
    reveal_strlit(".service.");
    reveal_strlit(".");
    assert(""@ + "services."@ + "metadata."@ + "service."@ + "metrics."@ + "enabled"@ =~= "services.metadata.service.metrics.enabled"@);
    assert(keys_config_layer(with_env_leaf(empty_config_layer(), EnvTarget::Service(ServiceSlot::Metadata, ServiceLeaf::MetricsEnabled), v), ""@) =~= set!["services.metadata.service.metrics.enabled"@]);
    assert("services.metadata.service.metrics.enabled"@ =~= "services.metadata"@ + ".service."@ + "metrics.enabled"@);
    assert("GREENTIC_SERVICES_METADATA_METRICS_ENABLED"@ =~= variable_for_path("services.metadata"@ + "."@ + "metrics.enabled"@));
}

proof fn lemma_names_service_metadata_metrics_bind_addr(v: EnvLeaf)
    requires
        v is Text,
        leaf_present(v),
    ensures
        keys_config_layer(with_env_leaf(empty_config_layer(), EnvTarget::Service(ServiceSlot::Metadata, ServiceLeaf::MetricsBindAddr), v), ""@) == set!["services.metadata.service.metrics.bind_addr"@],
        names_leaf("GREENTIC_SERVICES_METADATA_METRICS_BIND_ADDR"@, "services.metadata.service.metrics.bind_addr"@),
{
    reveal_strlit("");
    reveal_strlit("GREENTIC_");
    reveal_strlit("GREENTIC_SERVICES_METADATA_METRICS_BIND_ADDR");
    reveal_strlit("services.metadata.service.metrics.bind_addr");
    reveal_strlit("services.");
    reveal_strlit("metadata.");
    reveal_strlit("service.");
    reveal_strlit("metrics.");
    reveal_strlit("bind_addr");
    reveal_strlit("services.metadata");
    reveal_strlit("metrics.bind_addr");
    reveal_strlit(".service.");
    reveal_strlit(".");
    assert(""@ + "services."@ + "metadata."@ + "service."@ + "metrics."@ + "bind_addr"@ =~= "services.metadata.service.metrics.bind_addr"@);
    assert(keys_config_layer(with_env_leaf(empty_config_layer(), EnvTarget::Service(ServiceSlot::Metadata, ServiceLeaf::MetricsBindAddr), v), ""@) =~= set!["services.metadata.service.metrics.bind_addr"@]);
    assert("services.metadata.service.metrics.bind_addr"@ =~= "services.metadata"@ + ".service."@ + "metrics.bind_addr"@);
    assert("GREENTIC_SERVICES_METADATA_METRICS_BIND_ADDR"@ =~= variable_for_path("services.metadata"@ + "."@ + "metrics.bind_addr"@));
}

proof fn lemma_names_service_metadata_metrics_port(v: EnvLeaf)
    requires
        v is Number16,
        leaf_present(v),
    ensures
        keys_config_layer(with_env_leaf(empty_config_layer(), EnvTarget::Service(ServiceSlot::Metadata, ServiceLeaf::MetricsPort), v), ""@) == set!["services.metadata.service.metrics.port"@],
        names_leaf("GREENTIC_SERVICES_METADATA_METRICS_PORT"@, "services.metadata.service.metrics.port"@),
{
    reveal_strlit("");
    reveal_strlit("GREENTIC_");
    reveal_strlit("GREENTIC_SERVICES_METADATA_METRICS_PORT");
    reveal_strlit("services.metadata.service.metrics.port");
    reveal_strlit("services.");
    reveal_strlit("metadata.");
    reveal_strlit("service.");
    reveal_strlit("metrics.");
    reveal_strlit("port");
    reveal_strlit("services.metadata");
    reveal_strlit("metrics.port");
    reveal_strlit(".service.");
    reveal_strlit(".");
    assert(""@ + "services."@ + "metadata."@ + "service."@ + "metrics."@ + "port"@ =~= "services.metadata.service.metrics.port"@);
    assert(keys_config_layer(with_env_leaf(empty_config_layer(), EnvTarget::Service(ServiceSlot::Metadata, ServiceLeaf::MetricsPort), v), ""@) =~= set!["services.metadata.service.metrics.port"@]);
    assert("services.metadata.service.metrics.port"@ =~= "services.metadata"@ + ".service."@ + "metrics.port"@);
    assert("GREENTIC_SERVICES_METADATA_METRICS_PORT"@ =~= variable_for_path("services.metadata"@ + "."@ + "metrics.port"@));
}

proof fn lemma_names_service_metadata_metrics_path(v: EnvLeaf)
    requires
        v is Text,
        leaf_present(v),
    ensures
        keys_config_layer(with_env_leaf(empty_config_layer(), EnvTarget::Service(ServiceSlot::Metadata, ServiceLeaf::MetricsPath), v), ""@) == set!["services.metadata.service.metrics.path"@],
        names_leaf("GREENTIC_SERVICES_METADATA_METRICS_PATH"@, "services.metadata.service.metrics.path"@),
{
    reveal_strlit("");
    reveal_strlit("GREENTIC_");
    reveal_strlit("GREENTIC_SERVICES_METADATA_METRICS_PATH");
    reveal_strlit("services.metadata.service.metrics.path");
    reveal_strlit("services.");
    reveal_strlit("metadata.");
    reveal_strlit("service.");
    reveal_strlit("metrics.");
    reveal_strlit("path");
    reveal_strlit("services.metadata");
    reveal_strlit("metrics.path");
    reveal_strlit(".service.");
    reveal_strlit(".");
    assert(""@ + "services."@ + "metadata."@ + "service."@ + "metrics."@ + "path"@ =~= "services.metadata.service.metrics.path"@);
    assert(keys_config_layer(with_env_leaf(empty_config_layer(), EnvTarget::Service(ServiceSlot::Metadata, ServiceLeaf::MetricsPath), v), ""@) =~= set!["services.metadata.service.metrics.path"@]);
    assert("services.metadata.service.metrics.path"@ =~= "services.metadata"@ + ".service."@ + "metrics.path"@);
    assert("GREENTIC_SERVICES_METADATA_METRICS_PATH"@ =~= variable_for_path("services.metadata"@ + "."@ + "metrics.path"@));
}

proof fn lemma_names_service_oauth_broker_kind(v: EnvLeaf)
    requires
        v is Text,
        leaf_present(v),
    ensures
        keys_config_layer(with_env_leaf(empty_config_layer(), EnvTarget::Service(ServiceSlot::OauthBroker, ServiceLeaf::Kind), v), ""@) == set!["services.oauth_broker.kind"@],
        names_leaf("GREENTIC_SERVICES_OAUTH_BROKER_KIND"@, "services.oauth_broker.kind"@),
{
    reveal_strlit("");
    reveal_strlit("GREENTIC_");
    reveal_strlit("GREENTIC_SERVICES_OAUTH_BROKER_KIND");
    reveal_strlit("services.oauth_broker.kind");
    reveal_strlit("services.");
    reveal_strlit("oauth_broker.");
    reveal_strlit("kind");
    assert(""@ + "services."@ + "oauth_broker."@ + "kind"@ =~= "services.oauth_broker.kind"@);
    assert(keys_config_layer(with_env_leaf(empty_config_layer(), EnvTarget::Service(ServiceSlot::OauthBroker, ServiceLeaf::Kind), v), ""@) =~= set!["services.oauth_broker.kind"@]);
    assert("GREENTIC_SERVICES_OAUTH_BROKER_KIND"@ =~= variable_for_path("services.oauth_broker.kind"@));
}

proof fn lemma_names_service_oauth_broker_url(v: EnvLeaf)
    requires
        v is Link,
        leaf_present(v),
    ensures
        keys_config_layer(with_env_leaf(empty_config_layer(), EnvTarget::Service(ServiceSlot::OauthBroker, ServiceLeaf::Url), v), ""@) == set!["services.oauth_broker.url"@],
        names_leaf("GREENTIC_SERVICES_OAUTH_BROKER_URL"@, "services.oauth_broker.url"@),
{
    reveal_strlit("");
    reveal_strlit("GREENTIC_");
    reveal_strlit("GREENTIC_SERVICES_OAUTH_BROKER_URL");
    reveal_strlit("services.oauth_broker.url");
    reveal_strlit("services.");
    reveal_strlit("oauth_broker.");
    reveal_strlit("url");
    assert(""@ + "services."@ + "oauth_broker."@ + "url"@ =~= "services.oauth_broker.url"@);
    assert(keys_config_layer(with_env_leaf(empty_config_layer(), EnvTarget::Service(ServiceSlot::OauthBroker, ServiceLeaf::Url), v), ""@) =~= set!["services.oauth_broker.url"@]);
    assert("GREENTIC_SERVICES_OAUTH_BROKER_URL"@ =~= variable_for_path("services.oauth_broker.url"@));
}

proof fn lemma_names_service_oauth_broker_bind_addr(v: EnvLeaf)
    requires
        v is Text,
        leaf_present(v),
    ensures
        keys_config_layer(with_env_leaf(empty_config_layer(), EnvTarget::Service(ServiceSlot::OauthBroker, ServiceLeaf::BindAddr), v), ""@) == set!["services.oauth_broker.service.bind_addr"@],
        names_leaf("GREENTIC_SERVICES_OAUTH_BROKER_BIND_ADDR"@, "services.oauth_broker.service.bind_addr"@),
{
    reveal_strlit("");
    reveal_strlit("GREENTIC_");
    reveal_strlit("GREENTIC_SERVICES_OAUTH_BROKER_BIND_ADDR");
    reveal_strlit("services.oauth_broker.service.bind_addr");
    reveal_strlit("services.");
    reveal_strlit("oauth_broker.");
    reveal_strlit("service.");
    reveal_strlit("bind_addr");
    reveal_strlit("services.oauth_broker");
    reveal_strlit(".service.");
    reveal_strlit(".");
    assert(""@ + "services."@ + "oauth_broker."@ + "service."@ + "bind_addr"@ =~= "services.oauth_broker.service.bind_addr"@);
    assert(keys_config_layer(with_env_leaf(empty_config_layer(), EnvTarget::Service(ServiceSlot::OauthBroker, ServiceLeaf::BindAddr), v), ""@) =~= set!["services.oauth_broker.service.bind_addr"@]);
    assert("services.oauth_broker.service.bind_addr"@ =~= "services.oauth_broker"@ + ".service."@ + "bind_addr"@);
    assert("GREENTIC_SERVICES_OAUTH_BROKER_BIND_ADDR"@ =~= variable_for_path("services.oauth_broker"@ + "."@ + "bind_addr"@));
}

proof fn lemma_names_service_oauth_broker_port(v: EnvLeaf)
    requires
        v is Number16,
        leaf_present(v),
    ensures
        keys_config_layer(with_env_leaf(empty_config_layer(), EnvTarget::Service(ServiceSlot::OauthBroker, ServiceLeaf::Port), v), ""@) == set!["services.oauth_broker.service.port"@],
        names_leaf("GREENTIC_SERVICES_OAUTH_BROKER_PORT"@, "services.oauth_broker.service.port"@),
{
    reveal_strlit("");
    reveal_strlit("GREENTIC_");
    reveal_strlit("GREENTIC_SERVICES_OAUTH_BROKER_PORT");
    reveal_strlit("services.oauth_broker.service.port");
    reveal_strlit("services.");
    reveal_strlit("oauth_broker.");
    reveal_strlit("service.");
    reveal_strlit("port");
    reveal_strlit("services.oauth_broker");
    reveal_strlit(".service.");
    reveal_strlit(".");
    assert(""@ + "services."@ + "oauth_broker."@ + "service."@ + "port"@ =~= "services.oauth_broker.service.port"@);
    assert(keys_config_layer(with_env_leaf(empty_config_layer(), EnvTarget::Service(ServiceSlot::OauthBroker, ServiceLeaf::Port), v), ""@) =~= set!["services.oauth_broker.service.port"@]);
    assert("services.oauth_broker.service.port"@ =~= "services.oauth_broker"@ + ".service."@ + "port"@);
    assert("GREENTIC_SERVICES_OAUTH_BROKER_PORT"@ =~= variable_for_path("services.oauth_broker"@ + "."@ + "port"@));
}

proof fn lemma_names_service_oauth_broker_public_base_url(v: EnvLeaf)
    requires
        v is Text,
        leaf_present(v),
    ensures
        keys_config_layer(with_env_leaf(empty_config_layer(), EnvTarget::Service(ServiceSlot::OauthBroker, ServiceLeaf::PublicBaseUrl), v), ""@) == set!["services.oauth_broker.service.public_base_url"@],
        names_leaf("GREENTIC_SERVICES_OAUTH_BROKER_PUBLIC_BASE_URL"@, "services.oauth_broker.service.public_base_url"@),
{
    reveal_strlit("");
    reveal_strlit("GREENTIC_");
    reveal_strlit("GREENTIC_SERVICES_OAUTH_BROKER_PUBLIC_BASE_URL");
    reveal_strlit("services.oauth_broker.service.public_base_url");
    reveal_strlit("services.");
    reveal_strlit("oauth_broker.");
    reveal_strlit("service.");
    reveal_strlit("public_base_url");
    reveal_strlit("services.oauth_broker");
    reveal_strlit(".service.");
    reveal_strlit(".");
    assert(""@ + "services."@ + "oauth_broker."@ + "service."@ + "public_base_url"@ =~= "services.oauth_broker.service.public_base_url"@);
    assert(keys_config_layer(with_env_leaf(empty_config_layer(), EnvTarget::Service(ServiceSlot::OauthBroker, ServiceLeaf::PublicBaseUrl), v), ""@) =~= set!["services.oauth_broker.service.public_base_url"@]);
    assert("services.oauth_broker.service.public_base_url"@ =~= "services.oauth_broker"@ + ".service."@ + "public_base_url"@);
    assert("GREENTIC_SERVICES_OAUTH_BROKER_PUBLIC_BASE_URL"@ =~= variable_for_path("services.oauth_broker"@ + "."@ + "public_base_url"@));
}

proof fn lemma_names_service_oauth_broker_metrics_enabled(v: EnvLeaf)
    requires
        v is Flag,
        leaf_present(v),
    ensures
        keys_config_layer(with_env_leaf(empty_config_layer(), EnvTarget::Service(ServiceSlot::OauthBroker, ServiceLeaf::MetricsEnabled), v), ""@) == set!["services.oauth_broker.service.metrics.enabled"@],
        names_leaf("GREENTIC_SERVICES_OAUTH_BROKER_METRICS_ENABLED"@, "services.oauth_broker.service.metrics.enabled"@),
{
    reveal_strlit("");
    reveal_strlit("GREENTIC_");
    reveal_strlit("GREENTIC_SERVICES_OAUTH_BROKER_METRICS_ENABLED");
    reveal_strlit("services.oauth_broker.service.metrics.enabled");
    reveal_strlit("services.");
    reveal_strlit("oauth_broker.");
    reveal_strlit("service.");
    reveal_strlit("metrics.");
    reveal_strlit("enabled");
    reveal_strlit("services.oauth_broker");
    reveal_strlit("metrics.enabled");
    reveal_strlit(".service.");
    reveal_strlit(".");
    assert(""@ + "services."@ + "oauth_broker."@ + "service."@ + "metrics."@ + "enabled"@ =~= "services.oauth_broker.service.metrics.enabled"@);
    assert(keys_config_layer(with_env_leaf(empty_config_layer(), EnvTarget::Service(ServiceSlot::OauthBroker, ServiceLeaf::MetricsEnabled), v), ""@) =~= set!["services.oauth_broker.service.metrics.enabled"@]);
    assert("services.oauth_broker.service.metrics.enabled"@ =~= "services.oauth_broker"@ + ".service."@ + "metrics.enabled"@);
    assert("GREENTIC_SERVICES_OAUTH_BROKER_METRICS_ENABLED"@ =~= variable_for_path("services.oauth_broker"@ + "."@ + "metrics.enabled"@));
}

proof fn lemma_names_service_oauth_broker_metrics_bind_addr(v: EnvLeaf)
    requires
        v is Text,
        leaf_present(v),
    ensures
        keys_config_layer(with_env_leaf(empty_config_layer(), EnvTarget::Service(ServiceSlot::OauthBroker, ServiceLeaf::MetricsBindAddr), v), ""@) == set!["services.oauth_broker.service.metrics.bind_addr"@],
        names_leaf("GREENTIC_SERVICES_OAUTH_BROKER_METRICS_BIND_ADDR"@, "services.oauth_broker.service.metrics.bind_addr"@),
{
    reveal_strlit("");
    reveal_strlit("GREENTIC_");
    reveal_strlit("GREENTIC_SERVICES_OAUTH_BROKER_METRICS_BIND_ADDR");
    reveal_strlit("services.oauth_broker.service.metrics.bind_addr");
    reveal_strlit("services.");
    reveal_strlit("oauth_broker.");
    reveal_strlit("service.");
    reveal_strlit("metrics.");
    reveal_strlit("bind_addr");
    reveal_strlit("services.oauth_broker");
    reveal_strlit("metrics.bind_addr");
    reveal_strlit(".service.");
    reveal_strlit(".");
    assert(""@ + "services."@ + "oauth_broker."@ + "service."@ + "metrics."@ + "bind_addr"@ =~= "services.oauth_broker.service.metrics.bind_addr"@);
    assert(keys_config_layer(with_env_leaf(empty_config_layer(), EnvTarget::Service(ServiceSlot::OauthBroker, ServiceLeaf::MetricsBindAddr), v), ""@) =~= set!["services.oauth_broker.service.metrics.bind_addr"@]);
    assert("services.oauth_broker.service.metrics.bind_addr"@ =~= "services.oauth_broker"@ + ".service."@ + "metrics.bind_addr"@);
    assert("GREENTIC_SERVICES_OAUTH_BROKER_METRICS_BIND_ADDR"@ =~= variable_for_path("services.oauth_broker"@ + "."@ + "metrics.bind_addr"@));
}

proof fn lemma_names_service_oauth_broker_metrics_port(v: EnvLeaf)
    requires
        v is Number16,
        leaf_present(v),
    ensures
        keys_config_layer(with_env_leaf(empty_config_layer(), EnvTarget::Service(ServiceSlot::OauthBroker, ServiceLeaf::MetricsPort), v), ""@) == set!["services.oauth_broker.service.metrics.port"@],
        names_leaf("GREENTIC_SERVICES_OAUTH_BROKER_METRICS_PORT"@, "services.oauth_broker.service.metrics.port"@),
{
    reveal_strlit("");
    reveal_strlit("GREENTIC_");
    reveal_strlit("GREENTIC_SERVICES_OAUTH_BROKER_METRICS_PORT");
    reveal_strlit("services.oauth_broker.service.metrics.port");
    reveal_strlit("services.");
    reveal_strlit("oauth_broker.");
    reveal_strlit("service.");
    reveal_strlit("metrics.");
    reveal_strlit("port");
    reveal_strlit("services.oauth_broker");
    reveal_strlit("metrics.port");
    reveal_strlit(".service.");
    reveal_strlit(".");
    assert(""@ + "services."@ + "oauth_broker."@ + "service."@ + "metrics."@ + "port"@ =~= "services.oauth_broker.service.metrics.port"@);
    assert(keys_config_layer(with_env_leaf(empty_config_layer(), EnvTarget::Service(ServiceSlot::OauthBroker, ServiceLeaf::MetricsPort), v), ""@) =~= set!["services.oauth_broker.service.metrics.port"@]);
    assert("services.oauth_broker.service.metrics.port"@ =~= "services.oauth_broker"@ + ".service."@ + "metrics.port"@);
    assert("GREENTIC_SERVICES_OAUTH_BROKER_METRICS_PORT"@ =~= variable_for_path("services.oauth_broker"@ + "."@ + "metrics.port"@));
}

proof fn lemma_names_service_oauth_broker_metrics_path(v: EnvLeaf)
    requires
        v is Text,
        leaf_present(v),
    ensures
        keys_config_layer(with_env_leaf(empty_config_layer(), EnvTarget::Service(ServiceSlot::OauthBroker, ServiceLeaf::MetricsPath), v), ""@) == set!["services.oauth_broker.service.metrics.path"@],
        names_leaf("GREENTIC_SERVICES_OAUTH_BROKER_METRICS_PATH"@, "services.oauth_broker.service.metrics.path"@),
{
    reveal_strlit("");
    reveal_strlit("GREENTIC_");
    reveal_strlit("GREENTIC_SERVICES_OAUTH_BROKER_METRICS_PATH");
    reveal_strlit("services.oauth_broker.service.metrics.path");
    reveal_strlit("services.");
    reveal_strlit("oauth_broker.");
    reveal_strlit("service.");
    reveal_strlit("metrics.");
    reveal_strlit("path");
    reveal_strlit("services.oauth_broker");
    reveal_strlit("metrics.path");
    reveal_strlit(".service.");
    reveal_strlit(".");
    assert(""@ + "services."@ + "oauth_broker."@ + "service."@ + "metrics."@ + "path"@ =~= "services.oauth_broker.service.metrics.path"@);
    assert(keys_config_layer(with_env_leaf(empty_config_layer(), EnvTarget::Service(ServiceSlot::OauthBroker, ServiceLeaf::MetricsPath), v), ""@) =~= set!["services.oauth_broker.service.metrics.path"@]);
    assert("services.oauth_broker.service.metrics.path"@ =~= "services.oauth_broker"@ + ".service."@ + "metrics.path"@);
    assert("GREENTIC_SERVICES_OAUTH_BROKER_METRICS_PATH"@ =~= variable_for_path("services.oauth_broker"@ + "."@ + "metrics.path"@));
}

proof fn lemma_names_runtime_max_concurrency(v: EnvLeaf)
    requires
        v is Number32,
        leaf_present(v),
    ensures
        keys_config_layer(with_env_leaf(empty_config_layer(), EnvTarget::RuntimeMaxConcurrency, v), ""@) == set!["runtime.max_concurrency"@],
        names_leaf("GREENTIC_RUNTIME_MAX_CONCURRENCY"@, "runtime.max_concurrency"@),
{
    reveal_strlit("");
    reveal_strlit("GREENTIC_");
    reveal_strlit("GREENTIC_RUNTIME_MAX_CONCURRENCY");
    reveal_strlit("runtime.max_concurrency");
    reveal_strlit("runtime.");
    reveal_strlit("max_concurrency");
    assert(""@ + "runtime."@ + "max_concurrency"@ =~= "runtime.max_concurrency"@);
    assert(keys_config_layer(with_env_leaf(empty_config_layer(), EnvTarget::RuntimeMaxConcurrency, v), ""@) =~= set!["runtime.max_concurrency"@]);
    assert("GREENTIC_RUNTIME_MAX_CONCURRENCY"@ =~= variable_for_path("runtime.max_concurrency"@));
}

proof fn lemma_names_runtime_task_timeout_ms(v: EnvLeaf)
    requires
        v is Number64,
        leaf_present(v),
    ensures
        keys_config_layer(with_env_leaf(empty_config_layer(), EnvTarget::RuntimeTaskTimeoutMs, v), ""@) == set!["runtime.task_timeout_ms"@],
        names_leaf("GREENTIC_RUNTIME_TASK_TIMEOUT_MS"@, "runtime.task_timeout_ms"@),
{
    reveal_strlit("");
    reveal_strlit("GREENTIC_");
    reveal_strlit("GREENTIC_RUNTIME_TASK_TIMEOUT_MS");
    reveal_strlit("runtime.task_timeout_ms");
    reveal_strlit("runtime.");
    reveal_strlit("task_timeout_ms");
    assert(""@ + "runtime."@ + "task_timeout_ms"@ =~= "runtime.task_timeout_ms"@);
    assert(keys_config_layer(with_env_leaf(empty_config_layer(), EnvTarget::RuntimeTaskTimeoutMs, v), ""@) =~= set!["runtime.task_timeout_ms"@]);
    assert("GREENTIC_RUNTIME_TASK_TIMEOUT_MS"@ =~= variable_for_path("runtime.task_timeout_ms"@));
}

proof fn lemma_names_runtime_shutdown_grace_ms(v: EnvLeaf)
    requires
        v is Number64,
        leaf_present(v),
    ensures
        keys_config_layer(with_env_leaf(empty_config_layer(), EnvTarget::RuntimeShutdownGraceMs, v), ""@) == set!["runtime.shutdown_grace_ms"@],
        names_leaf("GREENTIC_RUNTIME_SHUTDOWN_GRACE_MS"@, "runtime.shutdown_grace_ms"@),
{
    reveal_strlit("");
    reveal_strlit("GREENTIC_");
    reveal_strlit("GREENTIC_RUNTIME_SHUTDOWN_GRACE_MS");
    reveal_strlit("runtime.shutdown_grace_ms");
    reveal_strlit("runtime.");
    reveal_strlit("shutdown_grace_ms");
    assert(""@ + "runtime."@ + "shutdown_grace_ms"@ =~= "runtime.shutdown_grace_ms"@);
    assert(keys_config_layer(with_env_leaf(empty_config_layer(), EnvTarget::RuntimeShutdownGraceMs, v), ""@) =~= set!["runtime.shutdown_grace_ms"@]);
    assert("GREENTIC_RUNTIME_SHUTDOWN_GRACE_MS"@ =~= variable_for_path("runtime.shutdown_grace_ms"@));
}

proof fn lemma_names_runtime_admin_secrets_explain_enabled(v: EnvLeaf)
    requires
        v is Flag,
        leaf_present(v),
    ensures
        keys_config_layer(with_env_leaf(empty_config_layer(), EnvTarget::RuntimeAdminSecretsExplainEnabled, v), ""@) == set!["runtime.admin_endpoints.secrets_explain_enabled"@],
        names_leaf("GREENTIC_RUNTIME_ADMIN_SECRETS_EXPLAIN_ENABLED"@, "runtime.admin_endpoints.secrets_explain_enabled"@),
{
    reveal_strlit("");
    reveal_strlit("GREENTIC_");
    reveal_strlit("GREENTIC_RUNTIME_ADMIN_SECRETS_EXPLAIN_ENABLED");
    reveal_strlit("runtime.admin_endpoints.secrets_explain_enabled");
    reveal_strlit("runtime.");
    reveal_strlit("admin_endpoints.");
    reveal_strlit("secrets_explain_enabled");
    reveal_strlit("runtime.admin");
    reveal_strlit("_endpoints.");
    reveal_strlit(".");
    assert(""@ + "runtime."@ + "admin_endpoints."@ + "secrets_explain_enabled"@ =~= "runtime.admin_endpoints.secrets_explain_enabled"@);
    assert(keys_config_layer(with_env_leaf(empty_config_layer(), EnvTarget::RuntimeAdminSecretsExplainEnabled, v), ""@) =~= set!["runtime.admin_endpoints.secrets_explain_enabled"@]);
    assert("runtime.admin_endpoints.secrets_explain_enabled"@ =~= "runtime.admin"@ + "_endpoints."@ + "secrets_explain_enabled"@);
    assert("GREENTIC_RUNTIME_ADMIN_SECRETS_EXPLAIN_ENABLED"@ =~= variable_for_path("runtime.admin"@ + "."@ + "secrets_explain_enabled"@));
}

proof fn lemma_names_telemetry_enabled(v: EnvLeaf)
    requires
        v is Flag,
        leaf_present(v),
    ensures
        keys_config_layer(with_env_leaf(empty_config_layer(), EnvTarget::TelemetryEnabled, v), ""@) == set!["telemetry.enabled"@],
        names_leaf("GREENTIC_TELEMETRY_ENABLED"@, "telemetry.enabled"@),
{
    reveal_strlit("");
    reveal_strlit("GREENTIC_");
    reveal_strlit("GREENTIC_TELEMETRY_ENABLED");
    reveal_strlit("telemetry.enabled");
    reveal_strlit("telemetry.");
    reveal_strlit("enabled");
    assert(""@ + "telemetry."@ + "enabled"@ =~= "telemetry.enabled"@);
    assert(keys_config_layer(with_env_leaf(empty_config_layer(), EnvTarget::TelemetryEnabled, v), ""@) =~= set!["telemetry.enabled"@]);
    assert("GREENTIC_TELEMETRY_ENABLED"@ =~= variable_for_path("telemetry.enabled"@));
}

proof fn lemma_names_telemetry_exporter(v: EnvLeaf)
    requires
        v is Text,
        leaf_present(v),
    ensures
        keys_config_layer(with_env_leaf(empty_config_layer(), EnvTarget::TelemetryExporter, v), ""@) == set!["telemetry.exporter"@],
        names_leaf("GREENTIC_TELEMETRY_EXPORTER"@, "telemetry.exporter"@),
{
    reveal_strlit("");
    reveal_strlit("GREENTIC_");
    reveal_strlit("GREENTIC_TELEMETRY_EXPORTER");
    reveal_strlit("telemetry.exporter");
    reveal_strlit("telemetry.");
    reveal_strlit("exporter");
    assert(""@ + "telemetry."@ + "exporter"@ =~= "telemetry.exporter"@);
    assert(keys_config_layer(with_env_leaf(empty_config_layer(), EnvTarget::TelemetryExporter, v), ""@) =~= set!["telemetry.exporter"@]);
    assert("GREENTIC_TELEMETRY_EXPORTER"@ =~= variable_for_path("telemetry.exporter"@));
}

proof fn lemma_names_telemetry_endpoint(v: EnvLeaf)
    requires
        v is Text,
        leaf_present(v),
    ensures
        keys_config_layer(with_env_leaf(empty_config_layer(), EnvTarget::TelemetryEndpoint, v), ""@) == set!["telemetry.endpoint"@],
        names_leaf("GREENTIC_TELEMETRY_ENDPOINT"@, "telemetry.endpoint"@),
{
    reveal_strlit("");
    reveal_strlit("GREENTIC_");
    reveal_strlit("GREENTIC_TELEMETRY_ENDPOINT");
    reveal_strlit("telemetry.endpoint");
    reveal_strlit("telemetry.");
    reveal_strlit("endpoint");
    assert(""@ + "telemetry."@ + "endpoint"@ =~= "telemetry.endpoint"@);
    assert(keys_config_layer(with_env_leaf(empty_config_layer(), EnvTarget::TelemetryEndpoint, v), ""@) =~= set!["telemetry.endpoint"@]);
    assert("GREENTIC_TELEMETRY_ENDPOINT"@ =~= variable_for_path("telemetry.endpoint"@));
}

proof fn lemma_names_telemetry_sampling(v: EnvLeaf)
    requires
        v is Ratio,
        leaf_present(v),
    ensures
        keys_config_layer(with_env_leaf(empty_config_layer(), EnvTarget::TelemetrySampling, v), ""@) == set!["telemetry.sampling"@],
        names_leaf("GREENTIC_TELEMETRY_SAMPLING"@, "telemetry.sampling"@),
{
    reveal_strlit("");
    reveal_strlit("GREENTIC_");
    reveal_strlit("GREENTIC_TELEMETRY_SAMPLING");
    reveal_strlit("telemetry.sampling");
    reveal_strlit("telemetry.");
    reveal_strlit("sampling");
    assert(""@ + "telemetry."@ + "sampling"@ =~= "telemetry.sampling"@);
    assert(keys_config_layer(with_env_leaf(empty_config_layer(), EnvTarget::TelemetrySampling, v), ""@) =~= set!["telemetry.sampling"@]);
    assert("GREENTIC_TELEMETRY_SAMPLING"@ =~= variable_for_path("telemetry.sampling"@));
}

proof fn lemma_names_network_proxy_url(v: EnvLeaf)
    requires
        v is Text,
        leaf_present(v),
    ensures
        keys_config_layer(with_env_leaf(empty_config_layer(), EnvTarget::NetworkProxyUrl, v), ""@) == set!["network.proxy_url"@],
        names_leaf("GREENTIC_NETWORK_PROXY_URL"@, "network.proxy_url"@),
{
    reveal_strlit("");
    reveal_strlit("GREENTIC_");
    reveal_strlit("GREENTIC_NETWORK_PROXY_URL");
    reveal_strlit("network.proxy_url");
    reveal_strlit("network.");
    reveal_strlit("proxy_url");
    assert(""@ + "network."@ + "proxy_url"@ =~= "network.proxy_url"@);
    assert(keys_config_layer(with_env_leaf(empty_config_layer(), EnvTarget::NetworkProxyUrl, v), ""@) =~= set!["network.proxy_url"@]);
    assert("GREENTIC_NETWORK_PROXY_URL"@ =~= variable_for_path("network.proxy_url"@));
}

proof fn lemma_names_network_tls_mode(v: EnvLeaf)
    requires
        v is Text,
        leaf_present(v),
    ensures
        keys_config_layer(with_env_leaf(empty_config_layer(), EnvTarget::NetworkTlsMode, v), ""@) == set!["network.tls_mode"@],
        names_leaf("GREENTIC_NETWORK_TLS_MODE"@, "network.tls_mode"@),
{
    reveal_strlit("");
    reveal_strlit("GREENTIC_");
    reveal_strlit("GREENTIC_NETWORK_TLS_MODE");
    reveal_strlit("network.tls_mode");
    reveal_strlit("network.");
    reveal_strlit("tls_mode");
    assert(""@ + "network."@ + "tls_mode"@ =~= "network.tls_mode"@);
    assert(keys_config_layer(with_env_leaf(empty_config_layer(), EnvTarget::NetworkTlsMode, v), ""@) =~= set!["network.tls_mode"@]);
    assert("GREENTIC_NETWORK_TLS_MODE"@ =~= variable_for_path("network.tls_mode"@));
}

proof fn lemma_names_network_connect_timeout_ms(v: EnvLeaf)
    requires
        v is Number64,
        leaf_present(v),
    ensures
        keys_config_layer(with_env_leaf(empty_config_layer(), EnvTarget::NetworkConnectTimeoutMs, v), ""@) == set!["network.connect_timeout_ms"@],
        names_leaf("GREENTIC_NETWORK_CONNECT_TIMEOUT_MS"@, "network.connect_timeout_ms"@),
{
    reveal_strlit("");
    reveal_strlit("GREENTIC_");
    reveal_strlit("GREENTIC_NETWORK_CONNECT_TIMEOUT_MS");
    reveal_strlit("network.connect_timeout_ms");
    reveal_strlit("network.");
    reveal_strlit("connect_timeout_ms");
    assert(""@ + "network."@ + "connect_timeout_ms"@ =~= "network.connect_timeout_ms"@);
    assert(keys_config_layer(with_env_leaf(empty_config_layer(), EnvTarget::NetworkConnectTimeoutMs, v), ""@) =~= set!["network.connect_timeout_ms"@]);
    assert("GREENTIC_NETWORK_CONNECT_TIMEOUT_MS"@ =~= variable_for_path("network.connect_timeout_ms"@));
}

proof fn lemma_names_network_read_timeout_ms(v: EnvLeaf)
    requires
        v is Number64,
        leaf_present(v),
    ensures
        keys_config_layer(with_env_leaf(empty_config_layer(), EnvTarget::NetworkReadTimeoutMs, v), ""@) == set!["network.read_timeout_ms"@],
        names_leaf("GREENTIC_NETWORK_READ_TIMEOUT_MS"@, "network.read_timeout_ms"@),
{
    reveal_strlit("");
    reveal_strlit("GREENTIC_");
    reveal_strlit("GREENTIC_NETWORK_READ_TIMEOUT_MS");
    reveal_strlit("network.read_timeout_ms");
    reveal_strlit("network.");
    reveal_strlit("read_timeout_ms");
    assert(""@ + "network."@ + "read_timeout_ms"@ =~= "network.read_timeout_ms"@);
    assert(keys_config_layer(with_env_leaf(empty_config_layer(), EnvTarget::NetworkReadTimeoutMs, v), ""@) =~= set!["network.read_timeout_ms"@]);
    assert("GREENTIC_NETWORK_READ_TIMEOUT_MS"@ =~= variable_for_path("network.read_timeout_ms"@));
}

proof fn lemma_names_secrets_kind(v: EnvLeaf)
    requires
        v is Text,
        leaf_present(v),
    ensures
        keys_config_layer(with_env_leaf(empty_config_layer(), EnvTarget::SecretsKind, v), ""@) == set!["secrets.kind"@],
        names_leaf("GREENTIC_SECRETS_KIND"@, "secrets.kind"@),
{
    reveal_strlit("");
    reveal_strlit("GREENTIC_");
    reveal_strlit("GREENTIC_SECRETS_KIND");
    reveal_strlit("secrets.kind");
    reveal_strlit("secrets.");
    reveal_strlit("kind");
    assert(""@ + "secrets."@ + "kind"@ =~= "secrets.kind"@);
    assert(keys_config_layer(with_env_leaf(empty_config_layer(), EnvTarget::SecretsKind, v), ""@) =~= set!["secrets.kind"@]);
    assert("GREENTIC_SECRETS_KIND"@ =~= variable_for_path("secrets.kind"@));
}

proof fn lemma_names_secrets_reference(v: EnvLeaf)
    requires
        v is Text,
        leaf_present(v),
    ensures
        keys_config_layer(with_env_leaf(empty_config_layer(), EnvTarget::SecretsReference, v), ""@) == set!["secrets.reference"@],
        names_leaf("GREENTIC_SECRETS_REFERENCE"@, "secrets.reference"@),
{
    reveal_strlit("");
    reveal_strlit("GREENTIC_");
    reveal_strlit("GREENTIC_SECRETS_REFERENCE");
    reveal_strlit("secrets.reference");
    reveal_strlit("secrets.");
    reveal_strlit("reference");
    assert(""@ + "secrets."@ + "reference"@ =~= "secrets.reference"@);
    assert(keys_config_layer(with_env_leaf(empty_config_layer(), EnvTarget::SecretsReference, v), ""@) =~= set!["secrets.reference"@]);
    assert("GREENTIC_SECRETS_REFERENCE"@ =~= variable_for_path("secrets.reference"@));
}

proof fn lemma_names_dev_default_env(v: EnvLeaf)
    requires
        v is Env,
        leaf_present(v),
    ensures
        keys_config_layer(with_env_leaf(empty_config_layer(), EnvTarget::DevDefaultEnv, v), ""@) == set!["dev.default_env"@],
        names_leaf("GREENTIC_DEV_DEFAULT_ENV"@, "dev.default_env"@),
{
    reveal_strlit("");
    reveal_strlit("GREENTIC_");
    reveal_strlit("GREENTIC_DEV_DEFAULT_ENV");
    reveal_strlit("dev.default_env");
    reveal_strlit("dev.");
    reveal_strlit("default_env");
    assert(""@ + "dev."@ + "default_env"@ =~= "dev.default_env"@);
    assert(keys_config_layer(with_env_leaf(empty_config_layer(), EnvTarget::DevDefaultEnv, v), ""@) =~= set!["dev.default_env"@]);
    assert("GREENTIC_DEV_DEFAULT_ENV"@ =~= variable_for_path("dev.default_env"@));
}

proof fn lemma_names_dev_default_tenant(v: EnvLeaf)
    requires
        v is Text,
        leaf_present(v),
    ensures
        keys_config_layer(with_env_leaf(empty_config_layer(), EnvTarget::DevDefaultTenant, v), ""@) == set!["dev.default_tenant"@],
        names_leaf("GREENTIC_DEV_DEFAULT_TENANT"@, "dev.default_tenant"@),
{
    reveal_strlit("");
    reveal_strlit("GREENTIC_");
    reveal_strlit("GREENTIC_DEV_DEFAULT_TENANT");
    reveal_strlit("dev.default_tenant");
    reveal_strlit("dev.");
    reveal_strlit("default_tenant");
    assert(""@ + "dev."@ + "default_tenant"@ =~= "dev.default_tenant"@);
    assert(keys_config_layer(with_env_leaf(empty_config_layer(), EnvTarget::DevDefaultTenant, v), ""@) =~= set!["dev.default_tenant"@]);
    assert("GREENTIC_DEV_DEFAULT_TENANT"@ =~= variable_for_path("dev.default_tenant"@));
}

proof fn lemma_names_dev_default_team(v: EnvLeaf)
    requires
        v is Text,
        leaf_present(v),
    ensures
        keys_config_layer(with_env_leaf(empty_config_layer(), EnvTarget::DevDefaultTeam, v), ""@) == set!["dev.default_team"@],
        names_leaf("GREENTIC_DEV_DEFAULT_TEAM"@, "dev.default_team"@),
{
    reveal_strlit("");
    reveal_strlit("GREENTIC_");
    reveal_strlit("GREENTIC_DEV_DEFAULT_TEAM");
    reveal_strlit("dev.default_team");
    reveal_strlit("dev.");
    reveal_strlit("default_team");
    assert(""@ + "dev."@ + "default_team"@ =~= "dev.default_team"@);
    assert(keys_config_layer(with_env_leaf(empty_config_layer(), EnvTarget::DevDefaultTeam, v), ""@) =~= set!["dev.default_team"@]);
    assert("GREENTIC_DEV_DEFAULT_TEAM"@ =~= variable_for_path("dev.default_team"@));
}

proof fn lemma_names_events_reconnect_enabled(v: EnvLeaf)
    requires
        v is Flag,
        leaf_present(v),
    ensures
        keys_config_layer(with_env_leaf(empty_config_layer(), EnvTarget::EventsReconnectEnabled, v), ""@) == set!["events.reconnect.enabled"@],
        names_leaf("GREENTIC_EVENTS_RECONNECT_ENABLED"@, "events.reconnect.enabled"@),
{
    reveal_strlit("");
    reveal_strlit("GREENTIC_");
    reveal_strlit("GREENTIC_EVENTS_RECONNECT_ENABLED");
    reveal_strlit("events.reconnect.enabled");
    reveal_strlit("events.");
    reveal_strlit("reconnect.");
    reveal_strlit("enabled");
    assert(""@ + "events."@ + "reconnect."@ + "enabled"@ =~= "events.reconnect.enabled"@);
    assert(keys_config_layer(with_env_leaf(empty_config_layer(), EnvTarget::EventsReconnectEnabled, v), ""@) =~= set!["events.reconnect.enabled"@]);
    assert("GREENTIC_EVENTS_RECONNECT_ENABLED"@ =~= variable_for_path("events.reconnect.enabled"@));
}

proof fn lemma_names_events_reconnect_max_retries(v: EnvLeaf)
    requires
        v is Number32,
        leaf_present(v),
    ensures
        keys_config_layer(with_env_leaf(empty_config_layer(), EnvTarget::EventsReconnectMaxRetries, v), ""@) == set!["events.reconnect.max_retries"@],
        names_leaf("GREENTIC_EVENTS_RECONNECT_MAX_RETRIES"@, "events.reconnect.max_retries"@),
{
    reveal_strlit("");
    reveal_strlit("GREENTIC_");
    reveal_strlit("GREENTIC_EVENTS_RECONNECT_MAX_RETRIES");
    reveal_strlit("events.reconnect.max_retries");
    reveal_strlit("events.");
    reveal_strlit("reconnect.");
    reveal_strlit("max_retries");
    assert(""@ + "events."@ + "reconnect."@ + "max_retries"@ =~= "events.reconnect.max_retries"@);
    assert(keys_config_layer(with_env_leaf(empty_config_layer(), EnvTarget::EventsReconnectMaxRetries, v), ""@) =~= set!["events.reconnect.max_retries"@]);
    assert("GREENTIC_EVENTS_RECONNECT_MAX_RETRIES"@ =~= variable_for_path("events.reconnect.max_retries"@));
}

proof fn lemma_names_events_backoff_initial_ms(v: EnvLeaf)
    requires
        v is Number64,
        leaf_present(v),
    ensures
        keys_config_layer(with_env_leaf(empty_config_layer(), EnvTarget::EventsBackoffInitialMs, v), ""@) == set!["events.backoff.initial_ms"@],
        names_leaf("GREENTIC_EVENTS_BACKOFF_INITIAL_MS"@, "events.backoff.initial_ms"@),
{
    reveal_strlit("");
    reveal_strlit("GREENTIC_");
    reveal_strlit("GREENTIC_EVENTS_BACKOFF_INITIAL_MS");
    reveal_strlit("events.backoff.initial_ms");
    reveal_strlit("events.");
    reveal_strlit("backoff.");
    reveal_strlit("initial_ms");
    assert(""@ + "events."@ + "backoff."@ + "initial_ms"@ =~= "events.backoff.initial_ms"@);
    assert(keys_config_layer(with_env_leaf(empty_config_layer(), EnvTarget::EventsBackoffInitialMs, v), ""@) =~= set!["events.backoff.initial_ms"@]);
    assert("GREENTIC_EVENTS_BACKOFF_INITIAL_MS"@ =~= variable_for_path("events.backoff.initial_ms"@));
}

proof fn lemma_names_events_backoff_max_ms(v: EnvLeaf)
    requires
        v is Number64,
        leaf_present(v),
    ensures
        keys_config_layer(with_env_leaf(empty_config_layer(), EnvTarget::EventsBackoffMaxMs, v), ""@) == set!["events.backoff.max_ms"@],
        names_leaf("GREENTIC_EVENTS_BACKOFF_MAX_MS"@, "events.backoff.max_ms"@),
{
    reveal_strlit("");
    reveal_strlit("GREENTIC_");
    reveal_strlit("GREENTIC_EVENTS_BACKOFF_MAX_MS");
    reveal_strlit("events.backoff.max_ms");
    reveal_strlit("events.");
    reveal_strlit("backoff.");
    reveal_strlit("max_ms");
    assert(""@ + "events."@ + "backoff."@ + "max_ms"@ =~= "events.backoff.max_ms"@);
    assert(keys_config_layer(with_env_leaf(empty_config_layer(), EnvTarget::EventsBackoffMaxMs, v), ""@) =~= set!["events.backoff.max_ms"@]);
    assert("GREENTIC_EVENTS_BACKOFF_MAX_MS"@ =~= variable_for_path("events.backoff.max_ms"@));
}

proof fn lemma_names_events_backoff_multiplier(v: EnvLeaf)
    requires
        v is Factor,
        leaf_present(v),
    ensures
        keys_config_layer(with_env_leaf(empty_config_layer(), EnvTarget::EventsBackoffMultiplier, v), ""@) == set!["events.backoff.multiplier"@],
        names_leaf("GREENTIC_EVENTS_BACKOFF_MULTIPLIER"@, "events.backoff.multiplier"@),
{
    reveal_strlit("");
    reveal_strlit("GREENTIC_");
    reveal_strlit("GREENTIC_EVENTS_BACKOFF_MULTIPLIER");
    reveal_strlit("events.backoff.multiplier");
    reveal_strlit("events.");
    reveal_strlit("backoff.");
    reveal_strlit("multiplier");
    assert(""@ + "events."@ + "backoff."@ + "multiplier"@ =~= "events.backoff.multiplier"@);
    assert(keys_config_layer(with_env_leaf(empty_config_layer(), EnvTarget::EventsBackoffMultiplier, v), ""@) =~= set!["events.backoff.multiplier"@]);
    assert("GREENTIC_EVENTS_BACKOFF_MULTIPLIER"@ =~= variable_for_path("events.backoff.multiplier"@));
}

proof fn lemma_names_events_backoff_jitter(v: EnvLeaf)
    requires
        v is Flag,
        leaf_present(v),
    ensures
        keys_config_layer(with_env_leaf(empty_config_layer(), EnvTarget::EventsBackoffJitter, v), ""@) == set!["events.backoff.jitter"@],
        names_leaf("GREENTIC_EVENTS_BACKOFF_JITTER"@, "events.backoff.jitter"@),
{
    reveal_strlit("");
    reveal_strlit("GREENTIC_");
    reveal_strlit("GREENTIC_EVENTS_BACKOFF_JITTER");
    reveal_strlit("events.backoff.jitter");
    reveal_strlit("events.");
    reveal_strlit("backoff.");
    reveal_strlit("jitter");
    assert(""@ + "events."@ + "backoff."@ + "jitter"@ =~= "events.backoff.jitter"@);
    assert(keys_config_layer(with_env_leaf(empty_config_layer(), EnvTarget::EventsBackoffJitter, v), ""@) =~= set!["events.backoff.jitter"@]);
    assert("GREENTIC_EVENTS_BACKOFF_JITTER"@ =~= variable_for_path("events.backoff.jitter"@));
}

/// Each supported variable sets exactly one leaf, the one its name spells:
/// `GREENTIC_<SECTION>_<LEAF>` sets `<section>.<leaf>` (with the two shortenings that
/// `names_leaf` lists). So `GREENTIC_NETWORK_CONNECT_TIMEOUT_MS` sets
/// `network.connect_timeout_ms` and nothing else.
pub proof fn lemma_variable_sets_named_leaf(key: Seq<char>, v: EnvLeaf, value: Seq<char>, float: Option<FloatReading>)
    requires
        env_target(key) is Some,
        env_leaf_ok(env_target(key)->0, v, value, float),
        leaf_present(v),
    ensures
        exists|p: Seq<char>| keys_config_layer(with_env_leaf(empty_config_layer(), env_target(key)->0, v), ""@) == set![p]
            && names_leaf(key, p),
{
    let t = env_target(key)->0;
    match t {
        EnvTarget::SchemaVersion => {
            assert(key == "GREENTIC_SCHEMA_VERSION"@);
            lemma_names_schema_version(v);
            assert(names_leaf(key, "schema_version"@));
        },
        EnvTarget::EnvironmentEnvId => {
            assert(key == "GREENTIC_ENVIRONMENT_ENV_ID"@);
            lemma_names_environment_env_id(v);
            assert(names_leaf(key, "environment.env_id"@));
        },
        EnvTarget::EnvironmentDeployment => {
            assert(key == "GREENTIC_ENVIRONMENT_DEPLOYMENT"@);
            lemma_names_environment_deployment(v);
            assert(names_leaf(key, "environment.deployment"@));
        },
        EnvTarget::EnvironmentConnection => {
            assert(key == "GREENTIC_ENVIRONMENT_CONNECTION"@);
            lemma_names_environment_connection(v);
            assert(names_leaf(key, "environment.connection"@));
        },
        EnvTarget::EnvironmentRegion => {
            assert(key == "GREENTIC_ENVIRONMENT_REGION"@);
            lemma_names_environment_region(v);
            assert(names_leaf(key, "environment.region"@));
        },
        EnvTarget::PathsGreenticRoot => {
            assert(key == "GREENTIC_PATHS_GREENTIC_ROOT"@);
            lemma_names_paths_greentic_root(v);
            assert(names_leaf(key, "paths.greentic_root"@));
        },
        EnvTarget::PathsStateDir => {
            assert(key == "GREENTIC_PATHS_STATE_DIR"@);
            lemma_names_paths_state_dir(v);
            assert(names_leaf(key, "paths.state_dir"@));
        },
        EnvTarget::PathsCacheDir => {
            assert(key == "GREENTIC_PATHS_CACHE_DIR"@);
            lemma_names_paths_cache_dir(v);
            assert(names_leaf(key, "paths.cache_dir"@));
        },
        EnvTarget::PathsLogsDir => {
            assert(key == "GREENTIC_PATHS_LOGS_DIR"@);
            lemma_names_paths_logs_dir(v);
            assert(names_leaf(key, "paths.logs_dir"@));
        },
        EnvTarget::ServicesEventsUrl => {
            assert(key == "GREENTIC_SERVICES_EVENTS_URL"@);
            lemma_names_services_events_url(v);
            assert(names_leaf(key, "services.events.url"@));
        },
        EnvTarget::Service(ServiceSlot::Runner, ServiceLeaf::Kind) => {
            assert(key == "GREENTIC_SERVICES_RUNNER_KIND"@);
            lemma_names_service_runner_kind(v);
            assert(names_leaf(key, "services.runner.kind"@));
        },
        EnvTarget::Service(ServiceSlot::Runner, ServiceLeaf::Url) => {
            assert(key == "GREENTIC_SERVICES_RUNNER_URL"@);
            lemma_names_service_runner_url(v);
            assert(names_leaf(key, "services.runner.url"@));
        },
        EnvTarget::Service(ServiceSlot::Runner, ServiceLeaf::BindAddr) => {
            assert(key == "GREENTIC_SERVICES_RUNNER_BIND_ADDR"@);
            lemma_names_service_runner_bind_addr(v);
            assert(names_leaf(key, "services.runner.service.bind_addr"@));
        },
        EnvTarget::Service(ServiceSlot::Runner, ServiceLeaf::Port) => {
            assert(key == "GREENTIC_SERVICES_RUNNER_PORT"@);
            lemma_names_service_runner_port(v);
            assert(names_leaf(key, "services.runner.service.port"@));
        },
        EnvTarget::Service(ServiceSlot::Runner, ServiceLeaf::PublicBaseUrl) => {
            assert(key == "GREENTIC_SERVICES_RUNNER_PUBLIC_BASE_URL"@);
            lemma_names_service_runner_public_base_url(v);
            assert(names_leaf(key, "services.runner.service.public_base_url"@));
        },
        EnvTarget::Service(ServiceSlot::Runner, ServiceLeaf::MetricsEnabled) => {
            assert(key == "GREENTIC_SERVICES_RUNNER_METRICS_ENABLED"@);
            lemma_names_service_runner_metrics_enabled(v);
            assert(names_leaf(key, "services.runner.service.metrics.enabled"@));
        },
        EnvTarget::Service(ServiceSlot::Runner, ServiceLeaf::MetricsBindAddr) => {
            assert(key == "GREENTIC_SERVICES_RUNNER_METRICS_BIND_ADDR"@);
            lemma_names_service_runner_metrics_bind_addr(v);
            assert(names_leaf(key, "services.runner.service.metrics.bind_addr"@));
        },
        EnvTarget::Service(ServiceSlot::Runner, ServiceLeaf::MetricsPort) => {
            assert(key == "GREENTIC_SERVICES_RUNNER_METRICS_PORT"@);
            lemma_names_service_runner_metrics_port(v);
            assert(names_leaf(key, "services.runner.service.metrics.port"@));
        },
        EnvTarget::Service(ServiceSlot::Runner, ServiceLeaf::MetricsPath) => {
            assert(key == "GREENTIC_SERVICES_RUNNER_METRICS_PATH"@);
            lemma_names_service_runner_metrics_path(v);
            assert(names_leaf(key, "services.runner.service.metrics.path"@));
        },
        EnvTarget::Service(ServiceSlot::Deployer, ServiceLeaf::Kind) => {
            assert(key == "GREENTIC_SERVICES_DEPLOYER_KIND"@);
            lemma_names_service_deployer_kind(v);
            assert(names_leaf(key, "services.deployer.kind"@));
        },
        EnvTarget::Service(ServiceSlot::Deployer, ServiceLeaf::Url) => {
            assert(key == "GREENTIC_SERVICES_DEPLOYER_URL"@);
            lemma_names_service_deployer_url(v);
            assert(names_leaf(key, "services.deployer.url"@));
        },
        EnvTarget::Service(ServiceSlot::Deployer, ServiceLeaf::BindAddr) => {
            assert(key == "GREENTIC_SERVICES_DEPLOYER_BIND_ADDR"@);
            lemma_names_service_deployer_bind_addr(v);
            assert(names_leaf(key, "services.deployer.service.bind_addr"@));
        },
        EnvTarget::Service(ServiceSlot::Deployer, ServiceLeaf::Port) => {
            assert(key == "GREENTIC_SERVICES_DEPLOYER_PORT"@);
            lemma_names_service_deployer_port(v);
            assert(names_leaf(key, "services.deployer.service.port"@));
        },
        EnvTarget::Service(ServiceSlot::Deployer, ServiceLeaf::PublicBaseUrl) => {
            assert(key == "GREENTIC_SERVICES_DEPLOYER_PUBLIC_BASE_URL"@);
            lemma_names_service_deployer_public_base_url(v);
            assert(names_leaf(key, "services.deployer.service.public_base_url"@));
        },
        EnvTarget::Service(ServiceSlot::Deployer, ServiceLeaf::MetricsEnabled) => {
            assert(key == "GREENTIC_SERVICES_DEPLOYER_METRICS_ENABLED"@);
            lemma_names_service_deployer_metrics_enabled(v);
            assert(names_leaf(key, "services.deployer.service.metrics.enabled"@));
        },
        EnvTarget::Service(ServiceSlot::Deployer, ServiceLeaf::MetricsBindAddr) => {
            assert(key == "GREENTIC_SERVICES_DEPLOYER_METRICS_BIND_ADDR"@);
            lemma_names_service_deployer_metrics_bind_addr(v);
            assert(names_leaf(key, "services.deployer.service.metrics.bind_addr"@));
        },
        EnvTarget::Service(ServiceSlot::Deployer, ServiceLeaf::MetricsPort) => {
            assert(key == "GREENTIC_SERVICES_DEPLOYER_METRICS_PORT"@);
            lemma_names_service_deployer_metrics_port(v);
            assert(names_leaf(key, "services.deployer.service.metrics.port"@));
        },
        EnvTarget::Service(ServiceSlot::Deployer, ServiceLeaf::MetricsPath) => {
            assert(key == "GREENTIC_SERVICES_DEPLOYER_METRICS_PATH"@);
            lemma_names_service_deployer_metrics_path(v);
            assert(names_leaf(key, "services.deployer.service.metrics.path"@));
        },
        EnvTarget::Service(ServiceSlot::EventsTransport, ServiceLeaf::Kind) => {
            assert(key == "GREENTIC_SERVICES_EVENTS_TRANSPORT_KIND"@);
            lemma_names_service_events_transport_kind(v);
            assert(names_leaf(key, "services.events_transport.kind"@));
        },
        EnvTarget::Service(ServiceSlot::EventsTransport, ServiceLeaf::Url) => {
            assert(key == "GREENTIC_SERVICES_EVENTS_TRANSPORT_URL"@);
            lemma_names_service_events_transport_url(v);
            assert(names_leaf(key, "services.events_transport.url"@));
        },
        EnvTarget::Service(ServiceSlot::EventsTransport, ServiceLeaf::BindAddr) => {
            assert(key == "GREENTIC_SERVICES_EVENTS_TRANSPORT_BIND_ADDR"@);
            lemma_names_service_events_transport_bind_addr(v);
            assert(names_leaf(key, "services.events_transport.service.bind_addr"@));
        },
        EnvTarget::Service(ServiceSlot::EventsTransport, ServiceLeaf::Port) => {
            assert(key == "GREENTIC_SERVICES_EVENTS_TRANSPORT_PORT"@);
            lemma_names_service_events_transport_port(v);
            assert(names_leaf(key, "services.events_transport.service.port"@));
        },
        EnvTarget::Service(ServiceSlot::EventsTransport, ServiceLeaf::PublicBaseUrl) => {
            assert(key == "GREENTIC_SERVICES_EVENTS_TRANSPORT_PUBLIC_BASE_URL"@);
            lemma_names_service_events_transport_public_base_url(v);
            assert(names_leaf(key, "services.events_transport.service.public_base_url"@));
        },
        EnvTarget::Service(ServiceSlot::EventsTransport, ServiceLeaf::MetricsEnabled) => {
            assert(key == "GREENTIC_SERVICES_EVENTS_TRANSPORT_METRICS_ENABLED"@);
            lemma_names_service_events_transport_metrics_enabled(v);
            assert(names_leaf(key, "services.events_transport.service.metrics.enabled"@));
        },
        EnvTarget::Service(ServiceSlot::EventsTransport, ServiceLeaf::MetricsBindAddr) => {
            assert(key == "GREENTIC_SERVICES_EVENTS_TRANSPORT_METRICS_BIND_ADDR"@);
            lemma_names_service_events_transport_metrics_bind_addr(v);
            assert(names_leaf(key, "services.events_transport.service.metrics.bind_addr"@));
        },
        EnvTarget::Service(ServiceSlot::EventsTransport, ServiceLeaf::MetricsPort) => {
            assert(key == "GREENTIC_SERVICES_EVENTS_TRANSPORT_METRICS_PORT"@);
            lemma_names_service_events_transport_metrics_port(v);
            assert(names_leaf(key, "services.events_transport.service.metrics.port"@));
        },
        EnvTarget::Service(ServiceSlot::EventsTransport, ServiceLeaf::MetricsPath) => {
            assert(key == "GREENTIC_SERVICES_EVENTS_TRANSPORT_METRICS_PATH"@);
            lemma_names_service_events_transport_metrics_path(v);
            assert(names_leaf(key, "services.events_transport.service.metrics.path"@));
        },
        EnvTarget::Service(ServiceSlot::Source, ServiceLeaf::Kind) => {
            assert(key == "GREENTIC_SERVICES_SOURCE_KIND"@);
            lemma_names_service_source_kind(v);
            assert(names_leaf(key, "services.source.kind"@));
        },
        EnvTarget::Service(ServiceSlot::Source, ServiceLeaf::Url) => {
            assert(key == "GREENTIC_SERVICES_SOURCE_URL"@);
            lemma_names_service_source_url(v);
            assert(names_leaf(key, "services.source.url"@));
        },
        EnvTarget::Service(ServiceSlot::Source, ServiceLeaf::BindAddr) => {
            assert(key == "GREENTIC_SERVICES_SOURCE_BIND_ADDR"@);
            lemma_names_service_source_bind_addr(v);
            assert(names_leaf(key, "services.source.service.bind_addr"@));
        },
        EnvTarget::Service(ServiceSlot::Source, ServiceLeaf::Port) => {
            assert(key == "GREENTIC_SERVICES_SOURCE_PORT"@);
            lemma_names_service_source_port(v);
            assert(names_leaf(key, "services.source.service.port"@));
        },
        EnvTarget::Service(ServiceSlot::Source, ServiceLeaf::PublicBaseUrl) => {
            assert(key == "GREENTIC_SERVICES_SOURCE_PUBLIC_BASE_URL"@);
            lemma_names_service_source_public_base_url(v);
            assert(names_leaf(key, "services.source.service.public_base_url"@));
        },
        EnvTarget::Service(ServiceSlot::Source, ServiceLeaf::MetricsEnabled) => {
            assert(key == "GREENTIC_SERVICES_SOURCE_METRICS_ENABLED"@);
            lemma_names_service_source_metrics_enabled(v);
            assert(names_leaf(key, "services.source.service.metrics.enabled"@));
        },
        EnvTarget::Service(ServiceSlot::Source, ServiceLeaf::MetricsBindAddr) => {
            assert(key == "GREENTIC_SERVICES_SOURCE_METRICS_BIND_ADDR"@);
            lemma_names_service_source_metrics_bind_addr(v);
            assert(names_leaf(key, "services.source.service.metrics.bind_addr"@));
        },
        EnvTarget::Service(ServiceSlot::Source, ServiceLeaf::MetricsPort) => {
            assert(key == "GREENTIC_SERVICES_SOURCE_METRICS_PORT"@);
            lemma_names_service_source_metrics_port(v);
            assert(names_leaf(key, "services.source.service.metrics.port"@));
        },
        EnvTarget::Service(ServiceSlot::Source, ServiceLeaf::MetricsPath) => {
            assert(key == "GREENTIC_SERVICES_SOURCE_METRICS_PATH"@);
            lemma_names_service_source_metrics_path(v);
            assert(names_leaf(key, "services.source.service.metrics.path"@));
        },
        EnvTarget::Service(ServiceSlot::Publish, ServiceLeaf::Kind) => {
            assert(key == "GREENTIC_SERVICES_PUBLISH_KIND"@);
            lemma_names_service_publish_kind(v);
            assert(names_leaf(key, "services.publish.kind"@));
        },
        EnvTarget::Service(ServiceSlot::Publish, ServiceLeaf::Url) => {
            assert(key == "GREENTIC_SERVICES_PUBLISH_URL"@);
            lemma_names_service_publish_url(v);
            assert(names_leaf(key, "services.publish.url"@));
        },
        EnvTarget::Service(ServiceSlot::Publish, ServiceLeaf::BindAddr) => {
            assert(key == "GREENTIC_SERVICES_PUBLISH_BIND_ADDR"@);
            lemma_names_service_publish_bind_addr(v);
            assert(names_leaf(key, "services.publish.service.bind_addr"@));
        },
        EnvTarget::Service(ServiceSlot::Publish, ServiceLeaf::Port) => {
            assert(key == "GREENTIC_SERVICES_PUBLISH_PORT"@);
            lemma_names_service_publish_port(v);
            assert(names_leaf(key, "services.publish.service.port"@));
        },
        EnvTarget::Service(ServiceSlot::Publish, ServiceLeaf::PublicBaseUrl) => {
            assert(key == "GREENTIC_SERVICES_PUBLISH_PUBLIC_BASE_URL"@);
            lemma_names_service_publish_public_base_url(v);
            assert(names_leaf(key, "services.publish.service.public_base_url"@));
        },
        EnvTarget::Service(ServiceSlot::Publish, ServiceLeaf::MetricsEnabled) => {
            assert(key == "GREENTIC_SERVICES_PUBLISH_METRICS_ENABLED"@);
            lemma_names_service_publish_metrics_enabled(v);
            assert(names_leaf(key, "services.publish.service.metrics.enabled"@));
        },
        EnvTarget::Service(ServiceSlot::Publish, ServiceLeaf::MetricsBindAddr) => {
            assert(key == "GREENTIC_SERVICES_PUBLISH_METRICS_BIND_ADDR"@);
            lemma_names_service_publish_metrics_bind_addr(v);
            assert(names_leaf(key, "services.publish.service.metrics.bind_addr"@));
        },
        EnvTarget::Service(ServiceSlot::Publish, ServiceLeaf::MetricsPort) => {
            assert(key == "GREENTIC_SERVICES_PUBLISH_METRICS_PORT"@);
            lemma_names_service_publish_metrics_port(v);
            assert(names_leaf(key, "services.publish.service.metrics.port"@));
        },
        EnvTarget::Service(ServiceSlot::Publish, ServiceLeaf::MetricsPath) => {
            assert(key == "GREENTIC_SERVICES_PUBLISH_METRICS_PATH"@);
            lemma_names_service_publish_metrics_path(v);
            assert(names_leaf(key, "services.publish.service.metrics.path"@));
        },
        EnvTarget::Service(ServiceSlot::Metadata, ServiceLeaf::Kind) => {
            assert(key == "GREENTIC_SERVICES_METADATA_KIND"@);
            lemma_names_service_metadata_kind(v);
            assert(names_leaf(key, "services.metadata.kind"@));
        },
        EnvTarget::Service(ServiceSlot::Metadata, ServiceLeaf::Url) => {
            assert(key == "GREENTIC_SERVICES_METADATA_URL"@);
            lemma_names_service_metadata_url(v);
            assert(names_leaf(key, "services.metadata.url"@));
        },
        EnvTarget::Service(ServiceSlot::Metadata, ServiceLeaf::BindAddr) => {
            assert(key == "GREENTIC_SERVICES_METADATA_BIND_ADDR"@);
            lemma_names_service_metadata_bind_addr(v);
            assert(names_leaf(key, "services.metadata.service.bind_addr"@));
        },
        EnvTarget::Service(ServiceSlot::Metadata, ServiceLeaf::Port) => {
            assert(key == "GREENTIC_SERVICES_METADATA_PORT"@);
            lemma_names_service_metadata_port(v);
            assert(names_leaf(key, "services.metadata.service.port"@));
        },
        EnvTarget::Service(ServiceSlot::Metadata, ServiceLeaf::PublicBaseUrl) => {
            assert(key == "GREENTIC_SERVICES_METADATA_PUBLIC_BASE_URL"@);
            lemma_names_service_metadata_public_base_url(v);
            assert(names_leaf(key, "services.metadata.service.public_base_url"@));
        },
        EnvTarget::Service(ServiceSlot::Metadata, ServiceLeaf::MetricsEnabled) => {
            assert(key == "GREENTIC_SERVICES_METADATA_METRICS_ENABLED"@);
            lemma_names_service_metadata_metrics_enabled(v);
            assert(names_leaf(key, "services.metadata.service.metrics.enabled"@));
        },
        EnvTarget::Service(ServiceSlot::Metadata, ServiceLeaf::MetricsBindAddr) => {
            assert(key == "GREENTIC_SERVICES_METADATA_METRICS_BIND_ADDR"@);
            lemma_names_service_metadata_metrics_bind_addr(v);
            assert(names_leaf(key, "services.metadata.service.metrics.bind_addr"@));
        },
        EnvTarget::Service(ServiceSlot::Metadata, ServiceLeaf::MetricsPort) => {
            assert(key == "GREENTIC_SERVICES_METADATA_METRICS_PORT"@);
            lemma_names_service_metadata_metrics_port(v);
            assert(names_leaf(key, "services.metadata.service.metrics.port"@));
        },
        EnvTarget::Service(ServiceSlot::Metadata, ServiceLeaf::MetricsPath) => {
            assert(key == "GREENTIC_SERVICES_METADATA_METRICS_PATH"@);
            lemma_names_service_metadata_metrics_path(v);
            assert(names_leaf(key, "services.metadata.service.metrics.path"@));
        },
        EnvTarget::Service(ServiceSlot::OauthBroker, ServiceLeaf::Kind) => {
            assert(key == "GREENTIC_SERVICES_OAUTH_BROKER_KIND"@);
            lemma_names_service_oauth_broker_kind(v);
            assert(names_leaf(key, "services.oauth_broker.kind"@));
        },
        EnvTarget::Service(ServiceSlot::OauthBroker, ServiceLeaf::Url) => {
            assert(key == "GREENTIC_SERVICES_OAUTH_BROKER_URL"@);
            lemma_names_service_oauth_broker_url(v);
            assert(names_leaf(key, "services.oauth_broker.url"@));
        },
        EnvTarget::Service(ServiceSlot::OauthBroker, ServiceLeaf::BindAddr) => {
            assert(key == "GREENTIC_SERVICES_OAUTH_BROKER_BIND_ADDR"@);
            lemma_names_service_oauth_broker_bind_addr(v);
            assert(names_leaf(key, "services.oauth_broker.service.bind_addr"@));
        },
        EnvTarget::Service(ServiceSlot::OauthBroker, ServiceLeaf::Port) => {
            assert(key == "GREENTIC_SERVICES_OAUTH_BROKER_PORT"@);
            lemma_names_service_oauth_broker_port(v);
            assert(names_leaf(key, "services.oauth_broker.service.port"@));
        },
        EnvTarget::Service(ServiceSlot::OauthBroker, ServiceLeaf::PublicBaseUrl) => {
            assert(key == "GREENTIC_SERVICES_OAUTH_BROKER_PUBLIC_BASE_URL"@);
            lemma_names_service_oauth_broker_public_base_url(v);
            assert(names_leaf(key, "services.oauth_broker.service.public_base_url"@));
        },
        EnvTarget::Service(ServiceSlot::OauthBroker, ServiceLeaf::MetricsEnabled) => {
            assert(key == "GREENTIC_SERVICES_OAUTH_BROKER_METRICS_ENABLED"@);
            lemma_names_service_oauth_broker_metrics_enabled(v);
            assert(names_leaf(key, "services.oauth_broker.service.metrics.enabled"@));
        },
        EnvTarget::Service(ServiceSlot::OauthBroker, ServiceLeaf::MetricsBindAddr) => {
            assert(key == "GREENTIC_SERVICES_OAUTH_BROKER_METRICS_BIND_ADDR"@);
            lemma_names_service_oauth_broker_metrics_bind_addr(v);
            assert(names_leaf(key, "services.oauth_broker.service.metrics.bind_addr"@));
        },
        EnvTarget::Service(ServiceSlot::OauthBroker, ServiceLeaf::MetricsPort) => {
            assert(key == "GREENTIC_SERVICES_OAUTH_BROKER_METRICS_PORT"@);
            lemma_names_service_oauth_broker_metrics_port(v);
            assert(names_leaf(key, "services.oauth_broker.service.metrics.port"@));
        },
        EnvTarget::Service(ServiceSlot::OauthBroker, ServiceLeaf::MetricsPath) => {
            assert(key == "GREENTIC_SERVICES_OAUTH_BROKER_METRICS_PATH"@);
            lemma_names_service_oauth_broker_metrics_path(v);
            assert(names_leaf(key, "services.oauth_broker.service.metrics.path"@));
        },
        EnvTarget::RuntimeMaxConcurrency => {
            assert(key == "GREENTIC_RUNTIME_MAX_CONCURRENCY"@);
            lemma_names_runtime_max_concurrency(v);
            assert(names_leaf(key, "runtime.max_concurrency"@));
        },
        EnvTarget::RuntimeTaskTimeoutMs => {
            assert(key == "GREENTIC_RUNTIME_TASK_TIMEOUT_MS"@);
            lemma_names_runtime_task_timeout_ms(v);
            assert(names_leaf(key, "runtime.task_timeout_ms"@));
        },
        EnvTarget::RuntimeShutdownGraceMs => {
            assert(key == "GREENTIC_RUNTIME_SHUTDOWN_GRACE_MS"@);
            lemma_names_runtime_shutdown_grace_ms(v);
            assert(names_leaf(key, "runtime.shutdown_grace_ms"@));
        },
        EnvTarget::RuntimeAdminSecretsExplainEnabled => {
            assert(key == "GREENTIC_RUNTIME_ADMIN_SECRETS_EXPLAIN_ENABLED"@);
            lemma_names_runtime_admin_secrets_explain_enabled(v);
            assert(names_leaf(key, "runtime.admin_endpoints.secrets_explain_enabled"@));
        },
        EnvTarget::TelemetryEnabled => {
            assert(key == "GREENTIC_TELEMETRY_ENABLED"@);
            lemma_names_telemetry_enabled(v);
            assert(names_leaf(key, "telemetry.enabled"@));
        },
        EnvTarget::TelemetryExporter => {
            assert(key == "GREENTIC_TELEMETRY_EXPORTER"@);
            lemma_names_telemetry_exporter(v);
            assert(names_leaf(key, "telemetry.exporter"@));
        },
        EnvTarget::TelemetryEndpoint => {
            assert(key == "GREENTIC_TELEMETRY_ENDPOINT"@);
            lemma_names_telemetry_endpoint(v);
            assert(names_leaf(key, "telemetry.endpoint"@));
        },
        EnvTarget::TelemetrySampling => {
            assert(key == "GREENTIC_TELEMETRY_SAMPLING"@);
            lemma_names_telemetry_sampling(v);
            assert(names_leaf(key, "telemetry.sampling"@));
        },
        EnvTarget::NetworkProxyUrl => {
            assert(key == "GREENTIC_NETWORK_PROXY_URL"@);
            lemma_names_network_proxy_url(v);
            assert(names_leaf(key, "network.proxy_url"@));
        },
        EnvTarget::NetworkTlsMode => {
            assert(key == "GREENTIC_NETWORK_TLS_MODE"@);
            lemma_names_network_tls_mode(v);
            assert(names_leaf(key, "network.tls_mode"@));
        },
        EnvTarget::NetworkConnectTimeoutMs => {
            assert(key == "GREENTIC_NETWORK_CONNECT_TIMEOUT_MS"@);
            lemma_names_network_connect_timeout_ms(v);
            assert(names_leaf(key, "network.connect_timeout_ms"@));
        },
        EnvTarget::NetworkReadTimeoutMs => {
            assert(key == "GREENTIC_NETWORK_READ_TIMEOUT_MS"@);
            lemma_names_network_read_timeout_ms(v);
            assert(names_leaf(key, "network.read_timeout_ms"@));
        },
        EnvTarget::SecretsKind => {
            assert(key == "GREENTIC_SECRETS_KIND"@);
            lemma_names_secrets_kind(v);
            assert(names_leaf(key, "secrets.kind"@));
        },
        EnvTarget::SecretsReference => {
            assert(key == "GREENTIC_SECRETS_REFERENCE"@);
            lemma_names_secrets_reference(v);
            assert(names_leaf(key, "secrets.reference"@));
        },
        EnvTarget::DevDefaultEnv => {
            assert(key == "GREENTIC_DEV_DEFAULT_ENV"@);
            lemma_names_dev_default_env(v);
            assert(names_leaf(key, "dev.default_env"@));
        },
        EnvTarget::DevDefaultTenant => {
            assert(key == "GREENTIC_DEV_DEFAULT_TENANT"@);
            lemma_names_dev_default_tenant(v);
            assert(names_leaf(key, "dev.default_tenant"@));
        },
        EnvTarget::DevDefaultTeam => {
            assert(key == "GREENTIC_DEV_DEFAULT_TEAM"@);
            lemma_names_dev_default_team(v);
            assert(names_leaf(key, "dev.default_team"@));
        },
        EnvTarget::EventsReconnectEnabled => {
            assert(key == "GREENTIC_EVENTS_RECONNECT_ENABLED"@);
            lemma_names_events_reconnect_enabled(v);
            assert(names_leaf(key, "events.reconnect.enabled"@));
        },
        EnvTarget::EventsReconnectMaxRetries => {
            assert(key == "GREENTIC_EVENTS_RECONNECT_MAX_RETRIES"@);
            lemma_names_events_reconnect_max_retries(v);
            assert(names_leaf(key, "events.reconnect.max_retries"@));
        },
        EnvTarget::EventsBackoffInitialMs => {
            assert(key == "GREENTIC_EVENTS_BACKOFF_INITIAL_MS"@);
            lemma_names_events_backoff_initial_ms(v);
            assert(names_leaf(key, "events.backoff.initial_ms"@));
        },
        EnvTarget::EventsBackoffMaxMs => {
            assert(key == "GREENTIC_EVENTS_BACKOFF_MAX_MS"@);
            lemma_names_events_backoff_max_ms(v);
            assert(names_leaf(key, "events.backoff.max_ms"@));
        },
        EnvTarget::EventsBackoffMultiplier => {
            assert(key == "GREENTIC_EVENTS_BACKOFF_MULTIPLIER"@);
            lemma_names_events_backoff_multiplier(v);
            assert(names_leaf(key, "events.backoff.multiplier"@));
        },
        EnvTarget::EventsBackoffJitter => {
            assert(key == "GREENTIC_EVENTS_BACKOFF_JITTER"@);
            lemma_names_events_backoff_jitter(v);
            assert(names_leaf(key, "events.backoff.jitter"@));
        },
    }
}

} // verus!
