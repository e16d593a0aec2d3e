//! Typed construction of the CLI override layer.
use vstd::prelude::*;
use crate::env::{get_slot, set_slot, with_env_leaf, EnvLeaf, EnvTarget, ServiceSlot};
use crate::layers::{
    empty_admin_endpoints_layer, empty_config_layer, empty_runtime_layer, empty_services_layer, AdminEndpointsLayer,
    ConfigLayer, EnvironmentLayer, RuntimeLayer, ServiceEndpointLayer, ServiceLayer, ServiceTransportLayer, ServicesLayer,
};
use crate::text::owned;
use crate::types::{ConnectionKind, EnvId, ServiceTransportConfig};
use crate::weburl::Url;

verus! {

/// Whether `l` is the transport layer that describes `t`: kind `noop`, `http` with its URL
/// and headers, or `nats` with its URL and subject prefix.
pub open spec fn describes_transport(l: ServiceTransportLayer, t: ServiceTransportConfig) -> bool {
    match t {
        ServiceTransportConfig::Noop => l.kind is Some && l.kind->0@ == "noop"@ && l.url is None && l.headers is None
            && l.subject_prefix is None,
        ServiceTransportConfig::Http { url, headers } => l.kind is Some && l.kind->0@ == "http"@ && l.url == Some(url)
            && l.headers == headers && l.subject_prefix is None,
        ServiceTransportConfig::Nats { url, subject_prefix } => l.kind is Some && l.kind->0@ == "nats"@
            && l.url == Some(url) && l.headers is None && l.subject_prefix == subject_prefix,
    }
}

/// The transport layer that describes `transport`.
pub fn transport_to_layer(transport: ServiceTransportConfig) -> (l: ServiceTransportLayer)
    ensures
        describes_transport(l, transport),
{
    match transport {
        ServiceTransportConfig::Noop => ServiceTransportLayer { kind: Some(owned("noop")), url: None, headers: None, subject_prefix: None },
        ServiceTransportConfig::Http { url, headers } => ServiceTransportLayer {
            kind: Some(owned("http")),
            url: Some(url),
            headers,
            subject_prefix: None,
        },
        ServiceTransportConfig::Nats { url, subject_prefix } => ServiceTransportLayer {
            kind: Some(owned("nats")),
            url: Some(url),
            headers: None,
            subject_prefix,
        },
    }
}

/// Whether `after` is `before` with the service `slot` replaced by a definition whose
/// transport describes `t` and which has no service binding.
pub open spec fn with_slot_transport(before: ConfigLayer, slot: ServiceSlot, t: ServiceTransportConfig, after: ConfigLayer) -> bool {
    let s = before.services.unwrap_or(empty_services_layer());
    let sl = get_slot(after.services.unwrap_or(empty_services_layer()), slot);
    &&& sl is Some
    &&& describes_transport(sl->0.transport, t)
    &&& sl->0.service is None
    &&& after == ConfigLayer { services: Some(set_slot(s, slot, sl)), ..before }
}

/// Overrides given on the command line, built one setting at a time.
#[derive(Debug, Clone, Default)]
pub struct CliOverrides {
    layer: ConfigLayer,
}

impl CliOverrides {
    /// The override layer built so far.
    pub closed spec fn view_layer(&self) -> ConfigLayer {
        self.layer
    }

    /// No overrides.
    pub fn new() -> (r: Self)
        ensures
            r.view_layer() == empty_config_layer(),
    {
        CliOverrides { layer: ConfigLayer::empty() }
    }

    pub fn with_env_id(self, env_id: EnvId) -> (r: Self)
        ensures
            r.view_layer() == with_env_leaf(self.view_layer(), EnvTarget::EnvironmentEnvId, EnvLeaf::Env(Some(env_id))),
    {
        let mut layer = self.layer;
        let mut env = match layer.environment.take() {
            Some(e) => e,
            None => EnvironmentLayer::empty(),
        };
        env.env_id = Some(env_id);
        layer.environment = Some(env);
        CliOverrides { layer }
    }

    pub fn with_connection(self, connection: ConnectionKind) -> (r: Self)
        ensures
            r.view_layer() == with_env_leaf(self.view_layer(), EnvTarget::EnvironmentConnection, EnvLeaf::Connection(Some(connection))),
    {
        let mut layer = self.layer;
        let mut env = match layer.environment.take() {
            Some(e) => e,
            None => EnvironmentLayer::empty(),
        };
        env.connection = Some(connection);
        layer.environment = Some(env);
        CliOverrides { layer }
    }

    pub fn with_region(self, region: String) -> (r: Self)
        ensures
            r.view_layer() == with_env_leaf(self.view_layer(), EnvTarget::EnvironmentRegion, EnvLeaf::Text(Some(region))),
    {
        let mut layer = self.layer;
        let mut env = match layer.environment.take() {
            Some(e) => e,
            None => EnvironmentLayer::empty(),
        };
        env.region = Some(region);
        layer.environment = Some(env);
        CliOverrides { layer }
    }

    pub fn with_services_events_url(self, url: Url) -> (r: Self)
        ensures
            r.view_layer() == with_env_leaf(self.view_layer(), EnvTarget::ServicesEventsUrl, EnvLeaf::Link(Some(url))),
    {
        let mut layer = self.layer;
        let mut services = match layer.services.take() {
            Some(s) => s,
            None => ServicesLayer::empty(),
        };
        let mut events = match services.events.take() {
            Some(e) => e,
            None => ServiceEndpointLayer::empty(),
        };
        events.url = Some(url);
        services.events = Some(events);
        layer.services = Some(services);
        CliOverrides { layer }
    }

    fn with_slot(self, slot: ServiceSlot, transport: ServiceTransportConfig) -> (r: Self)
        ensures
            with_slot_transport(self.view_layer(), slot, transport, r.view_layer()),
    {
        let ghost t = transport;
        let mut layer = self.layer;
        let mut services = match layer.services.take() {
            Some(s) => s,
            None => ServicesLayer::empty(),
        };
        let definition = ServiceLayer { transport: transport_to_layer(transport), service: None };
        match slot {
            ServiceSlot::Runner => services.runner = Some(definition),
            ServiceSlot::Deployer => services.deployer = Some(definition),
            ServiceSlot::EventsTransport => services.events_transport = Some(definition),
            ServiceSlot::Source => services.source = Some(definition),
            ServiceSlot::Publish => services.publish = Some(definition),
            ServiceSlot::Metadata => services.metadata = Some(definition),
            ServiceSlot::OauthBroker => services.oauth_broker = Some(definition),
        }
        layer.services = Some(services);
        CliOverrides { layer }
    }

    pub fn with_services_runner_transport(self, transport: ServiceTransportConfig) -> (r: Self)
        ensures
            with_slot_transport(self.view_layer(), ServiceSlot::Runner, transport, r.view_layer()),
    {
        self.with_slot(ServiceSlot::Runner, transport)
    }

    pub fn with_services_deployer_transport(self, transport: ServiceTransportConfig) -> (r: Self)
        ensures
            with_slot_transport(self.view_layer(), ServiceSlot::Deployer, transport, r.view_layer()),
    {
        self.with_slot(ServiceSlot::Deployer, transport)
    }

    pub fn with_services_events_transport(self, transport: ServiceTransportConfig) -> (r: Self)
        ensures
            with_slot_transport(self.view_layer(), ServiceSlot::EventsTransport, transport, r.view_layer()),
    {
        self.with_slot(ServiceSlot::EventsTransport, transport)
    }

    pub fn with_services_source_transport(self, transport: ServiceTransportConfig) -> (r: Self)
        ensures
            with_slot_transport(self.view_layer(), ServiceSlot::Source, transport, r.view_layer()),
    {
        self.with_slot(ServiceSlot::Source, transport)
    }

    pub fn with_services_publish_transport(self, transport: ServiceTransportConfig) -> (r: Self)
        ensures
            with_slot_transport(self.view_layer(), ServiceSlot::Publish, transport, r.view_layer()),
    {
        self.with_slot(ServiceSlot::Publish, transport)
    }

    pub fn with_services_metadata_transport(self, transport: ServiceTransportConfig) -> (r: Self)
        ensures
            with_slot_transport(self.view_layer(), ServiceSlot::Metadata, transport, r.view_layer()),
    {
        self.with_slot(ServiceSlot::Metadata, transport)
    }

    pub fn with_services_oauth_broker_transport(self, transport: ServiceTransportConfig) -> (r: Self)
        ensures
            with_slot_transport(self.view_layer(), ServiceSlot::OauthBroker, transport, r.view_layer()),
    {
        self.with_slot(ServiceSlot::OauthBroker, transport)
    }

    pub fn with_runtime_admin_secrets_explain_enabled(self, enabled: bool) -> (r: Self)
        ensures
            r.view_layer() == with_env_leaf(
                self.view_layer(),
                EnvTarget::RuntimeAdminSecretsExplainEnabled,
                EnvLeaf::Flag(Some(enabled)),
            ),
    {
        let mut layer = self.layer;
        let mut runtime = match layer.runtime.take() {
            Some(r) => r,
            None => RuntimeLayer::empty(),
        };
        let mut admin = match runtime.admin_endpoints.take() {
            Some(a) => a,
            None => AdminEndpointsLayer::empty(),
        };
        admin.secrets_explain_enabled = Some(enabled);
        runtime.admin_endpoints = Some(admin);
        layer.runtime = Some(runtime);
        CliOverrides { layer }
    }

    /// The override layer.
    pub fn into_layer(self) -> (r: ConfigLayer)
        ensures
            r == self.view_layer(),
    {
        self.layer
    }
}

impl From<CliOverrides> for ConfigLayer {
    fn from(value: CliOverrides) -> (r: ConfigLayer) {
        value.layer
    }
}

impl vstd::std_specs::convert::FromSpecImpl<CliOverrides> for ConfigLayer {
    open spec fn obeys_from_spec() -> bool {
        true
    }

    open spec fn from_spec(v: CliOverrides) -> ConfigLayer {
        v.view_layer()
    }
}

} // verus!
