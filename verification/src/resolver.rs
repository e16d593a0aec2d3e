//! Resolving a configuration from its layers, in precedence order
//! `CLI > environment > project > user > defaults`.
use vstd::prelude::*;
use crate::defaults::{default_layer, is_default_layer};
use crate::explain::{explain_detailed_lines, explain_lines, join_lines};
use crate::env::{env_applies, env_layer_from, env_warnings, EnvVar};
use crate::layers::{empty_config_layer, keys_config_layer, overlay_config_layer, ConfigLayer};
use crate::merge::{record_of, MergeState, MergeStateDetailed, ProvenanceCtx};
use crate::overrides::CliOverrides;
use crate::paths::{default_layout, path_is_absolute, DefaultPaths};
use crate::provenance::{stamp_keys, ConfigSource, ProvenanceMap, ProvenanceMapDetailed, ProvenanceRecord};
use crate::resolve::{finalize_error, finalize_warnings, finalized, strings_view, MergeError};
use crate::text::owned;
use crate::types::GreenticConfig;
use crate::validate::{validate_config_with_overrides, validation, ValidationError};

verus! {

/// A resolved configuration with the source of each leaf.
#[derive(Debug, Clone)]
pub struct ResolvedConfig {
    pub config: GreenticConfig,
    pub provenance: ProvenanceMap,
    pub warnings: Vec<String>,
}

/// A resolved configuration with the source and origin of each leaf.
#[derive(Debug, Clone)]
pub struct ResolvedConfigDetailed {
    pub config: GreenticConfig,
    pub provenance: ProvenanceMapDetailed,
    pub warnings: Vec<String>,
}

impl ResolvedConfig {
    /// The text report on this configuration, its provenance and its warnings.
    pub fn explain(&self) -> (r: String)
        ensures
            r@ == join_lines(explain_lines(self.config, self.provenance@, strings_view(self.warnings@))),
    {
        crate::explain::explain(&self.config, &self.provenance, self.warnings.as_slice())
    }
}

impl ResolvedConfigDetailed {
    /// The detailed text report on this configuration, its provenance and its warnings.
    pub fn explain(&self) -> (r: String)
        ensures
            r@ == join_lines(explain_detailed_lines(self.config, self.provenance@, strings_view(self.warnings@))),
    {
        crate::explain::explain_detailed(&self.config, &self.provenance, self.warnings.as_slice())
    }
}

/// Why resolution failed.
#[derive(Debug, Clone)]
pub enum ResolveError {
    Merge(MergeError),
    Validation(ValidationError),
}

/// `base` with every layer of `layers` applied in order.
pub open spec fn fold_layers<V>(base: ConfigLayer, layers: Seq<(ConfigLayer, V)>) -> ConfigLayer
    decreases layers.len(),
{
    if layers.len() == 0 {
        base
    } else {
        overlay_config_layer(fold_layers(base, layers.drop_last()), layers.last().0)
    }
}

/// The provenance recorded by applying `layers` in order, each leaf with the value of the
/// last layer that sets it.
pub open spec fn fold_sources<V>(m: Map<Seq<char>, V>, layers: Seq<(ConfigLayer, V)>) -> Map<Seq<char>, V>
    decreases layers.len(),
{
    if layers.len() == 0 {
        m
    } else {
        stamp_keys(fold_sources(m, layers.drop_last()), keys_config_layer(layers.last().0, ""@), layers.last().1)
    }
}

/// Every leaf that the last layer (the CLI overrides, when there are any) sets has that
/// layer's value in the merge of all layers.
pub proof fn lemma_last_layer_wins<V>(base: ConfigLayer, layers: Seq<(ConfigLayer, V)>)
    requires
        layers.len() > 0,
    ensures
        crate::layers::agrees_config_layer(fold_layers(base, layers), layers.last().0),
{
    crate::layers::lemma_later_layer_wins(fold_layers(base, layers.drop_last()), layers.last().0);
}

/// The provenance of a leaf is that of the last layer that sets it.
pub proof fn lemma_last_setter_is_recorded<V>(m: Map<Seq<char>, V>, layers: Seq<(ConfigLayer, V)>, i: int, k: Seq<char>)
    requires
        0 <= i < layers.len(),
        keys_config_layer(layers[i].0, ""@).contains(k),
        forall|j: int| i < j < layers.len() ==> !keys_config_layer(#[trigger] layers[j].0, ""@).contains(k),
    ensures
        fold_sources(m, layers).dom().contains(k),
        fold_sources(m, layers)[k] == layers[i].1,
    decreases layers.len(),
{
    let n = layers.len() - 1;
    let rest = layers.drop_last();
    crate::provenance::lemma_stamp_keys_lookup(fold_sources(m, rest), keys_config_layer(layers[n].0, ""@), layers[n].1, k);
    if i < n {
        assert forall|j: int| i < j < rest.len() implies !keys_config_layer(#[trigger] rest[j].0, ""@).contains(k) by {
            assert(rest[j] == layers[j]);
        }
        assert(rest[i] == layers[i]);
        lemma_last_setter_is_recorded(m, rest, i, k);
    }
}

/// A leaf that no layer sets has the provenance it started with, if any.
pub proof fn lemma_unset_leaf_keeps_provenance<V>(m: Map<Seq<char>, V>, layers: Seq<(ConfigLayer, V)>, k: Seq<char>)
    requires
        forall|j: int| 0 <= j < layers.len() ==> !keys_config_layer(#[trigger] layers[j].0, ""@).contains(k),
    ensures
        fold_sources(m, layers).dom().contains(k) == m.dom().contains(k),
        m.dom().contains(k) ==> fold_sources(m, layers)[k] == m[k],
    decreases layers.len(),
{
    if layers.len() > 0 {
        let n = layers.len() - 1;
        let rest = layers.drop_last();
        assert forall|j: int| 0 <= j < rest.len() implies !keys_config_layer(#[trigger] rest[j].0, ""@).contains(k) by {
            assert(rest[j] == layers[j]);
        }
        lemma_unset_leaf_keeps_provenance(m, rest, k);
        assert(!keys_config_layer(layers[n].0, ""@).contains(k));
        crate::provenance::lemma_stamp_keys_lookup(fold_sources(m, rest), keys_config_layer(layers[n].0, ""@), layers[n].1, k);
    }
}

/// The defaults alone resolve without error, and under an absolute project root the result
/// passes validation with no permission granted.
pub proof fn lemma_defaults_are_valid(root: Seq<char>, d: DefaultPaths, dl: ConfigLayer, c: GreenticConfig)
    requires
        path_is_absolute(root),
        default_layout(d, root),
        is_default_layer(dl, root, d),
        finalized(dl, d, c),
    ensures
        finalize_error(dl) is None,
        validation(c, false, false) is Ok,
{
    crate::resolve::lemma_resolved_paths_absolute(dl, d, c);
    crate::domain::lemma_default_base_domain_valid();
    assert(crate::validate::first_relative_dir(c) is None);
    assert(crate::validate::packs_failure(c, false) is None);
    assert(crate::validate::endpoint_failure(c, false) is None);
}

/// The paths of the leaves that the layers after the `i`-th set.
pub open spec fn later_keys<V>(layers: Seq<(ConfigLayer, V)>, i: int) -> Set<Seq<char>>
    decreases layers.len(),
{
    if layers.len() == 0 || layers.len() <= i + 1 {
        Set::empty()
    } else {
        later_keys(layers.drop_last(), i).union(keys_config_layer(layers.last().0, ""@))
    }
}

proof fn lemma_later_keys<V>(layers: Seq<(ConfigLayer, V)>, i: int, k: Seq<char>)
    requires
        0 <= i,
        !later_keys(layers, i).contains(k),
    ensures
        forall|j: int| i < j < layers.len() ==> !keys_config_layer(#[trigger] layers[j].0, ""@).contains(k),
    decreases layers.len(),
{
    if layers.len() > i + 1 {
        let rest = layers.drop_last();
        lemma_later_keys(rest, i, k);
        assert forall|j: int| i < j < layers.len() implies !keys_config_layer(#[trigger] layers[j].0, ""@).contains(k) by {
            if j < layers.len() - 1 {
                assert(rest[j] == layers[j]);
            }
        }
    }
}

/// Each leaf of the merge of `layers` holds the value of the last layer that sets it: the
/// merge keeps every leaf that the `i`-th layer sets and no later layer sets.
pub proof fn lemma_highest_layer_wins<V>(base: ConfigLayer, layers: Seq<(ConfigLayer, V)>, i: int)
    requires
        0 <= i < layers.len(),
    ensures
        crate::precedence::kept(fold_layers(base, layers), layers[i].0, later_keys(layers, i)),
    decreases layers.len(),
{
    let n = layers.len() - 1;
    let rest = layers.drop_last();
    if i == n {
        crate::precedence::lemma_kept_last(fold_layers(base, rest), layers[n].0, later_keys(layers, i));
    } else {
        lemma_highest_layer_wins(base, rest, i);
        assert(rest[i] == layers[i]);
        crate::precedence::lemma_kept_step(fold_layers(base, rest), layers[i].0, layers[n].0, later_keys(rest, i));
    }
}

/// In a successful resolution each leaf of the merged layer holds the value of the highest
/// layer that sets it, and the source recorded for it is that layer's.
pub proof fn lemma_resolution_precedence(
    layers: Seq<(ConfigLayer, ConfigSource)>,
    d: DefaultPaths,
    allow_dev: bool,
    allow_network: bool,
    extra: Seq<Seq<char>>,
    r: Result<ResolvedConfig, ResolveError>,
    i: int,
    k: Seq<char>,
)
    requires
        resolved_from(layers, d, allow_dev, allow_network, extra, r),
        r is Ok,
        0 <= i < layers.len(),
    ensures
        finalized(fold_layers(empty_config_layer(), layers), d, r->Ok_0.config),
        crate::precedence::kept(fold_layers(empty_config_layer(), layers), layers[i].0, later_keys(layers, i)),
        keys_config_layer(layers[i].0, ""@).contains(k) && !later_keys(layers, i).contains(k)
            ==> r->Ok_0.provenance@.dom().contains(k) && r->Ok_0.provenance@[k] == layers[i].1,
{
    lemma_highest_layer_wins(empty_config_layer(), layers, i);
    if keys_config_layer(layers[i].0, ""@).contains(k) && !later_keys(layers, i).contains(k) {
        lemma_later_keys(layers, i, k);
        lemma_last_setter_is_recorded(Map::<Seq<char>, ConfigSource>::empty(), layers, i, k);
    }
}

/// Whether `r` is what resolving the merge of `layers` gives, with `d` as the default
/// layout and `extra` appended to the warnings.
pub open spec fn resolved_from(
    layers: Seq<(ConfigLayer, ConfigSource)>,
    d: DefaultPaths,
    allow_dev: bool,
    allow_network: bool,
    extra: Seq<Seq<char>>,
    r: Result<ResolvedConfig, ResolveError>,
) -> bool {
    let m = fold_layers(empty_config_layer(), layers);
    match r {
        Ok(rc) => finalize_error(m) is None && finalized(m, d, rc.config)
            && rc.provenance@ == fold_sources(Map::empty(), layers)
            && validation(rc.config, allow_dev, allow_network) is Ok
            && strings_view(rc.warnings@) == validation(rc.config, allow_dev, allow_network)->Ok_0 + finalize_warnings(m) + extra,
        Err(ResolveError::Merge(e)) => finalize_error(m) == Some(e),
        Err(ResolveError::Validation(e)) => finalize_error(m) is None
            && exists|c: GreenticConfig| finalized(m, d, c) && validation(c, allow_dev, allow_network) == Err::<Seq<Seq<char>>, crate::validate::ValidationFailure>(e@),
    }
}

/// Merges `layers` in order, resolves the merge with `defaults` as the default layout and
/// validates it; `extra_warnings` go after the validation and resolution warnings.
pub fn resolve_layers(
    defaults: &DefaultPaths,
    layers: Vec<(ConfigLayer, ConfigSource)>,
    allow_dev: bool,
    allow_network: bool,
    extra_warnings: Vec<String>,
) -> (r: Result<ResolvedConfig, ResolveError>)
    ensures
        resolved_from(layers@, *defaults, allow_dev, allow_network, strings_view(extra_warnings@), r),
{
    let ghost all = layers@;
    let mut merged = MergeState::new(ConfigLayer::empty(), ConfigSource::Default);
    proof {
        assert(keys_config_layer(empty_config_layer(), ""@) =~= Set::<Seq<char>>::empty());
        crate::provenance::lemma_stamp_empty(Map::<Seq<char>, ConfigSource>::empty(), ConfigSource::Default);
        assert(merged.sources() == Map::<Seq<char>, ConfigSource>::empty());
        assert(all.take(0) =~= Seq::<(ConfigLayer, ConfigSource)>::empty());
    }
    let mut rest = layers;
    while rest.len() > 0
        invariant
            rest@.len() <= all.len(),
            rest@ == all.skip(all.len() - rest@.len()),
            merged.merged() == fold_layers(empty_config_layer(), all.take(all.len() - rest@.len())),
            merged.sources() == fold_sources(Map::empty(), all.take(all.len() - rest@.len())),
            merged.pending_warnings().len() == 0,
        decreases rest.len(),
    {
        let ghost k = all.len() - rest@.len();
        let (layer, source) = rest.remove(0);
        merged.apply(layer, source);
        proof {
            assert(all.take(k + 1).drop_last() =~= all.take(k));
            assert(all.take(k + 1).last() == all[k]);
            assert(rest@ =~= all.skip(k + 1));
        }
    }
    assert(all.take(all.len() as int) =~= all);
    let ghost m = merged.merged();
    match merged.finalize(defaults) {
        Err(e) => Err(ResolveError::Merge(e)),
        Ok((config, provenance, merge_warnings)) => {
            match validate_config_with_overrides(&config, allow_dev, allow_network) {
                Err(e) => {
                    assert(finalized(m, *defaults, config));
                    Err(ResolveError::Validation(e))
                },
                Ok(validation_warnings) => {
                    let mut warnings = validation_warnings;
                    let mut merge_warnings = merge_warnings;
                    let mut extra = extra_warnings;
                    warnings.append(&mut merge_warnings);
                    warnings.append(&mut extra);
                    proof {
                        assert(strings_view(warnings@) =~= validation(config, allow_dev, allow_network)->Ok_0
                            + finalize_warnings(m) + strings_view(extra_warnings@));
                    }
                    Ok(ResolvedConfig { config, provenance, warnings })
                },
            }
        },
    }
}

/// The layers with each context replaced by the provenance record it stands for.
pub open spec fn with_records(layers: Seq<(ConfigLayer, ProvenanceCtx)>) -> Seq<(ConfigLayer, ProvenanceRecord)> {
    layers.map_values(|p: (ConfigLayer, ProvenanceCtx)| (p.0, record_of(p.1)))
}

/// Whether `r` is what resolving the merge of `layers` gives, with detailed provenance.
pub open spec fn resolved_detailed_from(
    layers: Seq<(ConfigLayer, ProvenanceCtx)>,
    d: DefaultPaths,
    allow_dev: bool,
    allow_network: bool,
    extra: Seq<Seq<char>>,
    r: Result<ResolvedConfigDetailed, ResolveError>,
) -> bool {
    let m = fold_layers(empty_config_layer(), layers);
    match r {
        Ok(rc) => finalize_error(m) is None && finalized(m, d, rc.config)
            && rc.provenance@ == fold_sources(Map::empty(), with_records(layers))
            && validation(rc.config, allow_dev, allow_network) is Ok
            && strings_view(rc.warnings@) == validation(rc.config, allow_dev, allow_network)->Ok_0 + finalize_warnings(m) + extra,
        Err(ResolveError::Merge(e)) => finalize_error(m) == Some(e),
        Err(ResolveError::Validation(e)) => finalize_error(m) is None
            && exists|c: GreenticConfig| finalized(m, d, c) && validation(c, allow_dev, allow_network) == Err::<Seq<Seq<char>>, crate::validate::ValidationFailure>(e@),
    }
}

proof fn lemma_fold_standard_layers(dl: ConfigLayer, user: ConfigLayer, project: ConfigLayer, env: ConfigLayer, cli: Option<ConfigLayer>)
    ensures
        fold_layers(empty_config_layer(), standard_layers(dl, user, project, env, cli)) == overlay_config_layer(
            overlay_config_layer(overlay_config_layer(overlay_config_layer(dl, user), project), env),
            cli.unwrap_or(empty_config_layer()),
        ),
        standard_layers(dl, user, project, env, cli)[3] == (env, ConfigSource::Environment),
        cli is None ==> standard_layers(dl, user, project, env, cli).len() == 4,
{
    let e = empty_config_layer();
    let s1 = seq![(dl, ConfigSource::Default)];
    let s2 = s1.push((user, ConfigSource::User));
    let s3 = s2.push((project, ConfigSource::Project));
    let s4 = s3.push((env, ConfigSource::Environment));
    assert(s1.drop_last() =~= Seq::<(ConfigLayer, ConfigSource)>::empty());
    assert(s2.drop_last() =~= s1);
    assert(s3.drop_last() =~= s2);
    assert(s4.drop_last() =~= s3);
    crate::layers::lemma_merge_identity(dl);
    let z = Seq::<(ConfigLayer, ConfigSource)>::empty();
    assert(fold_layers(e, z) == e);
    assert(s1.last().0 == dl);
    assert(fold_layers(e, s1) == overlay_config_layer(fold_layers(e, s1.drop_last()), s1.last().0));
    assert(fold_layers(e, s1) == dl);
    assert(fold_layers(e, s2) == overlay_config_layer(fold_layers(e, s2.drop_last()), s2.last().0));
    assert(fold_layers(e, s3) == overlay_config_layer(fold_layers(e, s3.drop_last()), s3.last().0));
    assert(fold_layers(e, s4) == overlay_config_layer(fold_layers(e, s4.drop_last()), s4.last().0));
    assert(fold_layers(e, s4) == overlay_config_layer(overlay_config_layer(overlay_config_layer(dl, user), project), env));
    let layers = standard_layers(dl, user, project, env, cli);
    match cli {
        Some(c) => {
            assert(layers =~= s4.push((c, ConfigSource::Cli)));
            assert(layers.drop_last() =~= s4);
        },
        None => {
            assert(layers =~= s4);
            crate::layers::lemma_merge_identity(fold_layers(e, s4));
        },
    }
}

proof fn lemma_env_id_key(env: ConfigLayer)
    requires
        env.environment is Some,
        env.environment->0.env_id is Some,
    ensures
        keys_config_layer(env, ""@).contains("environment.env_id"@),
{
    reveal_strlit("");
    reveal_strlit("environment.");
    reveal_strlit("env_id");
    reveal_strlit("environment.env_id");
    assert(""@ + "environment."@ + "env_id"@ =~= "environment.env_id"@);
}

/// The precedence of a resolution: its configuration is the finalization of the defaults
/// overridden by the user layer, then the project layer, then the environment layer, then the
/// CLI overrides. So an environment identifier set by the environment and not by the CLI wins
/// over the project's, and with no CLI overrides it is recorded as coming from the
/// environment.
pub proof fn lemma_resolve_precedence(
    dl: ConfigLayer,
    user: ConfigLayer,
    project: ConfigLayer,
    env: ConfigLayer,
    cli: Option<ConfigLayer>,
    d: DefaultPaths,
    allow_dev: bool,
    allow_network: bool,
    extra: Seq<Seq<char>>,
    r: Result<ResolvedConfig, ResolveError>,
)
    requires
        resolved_from(standard_layers(dl, user, project, env, cli), d, allow_dev, allow_network, extra, r),
        r is Ok,
    ensures
        finalized(
            overlay_config_layer(
                overlay_config_layer(overlay_config_layer(overlay_config_layer(dl, user), project), env),
                cli.unwrap_or(empty_config_layer()),
            ),
            d,
            r->Ok_0.config,
        ),
        env.environment is Some && env.environment->0.env_id is Some
            && (cli is None || cli->0.environment is None || cli->0.environment->0.env_id is None)
            ==> r->Ok_0.config.environment.env_id == env.environment->0.env_id->0,
        env.environment is Some && env.environment->0.env_id is Some && cli is None
            ==> r->Ok_0.provenance@.dom().contains("environment.env_id"@)
                && r->Ok_0.provenance@["environment.env_id"@] == ConfigSource::Environment,
{
    lemma_fold_standard_layers(dl, user, project, env, cli);
    if env.environment is Some && env.environment->0.env_id is Some && cli is None {
        lemma_env_id_key(env);
        lemma_last_setter_is_recorded(
            Map::<Seq<char>, ConfigSource>::empty(),
            standard_layers(dl, user, project, env, cli),
            3,
            "environment.env_id"@,
        );
    }
}

/// The layers of a detailed resolution with their sources only.
pub open spec fn plain_layers(layers: Seq<(ConfigLayer, ProvenanceCtx)>) -> Seq<(ConfigLayer, ConfigSource)> {
    layers.map_values(|p: (ConfigLayer, ProvenanceCtx)| (p.0, p.1.source))
}

proof fn lemma_fold_same_layers<V, W>(base: ConfigLayer, x: Seq<(ConfigLayer, V)>, y: Seq<(ConfigLayer, W)>)
    requires
        x.len() == y.len(),
        forall|i: int| 0 <= i < x.len() ==> (#[trigger] x[i]).0 == y[i].0,
    ensures
        fold_layers(base, x) == fold_layers(base, y),
    decreases x.len(),
{
    if x.len() > 0 {
        lemma_fold_same_layers(base, x.drop_last(), y.drop_last());
    }
}

proof fn lemma_fold_sources_match(layers: Seq<(ConfigLayer, ProvenanceCtx)>, k: Seq<char>)
    ensures
        fold_sources(Map::empty(), with_records(layers)).dom().contains(k)
            == fold_sources(Map::empty(), plain_layers(layers)).dom().contains(k),
        fold_sources(Map::empty(), plain_layers(layers)).dom().contains(k)
            ==> fold_sources(Map::empty(), with_records(layers))[k].source == fold_sources(Map::empty(), plain_layers(layers))[k],
    decreases layers.len(),
{
    let a = with_records(layers);
    let b = plain_layers(layers);
    if layers.len() > 0 {
        let rest = layers.drop_last();
        assert(with_records(rest) =~= a.drop_last());
        assert(plain_layers(rest) =~= b.drop_last());
        lemma_fold_sources_match(rest, k);
        crate::provenance::lemma_stamp_keys_lookup(
            fold_sources(Map::empty(), a.drop_last()), keys_config_layer(a.last().0, ""@), a.last().1, k);
        crate::provenance::lemma_stamp_keys_lookup(
            fold_sources(Map::empty(), b.drop_last()), keys_config_layer(b.last().0, ""@), b.last().1, k);
    }
}

/// Two configurations resolved from the same merge validate alike.
proof fn lemma_validation_determined(m: ConfigLayer, d: DefaultPaths, c1: GreenticConfig, c2: GreenticConfig, allow_dev: bool, allow_network: bool)
    requires
        finalized(m, d, c1),
        finalized(m, d, c2),
    ensures
        validation(c1, allow_dev, allow_network) == validation(c2, allow_dev, allow_network),
{
    lemma_same_finalized_parts(m, d, c1, c2);
    lemma_same_packs_failure(m, d, c1, c2, allow_network);
    assert(crate::validate::endpoint_failure(c1, allow_network) == crate::validate::endpoint_failure(c2, allow_network));
    assert(crate::validate::dev_warnings(c1) == crate::validate::dev_warnings(c2));
    assert(crate::validate::telemetry_warnings(c1, allow_network) == crate::validate::telemetry_warnings(c2, allow_network));
    assert(crate::validate::transport_warnings(c1, allow_network) == crate::validate::transport_warnings(c2, allow_network));
}

proof fn lemma_same_finalized_parts(m: ConfigLayer, d: DefaultPaths, c1: GreenticConfig, c2: GreenticConfig)
    requires
        finalized(m, d, c1),
        finalized(m, d, c2),
    ensures
        c1.environment.env_id.0@ == c2.environment.env_id.0@,
        c1.environment.connection == c2.environment.connection,
        c1.dev is Some == c2.dev is Some,
        c1.dev is Some ==> c1.dev->0.default_team == c2.dev->0.default_team,
        crate::validate::first_relative_dir(c1) == crate::validate::first_relative_dir(c2),
        c1.paths.cache_dir@ == c2.paths.cache_dir@,
        c1.paths.state_dir@ == c2.paths.state_dir@,
        c1.telemetry == c2.telemetry,
        c1.services == c2.services,
        c1.events == c2.events,
        c1.deployer == c2.deployer,
        c1.packs is Some && c2.packs is Some,
{
}

proof fn lemma_same_packs_failure(m: ConfigLayer, d: DefaultPaths, c1: GreenticConfig, c2: GreenticConfig, allow_network: bool)
    requires
        finalized(m, d, c1),
        finalized(m, d, c2),
        c1.environment.connection == c2.environment.connection,
        c1.paths.cache_dir@ == c2.paths.cache_dir@,
        c1.paths.state_dir@ == c2.paths.state_dir@,
    ensures
        crate::validate::packs_failure(c1, allow_network) == crate::validate::packs_failure(c2, allow_network),
{
    let p1 = c1.packs->0;
    let p2 = c2.packs->0;
    assert(p1.cache_dir@ == p2.cache_dir@);
    assert(p1.source is LocalIndex == p2.source is LocalIndex);
    if p1.source is LocalIndex {
        assert(p1.source->LocalIndex_path@ == p2.source->LocalIndex_path@);
    }
}

/// A detailed resolution and a plain resolution of the same layers with the same sources
/// agree: both succeed or fail alike, on success they resolve the same merge with the same
/// warnings, and the detailed provenance holds the plain provenance's paths with the same
/// sources.
pub proof fn lemma_detailed_matches_plain(
    layers: Seq<(ConfigLayer, ProvenanceCtx)>,
    d: DefaultPaths,
    allow_dev: bool,
    allow_network: bool,
    extra: Seq<Seq<char>>,
    r1: Result<ResolvedConfig, ResolveError>,
    r2: Result<ResolvedConfigDetailed, ResolveError>,
)
    requires
        resolved_from(plain_layers(layers), d, allow_dev, allow_network, extra, r1),
        resolved_detailed_from(layers, d, allow_dev, allow_network, extra, r2),
    ensures
        r1 is Ok == r2 is Ok,
        r1 is Ok ==> {
            let m = fold_layers(empty_config_layer(), layers);
            &&& finalized(m, d, r1->Ok_0.config) && finalized(m, d, r2->Ok_0.config)
            &&& strings_view(r1->Ok_0.warnings@) == strings_view(r2->Ok_0.warnings@)
            &&& r1->Ok_0.provenance@.dom() == r2->Ok_0.provenance@.dom()
            &&& forall|k: Seq<char>| #[trigger] r1->Ok_0.provenance@.dom().contains(k)
                ==> r2->Ok_0.provenance@[k].source == r1->Ok_0.provenance@[k]
        },
{
    let p = plain_layers(layers);
    lemma_fold_same_layers(empty_config_layer(), layers, p);
    let m = fold_layers(empty_config_layer(), layers);
    if r1 is Ok && r2 is Ok {
        lemma_validation_determined(m, d, r1->Ok_0.config, r2->Ok_0.config, allow_dev, allow_network);
        assert forall|k: Seq<char>| r1->Ok_0.provenance@.dom().contains(k) == r2->Ok_0.provenance@.dom().contains(k) by {
            lemma_fold_sources_match(layers, k);
        }
        assert(r1->Ok_0.provenance@.dom() =~= r2->Ok_0.provenance@.dom());
        assert forall|k: Seq<char>| #[trigger] r1->Ok_0.provenance@.dom().contains(k)
            implies r2->Ok_0.provenance@[k].source == r1->Ok_0.provenance@[k] by {
            lemma_fold_sources_match(layers, k);
        }
    } else if r1 is Ok {
        if let Err(ResolveError::Validation(e)) = r2 {
            let c = choose|c: GreenticConfig| finalized(m, d, c) && validation(c, allow_dev, allow_network) == Err::<Seq<Seq<char>>, crate::validate::ValidationFailure>(e@);
            lemma_validation_determined(m, d, r1->Ok_0.config, c, allow_dev, allow_network);
        }
    } else if r2 is Ok {
        if let Err(ResolveError::Validation(e)) = r1 {
            let c = choose|c: GreenticConfig| finalized(m, d, c) && validation(c, allow_dev, allow_network) == Err::<Seq<Seq<char>>, crate::validate::ValidationFailure>(e@);
            lemma_validation_determined(m, d, r2->Ok_0.config, c, allow_dev, allow_network);
        }
    }
}

/// Merges `layers` in order with detailed provenance, resolves the merge with `defaults` as
/// the default layout and validates it; `extra_warnings` go after the validation and
/// resolution warnings.
pub fn resolve_layers_detailed(
    defaults: &DefaultPaths,
    layers: Vec<(ConfigLayer, ProvenanceCtx)>,
    allow_dev: bool,
    allow_network: bool,
    extra_warnings: Vec<String>,
) -> (r: Result<ResolvedConfigDetailed, ResolveError>)
    ensures
        resolved_detailed_from(layers@, *defaults, allow_dev, allow_network, strings_view(extra_warnings@), r),
{
    let ghost all = layers@;
    let ghost recs = with_records(all);
    let mut merged = MergeStateDetailed::new(ConfigLayer::empty(), ProvenanceCtx::new(ConfigSource::Default, None));
    proof {
        assert(keys_config_layer(empty_config_layer(), ""@) =~= Set::<Seq<char>>::empty());
        crate::provenance::lemma_stamp_empty(
            Map::<Seq<char>, ProvenanceRecord>::empty(),
            record_of(ProvenanceCtx { source: ConfigSource::Default, origin: None }),
        );
        assert(all.take(0) =~= Seq::<(ConfigLayer, ProvenanceCtx)>::empty());
        assert(recs.take(0) =~= Seq::<(ConfigLayer, ProvenanceRecord)>::empty());
    }
    let mut rest = layers;
    while rest.len() > 0
        invariant
            rest@.len() <= all.len(),
            recs == with_records(all),
            rest@ == all.skip(all.len() - rest@.len()),
            merged.merged() == fold_layers(empty_config_layer(), all.take(all.len() - rest@.len())),
            merged.records() == fold_sources(Map::empty(), recs.take(all.len() - rest@.len())),
            merged.pending_warnings().len() == 0,
        decreases rest.len(),
    {
        let ghost k = all.len() - rest@.len();
        let (layer, ctx) = rest.remove(0);
        merged.apply(layer, ctx);
        proof {
            assert(all.take(k + 1).drop_last() =~= all.take(k));
            assert(recs.take(k + 1).drop_last() =~= recs.take(k));
            assert(rest@ =~= all.skip(k + 1));
        }
    }
    assert(all.take(all.len() as int) =~= all);
    assert(recs.take(all.len() as int) =~= recs);
    let ghost m = merged.merged();
    match merged.finalize_detailed(defaults) {
        Err(e) => Err(ResolveError::Merge(e)),
        Ok((config, provenance, merge_warnings)) => {
            match validate_config_with_overrides(&config, allow_dev, allow_network) {
                Err(e) => {
                    assert(finalized(m, *defaults, config));
                    Err(ResolveError::Validation(e))
                },
                Ok(validation_warnings) => {
                    let mut warnings = validation_warnings;
                    let mut merge_warnings = merge_warnings;
                    let mut extra = extra_warnings;
                    warnings.append(&mut merge_warnings);
                    warnings.append(&mut extra);
                    proof {
                        assert(strings_view(warnings@) =~= validation(config, allow_dev, allow_network)->Ok_0
                            + finalize_warnings(m) + strings_view(extra_warnings@));
                    }
                    Ok(ResolvedConfigDetailed { config, provenance, warnings })
                },
            }
        },
    }
}

/// Resolves configuration for a project from defaults, user and project files, environment
/// variables and CLI overrides. Reading those sources is left to the caller; this type holds
/// the settings of a resolution and merges what was read.
#[derive(Debug, Clone)]
pub struct ConfigResolver {
    project_root: Option<String>,
    config_path: Option<String>,
    cli_overrides: Option<ConfigLayer>,
    allow_dev: bool,
    allow_network: bool,
}

/// The settings of a resolver, as plain values.
pub struct ResolverSettings {
    pub project_root: Option<Seq<char>>,
    pub config_path: Option<Seq<char>>,
    pub cli_overrides: Option<ConfigLayer>,
    pub allow_dev: bool,
    pub allow_network: bool,
}

/// The layers, in precedence order, of a resolution with the given defaults, user, project,
/// environment and CLI layers.
pub open spec fn standard_layers(
    defaults: ConfigLayer,
    user: ConfigLayer,
    project: ConfigLayer,
    env: ConfigLayer,
    cli: Option<ConfigLayer>,
) -> Seq<(ConfigLayer, ConfigSource)> {
    seq![
        (defaults, ConfigSource::Default),
        (user, ConfigSource::User),
        (project, ConfigSource::Project),
        (env, ConfigSource::Environment),
    ] + match cli {
        Some(c) => seq![(c, ConfigSource::Cli)],
        None => Seq::empty(),
    }
}

impl ConfigResolver {
    pub closed spec fn settings(&self) -> ResolverSettings {
        ResolverSettings {
            project_root: crate::weburl::opt_view(self.project_root),
            config_path: crate::weburl::opt_view(self.config_path),
            cli_overrides: self.cli_overrides,
            allow_dev: self.allow_dev,
            allow_network: self.allow_network,
        }
    }

    /// A resolver with no explicit project root, config file or overrides, that allows
    /// neither dev settings nor network access in offline environments.
    pub fn new() -> (r: Self)
        ensures
            r.settings().project_root is None,
            r.settings().config_path is None,
            r.settings().cli_overrides is None,
            !r.settings().allow_dev,
            !r.settings().allow_network,
    {
        ConfigResolver { project_root: None, config_path: None, cli_overrides: None, allow_dev: false, allow_network: false }
    }

    pub fn with_project_root(self, root: String) -> (r: Self)
        ensures
            r.settings() == (ResolverSettings { project_root: Some(root@), ..self.settings() }),
    {
        ConfigResolver { project_root: Some(root), ..self }
    }

    /// Sets the project root when one is given.
    pub fn with_project_root_opt(self, root: Option<String>) -> (r: Self)
        ensures
            r.settings() == (match root {
                Some(x) => ResolverSettings { project_root: Some(x@), ..self.settings() },
                None => self.settings(),
            }),
    {
        match root {
            Some(x) => self.with_project_root(x),
            None => self,
        }
    }

    /// Uses an explicit config file in place of project discovery; it must exist.
    pub fn with_config_path(self, path: String) -> (r: Self)
        ensures
            r.settings() == (ResolverSettings { config_path: Some(path@), ..self.settings() }),
    {
        ConfigResolver { config_path: Some(path), ..self }
    }

    pub fn with_cli_overrides(self, layer: ConfigLayer) -> (r: Self)
        ensures
            r.settings() == (ResolverSettings { cli_overrides: Some(layer), ..self.settings() }),
    {
        ConfigResolver { cli_overrides: Some(layer), ..self }
    }

    pub fn with_cli_overrides_typed(self, overrides: CliOverrides) -> (r: Self)
        ensures
            r.settings() == (ResolverSettings { cli_overrides: Some(overrides.view_layer()), ..self.settings() }),
    {
        self.with_cli_overrides(overrides.into_layer())
    }

    pub fn with_allow_dev(self, allow: bool) -> (r: Self)
        ensures
            r.settings() == (ResolverSettings { allow_dev: allow, ..self.settings() }),
    {
        ConfigResolver { allow_dev: allow, ..self }
    }

    pub fn allow_dev(self, allow: bool) -> (r: Self)
        ensures
            r.settings() == (ResolverSettings { allow_dev: allow, ..self.settings() }),
    {
        self.with_allow_dev(allow)
    }

    pub fn with_allow_network(self, allow: bool) -> (r: Self)
        ensures
            r.settings() == (ResolverSettings { allow_network: allow, ..self.settings() }),
    {
        ConfigResolver { allow_network: allow, ..self }
    }

    /// The explicit project root, if any.
    pub fn project_root(&self) -> (r: Option<&String>)
        ensures
            crate::weburl::opt_view(match r {
                Some(x) => Some(*x),
                None => None,
            }) == self.settings().project_root,
    {
        match &self.project_root {
            Some(x) => Some(x),
            None => None,
        }
    }

    /// The explicit config file, if any.
    pub fn config_path(&self) -> (r: Option<&String>)
        ensures
            crate::weburl::opt_view(match r {
                Some(x) => Some(*x),
                None => None,
            }) == self.settings().config_path,
    {
        match &self.config_path {
            Some(x) => Some(x),
            None => None,
        }
    }

    /// Resolves the configuration of the project at `project_root` from the user and project
    /// layers read by the caller and the environment variables `env`: defaults, then user,
    /// project, environment and CLI overrides, each overriding the ones before.
    pub fn resolve(self, project_root: &str, user: ConfigLayer, project: ConfigLayer, env: &Vec<EnvVar>) -> (r: Result<ResolvedConfig, ResolveError>)
        ensures
            exists|d: DefaultPaths, dl: ConfigLayer, el: ConfigLayer|
                default_layout(d, project_root@) && is_default_layer(dl, project_root@, d)
                && env_applies(empty_config_layer(), env@, el)
                && resolved_from(
                    standard_layers(dl, user, project, el, self.settings().cli_overrides),
                    d,
                    self.settings().allow_dev,
                    self.settings().allow_network,
                    env_warnings(env@),
                    r,
                ),
    {
        let ghost st = self.settings();
        let defaults = DefaultPaths::from_root(project_root);
        let base = default_layer(project_root, &defaults);
        let (env_layer, env_warns) = env_layer_from(env);
        let ghost layers = standard_layers(base, user, project, env_layer, self.cli_overrides);
        let mut v: Vec<(ConfigLayer, ConfigSource)> = Vec::new();
        v.push((base, ConfigSource::Default));
        v.push((user, ConfigSource::User));
        v.push((project, ConfigSource::Project));
        v.push((env_layer, ConfigSource::Environment));
        let allow_dev = self.allow_dev;
        let allow_network = self.allow_network;
        match self.cli_overrides {
            Some(c) => {
                v.push((c, ConfigSource::Cli));
            },
            None => {},
        }
        assert(v@ =~= layers);
        let r = resolve_layers(&defaults, v, allow_dev, allow_network, env_warns);
        assert(strings_view(env_warns@) == env_warnings(env@));
        assert(default_layout(defaults, project_root@) && is_default_layer(base, project_root@, defaults)
            && env_applies(empty_config_layer(), env@, env_layer)
            && resolved_from(standard_layers(base, user, project, env_layer, st.cli_overrides), defaults, st.allow_dev,
            st.allow_network, env_warnings(env@), r));
        r
    }

    /// Resolves the configuration of the project at `project_root` with detailed provenance,
    /// from the user and project layers read by the caller (with the files they came from)
    /// and one layer per environment variable (with its name and warnings).
    pub fn resolve_detailed(
        self,
        project_root: &str,
        user: ConfigLayer,
        user_origin: Option<String>,
        project: ConfigLayer,
        project_origin: String,
        env_layers: Vec<(ConfigLayer, String, Vec<String>)>,
    ) -> (r: Result<ResolvedConfigDetailed, ResolveError>)
        ensures
            exists|d: DefaultPaths, dl: ConfigLayer, layers: Seq<(ConfigLayer, ProvenanceCtx)>|
                default_layout(d, project_root@) && is_default_layer(dl, project_root@, d)
                && detailed_layers(layers, dl, user, user_origin, project, project_origin, env_layers@, self.settings().cli_overrides)
                && resolved_detailed_from(
                    layers,
                    d,
                    self.settings().allow_dev,
                    self.settings().allow_network,
                    env_layer_warnings(env_layers@),
                    r,
                ),
    {
        let ghost st = self.settings();
        let ghost uo = user_origin;
        let ghost envs = env_layers@;
        let defaults = DefaultPaths::from_root(project_root);
        let base = default_layer(project_root, &defaults);
        let ghost dl = base;
        let mut v: Vec<(ConfigLayer, ProvenanceCtx)> = Vec::new();
        v.push((base, ProvenanceCtx::new(ConfigSource::Default, Some(owned("defaults")))));
        v.push((user, ProvenanceCtx::new(ConfigSource::User, user_origin)));
        v.push((project, ProvenanceCtx::new(ConfigSource::Project, Some(project_origin))));
        let mut extra: Vec<String> = Vec::new();
        let mut rest = env_layers;
        proof {
            assert(envs.take(0) =~= Seq::<(ConfigLayer, String, Vec<String>)>::empty());
            assert(strings_view(extra@) =~= env_layer_warnings(envs.take(0)));
        }
        while rest.len() > 0
            invariant
                rest@.len() <= envs.len(),
                rest@ == envs.skip(envs.len() - rest@.len()),
                v@.len() == 3 + envs.len() - rest@.len(),
                v@[0].0 == dl && v@[0].1.source == ConfigSource::Default && v@[0].1.origin is Some
                    && (v@[0].1.origin->0)@ == "defaults"@,
                v@[1] == (user, ProvenanceCtx { source: ConfigSource::User, origin: uo }),
                v@[2].0 == project && v@[2].1.source == ConfigSource::Project && v@[2].1.origin == Some(project_origin),
                forall|i: int| 0 <= i < envs.len() - rest@.len() ==> env_layer_entry(#[trigger] v@[3 + i], envs[i]),
                strings_view(extra@) == env_layer_warnings(envs.take(envs.len() - rest@.len())),
            decreases rest.len(),
        {
            let ghost k = envs.len() - rest@.len();
            let (layer, key, warnings) = rest.remove(0);
            v.push((layer, ProvenanceCtx::new(ConfigSource::Environment, Some(key))));
            let mut w = warnings;
            extra.append(&mut w);
            proof {
                assert(envs.take(k + 1).drop_last() =~= envs.take(k));
                assert(rest@ =~= envs.skip(k + 1));
                assert(strings_view(extra@) =~= env_layer_warnings(envs.take(k + 1)));
            }
        }
        assert(envs.take(envs.len() as int) =~= envs);
        let allow_dev = self.allow_dev;
        let allow_network = self.allow_network;
        let ghost before_cli = v@;
        match self.cli_overrides {
            Some(c) => {
                v.push((c, ProvenanceCtx::new(ConfigSource::Cli, Some(owned("cli")))));
            },
            None => {},
        }
        let ghost layers = v@;
        assert(detailed_layers(layers, dl, user, uo, project, project_origin, envs, st.cli_overrides));
        let r = resolve_layers_detailed(&defaults, v, allow_dev, allow_network, extra);
        assert(default_layout(defaults, project_root@) && is_default_layer(dl, project_root@, defaults)
            && detailed_layers(layers, dl, user, uo, project, project_origin, envs, st.cli_overrides)
            && resolved_detailed_from(layers, defaults, st.allow_dev, st.allow_network, env_layer_warnings(envs), r));
        r
    }
}

impl Default for ConfigResolver {
    fn default() -> (r: Self)
        ensures
            r.settings().project_root is None,
            r.settings().config_path is None,
            r.settings().cli_overrides is None,
            !r.settings().allow_dev,
            !r.settings().allow_network,
    {
        Self::new()
    }
}

/// Whether `entry` is the layer of one environment variable with its provenance context.
pub open spec fn env_layer_entry(entry: (ConfigLayer, ProvenanceCtx), env: (ConfigLayer, String, Vec<String>)) -> bool {
    entry.0 == env.0 && entry.1 == (ProvenanceCtx { source: ConfigSource::Environment, origin: Some(env.1) })
}

/// The warnings of the environment variable layers, in order.
pub open spec fn env_layer_warnings(envs: Seq<(ConfigLayer, String, Vec<String>)>) -> Seq<Seq<char>>
    decreases envs.len(),
{
    if envs.len() == 0 {
        seq![]
    } else {
        env_layer_warnings(envs.drop_last()) + strings_view(envs.last().2@)
    }
}

/// Whether `layers` are, in precedence order, the defaults (origin `defaults`), user (with its
/// file), project (with its file), one layer per environment variable (with its name), and
/// the CLI overrides (origin `cli`) when there are any.
pub open spec fn detailed_layers(
    layers: Seq<(ConfigLayer, ProvenanceCtx)>,
    dl: ConfigLayer,
    user: ConfigLayer,
    user_origin: Option<String>,
    project: ConfigLayer,
    project_origin: String,
    envs: Seq<(ConfigLayer, String, Vec<String>)>,
    cli: Option<ConfigLayer>,
) -> bool {
    let n: int = 3 + envs.len() as int;
    &&& layers.len() == n + (if cli is Some { 1int } else { 0int })
    &&& layers[0].0 == dl && layers[0].1.source == ConfigSource::Default && layers[0].1.origin is Some
        && (layers[0].1.origin->0)@ == "defaults"@
    &&& layers[1] == (user, ProvenanceCtx { source: ConfigSource::User, origin: user_origin })
    &&& layers[2].0 == project && layers[2].1.source == ConfigSource::Project && layers[2].1.origin == Some(project_origin)
    &&& forall|i: int| 0 <= i < envs.len() ==> env_layer_entry(#[trigger] layers[3 + i], envs[i])
    &&& match cli {
        Some(c) => layers[n].0 == c && layers[n].1.source == ConfigSource::Cli && layers[n].1.origin is Some
            && (layers[n].1.origin->0)@ == "cli"@,
        None => true,
    }
}

} // verus!
