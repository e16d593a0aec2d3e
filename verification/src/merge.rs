//! Merging configuration layers in precedence order while tracking provenance.
use vstd::prelude::*;
use crate::layers::{keys_config_layer, overlay_config_layer, ConfigLayer, lemma_merge_identity};
use crate::overlay::apply_config_layer;
use crate::paths::DefaultPaths;
use crate::provenance::{
    stamp_keys, ConfigSource, PathMap, ProvenanceMap, ProvenanceMapDetailed, ProvenanceRecord, Stamp,
};
use crate::resolve::{finalize_error, finalize_layer, finalize_warnings, finalized, strings_view, MergeError};
use crate::types::GreenticConfig;

verus! {

/// The merge of layers applied so far, with a provenance value for each leaf set.
struct Merger<V> {
    acc: ConfigLayer,
    provenance: PathMap<V>,
}

impl<V: Stamp> Merger<V> {
    fn start() -> (m: Self)
        ensures
            m.acc == crate::layers::empty_config_layer(),
            m.provenance@ == Map::<Seq<char>, V>::empty(),
    {
        Merger { acc: ConfigLayer::empty(), provenance: PathMap::new() }
    }

    fn apply(&mut self, layer: ConfigLayer, stamp: &V)
        ensures
            final(self).acc == overlay_config_layer(old(self).acc, layer),
            final(self).provenance@ == stamp_keys(old(self).provenance@, keys_config_layer(layer, ""@), *stamp),
    {
        apply_config_layer(&mut self.acc, layer, &mut self.provenance, "", stamp);
    }
}

/// Layers merged so far, with the source of each leaf.
pub struct MergeState {
    inner: Merger<ConfigSource>,
    warnings: Vec<String>,
}

impl MergeState {
    /// The merge of the layers applied so far.
    pub closed spec fn merged(&self) -> ConfigLayer {
        self.inner.acc
    }

    /// The warnings collected so far.
    pub closed spec fn pending_warnings(&self) -> Seq<Seq<char>> {
        strings_view(self.warnings@)
    }

    /// The source recorded for each leaf path.
    pub closed spec fn sources(&self) -> Map<Seq<char>, ConfigSource> {
        self.inner.provenance@
    }

    /// Starts a merge with `base` as its first layer.
    pub fn new(base: ConfigLayer, source: ConfigSource) -> (s: Self)
        ensures
            s.merged() == base,
            s.sources() == stamp_keys(Map::empty(), keys_config_layer(base, ""@), source),
            s.pending_warnings().len() == 0,
    {
        let mut state = MergeState { inner: Merger::start(), warnings: Vec::new() };
        state.apply(base, source);
        proof {
            lemma_merge_identity(base);
        }
        state
    }

    /// Applies `layer` on top of the layers merged so far: every leaf `layer` sets replaces
    /// the earlier value and is recorded as coming from `source`.
    pub fn apply(&mut self, layer: ConfigLayer, source: ConfigSource)
        ensures
            final(self).merged() == overlay_config_layer(old(self).merged(), layer),
            final(self).sources() == stamp_keys(old(self).sources(), keys_config_layer(layer, ""@), source),
            final(self).pending_warnings() == old(self).pending_warnings(),
    {
        self.inner.apply(layer, &source);
    }

    /// Resolves the merge into a complete configuration, its provenance, and the warnings
    /// collected so far followed by those resolution gives.
    pub fn finalize(self, defaults: &DefaultPaths) -> (r: Result<(GreenticConfig, ProvenanceMap, Vec<String>), MergeError>)
        ensures
            match r {
                Ok((c, p, w)) => finalize_error(self.merged()) is None && finalized(self.merged(), *defaults, c)
                    && p@ == self.sources()
                    && strings_view(w@) == self.pending_warnings() + finalize_warnings(self.merged()),
                Err(e) => finalize_error(self.merged()) == Some(e),
            },
    {
        let MergeState { inner, warnings } = self;
        let Merger { acc, provenance } = inner;
        let mut warnings = warnings;
        match finalize_layer(acc, defaults, &mut warnings) {
            Ok(c) => Ok((c, provenance, warnings)),
            Err(e) => Err(e),
        }
    }
}

/// The source and origin to record for the leaves of one layer.
#[derive(Debug, Clone, PartialEq, Eq)]
pub struct ProvenanceCtx {
    pub source: ConfigSource,
    pub origin: Option<String>,
}

impl ProvenanceCtx {
    pub fn new(source: ConfigSource, origin: Option<String>) -> (r: Self)
        ensures
            r.source == source,
            r.origin == origin,
    {
        ProvenanceCtx { source, origin }
    }
}

/// The provenance record of a context.
pub open spec fn record_of(ctx: ProvenanceCtx) -> ProvenanceRecord {
    ProvenanceRecord { source: ctx.source, origin: ctx.origin }
}

/// Layers merged so far, with the source and origin of each leaf.
pub struct MergeStateDetailed {
    inner: Merger<ProvenanceRecord>,
    warnings: Vec<String>,
}

impl MergeStateDetailed {
    /// The merge of the layers applied so far.
    pub closed spec fn merged(&self) -> ConfigLayer {
        self.inner.acc
    }

    /// The warnings collected so far.
    pub closed spec fn pending_warnings(&self) -> Seq<Seq<char>> {
        strings_view(self.warnings@)
    }

    /// The record kept for each leaf path.
    pub closed spec fn records(&self) -> Map<Seq<char>, ProvenanceRecord> {
        self.inner.provenance@
    }

    /// Starts a merge with `base` as its first layer.
    pub fn new(base: ConfigLayer, ctx: ProvenanceCtx) -> (s: Self)
        ensures
            s.merged() == base,
            s.records() == stamp_keys(Map::empty(), keys_config_layer(base, ""@), record_of(ctx)),
            s.pending_warnings().len() == 0,
    {
        let mut state = MergeStateDetailed { inner: Merger::start(), warnings: Vec::new() };
        state.apply(base, ctx);
        proof {
            lemma_merge_identity(base);
        }
        state
    }

    /// Applies `layer` on top of the layers merged so far, recording `ctx` for every leaf
    /// that it sets.
    pub fn apply(&mut self, layer: ConfigLayer, ctx: ProvenanceCtx)
        ensures
            final(self).merged() == overlay_config_layer(old(self).merged(), layer),
            final(self).records() == stamp_keys(old(self).records(), keys_config_layer(layer, ""@), record_of(ctx)),
            final(self).pending_warnings() == old(self).pending_warnings(),
    {
        let record = ProvenanceRecord { source: ctx.source, origin: ctx.origin };
        self.inner.apply(layer, &record);
    }

    /// Resolves the merge into a complete configuration, its detailed provenance, and the
    /// warnings collected so far followed by those resolution gives.
    pub fn finalize_detailed(self, defaults: &DefaultPaths) -> (r: Result<(GreenticConfig, ProvenanceMapDetailed, Vec<String>), MergeError>)
        ensures
            match r {
                Ok((c, p, w)) => finalize_error(self.merged()) is None && finalized(self.merged(), *defaults, c)
                    && p@ == self.records()
                    && strings_view(w@) == self.pending_warnings() + finalize_warnings(self.merged()),
                Err(e) => finalize_error(self.merged()) == Some(e),
            },
    {
        let MergeStateDetailed { inner, warnings } = self;
        let Merger { acc, provenance } = inner;
        let mut warnings = warnings;
        match finalize_layer(acc, defaults, &mut warnings) {
            Ok(c) => Ok((c, provenance, warnings)),
            Err(e) => Err(e),
        }
    }
}

} // verus!
