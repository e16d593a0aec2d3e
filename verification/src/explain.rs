//! Human-readable reports of a resolved configuration and where its values came from.
use vstd::prelude::*;
use crate::provenance::{ConfigSource, PathMap, ProvenanceMap, ProvenanceMapDetailed, ProvenancePath, ProvenanceRecord};
use crate::resolve::strings_view;
use crate::text::{concat, owned, push_char};
use crate::types::{EnvId, GreenticConfig, TelemetryExporterKind, TlsMode};

verus! {

/// How a source is named in reports.
pub open spec fn source_text(s: Option<ConfigSource>) -> Seq<char> {
    match s {
        Some(ConfigSource::Default) => "default"@,
        Some(ConfigSource::User) => "user"@,
        Some(ConfigSource::Project) => "project"@,
        Some(ConfigSource::Environment) => "env"@,
        Some(ConfigSource::Cli) => "cli"@,
        None => "unknown"@,
    }
}

/// The report name of a source; `unknown` when there is none.
pub fn render_source(source: Option<&ConfigSource>) -> (r: String)
    ensures
        r@ == source_text(match source {
            Some(s) => Some(*s),
            None => None,
        }),
{
    match source {
        Some(ConfigSource::Default) => owned("default"),
        Some(ConfigSource::User) => owned("user"),
        Some(ConfigSource::Project) => owned("project"),
        Some(ConfigSource::Environment) => owned("env"),
        Some(ConfigSource::Cli) => owned("cli"),
        None => owned("unknown"),
    }
}

/// How a provenance record is named in reports: its source, followed by `@` and its origin
/// when it has one.
pub open spec fn record_text(r: Option<ProvenanceRecord>) -> Seq<char> {
    match r {
        None => "unknown"@,
        Some(rec) => match rec.origin {
            Some(o) => source_text(Some(rec.source)) + "@"@ + o@,
            None => source_text(Some(rec.source)),
        },
    }
}

/// The report name of a provenance record; `unknown` when there is none.
pub fn render_record(record: Option<&ProvenanceRecord>) -> (r: String)
    ensures
        r@ == record_text(match record {
            Some(x) => Some(*x),
            None => None,
        }),
{
    match record {
        None => owned("unknown"),
        Some(rec) => {
            let source = render_source(Some(&rec.source));
            match &rec.origin {
                Some(o) => concat(concat(source.as_str(), "@").as_str(), o.as_str()),
                None => source,
            }
        },
    }
}

/// The character of the decimal digit `d`.
pub open spec fn digit_char(d: nat) -> char {
    if d == 0 { '0' } else if d == 1 { '1' } else if d == 2 { '2' } else if d == 3 { '3' } else if d == 4 { '4' }
    else if d == 5 { '5' } else if d == 6 { '6' } else if d == 7 { '7' } else if d == 8 { '8' } else { '9' }
}

/// The decimal notation of `n`, without leading zeros.
pub open spec fn decimal_text(n: nat) -> Seq<char>
    decreases n,
{
    if n < 10 {
        seq![digit_char(n)]
    } else {
        decimal_text(n / 10).push(digit_char(n % 10))
    }
}

fn digit(d: u64) -> (c: char)
    requires
        d < 10,
    ensures
        c == digit_char(d as nat),
{
    if d == 0 { '0' } else if d == 1 { '1' } else if d == 2 { '2' } else if d == 3 { '3' } else if d == 4 { '4' }
    else if d == 5 { '5' } else if d == 6 { '6' } else if d == 7 { '7' } else if d == 8 { '8' } else { '9' }
}

/// The decimal notation of `n`.
pub fn decimal(n: u64) -> (s: String)
    ensures
        s@ == decimal_text(n as nat),
    decreases n,
{
    if n < 10 {
        let mut s = String::new();
        push_char(&mut s, digit(n));
        s
    } else {
        let mut s = decimal(n / 10);
        push_char(&mut s, digit(n % 10));
        s
    }
}

/// How `format!("{:?}", s)` renders the string `s`.
pub uninterp spec fn debug_text(s: Seq<char>) -> Seq<char>;

/// Whether every character of `s` is printable ASCII other than `"` and `\`.
pub open spec fn plain_ascii(s: Seq<char>) -> bool {
    forall|i: int| 0 <= i < s.len() ==> ' ' <= #[trigger] s[i] && s[i] <= '~' && s[i] != '"' && s[i] != '\\'
}

/// Trusted: the `Debug` formatting of a `str`. Printable ASCII characters other than `"` and
/// `\` are written as they are, between double quotes; other characters are escaped, and the
/// contract says no more of them than that the outcome is named.
#[verifier::external_body]
fn debug_quoted(s: &str) -> (r: String)
    ensures
        r@ == debug_text(s@),
        plain_ascii(s@) ==> r@ == seq!['"'] + s@ + seq!['"'],
{
    format!("{s:?}")
}

/// How an environment identifier is shown: `EnvId("...")`.
pub open spec fn env_id_text(id: EnvId) -> Seq<char> {
    "EnvId("@ + debug_text(id.0@) + ")"@
}

pub open spec fn exporter_text(e: TelemetryExporterKind) -> Seq<char> {
    match e {
        TelemetryExporterKind::Otlp => "Otlp"@,
        TelemetryExporterKind::Stdout => "Stdout"@,
        TelemetryExporterKind::Gcp => "Gcp"@,
        TelemetryExporterKind::Azure => "Azure"@,
        TelemetryExporterKind::Aws => "Aws"@,
        TelemetryExporterKind::NoExporter => "None"@,
    }
}

pub open spec fn tls_text(t: TlsMode) -> Seq<char> {
    match t {
        TlsMode::Disabled => "Disabled"@,
        TlsMode::System => "System"@,
        TlsMode::Strict => "Strict"@,
    }
}

pub open spec fn bool_text(b: bool) -> Seq<char> {
    if b { "true"@ } else { "false"@ }
}

pub open spec fn opt_u64_text(o: Option<u64>) -> Seq<char> {
    match o {
        Some(n) => "Some("@ + decimal_text(n as nat) + ")"@,
        None => "None"@,
    }
}

pub open spec fn opt_bool_text(o: Option<bool>) -> Seq<char> {
    match o {
        Some(b) => "Some("@ + bool_text(b) + ")"@,
        None => "None"@,
    }
}

fn show_env_id(id: &EnvId) -> (r: String)
    ensures
        r@ == env_id_text(*id),
{
    let q = debug_quoted(id.0.as_str());
    concat(concat("EnvId(", q.as_str()).as_str(), ")")
}

fn show_exporter(e: TelemetryExporterKind) -> (r: String)
    ensures
        r@ == exporter_text(e),
{
    match e {
        TelemetryExporterKind::Otlp => owned("Otlp"),
        TelemetryExporterKind::Stdout => owned("Stdout"),
        TelemetryExporterKind::Gcp => owned("Gcp"),
        TelemetryExporterKind::Azure => owned("Azure"),
        TelemetryExporterKind::Aws => owned("Aws"),
        TelemetryExporterKind::NoExporter => owned("None"),
    }
}

fn show_tls(t: TlsMode) -> (r: String)
    ensures
        r@ == tls_text(t),
{
    match t {
        TlsMode::Disabled => owned("Disabled"),
        TlsMode::System => owned("System"),
        TlsMode::Strict => owned("Strict"),
    }
}

fn show_bool(b: bool) -> (r: String)
    ensures
        r@ == bool_text(b),
{
    if b { owned("true") } else { owned("false") }
}

fn show_opt_u64(o: Option<u64>) -> (r: String)
    ensures
        r@ == opt_u64_text(o),
{
    match o {
        Some(n) => {
            let d = decimal(n);
            concat(concat("Some(", d.as_str()).as_str(), ")")
        },
        None => owned("None"),
    }
}

fn show_opt_bool(o: Option<bool>) -> (r: String)
    ensures
        r@ == opt_bool_text(o),
{
    match o {
        Some(b) => {
            let d = show_bool(b);
            concat(concat("Some(", d.as_str()).as_str(), ")")
        },
        None => owned("None"),
    }
}

/// The value recorded for `key`, if any.
pub open spec fn lookup<V>(m: Map<Seq<char>, V>, key: Seq<char>) -> Option<V> {
    if m.dom().contains(key) {
        Some(m[key])
    } else {
        None
    }
}

fn source_at(provenance: &ProvenanceMap, key: &str) -> (r: String)
    ensures
        r@ == source_text(lookup(provenance@, key@)),
{
    let p = ProvenancePath(owned(key));
    render_source(provenance.get(&p))
}

fn record_at(provenance: &ProvenanceMapDetailed, key: &str) -> (r: String)
    ensures
        r@ == record_text(lookup(provenance@, key@)),
{
    let p = ProvenancePath(owned(key));
    render_record(provenance.get(&p))
}

/// The report line `- <label>: <value> (<source>)`.
pub open spec fn item_line(label: Seq<char>, value: Seq<char>, source: Seq<char>) -> Seq<char> {
    "- "@ + label + ": "@ + value + " ("@ + source + ")"@
}

fn item(label: &str, value: &str, source: &str) -> (r: String)
    ensures
        r@ == item_line(label@, value@, source@),
{
    let a = concat(concat("- ", label).as_str(), ": ");
    let b = concat(concat(a.as_str(), value).as_str(), " (");
    concat(concat(b.as_str(), source).as_str(), ")")
}

/// The closing lines of a report: `Warnings:` followed by one `  - ` line per warning, or
/// nothing when there are no warnings.
pub open spec fn warning_lines(warnings: Seq<Seq<char>>) -> Seq<Seq<char>> {
    if warnings.len() == 0 {
        seq![]
    } else {
        seq!["Warnings:"@] + warnings.map_values(|w: Seq<char>| "  - "@ + w)
    }
}

fn push_line(lines: &mut Vec<String>, line: String)
    ensures
        strings_view(final(lines)@) == strings_view(old(lines)@).push(line@),
{
    lines.push(line);
    assert(strings_view(lines@) =~= strings_view(old(lines)@).push(line@));
}

fn push_warning_lines(lines: &mut Vec<String>, warnings: &[String])
    ensures
        strings_view(final(lines)@) == strings_view(old(lines)@) + warning_lines(strings_view(warnings@)),
{
    if warnings.len() == 0 {
        assert(strings_view(lines@) =~= strings_view(old(lines)@) + warning_lines(strings_view(warnings@)));
        return;
    }
    push_line(lines, owned("Warnings:"));
    let ghost base = strings_view(lines@);
    let mut i: usize = 0;
    while i < warnings.len()
        invariant
            i <= warnings.len(),
            strings_view(lines@) == base + strings_view(warnings@).take(i as int).map_values(|w: Seq<char>| "  - "@ + w),
        decreases warnings.len() - i,
    {
        push_line(lines, concat("  - ", warnings[i].as_str()));
        assert(strings_view(warnings@).take(i + 1).map_values(|w: Seq<char>| "  - "@ + w)
            =~= strings_view(warnings@).take(i as int).map_values(|w: Seq<char>| "  - "@ + w).push("  - "@ + warnings@[i as int]@));
        i = i + 1;
    }
    assert(strings_view(warnings@).take(warnings.len() as int) =~= strings_view(warnings@));
    assert(strings_view(lines@) =~= strings_view(old(lines)@) + warning_lines(strings_view(warnings@)));
}

/// The lines joined with newlines.
pub open spec fn join_lines(lines: Seq<Seq<char>>) -> Seq<char>
    decreases lines.len(),
{
    if lines.len() == 0 {
        seq![]
    } else if lines.len() == 1 {
        lines[0]
    } else {
        join_lines(lines.drop_last()) + "\n"@ + lines.last()
    }
}

fn join(lines: &Vec<String>) -> (r: String)
    ensures
        r@ == join_lines(strings_view(lines@)),
{
    let mut out = String::new();
    let mut i: usize = 0;
    while i < lines.len()
        invariant
            i <= lines.len(),
            out@ == join_lines(strings_view(lines@).take(i as int)),
        decreases lines.len() - i,
    {
        assert(strings_view(lines@).take(i + 1).drop_last() =~= strings_view(lines@).take(i as int));
        if i == 0 {
            out = owned(lines[i].as_str());
        } else {
            out = concat(concat(out.as_str(), "\n").as_str(), lines[i].as_str());
        }
        i = i + 1;
    }
    assert(strings_view(lines@).take(lines.len() as int) =~= strings_view(lines@));
    out
}

/// The lines of the report on `config`, its provenance and its warnings.
pub open spec fn explain_lines(c: GreenticConfig, p: Map<Seq<char>, ConfigSource>, warnings: Seq<Seq<char>>) -> Seq<Seq<char>> {
    seq![
        "Configuration:"@,
        "- schema_version: "@ + c.schema_version.0@,
        item_line("environment.env_id"@, env_id_text(c.environment.env_id), source_text(lookup(p, "environment.env_id"@))),
        item_line("paths.state_dir"@, c.paths.state_dir@, source_text(lookup(p, "paths.state_dir"@))),
        item_line("telemetry.exporter"@, exporter_text(c.telemetry.exporter), source_text(lookup(p, "telemetry.exporter"@))),
        item_line("network.tls_mode"@, tls_text(c.network.tls_mode), source_text(lookup(p, "network.tls_mode"@))),
    ] + (if c.deployer is Some && c.deployer->0.base_domain is Some {
        seq![item_line("deployer.base_domain"@, c.deployer->0.base_domain->0@, source_text(lookup(p, "deployer.base_domain"@)))]
    } else {
        seq![]
    }) + (if c.services is Some && c.services->0.events is Some {
        seq![item_line("services.events.url"@, c.services->0.events->0.url@.0, source_text(lookup(p, "services.events.url"@)))]
    } else {
        seq![]
    }) + (if c.runtime.admin_endpoints is Some {
        seq![item_line(
            "runtime.admin_endpoints.secrets_explain_enabled"@,
            bool_text(c.runtime.admin_endpoints->0.secrets_explain_enabled),
            source_text(lookup(p, "runtime.admin_endpoints.secrets_explain_enabled"@)),
        )]
    } else {
        seq![]
    }) + (if c.events is Some && c.events->0.backoff is Some {
        seq![item_line("events.backoff.initial_ms"@, opt_u64_text(c.events->0.backoff->0.initial_ms), source_text(lookup(p, "events.backoff"@)))]
    } else {
        seq![]
    }) + (if c.events is Some && c.events->0.reconnect is Some {
        seq![item_line("events.reconnect.enabled"@, opt_bool_text(c.events->0.reconnect->0.enabled), source_text(lookup(p, "events.reconnect"@)))]
    } else {
        seq![]
    }) + warning_lines(warnings)
}

/// The text report on `config`: one line per notable setting with its source, then the warnings.
pub fn explain(config: &GreenticConfig, provenance: &ProvenanceMap, warnings: &[String]) -> (r: String)
    ensures
        r@ == join_lines(explain_lines(*config, provenance@, strings_view(warnings@))),
{
    let mut lines: Vec<String> = Vec::new();
    push_line(&mut lines, owned("Configuration:"));
    push_line(&mut lines, concat("- schema_version: ", config.schema_version.0.as_str()));
    let v = show_env_id(&config.environment.env_id);
    let s = source_at(provenance, "environment.env_id");
    push_line(&mut lines, item("environment.env_id", v.as_str(), s.as_str()));
    let s = source_at(provenance, "paths.state_dir");
    push_line(&mut lines, item("paths.state_dir", config.paths.state_dir.as_str(), s.as_str()));
    let v = show_exporter(config.telemetry.exporter);
    let s = source_at(provenance, "telemetry.exporter");
    push_line(&mut lines, item("telemetry.exporter", v.as_str(), s.as_str()));
    let v = show_tls(config.network.tls_mode);
    let s = source_at(provenance, "network.tls_mode");
    push_line(&mut lines, item("network.tls_mode", v.as_str(), s.as_str()));
    let ghost head = strings_view(lines@);
    if let Some(deployer) = &config.deployer {
        if let Some(base_domain) = &deployer.base_domain {
            let s = source_at(provenance, "deployer.base_domain");
            push_line(&mut lines, item("deployer.base_domain", base_domain.as_str(), s.as_str()));
        }
    }
    if let Some(services) = &config.services {
        if let Some(events) = &services.events {
            let s = source_at(provenance, "services.events.url");
            push_line(&mut lines, item("services.events.url", events.url.as_str(), s.as_str()));
        }
    }
    if let Some(admin) = &config.runtime.admin_endpoints {
        let v = show_bool(admin.secrets_explain_enabled);
        let s = source_at(provenance, "runtime.admin_endpoints.secrets_explain_enabled");
        push_line(&mut lines, item("runtime.admin_endpoints.secrets_explain_enabled", v.as_str(), s.as_str()));
    }
    if let Some(events) = &config.events {
        if let Some(backoff) = &events.backoff {
            let v = show_opt_u64(backoff.initial_ms);
            let s = source_at(provenance, "events.backoff");
            push_line(&mut lines, item("events.backoff.initial_ms", v.as_str(), s.as_str()));
        }
        if let Some(reconnect) = &events.reconnect {
            let v = show_opt_bool(reconnect.enabled);
            let s = source_at(provenance, "events.reconnect");
            push_line(&mut lines, item("events.reconnect.enabled", v.as_str(), s.as_str()));
        }
    }
    push_warning_lines(&mut lines, warnings);
    assert(strings_view(lines@) =~= explain_lines(*config, provenance@, strings_view(warnings@)));
    join(&lines)
}

/// The lines of the detailed report on `config`, its provenance records and its warnings.
pub open spec fn explain_detailed_lines(c: GreenticConfig, p: Map<Seq<char>, ProvenanceRecord>, warnings: Seq<Seq<char>>) -> Seq<Seq<char>> {
    seq![
        "Configuration:"@,
        "- schema_version: "@ + c.schema_version.0@,
        item_line("environment.env_id"@, env_id_text(c.environment.env_id), record_text(lookup(p, "environment.env_id"@))),
        item_line("paths.state_dir"@, c.paths.state_dir@, record_text(lookup(p, "paths.state_dir"@))),
    ] + (if c.services is Some && c.services->0.events is Some {
        seq![item_line("services.events.url"@, c.services->0.events->0.url@.0, record_text(lookup(p, "services.events.url"@)))]
    } else {
        seq![]
    }) + (if c.runtime.admin_endpoints is Some {
        seq![item_line(
            "runtime.admin_endpoints.secrets_explain_enabled"@,
            bool_text(c.runtime.admin_endpoints->0.secrets_explain_enabled),
            record_text(lookup(p, "runtime.admin_endpoints.secrets_explain_enabled"@)),
        )]
    } else {
        seq![]
    }) + warning_lines(warnings)
}

/// The detailed text report on `config`: notable settings with source and origin, then the warnings.
pub fn explain_detailed(config: &GreenticConfig, provenance: &ProvenanceMapDetailed, warnings: &[String]) -> (r: String)
    ensures
        r@ == join_lines(explain_detailed_lines(*config, provenance@, strings_view(warnings@))),
{
    let mut lines: Vec<String> = Vec::new();
    push_line(&mut lines, owned("Configuration:"));
    push_line(&mut lines, concat("- schema_version: ", config.schema_version.0.as_str()));
    let v = show_env_id(&config.environment.env_id);
    let s = record_at(provenance, "environment.env_id");
    push_line(&mut lines, item("environment.env_id", v.as_str(), s.as_str()));
    let s = record_at(provenance, "paths.state_dir");
    push_line(&mut lines, item("paths.state_dir", config.paths.state_dir.as_str(), s.as_str()));
    if let Some(services) = &config.services {
        if let Some(events) = &services.events {
            let s = record_at(provenance, "services.events.url");
            push_line(&mut lines, item("services.events.url", events.url.as_str(), s.as_str()));
        }
    }
    if let Some(admin) = &config.runtime.admin_endpoints {
        let v = show_bool(admin.secrets_explain_enabled);
        let s = record_at(provenance, "runtime.admin_endpoints.secrets_explain_enabled");
        push_line(&mut lines, item("runtime.admin_endpoints.secrets_explain_enabled", v.as_str(), s.as_str()));
    }
    push_warning_lines(&mut lines, warnings);
    assert(strings_view(lines@) =~= explain_detailed_lines(*config, provenance@, strings_view(warnings@)));
    join(&lines)
}

/// Whether `r` names each path of `p` exactly once, with the report name of its source.
pub open spec fn labels_of(r: Seq<(String, String)>, p: Map<Seq<char>, ConfigSource>) -> bool {
    &&& forall|i: int, j: int| 0 <= i < j < r.len() ==> (#[trigger] r[i]).0@ != (#[trigger] r[j]).0@
    &&& forall|i: int| 0 <= i < r.len() ==> p.dom().contains((#[trigger] r[i]).0@) && r[i].1@ == source_text(Some(p[r[i].0@]))
    &&& forall|k: Seq<char>| #[trigger] p.dom().contains(k) ==> exists|i: int| 0 <= i < r.len() && (#[trigger] r[i]).0@ == k
}

/// Each path of `p` once, with the report name of its source (`default`, `user`, `project`,
/// `env` or `cli`).
pub fn provenance_labels(p: &ProvenanceMap) -> (r: Vec<(String, String)>)
    ensures
        labels_of(r@, p@),
{
    let entries = p.latest();
    let mut out: Vec<(String, String)> = Vec::new();
    let mut i: usize = 0;
    while i < entries.len()
        invariant
            i <= entries@.len(),
            crate::provenance::lists_map(entries@, p@),
            out@.len() == i,
            forall|m: int| 0 <= m < i ==> (#[trigger] out@[m]).0@ == entries@[m].0.0@
                && out@[m].1@ == source_text(Some(entries@[m].1)),
        decreases entries@.len() - i,
    {
        let label = render_source(Some(&entries[i].1));
        out.push((owned(entries[i].0.0.as_str()), label));
        i = i + 1;
    }
    proof {
        assert forall|a: int, b: int| 0 <= a < b < out@.len() implies (#[trigger] out@[a]).0@ != (#[trigger] out@[b]).0@ by {
            assert(entries@[a].0.0@ != entries@[b].0.0@);
        }
        assert forall|m: int| 0 <= m < out@.len() implies p@.dom().contains((#[trigger] out@[m]).0@)
            && out@[m].1@ == source_text(Some(p@[out@[m].0@])) by {
            assert(p@.dom().contains(entries@[m].0.0@));
        }
        assert forall|k: Seq<char>| #[trigger] p@.dom().contains(k) implies exists|x: int| 0 <= x < out@.len() && (#[trigger] out@[x]).0@ == k by {
            let x = choose|x: int| 0 <= x < entries@.len() && (#[trigger] entries@[x]).0.0@ == k;
            assert(out@[x].0@ == k);
        }
    }
    out
}

/// Whether `r` names each path of `p` exactly once, with the report name of its source and
/// its origin.
pub open spec fn records_of(r: Seq<(String, String, Option<String>)>, p: Map<Seq<char>, ProvenanceRecord>) -> bool {
    &&& forall|i: int, j: int| 0 <= i < j < r.len() ==> (#[trigger] r[i]).0@ != (#[trigger] r[j]).0@
    &&& forall|i: int| 0 <= i < r.len() ==> p.dom().contains((#[trigger] r[i]).0@)
        && r[i].1@ == source_text(Some(p[r[i].0@].source))
        && crate::weburl::opt_view(r[i].2) == crate::weburl::opt_view(p[r[i].0@].origin)
    &&& forall|k: Seq<char>| #[trigger] p.dom().contains(k) ==> exists|i: int| 0 <= i < r.len() && (#[trigger] r[i]).0@ == k
}

/// Each path of `p` once, with the report name of its source and its origin.
pub fn provenance_records(p: &ProvenanceMapDetailed) -> (r: Vec<(String, String, Option<String>)>)
    ensures
        records_of(r@, p@),
{
    let entries = p.latest();
    let mut out: Vec<(String, String, Option<String>)> = Vec::new();
    let mut i: usize = 0;
    while i < entries.len()
        invariant
            i <= entries@.len(),
            crate::provenance::lists_map(entries@, p@),
            out@.len() == i,
            forall|m: int| 0 <= m < i ==> (#[trigger] out@[m]).0@ == entries@[m].0.0@
                && out@[m].1@ == source_text(Some(entries@[m].1.source))
                && crate::weburl::opt_view(out@[m].2) == crate::weburl::opt_view(entries@[m].1.origin),
        decreases entries@.len() - i,
    {
        let label = render_source(Some(&entries[i].1.source));
        let origin = match &entries[i].1.origin {
            Some(o) => Some(owned(o.as_str())),
            None => None,
        };
        out.push((owned(entries[i].0.0.as_str()), label, origin));
        i = i + 1;
    }
    proof {
        assert forall|a: int, b: int| 0 <= a < b < out@.len() implies (#[trigger] out@[a]).0@ != (#[trigger] out@[b]).0@ by {
            assert(entries@[a].0.0@ != entries@[b].0.0@);
        }
        assert forall|m: int| 0 <= m < out@.len() implies p@.dom().contains((#[trigger] out@[m]).0@)
            && out@[m].1@ == source_text(Some(p@[out@[m].0@].source))
            && crate::weburl::opt_view(out@[m].2) == crate::weburl::opt_view(p@[out@[m].0@].origin) by {
            assert(p@.dom().contains(entries@[m].0.0@));
        }
        assert forall|k: Seq<char>| #[trigger] p@.dom().contains(k) implies exists|x: int| 0 <= x < out@.len() && (#[trigger] out@[x]).0@ == k by {
            let x = choose|x: int| 0 <= x < entries@.len() && (#[trigger] entries@[x]).0.0@ == k;
            assert(out@[x].0@ == k);
        }
    }
    out
}

/// The report names the TLS mode that a recognised name selects: lower-cased, the name
/// shown is the name given, with `off` and `false` read as `disabled`. Distinct recognised
/// names thus show distinct modes, and a name that disables TLS never shows as `System`.
pub proof fn lemma_tls_name_round_trip(raw: String)
    requires
        crate::resolve::tls_warning(Some(raw)).len() == 0,
    ensures
        crate::text::ascii_lower(tls_text(crate::resolve::tls_mode_of(Some(raw))))
            == (if raw@ == "off"@ || raw@ == "false"@ { "disabled"@ } else { raw@ }),
{
    reveal_strlit("Disabled");
    reveal_strlit("disabled");
    reveal_strlit("Strict");
    reveal_strlit("strict");
    reveal_strlit("System");
    reveal_strlit("system");
    reveal_strlit("off");
    reveal_strlit("false");
    let shown = tls_text(crate::resolve::tls_mode_of(Some(raw)));
    let want = if raw@ == "off"@ || raw@ == "false"@ { "disabled"@ } else { raw@ };
    assert(crate::text::ascii_lower(shown) =~= want);
}

/// The report names the exporter that a recognised name selects: lower-cased, the name shown
/// is the name given, with `off` and `disabled` read as `none`.
pub proof fn lemma_exporter_name_round_trip(raw: String)
    requires
        crate::resolve::exporter_warning(Some(raw)).len() == 0,
    ensures
        crate::text::ascii_lower(exporter_text(crate::resolve::exporter_of(Some(raw))))
            == (if raw@ == "off"@ || raw@ == "disabled"@ { "none"@ } else { raw@ }),
{
    reveal_strlit("Otlp");
    reveal_strlit("otlp");
    reveal_strlit("Stdout");
    reveal_strlit("stdout");
    reveal_strlit("None");
    reveal_strlit("none");
    reveal_strlit("off");
    reveal_strlit("disabled");
    let shown = exporter_text(crate::resolve::exporter_of(Some(raw)));
    let want = if raw@ == "off"@ || raw@ == "disabled"@ { "none"@ } else { raw@ };
    if raw@ == "otlp"@ {
        assert(crate::text::ascii_lower("Otlp"@) =~= "otlp"@);
    } else if raw@ == "stdout"@ {
        assert(crate::text::ascii_lower("Stdout"@) =~= "stdout"@);
    } else {
        assert(shown == "None"@);
        assert(crate::text::ascii_lower("None"@) =~= "none"@);
    }
    assert(crate::text::ascii_lower(shown) =~= want);
}

} // verus!
