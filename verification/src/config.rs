//! Configuration resolution: raw trigger metadata and per-component route
//! entries, taken in under a strict schema (unknown fields rejected), are
//! turned into a validated, template-resolved configuration. Resolution is
//! all-or-nothing: any single field failure aborts the whole startup.

use vstd::prelude::*;

use crate::errors::{ConfigFault, TemplateFault, TriggerError};
use crate::parse::{dec_value, i32_numeral, i32_value, parse_i32, parse_u64, u64_numeral};
use crate::template::{
    lookup_from, lookup_value, resolve_template, spec_resolve, str_eq, Resolution,
};
use vstd::pervasive::unreached;

verus! {

/// Raw trigger-level metadata, exactly as configured (strings throughout).
#[derive(Debug, Clone)]
pub struct TriggerMetadata {
    /// The trigger type tag.
    pub trigger_type: String,
    /// Broker address; template-resolvable.
    pub address: String,
    /// Broker user name; template-resolvable.
    pub username: String,
    /// Broker password; template-resolvable.
    pub password: String,
    /// Keep-alive interval in seconds, as an unsigned decimal numeral.
    pub keep_alive_interval: String,
}

/// Raw per-component route entry, exactly as configured.
#[derive(Debug, Clone)]
pub struct MqttTriggerConfig {
    /// Execution-unit identifier; passed through verbatim.
    pub component: String,
    /// Broker topic filter; template-resolvable.
    pub topic: String,
    /// QoS level, as a signed decimal numeral.
    pub qos: String,
}

/// A resolved (component, qos, topic) binding. One listener task owns
/// exactly one route for its lifetime.
#[derive(Debug, Clone)]
pub struct RouteEntry {
    /// Execution-unit identifier.
    pub component_id: String,
    /// Broker-defined delivery guarantee level.
    pub qos: i32,
    /// Resolved broker topic filter.
    pub topic: String,
}

/// The fully resolved, process-wide trigger configuration: broker
/// credentials and address, keep-alive, and the ordered route set.
/// Read-only after construction.
#[derive(Debug, Clone)]
pub struct MqttTrigger {
    /// Resolved broker address.
    pub address: String,
    /// Resolved broker user name.
    pub username: String,
    /// Resolved broker password.
    pub password: String,
    /// Keep-alive interval in seconds.
    pub keep_alive_interval: u64,
    /// The ordered set of resolved routes.
    pub component_configs: Vec<RouteEntry>,
}

/// The field names the trigger-level schema admits.
pub open spec fn is_trigger_key(k: Seq<char>) -> bool {
    ||| k == "type"@
    ||| k == "address"@
    ||| k == "username"@
    ||| k == "password"@
    ||| k == "keep_alive_interval"@
}

/// The field names the route-level schema admits.
pub open spec fn is_route_key(k: Seq<char>) -> bool {
    ||| k == "component"@
    ||| k == "topic"@
    ||| k == "qos"@
}

/// How many entries from position `i` on bind the name `key`.
pub open spec fn count_from(fields: Seq<(String, String)>, key: Seq<char>, i: int) -> int
    decreases fields.len() - i,
{
    if i < 0 || i >= fields.len() {
        0
    } else {
        (if fields[i].0@ == key {
            1int
        } else {
            0int
        }) + count_from(fields, key, i + 1)
    }
}

proof fn lemma_count_nonneg(fields: Seq<(String, String)>, key: Seq<char>, i: int)
    ensures
        count_from(fields, key, i) >= 0,
    decreases fields.len() - i,
{
    if !(i < 0 || i >= fields.len()) {
        lemma_count_nonneg(fields, key, i + 1);
    }
}

/// A name occurs at least once exactly when a lookup for it succeeds.
proof fn lemma_count_lookup(fields: Seq<(String, String)>, key: Seq<char>, i: int)
    ensures
        count_from(fields, key, i) >= 1 <==> lookup_from(fields, key, i) is Some,
    decreases fields.len() - i,
{
    if !(i < 0 || i >= fields.len()) {
        lemma_count_lookup(fields, key, i + 1);
        lemma_count_nonneg(fields, key, i + 1);
    }
}

/// A raw trigger field list is well formed when every field name is in
/// the schema and each schema field is set exactly once.
pub open spec fn trigger_fields_wf(fields: Seq<(String, String)>) -> bool {
    &&& forall|i: int| 0 <= i < fields.len() ==> is_trigger_key(#[trigger] fields[i].0@)
    &&& count_from(fields, "type"@, 0) == 1
    &&& count_from(fields, "address"@, 0) == 1
    &&& count_from(fields, "username"@, 0) == 1
    &&& count_from(fields, "password"@, 0) == 1
    &&& count_from(fields, "keep_alive_interval"@, 0) == 1
}

/// A raw route field list is well formed likewise, over its own schema.
pub open spec fn route_fields_wf(fields: Seq<(String, String)>) -> bool {
    &&& forall|i: int| 0 <= i < fields.len() ==> is_route_key(#[trigger] fields[i].0@)
    &&& count_from(fields, "component"@, 0) == 1
    &&& count_from(fields, "topic"@, 0) == 1
    &&& count_from(fields, "qos"@, 0) == 1
}

/// The configuration fault names a real defect of the field list.
pub open spec fn schema_fault_truthful(
    e: TriggerError,
    fields: Seq<(String, String)>,
    trigger_level: bool,
) -> bool {
    match e {
        TriggerError::Config(ConfigFault::UnknownField { name }) => {
            &&& !(if trigger_level {
                is_trigger_key(name@)
            } else {
                is_route_key(name@)
            })
            &&& exists|i: int| 0 <= i < fields.len() && #[trigger] fields[i].0@ == name@
        },
        TriggerError::Config(ConfigFault::MissingField { name }) => count_from(
            fields,
            name@,
            0,
        ) == 0,
        TriggerError::Config(ConfigFault::DuplicateField { name }) => count_from(
            fields,
            name@,
            0,
        ) >= 2,
        _ => false,
    }
}

/// Number of entries binding `key`.
fn count_key(fields: &Vec<(String, String)>, key: &str) -> (c: usize)
    ensures
        c as int == count_from(fields@, key@, 0),
{
    let mut c: usize = 0;
    let mut k: usize = 0;
    while k < fields.len()
        invariant
            k <= fields.len(),
            c <= k,
            c + count_from(fields@, key@, k as int) == count_from(fields@, key@, 0),
        decreases fields.len() - k,
    {
        if str_eq(fields[k].0.as_str(), key) {
            c = c + 1;
        }
        k = k + 1;
    }
    c
}

/// Checks that `key` is set exactly once, reporting a missing or a
/// duplicate field otherwise.
fn require_unique(fields: &Vec<(String, String)>, key: &str) -> (r: Option<TriggerError>)
    ensures
        r is None <==> count_from(fields@, key@, 0) == 1,
        r matches Some(e) ==> match e {
            TriggerError::Config(ConfigFault::MissingField { name }) => name@ == key@
                && count_from(fields@, key@, 0) == 0,
            TriggerError::Config(ConfigFault::DuplicateField { name }) => name@ == key@
                && count_from(fields@, key@, 0) >= 2,
            _ => false,
        },
{
    let c = count_key(fields, key);
    if c == 0 {
        Some(TriggerError::Config(ConfigFault::MissingField { name: String::from_str(key) }))
    } else if c > 1 {
        Some(TriggerError::Config(ConfigFault::DuplicateField { name: String::from_str(key) }))
    } else {
        None
    }
}

/// Value of a field known to be set exactly once.
fn must_value(fields: &Vec<(String, String)>, key: &str) -> (v: String)
    requires
        count_from(fields@, key@, 0) == 1,
    ensures
        lookup_from(fields@, key@, 0) == Some(v@),
{
    proof {
        lemma_count_lookup(fields@, key@, 0);
    }
    match lookup_value(fields, key) {
        Some(v) => v,
        None => unreached(),
    }
}

/// Takes raw trigger metadata in from a field list under the strict
/// schema: succeeds exactly on well-formed lists, and then carries each
/// field's configured value.
pub fn trigger_metadata_from_fields(fields: &Vec<(String, String)>) -> (r: Result<
    TriggerMetadata,
    TriggerError,
>)
    ensures
        r is Ok <==> trigger_fields_wf(fields@),
        r matches Ok(m) ==> {
            &&& lookup_from(fields@, "type"@, 0) == Some(m.trigger_type@)
            &&& lookup_from(fields@, "address"@, 0) == Some(m.address@)
            &&& lookup_from(fields@, "username"@, 0) == Some(m.username@)
            &&& lookup_from(fields@, "password"@, 0) == Some(m.password@)
            &&& lookup_from(fields@, "keep_alive_interval"@, 0) == Some(m.keep_alive_interval@)
        },
        r matches Err(e) ==> schema_fault_truthful(e, fields@, true),
{
    let mut i: usize = 0;
    while i < fields.len()
        invariant
            i <= fields.len(),
            forall|k: int| 0 <= k < i ==> is_trigger_key(#[trigger] fields@[k].0@),
        decreases fields.len() - i,
    {
        let known = str_eq(fields[i].0.as_str(), "type") || str_eq(fields[i].0.as_str(), "address")
            || str_eq(fields[i].0.as_str(), "username") || str_eq(
            fields[i].0.as_str(),
            "password",
        ) || str_eq(fields[i].0.as_str(), "keep_alive_interval");
        if !known {
            return Err(
                TriggerError::Config(ConfigFault::UnknownField { name: fields[i].0.clone() }),
            );
        }
        i = i + 1;
    }
    if let Some(e) = require_unique(fields, "type") {
        return Err(e);
    }
    if let Some(e) = require_unique(fields, "address") {
        return Err(e);
    }
    if let Some(e) = require_unique(fields, "username") {
        return Err(e);
    }
    if let Some(e) = require_unique(fields, "password") {
        return Err(e);
    }
    if let Some(e) = require_unique(fields, "keep_alive_interval") {
        return Err(e);
    }
    Ok(
        TriggerMetadata {
            trigger_type: must_value(fields, "type"),
            address: must_value(fields, "address"),
            username: must_value(fields, "username"),
            password: must_value(fields, "password"),
            keep_alive_interval: must_value(fields, "keep_alive_interval"),
        },
    )
}

/// Takes a raw route entry in from a field list under the strict schema.
pub fn route_config_from_fields(fields: &Vec<(String, String)>) -> (r: Result<
    MqttTriggerConfig,
    TriggerError,
>)
    ensures
        r is Ok <==> route_fields_wf(fields@),
        r matches Ok(c) ==> {
            &&& lookup_from(fields@, "component"@, 0) == Some(c.component@)
            &&& lookup_from(fields@, "topic"@, 0) == Some(c.topic@)
            &&& lookup_from(fields@, "qos"@, 0) == Some(c.qos@)
        },
        r matches Err(e) ==> schema_fault_truthful(e, fields@, false),
{
    let mut i: usize = 0;
    while i < fields.len()
        invariant
            i <= fields.len(),
            forall|k: int| 0 <= k < i ==> is_route_key(#[trigger] fields@[k].0@),
        decreases fields.len() - i,
    {
        let known = str_eq(fields[i].0.as_str(), "component") || str_eq(
            fields[i].0.as_str(),
            "topic",
        ) || str_eq(fields[i].0.as_str(), "qos");
        if !known {
            return Err(
                TriggerError::Config(ConfigFault::UnknownField { name: fields[i].0.clone() }),
            );
        }
        i = i + 1;
    }
    if let Some(e) = require_unique(fields, "component") {
        return Err(e);
    }
    if let Some(e) = require_unique(fields, "topic") {
        return Err(e);
    }
    if let Some(e) = require_unique(fields, "qos") {
        return Err(e);
    }
    Ok(
        MqttTriggerConfig {
            component: must_value(fields, "component"),
            topic: must_value(fields, "topic"),
            qos: must_value(fields, "qos"),
        },
    )
}

/// The raw route resolves: its QoS is a signed numeral in range and its
/// topic's placeholders are all defined.
pub open spec fn route_resolvable(c: MqttTriggerConfig, vars: Seq<(String, String)>) -> bool {
    i32_numeral(c.qos@) && spec_resolve(c.topic@, vars) is Resolved
}

/// The resolved route is the raw route's content: component verbatim,
/// QoS as the numeral's value, topic template-resolved.
pub open spec fn route_matches(
    c: MqttTriggerConfig,
    vars: Seq<(String, String)>,
    rt: RouteEntry,
) -> bool {
    &&& rt.component_id@ == c.component@
    &&& rt.qos == i32_value(c.qos@)
    &&& spec_resolve(c.topic@, vars) == Resolution::Resolved(rt.topic@)
}

/// The error names the raw route's real defect.
pub open spec fn route_error_truthful(
    e: TriggerError,
    c: MqttTriggerConfig,
    vars: Seq<(String, String)>,
) -> bool {
    match e {
        TriggerError::Parse { field } => field@ == "qos"@ && !i32_numeral(c.qos@),
        TriggerError::Template(TemplateFault::UndefinedVariable { name }) => spec_resolve(
            c.topic@,
            vars,
        ) == Resolution::Undefined(name@),
        TriggerError::Template(TemplateFault::UnclosedPlaceholder) => spec_resolve(
            c.topic@,
            vars,
        ) == Resolution::Unclosed,
        _ => false,
    }
}

/// Resolves one raw route entry: parses the QoS numeral and substitutes
/// the topic's placeholders. Succeeds exactly when both steps can.
pub fn resolve_route(config: &MqttTriggerConfig, vars: &Vec<(String, String)>) -> (r: Result<
    RouteEntry,
    TriggerError,
>)
    ensures
        r is Ok <==> route_resolvable(*config, vars@),
        r matches Ok(rt) ==> route_matches(*config, vars@, rt),
        r matches Err(e) ==> route_error_truthful(e, *config, vars@),
{
    let component_id = config.component.clone();
    let qos = match parse_i32(config.qos.as_str()) {
        Some(q) => q,
        None => {
            return Err(TriggerError::Parse { field: String::from_str("qos") });
        },
    };
    let topic = match resolve_template(config.topic.as_str(), vars) {
        Ok(t) => t,
        Err(f) => {
            return Err(TriggerError::Template(f));
        },
    };
    Ok(RouteEntry { component_id, qos, topic })
}

/// The raw trigger metadata resolves: the three template-resolvable
/// fields have all their placeholders defined and the keep-alive field
/// is an unsigned numeral in range.
pub open spec fn trigger_resolvable(m: TriggerMetadata, vars: Seq<(String, String)>) -> bool {
    &&& spec_resolve(m.address@, vars) is Resolved
    &&& spec_resolve(m.username@, vars) is Resolved
    &&& spec_resolve(m.password@, vars) is Resolved
    &&& u64_numeral(m.keep_alive_interval@)
}

/// The whole raw configuration resolves: the trigger metadata and every
/// route entry.
pub open spec fn config_resolvable(
    m: TriggerMetadata,
    configs: Seq<MqttTriggerConfig>,
    vars: Seq<(String, String)>,
) -> bool {
    &&& trigger_resolvable(m, vars)
    &&& forall|i: int| 0 <= i < configs.len() ==> route_resolvable(#[trigger] configs[i], vars)
}

/// The resolved configuration is exactly the raw configuration's content:
/// each field template-resolved or parsed, and one resolved route per raw
/// route, in order.
pub open spec fn resolved_config_matches(
    m: TriggerMetadata,
    configs: Seq<MqttTriggerConfig>,
    vars: Seq<(String, String)>,
    t: MqttTrigger,
) -> bool {
    &&& spec_resolve(m.address@, vars) == Resolution::Resolved(t.address@)
    &&& spec_resolve(m.username@, vars) == Resolution::Resolved(t.username@)
    &&& spec_resolve(m.password@, vars) == Resolution::Resolved(t.password@)
    &&& t.keep_alive_interval == dec_value(m.keep_alive_interval@)
    &&& t.component_configs@.len() == configs.len()
    &&& forall|i: int|
        0 <= i < configs.len() ==> route_matches(
            #[trigger] configs[i],
            vars,
            t.component_configs@[i],
        )
}

/// The error names a real defect of the raw configuration.
pub open spec fn config_error_truthful(
    e: TriggerError,
    m: TriggerMetadata,
    configs: Seq<MqttTriggerConfig>,
    vars: Seq<(String, String)>,
) -> bool {
    match e {
        TriggerError::Parse { field } => {
            ||| (field@ == "keep_alive_interval"@ && !u64_numeral(m.keep_alive_interval@))
            ||| (field@ == "qos"@ && exists|i: int|
                0 <= i < configs.len() && !i32_numeral(#[trigger] configs[i].qos@))
        },
        TriggerError::Template(TemplateFault::UndefinedVariable { name }) => {
            ||| spec_resolve(m.address@, vars) == Resolution::Undefined(name@)
            ||| spec_resolve(m.username@, vars) == Resolution::Undefined(name@)
            ||| spec_resolve(m.password@, vars) == Resolution::Undefined(name@)
            ||| exists|i: int|
                0 <= i < configs.len() && spec_resolve(#[trigger] configs[i].topic@, vars)
                    == Resolution::Undefined(name@)
        },
        TriggerError::Template(TemplateFault::UnclosedPlaceholder) => {
            ||| spec_resolve(m.address@, vars) == Resolution::Unclosed
            ||| spec_resolve(m.username@, vars) == Resolution::Unclosed
            ||| spec_resolve(m.password@, vars) == Resolution::Unclosed
            ||| exists|i: int|
                0 <= i < configs.len() && spec_resolve(#[trigger] configs[i].topic@, vars)
                    == Resolution::Unclosed
        },
        _ => false,
    }
}

impl MqttTrigger {
    /// Resolves the whole raw configuration, all or nothing: template
    /// substitution for address, user name and password, the keep-alive
    /// numeral parsed, and every route resolved in order. Any single
    /// failure aborts resolution; no partial route set is ever produced.
    pub fn new(
        metadata: &TriggerMetadata,
        configs: &Vec<MqttTriggerConfig>,
        vars: &Vec<(String, String)>,
    ) -> (r: Result<MqttTrigger, TriggerError>)
        ensures
            r is Ok <==> config_resolvable(*metadata, configs@, vars@),
            r matches Ok(t) ==> resolved_config_matches(*metadata, configs@, vars@, t),
            r matches Err(e) ==> config_error_truthful(e, *metadata, configs@, vars@),
    {
        let address = match resolve_template(metadata.address.as_str(), vars) {
            Ok(s) => s,
            Err(f) => {
                return Err(TriggerError::Template(f));
            },
        };
        let username = match resolve_template(metadata.username.as_str(), vars) {
            Ok(s) => s,
            Err(f) => {
                return Err(TriggerError::Template(f));
            },
        };
        let password = match resolve_template(metadata.password.as_str(), vars) {
            Ok(s) => s,
            Err(f) => {
                return Err(TriggerError::Template(f));
            },
        };
        let keep_alive_interval = match parse_u64(metadata.keep_alive_interval.as_str()) {
            Some(v) => v,
            None => {
                return Err(
                    TriggerError::Parse { field: String::from_str("keep_alive_interval") },
                );
            },
        };
        let mut component_configs: Vec<RouteEntry> = Vec::new();
        let mut idx: usize = 0;
        while idx < configs.len()
            invariant
                idx <= configs.len(),
                component_configs@.len() == idx as int,
                forall|i: int|
                    0 <= i < idx ==> route_matches(
                        #[trigger] configs@[i],
                        vars@,
                        component_configs@[i],
                    ),
                forall|i: int| 0 <= i < idx ==> route_resolvable(#[trigger] configs@[i], vars@),
            decreases configs.len() - idx,
        {
            match resolve_route(&configs[idx], vars) {
                Ok(rt) => {
                    component_configs.push(rt);
                },
                Err(e) => {
                    return Err(e);
                },
            }
            idx = idx + 1;
        }
        Ok(MqttTrigger { address, username, password, keep_alive_interval, component_configs })
    }
}

/// The two raw route entries agree in content, character for character.
pub open spec fn raw_route_agrees(c1: MqttTriggerConfig, c2: MqttTriggerConfig) -> bool {
    c1.component@ == c2.component@ && c1.topic@ == c2.topic@ && c1.qos@ == c2.qos@
}

/// Law: configuration resolution is deterministic. Raw metadata, route
/// entries and variable stores that agree in content, character for
/// character, resolve to configurations that agree in content — the same
/// credentials, the same keep-alive, and the same route set in the same
/// order.
pub proof fn lemma_config_resolution_deterministic(
    m1: TriggerMetadata,
    m2: TriggerMetadata,
    cs1: Seq<MqttTriggerConfig>,
    cs2: Seq<MqttTriggerConfig>,
    vs1: Seq<(String, String)>,
    vs2: Seq<(String, String)>,
    t1: MqttTrigger,
    t2: MqttTrigger,
)
    requires
        m1.address@ == m2.address@,
        m1.username@ == m2.username@,
        m1.password@ == m2.password@,
        m1.keep_alive_interval@ == m2.keep_alive_interval@,
        cs1.len() == cs2.len(),
        forall|i: int| 0 <= i < cs1.len() ==> raw_route_agrees(#[trigger] cs1[i], cs2[i]),
        crate::template::stores_agree(vs1, vs2),
        resolved_config_matches(m1, cs1, vs1, t1),
        resolved_config_matches(m2, cs2, vs2, t2),
    ensures
        t1.address@ == t2.address@,
        t1.username@ == t2.username@,
        t1.password@ == t2.password@,
        t1.keep_alive_interval == t2.keep_alive_interval,
        t1.component_configs@.len() == t2.component_configs@.len(),
        forall|i: int|
            0 <= i < t1.component_configs@.len()
                ==> #[trigger] t1.component_configs@[i].component_id@
                == t2.component_configs@[i].component_id@ && t1.component_configs@[i].qos
                == t2.component_configs@[i].qos && t1.component_configs@[i].topic@
                == t2.component_configs@[i].topic@,
{
    crate::template::lemma_resolve_congruent(m1.address@, vs1, vs2, 0);
    crate::template::lemma_resolve_congruent(m1.username@, vs1, vs2, 0);
    crate::template::lemma_resolve_congruent(m1.password@, vs1, vs2, 0);
    assert forall|i: int| 0 <= i < t1.component_configs@.len() implies #[trigger]
    t1.component_configs@[i].component_id@ == t2.component_configs@[i].component_id@
        && t1.component_configs@[i].qos == t2.component_configs@[i].qos
        && t1.component_configs@[i].topic@ == t2.component_configs@[i].topic@ by {
        assert(route_matches(cs1[i], vs1, t1.component_configs@[i]));
        assert(route_matches(cs2[i], vs2, t2.component_configs@[i]));
        crate::template::lemma_resolve_congruent(cs1[i].topic@, vs1, vs2, 0);
    }
}

} // verus!
