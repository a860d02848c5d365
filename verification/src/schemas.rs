//! The custom-resource schema fragments that constrain the Ephemeron on
//! the wire, as plain modelled values.
//!
//! Three fields carry hand-written schemas: the workload port, the observed
//! generation, and the status conditions — the last declaring the list as a
//! map keyed by `type`, which is what lets two field managers own one
//! condition each under server-side apply. The process boundary renders
//! these values into the schema document; their content is fixed here.
use vstd::prelude::*;

use crate::conditions::spec_status_parse;
use crate::resource::port_in_range;

verus! {

/// The schema of an integer field with an inclusive range.
#[derive(Debug, Clone, PartialEq)]
pub struct PortSchema {
    /// The JSON type.
    pub type_: String,
    /// The least allowed value.
    pub minimum: i64,
    /// The greatest allowed value.
    pub maximum: i64,
}

/// The schema of the observed-generation field.
#[derive(Debug, Clone, PartialEq)]
pub struct ObservedGenerationSchema {
    /// The JSON type.
    pub type_: String,
    /// The integer format.
    pub format: String,
    /// The least allowed value.
    pub minimum: i64,
}

/// The schema of one property of a condition object.
#[derive(Debug, Clone, PartialEq)]
pub struct ConditionPropertySchema {
    /// The property's name.
    pub name: String,
    /// The JSON type.
    pub type_: String,
    /// The value format, if constrained.
    pub format: Option<String>,
    /// The default value, if one exists.
    pub default: Option<String>,
    /// The allowed values; empty when unconstrained.
    pub allowed: Vec<String>,
    /// The pattern the value must match, if constrained.
    pub pattern: Option<String>,
}

/// The schema of the conditions list.
#[derive(Debug, Clone, PartialEq)]
pub struct ConditionsSchema {
    /// The JSON type of the list.
    pub type_: String,
    /// How the orchestrator merges the list: as a map.
    pub list_type: String,
    /// The fields that key the map.
    pub list_map_keys: Vec<String>,
    /// The JSON type of each item.
    pub item_type: String,
    /// The properties of each item.
    pub properties: Vec<ConditionPropertySchema>,
    /// The properties each item must carry.
    pub required: Vec<String>,
}

/// The schema bound on the workload port: an integer, and exactly the
/// valid TCP ports the model's own rule admits.
pub fn port() -> (r: PortSchema)
    ensures
        r.type_@ == "integer"@,
        r.minimum == 1,
        r.maximum == 65535,
        forall|p: int| (r.minimum <= p && p <= r.maximum) == port_in_range(p),
{
    PortSchema { type_: "integer".to_owned(), minimum: 1, maximum: 65535 }
}

/// The schema of the observed generation: a non-negative 64-bit integer.
pub fn observed_generation() -> (r: ObservedGenerationSchema)
    ensures
        r.type_@ == "integer"@,
        r.format@ == "int64"@,
        r.minimum == 0,
{
    ObservedGenerationSchema {
        type_: "integer".to_owned(),
        format: "int64".to_owned(),
        minimum: 0,
    }
}

/// The schema of `status.conditions`: an array merged as a map keyed by
/// `type`, whose items carry a transition time, a tri-state status — with
/// exactly the three wire forms the codec accepts, defaulting to
/// `Unknown` — and the condition type.
pub fn conditions() -> (r: ConditionsSchema)
    ensures
        r.type_@ == "array"@,
        r.list_type@ == "map"@,
        r.list_map_keys@.len() == 1 && r.list_map_keys@[0]@ == "type"@,
        r.item_type@ == "object"@,
        r.required@.len() == 3,
        r.required@[0]@ == "lastTransitionTime"@,
        r.required@[1]@ == "status"@,
        r.required@[2]@ == "type"@,
        r.properties@.len() == 3,
        r.properties@[0].name@ == "lastTransitionTime"@ && r.properties@[0].type_@ == "string"@
            && (r.properties@[0].format matches Some(f) && f@ == "date-time"@)
            && r.properties@[0].default is None && r.properties@[0].allowed@.len() == 0
            && r.properties@[0].pattern is None,
        r.properties@[1].name@ == "status"@ && r.properties@[1].type_@ == "string"@
            && r.properties@[1].format is None && (r.properties@[1].default matches Some(d) && d@
            == "Unknown"@) && r.properties@[1].pattern is None,
        r.properties@[1].allowed@.len() == 3,
        r.properties@[1].allowed@[0]@ == "Unknown"@,
        r.properties@[1].allowed@[1]@ == "True"@,
        r.properties@[1].allowed@[2]@ == "False"@,
        forall|i: int|
            0 <= i < 3 ==> spec_status_parse(#[trigger] r.properties@[1].allowed@[i]@) is Some,
        r.properties@[2].name@ == "type"@ && r.properties@[2].type_@ == "string"@
            && r.properties@[2].format is None && r.properties@[2].default is None
            && r.properties@[2].allowed@.len() == 0 && (r.properties@[2].pattern matches Some(p)
            && p@ == "^([A-Za-z0-9][-A-Za-z0-9_.]*)?[A-Za-z0-9]$"@),
{
    let mut list_map_keys: Vec<String> = Vec::new();
    list_map_keys.push("type".to_owned());
    let mut required: Vec<String> = Vec::new();
    required.push("lastTransitionTime".to_owned());
    required.push("status".to_owned());
    required.push("type".to_owned());
    let mut allowed: Vec<String> = Vec::new();
    allowed.push("Unknown".to_owned());
    allowed.push("True".to_owned());
    allowed.push("False".to_owned());
    let mut properties: Vec<ConditionPropertySchema> = Vec::new();
    properties.push(
        ConditionPropertySchema {
            name: "lastTransitionTime".to_owned(),
            type_: "string".to_owned(),
            format: Some("date-time".to_owned()),
            default: None,
            allowed: Vec::new(),
            pattern: None,
        },
    );
    properties.push(
        ConditionPropertySchema {
            name: "status".to_owned(),
            type_: "string".to_owned(),
            format: None,
            default: Some("Unknown".to_owned()),
            allowed,
            pattern: None,
        },
    );
    properties.push(
        ConditionPropertySchema {
            name: "type".to_owned(),
            type_: "string".to_owned(),
            format: None,
            default: None,
            allowed: Vec::new(),
            pattern: Some("^([A-Za-z0-9][-A-Za-z0-9_.]*)?[A-Za-z0-9]$".to_owned()),
        },
    );
    let r = ConditionsSchema {
        type_: "array".to_owned(),
        list_type: "map".to_owned(),
        list_map_keys,
        item_type: "object".to_owned(),
        properties,
        required,
    };
    proof {
        reveal_strlit("Unknown");
        reveal_strlit("True");
        reveal_strlit("False");
    }
    r
}

} // verus!
