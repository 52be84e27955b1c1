//! The tool catalog: a fixed, ordered list of the three tool descriptors,
//! each with a JSON-Schema-shaped input descriptor.

use vstd::prelude::*;

verus! {

/// The primitive type a schema property admits.
pub enum PropertyType {
    Text,
    Integer,
}

/// One named property of an input schema.
pub struct PropertySchema {
    pub name: String,
    pub property_type: PropertyType,
    pub description: String,
}

/// A JSON-Schema-shaped input descriptor: an object with named properties of
/// primitive type, a required-field list, and a flag admitting or forbidding
/// unlisted properties.
pub struct InputSchema {
    pub properties: Vec<PropertySchema>,
    pub required: Vec<String>,
    pub additional_properties: bool,
}

/// One tool: its name, a human-readable description, and its input schema.
pub struct ToolDescription {
    pub name: String,
    pub description: String,
    pub input_schema: InputSchema,
}

/// What `describe` returns.
pub struct ListToolsResult {
    pub tools: Vec<ToolDescription>,
}

/// The descriptor of `get_time_utc`: no arguments, none required, unlisted
/// properties forbidden.
pub open spec fn is_get_time_utc_tool(d: ToolDescription) -> bool {
    &&& d.name@ == "get_time_utc"@
    &&& d.description@ == "Get the current UTC time as a UNIX timestamp and RFC 2822 string"@
    &&& d.input_schema.properties@.len() == 0
    &&& d.input_schema.required@.len() == 0
    &&& d.input_schema.additional_properties == false
}

/// The descriptor of `parse_time`: one required text argument
/// `time_rfc2822`, unlisted properties forbidden.
pub open spec fn is_parse_time_tool(d: ToolDescription) -> bool {
    &&& d.name@ == "parse_time"@
    &&& d.description@ == "Parse an RFC 2822 datetime string and return UTC timestamp and RFC 2822"@
    &&& d.input_schema.properties@.len() == 1
    &&& d.input_schema.properties@[0].name@ == "time_rfc2822"@
    &&& d.input_schema.properties@[0].property_type is Text
    &&& d.input_schema.properties@[0].description@
        == "Datetime in RFC 2822 format, e.g. 'Mon, 02 Jan 2006 15:04:05 +0000'"@
    &&& d.input_schema.required@.len() == 1
    &&& d.input_schema.required@[0]@ == "time_rfc2822"@
    &&& d.input_schema.additional_properties == false
}

/// The descriptor of `time_offset`: two required integer arguments
/// `timestamp` and `offset`, unlisted properties forbidden.
pub open spec fn is_time_offset_tool(d: ToolDescription) -> bool {
    &&& d.name@ == "time_offset"@
    &&& d.description@ == "Apply an offset (in seconds) to a UTC timestamp and return the new time"@
    &&& d.input_schema.properties@.len() == 2
    &&& d.input_schema.properties@[0].name@ == "timestamp"@
    &&& d.input_schema.properties@[0].property_type is Integer
    &&& d.input_schema.properties@[0].description@ == "Base UNIX timestamp (seconds)"@
    &&& d.input_schema.properties@[1].name@ == "offset"@
    &&& d.input_schema.properties@[1].property_type is Integer
    &&& d.input_schema.properties@[1].description@
        == "Offset in seconds to add (negative to subtract)"@
    &&& d.input_schema.required@.len() == 2
    &&& d.input_schema.required@[0]@ == "timestamp"@
    &&& d.input_schema.required@[1]@ == "offset"@
    &&& d.input_schema.additional_properties == false
}

/// Returns the fixed catalog: exactly the three tools, in order.  Never
/// fails and has no side effects.
pub fn describe() -> (r: ListToolsResult)
    ensures
        r.tools@.len() == 3,
        is_get_time_utc_tool(r.tools@[0]),
        is_parse_time_tool(r.tools@[1]),
        is_time_offset_tool(r.tools@[2]),
{
    let get_time_utc_tool = ToolDescription {
        name: "get_time_utc".to_owned(),
        description: "Get the current UTC time as a UNIX timestamp and RFC 2822 string".to_owned(),
        input_schema: InputSchema {
            properties: Vec::new(),
            required: Vec::new(),
            additional_properties: false,
        },
    };
    let mut parse_time_properties: Vec<PropertySchema> = Vec::new();
    parse_time_properties.push(
        PropertySchema {
            name: "time_rfc2822".to_owned(),
            property_type: PropertyType::Text,
            description: "Datetime in RFC 2822 format, e.g. 'Mon, 02 Jan 2006 15:04:05 +0000'"
                .to_owned(),
        },
    );
    let mut parse_time_required: Vec<String> = Vec::new();
    parse_time_required.push("time_rfc2822".to_owned());
    let parse_time_tool = ToolDescription {
        name: "parse_time".to_owned(),
        description: "Parse an RFC 2822 datetime string and return UTC timestamp and RFC 2822"
            .to_owned(),
        input_schema: InputSchema {
            properties: parse_time_properties,
            required: parse_time_required,
            additional_properties: false,
        },
    };
    let mut time_offset_properties: Vec<PropertySchema> = Vec::new();
    time_offset_properties.push(
        PropertySchema {
            name: "timestamp".to_owned(),
            property_type: PropertyType::Integer,
            description: "Base UNIX timestamp (seconds)".to_owned(),
        },
    );
    time_offset_properties.push(
        PropertySchema {
            name: "offset".to_owned(),
            property_type: PropertyType::Integer,
            description: "Offset in seconds to add (negative to subtract)".to_owned(),
        },
    );
    let mut time_offset_required: Vec<String> = Vec::new();
    time_offset_required.push("timestamp".to_owned());
    time_offset_required.push("offset".to_owned());
    let time_offset_tool = ToolDescription {
        name: "time_offset".to_owned(),
        description: "Apply an offset (in seconds) to a UTC timestamp and return the new time"
            .to_owned(),
        input_schema: InputSchema {
            properties: time_offset_properties,
            required: time_offset_required,
            additional_properties: false,
        },
    };
    let mut tools: Vec<ToolDescription> = Vec::new();
    tools.push(get_time_utc_tool);
    tools.push(parse_time_tool);
    tools.push(time_offset_tool);
    ListToolsResult { tools }
}

} // verus!
