//! The tool surface of the MCP server: the advertised descriptor, the
//! server's identity record, and the dispatch of a `calculate_sdlt` call to
//! the calculator. The transport itself (framing, standard I/O) lives
//! outside the library; it hands the argument in as a `PropertyInput` and
//! sends the `CallOutcome` back.

use crate::sdlt::{MAX_VALUE_PENCE, centipence_to_pence, compute, lemma_tax_bounded, round_to_pence, tax_centipence};
use crate::text::{money_seq, pence_to_money};
use vstd::prelude::*;

verus! {

/// The `property_value` argument of a tool call, as the argument decoder
/// saw it.
#[derive(Clone, Copy, Debug)]
pub enum PropertyInput {
    /// `property_value` was absent from the call's arguments.
    Missing,
    /// `property_value` was present but not a finite non-negative number.
    Invalid,
    /// A finite non-negative value, in whole pence.
    Value(u64),
}

/// The result of a `calculate_sdlt` call.
#[derive(Debug)]
pub enum CallOutcome {
    /// A success result whose content is this single text element.
    Success(String),
    /// A tool-level error result: the value was present but not valid.
    InvalidInput,
}

/// The text of a successful response, for a value and a tax in pence.
pub open spec fn success_text(value_pence: int, tax_pence: int) -> Seq<char> {
    "SDLT for £"@ + money_seq(value_pence) + " is £"@ + money_seq(tax_pence)
}

/// The text returned when `property_value` is absent.
pub open spec fn missing_text() -> Seq<char> {
    "Property value is missing."@
}

/// What a `calculate_sdlt` call must return for each input: the fixed
/// message on a missing argument (a success, not an error), a tool-level
/// error on an invalid one, and otherwise the rendered value and tax, the
/// tax computed exactly and rounded to pence half away from zero.
pub open spec fn outcome_matches(input: PropertyInput, r: CallOutcome) -> bool {
    match input {
        PropertyInput::Missing => r matches CallOutcome::Success(s) && s@ == missing_text(),
        PropertyInput::Invalid => r matches CallOutcome::InvalidInput,
        PropertyInput::Value(p) => r matches CallOutcome::Success(s) && s@ == success_text(
            p as int,
            centipence_to_pence(tax_centipence(p as int)),
        ),
    }
}

/// The name under which the tool is advertised.
pub open spec fn tool_name_text() -> Seq<char> {
    "calculate_sdlt"@
}

/// The advertised human description of the tool.
pub open spec fn tool_description_text() -> Seq<char> {
    "Calculate UK SDLT - property tax"@
}

/// The JSON schema of the tool's input: one required numeric property.
pub open spec fn input_schema_text() -> Seq<char> {
    "{\"type\":\"object\",\"properties\":{\"property_value\":{\"type\":\"number\"}},\"required\":[\"property_value\"]}"@
}

/// The protocol version the server advertises at `initialize`.
pub open spec fn protocol_version_text() -> Seq<char> {
    "2024-11-05"@
}

/// The free-text instructions the server advertises at `initialize`.
pub open spec fn instructions_text() -> Seq<char> {
    "This server provides a calculator tool to work out UK SDLT"@
}

/// The advertised metadata by which a client discovers the tool.
pub struct ToolDescriptor {
    pub name: String,
    pub description: String,
    pub input_schema: String,
}

/// The server's identity record, as answered to `initialize`.
pub struct ServerInfo {
    pub protocol_version: String,
    pub tools_enabled: bool,
    pub instructions: String,
}

/// The SDLT calculator behind the one advertised tool.
#[derive(Clone, Copy)]
pub struct Calculator;

impl Calculator {
    pub fn new() -> (c: Calculator) {
        Calculator
    }

    /// Services one `calculate_sdlt` call.
    pub fn calculate_sdlt(&self, input: PropertyInput) -> (r: CallOutcome)
        requires
            input matches PropertyInput::Value(p) ==> p <= MAX_VALUE_PENCE,
        ensures
            outcome_matches(input, r),
    {
        match input {
            PropertyInput::Missing => CallOutcome::Success(
                String::from_str("Property value is missing."),
            ),
            PropertyInput::Invalid => CallOutcome::InvalidInput,
            PropertyInput::Value(p) => {
                proof {
                    lemma_tax_bounded(p as int);
                }
                let tax_pence = round_to_pence(compute(p));
                let mut s = String::from_str("SDLT for £");
                let value_txt = pence_to_money(p);
                s.append(value_txt.as_str());
                s.append(" is £");
                let tax_txt = pence_to_money(tax_pence);
                s.append(tax_txt.as_str());
                proof {
                    assert(s@ =~= success_text(
                        p as int,
                        centipence_to_pence(tax_centipence(p as int)),
                    ));
                }
                CallOutcome::Success(s)
            },
        }
    }

    /// The list that a `tools/list` answers with: exactly one descriptor,
    /// for `calculate_sdlt`, with its schema.
    pub fn list_tools(&self) -> (tools: Vec<ToolDescriptor>)
        ensures
            tools.len() == 1,
            tools[0].name@ == tool_name_text(),
            tools[0].description@ == tool_description_text(),
            tools[0].input_schema@ == input_schema_text(),
    {
        let descriptor = ToolDescriptor {
            name: String::from_str("calculate_sdlt"),
            description: String::from_str("Calculate UK SDLT - property tax"),
            input_schema: String::from_str(
                "{\"type\":\"object\",\"properties\":{\"property_value\":{\"type\":\"number\"}},\"required\":[\"property_value\"]}",
            ),
        };
        let mut tools: Vec<ToolDescriptor> = Vec::new();
        tools.push(descriptor);
        tools
    }

    /// The identity record answered to `initialize`: the protocol version,
    /// the `tools` capability, and the instructions line.
    pub fn get_info(&self) -> (info: ServerInfo)
        ensures
            info.protocol_version@ == protocol_version_text(),
            info.tools_enabled,
            info.instructions@ == instructions_text(),
    {
        ServerInfo {
            protocol_version: String::from_str("2024-11-05"),
            tools_enabled: true,
            instructions: String::from_str(
                "This server provides a calculator tool to work out UK SDLT",
            ),
        }
    }
}

/// Repeated identical calls produce identical response content: any two
/// outcomes that `calculate_sdlt` may return for one input are of the same
/// variant, with equal text.
pub proof fn lemma_call_idempotent(input: PropertyInput, r1: CallOutcome, r2: CallOutcome)
    requires
        outcome_matches(input, r1),
        outcome_matches(input, r2),
    ensures
        match (r1, r2) {
            (CallOutcome::Success(s1), CallOutcome::Success(s2)) => s1@ == s2@,
            (CallOutcome::InvalidInput, CallOutcome::InvalidInput) => true,
            _ => false,
        },
{
}

} // verus!
