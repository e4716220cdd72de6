//! The commands of the chain's command line client: their arguments, and
//! what is made of their output.

use crate::util::json::{
    element_of, i64_of_json, json_as_i64, json_as_str, json_element, json_is_number, json_member,
    json_of, json_parse, member_of, parsed_json, text_of_json, Json,
};
use serde_json::Value;
use vstd::prelude::*;

verus! {

/// The kind of a command.
#[derive(Clone, Copy, Debug, PartialEq, Eq, Structural)]
pub enum CommandType {
    Store,
    Instantiate,
    Query,
    Execute,
}

/// The texts of a list of strings.
pub open spec fn texts(v: Seq<String>) -> Seq<Seq<char>> {
    v.map_values(|s: String| s@)
}

/// The texts of a list with one string more are the texts of the list and
/// the text of the string.
pub proof fn lemma_texts_push(v: Seq<String>, s: String)
    ensures
        texts(v.push(s)) == texts(v).push(s@),
{
    assert(texts(v.push(s)) =~= texts(v).push(s@));
}

/// The arguments that a command of a kind begins with.
pub open spec fn base_args_of(cmd_type: CommandType) -> Seq<Seq<char>> {
    match cmd_type {
        CommandType::Store => seq!["tx"@, "wasm"@, "store"@],
        CommandType::Instantiate => seq!["tx"@, "wasm"@, "instantiate"@],
        CommandType::Query => seq!["query"@, "wasm"@, "contract-state"@, "smart"@],
        CommandType::Execute => seq!["tx"@, "wasm"@, "execute"@],
    }
}

/// The arguments of a command: those that its kind begins with, then the
/// given ones.
pub fn command_args(cmd_type: CommandType, args: &Vec<String>) -> (r: Vec<String>)
    ensures
        texts(r@) == base_args_of(cmd_type) + texts(args@),
{
    let mut r: Vec<String> = Vec::new();
    match cmd_type {
        CommandType::Store => {
            r.push("tx".to_owned());
            r.push("wasm".to_owned());
            r.push("store".to_owned());
        },
        CommandType::Instantiate => {
            r.push("tx".to_owned());
            r.push("wasm".to_owned());
            r.push("instantiate".to_owned());
        },
        CommandType::Query => {
            r.push("query".to_owned());
            r.push("wasm".to_owned());
            r.push("contract-state".to_owned());
            r.push("smart".to_owned());
        },
        CommandType::Execute => {
            r.push("tx".to_owned());
            r.push("wasm".to_owned());
            r.push("execute".to_owned());
        },
    }
    assert(texts(r@) =~= base_args_of(cmd_type));
    let ghost base = r@;
    let mut i: usize = 0;
    while i < args.len()
        invariant
            0 <= i <= args@.len(),
            texts(r@) == texts(base) + texts(args@.take(i as int)),
        decreases args@.len() - i,
    {
        let ghost before = r@;
        r.push(args[i].clone());
        proof {
            lemma_texts_push(before, args@[i as int]);
            lemma_texts_push(args@.take(i as int), args@[i as int]);
            assert(args@.take(i + 1) =~= args@.take(i as int).push(args@[i as int]));
            assert(texts(r@) =~= texts(base) + texts(args@.take(i + 1)));
        }
        i += 1;
    }
    assert(args@.take(args@.len() as int) =~= args@);
    r
}

/// What is read of the JSON that a command printed.
#[derive(Clone, Debug, PartialEq, Eq)]
pub struct CliOutput {
    /// Whether the member `code` is a number.
    pub code_is_number: bool,
    /// The member `code`, where it is a whole number of 64 bits.
    pub code: Option<i64>,
    /// The member `gas_used`, where it is a string.
    pub gas_used: Option<String>,
    /// The member `gas_wanted`, where it is a string.
    pub gas_wanted: Option<String>,
    /// The value of the first attribute of the first event of the first
    /// log, where it is a string.
    pub first_event_value: Option<String>,
    /// The value of the first attribute of the second event of the first
    /// log, where it is a string.
    pub second_event_value: Option<String>,
}

/// A `CliOutput` as a plain value.
pub ghost struct CliOutputView {
    pub code_is_number: bool,
    pub code: Option<i64>,
    pub gas_used: Option<Seq<char>>,
    pub gas_wanted: Option<Seq<char>>,
    pub first_event_value: Option<Seq<char>>,
    pub second_event_value: Option<Seq<char>>,
}

/// The text of a string that may be missing.
pub open spec fn text_of(s: Option<String>) -> Option<Seq<char>> {
    match s {
        Some(s) => Some(s@),
        None => None,
    }
}

impl View for CliOutput {
    type V = CliOutputView;

    open spec fn view(&self) -> CliOutputView {
        CliOutputView {
            code_is_number: self.code_is_number,
            code: self.code,
            gas_used: text_of(self.gas_used),
            gas_wanted: text_of(self.gas_wanted),
            first_event_value: text_of(self.first_event_value),
            second_event_value: text_of(self.second_event_value),
        }
    }
}

/// The value at the end of a path of member names that each lead to an
/// only or first element: the member `value` of the first attribute of the
/// event at `event` of the first log.
pub open spec fn event_value(json: Json, event: int) -> Option<Seq<char>> {
    text_of_json(
        member_of(
            element_of(
                member_of(
                    element_of(member_of(element_of(member_of(json, "logs"@), 0), "events"@), event),
                    "attributes"@,
                ),
                0,
            ),
            "value"@,
        ),
    )
}

/// What is read of a JSON value that a command printed.
pub open spec fn output_of(json: Json) -> CliOutputView {
    CliOutputView {
        code_is_number: member_of(json, "code"@) is Number,
        code: i64_of_json(member_of(json, "code"@)),
        gas_used: text_of_json(member_of(json, "gas_used"@)),
        gas_wanted: text_of_json(member_of(json, "gas_wanted"@)),
        first_event_value: event_value(json, 0),
        second_event_value: event_value(json, 1),
    }
}

/// What is read of the bytes that a command printed: `None` where they are
/// no JSON text.
pub open spec fn cli_output(stdout: Seq<u8>) -> Option<CliOutputView> {
    match parsed_json(stdout) {
        Some(json) => Some(output_of(json)),
        None => None,
    }
}

/// Reads the value of the first attribute of the event at `event` of the
/// first log.
fn read_event_value(json: &Value, event: usize) -> (r: Option<String>)
    ensures
        text_of(r) == event_value(json_of(*json), event as int),
{
    let logs = json_member(json, "logs");
    let log = json_element(&logs, 0);
    let events = json_member(&log, "events");
    let event = json_element(&events, event);
    let attributes = json_member(&event, "attributes");
    let attribute = json_element(&attributes, 0);
    json_as_str(&json_member(&attribute, "value"))
}

/// Reads the output of a command: the members `code`, `gas_used` and
/// `gas_wanted`, and the values of the first attributes of the first two
/// events of the first log. `None` where the bytes are no JSON text.
fn read_cli_output(stdout: &Vec<u8>) -> (r: Option<CliOutput>)
    ensures
        match r {
            Some(output) => cli_output(stdout@) == Some(output@),
            None => cli_output(stdout@) is None,
        },
{
    let json = match json_parse(stdout) {
        Some(json) => json,
        None => {
            return None;
        },
    };
    let code = json_member(&json, "code");
    Some(
        CliOutput {
            code_is_number: json_is_number(&code),
            code: json_as_i64(&code),
            gas_used: json_as_str(&json_member(&json, "gas_used")),
            gas_wanted: json_as_str(&json_member(&json, "gas_wanted")),
            first_event_value: read_event_value(&json, 0),
            second_event_value: read_event_value(&json, 1),
        },
    )
}

/// Why a command failed.
#[derive(Clone, Copy, Debug, PartialEq, Eq, Structural)]
pub enum ExecError {
    /// The command exited with a failure: its arguments were invalid.
    InvalidArgs,
    /// The command printed no JSON.
    Json,
    /// The chain answered with a code other than zero.
    Chain,
}

/// Whether the output holds the chain's rejection: a code that is a number
/// other than zero.
pub open spec fn is_rejection(output: CliOutputView) -> bool {
    output.code_is_number && output.code != Some(0i64)
}

/// What is made of what a command printed, given whether it exited with
/// success.
pub open spec fn exec_outcome(success: bool, output: Option<CliOutputView>) -> Result<
    CliOutputView,
    ExecError,
> {
    if !success {
        Err(ExecError::InvalidArgs)
    } else {
        match output {
            None => Err(ExecError::Json),
            Some(output) => output_outcome(output),
        }
    }
}

/// What is made of the output that was read of a command.
pub open spec fn output_outcome(output: CliOutputView) -> Result<CliOutputView, ExecError> {
    if is_rejection(output) {
        Err(ExecError::Chain)
    } else {
        Ok(output)
    }
}

/// Checks what was read of a command's output: a code other than zero is
/// the chain's rejection.
pub fn check_output(output: CliOutput) -> (r: Result<CliOutput, ExecError>)
    ensures
        match r {
            Ok(checked) => checked == output && output_outcome(output@) == Ok::<_, ExecError>(
                output@,
            ),
            Err(e) => output_outcome(output@) == Err::<CliOutputView, _>(e),
        },
{
    let zero = match output.code {
        Some(code) => code == 0,
        None => false,
    };
    if output.code_is_number && !zero {
        Err(ExecError::Chain)
    } else {
        Ok(output)
    }
}

/// Takes what a command of the chain's client did: whether it exited with
/// success, and what it printed. Fails with `InvalidArgs` where the
/// command failed, with `Json` where it printed no JSON, and with `Chain`
/// where the JSON holds a code other than zero.
pub fn exec_msg(success: bool, stdout: &Vec<u8>) -> (r: Result<CliOutput, ExecError>)
    ensures
        match r {
            Ok(output) => exec_outcome(success, cli_output(stdout@)) == Ok::<_, ExecError>(
                output@,
            ),
            Err(e) => exec_outcome(success, cli_output(stdout@)) == Err::<CliOutputView, _>(e),
        },
{
    if !success {
        return Err(ExecError::InvalidArgs);
    }
    match read_cli_output(stdout) {
        Some(output) => check_output(output),
        None => Err(ExecError::Json),
    }
}

} // verus!
