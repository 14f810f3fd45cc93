//! Ammeter and powermeter: their one attribute, `measure`, and the reads
//! that a `cmds/set` payload asks of them.
use vstd::prelude::*;
use crate::json::{JsonValue, JsonView, json_view, json_parse_bytes, parse_json_bytes};
use super::command::{CommandRefusal, FieldView, command_fields, command_fields_view, fields_view};

verus! {

/// Settings of an ammeter.
#[derive(Debug, Clone, Copy, PartialEq, Eq, Structural)]
pub struct AmmeterParams {
    pub measure_decimals: i32,
}

/// Settings of a powermeter.
#[derive(Debug, Clone, Copy, PartialEq, Eq, Structural)]
pub struct PowermeterParams {
    pub measure_decimals: i32,
}

/// Subscription identifier of the `measure` attribute.
pub const ID_MEASURE: u16 = 0;

/// The attributes that accept commands, with their subscription identifiers.
pub fn attributes_names() -> (names: Vec<(u16, String)>)
    ensures
        names@.len() == 1,
        names@[0].0 == ID_MEASURE,
        names@[0].1@ == "measure"@,
{
    vec![(ID_MEASURE, String::from_str("measure"))]
}

/// Whether a requested field asks for a new reading of the measure.
pub open spec fn is_measure_read(f: FieldView) -> bool {
    f.0 == "measure"@ && f.1 == "value"@
}

/// How many of the fields `s` ask for a reading.
pub open spec fn count_reads(s: Seq<FieldView>) -> nat
    decreases s.len(),
{
    if s.len() == 0 {
        0
    } else {
        count_reads(s.drop_last()) + if is_measure_read(s.last()) { 1nat } else { 0nat }
    }
}

/// The reads that a command asks for, and the refusal met after them when
/// the command is not an object of objects.
pub open spec fn meter_commands_view(command: JsonView) -> (nat, Option<CommandRefusal>) {
    let (fields, whole) = command_fields_view(command);
    (count_reads(fields), if whole { None } else { Some(CommandRefusal::NoData) })
}

/// The reads that a command asks of a meter, and the refusal met after
/// them, if any.
pub struct MeterCommands {
    pub reads: usize,
    pub refusal: Option<CommandRefusal>,
}

/// The reads that `command` asks of a meter.
pub fn commands(command: &JsonValue) -> (r: MeterCommands)
    ensures
        (r.reads as nat, r.refusal) == meter_commands_view(json_view(*command)),
{
    let (fields, whole) = command_fields(command);
    let ghost fs = fields_view(fields@);
    let mut reads: usize = 0;
    let mut i: usize = 0;
    proof {
        assert(fs.take(0) =~= Seq::<FieldView>::empty());
    }
    while i < fields.len()
        invariant
            i <= fields@.len(),
            fs == fields_view(fields@),
            (fs, whole) == command_fields_view(json_view(*command)),
            count_reads(fs.take(i as int)) == reads,
            reads <= i,
        decreases fields@.len() - i,
    {
        let (attr, field, _data) = fields[i];
        assert(fs.take(i + 1).drop_last() =~= fs.take(i as int));
        assert(fs.take(i + 1).last() == fs[i as int]);
        if attr.eq("measure") && field.eq("value") {
            reads = reads + 1;
        }
        i = i + 1;
    }
    proof {
        assert(fs.take(fields@.len() as int) =~= fs);
    }
    MeterCommands { reads, refusal: if whole { None } else { Some(CommandRefusal::NoData) } }
}

/// The reads that the payload of a `cmds/set` message asks of a meter: none,
/// refused as unreadable, when the payload is not JSON.
pub fn process_payload(payload: &[u8]) -> (r: MeterCommands)
    ensures
        match json_parse_bytes(payload@) {
            Some(v) => (r.reads as nat, r.refusal) == meter_commands_view(v),
            None => r.reads == 0 && r.refusal == Some(CommandRefusal::UnreadablePayload),
        },
{
    match parse_json_bytes(payload) {
        Ok(v) => commands(&v),
        Err(_) => MeterCommands { reads: 0, refusal: Some(CommandRefusal::UnreadablePayload) },
    }
}

/// Law: a list of fields asks for as many reads as it holds `value` fields
/// of the `measure` attribute.
pub proof fn lemma_reads_are_measure_values(s: Seq<FieldView>)
    ensures
        count_reads(s) == s.filter(|f: FieldView| f.0 == "measure"@ && f.1 == "value"@).len(),
    decreases s.len(),
{
    reveal(Seq::filter);
    if s.len() > 0 {
        lemma_reads_are_measure_values(s.drop_last());
    }
}

/// Law: the reads that a command asks of a meter are its `measure.value`
/// fields, up to the first attribute that is not an object.
pub proof fn lemma_command_reads(command: JsonView)
    ensures
        meter_commands_view(command).0 == command_fields_view(command).0.filter(
            |f: FieldView| f.0 == "measure"@ && f.1 == "value"@,
        ).len(),
{
    lemma_reads_are_measure_values(command_fields_view(command).0);
}

} // verus!
