//! Relay: its one attribute, `state`, and the requests that a `cmds/set`
//! payload makes of it.
use vstd::prelude::*;
use crate::json::{JsonValue, JsonView, json_view, json_parse_bytes, parse_json_bytes};
use super::command::{CommandRefusal, FieldView, command_fields, command_fields_view, fields_of, fields_view};

verus! {

/// Subscription identifier of the `state` attribute.
pub const ID_STATE: u16 = 0;

/// The attributes that accept commands, with their subscription identifiers.
pub fn attributes_names() -> (names: Vec<(u16, String)>)
    ensures
        names@.len() == 1,
        names@[0].0 == ID_STATE,
        names@[0].1@ == "state"@,
{
    vec![(ID_STATE, String::from_str("state"))]
}

/// What one requested field asks of a relay: nothing unless it is the
/// `open` field of `state`; then the requested opening, or a refusal when it
/// is not a boolean.
pub open spec fn relay_field(f: FieldView) -> Option<Result<bool, CommandRefusal>> {
    if f.0 == "state"@ && f.1 == "open"@ {
        match f.2 {
            JsonView::Bool(b) => Some(Ok(b)),
            _ => Some(Err(CommandRefusal::StateOpenNotProvided)),
        }
    } else {
        None
    }
}

/// The requested openings of the fields `s`, in order, up to the first
/// refused one.
pub open spec fn relay_walk(s: Seq<FieldView>) -> (Seq<bool>, Option<CommandRefusal>)
    decreases s.len(),
{
    if s.len() == 0 {
        (Seq::empty(), None)
    } else {
        let before = relay_walk(s.drop_last());
        if before.1 is Some {
            before
        } else {
            match relay_field(s.last()) {
                None => before,
                Some(Ok(b)) => (before.0.push(b), None),
                Some(Err(e)) => (before.0, Some(e)),
            }
        }
    }
}

/// The openings that `command` requests, in order, and the refusal that
/// stops them, if any.
pub open spec fn relay_commands_view(command: JsonView) -> (Seq<bool>, Option<CommandRefusal>) {
    let (fields, whole) = command_fields_view(command);
    let walked = relay_walk(fields);
    if walked.1 is Some || whole {
        walked
    } else {
        (walked.0, Some(CommandRefusal::NoData))
    }
}

/// The requested openings of a command, and why it stopped early, if it did.
pub struct RelayCommands {
    pub open_requests: Vec<bool>,
    pub refusal: Option<CommandRefusal>,
}

proof fn lemma_walk_stop(s: Seq<FieldView>, n: int)
    requires
        0 <= n <= s.len(),
        relay_walk(s.take(n)).1 is Some,
    ensures
        relay_walk(s) == relay_walk(s.take(n)),
    decreases s.len() - n,
{
    if n < s.len() {
        assert(s.take(n + 1).drop_last() =~= s.take(n));
        lemma_walk_stop(s, n + 1);
    } else {
        assert(s.take(n) =~= s);
    }
}

/// The openings that `command` requests of a relay.
pub fn commands(command: &JsonValue) -> (r: RelayCommands)
    ensures
        (r.open_requests@, r.refusal) == relay_commands_view(json_view(*command)),
{
    let (fields, whole) = command_fields(command);
    let ghost fs = fields_view(fields@);
    let mut open_requests: Vec<bool> = Vec::new();
    let mut i: usize = 0;
    proof {
        assert(fs.take(0) =~= Seq::<FieldView>::empty());
    }
    while i < fields.len()
        invariant
            i <= fields@.len(),
            fs == fields_view(fields@),
            (fs, whole) == command_fields_view(json_view(*command)),
            relay_walk(fs.take(i as int)) == (open_requests@, None::<CommandRefusal>),
        decreases fields@.len() - i,
    {
        let (attr, field, data) = fields[i];
        let ghost f: FieldView = (attr@, field@, json_view(*data));
        assert(fs[i as int] == f);
        assert(fs.take(i + 1).drop_last() =~= fs.take(i as int));
        assert(fs.take(i + 1).last() == f);
        if attr.eq("state") && field.eq("open") {
            match data {
                JsonValue::Bool(b) => open_requests.push(*b),
                _ => {
                    proof {
                        lemma_walk_stop(fs, i + 1);
                    }
                    return RelayCommands { open_requests, refusal: Some(CommandRefusal::StateOpenNotProvided) };
                },
            }
        }
        i = i + 1;
    }
    proof {
        assert(fs.take(fields@.len() as int) =~= fs);
    }
    if whole {
        RelayCommands { open_requests, refusal: None }
    } else {
        RelayCommands { open_requests, refusal: Some(CommandRefusal::NoData) }
    }
}

/// The openings that the payload of a `cmds/set` message requests of a
/// relay: none, refused as unreadable, when the payload is not JSON.
pub fn process_payload(payload: &[u8]) -> (r: RelayCommands)
    ensures
        match json_parse_bytes(payload@) {
            Some(v) => (r.open_requests@, r.refusal) == relay_commands_view(v),
            None => r.open_requests@.len() == 0 && r.refusal == Some(CommandRefusal::UnreadablePayload),
        },
{
    match parse_json_bytes(payload) {
        Ok(v) => commands(&v),
        Err(_) => RelayCommands { open_requests: Vec::new(), refusal: Some(CommandRefusal::UnreadablePayload) },
    }
}

/// Law: a field asks for an opening only when it is the `open` field of
/// `state`, and the opening asked for is the field's boolean; the `open`
/// field of `state` holding a boolean always asks for that boolean.
pub proof fn lemma_field_opening(f: FieldView)
    ensures
        relay_field(f) matches Some(Ok(b)) ==> f.0 == "state"@ && f.1 == "open"@ && f.2 == JsonView::Bool(b),
        forall|b: bool| f.0 == "state"@ && f.1 == "open"@ && f.2 == JsonView::Bool(b) ==> relay_field(f) == Some(
            Ok::<bool, CommandRefusal>(b),
        ),
{
}

/// Whether one of the `fields` is the `open` field of `state` holding `b`.
pub open spec fn opening_asked(fields: Seq<FieldView>, b: bool) -> bool {
    exists|j: int| 0 <= j < fields.len() && #[trigger] fields[j] == ("state"@, "open"@, JsonView::Bool(b))
}

/// Law: every opening requested by a list of fields is the boolean held by
/// one of its `state.open` fields; and a list of fields whose only field is
/// `state.open` holding `b` requests exactly `b`.
pub proof fn lemma_openings_from_fields(s: Seq<FieldView>)
    ensures
        forall|i: int| 0 <= i < relay_walk(s).0.len() ==> #[trigger] opening_asked(s, relay_walk(s).0[i]),
        forall|b: bool| s == seq![("state"@, "open"@, JsonView::Bool(b))] ==> relay_walk(s) == (
            seq![b],
            None::<CommandRefusal>,
        ),
    decreases s.len(),
{
    if s.len() > 0 {
        let before = s.drop_last();
        lemma_openings_from_fields(before);
        lemma_field_opening(s.last());
        let w = relay_walk(s);
        let wb = relay_walk(before);
        assert forall|i: int| 0 <= i < w.0.len() implies #[trigger] opening_asked(s, w.0[i]) by {
            if i < wb.0.len() {
                assert(w.0[i] == wb.0[i]);
                assert(opening_asked(before, wb.0[i]));
                let j = choose|j: int| 0 <= j < before.len() && #[trigger] before[j] == ("state"@, "open"@, JsonView::Bool(wb.0[i]));
                assert(s[j] == before[j]);
            } else {
                let j = s.len() - 1;
                assert(s[j] == s.last());
            }
        }
        assert forall|b: bool| s == seq![("state"@, "open"@, JsonView::Bool(b))] implies relay_walk(s) == (
            seq![b],
            None::<CommandRefusal>,
        ) by {
            assert(before =~= Seq::<FieldView>::empty());
            assert(relay_walk(before).0 =~= Seq::<bool>::empty());
            assert(relay_walk(s).0 =~= seq![b]);
        }
    } else {
        assert(relay_walk(s).0.len() == 0);
    }
}

/// Law: every opening that a command requests is the boolean of one of its
/// `state.open` fields; the command `{"state": {"open": b}}` requests
/// exactly `b` and is not refused.
pub proof fn lemma_command_openings(command: JsonView, b: bool)
    ensures
        forall|i: int| 0 <= i < relay_commands_view(command).0.len() ==> #[trigger] opening_asked(
            command_fields_view(command).0,
            relay_commands_view(command).0[i],
        ),
        relay_commands_view(
            JsonView::Object(seq![("state"@, JsonView::Object(seq![("open"@, JsonView::Bool(b))]))]),
        ) == (seq![b], None::<CommandRefusal>),
{
    lemma_openings_from_fields(command_fields_view(command).0);
    assert(relay_commands_view(command).0 == relay_walk(command_fields_view(command).0).0);
    let inner = seq![("open"@, JsonView::Bool(b))];
    let entries = seq![("state"@, JsonView::Object(inner))];
    assert(entries.drop_last() =~= Seq::<(Seq<char>, JsonView)>::empty());
    assert(fields_of("state"@, inner) =~= seq![("state"@, "open"@, JsonView::Bool(b))]);
    assert(Seq::<FieldView>::empty() + fields_of("state"@, inner) =~= seq![("state"@, "open"@, JsonView::Bool(b))]);
    assert(super::command::entries_fields(entries.drop_last()) == (Seq::<FieldView>::empty(), true));
    assert(entries.last() == ("state"@, JsonView::Object(inner)));
    assert(super::command::entries_fields(entries) == (
        Seq::<FieldView>::empty() + fields_of("state"@, inner),
        true,
    ));
    assert(command_fields_view(JsonView::Object(entries)) == (seq![("state"@, "open"@, JsonView::Bool(b))], true));
    lemma_openings_from_fields(seq![("state"@, "open"@, JsonView::Bool(b))]);
}

} // verus!
