//! The payload of a `cmds/set` message: an object whose entries name
//! attributes, each holding an object of fields and their requested values.
use vstd::prelude::*;
use crate::json::{JsonValue, JsonView, json_view, entries_view, lemma_entries_view};

verus! {

/// Why a command payload was not carried out to its end.
#[derive(Debug, Clone, Copy, PartialEq, Eq, Structural)]
pub enum CommandRefusal {
    UnreadablePayload,
    NoData,
    ModeNotProvided,
    EnableNotProvided,
    PowerNotProvided,
    CurrentNotProvided,
    AnalogModulationNotProvided,
    StateOpenNotProvided,
}

/// The message given for a refusal.
pub open spec fn refusal_text(r: CommandRefusal) -> Seq<char> {
    match r {
        CommandRefusal::UnreadablePayload => "Unable to deserializa data"@,
        CommandRefusal::NoData => "No data provided"@,
        CommandRefusal::ModeNotProvided => "Mode value not provided"@,
        CommandRefusal::EnableNotProvided => "Enable value not provided"@,
        CommandRefusal::PowerNotProvided => "Power value not porvided"@,
        CommandRefusal::CurrentNotProvided => "Current value not porvided"@,
        CommandRefusal::AnalogModulationNotProvided => "Analog modulation value not provided"@,
        CommandRefusal::StateOpenNotProvided => "State open not provided"@,
    }
}

impl CommandRefusal {
    /// The message of this refusal.
    pub fn message(&self) -> (m: &'static str)
        ensures
            m@ == refusal_text(*self),
    {
        match self {
            CommandRefusal::UnreadablePayload => "Unable to deserializa data",
            CommandRefusal::NoData => "No data provided",
            CommandRefusal::ModeNotProvided => "Mode value not provided",
            CommandRefusal::EnableNotProvided => "Enable value not provided",
            CommandRefusal::PowerNotProvided => "Power value not porvided",
            CommandRefusal::CurrentNotProvided => "Current value not porvided",
            CommandRefusal::AnalogModulationNotProvided => "Analog modulation value not provided",
            CommandRefusal::StateOpenNotProvided => "State open not provided",
        }
    }
}

/// One requested field: attribute name, field name, requested value.
pub type FieldView = (Seq<char>, Seq<char>, JsonView);

/// The fields of the attribute `attr`, in order.
pub open spec fn fields_of(attr: Seq<char>, fields: Seq<(Seq<char>, JsonView)>) -> Seq<FieldView> {
    fields.map_values(|f: (Seq<char>, JsonView)| (attr, f.0, f.1))
}

/// The requested fields of the attributes `entries`, in order, up to the
/// first attribute that does not hold an object; the flag is false when
/// there is such an attribute.
pub open spec fn entries_fields(entries: Seq<(Seq<char>, JsonView)>) -> (Seq<FieldView>, bool)
    decreases entries.len(),
{
    if entries.len() == 0 {
        (Seq::empty(), true)
    } else {
        let before = entries_fields(entries.drop_last());
        if !before.1 {
            before
        } else {
            match entries.last().1 {
                JsonView::Object(f) => (before.0 + fields_of(entries.last().0, f), true),
                _ => (before.0, false),
            }
        }
    }
}

/// Once an attribute without an object is met, later entries change nothing.
proof fn lemma_fields_stop(entries: Seq<(Seq<char>, JsonView)>, n: int)
    requires
        0 <= n <= entries.len(),
        !entries_fields(entries.take(n)).1,
    ensures
        entries_fields(entries) == entries_fields(entries.take(n)),
    decreases entries.len() - n,
{
    if n < entries.len() {
        assert(entries.take(n + 1).drop_last() =~= entries.take(n));
        lemma_fields_stop(entries, n + 1);
    } else {
        assert(entries.take(n) =~= entries);
    }
}

/// The requested fields of a command: none, and the flag false, when the
/// command is not an object.
pub open spec fn command_fields_view(command: JsonView) -> (Seq<FieldView>, bool) {
    match command {
        JsonView::Object(entries) => entries_fields(entries),
        _ => (Seq::empty(), false),
    }
}

/// The content of a list of borrowed fields.
pub open spec fn fields_view(s: Seq<(&str, &str, &JsonValue)>) -> Seq<FieldView> {
    s.map_values(|t: (&str, &str, &JsonValue)| (t.0@, t.1@, json_view(*t.2)))
}

/// The fields that `command` requests, in the order of its entries, up to the
/// first attribute whose fields are not an object; the flag tells whether
/// the whole command was an object of objects.
pub fn command_fields(command: &JsonValue) -> (r: (Vec<(&str, &str, &JsonValue)>, bool))
    ensures
        (fields_view(r.0@), r.1) == command_fields_view(json_view(*command)),
{
    match command {
        JsonValue::Object(o) => {
            let ghost entries = entries_view(o@);
            assert(json_view(*command) == JsonView::Object(entries));
            proof {
                lemma_entries_view(o@);
                assert(entries.take(0) =~= Seq::<(Seq<char>, JsonView)>::empty());
                assert(fields_view(Seq::empty()) =~= Seq::<FieldView>::empty());
            }
            let mut out: Vec<(&str, &str, &JsonValue)> = Vec::new();
            let mut i: usize = 0;
            while i < o.len()
                invariant
                    i <= o@.len(),
                    entries == entries_view(o@),
                    json_view(*command) == JsonView::Object(entries),
                    entries.len() == o@.len(),
                    forall|k: int| 0 <= k < o@.len() ==> #[trigger] entries[k] == (o@[k].0@, json_view(o@[k].1)),
                    entries_fields(entries.take(i as int)) == (fields_view(out@), true),
                decreases o@.len() - i,
            {
                let ghost before = out@;
                assert(entries.take(i + 1).drop_last() =~= entries.take(i as int));
                assert(entries.take(i + 1).last() == entries[i as int]);
                match &o[i].1 {
                    JsonValue::Object(f) => {
                        let name: &str = o[i].0.as_str();
                        let ghost fe = entries_view(f@);
                        proof {
                            lemma_entries_view(f@);
                        }
                        let mut j: usize = 0;
                        while j < f.len()
                            invariant
                                j <= f@.len(),
                                fe == entries_view(f@),
                                fe.len() == f@.len(),
                                forall|k: int| 0 <= k < f@.len() ==> #[trigger] fe[k] == (f@[k].0@, json_view(f@[k].1)),
                                fields_view(out@) == fields_view(before) + fields_of(name@, fe).take(j as int),
                            decreases f@.len() - j,
                        {
                            let ghost prev = out@;
                            out.push((name, f[j].0.as_str(), &f[j].1));
                            proof {
                                assert(fields_view(out@) =~= fields_view(prev).push((name@, f@[j as int].0@, json_view(f@[j as int].1))));
                                assert(fields_of(name@, fe).take(j + 1) =~= fields_of(name@, fe).take(j as int).push((name@, fe[j as int].0, fe[j as int].1)));
                            }
                            j = j + 1;
                        }
                        proof {
                            assert(fields_of(name@, fe).take(f@.len() as int) =~= fields_of(name@, fe));
                        }
                    },
                    _ => {
                        proof {
                            assert(!(json_view(o@[i as int].1) is Object));
                            assert(entries_fields(entries.take(i + 1)) == (fields_view(out@), false));
                            lemma_fields_stop(entries, i + 1);
                        }
                        return (out, false);
                    },
                }
                i = i + 1;
            }
            proof {
                assert(entries.take(o@.len() as int) =~= entries);
            }
            (out, true)
        },
        _ => {
            proof {
                assert(fields_view(Seq::empty()) =~= Seq::<FieldView>::empty());
            }
            (Vec::new(), false)
        },
    }
}

} // verus!
