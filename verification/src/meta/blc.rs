//! Bench power channel: its attributes, the order in which it initialises
//! them, and the requests that a `cmds/set` payload makes of it.
use vstd::prelude::*;
use crate::json::{JsonValue, JsonNumber, JsonView, NumberView, json_view, number_view, json_parse_bytes, parse_json_bytes};
use super::command::{CommandRefusal, FieldView, command_fields, command_fields_view, fields_view};

verus! {

/// The attributes that a bench power channel may use.
#[derive(Debug, Clone, Copy, PartialEq, Eq, Structural)]
pub enum BlcAttributes {
    Mode,
    Enable,
    Power,
    Current,
    AnalogModulation,
}

/// The name of an attribute.
pub open spec fn blc_name(a: BlcAttributes) -> Seq<char> {
    match a {
        BlcAttributes::Mode => "mode"@,
        BlcAttributes::Enable => "enable"@,
        BlcAttributes::Power => "power"@,
        BlcAttributes::Current => "current"@,
        BlcAttributes::AnalogModulation => "analog_modulation"@,
    }
}

/// The names of all the attributes, in declaration order.
pub open spec fn all_blc_names() -> Seq<Seq<char>> {
    seq![
        blc_name(BlcAttributes::Mode),
        blc_name(BlcAttributes::Enable),
        blc_name(BlcAttributes::Power),
        blc_name(BlcAttributes::Current),
        blc_name(BlcAttributes::AnalogModulation),
    ]
}

impl BlcAttributes {
    /// The name of the attribute, owned.
    pub fn to_string(&self) -> (s: String)
        ensures
            s@ == blc_name(*self),
    {
        String::from_str(self.as_str())
    }

    /// The name of the attribute.
    pub fn as_str(&self) -> (s: &'static str)
        ensures
            s@ == blc_name(*self),
    {
        match self {
            BlcAttributes::Mode => "mode",
            BlcAttributes::Enable => "enable",
            BlcAttributes::Power => "power",
            BlcAttributes::Current => "current",
            BlcAttributes::AnalogModulation => "analog_modulation",
        }
    }

    /// The names of all the attributes.
    pub fn all_attributes() -> (v: Vec<String>)
        ensures
            v@.map_values(|s: String| s@) == all_blc_names(),
    {
        let v = vec![
            BlcAttributes::Mode.to_string(),
            BlcAttributes::Enable.to_string(),
            BlcAttributes::Power.to_string(),
            BlcAttributes::Current.to_string(),
            BlcAttributes::AnalogModulation.to_string(),
        ];
        assert(v@.map_values(|s: String| s@) =~= all_blc_names());
        v
    }
}

/// The names of the attributes that a channel uses.
pub open spec fn used_view(used: Seq<String>) -> Seq<Seq<char>> {
    used.map_values(|s: String| s@)
}

/// Whether `name` is among the names `used`.
pub fn uses(used: &Vec<String>, name: &str) -> (b: bool)
    ensures
        b == used_view(used@).contains(name@),
{
    let mut i: usize = 0;
    while i < used.len()
        invariant
            i <= used@.len(),
            forall|k: int| 0 <= k < i ==> used@[k]@ != name@,
        decreases used@.len() - i,
    {
        if used[i].as_str().eq(name) {
            assert(used_view(used@)[i as int] == name@);
            return true;
        }
        i = i + 1;
    }
    proof {
        if used_view(used@).contains(name@) {
            let k = choose|k: int| 0 <= k < used_view(used@).len() && used_view(used@)[k] == name@;
            assert(used@[k]@ == name@);
        }
    }
    false
}

/// Subscription identifiers of the attributes that accept commands.
pub const ID_MODE: u16 = 0;
pub const ID_ENABLE: u16 = 1;
pub const ID_POWER: u16 = 2;
pub const ID_CURRENT: u16 = 3;

/// `seq![x]` when `a` is used, else nothing.
pub open spec fn when_used<T>(used: Seq<Seq<char>>, a: BlcAttributes, x: T) -> Seq<T> {
    if used.contains(blc_name(a)) {
        seq![x]
    } else {
        Seq::empty()
    }
}

/// The attributes a channel subscribes to, with their identifiers: mode,
/// enable, power and current, each when used.
pub open spec fn blc_names_view(used: Seq<Seq<char>>) -> Seq<(u16, Seq<char>)> {
    when_used(used, BlcAttributes::Mode, (ID_MODE, blc_name(BlcAttributes::Mode)))
        + when_used(used, BlcAttributes::Enable, (ID_ENABLE, blc_name(BlcAttributes::Enable)))
        + when_used(used, BlcAttributes::Power, (ID_POWER, blc_name(BlcAttributes::Power)))
        + when_used(used, BlcAttributes::Current, (ID_CURRENT, blc_name(BlcAttributes::Current)))
}

/// The order in which a channel initialises its attributes: the analog
/// modulation first, so that the others can be read back, then mode, enable,
/// power and current, each when used.
pub open spec fn blc_init_view(used: Seq<Seq<char>>) -> Seq<BlcAttributes> {
    when_used(used, BlcAttributes::AnalogModulation, BlcAttributes::AnalogModulation)
        + when_used(used, BlcAttributes::Mode, BlcAttributes::Mode)
        + when_used(used, BlcAttributes::Enable, BlcAttributes::Enable)
        + when_used(used, BlcAttributes::Power, BlcAttributes::Power)
        + when_used(used, BlcAttributes::Current, BlcAttributes::Current)
}

/// Law: a channel that uses the analog modulation initialises it before any
/// other attribute, and initialises each used attribute once.
pub proof fn lemma_analog_modulation_first(used: Seq<Seq<char>>)
    ensures
        used.contains(blc_name(BlcAttributes::AnalogModulation)) ==> blc_init_view(used)[0] == BlcAttributes::AnalogModulation,
        forall|i: int, j: int| 0 <= i < j < blc_init_view(used).len() ==> blc_init_view(used)[i] != blc_init_view(used)[j],
        forall|a: BlcAttributes| #[trigger] blc_init_view(used).contains(a) <==> used.contains(blc_name(a)),
{
    let s = blc_init_view(used);
    assert forall|a: BlcAttributes| #[trigger] s.contains(a) <==> used.contains(blc_name(a)) by {
        if used.contains(blc_name(a)) {
            let k: int = match a {
                BlcAttributes::AnalogModulation => 0,
                BlcAttributes::Mode => when_used(used, BlcAttributes::AnalogModulation, BlcAttributes::AnalogModulation).len() as int,
                BlcAttributes::Enable => (when_used(used, BlcAttributes::AnalogModulation, BlcAttributes::AnalogModulation)
                    + when_used(used, BlcAttributes::Mode, BlcAttributes::Mode)).len() as int,
                BlcAttributes::Power => (when_used(used, BlcAttributes::AnalogModulation, BlcAttributes::AnalogModulation)
                    + when_used(used, BlcAttributes::Mode, BlcAttributes::Mode)
                    + when_used(used, BlcAttributes::Enable, BlcAttributes::Enable)).len() as int,
                BlcAttributes::Current => (when_used(used, BlcAttributes::AnalogModulation, BlcAttributes::AnalogModulation)
                    + when_used(used, BlcAttributes::Mode, BlcAttributes::Mode)
                    + when_used(used, BlcAttributes::Enable, BlcAttributes::Enable)
                    + when_used(used, BlcAttributes::Power, BlcAttributes::Power)).len() as int,
            };
            assert(s[k] == a);
        }
    }
}

fn push_when_used<T>(out: &mut Vec<T>, used: &Vec<String>, a: BlcAttributes, x: T)
    ensures
        final(out)@ == old(out)@ + when_used(used_view(used@), a, x),
{
    if uses(used, a.as_str()) {
        out.push(x);
    }
    assert(final(out)@ =~= old(out)@ + when_used(used_view(used@), a, x)) by {
        assert(old(out)@ + Seq::<T>::empty() =~= old(out)@);
    }
}

/// The attributes that accept commands, with their subscription identifiers.
pub fn attributes_names(attributes_used: &Vec<String>) -> (names: Vec<(u16, String)>)
    ensures
        names@.map_values(|n: (u16, String)| (n.0, n.1@)) == blc_names_view(used_view(attributes_used@)),
{
    let ghost used = used_view(attributes_used@);
    let mut names: Vec<(u16, String)> = Vec::new();
    let ghost v = |n: (u16, String)| (n.0, n.1@);
    push_when_used(&mut names, attributes_used, BlcAttributes::Mode, (ID_MODE, BlcAttributes::Mode.to_string()));
    push_when_used(&mut names, attributes_used, BlcAttributes::Enable, (ID_ENABLE, BlcAttributes::Enable.to_string()));
    push_when_used(&mut names, attributes_used, BlcAttributes::Power, (ID_POWER, BlcAttributes::Power.to_string()));
    push_when_used(&mut names, attributes_used, BlcAttributes::Current, (ID_CURRENT, BlcAttributes::Current.to_string()));
    assert(names@.map_values(v) =~= blc_names_view(used));
    names
}

/// The attributes to initialise, in the order of initialisation.
pub fn init_order(attributes_used: &Vec<String>) -> (order: Vec<BlcAttributes>)
    ensures
        order@ == blc_init_view(used_view(attributes_used@)),
{
    let mut order: Vec<BlcAttributes> = Vec::new();
    push_when_used(&mut order, attributes_used, BlcAttributes::AnalogModulation, BlcAttributes::AnalogModulation);
    push_when_used(&mut order, attributes_used, BlcAttributes::Mode, BlcAttributes::Mode);
    push_when_used(&mut order, attributes_used, BlcAttributes::Enable, BlcAttributes::Enable);
    push_when_used(&mut order, attributes_used, BlcAttributes::Power, BlcAttributes::Power);
    push_when_used(&mut order, attributes_used, BlcAttributes::Current, BlcAttributes::Current);
    assert(order@ =~= blc_init_view(used_view(attributes_used@)));
    order
}

/// A request that a command makes of a channel.
#[derive(Debug)]
pub enum BlcRequest {
    Mode(String),
    Enable(bool),
    Power(JsonNumber),
    Current(JsonNumber),
    AnalogModulation(bool),
}

/// The content of a request.
pub enum BlcRequestView {
    Mode(Seq<char>),
    Enable(bool),
    Power(NumberView),
    Current(NumberView),
    AnalogModulation(bool),
}

pub open spec fn request_view(r: BlcRequest) -> BlcRequestView {
    match r {
        BlcRequest::Mode(s) => BlcRequestView::Mode(s@),
        BlcRequest::Enable(b) => BlcRequestView::Enable(b),
        BlcRequest::Power(n) => BlcRequestView::Power(number_view(n)),
        BlcRequest::Current(n) => BlcRequestView::Current(number_view(n)),
        BlcRequest::AnalogModulation(b) => BlcRequestView::AnalogModulation(b),
    }
}

pub open spec fn requests_view(s: Seq<BlcRequest>) -> Seq<BlcRequestView> {
    s.map_values(|r: BlcRequest| request_view(r))
}

/// What one requested field asks of a channel: nothing when the field is not
/// the `value` of a used attribute; else the request, or the refusal when
/// the value has the wrong type.
pub open spec fn blc_field(f: FieldView, used: Seq<Seq<char>>) -> Option<Result<BlcRequestView, CommandRefusal>> {
    let (attr, field, data) = f;
    if attr == blc_name(BlcAttributes::Mode) && field == "value"@ && used.contains(blc_name(BlcAttributes::Mode)) {
        match data {
            JsonView::Str(s) => Some(Ok(BlcRequestView::Mode(s))),
            _ => Some(Err(CommandRefusal::ModeNotProvided)),
        }
    } else if attr == blc_name(BlcAttributes::Enable) && field == "value"@ && used.contains(blc_name(BlcAttributes::Enable)) {
        match data {
            JsonView::Bool(b) => Some(Ok(BlcRequestView::Enable(b))),
            _ => Some(Err(CommandRefusal::EnableNotProvided)),
        }
    } else if attr == blc_name(BlcAttributes::Power) && field == "value"@ && used.contains(blc_name(BlcAttributes::Power)) {
        match data {
            JsonView::Number(n) => Some(Ok(BlcRequestView::Power(n))),
            _ => Some(Err(CommandRefusal::PowerNotProvided)),
        }
    } else if attr == blc_name(BlcAttributes::Current) && field == "value"@ && used.contains(blc_name(BlcAttributes::Current)) {
        match data {
            JsonView::Number(n) => Some(Ok(BlcRequestView::Current(n))),
            _ => Some(Err(CommandRefusal::CurrentNotProvided)),
        }
    } else if attr == blc_name(BlcAttributes::AnalogModulation) && field == "value"@ && used.contains(blc_name(BlcAttributes::AnalogModulation)) {
        match data {
            JsonView::Bool(b) => Some(Ok(BlcRequestView::AnalogModulation(b))),
            _ => Some(Err(CommandRefusal::AnalogModulationNotProvided)),
        }
    } else {
        None
    }
}

/// The requests of the fields `s`, in order, up to the first refused one.
pub open spec fn blc_walk(s: Seq<FieldView>, used: Seq<Seq<char>>) -> (Seq<BlcRequestView>, Option<CommandRefusal>)
    decreases s.len(),
{
    if s.len() == 0 {
        (Seq::empty(), None)
    } else {
        let before = blc_walk(s.drop_last(), used);
        if before.1 is Some {
            before
        } else {
            match blc_field(s.last(), used) {
                None => before,
                Some(Ok(r)) => (before.0.push(r), None),
                Some(Err(e)) => (before.0, Some(e)),
            }
        }
    }
}

/// The requests that `command` makes of a channel using `used`, in order,
/// and the refusal that stops them, if any: a value of the wrong type, or,
/// once all fields before it are taken, an attribute that holds no object
/// (or a command that is not an object).
pub open spec fn blc_commands_view(command: JsonView, used: Seq<Seq<char>>) -> (Seq<BlcRequestView>, Option<CommandRefusal>) {
    let (fields, whole) = command_fields_view(command);
    let walked = blc_walk(fields, used);
    if walked.1 is Some || whole {
        walked
    } else {
        (walked.0, Some(CommandRefusal::NoData))
    }
}

/// The requests of a command, and why it stopped early, if it did.
pub struct BlcCommands {
    pub requests: Vec<BlcRequest>,
    pub refusal: Option<CommandRefusal>,
}

proof fn lemma_walk_stop(s: Seq<FieldView>, used: Seq<Seq<char>>, n: int)
    requires
        0 <= n <= s.len(),
        blc_walk(s.take(n), used).1 is Some,
    ensures
        blc_walk(s, used) == blc_walk(s.take(n), used),
    decreases s.len() - n,
{
    if n < s.len() {
        assert(s.take(n + 1).drop_last() =~= s.take(n));
        lemma_walk_stop(s, used, n + 1);
    } else {
        assert(s.take(n) =~= s);
    }
}

/// The requests that `command` makes of a channel that uses the attributes
/// `attributes_used`.
pub fn commands(command: &JsonValue, attributes_used: &Vec<String>) -> (r: BlcCommands)
    ensures
        (requests_view(r.requests@), r.refusal) == blc_commands_view(json_view(*command), used_view(attributes_used@)),
{
    let ghost used = used_view(attributes_used@);
    let (fields, whole) = command_fields(command);
    let ghost fs = fields_view(fields@);
    let mut requests: Vec<BlcRequest> = Vec::new();
    let mut i: usize = 0;
    proof {
        assert(fs.take(0) =~= Seq::<FieldView>::empty());
        assert(requests_view(requests@) =~= Seq::<BlcRequestView>::empty());
    }
    while i < fields.len()
        invariant
            i <= fields@.len(),
            fs == fields_view(fields@),
            used == used_view(attributes_used@),
            (fs, whole) == command_fields_view(json_view(*command)),
            blc_walk(fs.take(i as int), used) == (requests_view(requests@), None::<CommandRefusal>),
        decreases fields@.len() - i,
    {
        let (attr, field, data) = fields[i];
        let ghost f: FieldView = (attr@, field@, json_view(*data));
        assert(fs[i as int] == f);
        assert(fs.take(i + 1).drop_last() =~= fs.take(i as int));
        assert(fs.take(i + 1).last() == f);
        let ghost before = requests@;
        let mut refusal: Option<CommandRefusal> = None;
        if attr.eq(BlcAttributes::Mode.as_str()) && field.eq("value") && uses(attributes_used, BlcAttributes::Mode.as_str()) {
            match data {
                JsonValue::String(s) => requests.push(BlcRequest::Mode(s.clone())),
                _ => refusal = Some(CommandRefusal::ModeNotProvided),
            }
        } else if attr.eq(BlcAttributes::Enable.as_str()) && field.eq("value") && uses(attributes_used, BlcAttributes::Enable.as_str()) {
            match data {
                JsonValue::Bool(b) => requests.push(BlcRequest::Enable(*b)),
                _ => refusal = Some(CommandRefusal::EnableNotProvided),
            }
        } else if attr.eq(BlcAttributes::Power.as_str()) && field.eq("value") && uses(attributes_used, BlcAttributes::Power.as_str()) {
            match data {
                JsonValue::Number(n) => requests.push(BlcRequest::Power(n.duplicate())),
                _ => refusal = Some(CommandRefusal::PowerNotProvided),
            }
        } else if attr.eq(BlcAttributes::Current.as_str()) && field.eq("value") && uses(attributes_used, BlcAttributes::Current.as_str()) {
            match data {
                JsonValue::Number(n) => requests.push(BlcRequest::Current(n.duplicate())),
                _ => refusal = Some(CommandRefusal::CurrentNotProvided),
            }
        } else if attr.eq(BlcAttributes::AnalogModulation.as_str()) && field.eq("value") && uses(attributes_used, BlcAttributes::AnalogModulation.as_str()) {
            match data {
                JsonValue::Bool(b) => requests.push(BlcRequest::AnalogModulation(*b)),
                _ => refusal = Some(CommandRefusal::AnalogModulationNotProvided),
            }
        }
        proof {
            assert(requests_view(requests@) =~= requests_view(before) + requests_view(requests@).skip(before.len() as int));
        }
        if refusal.is_some() {
            proof {
                assert(requests@ == before);
                lemma_walk_stop(fs, used, i + 1);
            }
            return BlcCommands { requests, refusal };
        }
        proof {
            assert(requests_view(requests@) == blc_walk(fs.take(i + 1), used).0);
        }
        i = i + 1;
    }
    proof {
        assert(fs.take(fields@.len() as int) =~= fs);
    }
    if whole {
        BlcCommands { requests, refusal: None }
    } else {
        BlcCommands { requests, refusal: Some(CommandRefusal::NoData) }
    }
}

/// The requests that the payload of a `cmds/set` message makes of a channel:
/// none, refused as unreadable, when the payload is not JSON.
pub fn process_payload(payload: &[u8], attributes_used: &Vec<String>) -> (r: BlcCommands)
    ensures
        match json_parse_bytes(payload@) {
            Some(v) => (requests_view(r.requests@), r.refusal) == blc_commands_view(v, used_view(attributes_used@)),
            None => r.requests@.len() == 0 && r.refusal == Some(CommandRefusal::UnreadablePayload),
        },
{
    match parse_json_bytes(payload) {
        Ok(v) => commands(&v, attributes_used),
        Err(_) => BlcCommands { requests: Vec::new(), refusal: Some(CommandRefusal::UnreadablePayload) },
    }
}

/// The attribute that a request sets.
pub open spec fn request_attribute(r: BlcRequestView) -> BlcAttributes {
    match r {
        BlcRequestView::Mode(_) => BlcAttributes::Mode,
        BlcRequestView::Enable(_) => BlcAttributes::Enable,
        BlcRequestView::Power(_) => BlcAttributes::Power,
        BlcRequestView::Current(_) => BlcAttributes::Current,
        BlcRequestView::AnalogModulation(_) => BlcAttributes::AnalogModulation,
    }
}

/// The JSON value that a request carries.
pub open spec fn request_value(r: BlcRequestView) -> JsonView {
    match r {
        BlcRequestView::Mode(s) => JsonView::Str(s),
        BlcRequestView::Enable(b) => JsonView::Bool(b),
        BlcRequestView::Power(n) => JsonView::Number(n),
        BlcRequestView::Current(n) => JsonView::Number(n),
        BlcRequestView::AnalogModulation(b) => JsonView::Bool(b),
    }
}

/// Whether `v` has the type that the value of attribute `a` takes: a string
/// for the mode, a boolean for enable and analog modulation, a number for
/// power and current.
pub open spec fn value_fits(a: BlcAttributes, v: JsonView) -> bool {
    match a {
        BlcAttributes::Mode => v is Str,
        BlcAttributes::Enable => v is Bool,
        BlcAttributes::Power => v is Number,
        BlcAttributes::Current => v is Number,
        BlcAttributes::AnalogModulation => v is Bool,
    }
}

proof fn lemma_names_distinct()
    ensures
        forall|a: BlcAttributes, b: BlcAttributes| #[trigger] blc_name(a) == #[trigger] blc_name(b) ==> a == b,
{
    reveal_strlit("mode");
    reveal_strlit("enable");
    reveal_strlit("power");
    reveal_strlit("current");
    reveal_strlit("analog_modulation");
    assert forall|a: BlcAttributes, b: BlcAttributes| #[trigger] blc_name(a) == #[trigger] blc_name(b) implies a == b by {
        if a != b {
            assert(blc_name(a)[0] != blc_name(b)[0]);
        }
    }
}

/// Law: a field asks for a request only when it is the `value` field of a
/// used attribute, and the request sets that very attribute to the field's
/// value; conversely the `value` field of a used attribute asks for the
/// request of that attribute with its value when the value has the right
/// type, and is refused otherwise.
pub proof fn lemma_field_request(f: FieldView, used: Seq<Seq<char>>, a: BlcAttributes)
    ensures
        blc_field(f, used) matches Some(Ok(r)) ==> {
            &&& f.0 == blc_name(request_attribute(r))
            &&& f.1 == "value"@
            &&& used.contains(f.0)
            &&& f.2 == request_value(r)
        },
        f.0 == blc_name(a) && f.1 == "value"@ && used.contains(f.0) ==> match blc_field(f, used) {
            Some(Ok(r)) => value_fits(a, f.2) && request_attribute(r) == a && request_value(r) == f.2,
            Some(Err(_)) => !value_fits(a, f.2),
            None => false,
        },
        f.1 != "value"@ || !used.contains(f.0) ==> blc_field(f, used) is None,
{
    lemma_names_distinct();
}

/// Whether the field `f` is the `value` field of the attribute that `r`
/// sets, carrying the value of `r`.
pub open spec fn asked_by(f: FieldView, r: BlcRequestView) -> bool {
    &&& f.0 == blc_name(request_attribute(r))
    &&& f.1 == "value"@
    &&& f.2 == request_value(r)
}

/// Whether one of the `fields` asks for the request `r`.
pub open spec fn asked_somewhere(fields: Seq<FieldView>, r: BlcRequestView) -> bool {
    exists|j: int| 0 <= j < fields.len() && #[trigger] asked_by(fields[j], r)
}

/// Whether each of the requests `reqs` is asked by one of the `fields`.
pub open spec fn all_asked(fields: Seq<FieldView>, reqs: Seq<BlcRequestView>) -> bool {
    forall|i: int| 0 <= i < reqs.len() ==> #[trigger] asked_somewhere(fields, reqs[i])
}

/// Law: every request of a list of fields is asked by one of them: the
/// `value` field of the attribute that the request sets, carrying the
/// request's value.
pub proof fn lemma_walk_requests_from_fields(s: Seq<FieldView>, used: Seq<Seq<char>>)
    ensures
        all_asked(s, blc_walk(s, used).0),
    decreases s.len(),
{
    if s.len() > 0 {
        let before = s.drop_last();
        lemma_walk_requests_from_fields(before, used);
        lemma_field_request(s.last(), used, BlcAttributes::Mode);
        let w = blc_walk(s, used);
        let wb = blc_walk(before, used);
        assert forall|i: int| 0 <= i < w.0.len() implies #[trigger] asked_somewhere(s, w.0[i]) by {
            if i < wb.0.len() {
                assert(w.0[i] == wb.0[i]);
                assert(asked_somewhere(before, wb.0[i]));
                let j = choose|j: int| 0 <= j < before.len() && #[trigger] asked_by(before[j], wb.0[i]);
                assert(s[j] == before[j]);
                assert(asked_by(s[j], w.0[i]));
            } else {
                let j = s.len() - 1;
                assert(s[j] == s.last());
                assert(asked_by(s[j], w.0[i]));
            }
        }
    } else {
        assert(blc_walk(s, used).0.len() == 0);
    }
}

/// Law: every request that a command makes of a channel comes from a field
/// of the command: the `value` field of the attribute that the request sets,
/// carrying the request's value.
pub proof fn lemma_commands_from_fields(command: JsonView, used: Seq<Seq<char>>)
    ensures
        all_asked(command_fields_view(command).0, blc_commands_view(command, used).0),
{
    let fields = command_fields_view(command).0;
    lemma_walk_requests_from_fields(fields, used);
    assert(blc_commands_view(command, used).0 == blc_walk(fields, used).0);
}

} // verus!
