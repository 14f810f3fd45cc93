//! Register map: its settings, the values and timestamps it publishes, the
//! reads that update them and the cadence of its cyclic reads.
use vstd::prelude::*;
use vstd::utf8::encode_utf8;
use crate::json::{JsonValue, JsonNumber, JsonView, NumberView, json_view, array_view, entries_view, json_text, json_to_text, json_parse_bytes, parse_json_bytes, view_get, view_as_u64};

verus! {

/// The width of one register.
#[derive(Debug, Clone, Copy, PartialEq, Eq, Structural)]
pub enum RegisterSize {
    _8bits,
    _16bits,
    _32bits,
    _64bits,
}

/// The number of bits of a register size, the number it is published as.
pub open spec fn size_bits(s: RegisterSize) -> u32 {
    match s {
        RegisterSize::_8bits => 8,
        RegisterSize::_16bits => 16,
        RegisterSize::_32bits => 32,
        RegisterSize::_64bits => 64,
    }
}

impl RegisterSize {
    /// The number of bits of this size.
    pub fn bits(&self) -> (b: u32)
        ensures
            b == size_bits(*self),
    {
        match self {
            RegisterSize::_8bits => 8,
            RegisterSize::_16bits => 16,
            RegisterSize::_32bits => 32,
            RegisterSize::_64bits => 64,
        }
    }
}

/// Where the registers are and how many there are.
#[derive(Debug, Clone, Copy, PartialEq, Eq, Structural)]
pub struct MetaSettings {
    pub base_address: u64,
    pub register_size: RegisterSize,
    pub number_of_register: usize,
}

/// The content of the `settings` attribute of a register map: its base
/// address, the size of its registers in bits and their number.
pub open spec fn settings_payload_view(s: MetaSettings) -> JsonView {
    JsonView::Object(seq![
        ("base_address"@, JsonView::Number(NumberView::PosInt(s.base_address))),
        ("register_size"@, JsonView::Number(NumberView::PosInt(size_bits(s.register_size) as u64))),
        ("number_of_register"@, JsonView::Number(NumberView::PosInt(s.number_of_register as u64))),
    ])
}

impl MetaSettings {
    /// The fields of the `settings` attribute.
    pub fn to_json(&self) -> (j: JsonValue)
        ensures
            json_view(j) == settings_payload_view(*self),
    {
        let entries = vec![
            (String::from_str("base_address"), JsonValue::Number(JsonNumber::PosInt(self.base_address))),
            (String::from_str("register_size"), JsonValue::Number(JsonNumber::PosInt(self.register_size.bits() as u64))),
            (String::from_str("number_of_register"), JsonValue::Number(JsonNumber::PosInt(self.number_of_register as u64))),
        ];
        proof {
            crate::json::lemma_entries_view(entries@);
            assert(entries_view(entries@) =~= seq![
                ("base_address"@, JsonView::Number(NumberView::PosInt(self.base_address))),
                ("register_size"@, JsonView::Number(NumberView::PosInt(size_bits(self.register_size) as u64))),
                ("number_of_register"@, JsonView::Number(NumberView::PosInt(self.number_of_register as u64))),
            ]);
        }
        JsonValue::Object(entries)
    }
}

/// The published state of a register map: one value and one timestamp per
/// register.
pub struct MetaInterface {
    pub settings: MetaSettings,
    pub values: Vec<u64>,
    pub timestamps: Vec<u64>,
}

/// The content of a list of unsigned integers as a JSON array.
pub open spec fn u64s_view(s: Seq<u64>) -> Seq<JsonView> {
    s.map_values(|v: u64| JsonView::Number(NumberView::PosInt(v)))
}

/// The content of the payload of the map: the values, then the timestamps.
pub open spec fn map_payload_view(values: Seq<u64>, timestamps: Seq<u64>) -> JsonView {
    JsonView::Object(seq![("values"@, JsonView::Array(u64s_view(values))), ("timestamps"@, JsonView::Array(u64s_view(timestamps)))])
}

/// `values` with the `size` registers from `index` replaced by `read`.
pub open spec fn spliced(values: Seq<u64>, index: int, size: int, read: Seq<u64>) -> Seq<u64> {
    values.subrange(0, index) + read + values.subrange(index + size, values.len() as int)
}

fn u64s_to_json(s: &Vec<u64>) -> (r: JsonValue)
    ensures
        json_view(r) == JsonView::Array(u64s_view(s@)),
{
    let mut out: Vec<JsonValue> = Vec::new();
    let mut i: usize = 0;
    while i < s.len()
        invariant
            i <= s@.len(),
            array_view(out@) == u64s_view(s@.take(i as int)),
        decreases s@.len() - i,
    {
        let ghost before = out@;
        let x = JsonValue::Number(JsonNumber::PosInt(s[i]));
        out.push(x);
        assert(out@.len() > 0);
        assert(out@.last() == x);
        assert(json_view(x) == JsonView::Number(NumberView::PosInt(s@[i as int])));
        assert(out@.drop_last() =~= before);
        assert(array_view(out@) == array_view(before).push(JsonView::Number(NumberView::PosInt(s@[i as int]))));
        assert(u64s_view(s@.take(i + 1)) =~= u64s_view(s@.take(i as int)).push(JsonView::Number(NumberView::PosInt(s@[i as int]))));
        i = i + 1;
    }
    assert(s@.take(s@.len() as int) =~= s@);
    JsonValue::Array(out)
}

fn copy_u64s(s: &Vec<u64>, from: usize, to: usize, out: &mut Vec<u64>)
    requires
        from <= to <= s@.len(),
    ensures
        final(out)@ == old(out)@ + s@.subrange(from as int, to as int),
{
    let mut i: usize = from;
    while i < to
        invariant
            from <= i <= to <= s@.len(),
            out@ == old(out)@ + s@.subrange(from as int, i as int),
        decreases to - i,
    {
        out.push(s[i]);
        assert(s@.subrange(from as int, i + 1) =~= s@.subrange(from as int, i as int).push(s@[i as int]));
        i = i + 1;
    }
}

impl MetaInterface {
    /// A map of `settings.number_of_register` registers, all values and
    /// timestamps zero.
    pub fn new(settings: MetaSettings) -> (m: MetaInterface)
        ensures
            m.settings == settings,
            m.values@ == Seq::new(settings.number_of_register as nat, |i: int| 0u64),
            m.timestamps@ == Seq::new(settings.number_of_register as nat, |i: int| 0u64),
    {
        let mut values: Vec<u64> = Vec::new();
        let mut timestamps: Vec<u64> = Vec::new();
        let mut i: usize = 0;
        while i < settings.number_of_register
            invariant
                i <= settings.number_of_register,
                values@ == Seq::new(i as nat, |k: int| 0u64),
                timestamps@ == Seq::new(i as nat, |k: int| 0u64),
            decreases settings.number_of_register - i,
        {
            values.push(0);
            timestamps.push(0);
            assert(values@ =~= Seq::new((i + 1) as nat, |k: int| 0u64));
            assert(timestamps@ =~= Seq::new((i + 1) as nat, |k: int| 0u64));
            i = i + 1;
        }
        MetaInterface { settings, values, timestamps }
    }

    /// The bytes published on the map attribute: the JSON text of the values
    /// and the timestamps, encoded in UTF-8.
    pub fn to_payload(&self) -> (p: Vec<u8>)
        ensures
            p@ == encode_utf8(json_text(map_payload_view(self.values@, self.timestamps@))),
    {
        let v = u64s_to_json(&self.values);
        let t = u64s_to_json(&self.timestamps);
        let entries = vec![(String::from_str("values"), v), (String::from_str("timestamps"), t)];
        proof {
            crate::json::lemma_entries_view(entries@);
            assert(entries_view(entries@) =~= seq![("values"@, JsonView::Array(u64s_view(self.values@))), ("timestamps"@, JsonView::Array(u64s_view(self.timestamps@)))]);
        }
        let payload = JsonValue::Object(entries);
        let text = json_to_text(&payload);
        vstd::slice::slice_to_vec(text.as_str().as_bytes())
    }

    /// Replaces the `size` values from `index` by the values `read` back
    /// from the device; the timestamps are kept.
    pub fn update_values(&mut self, index: usize, size: usize, read: &Vec<u64>)
        requires
            index + size <= old(self).values@.len(),
        ensures
            final(self).values@ == spliced(old(self).values@, index as int, size as int, read@),
            final(self).timestamps@ == old(self).timestamps@,
            final(self).settings == old(self).settings,
    {
        let len = self.values.len();
        let end = index + size;
        let mut values: Vec<u64> = Vec::new();
        copy_u64s(&self.values, 0, index, &mut values);
        copy_u64s(read, 0, read.len(), &mut values);
        copy_u64s(&self.values, end, len, &mut values);
        assert(read@.subrange(0, read@.len() as int) =~= read@);
        assert(values@ =~= spliced(old(self).values@, index as int, size as int, read@));
        self.values = values;
    }
}

/// Law: reading back as many values as were asked rewrites exactly those
/// registers: the map keeps its length, the read values stand from `index`
/// on, and every other register keeps its value.
pub proof fn lemma_read_back_in_place(values: Seq<u64>, index: int, size: int, read: Seq<u64>)
    requires
        0 <= index,
        0 <= size,
        index + size <= values.len(),
        read.len() == size,
    ensures
        spliced(values, index, size, read).len() == values.len(),
        forall|k: int| 0 <= k < size ==> #[trigger] spliced(values, index, size, read)[index + k] == read[k],
        forall|k: int| 0 <= k < values.len() && !(index <= k < index + size) ==> #[trigger] spliced(values, index, size, read)[k] == values[k],
{
    let s = spliced(values, index, size, read);
    assert forall|k: int| 0 <= k < values.len() && !(index <= k < index + size) implies #[trigger] s[k] == values[k] by {
        if k < index {
            assert(s[k] == values.subrange(0, index)[k]);
        } else {
            assert(s[k] == values.subrange(index + size, values.len() as int)[k - index - size]);
        }
    }
}

/// The index and the size of a read request, when the request is an object
/// whose `index` and `size` are unsigned integers.
pub open spec fn read_request_view(request: JsonView) -> Option<(u64, u64)> {
    match (view_get(request, "index"@), view_get(request, "size"@)) {
        (Some(i), Some(s)) => match (view_as_u64(i), view_as_u64(s)) {
            (Some(index), Some(size)) => Some((index, size)),
            _ => None,
        },
        _ => None,
    }
}

/// The index and the size that the payload of a cyclic read asks for; none
/// when the payload is not JSON or lacks either of them.
pub fn read_request(payload: &[u8]) -> (r: Option<(u64, u64)>)
    ensures
        match json_parse_bytes(payload@) {
            Some(v) => r == read_request_view(v),
            None => r is None,
        },
{
    match parse_json_bytes(payload) {
        Ok(v) => {
            match (v.get("index"), v.get("size")) {
                (Some(i), Some(s)) => match (i.as_u64(), s.as_u64()) {
                    (Some(index), Some(size)) => Some((index, size)),
                    _ => None,
                },
                _ => None,
            }
        },
        Err(_) => None,
    }
}

/// The longest wait between two rounds of cyclic reads, in milliseconds.
pub const MAX_CYCLE_MS: u64 = 1000;

/// The wait before the next round: the shortest interval, at most a second.
pub open spec fn next_awake_view(intervals: Seq<u64>) -> u64
    decreases intervals.len(),
{
    if intervals.len() == 0 {
        MAX_CYCLE_MS
    } else {
        let before = next_awake_view(intervals.drop_last());
        if before > intervals.last() {
            intervals.last()
        } else {
            before
        }
    }
}

/// The wait before the next round of cyclic reads of intervals `intervals`.
pub fn next_awake(intervals: &Vec<u64>) -> (w: u64)
    ensures
        w == next_awake_view(intervals@),
        w <= MAX_CYCLE_MS,
        forall|k: int| 0 <= k < intervals@.len() ==> w <= intervals@[k],
        w == MAX_CYCLE_MS || exists|k: int| 0 <= k < intervals@.len() && w == intervals@[k],
{
    let mut w: u64 = MAX_CYCLE_MS;
    let mut i: usize = 0;
    while i < intervals.len()
        invariant
            i <= intervals@.len(),
            w == next_awake_view(intervals@.take(i as int)),
            w <= MAX_CYCLE_MS,
            forall|k: int| 0 <= k < i ==> w <= intervals@[k],
            w == MAX_CYCLE_MS || exists|k: int| 0 <= k < i && w == intervals@[k],
        decreases intervals@.len() - i,
    {
        assert(intervals@.take(i + 1).drop_last() =~= intervals@.take(i as int));
        if w > intervals[i] {
            w = intervals[i];
        }
        i = i + 1;
    }
    assert(intervals@.take(intervals@.len() as int) =~= intervals@);
    w
}

} // verus!
