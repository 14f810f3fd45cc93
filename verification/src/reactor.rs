//! The reactor: where it connects, its root topic, and the dispatch of
//! incoming messages to the attribute of their topic.
use vstd::prelude::*;
use crate::registry::Registry;

verus! {

/// Settings for the reactor.
pub struct ReactorSettings {
    pub addr: String,
    pub port_mqtt: u16,
    /// Namespace on which the reactor must work.
    pub namespace: Option<String>,
}

impl ReactorSettings {
    pub fn new(addr: &str, port_mqtt: u16, namespace: Option<String>) -> (s: ReactorSettings)
        ensures
            s.addr@ == addr@,
            s.port_mqtt == port_mqtt,
            s.namespace == namespace,
    {
        ReactorSettings { addr: String::from_str(addr), port_mqtt: port_mqtt, namespace: namespace }
    }
}

/// `pza/hostname`: the root topic of the platform running on `hostname`,
/// on which it also answers scans.
pub fn root_topic(hostname: &str) -> (t: String)
    ensures
        t@ == "pza/"@ + hostname@,
{
    let mut t = String::from_str("pza/");
    t.append(hostname);
    t
}

/// Dispatcher of incoming messages: the handler registered for each topic.
pub struct MessageDispatcher<H> {
    message_attributes: Registry<H>,
}

impl<H> MessageDispatcher<H> {
    pub closed spec fn handlers_view(&self) -> Map<Seq<char>, H> {
        self.message_attributes.view_map()
    }

    /// No handler.
    pub fn new() -> (d: MessageDispatcher<H>)
        ensures
            d.handlers_view() == Map::<Seq<char>, H>::empty(),
    {
        MessageDispatcher { message_attributes: Registry::new() }
    }

    /// Registers `attribute` as the handler of `topic`, replacing any other.
    pub fn register_message_attribute(&mut self, topic: String, attribute: H)
        ensures
            final(self).handlers_view() == old(self).handlers_view().insert(topic@, attribute),
    {
        self.message_attributes.insert(topic, attribute);
    }

    /// The handler to trigger for a message on `topic`, if the topic is managed.
    pub fn handler_for(&self, topic: &str) -> (h: Option<&H>)
        ensures
            match h {
                Some(x) => self.handlers_view().contains_key(topic@) && *x == self.handlers_view()[topic@],
                None => !self.handlers_view().contains_key(topic@),
            },
    {
        self.message_attributes.get(topic)
    }
}

} // verus!

verus! {

/// The decimal digit of `d`, for `d < 10`.
pub open spec fn digit_char(d: nat) -> char {
    if d == 0 { '0' } else if d == 1 { '1' } else if d == 2 { '2' } else if d == 3 { '3' }
    else if d == 4 { '4' } else if d == 5 { '5' } else if d == 6 { '6' } else if d == 7 { '7' }
    else if d == 8 { '8' } else { '9' }
}

/// The decimal digits of `n`, most significant first, without leading zeros.
pub open spec fn decimal_digits(n: nat) -> Seq<char>
    decreases n,
{
    if n < 10 {
        seq![digit_char(n)]
    } else {
        decimal_digits(n / 10).push(digit_char(n % 10))
    }
}

/// The decimal text of `n`, with a `-` before a negative number.
pub open spec fn decimal_text(n: int) -> Seq<char> {
    if n < 0 {
        seq!['-'] + decimal_digits((-n) as nat)
    } else {
        decimal_digits(n as nat)
    }
}

fn digit_of(d: u64) -> (c: char)
    requires
        d < 10,
    ensures
        c == digit_char(d as nat),
{
    if d == 0 { '0' } else if d == 1 { '1' } else if d == 2 { '2' } else if d == 3 { '3' }
    else if d == 4 { '4' } else if d == 5 { '5' } else if d == 6 { '6' } else if d == 7 { '7' }
    else if d == 8 { '8' } else { '9' }
}

fn push_digits(text: &mut String, n: u64)
    ensures
        final(text)@ == old(text)@ + decimal_digits(n as nat),
    decreases n,
{
    if n >= 10 {
        push_digits(text, n / 10);
    }
    text.push(digit_of(n % 10));
    proof {
        if n >= 10 {
            assert(final(text)@ =~= old(text)@ + decimal_digits(n as nat));
        } else {
            assert(final(text)@ =~= old(text)@ + decimal_digits(n as nat));
        }
    }
}

/// The decimal text of `n`, as `format!("{}", n)` writes it.
pub fn decimal_string(n: i64) -> (s: String)
    ensures
        s@ == decimal_text(n as int),
{
    let mut s = String::new();
    if n < 0 {
        s.push('-');
        let m: u64 = if n == i64::MIN { 9223372036854775808u64 } else { (-n) as u64 };
        push_digits(&mut s, m);
    } else {
        push_digits(&mut s, n as u64);
    }
    s
}

/// The answer to a scan of the platforms: on the root topic of the machine
/// `hostname`, the time of the answer in milliseconds since the epoch.
pub fn scan_reply(hostname: &str, now_millis: i64) -> (r: (String, String))
    ensures
        r.0@ == "pza/"@ + hostname@,
        r.1@ == decimal_text(now_millis as int),
{
    (root_topic(hostname), decimal_string(now_millis))
}

/// `hostname::get`: the name of this machine, converted lossily to UTF-8;
/// `None` when the system does not give it. It depends on the machine, and
/// nothing is stated of it.
#[verifier::external_body]
fn machine_hostname() -> Option<String> {
    match hostname::get() {
        Ok(h) => Some(h.to_string_lossy().to_string()),
        Err(_) => None,
    }
}

/// The time type of the system clock.
#[verifier::external_type_specification]
#[verifier::external_body]
pub struct ExSystemTime(std::time::SystemTime);

/// `std::time::SystemTime::now`: the reading of the system clock. It depends
/// on the clock, and nothing is stated of it.
#[verifier::external_body]
fn clock_now() -> std::time::SystemTime {
    std::time::SystemTime::now()
}

/// `SystemTime::duration_since(UNIX_EPOCH)`: the whole seconds and the
/// nanoseconds of `t` after the epoch; `None` when `t` is before the epoch.
/// The nanoseconds are below one billion, as `Duration::subsec_nanos`
/// documents.
#[verifier::external_body]
fn since_epoch(t: &std::time::SystemTime) -> (r: Option<(u64, u32)>)
    ensures
        r matches Some(d) ==> d.1 < 1_000_000_000,
{
    match t.duration_since(std::time::UNIX_EPOCH) {
        Ok(d) => Some((d.as_secs(), d.subsec_nanos())),
        Err(_) => None,
    }
}

/// What chrono gives for the instant `secs` seconds and `nsecs` nanoseconds
/// after the epoch, read back in milliseconds: `None` when the instant is
/// outside the dates chrono represents.
pub uninterp spec fn chrono_millis(secs: i64, nsecs: u32) -> Option<i64>;

/// `chrono::DateTime::<Utc>::from_timestamp(secs, nsecs)` read back with
/// `timestamp_millis`, as `chrono_millis` names it. When it gives a value
/// and the nanoseconds are below one billion, the value is
/// `secs * 1000 + nsecs / 1_000_000`; for seconds from 0 to 8_000_000_000_000 (well
/// inside chrono's years, up to 262143) and such nanoseconds it gives one.
#[verifier::external_body]
fn utc_timestamp_millis(secs: i64, nsecs: u32) -> (r: Option<i64>)
    ensures
        r == chrono_millis(secs, nsecs),
        r matches Some(m) ==> (nsecs < 1_000_000_000 ==> m == secs * 1000 + nsecs / 1_000_000),
        0 <= secs <= 8_000_000_000_000 && nsecs < 1_000_000_000 ==> r == Some((secs * 1000 + nsecs / 1_000_000) as i64),
{
    chrono::DateTime::from_timestamp(secs, nsecs).map(|t| t.timestamp_millis())
}

/// The milliseconds since the epoch of a time given as whole seconds and
/// nanoseconds after the epoch: none for no time or for seconds beyond
/// `i64`, else what chrono gives for them.
pub open spec fn millis_from_view(since: Option<(u64, u32)>) -> Option<i64> {
    match since {
        None => None,
        Some((s, n)) => if s > i64::MAX { None } else { chrono_millis(s as i64, n) },
    }
}

/// The milliseconds since the epoch of the time `since` (seconds and
/// nanoseconds after the epoch, or none).
pub fn millis_from(since: Option<(u64, u32)>) -> (r: Option<i64>)
    ensures
        r == millis_from_view(since),
        match since {
            Some(d) => {
                &&& d.0 <= 8_000_000_000_000 && d.1 < 1_000_000_000 ==> r == Some((d.0 * 1000 + d.1 / 1_000_000) as i64)
                &&& d.1 < 1_000_000_000 ==> (r matches Some(m) ==> m >= 0)
            },
            None => r is None,
        },
{
    match since {
        Some((secs, nsecs)) => {
            if secs <= 9223372036854775807u64 {
                utc_timestamp_millis(secs as i64, nsecs)
            } else {
                None
            }
        },
        None => None,
    }
}

/// The current time in milliseconds since the epoch, from the reading of
/// the clock; `None` when the clock reads before the epoch or beyond the
/// dates chrono represents.
pub fn now_millis() -> (r: Option<i64>)
    ensures
        r matches Some(m) ==> m >= 0,
        r matches Some(m) ==> exists|s: u64, n: u32| n < 1_000_000_000 && r == millis_from_view(Some((s, n))),
{
    let t = clock_now();
    let since = since_epoch(&t);
    let r = millis_from(since);
    proof {
        if r is Some {
            let d = since->0;
            assert(r == millis_from_view(Some((d.0, d.1))));
        }
    }
    r
}

/// The root topic of this machine; `None` when its name cannot be read.
pub fn local_root_topic() -> (t: Option<String>)
    ensures
        t matches Some(x) ==> x@.len() >= 4 && x@.subrange(0, 4) == "pza/"@,
{
    match machine_hostname() {
        Some(h) => {
            let t = root_topic(h.as_str());
            proof {
                reveal_strlit("pza/");
                assert(t@.subrange(0, 4) =~= "pza/"@);
            }
            Some(t)
        },
        None => None,
    }
}

/// The answer of this machine to a scan, at the current time; `None` when
/// its name or the time cannot be read.
pub fn local_scan_reply() -> (r: Option<(String, String)>)
    ensures
        r matches Some(x) ==> exists|h: Seq<char>, t: int| t >= 0 && x.0@ == "pza/"@ + h && x.1@ == decimal_text(t),
{
    match machine_hostname() {
        Some(h) => {
            match now_millis() {
                Some(now) => {
                    let reply = scan_reply(h.as_str(), now);
                    assert(reply.0@ == "pza/"@ + h@ && reply.1@ == decimal_text(now as int));
                    Some(reply)
                },
                None => None,
            }
        },
        None => None,
    }
}

} // verus!
