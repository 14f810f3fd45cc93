//! Subscriptions of an interface to the broker: the identifiers of the
//! topics it listens to, and the messages it receives.
use vstd::prelude::*;

verus! {

/// Identifier of the platform scan topic.
pub const ID_PZA: u16 = 500;
/// Identifier of the `cmds/set` topic of an interface.
pub const ID_PZA_CMDS_SET: u16 = 200;

/// A change of the connection to the broker.
#[derive(Clone, PartialEq, Eq, Debug, Structural)]
pub struct ConnectionStatusMessage {
    /// True if connected, false if disconnected.
    pub connected: bool,
}

impl ConnectionStatusMessage {
    pub fn new(connected: bool) -> (m: ConnectionStatusMessage)
        ensures
            m.connected == connected,
    {
        ConnectionStatusMessage { connected: connected }
    }
}

/// A message received on a subscribed topic, with the identifier of the
/// subscription.
pub struct MqttMessage {
    id: u16,
    topic: String,
    payload: Vec<u8>,
}

impl MqttMessage {
    pub closed spec fn id_view(&self) -> u16 {
        self.id
    }

    pub closed spec fn topic_view(&self) -> Seq<char> {
        self.topic@
    }

    pub closed spec fn payload_view(&self) -> Seq<u8> {
        self.payload@
    }

    /// The message of `payload` on `topic`, received through the subscription `id`.
    pub fn new(id: u16, topic: String, payload: Vec<u8>) -> (m: MqttMessage)
        ensures
            m.id_view() == id,
            m.topic_view() == topic@,
            m.payload_view() == payload@,
    {
        MqttMessage { id, topic, payload }
    }

    pub fn id(&self) -> (i: u16)
        ensures
            i == self.id_view(),
    {
        self.id
    }

    pub fn topic(&self) -> (t: &String)
        ensures
            t@ == self.topic_view(),
    {
        &self.topic
    }

    pub fn payload(&self) -> (p: &Vec<u8>)
        ensures
            p@ == self.payload_view(),
    {
        &self.payload
    }
}

/// The subscriptions of an interface of topic `topic` whose attributes are
/// `names`: the scan topic `pza`, the topic `topic/cmds/set`, then for each
/// attribute the topic `topic` + `infix` + its name.
pub open spec fn spec_requests(
    topic: Seq<char>,
    names: Seq<(u16, Seq<char>)>,
    infix: Seq<char>,
) -> Seq<(u16, Seq<char>)> {
    seq![(ID_PZA, "pza"@), (ID_PZA_CMDS_SET, topic + "/cmds/set"@)] + Seq::new(
        names.len(),
        |i: int| (names[i].0, topic + infix + names[i].1),
    )
}

/// The identifier and topic of each request.
pub open spec fn requests_view(v: Seq<(u16, String)>) -> Seq<(u16, Seq<char>)> {
    Seq::new(v.len(), |i: int| (v[i].0, v[i].1@))
}

fn requests(topic: &str, att_names: &Vec<(u16, String)>, infix: &str) -> (r: Vec<(u16, String)>)
    ensures
        requests_view(r@) == spec_requests(topic@, requests_view(att_names@), infix@),
{
    let mut cmds = String::from_str(topic);
    cmds.append("/cmds/set");
    let mut r: Vec<(u16, String)> = vec![(ID_PZA, String::from_str("pza")), (ID_PZA_CMDS_SET, cmds)];
    let mut i: usize = 0;
    while i < att_names.len()
        invariant
            i <= att_names@.len(),
            requests_view(r@) == spec_requests(topic@, requests_view(att_names@.take(i as int)), infix@),
        decreases att_names@.len() - i,
    {
        let mut t = String::from_str(topic);
        t.append(infix);
        t.append(att_names[i].1.as_str());
        let ghost before = requests_view(r@);
        r.push((att_names[i].0, t));
        proof {
            let names_next = requests_view(att_names@.take(i + 1));
            let names_now = requests_view(att_names@.take(i as int));
            assert(requests_view(r@) =~= before.push((att_names@[i as int].0, topic@ + infix@ + att_names@[i as int].1@)));
            assert(spec_requests(topic@, names_next, infix@) =~= spec_requests(topic@, names_now, infix@).push(
                (att_names@[i as int].0, topic@ + infix@ + att_names@[i as int].1@),
            ));
        }
        i = i + 1;
    }
    proof {
        assert(att_names@.take(att_names@.len() as int) =~= att_names@);
    }
    r
}

/// The subscriptions with which a runner builds an interface: each
/// attribute listens on `topic/name`.
pub fn runner_requests(topic: &str, att_names: &Vec<(u16, String)>) -> (r: Vec<(u16, String)>)
    ensures
        requests_view(r@) == spec_requests(topic@, requests_view(att_names@), "/"@),
{
    requests(topic, att_names, "/")
}

/// The subscriptions with which an interface is started: each attribute
/// listens on `topic/cmds/name`.
pub fn starter_requests(topic: &str, att_names: &Vec<(u16, String)>) -> (r: Vec<(u16, String)>)
    ensures
        requests_view(r@) == spec_requests(topic@, requests_view(att_names@), "/cmds/"@),
{
    requests(topic, att_names, "/cmds/")
}

} // verus!

verus! {

/// The compiled regular expression type of `regex`.
#[verifier::external_type_specification]
#[verifier::external_body]
pub struct ExRegex(regex::Regex);

/// Whether `regex` compiles `pattern`: the pattern is valid and within the
/// default size limit.
pub uninterp spec fn regex_compiles(pattern: Seq<char>) -> bool;

/// Whether the regular expression `pattern` matches somewhere in `haystack`.
pub uninterp spec fn regex_matches(pattern: Seq<char>, haystack: Seq<char>) -> bool;

/// `regex::Regex::new`: compiles `pattern`; it succeeds exactly when
/// `regex_compiles` holds of the pattern. The compiled value is opaque.
#[verifier::external_body]
fn compile_regex(pattern: &str) -> (r: Option<regex::Regex>)
    ensures
        r is Some <==> regex_compiles(pattern@),
{
    regex::Regex::new(pattern).ok()
}

/// Filters the messages of a connection for an interface: the topics that
/// match a pattern, and the identifier under which the interface receives
/// them.
pub struct Filter {
    id: u16,
    pattern: String,
    filter: regex::Regex,
}

/// `Regex::is_match` of `regex`: whether the compiled pattern of `filter`
/// matches somewhere in `topic`, as `regex_matches` names it. A filter is
/// only built by `Filter::new`, which compiles its `pattern` into its
/// `filter`.
#[verifier::external_body]
fn filter_is_match(filter: &Filter, topic: &str) -> (r: bool)
    ensures
        r == regex_matches(filter.pattern@, topic@),
{
    filter.filter.is_match(topic)
}

impl Filter {
    pub closed spec fn id_view(&self) -> u16 {
        self.id
    }

    pub closed spec fn pattern_view(&self) -> Seq<char> {
        self.pattern@
    }

    /// The filter of identifier `id` for the topics that match `topic`;
    /// `None` when `topic` is not a pattern that compiles.
    pub fn new(id: u16, topic: &str) -> (f: Option<Filter>)
        ensures
            f is Some <==> regex_compiles(topic@),
            f matches Some(x) ==> x.id_view() == id && x.pattern_view() == topic@,
    {
        match compile_regex(topic) {
            Some(filter) => Some(Filter { id, pattern: String::from_str(topic), filter }),
            None => None,
        }
    }

    pub fn id(&self) -> (i: u16)
        ensures
            i == self.id_view(),
    {
        self.id
    }

    /// Whether `topic` matches the filter.
    pub fn match_topic(&self, topic: &str) -> (b: bool)
        ensures
            b == regex_matches(self.pattern_view(), topic@),
    {
        filter_is_match(self, topic)
    }
}

impl MqttMessage {
    /// The message of `payload` received on `topic` through `filter`.
    pub fn from_filter(filter: &Filter, topic: String, payload: Vec<u8>) -> (m: MqttMessage)
        ensures
            m.id_view() == filter.id_view(),
            m.topic_view() == topic@,
            m.payload_view() == payload@,
    {
        MqttMessage::new(filter.id(), topic, payload)
    }
}

} // verus!
