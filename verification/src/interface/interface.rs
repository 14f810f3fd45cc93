//! Shared state of an interface: its identity, its topics, the state of its
//! machine and the events raised since the last run.
use vstd::prelude::*;
use crate::interface::fsm::{
    Events, State, state_text, spec_next_state, next_state, CONNECTION_UP, CONNECTION_DOWN, INIT_DONE, REBOOT, CLEANED, ERROR, NO_EVENT,
};
use crate::interface::logger::{Logger, is_interface_record};
use crate::logger::{LogLevel, LogRecord};

verus! {

/// The `info` attribute of an interface: its type and version, given at
/// creation, and the state and last error message that each change of state
/// writes (both empty until the first change).
pub struct InfoAttribute {
    pub itype: String,
    pub version: String,
    pub state: String,
    pub error: String,
}

/// The content of an `info` attribute: type, version, state, error.
pub open spec fn info_attribute_view(a: InfoAttribute) -> (Seq<char>, Seq<char>, Seq<char>, Seq<char>) {
    (a.itype@, a.version@, a.state@, a.error@)
}

/// The `error` field that a change of state writes: the last error message,
/// or nothing.
pub open spec fn error_field(last_error: Option<Seq<char>>) -> Seq<char> {
    match last_error {
        Some(m) => m,
        None => Seq::<char>::empty(),
    }
}

/// How a run of the state machine ends: the log record of the change of
/// state, when the raised events called for one, and whether all the
/// attributes of the interface are published now.
pub struct RunEnd {
    pub change: Option<LogRecord>,
    pub publish_all_attributes: bool,
}

/// Shared data and behaviour across an interface objects.
pub struct Interface {
    name: String,
    dev_name: String,
    bench_name: String,
    topic_base: String,
    topic_cmds: String,
    topic_atts: String,
    topic_info: String,
    fsm_state: State,
    fsm_events: Events,
    is_connection_up: bool,
    last_error_message: Option<String>,
    info: InfoAttribute,
    logger: Logger,
}

/// `pza/bench/device/interface`, the base topic of an interface.
pub open spec fn base_topic(bench: Seq<char>, dev: Seq<char>, name: Seq<char>) -> Seq<char> {
    "pza/"@ + bench + "/"@ + dev + "/"@ + name
}

/// The text logged when the state changes.
pub open spec fn state_change_text(previous: State, next: State) -> Seq<char> {
    "State changed "@ + state_text(previous) + " => "@ + state_text(next)
}

impl Interface {
    pub closed spec fn names_view(&self) -> (Seq<char>, Seq<char>, Seq<char>) {
        (self.bench_name@, self.dev_name@, self.name@)
    }

    /// Base, commands, attributes and info topics.
    pub closed spec fn topics_view(&self) -> (Seq<char>, Seq<char>, Seq<char>, Seq<char>) {
        (self.topic_base@, self.topic_cmds@, self.topic_atts@, self.topic_info@)
    }

    pub closed spec fn state_view(&self) -> State {
        self.fsm_state
    }

    pub closed spec fn events_view(&self) -> u32 {
        self.fsm_events.bits
    }

    pub closed spec fn connection_up_view(&self) -> bool {
        self.is_connection_up
    }

    pub closed spec fn last_error_view(&self) -> Option<Seq<char>> {
        match self.last_error_message {
            Some(m) => Some(m@),
            None => None,
        }
    }

    pub closed spec fn logger_view(&self) -> Logger {
        self.logger
    }

    /// The content of the `info` attribute.
    pub closed spec fn info_view(&self) -> (Seq<char>, Seq<char>, Seq<char>, Seq<char>) {
        info_attribute_view(self.info)
    }

    /// Everything but the events is the same in `self` and `other`.
    pub closed spec fn same_but_events(&self, other: &Interface) -> bool {
        &&& self.name == other.name
        &&& self.dev_name == other.dev_name
        &&& self.bench_name == other.bench_name
        &&& self.topic_base == other.topic_base
        &&& self.topic_cmds == other.topic_cmds
        &&& self.topic_atts == other.topic_atts
        &&& self.topic_info == other.topic_info
        &&& self.fsm_state == other.fsm_state
        &&& self.is_connection_up == other.is_connection_up
        &&& self.last_error_message == other.last_error_message
        &&& self.info == other.info
        &&& self.logger == other.logger
    }

    /// A new interface of type `itype` and version `version`, in the
    /// connecting state, without event nor error.
    pub fn new(name: &str, dev_name: &str, bench_name: &str, itype: &str, version: &str) -> (i: Interface)
        ensures
            i.info_view() == (itype@, version@, Seq::<char>::empty(), Seq::<char>::empty()),
            i.names_view() == (bench_name@, dev_name@, name@),
            i.topics_view() == ({
                let base = base_topic(bench_name@, dev_name@, name@);
                (base, base + "/cmds"@, base + "/atts"@, base + "/atts"@ + "/info"@)
            }),
            i.state_view() == State::Connecting,
            i.events_view() == NO_EVENT,
            !i.connection_up_view(),
            i.last_error_view() is None,
            i.logger_view().names_view() == (bench_name@, dev_name@, name@),
    {
        let mut obj = Interface {
            name: String::from_str(name),
            dev_name: String::from_str(dev_name),
            bench_name: String::from_str(bench_name),
            topic_base: String::new(),
            topic_cmds: String::new(),
            topic_atts: String::new(),
            topic_info: String::new(),
            fsm_state: State::Connecting,
            fsm_events: Events::empty(),
            is_connection_up: false,
            last_error_message: None,
            info: InfoAttribute {
                itype: String::from_str(itype),
                version: String::from_str(version),
                state: String::new(),
                error: String::new(),
            },
            logger: Logger::new(bench_name, dev_name, name),
        };
        obj.update_topics();
        obj
    }

    /// Recomputes the topics from the names.
    fn update_topics(&mut self)
        ensures
            final(self).names_view() == old(self).names_view(),
            final(self).topics_view() == ({
                let base = base_topic(old(self).bench_name@, old(self).dev_name@, old(self).name@);
                (base, base + "/cmds"@, base + "/atts"@, base + "/atts"@ + "/info"@)
            }),
            final(self).state_view() == old(self).state_view(),
            final(self).events_view() == old(self).events_view(),
            final(self).connection_up_view() == old(self).connection_up_view(),
            final(self).last_error_view() == old(self).last_error_view(),
            final(self).logger == old(self).logger,
            final(self).info == old(self).info,
    {
        let mut base = String::from_str("pza/");
        base.append(self.bench_name.as_str());
        base.append("/");
        base.append(self.dev_name.as_str());
        base.append("/");
        base.append(self.name.as_str());
        let mut cmds = base.clone();
        cmds.append("/cmds");
        let mut atts = base.clone();
        atts.append("/atts");
        let mut info = atts.clone();
        info.append("/info");
        self.topic_base = base;
        self.topic_cmds = cmds;
        self.topic_atts = atts;
        self.topic_info = info;
    }

    pub fn name(&self) -> (n: &String)
        ensures
            n@ == self.names_view().2,
    {
        &self.name
    }

    pub fn _dev_name(&self) -> (n: &String)
        ensures
            n@ == self.names_view().1,
    {
        &self.dev_name
    }

    pub fn _bench_name(&self) -> (n: &String)
        ensures
            n@ == self.names_view().0,
    {
        &self.bench_name
    }

    /// The current state.
    pub fn current_state(&self) -> (s: &State)
        ensures
            *s == self.state_view(),
    {
        &self.fsm_state
    }

    /// The events raised since the last clearing.
    pub fn events(&self) -> (e: Events)
        ensures
            e.bits == self.events_view(),
    {
        self.fsm_events
    }

    /// Moves to `state`, writes the new state and the last error message (or
    /// nothing) into the `info` attribute, and returns the log of the change.
    pub fn move_to_state(&mut self, state: State) -> (log: LogRecord)
        ensures
            final(self).state_view() == state,
            final(self).events_view() == old(self).events_view(),
            final(self).connection_up_view() == old(self).connection_up_view(),
            final(self).last_error_view() == old(self).last_error_view(),
            final(self).names_view() == old(self).names_view(),
            final(self).topics_view() == old(self).topics_view(),
            final(self).logger_view() == old(self).logger_view(),
            final(self).info_view() == (
                old(self).info_view().0,
                old(self).info_view().1,
                state_text(state),
                error_field(old(self).last_error_view()),
            ),
            is_interface_record(
                log,
                old(self).logger_view().names_view(),
                LogLevel::Info,
                state_change_text(old(self).state_view(), state),
            ),
    {
        let previous = self.fsm_state;
        self.fsm_state = state;
        self.info.state = self.fsm_state.to_string();
        self.info.error = match &self.last_error_message {
            Some(m) => m.clone(),
            None => String::new(),
        };
        let mut text = String::from_str("State changed ");
        text.append(previous.to_string().as_str());
        text.append(" => ");
        text.append(state.to_string().as_str());
        self.logger.log_info(text.as_str())
    }

    /// Ends a run of the state machine: takes the transition that the events
    /// raised since the last run call for from the current state, forgets the
    /// events, and asks for all the attributes to be published.
    pub fn end_run(&mut self) -> (r: RunEnd)
        ensures
            match spec_next_state(old(self).state_view(), old(self).events_view()) {
                Some(s) => {
                    &&& final(self).state_view() == s
                    &&& final(self).info_view() == (
                        old(self).info_view().0,
                        old(self).info_view().1,
                        state_text(s),
                        error_field(old(self).last_error_view()),
                    )
                    &&& r.change matches Some(log) && is_interface_record(
                        log,
                        old(self).logger_view().names_view(),
                        LogLevel::Info,
                        state_change_text(old(self).state_view(), s),
                    )
                },
                None => {
                    &&& final(self).state_view() == old(self).state_view()
                    &&& final(self).info_view() == old(self).info_view()
                    &&& r.change is None
                },
            },
            final(self).events_view() == NO_EVENT,
            r.publish_all_attributes,
            final(self).connection_up_view() == old(self).connection_up_view(),
            final(self).last_error_view() == old(self).last_error_view(),
            final(self).names_view() == old(self).names_view(),
            final(self).topics_view() == old(self).topics_view(),
            final(self).logger_view() == old(self).logger_view(),
    {
        let change = match next_state(self.fsm_state, self.fsm_events) {
            Some(s) => Some(self.move_to_state(s)),
            None => None,
        };
        self.clear_events();
        RunEnd { change, publish_all_attributes: true }
    }

    /// The `info` attribute.
    pub fn info(&self) -> (a: &InfoAttribute)
        ensures
            info_attribute_view(*a) == self.info_view(),
    {
        &self.info
    }

    /// Forgets every event.
    pub fn clear_events(&mut self)
        ensures
            final(self).events_view() == NO_EVENT,
            final(self).same_but_events(old(self)),
    {
        self.fsm_events = Events::empty();
    }

    /// Raises `event`.
    pub fn set_event(&mut self, event: Events)
        ensures
            final(self).events_view() == old(self).events_view() | event.bits,
            final(self).same_but_events(old(self)),
    {
        self.fsm_events.insert(event);
    }

    /// Raises the error event and keeps `message` as the last error.
    pub fn set_event_error(&mut self, message: &str)
        ensures
            final(self).events_view() == old(self).events_view() | ERROR,
            final(self).last_error_view() == Some(message@),
            final(self).state_view() == old(self).state_view(),
            final(self).connection_up_view() == old(self).connection_up_view(),
            final(self).names_view() == old(self).names_view(),
            final(self).topics_view() == old(self).topics_view(),
            final(self).info_view() == old(self).info_view(),
            final(self).logger_view() == old(self).logger_view(),
    {
        self.last_error_message = Some(String::from_str(message));
        self.fsm_events.insert(Events::from_bits(ERROR));
    }

    /// Records that the connection is up and raises the event.
    pub fn set_event_connection_up(&mut self)
        ensures
            final(self).events_view() == old(self).events_view() | CONNECTION_UP,
            final(self).connection_up_view(),
            final(self).state_view() == old(self).state_view(),
            final(self).last_error_view() == old(self).last_error_view(),
            final(self).names_view() == old(self).names_view(),
            final(self).topics_view() == old(self).topics_view(),
            final(self).info_view() == old(self).info_view(),
            final(self).logger_view() == old(self).logger_view(),
    {
        self.is_connection_up = true;
        self.set_event(Events::from_bits(CONNECTION_UP));
    }

    /// Records that the connection is down and raises the event.
    pub fn set_event_connection_down(&mut self)
        ensures
            final(self).events_view() == old(self).events_view() | CONNECTION_DOWN,
            !final(self).connection_up_view(),
            final(self).state_view() == old(self).state_view(),
            final(self).last_error_view() == old(self).last_error_view(),
            final(self).names_view() == old(self).names_view(),
            final(self).topics_view() == old(self).topics_view(),
            final(self).info_view() == old(self).info_view(),
            final(self).logger_view() == old(self).logger_view(),
    {
        self.is_connection_up = false;
        self.set_event(Events::from_bits(CONNECTION_DOWN));
    }

    /// Raises the end of initialization.
    pub fn set_event_init_done(&mut self)
        ensures
            final(self).events_view() == old(self).events_view() | INIT_DONE,
            final(self).same_but_events(old(self)),
    {
        self.set_event(Events::from_bits(INIT_DONE));
    }

    /// Raises the reboot request.
    pub fn set_event_reboot(&mut self)
        ensures
            final(self).events_view() == old(self).events_view() | REBOOT,
            final(self).same_but_events(old(self)),
    {
        self.set_event(Events::from_bits(REBOOT));
    }

    /// Raises the end of the cleanup.
    pub fn set_event_cleaned(&mut self)
        ensures
            final(self).events_view() == old(self).events_view() | CLEANED,
            final(self).same_but_events(old(self)),
    {
        self.set_event(Events::from_bits(CLEANED));
    }

    /// Raises the connection event again when the connection is known to be up.
    pub fn trigger_event_connection_cache(&mut self)
        ensures
            old(self).connection_up_view() ==> final(self).events_view() == old(self).events_view() | CONNECTION_UP,
            !old(self).connection_up_view() ==> *final(self) == *old(self),
            final(self).connection_up_view() == old(self).connection_up_view(),
            final(self).state_view() == old(self).state_view(),
            final(self).last_error_view() == old(self).last_error_view(),
            final(self).info_view() == old(self).info_view(),
            final(self).logger_view() == old(self).logger_view(),
    {
        if self.is_connection_up {
            self.set_event_connection_up();
        }
    }

    /// A copy of the interface logger.
    pub fn clone_logger(&self) -> (l: Logger)
        ensures
            l.names_view() == self.logger_view().names_view(),
    {
        self.logger.duplicate()
    }

    /// The record of a warning from this interface.
    pub fn log_warn(&self, text: &str) -> (r: LogRecord)
        ensures
            is_interface_record(r, self.logger_view().names_view(), LogLevel::Warn, text@),
    {
        self.logger.log_warn(text)
    }

    /// The record of an information message from this interface.
    pub fn log_info(&self, text: &str) -> (r: LogRecord)
        ensures
            is_interface_record(r, self.logger_view().names_view(), LogLevel::Info, text@),
    {
        self.logger.log_info(text)
    }

    /// The warning that reports the last error message, if any.
    pub fn log_last_error(&self) -> (r: LogRecord)
        ensures
            is_interface_record(
                r,
                self.logger_view().names_view(),
                LogLevel::Warn,
                match self.last_error_view() {
                    Some(m) => "Last error message: "@ + m,
                    None => "No error message"@,
                },
            ),
    {
        match &self.last_error_message {
            Some(msg) => {
                let mut text = String::from_str("Last error message: ");
                text.append(msg.as_str());
                self.logger.log_warn(text.as_str())
            },
            None => self.logger.log_warn("No error message"),
        }
    }
}

} // verus!
