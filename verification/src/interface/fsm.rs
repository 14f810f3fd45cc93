//! The interface finite state machine: its states, its events and the
//! decisions taken at each run of the machine.
use vstd::prelude::*;

verus! {

/// States of the main interface FSM.
#[derive(Debug, Clone, Copy, PartialEq, Eq, Structural)]
pub enum State {
    Connecting,
    Initializating,
    Running,
    Warning,
    Cleaning,
    Stopping,
}

/// The name under which a state is displayed.
pub open spec fn state_text(state: State) -> Seq<char> {
    match state {
        State::Connecting => "Connecting"@,
        State::Initializating => "Initializating"@,
        State::Running => "Running"@,
        State::Warning => "Warning"@,
        State::Cleaning => "Cleaning"@,
        State::Stopping => "Stopping"@,
    }
}

impl State {
    /// The displayed name of the state.
    pub fn to_string(&self) -> (s: String)
        ensures
            s@ == state_text(*self),
    {
        match self {
            State::Connecting => String::from_str("Connecting"),
            State::Initializating => String::from_str("Initializating"),
            State::Running => String::from_str("Running"),
            State::Warning => String::from_str("Warning"),
            State::Cleaning => String::from_str("Cleaning"),
            State::Stopping => String::from_str("Stopping"),
        }
    }
}

/// A set of FSM events, one bit each.
#[derive(Debug, Clone, Copy, PartialEq, Eq, Structural)]
pub struct Events {
    pub bits: u32,
}

pub const NO_EVENT: u32 = 0b00000000;
pub const CONNECTION_UP: u32 = 0b00000001;
pub const CONNECTION_DOWN: u32 = 0b00000010;
pub const INIT_DONE: u32 = 0b00000100;
pub const REBOOT: u32 = 0b00001000;
pub const STOP: u32 = 0b00010000;
pub const CLEANED: u32 = 0b00100000;
pub const ERROR: u32 = 0b10000000;

/// Whether every bit of `flag` is set in `bits`.
pub open spec fn has_flags(bits: u32, flag: u32) -> bool {
    bits & flag == flag
}

impl Events {
    /// The empty set of events.
    pub fn empty() -> (e: Events)
        ensures
            e.bits == NO_EVENT,
    {
        Events { bits: NO_EVENT }
    }

    /// The set made of the events of `bits`.
    pub fn from_bits(bits: u32) -> (e: Events)
        ensures
            e.bits == bits,
    {
        Events { bits }
    }

    /// Whether all the events of `other` are set.
    pub fn contains(&self, other: Events) -> (b: bool)
        ensures
            b == has_flags(self.bits, other.bits),
    {
        self.bits & other.bits == other.bits
    }

    /// Adds the events of `other`.
    pub fn insert(&mut self, other: Events)
        ensures
            final(self).bits == old(self).bits | other.bits,
    {
        self.bits = self.bits | other.bits;
    }
}

/// Law: once inserted, an event is contained, and the events contained before
/// are still contained.
pub proof fn lemma_insert_contains(before: u32, added: u32, flag: u32)
    ensures
        has_flags(before | added, added),
        has_flags(before, flag) ==> has_flags(before | added, flag),
{
    assert((before | added) & added == added) by (bit_vector);
    assert(before & flag == flag ==> (before | added) & flag == flag) by (bit_vector);
}

/// Law: the empty set contains no event.
pub proof fn lemma_empty_contains_nothing(flag: u32)
    requires
        flag != 0,
    ensures
        !has_flags(NO_EVENT, flag),
{
    assert(flag != 0 ==> 0u32 & flag != flag) by (bit_vector);
}

/// The handler that a run of the machine performs in a state.
#[derive(Debug, Clone, Copy, PartialEq, Eq, Structural)]
pub enum StateTask {
    /// Run the `connecting` handler.
    Connecting,
    /// Run the `initializating` handler.
    Initializating,
    /// Run the `running` handler.
    Running,
    /// Wait five seconds before looking for a reboot.
    WaitBeforeReboot,
    /// Run the `cleaning` handler.
    Cleaning,
}

/// The handler of each state: a warning waits before rebooting, a stopping
/// interface cleans up.
pub open spec fn spec_task_for(state: State) -> StateTask {
    match state {
        State::Connecting => StateTask::Connecting,
        State::Initializating => StateTask::Initializating,
        State::Running => StateTask::Running,
        State::Warning => StateTask::WaitBeforeReboot,
        State::Cleaning => StateTask::Cleaning,
        State::Stopping => StateTask::Cleaning,
    }
}

/// The handler to perform in `state`.
pub fn task_for(state: State) -> (t: StateTask)
    ensures
        t == spec_task_for(state),
{
    match state {
        State::Connecting => StateTask::Connecting,
        State::Initializating => StateTask::Initializating,
        State::Running => StateTask::Running,
        State::Warning => StateTask::WaitBeforeReboot,
        State::Cleaning => StateTask::Cleaning,
        State::Stopping => StateTask::Cleaning,
    }
}

/// Law: each of the connecting, initializating and running states runs the
/// handler of its own name and is the only state to run it; a warning, and
/// only a warning, waits before a reboot; cleaning runs the cleaning handler,
/// and so does stopping, and no other state does.
pub proof fn lemma_each_state_runs_its_handler(state: State)
    ensures
        spec_task_for(state) == StateTask::Connecting <==> state == State::Connecting,
        spec_task_for(state) == StateTask::Initializating <==> state == State::Initializating,
        spec_task_for(state) == StateTask::Running <==> state == State::Running,
        spec_task_for(state) == StateTask::WaitBeforeReboot <==> state == State::Warning,
        spec_task_for(state) == StateTask::Cleaning <==> (state == State::Cleaning || state == State::Stopping),
{
}

/// The state that the machine moves to after running `state` with the events
/// `bits` raised meanwhile; `None` keeps the state.
pub open spec fn spec_next_state(state: State, bits: u32) -> Option<State> {
    match state {
        State::Connecting => if has_flags(bits, CONNECTION_UP) && !has_flags(bits, ERROR) {
            Some(State::Initializating)
        } else {
            None
        },
        State::Initializating => if has_flags(bits, INIT_DONE) && !has_flags(bits, ERROR) {
            Some(State::Running)
        } else if has_flags(bits, ERROR) {
            Some(State::Warning)
        } else if has_flags(bits, STOP) {
            Some(State::Stopping)
        } else {
            None
        },
        State::Running => if has_flags(bits, ERROR) {
            Some(State::Warning)
        } else if has_flags(bits, CONNECTION_DOWN) {
            Some(State::Warning)
        } else if has_flags(bits, STOP) {
            Some(State::Stopping)
        } else {
            None
        },
        State::Warning => if has_flags(bits, REBOOT) {
            Some(State::Cleaning)
        } else {
            None
        },
        State::Cleaning => if has_flags(bits, CLEANED) {
            Some(State::Connecting)
        } else {
            None
        },
        State::Stopping => None,
    }
}

/// Law: each transition goes where the raised events lead, and only there:
/// connecting moves on to initializating once the connection is up without
/// error; initializating moves on to running once done without error; an
/// error during initializating or running, or a lost connection while
/// running, leads to warning; a stop request without error leads to
/// stopping; a warning cleans up on reboot; cleaning reconnects once cleaned.
pub proof fn lemma_transitions_follow_events(state: State, bits: u32)
    ensures
        spec_next_state(state, bits) == Some(State::Initializating) <==> (state == State::Connecting
            && has_flags(bits, CONNECTION_UP) && !has_flags(bits, ERROR)),
        spec_next_state(state, bits) == Some(State::Running) <==> (state == State::Initializating
            && has_flags(bits, INIT_DONE) && !has_flags(bits, ERROR)),
        spec_next_state(state, bits) == Some(State::Warning) <==> ((state == State::Initializating
            && has_flags(bits, ERROR)) || (state == State::Running && (has_flags(bits, ERROR) || has_flags(
            bits,
            CONNECTION_DOWN,
        )))),
        spec_next_state(state, bits) == Some(State::Stopping) ==> has_flags(bits, STOP) && !has_flags(bits, ERROR)
            && (state == State::Initializating || state == State::Running),
        spec_next_state(state, bits) == Some(State::Cleaning) <==> (state == State::Warning && has_flags(bits, REBOOT)),
        spec_next_state(state, bits) == Some(State::Connecting) <==> (state == State::Cleaning && has_flags(
            bits,
            CLEANED,
        )),
        spec_next_state(state, bits) is None ==> match state {
            State::Connecting => !has_flags(bits, CONNECTION_UP) || has_flags(bits, ERROR),
            State::Initializating => !has_flags(bits, INIT_DONE) && !has_flags(bits, ERROR) && !has_flags(bits, STOP),
            State::Running => !has_flags(bits, ERROR) && !has_flags(bits, CONNECTION_DOWN) && !has_flags(bits, STOP),
            State::Warning => !has_flags(bits, REBOOT),
            State::Cleaning => !has_flags(bits, CLEANED),
            State::Stopping => true,
        },
{
}

/// The transition taken after a run of the machine in `state` with `events`.
pub fn next_state(state: State, events: Events) -> (n: Option<State>)
    ensures
        n == spec_next_state(state, events.bits),
{
    let up = Events::from_bits(CONNECTION_UP);
    let down = Events::from_bits(CONNECTION_DOWN);
    let init_done = Events::from_bits(INIT_DONE);
    let reboot = Events::from_bits(REBOOT);
    let stop = Events::from_bits(STOP);
    let cleaned = Events::from_bits(CLEANED);
    let error = Events::from_bits(ERROR);
    match state {
        State::Connecting => {
            if events.contains(up) && !events.contains(error) {
                Some(State::Initializating)
            } else {
                None
            }
        },
        State::Initializating => {
            if events.contains(init_done) && !events.contains(error) {
                Some(State::Running)
            } else if events.contains(error) {
                Some(State::Warning)
            } else if events.contains(stop) {
                Some(State::Stopping)
            } else {
                None
            }
        },
        State::Running => {
            if events.contains(error) {
                Some(State::Warning)
            } else if events.contains(down) {
                Some(State::Warning)
            } else if events.contains(stop) {
                Some(State::Stopping)
            } else {
                None
            }
        },
        State::Warning => {
            if events.contains(reboot) {
                Some(State::Cleaning)
            } else {
                None
            }
        },
        State::Cleaning => {
            if events.contains(cleaned) {
                Some(State::Connecting)
            } else {
                None
            }
        },
        State::Stopping => None,
    }
}

/// Law: a run during which no event was raised leaves the state as it was.
pub proof fn lemma_no_event_no_move(state: State)
    ensures
        spec_next_state(state, NO_EVENT) is None,
{
    assert(0u32 & 1u32 != 1u32) by (bit_vector);
    assert(0u32 & 2u32 != 2u32) by (bit_vector);
    assert(0u32 & 4u32 != 4u32) by (bit_vector);
    assert(0u32 & 8u32 != 8u32) by (bit_vector);
    assert(0u32 & 16u32 != 16u32) by (bit_vector);
    assert(0u32 & 32u32 != 32u32) by (bit_vector);
    assert(!has_flags(NO_EVENT, CONNECTION_UP));
    assert(!has_flags(NO_EVENT, CONNECTION_DOWN));
    assert(!has_flags(NO_EVENT, INIT_DONE));
    assert(!has_flags(NO_EVENT, REBOOT));
    assert(!has_flags(NO_EVENT, STOP));
    assert(!has_flags(NO_EVENT, CLEANED));
    assert(0u32 & 128u32 != 128u32) by (bit_vector);
    assert(!has_flags(NO_EVENT, ERROR));
}

/// Law: a stopping interface never leaves the stopping state.
pub proof fn lemma_stopping_is_final(bits: u32)
    ensures
        spec_next_state(State::Stopping, bits) is None,
{
}

/// Law: an error raised while initializing or running leads to the warning
/// state.
pub proof fn lemma_error_leads_to_warning(state: State, bits: u32)
    requires
        state == State::Initializating || state == State::Running,
        has_flags(bits, ERROR),
    ensures
        spec_next_state(state, bits) == Some(State::Warning),
{
}

/// Law: from the warning state the machine only goes to cleaning, from
/// cleaning only to connecting: a reboot passes through the cleanup.
pub proof fn lemma_reboot_path(bits: u32)
    ensures
        spec_next_state(State::Warning, bits) is Some ==> spec_next_state(State::Warning, bits) == Some(State::Cleaning),
        spec_next_state(State::Cleaning, bits) is Some ==> spec_next_state(State::Cleaning, bits) == Some(State::Connecting),
{
}

} // verus!
