use vstd::prelude::*;

verus! {

/// One basis state of a final quantum state: its display identifier and the
/// IEEE-754 bit patterns of the real and imaginary parts of its amplitude,
/// kept exactly as the simulator computed them.
#[derive(Debug)]
pub struct QubitState {
    pub id: String,
    pub amplitude_real: u64,
    pub amplitude_imaginary: u64,
}

impl View for QubitState {
    type V = (Seq<char>, u64, u64);

    open spec fn view(&self) -> (Seq<char>, u64, u64) {
        (self.id@, self.amplitude_real, self.amplitude_imaginary)
    }
}

/// What a run has captured so far.
pub struct Capture {
    pub states: Seq<(Seq<char>, u64, u64)>,
    pub qubit_count: nat,
    pub messages: Seq<Seq<char>>,
}

/// What the interpreter reports to its observer during a run.
pub enum CaptureEvent {
    /// The final state, over the given number of qubits.
    State { states: Seq<(Seq<char>, u64, u64)>, qubit_count: nat },
    /// A message emitted by the program.
    Message { text: Seq<char> },
}

/// Nothing captured yet.
pub open spec fn empty_capture() -> Capture {
    Capture { states: seq![], qubit_count: 0, messages: seq![] }
}

/// A state report replaces the recorded state and qubit count; a message is
/// added after those already recorded. Nothing else changes.
pub open spec fn apply_event(c: Capture, e: CaptureEvent) -> Capture {
    match e {
        CaptureEvent::State { states, qubit_count } => Capture {
            states,
            qubit_count,
            messages: c.messages,
        },
        CaptureEvent::Message { text } => Capture {
            states: c.states,
            qubit_count: c.qubit_count,
            messages: c.messages.push(text),
        },
    }
}

/// What is captured from `start` on when `events` are reported in order.
pub open spec fn replay(start: Capture, events: Seq<CaptureEvent>) -> Capture
    decreases events.len(),
{
    if events.len() == 0 {
        start
    } else {
        apply_event(replay(start, events.drop_last()), events.last())
    }
}

/// `trace` holds the capture before each event of `events` and after the
/// last, each one obtained from the one before by reporting that event.
pub open spec fn observed(trace: Seq<Capture>, events: Seq<CaptureEvent>) -> bool {
    &&& trace.len() == events.len() + 1
    &&& forall|i: int|
        0 <= i < events.len() ==> #[trigger] trace[i + 1] == apply_event(trace[i], events[i])
}

/// The events of a run that only emits the given messages.
pub open spec fn message_events(texts: Seq<Seq<char>>) -> Seq<CaptureEvent> {
    texts.map_values(|t: Seq<char>| CaptureEvent::Message { text: t })
}

/// The captured result of a run, filled in by the interpreter's callbacks.
#[derive(Debug)]
pub struct ExecutionState {
    pub states: Vec<QubitState>,
    pub qubit_count: usize,
    pub messages: Vec<String>,
}

impl View for ExecutionState {
    type V = Capture;

    open spec fn view(&self) -> Capture {
        Capture {
            states: self.states@.map_values(|q: QubitState| q@),
            qubit_count: self.qubit_count as nat,
            messages: self.messages@.map_values(|m: String| m@),
        }
    }
}

impl ExecutionState {
    /// A capture with no state, no qubits and no messages.
    pub fn new() -> (r: ExecutionState)
        ensures
            r@ == empty_capture(),
    {
        let r = ExecutionState { states: Vec::new(), qubit_count: 0, messages: Vec::new() };
        assert(r@.states =~= seq![]);
        assert(r@.messages =~= seq![]);
        r
    }

    /// Records the final state reported by the interpreter, replacing any
    /// state recorded before. Identifiers and amplitude bits are stored as
    /// given.
    pub fn record_state(&mut self, states: Vec<QubitState>, qubit_count: usize)
        ensures
            final(self)@ == apply_event(
                old(self)@,
                CaptureEvent::State {
                    states: states@.map_values(|q: QubitState| q@),
                    qubit_count: qubit_count as nat,
                },
            ),
    {
        self.states = states;
        self.qubit_count = qubit_count;
    }

    /// Records a message emitted by the program, after those recorded
    /// before.
    pub fn record_message(&mut self, msg: &str)
        ensures
            final(self)@ == apply_event(old(self)@, CaptureEvent::Message { text: msg@ }),
    {
        self.messages.push(msg.to_owned());
        assert(self@.messages =~= old(self)@.messages.push(msg@));
    }
}

impl Default for ExecutionState {
    fn default() -> (r: ExecutionState)
        ensures
            r@ == empty_capture(),
    {
        ExecutionState::new()
    }
}

} // verus!

verus! {

/// A trace of observed events ends in what replaying those events from its
/// first capture gives.
pub proof fn lemma_observed_replays(trace: Seq<Capture>, events: Seq<CaptureEvent>)
    requires
        observed(trace, events),
    ensures
        trace.last() == replay(trace[0], events),
    decreases events.len(),
{
    if events.len() > 0 {
        let n = events.len() - 1;
        let prefix = trace.drop_last();
        assert(trace[n + 1] == apply_event(trace[n], events[n]));
        assert forall|i: int| 0 <= i < events.drop_last().len() implies #[trigger] prefix[i + 1]
            == apply_event(prefix[i], events.drop_last()[i]) by {
            assert(trace[i + 1] == apply_event(trace[i], events[i]));
        }
        lemma_observed_replays(prefix, events.drop_last());
    }
}

/// Replaying messages adds them after those already captured, all of them
/// and in the order emitted, and leaves the state and qubit count alone.
pub proof fn lemma_replay_messages(start: Capture, texts: Seq<Seq<char>>)
    ensures
        replay(start, message_events(texts)).messages == start.messages + texts,
        replay(start, message_events(texts)).states == start.states,
        replay(start, message_events(texts)).qubit_count == start.qubit_count,
    decreases texts.len(),
{
    let events = message_events(texts);
    if texts.len() == 0 {
        assert(start.messages + texts =~= start.messages);
    } else {
        let init = texts.drop_last();
        assert(events.drop_last() =~= message_events(init));
        lemma_replay_messages(start, init);
        assert(start.messages + texts =~= (start.messages + init).push(texts.last()));
    }
}

/// Messages emitted one after another are captured as emitted: every one of
/// them, in emission order, none merged or dropped, after those captured
/// before; the captured state and qubit count stay as they were.
pub proof fn lemma_messages_in_order(trace: Seq<Capture>, texts: Seq<Seq<char>>)
    requires
        observed(trace, message_events(texts)),
    ensures
        trace.last().messages == trace[0].messages + texts,
        trace.last().states == trace[0].states,
        trace.last().qubit_count == trace[0].qubit_count,
{
    lemma_observed_replays(trace, message_events(texts));
    lemma_replay_messages(trace[0], texts);
}

/// Two runs that start from the same capture and observe the same events end
/// with the same capture: the same messages, the same qubit count and the
/// same basis-state records, identifiers and amplitudes alike.
pub proof fn lemma_same_events_same_capture(
    first: Seq<Capture>,
    second: Seq<Capture>,
    events: Seq<CaptureEvent>,
)
    requires
        observed(first, events),
        observed(second, events),
        first[0] == second[0],
    ensures
        first.last() == second.last(),
{
    lemma_observed_replays(first, events);
    lemma_observed_replays(second, events);
}

/// A run that emits a single message and reports no state captures that
/// message alone, no qubits and no basis states.
pub proof fn lemma_single_message_capture(text: Seq<char>)
    ensures
        replay(empty_capture(), message_events(seq![text])) == (Capture {
            states: seq![],
            qubit_count: 0,
            messages: seq![text],
        }),
{
    lemma_replay_messages(empty_capture(), seq![text]);
    assert(seq![] + seq![text] =~= seq![text]);
}

} // verus!
