use vstd::prelude::*;

use crate::emitter::{emits, Emitter};
use crate::output::{emission, lines_view, map_status_output, mapped_output, OutputConfig};
use crate::unit::{is_valid_unit, valid_unit};

verus! {

/// Where a run stands.
#[derive(PartialEq, Eq, Structural)]
pub enum Phase {
    /// Validated; the initial state is still to be read.
    Starting,
    /// Subscribed to the unit's change notifications.
    Streaming,
    /// Nothing more is read or written.
    Finished,
}

/// What a change notification of the unit's properties carried.
pub enum Notification {
    /// The active state is not among the changed properties.
    Unrelated,
    /// The active state changed, but its value is not a string.
    Undecodable,
    /// The active state changed to this value.
    State(String),
}

/// A unit name without a recognized type suffix.
pub struct InvalidUnit {
    pub unit: String,
}

/// The abstract state of a run.
pub struct MonitorView {
    pub unit: Seq<char>,
    pub cfg: OutputConfig,
    pub oneshot: bool,
    pub streaming: bool,
    pub phase: Phase,
    pub last: Option<Seq<char>>,
}

/// The lines written when the initial state `state` has been read.
pub open spec fn initial_lines(v: MonitorView, state: Seq<char>) -> Seq<Seq<char>> {
    emission(mapped_output(state, v.cfg), v.streaming)
}

/// The run after the initial state `state` has been read: a oneshot run
/// finishes, any other subscribes.
pub open spec fn after_initial(v: MonitorView, state: Seq<char>) -> MonitorView {
    MonitorView {
        phase: if v.oneshot {
            Phase::Finished
        } else {
            Phase::Streaming
        },
        last: Some(mapped_output(state, v.cfg)),
        ..v
    }
}

/// The lines written for notification `n`: only a decoded state whose output
/// differs from the last one is written.
pub open spec fn notified_lines(v: MonitorView, n: Notification) -> Seq<Seq<char>> {
    match n {
        Notification::State(s) => if emits(v.last, mapped_output(s@, v.cfg)) {
            emission(mapped_output(s@, v.cfg), v.streaming)
        } else {
            Seq::empty()
        },
        _ => Seq::empty(),
    }
}

/// The run after notification `n`: a decoded state becomes the last output,
/// anything else leaves the run as it was.
pub open spec fn after_notified(v: MonitorView, n: Notification) -> MonitorView {
    match n {
        Notification::State(s) => MonitorView { last: Some(mapped_output(s@, v.cfg)), ..v },
        _ => v,
    }
}

/// Decides, for one run over one unit, what is written at each step.
pub struct Monitor {
    unit: String,
    cfg: OutputConfig,
    oneshot: bool,
    phase: Phase,
    emitter: Emitter,
}

impl View for Monitor {
    type V = MonitorView;

    closed spec fn view(&self) -> MonitorView {
        MonitorView {
            unit: self.unit@,
            cfg: self.cfg,
            oneshot: self.oneshot,
            streaming: self.emitter.streaming_view(),
            phase: self.phase,
            last: self.emitter.last_view(),
        }
    }
}

impl Monitor {
    /// Starts a run over `unit`, rejecting a name without a recognized type
    /// suffix before anything else is done.
    pub fn new(unit: &str, cfg: OutputConfig, streaming: bool, oneshot: bool) -> (r: Result<
        Monitor,
        InvalidUnit,
    >)
        ensures
            r is Ok <==> valid_unit(unit@),
            r matches Ok(m) ==> m@ == (MonitorView {
                unit: unit@,
                cfg,
                oneshot,
                streaming,
                phase: Phase::Starting,
                last: None,
            }),
            r matches Err(e) ==> e.unit@ == unit@,
    {
        if !is_valid_unit(unit) {
            return Err(InvalidUnit { unit: unit.to_owned() });
        }
        Ok(Monitor { unit: unit.to_owned(), cfg, oneshot, phase: Phase::Starting, emitter: Emitter::new(streaming) })
    }

    /// The validated unit name.
    pub fn unit(&self) -> (r: &str)
        ensures
            r@ == self@.unit,
    {
        self.unit.as_str()
    }

    /// Whether the run is subscribed to change notifications.
    pub fn is_streaming(&self) -> (r: bool)
        ensures
            r == (self@.phase == Phase::Streaming),
    {
        match self.phase {
            Phase::Streaming => true,
            _ => false,
        }
    }

    /// Whether the run has finished.
    pub fn is_finished(&self) -> (r: bool)
        ensures
            r == (self@.phase == Phase::Finished),
    {
        match self.phase {
            Phase::Finished => true,
            _ => false,
        }
    }

    /// Takes the unit's initial state and returns the lines to write.
    pub fn initial_state(&mut self, state: &str) -> (r: Vec<String>)
        requires
            old(self)@.phase == Phase::Starting,
            old(self)@.last == None::<Seq<char>>,
        ensures
            lines_view(r@) == initial_lines(old(self)@, state@),
            final(self)@ == after_initial(old(self)@, state@),
    {
        let out = map_status_output(state, &self.cfg);
        let r = self.emitter.offer(out);
        self.phase = if self.oneshot {
            Phase::Finished
        } else {
            Phase::Streaming
        };
        r
    }

    /// Takes one change notification and returns the lines to write.
    pub fn notify(&mut self, n: Notification) -> (r: Vec<String>)
        requires
            old(self)@.phase == Phase::Streaming,
        ensures
            lines_view(r@) == notified_lines(old(self)@, n),
            final(self)@ == after_notified(old(self)@, n),
    {
        match n {
            Notification::State(s) => {
                let out = map_status_output(s.as_str(), &self.cfg);
                self.emitter.offer(out)
            },
            _ => {
                let r: Vec<String> = Vec::new();
                assert(lines_view(r@) =~= Seq::empty());
                r
            },
        }
    }

    /// Ends the run once the notifications have ended.
    pub fn close(&mut self)
        ensures
            final(self)@ == (MonitorView { phase: Phase::Finished, ..old(self)@ }),
    {
        self.phase = Phase::Finished;
    }
}

/// A oneshot run writes a single emission of its initial state and then
/// finishes without subscribing; without streaming that emission is one line.
pub proof fn lemma_oneshot_emits_once(v: MonitorView, state: Seq<char>)
    requires
        v.oneshot,
        v.phase == Phase::Starting,
    ensures
        after_initial(v, state).phase == Phase::Finished,
        initial_lines(v, state) == emission(mapped_output(state, v.cfg), v.streaming),
        !v.streaming ==> initial_lines(v, state) == seq![mapped_output(state, v.cfg)],
{
}

/// In streaming mode every emission is followed by a blank line: the one of
/// the initial state, in a oneshot run too, and each one a notification causes.
pub proof fn lemma_streaming_separator(v: MonitorView, state: Seq<char>, n: Notification)
    requires
        v.streaming,
    ensures
        initial_lines(v, state) == seq![mapped_output(state, v.cfg), Seq::<char>::empty()],
        notified_lines(v, n).len() == 0 || (notified_lines(v, n).len() == 2
            && notified_lines(v, n)[1] == Seq::<char>::empty()),
{
}

/// A notification whose state cannot be decoded is dropped alone: the run
/// stays subscribed and unchanged, so a later decoded state is written just
/// as if the dropped one had never come.
pub proof fn lemma_decode_failure_skipped(v: MonitorView, s: String)
    requires
        v.phase == Phase::Streaming,
    ensures
        notified_lines(v, Notification::Undecodable) == Seq::<Seq<char>>::empty(),
        after_notified(v, Notification::Undecodable) == v,
        after_notified(v, Notification::Undecodable).phase == Phase::Streaming,
        emits(v.last, mapped_output(s@, v.cfg)) ==> notified_lines(
            after_notified(v, Notification::Undecodable),
            Notification::State(s),
        ) == emission(mapped_output(s@, v.cfg), v.streaming),
{
}

} // verus!
