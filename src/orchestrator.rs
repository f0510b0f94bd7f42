//! The session state machine. It owns the session state and decides, for
//! each event, what outside work comes next: arming the recorder, draining
//! and encoding, the transcription call, the rewrite call, the insertion.
//! The caller performs each command and hands the outcome back as the next
//! event; while a call is in flight trigger events are ignored.

use vstd::prelude::*;
use crate::config::RewriteMode;
use crate::input::InputEvent;
use crate::service::ServiceError;

verus! {

/// The session state as the status reporter shows it.
#[derive(Debug, Clone, Copy, PartialEq, Eq, Structural)]
pub enum AppStatus {
    Idle,
    Recording,
    Transcribing,
}

/// Where a session stands.
enum Phase {
    Idle,
    Arming,
    Recording,
    Encoding,
    Transcribing,
    Rewriting(String),
    Injecting,
}

/// A session's phase; `Rewriting` keeps the transcript to fall back on.
pub ghost enum PhaseView {
    Idle,
    Arming,
    Recording,
    Encoding,
    Transcribing,
    Rewriting(Seq<char>),
    Injecting,
}

/// What the caller reports back.
pub enum Event {
    /// The input source's event.
    Trigger(InputEvent),
    /// Whether arming the recorder succeeded.
    ArmResult(bool),
    /// The encoded clip, or `None` when draining or encoding failed.
    Encoded(Option<Vec<u8>>),
    /// The transcription service's answer.
    Transcribed(Result<String, ServiceError>),
    /// The rewrite service's answer.
    Rewritten(Result<String, ServiceError>),
    /// The insertion was attempted (it is not retried either way).
    Injected,
}

pub ghost enum EventView {
    Trigger(InputEvent),
    ArmResult(bool),
    Encoded(Option<Seq<u8>>),
    Transcribed(Option<Seq<char>>),
    Rewritten(Option<Seq<char>>),
    Injected,
}

/// The outside work to do next.
#[derive(Debug, Clone, PartialEq, Eq)]
pub enum Command {
    Nothing,
    /// Clear the recording buffer and start capturing.
    Arm,
    /// Stop capturing, drain the buffer and encode it.
    DrainAndEncode,
    /// Send the clip to the transcription service.
    Transcribe(Vec<u8>),
    /// Send the transcript to the rewrite service.
    Rewrite(RewriteMode, String),
    /// Insert the text into the focused application.
    Inject(String),
}

pub ghost enum CommandView {
    Nothing,
    Arm,
    DrainAndEncode,
    Transcribe(Seq<u8>),
    Rewrite(RewriteMode, Seq<char>),
    Inject(Seq<char>),
}

impl View for Event {
    type V = EventView;

    open spec fn view(&self) -> EventView {
        match self {
            Event::Trigger(e) => EventView::Trigger(*e),
            Event::ArmResult(ok) => EventView::ArmResult(*ok),
            Event::Encoded(c) => EventView::Encoded(
                match c {
                    Some(b) => Some(b@),
                    None => None,
                },
            ),
            Event::Transcribed(r) => EventView::Transcribed(
                match r {
                    Ok(t) => Some(t@),
                    Err(_) => None,
                },
            ),
            Event::Rewritten(r) => EventView::Rewritten(
                match r {
                    Ok(t) => Some(t@),
                    Err(_) => None,
                },
            ),
            Event::Injected => EventView::Injected,
        }
    }
}

impl View for Command {
    type V = CommandView;

    open spec fn view(&self) -> CommandView {
        match self {
            Command::Nothing => CommandView::Nothing,
            Command::Arm => CommandView::Arm,
            Command::DrainAndEncode => CommandView::DrainAndEncode,
            Command::Transcribe(b) => CommandView::Transcribe(b@),
            Command::Rewrite(m, t) => CommandView::Rewrite(*m, t@),
            Command::Inject(t) => CommandView::Inject(t@),
        }
    }
}

/// The status shown for a phase.
pub open spec fn status_of(p: PhaseView) -> AppStatus {
    match p {
        PhaseView::Idle => AppStatus::Idle,
        PhaseView::Arming => AppStatus::Recording,
        PhaseView::Recording => AppStatus::Recording,
        _ => AppStatus::Transcribing,
    }
}

/// The next phase and the command that a phase and an event lead to. Any
/// pair not listed changes nothing and asks for nothing.
pub open spec fn transition(p: PhaseView, mode: RewriteMode, e: EventView) -> (
    PhaseView,
    CommandView,
) {
    match (p, e) {
        (PhaseView::Idle, EventView::Trigger(InputEvent::TriggerPressed)) => (
            PhaseView::Arming,
            CommandView::Arm,
        ),
        (PhaseView::Arming, EventView::ArmResult(ok)) => (
            if ok {
                PhaseView::Recording
            } else {
                PhaseView::Idle
            },
            CommandView::Nothing,
        ),
        (PhaseView::Recording, EventView::Trigger(InputEvent::TriggerReleased)) => (
            PhaseView::Encoding,
            CommandView::DrainAndEncode,
        ),
        (PhaseView::Encoding, EventView::Encoded(c)) => match c {
            Some(clip) => if clip.len() == 0 {
                (PhaseView::Idle, CommandView::Nothing)
            } else {
                (PhaseView::Transcribing, CommandView::Transcribe(clip))
            },
            None => (PhaseView::Idle, CommandView::Nothing),
        },
        (PhaseView::Transcribing, EventView::Transcribed(r)) => match r {
            Some(text) => if text.len() == 0 {
                (PhaseView::Idle, CommandView::Nothing)
            } else if mode == RewriteMode::Off {
                (PhaseView::Injecting, CommandView::Inject(text))
            } else {
                (PhaseView::Rewriting(text), CommandView::Rewrite(mode, text))
            },
            None => (PhaseView::Idle, CommandView::Nothing),
        },
        (PhaseView::Rewriting(original), EventView::Rewritten(r)) => match r {
            Some(text) => (PhaseView::Injecting, CommandView::Inject(text)),
            None => (PhaseView::Injecting, CommandView::Inject(original)),
        },
        (PhaseView::Injecting, EventView::Injected) => (PhaseView::Idle, CommandView::Nothing),
        _ => (p, CommandView::Nothing),
    }
}

/// The phases in which an outside call is in flight.
pub open spec fn awaiting(p: PhaseView) -> bool {
    match p {
        PhaseView::Idle | PhaseView::Recording => false,
        _ => true,
    }
}

/// `e` is the outcome of the call that phase `p` waits on.
pub open spec fn answers(p: PhaseView, e: EventView) -> bool {
    match (p, e) {
        (PhaseView::Arming, EventView::ArmResult(_)) => true,
        (PhaseView::Encoding, EventView::Encoded(_)) => true,
        (PhaseView::Transcribing, EventView::Transcribed(_)) => true,
        (PhaseView::Rewriting(_), EventView::Rewritten(_)) => true,
        (PhaseView::Injecting, EventView::Injected) => true,
        _ => false,
    }
}

/// The most outside calls still to resolve before a session is idle again.
pub open spec fn calls_left(p: PhaseView) -> nat {
    match p {
        PhaseView::Encoding => 4,
        PhaseView::Transcribing => 3,
        PhaseView::Rewriting(_) => 2,
        PhaseView::Injecting => 1,
        PhaseView::Arming => 1,
        _ => 0,
    }
}

/// While a transcription is under way, a trigger event of either kind
/// changes nothing and starts nothing: no second recording.
pub proof fn lemma_trigger_ignored_while_transcribing(
    p: PhaseView,
    mode: RewriteMode,
    ev: InputEvent,
)
    requires
        status_of(p) == AppStatus::Transcribing,
    ensures
        transition(p, mode, EventView::Trigger(ev)) == (p, CommandView::Nothing),
{
}

/// A session never hangs once its calls resolve: in every busy phase a call
/// is in flight, and its outcome, whatever it is, leads to `Idle`, to
/// `Recording` (after arming), or to another busy phase with fewer calls
/// left. So a transcription is back at `Idle` after at most four resolved
/// calls, whichever of them fail. A command is issued exactly when the next
/// phase waits on it.
pub proof fn lemma_resolved_call_progresses(p: PhaseView, mode: RewriteMode, e: EventView)
    requires
        awaiting(p),
        answers(p, e),
    ensures
        ({
            let (q, c) = transition(p, mode, e);
            &&& q == PhaseView::Idle || (p == PhaseView::Arming && q == PhaseView::Recording) || (
            awaiting(q) && calls_left(q) < calls_left(p))
            &&& awaiting(q) <==> c != CommandView::Nothing
        }),
        status_of(p) == AppStatus::Transcribing ==> calls_left(p) <= 4,
{
}

/// The phase after `events`, one after the other, starting from `p`.
pub open spec fn run(p: PhaseView, mode: RewriteMode, events: Seq<EventView>) -> PhaseView
    decreases events.len(),
{
    if events.len() == 0 {
        p
    } else {
        transition(run(p, mode, events.drop_last()), mode, events.last()).0
    }
}

/// Each of `events` is the outcome of the call that the phase it meets
/// waits on.
pub open spec fn all_answer(p: PhaseView, mode: RewriteMode, events: Seq<EventView>) -> bool {
    forall|i: int|
        0 <= i < events.len() ==> answers(#[trigger] run(p, mode, events.take(i)), events[i])
}

/// From any point of a transcription, however its calls turn out: the
/// session is either back at `Idle` or still has a call in flight, each
/// resolved call uses up one of at most four, and so no more than four
/// resolve before it is `Idle`.
pub proof fn lemma_transcription_ends_idle(p: PhaseView, mode: RewriteMode, events: Seq<EventView>)
    requires
        status_of(p) == AppStatus::Transcribing,
        all_answer(p, mode, events),
    ensures
        ({
            let q = run(p, mode, events);
            &&& q == PhaseView::Idle || (status_of(q) == AppStatus::Transcribing && awaiting(q))
            &&& status_of(q) == AppStatus::Transcribing ==> events.len() + calls_left(q)
                <= calls_left(p)
            &&& events.len() <= calls_left(p) <= 4
        }),
    decreases events.len(),
{
    if events.len() > 0 {
        let prefix = events.drop_last();
        assert forall|i: int| 0 <= i < prefix.len() implies answers(
            #[trigger] run(p, mode, prefix.take(i)),
            prefix[i],
        ) by {
            assert(prefix.take(i) =~= events.take(i));
            assert(answers(run(p, mode, events.take(i)), events[i]));
        }
        lemma_transcription_ends_idle(p, mode, prefix);
        let last = events.len() - 1;
        assert(events.take(last) =~= prefix);
        assert(answers(run(p, mode, events.take(last)), events[last]));
        let q0 = run(p, mode, prefix);
        lemma_resolved_call_progresses(q0, mode, events.last());
    }
}

/// The session controller: its phase, and the rewrite it applies.
pub struct Orchestrator {
    phase: Phase,
    rewrite: RewriteMode,
}

impl Orchestrator {
    pub closed spec fn phase(&self) -> PhaseView {
        match self.phase {
            Phase::Idle => PhaseView::Idle,
            Phase::Arming => PhaseView::Arming,
            Phase::Recording => PhaseView::Recording,
            Phase::Encoding => PhaseView::Encoding,
            Phase::Transcribing => PhaseView::Transcribing,
            Phase::Rewriting(t) => PhaseView::Rewriting(t@),
            Phase::Injecting => PhaseView::Injecting,
        }
    }

    pub closed spec fn mode(&self) -> RewriteMode {
        self.rewrite
    }

    /// An idle controller that applies `rewrite` to each transcript.
    pub fn new(rewrite: RewriteMode) -> (r: Orchestrator)
        ensures
            r.phase() == PhaseView::Idle,
            r.mode() == rewrite,
    {
        Orchestrator { phase: Phase::Idle, rewrite }
    }

    /// The status to show.
    pub fn status(&self) -> (r: AppStatus)
        ensures
            r == status_of(self.phase()),
    {
        match self.phase {
            Phase::Idle => AppStatus::Idle,
            Phase::Arming => AppStatus::Recording,
            Phase::Recording => AppStatus::Recording,
            _ => AppStatus::Transcribing,
        }
    }

    /// The rewrite applied to each transcript.
    pub fn rewrite_mode(&self) -> (r: RewriteMode)
        ensures
            r == self.mode(),
    {
        self.rewrite
    }

    /// Takes one event and returns the work to do next.
    pub fn step(&mut self, event: Event) -> (cmd: Command)
        ensures
            final(self).mode() == old(self).mode(),
            (final(self).phase(), cmd@) == transition(old(self).phase(), old(self).mode(), event@),
    {
        let mut phase = Phase::Idle;
        std::mem::swap(&mut phase, &mut self.phase);
        let (next, cmd) = match (phase, event) {
            (Phase::Idle, Event::Trigger(InputEvent::TriggerPressed)) => (
                Phase::Arming,
                Command::Arm,
            ),
            (Phase::Arming, Event::ArmResult(ok)) => (
                if ok {
                    Phase::Recording
                } else {
                    Phase::Idle
                },
                Command::Nothing,
            ),
            (Phase::Recording, Event::Trigger(InputEvent::TriggerReleased)) => (
                Phase::Encoding,
                Command::DrainAndEncode,
            ),
            (Phase::Encoding, Event::Encoded(c)) => match c {
                Some(clip) => if clip.len() == 0 {
                    (Phase::Idle, Command::Nothing)
                } else {
                    (Phase::Transcribing, Command::Transcribe(clip))
                },
                None => (Phase::Idle, Command::Nothing),
            },
            (Phase::Transcribing, Event::Transcribed(r)) => match r {
                Ok(text) => if text.as_str().is_empty() {
                    (Phase::Idle, Command::Nothing)
                } else if self.rewrite == RewriteMode::Off {
                    (Phase::Injecting, Command::Inject(text))
                } else {
                    let kept = text.clone();
                    (Phase::Rewriting(kept), Command::Rewrite(self.rewrite, text))
                },
                Err(_) => (Phase::Idle, Command::Nothing),
            },
            (Phase::Rewriting(original), Event::Rewritten(r)) => match r {
                Ok(text) => (Phase::Injecting, Command::Inject(text)),
                Err(_) => (Phase::Injecting, Command::Inject(original)),
            },
            (Phase::Injecting, Event::Injected) => (Phase::Idle, Command::Nothing),
            (p, _) => (p, Command::Nothing),
        };
        self.phase = next;
        cmd
    }
}

} // verus!
