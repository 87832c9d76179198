//! Whole runs: what holds of every sequence of events that a transport may
//! report.

use vstd::prelude::*;
use crate::config::Config;
use crate::engine::{
    AbortReason,
    Action,
    Command,
    Engine,
    ErrorKind,
    EventView,
    Pending,
    Phase,
    ReactionView,
    RunOutcome,
    Stage,
    SHORT_TIMEOUT_MS,
};
use crate::identify::IdentifyReply;
use crate::notice::NoticeView;
use crate::telemetry::TelemetryReply;

verus! {

/// The state that a run reaches from `start` when the transport reports
/// `events` one after the other.
pub open spec fn state_after(start: Engine, events: Seq<EventView>) -> Engine
    decreases events.len(),
{
    if events.len() == 0 {
        start
    } else {
        state_after(start, events.drop_last()).transition(events.last()).0
    }
}

/// The actions that a run from `start` asks for, one for each of `events`.
pub open spec fn actions_after(start: Engine, events: Seq<EventView>) -> Seq<Action>
    decreases events.len(),
{
    if events.len() == 0 {
        Seq::empty()
    } else {
        actions_after(start, events.drop_last()).push(
            state_after(start, events.drop_last()).transition(events.last()).1.action,
        )
    }
}

/// How many of `actions` reset the channel.
pub open spec fn reset_count(actions: Seq<Action>) -> nat
    decreases actions.len(),
{
    if actions.len() == 0 {
        0
    } else {
        reset_count(actions.drop_last()) + if actions.last() is Reset {
            1nat
        } else {
            0nat
        }
    }
}

/// Whether the run is in its channel probe, with the command or the reply
/// under way.
pub open spec fn probing(engine: Engine) -> bool {
    engine.phase matches Phase::Running { stage, pending } && stage is Probe && (pending is Write
        || pending is Read)
}

/// Whether the event is a timeout.
pub open spec fn timed_out(event: EventView) -> bool {
    event matches EventView::Failed { kind, .. } && kind is Timeout
}

/// A place for every phase, which no step of a run lowers.
pub open spec fn progress(phase: Phase) -> nat {
    match phase {
        Phase::Running { stage, pending } => 2 * stage.rank() + if stage is Probe && pending
            is Reset {
            1nat
        } else {
            0nat
        },
        Phase::Finished { .. } => 12,
    }
}

/// The channel is reset on a timeout in the channel probe, and on nothing
/// else.
pub proof fn lemma_reset_on_probe_timeout(engine: Engine, event: EventView)
    ensures
        engine.transition(event).1.action is Reset <==> probing(engine) && timed_out(event),
        engine.transition(event).1.action is Reset ==> engine.transition(event).0.phase == (
        Phase::Running { stage: Stage::Probe, pending: Pending::Reset }),
{
}

/// After the reset, the run goes on to poll for a unit.
pub proof fn lemma_reset_leads_to_wait(engine: Engine)
    requires
        engine.phase == (Phase::Running { stage: Stage::Probe, pending: Pending::Reset }),
    ensures
        engine.transition(EventView::ResetDone).0.phase == (Phase::Running {
            stage: Stage::WaitForUnit,
            pending: Pending::Write,
        }),
        engine.transition(EventView::ResetDone).1.action == (Action::Write {
            command: Command::Poll,
            timeout_ms: SHORT_TIMEOUT_MS,
        }),
{
}

/// A run never goes back: no step lowers the place of its phase, the
/// options stay as they are, and a run that has ended stays ended.
pub proof fn lemma_no_way_back(engine: Engine, event: EventView)
    ensures
        progress(engine.transition(event).0.phase) >= progress(engine.phase),
        engine.transition(event).0.config == engine.config,
        engine.phase is Finished ==> engine.transition(event).0 == engine,
{
}

/// A timeout anywhere after the channel probe ends the run, and the channel
/// is not reset again.
pub proof fn lemma_later_timeout_aborts(engine: Engine, description: Seq<char>)
    requires
        engine.phase is Running,
        !probing(engine),
    ensures
        ({
            let timeout = EventView::Failed { kind: ErrorKind::Timeout, description };
            let after = engine.transition(timeout);
            &&& after.0.phase matches Phase::Finished { outcome }
            &&& outcome is Aborted
            &&& after.1.action == Action::Finish { outcome }
            &&& !(engine.phase->pending is Sleep) ==> outcome == RunOutcome::Aborted {
                reason: AbortReason::TransportTimeout,
            }
        }),
{
}

/// Whether the run has ended before its end.
pub open spec fn aborted(phase: Phase) -> bool {
    phase matches Phase::Finished { outcome } && outcome is Aborted
}

/// Whether the run awaits the reply to the command of `stage`.
pub open spec fn awaits_reply(engine: Engine, stage: Stage) -> bool {
    engine.phase == Phase::Running { stage, pending: Pending::Read }
}

/// Every transport error but a timeout in the channel probe ends the run at
/// once, and so does every reply that has not the length that its command
/// calls for.
pub proof fn lemma_errors_are_fatal(engine: Engine, event: EventView)
    requires
        engine.phase is Running,
    ensures
        event is Failed && !(probing(engine) && timed_out(event)) ==> aborted(
            engine.transition(event).0.phase,
        ),
        engine.phase->pending is Read && event is Received && event->bytes.len()
            != engine.phase->stage.command().reply_len() ==> engine.transition(event).0.phase == (
        Phase::Finished { outcome: RunOutcome::Aborted { reason: AbortReason::LengthMismatch } }),
{
}

/// A run is completed by the reply to a poll of its last stage, and by
/// nothing else; and only the reply that brings the data brings output.
pub proof fn lemma_completion(engine: Engine, event: EventView)
    requires
        engine.phase is Running,
    ensures
        engine.transition(event).0.phase == (Phase::Finished { outcome: RunOutcome::Completed })
            ==> awaits_reply(engine, Stage::Removal) && event is Received && event->bytes.len()
            == 1 && (!engine.config.wait_remove || event->bytes[0] == 0),
        engine.transition(event).1.output.len() > 0 ==> awaits_reply(engine, Stage::Fetch)
            && event is Received && event->bytes.len() == 27,
{
}

/// Once the channel probe is over, no sequence of events brings a reset.
pub proof fn lemma_no_reset_after_probe(start: Engine, events: Seq<EventView>)
    requires
        !probing(start),
    ensures
        !probing(state_after(start, events)),
        reset_count(actions_after(start, events)) == 0,
    decreases events.len(),
{
    if events.len() > 0 {
        let before = events.drop_last();
        lemma_no_reset_after_probe(start, before);
        let engine = state_after(start, before);
        lemma_reset_on_probe_timeout(engine, events.last());
        lemma_no_way_back(engine, events.last());
        assert(actions_after(start, events).drop_last() =~= actions_after(start, before));
    }
}

/// Whatever the transport reports, from the beginning of a run or from any
/// state, the channel is reset at most once.
pub proof fn lemma_at_most_one_reset(start: Engine, events: Seq<EventView>)
    ensures
        reset_count(actions_after(start, events)) <= 1,
        reset_count(actions_after(start, events)) == 1 ==> !probing(state_after(start, events)),
    decreases events.len(),
{
    if events.len() > 0 {
        let before = events.drop_last();
        lemma_at_most_one_reset(start, before);
        let engine = state_after(start, before);
        lemma_reset_on_probe_timeout(engine, events.last());
        lemma_no_way_back(engine, events.last());
        assert(actions_after(start, events).drop_last() =~= actions_after(start, before));
    }
}

/// A run whose channel probe times out, while the command is sent or while
/// the reply is read, resets the channel once and then polls for a unit.
pub proof fn lemma_probe_timeout_recovers(config: Config, description: Seq<char>)
    ensures
        ({
            let timeout = EventView::Failed { kind: ErrorKind::Timeout, description };
            let poll = Action::Write { command: Command::Poll, timeout_ms: SHORT_TIMEOUT_MS };
            let waiting = Phase::Running { stage: Stage::WaitForUnit, pending: Pending::Write };
            let start = Engine::initial(config);
            &&& actions_after(start, seq![timeout, EventView::ResetDone]) == seq![
                Action::Reset,
                poll,
            ]
            &&& state_after(start, seq![timeout, EventView::ResetDone]).phase == waiting
            &&& actions_after(start, seq![EventView::Written, timeout, EventView::ResetDone])[1]
                == Action::Reset
            &&& actions_after(start, seq![EventView::Written, timeout, EventView::ResetDone])[2]
                == poll
            &&& state_after(
                start,
                seq![EventView::Written, timeout, EventView::ResetDone],
            ).phase == waiting
        }),
{
    let timeout = EventView::Failed { kind: ErrorKind::Timeout, description };
    let start = Engine::initial(config);
    let two = seq![timeout, EventView::ResetDone];
    let three = seq![EventView::Written, timeout, EventView::ResetDone];
    reveal_with_fuel(state_after, 4);
    reveal_with_fuel(actions_after, 4);
    assert(two.drop_last() =~= seq![timeout]);
    assert(two.drop_last().drop_last() =~= Seq::<EventView>::empty());
    assert(three.drop_last() =~= seq![EventView::Written, timeout]);
    assert(three.drop_last().drop_last() =~= seq![EventView::Written]);
    assert(three.drop_last().drop_last().drop_last() =~= Seq::<EventView>::empty());
    assert(actions_after(start, two) =~= seq![
        Action::Reset,
        Action::Write { command: Command::Poll, timeout_ms: SHORT_TIMEOUT_MS },
    ]);
}

/// Whether, in this state, the event is the reply to a poll for a unit that
/// finds the cradle empty.
pub open spec fn finds_empty(engine: Engine, event: EventView) -> bool {
    &&& engine.phase == Phase::Running { stage: Stage::WaitForUnit, pending: Pending::Read }
    &&& event matches EventView::Received { bytes }
    &&& bytes.len() == 1
    &&& bytes[0] != 1
}

/// Whether a reaction tells the operator that the cradle is empty.
pub open spec fn announces(reaction: ReactionView) -> bool {
    reaction.notices.contains(NoticeView::CradleEmpty)
}

/// How many of the reactions of a run from `start` to `events` tell the
/// operator that the cradle is empty.
pub open spec fn announcements_after(start: Engine, events: Seq<EventView>) -> nat
    decreases events.len(),
{
    if events.len() == 0 {
        0
    } else {
        announcements_after(start, events.drop_last()) + if announces(
            state_after(start, events.drop_last()).transition(events.last()).1,
        ) {
            1nat
        } else {
            0nat
        }
    }
}

/// The operator is told that the cradle is empty by the first poll that
/// finds it empty, in a notice of its own, and the run remembers that it has
/// told so.
pub proof fn lemma_announcement(engine: Engine, event: EventView)
    ensures
        ({
            let after = engine.transition(event);
            &&& announces(after.1) <==> finds_empty(engine, event) && !engine.announced
            &&& announces(after.1) ==> after.1.notices == seq![NoticeView::CradleEmpty]
            &&& finds_empty(engine, event) ==> after.0.announced
            &&& engine.announced ==> after.0.announced
        }),
{
    let after = engine.transition(event);
    match engine.phase {
        Phase::Running { stage, pending: Pending::Read } => {
            match event {
                EventView::Received { bytes } => {
                    if bytes.len() == stage.command().reply_len() {
                        match stage {
                            Stage::Identify => {
                                let reply = IdentifyReply::of(bytes);
                                assert(!reply.remarks().contains(NoticeView::CradleEmpty));
                                assert(!announces(after.1));
                            },
                            Stage::Fetch => {
                                let reply = TelemetryReply::of(bytes);
                                assert(!reply.remarks().contains(NoticeView::CradleEmpty));
                                assert(!announces(after.1));
                            },
                            Stage::WaitForUnit => {
                                if bytes[0] != 1 && !engine.announced {
                                    assert(after.1.notices[0] == NoticeView::CradleEmpty);
                                }
                            },
                            _ => {},
                        }
                    }
                },
                _ => {},
            }
        },
        _ => {},
    }
}

/// Whatever the transport reports, the operator is told at most once that
/// the cradle is empty.
pub proof fn lemma_announced_once(start: Engine, events: Seq<EventView>)
    ensures
        announcements_after(start, events) <= 1,
        start.announced ==> announcements_after(start, events) == 0,
        start.announced || announcements_after(start, events) == 1 ==> state_after(
            start,
            events,
        ).announced,
    decreases events.len(),
{
    if events.len() > 0 {
        let before = events.drop_last();
        lemma_announced_once(start, before);
        lemma_announcement(state_after(start, before), events.last());
    }
}

} // verus!
