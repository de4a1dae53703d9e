use crate::command::{Polled, Request};
use crate::coordinator::{
    CoordinatorView, Phase, fatal_text, send_failure_text, switch_failure_text,
};
use crate::display::TableDisplayInfoView;
use crate::input_source::InputSource;
use crate::position_map::{listed, numbers};
use crate::selection::SelectionView;
use vstd::prelude::*;

verus! {

/// What can happen to the coordinator.
pub enum Event {
    /// One look into the slot of a detection found this.
    Detection(Polled<Seq<TableDisplayInfoView>>),
    /// One look into the slot of a switch found this.
    SwitchOutcome(Polled<Result<(), Seq<char>>>),
    /// The user asked for the switch.
    Activate,
    /// The user asked for the monitor with this number.
    ChooseMonitor(u8),
    /// The user asked for this input source.
    ChooseInput(InputSource),
    /// The user dismissed the message shown.
    Acknowledge,
    /// This request could not be handed to the worker.
    SendFailed(Request),
}

/// State and request after one event.
pub open spec fn step(s: CoordinatorView, event: Event) -> (CoordinatorView, Option<Request>) {
    match event {
        Event::Detection(outcome) => s.after_detection(outcome),
        Event::SwitchOutcome(outcome) => s.after_switch(outcome),
        Event::Activate => s.after_activation(),
        Event::ChooseMonitor(monitor) => (s.after_monitor_choice(monitor), None),
        Event::ChooseInput(input) => (s.after_input_choice(input), None),
        Event::Acknowledge => (s.after_acknowledgement(), None),
        Event::SendFailed(request) => (s.with_error(send_failure_text(request)), None),
    }
}

/// The event takes in the answer to the request under way.
pub open spec fn takes_in_reply(s: CoordinatorView, event: Event) -> bool {
    match event {
        Event::Detection(Polled::Delivered(_)) => s.phase is WaitingForDetection,
        Event::SwitchOutcome(Polled::Delivered(_)) => s.phase is WaitingForSwitch,
        _ => false,
    }
}

/// The state after the events, from the start.
pub open spec fn state_after(events: Seq<Event>) -> CoordinatorView
    decreases events.len(),
{
    if events.len() == 0 {
        CoordinatorView::initial()
    } else {
        step(state_after(events.drop_last()), events.last()).0
    }
}

/// How many requests the coordinator has issued by the end of the
/// events, the first detection included.
pub open spec fn issued(events: Seq<Event>) -> nat
    decreases events.len(),
{
    if events.len() == 0 {
        1
    } else if step(state_after(events.drop_last()), events.last()).1 is Some {
        issued(events.drop_last()) + 1
    } else {
        issued(events.drop_last())
    }
}

/// How many answers the coordinator has taken in by the end of the
/// events.
pub open spec fn answered(events: Seq<Event>) -> nat
    decreases events.len(),
{
    if events.len() == 0 {
        0
    } else if takes_in_reply(state_after(events.drop_last()), events.last()) {
        answered(events.drop_last()) + 1
    } else {
        answered(events.drop_last())
    }
}

/// One more event leads one step on, and adds to the counts what that
/// step issues and takes in.
pub proof fn lemma_state_after_push(events: Seq<Event>, event: Event)
    ensures
        state_after(events.push(event)) == step(state_after(events), event).0,
        issued(events.push(event)) == issued(events) + (if step(
            state_after(events),
            event,
        ).1 is Some {
            1nat
        } else {
            0nat
        }),
        answered(events.push(event)) == answered(events) + (if takes_in_reply(
            state_after(events),
            event,
        ) {
            1nat
        } else {
            0nat
        }),
{
    assert(events.push(event).drop_last() =~= events);
}

/// Every event leaves a valid state valid.
pub proof fn lemma_step_keeps_valid(s: CoordinatorView, event: Event)
    requires
        s.valid(),
    ensures
        step(s, event).0.valid(),
{
    if let Event::Detection(Polled::Delivered(batch)) = event {
        if batch.len() > 0 {
            assert(numbers(batch)[0] == SelectionView::fresh(batch).monitor);
        }
    }
}

/// A request is issued only when none is under way, or in the step that
/// takes in the answer to the one under way; and once it is issued, its
/// answer is awaited. A step that issues nothing and takes in no answer
/// leaves under way what was.
pub proof fn lemma_step_issues_one_at_a_time(s: CoordinatorView, event: Event)
    ensures
        step(s, event).1 is Some ==> !s.phase.awaits_reply() || takes_in_reply(s, event),
        step(s, event).1 is Some ==> step(s, event).0.phase.awaits_reply(),
        takes_in_reply(s, event) ==> s.phase.awaits_reply(),
        takes_in_reply(s, event) && step(s, event).1 is None ==> !step(
            s,
            event,
        ).0.phase.awaits_reply(),
        !takes_in_reply(s, event) && step(s, event).1 is None ==> step(
            s,
            event,
        ).0.phase.awaits_reply() == s.phase.awaits_reply(),
{
}

/// At most one request is ever under way: however the events fall, the
/// requests issued outnumber the answers taken in by one while the
/// coordinator awaits an answer, and by none while it is ready.
pub proof fn lemma_one_request_in_flight(events: Seq<Event>)
    ensures
        state_after(events).valid(),
        issued(events) - answered(events) == (if state_after(events).phase.awaits_reply() {
            1int
        } else {
            0int
        }),
        issued(events) - answered(events) <= 1,
    decreases events.len(),
{
    if events.len() > 0 {
        lemma_one_request_in_flight(events.drop_last());
        lemma_step_keeps_valid(state_after(events.drop_last()), events.last());
        lemma_step_issues_one_at_a_time(state_after(events.drop_last()), events.last());
    }
}

/// The event is an answer to a detection that brought monitors.
pub open spec fn brings_monitors(event: Event) -> bool {
    event matches Event::Detection(Polled::Delivered(batch)) && batch.len() > 0
}

/// Some event among these brought monitors.
pub open spec fn detected(events: Seq<Event>) -> bool {
    exists|k: int| 0 <= k < events.len() && brings_monitors(#[trigger] events[k])
}

/// A switch is requested only on the user's wish, only after some
/// detection has brought monitors, and only for a monitor of the batch
/// that the selection holds.
pub proof fn lemma_switch_follows_detection(events: Seq<Event>, event: Event)
    ensures
        state_after(events).selection is Some ==> detected(events),
        step(state_after(events), event).1 matches Some(Request::Switch { monitor, .. }) ==> {
            &&& event is Activate
            &&& detected(events)
            &&& listed(numbers(state_after(events).selection->0.displays), monitor as int)
        },
    decreases events.len(),
{
    lemma_one_request_in_flight(events);
    if events.len() > 0 {
        let earlier = events.drop_last();
        lemma_switch_follows_detection(earlier, events.last());
        if detected(earlier) {
            let k = choose|k: int| 0 <= k < earlier.len() && brings_monitors(#[trigger] earlier[k]);
            assert(events[k] == earlier[k]);
        } else if state_after(events).selection is Some {
            assert(brings_monitors(events[events.len() - 1]));
        }
    }
}

/// The state after `n` answers without monitors in a row.
pub open spec fn after_empty_answers(s: CoordinatorView, n: nat) -> CoordinatorView
    decreases n,
{
    if n == 0 {
        s
    } else {
        after_empty_answers(s, (n - 1) as nat).after_detection(Polled::Delivered(Seq::empty())).0
    }
}

/// An answer without monitors is followed by exactly one new detection,
/// however many came before: after any number of them the coordinator
/// still detects, with selection and messages untouched, and the next one
/// is followed by a detection again.
pub proof fn lemma_empty_detection_is_retried(s: CoordinatorView, n: nat)
    requires
        s.phase is WaitingForDetection,
    ensures
        after_empty_answers(s, n).phase == (Phase::WaitingForDetection {
            just_switched: s.phase->just_switched,
            long_detect: s.phase->long_detect || n > 0,
        }),
        after_empty_answers(s, n).selection == s.selection,
        after_empty_answers(s, n).errors == s.errors,
        after_empty_answers(s, n).after_detection(Polled::Delivered(Seq::empty())).1 == Some(
            Request::Detect,
        ),
        after_empty_answers(s, n).after_detection(Polled::Delivered(Seq::empty())).0.phase == (
        Phase::WaitingForDetection { just_switched: s.phase->just_switched, long_detect: true }),
    decreases n,
{
    if n > 0 {
        lemma_empty_detection_is_retried(s, (n - 1) as nat);
    }
}

/// A switch that succeeded is followed by exactly one detection, marked
/// as following a switch; nothing else changes.
pub proof fn lemma_successful_switch_is_followed_by_detection(s: CoordinatorView)
    requires
        s.phase is WaitingForSwitch,
    ensures
        s.after_switch(Polled::Delivered(Ok(()))).1 == Some(Request::Detect),
        s.after_switch(Polled::Delivered(Ok(()))).0 == s.in_phase(
            Phase::WaitingForDetection { just_switched: true, long_detect: false },
        ),
        s.after_switch(Polled::Delivered(Ok(()))).0.errors == s.errors,
{
}

/// A switch that failed is followed by exactly one detection, marked as
/// following a switch, and leaves exactly one new message, the last one,
/// which ends with the text of the failure.
pub proof fn lemma_failed_switch_is_reported_and_followed_by_detection(
    s: CoordinatorView,
    cause: Seq<char>,
)
    requires
        s.phase is WaitingForSwitch,
    ensures
        s.after_switch(Polled::Delivered(Err(cause))).1 == Some(Request::Detect),
        s.after_switch(Polled::Delivered(Err(cause))).0.phase == (Phase::WaitingForDetection {
            just_switched: true,
            long_detect: false,
        }),
        s.after_switch(Polled::Delivered(Err(cause))).0.selection == s.selection,
        s.after_switch(Polled::Delivered(Err(cause))).0.errors == s.errors.push(
            switch_failure_text(cause),
        ),
        s.after_switch(Polled::Delivered(Err(cause))).0.errors.len() == s.errors.len() + 1,
        switch_failure_text(cause).len() >= cause.len(),
        switch_failure_text(cause).skip(switch_failure_text(cause).len() - cause.len()) == cause,
{
    let text = switch_failure_text(cause);
    assert(text.skip(text.len() - cause.len()) =~= cause);
}

/// Once the worker has given a slot up, no request follows: each look
/// into the slot leaves one fatal message and the phase as it is.
pub proof fn lemma_lost_worker_gets_no_request(s: CoordinatorView)
    ensures
        s.after_detection(Polled::Disconnected).1 is None,
        s.after_detection(Polled::Disconnected).0.phase == s.phase,
        s.after_switch(Polled::Disconnected).1 is None,
        s.after_switch(Polled::Disconnected).0.phase == s.phase,
        s.phase is WaitingForDetection ==> s.after_detection(Polled::Disconnected).0.errors
            == s.errors.push(fatal_text()),
        s.phase is WaitingForSwitch ==> s.after_switch(Polled::Disconnected).0.errors
            == s.errors.push(fatal_text()),
{
}

} // verus!
