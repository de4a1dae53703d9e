use crate::command::{Polled, Request, SwitchReply, switch_reply_view};
use crate::display::{TableDisplayInfo, TableDisplayInfoView};
use crate::errors::ErrorQueue;
use crate::input_source::InputSource;
use crate::position_map::{listed, numbers};
use crate::selection::{Selection, SelectionView};
use crate::text::joined;
use vstd::prelude::*;

verus! {

/// Where the coordinator stands.
#[derive(Clone, Copy, Debug, PartialEq, Eq, Structural)]
pub enum Phase {
    /// A detection is under way. `just_switched` tells that it follows a
    /// switch, `long_detect` that an earlier answer found no monitor.
    WaitingForDetection { just_switched: bool, long_detect: bool },
    /// A switch is under way.
    WaitingForSwitch,
    /// Nothing is under way: the user may choose and switch.
    Ready,
}

impl Phase {
    /// A request is under way whose answer has not been taken in.
    pub open spec fn awaits_reply(self) -> bool {
        !(self is Ready)
    }

    /// The phase cannot be without a selection: the user chooses, or a
    /// switch is under way or behind.
    pub open spec fn needs_selection(self) -> bool {
        match self {
            Phase::WaitingForDetection { just_switched, .. } => just_switched,
            Phase::WaitingForSwitch => true,
            Phase::Ready => true,
        }
    }
}

/// The message for a worker that gave a reply slot up without an answer.
pub open spec fn fatal_text() -> Seq<char> {
    "The monitor worker stopped responding. Close and restart to fix."@
}

/// The message for a switch that failed with the message `cause`.
pub open spec fn switch_failure_text(cause: Seq<char>) -> Seq<char> {
    "Error switching monitor "@ + cause
}

/// The message for a request that could not be handed to the worker.
pub open spec fn send_failure_text(request: Request) -> Seq<char> {
    "Error sending request "@ + request.spec_describe()
}

/// The state of the coordinator as plain values.
pub struct CoordinatorView {
    /// Where the coordinator stands.
    pub phase: Phase,
    /// The selection, once a detection has found monitors.
    pub selection: Option<SelectionView>,
    /// The failure messages that wait to be shown, oldest first.
    pub errors: Seq<Seq<char>>,
}

/// What one look into the slot of a detection finds, as plain values.
pub open spec fn detection_view(outcome: Polled<Vec<TableDisplayInfo>>) -> Polled<
    Seq<TableDisplayInfoView>,
> {
    match outcome {
        Polled::Delivered(batch) => Polled::Delivered(batch.deep_view()),
        Polled::Pending => Polled::Pending,
        Polled::Disconnected => Polled::Disconnected,
    }
}

/// What one look into the slot of a switch finds, as plain values.
pub open spec fn switch_view(outcome: Polled<SwitchReply>) -> Polled<Result<(), Seq<char>>> {
    match outcome {
        Polled::Delivered(reply) => Polled::Delivered(switch_reply_view(reply)),
        Polled::Pending => Polled::Pending,
        Polled::Disconnected => Polled::Disconnected,
    }
}

impl CoordinatorView {
    /// The state at the start: the first detection is under way, nothing
    /// is selected and no message waits.
    pub open spec fn initial() -> CoordinatorView {
        CoordinatorView {
            phase: Phase::WaitingForDetection { just_switched: false, long_detect: false },
            selection: None,
            errors: Seq::empty(),
        }
    }

    /// The phase has the selection that it needs, and a selection that is
    /// there is valid.
    pub open spec fn valid(self) -> bool {
        &&& self.phase.needs_selection() ==> self.selection is Some
        &&& self.selection is Some ==> self.selection->0.valid()
    }

    /// The state with `message` appended to the waiting messages.
    pub open spec fn with_error(self, message: Seq<char>) -> CoordinatorView {
        CoordinatorView { errors: self.errors.push(message), ..self }
    }

    /// The state in another phase.
    pub open spec fn in_phase(self, phase: Phase) -> CoordinatorView {
        CoordinatorView { phase, ..self }
    }

    /// State and request after one look into the slot of the detection
    /// under way.
    ///
    /// While no answer is there, nothing changes. An answer with monitors
    /// ends the detection: the coordinator is ready, with a fresh
    /// selection from the batch, or, after a switch, with the selection it
    /// had. An answer without monitors is followed by one new detection,
    /// remembered in `long_detect`. A slot that was given up leaves one
    /// fatal message and the phase as it is, and no request follows.
    /// Outside a detection nothing changes.
    pub open spec fn after_detection(self, outcome: Polled<Seq<TableDisplayInfoView>>) -> (
        CoordinatorView,
        Option<Request>,
    ) {
        match self.phase {
            Phase::WaitingForDetection { just_switched, long_detect } => match outcome {
                Polled::Pending => (self, None),
                Polled::Delivered(batch) => if batch.len() > 0 {
                    (
                        CoordinatorView {
                            phase: Phase::Ready,
                            selection: if just_switched {
                                self.selection
                            } else {
                                Some(SelectionView::fresh(batch))
                            },
                            errors: self.errors,
                        },
                        None,
                    )
                } else {
                    (
                        self.in_phase(
                            Phase::WaitingForDetection { just_switched, long_detect: true },
                        ),
                        Some(Request::Detect),
                    )
                },
                Polled::Disconnected => (self.with_error(fatal_text()), None),
            },
            _ => (self, None),
        }
    }

    /// State and request after one look into the slot of the switch under
    /// way.
    ///
    /// While no answer is there, nothing changes. Any answer is followed
    /// by one detection with `just_switched` set; a failure leaves one
    /// message with its text before that. A slot that was given up leaves
    /// one fatal message and the phase as it is, and no request follows.
    /// Outside a switch nothing changes.
    pub open spec fn after_switch(self, outcome: Polled<Result<(), Seq<char>>>) -> (
        CoordinatorView,
        Option<Request>,
    ) {
        match self.phase {
            Phase::WaitingForSwitch => match outcome {
                Polled::Pending => (self, None),
                Polled::Delivered(Ok(_)) => (
                    self.in_phase(
                        Phase::WaitingForDetection { just_switched: true, long_detect: false },
                    ),
                    Some(Request::Detect),
                ),
                Polled::Delivered(Err(cause)) => (
                    self.with_error(switch_failure_text(cause)).in_phase(
                        Phase::WaitingForDetection { just_switched: true, long_detect: false },
                    ),
                    Some(Request::Detect),
                ),
                Polled::Disconnected => (self.with_error(fatal_text()), None),
            },
            _ => (self, None),
        }
    }

    /// State and request after the user asked for the switch: a ready
    /// coordinator requests the switch of the chosen monitor to the
    /// chosen input source and waits for it; in any other phase nothing
    /// changes.
    pub open spec fn after_activation(self) -> (CoordinatorView, Option<Request>) {
        if self.phase is Ready && self.selection is Some {
            (
                self.in_phase(Phase::WaitingForSwitch),
                Some(
                    Request::Switch {
                        monitor: self.selection->0.monitor,
                        input: self.selection->0.input,
                    },
                ),
            )
        } else {
            (self, None)
        }
    }

    /// The state after the user asked for the monitor with the number
    /// `monitor`: a ready coordinator selects it if the batch has it; in
    /// any other case nothing changes.
    pub open spec fn after_monitor_choice(self, monitor: u8) -> CoordinatorView {
        if self.phase is Ready && self.selection is Some {
            CoordinatorView { selection: Some(self.selection->0.with_monitor(monitor)), ..self }
        } else {
            self
        }
    }

    /// The state after the user asked for the input source `input`: a
    /// ready coordinator selects it; in any other phase nothing changes.
    pub open spec fn after_input_choice(self, input: InputSource) -> CoordinatorView {
        if self.phase is Ready && self.selection is Some {
            CoordinatorView { selection: Some(self.selection->0.with_input(input)), ..self }
        } else {
            self
        }
    }

    /// The state after the oldest message was shown and dismissed.
    pub open spec fn after_acknowledgement(self) -> CoordinatorView {
        if self.errors.len() > 0 {
            CoordinatorView { errors: self.errors.skip(1), ..self }
        } else {
            self
        }
    }

    /// The line that tells the user what goes on. During a detection it
    /// goes by the two flags: after a switch it speaks of switching,
    /// whatever was found; else of a retry once an answer was empty, and
    /// of detecting before that. A ready coordinator shows the summary of
    /// the chosen monitor.
    pub open spec fn status_text(self) -> Seq<char> {
        match self.phase {
            Phase::WaitingForDetection { just_switched, long_detect } => if just_switched {
                "switching inputs"@
            } else if long_detect {
                "nothing found, retrying"@
            } else {
                "detecting"@
            },
            Phase::WaitingForSwitch => "switching, please wait"@,
            Phase::Ready => match self.selection {
                Some(selection) => selection.selected().info.summary(),
                None => Seq::empty(),
            },
        }
    }
}

/// The coordinator: it issues one request at a time, takes in the answers
/// without waiting for them, keeps the user's selection and collects the
/// failures to show.
#[derive(Debug)]
pub struct Coordinator {
    phase: Phase,
    selection: Option<Selection>,
    errors: ErrorQueue,
}

impl View for Coordinator {
    type V = CoordinatorView;

    closed spec fn view(&self) -> CoordinatorView {
        CoordinatorView {
            phase: self.phase,
            selection: match self.selection {
                Some(selection) => Some(selection@),
                None => None,
            },
            errors: self.errors@,
        }
    }
}

impl Coordinator {
    /// Starts the coordinator. The request that comes with it is the
    /// first detection, which the caller hands to the worker.
    pub fn start() -> (started: (Coordinator, Request))
        ensures
            started.0@ == CoordinatorView::initial(),
            started.0@.valid(),
            started.1 == Request::Detect,
    {
        let coordinator = Coordinator {
            phase: Phase::WaitingForDetection { just_switched: false, long_detect: false },
            selection: None,
            errors: ErrorQueue::new(),
        };
        (coordinator, Request::Detect)
    }

    /// Where the coordinator stands.
    pub fn phase(&self) -> (phase: Phase)
        ensures
            phase == self@.phase,
    {
        self.phase
    }

    /// The selection, which is there whenever the coordinator is ready.
    pub fn selection(&self) -> (selection: Option<&Selection>)
        ensures
            match selection {
                Some(s) => self@.selection == Some(s@),
                None => self@.selection is None,
            },
    {
        self.selection.as_ref()
    }

    /// The failure messages that wait to be shown.
    pub fn errors(&self) -> (errors: &ErrorQueue)
        ensures
            errors@ == self@.errors,
    {
        &self.errors
    }

    /// The oldest failure message, which is the one to show.
    pub fn current_error(&self) -> (message: Option<&String>)
        ensures
            match message {
                Some(text) => self@.errors.len() > 0 && text@ == self@.errors[0],
                None => self@.errors.len() == 0,
            },
    {
        self.errors.head()
    }

    /// Takes in what one look into the slot of the detection found, and
    /// gives the request to hand to the worker, if one follows.
    pub fn on_detection(&mut self, outcome: Polled<Vec<TableDisplayInfo>>) -> (request: Option<
        Request,
    >)
        ensures
            (final(self)@, request) == old(self)@.after_detection(detection_view(outcome)),
            old(self)@.valid() ==> final(self)@.valid(),
    {
        match self.phase {
            Phase::WaitingForDetection { just_switched, long_detect } => match outcome {
                Polled::Pending => None,
                Polled::Delivered(batch) => {
                    if batch.len() == 0 {
                        self.phase = Phase::WaitingForDetection { just_switched, long_detect: true };
                        Some(Request::Detect)
                    } else if just_switched {
                        self.phase = Phase::Ready;
                        None
                    } else {
                        let fresh = Selection::fresh(batch);
                        if fresh.is_some() {
                            self.selection = fresh;
                            self.phase = Phase::Ready;
                        }
                        None
                    }
                },
                Polled::Disconnected => {
                    self.errors.push(
                        "The monitor worker stopped responding. Close and restart to fix.".to_owned(),
                    );
                    None
                },
            },
            _ => None,
        }
    }

    /// Takes in what one look into the slot of the switch found, and gives
    /// the request to hand to the worker, if one follows.
    pub fn on_switch_outcome(&mut self, outcome: Polled<SwitchReply>) -> (request: Option<Request>)
        ensures
            (final(self)@, request) == old(self)@.after_switch(switch_view(outcome)),
            old(self)@.valid() ==> final(self)@.valid(),
    {
        match self.phase {
            Phase::WaitingForSwitch => match outcome {
                Polled::Pending => None,
                Polled::Delivered(Ok(_)) => {
                    self.phase = Phase::WaitingForDetection {
                        just_switched: true,
                        long_detect: false,
                    };
                    Some(Request::Detect)
                },
                Polled::Delivered(Err(error)) => {
                    self.errors.push(joined("Error switching monitor ", error.msg.as_str()));
                    self.phase = Phase::WaitingForDetection {
                        just_switched: true,
                        long_detect: false,
                    };
                    Some(Request::Detect)
                },
                Polled::Disconnected => {
                    self.errors.push(
                        "The monitor worker stopped responding. Close and restart to fix.".to_owned(),
                    );
                    None
                },
            },
            _ => None,
        }
    }

    /// Takes in the user's wish to switch, and gives the request to hand
    /// to the worker, if the coordinator is ready.
    pub fn activate_switch(&mut self) -> (request: Option<Request>)
        ensures
            (final(self)@, request) == old(self)@.after_activation(),
            old(self)@.valid() ==> final(self)@.valid(),
    {
        let request = match self.phase {
            Phase::Ready => match &self.selection {
                Some(selection) => Some(
                    Request::Switch {
                        monitor: selection.monitor_select(),
                        input: selection.input_select(),
                    },
                ),
                None => None,
            },
            _ => None,
        };
        if request.is_some() {
            self.phase = Phase::WaitingForSwitch;
        }
        request
    }

    /// Takes in the user's choice of a monitor; tells whether it was
    /// taken: the coordinator is ready and the batch has that monitor.
    pub fn select_monitor(&mut self, monitor: u8) -> (chosen: bool)
        ensures
            final(self)@ == old(self)@.after_monitor_choice(monitor),
            old(self)@.valid() ==> final(self)@.valid(),
            chosen == (old(self)@.phase is Ready && old(self)@.selection is Some && listed(
                numbers(old(self)@.selection->0.displays),
                monitor as int,
            )),
    {
        match self.phase {
            Phase::Ready => match &mut self.selection {
                Some(selection) => selection.select_monitor(monitor),
                None => false,
            },
            _ => false,
        }
    }

    /// Takes in the user's choice of an input source; tells whether it
    /// was taken: the coordinator is ready.
    pub fn select_input(&mut self, input: InputSource) -> (chosen: bool)
        ensures
            final(self)@ == old(self)@.after_input_choice(input),
            old(self)@.valid() ==> final(self)@.valid(),
            chosen == (old(self)@.phase is Ready && old(self)@.selection is Some),
    {
        match self.phase {
            Phase::Ready => match &mut self.selection {
                Some(selection) => {
                    selection.select_input(input);
                    true
                },
                None => false,
            },
            _ => false,
        }
    }

    /// Notes that `request` could not be handed to the worker: one
    /// message that names the request is left to show.
    pub fn note_send_failure(&mut self, request: &Request)
        ensures
            final(self)@ == old(self)@.with_error(send_failure_text(*request)),
            old(self)@.valid() ==> final(self)@.valid(),
    {
        let described = request.describe();
        self.errors.push(joined("Error sending request ", described.as_str()));
    }

    /// Removes the oldest failure message, once it has been shown and
    /// dismissed; tells whether there was one.
    pub fn acknowledge_error(&mut self) -> (removed: bool)
        ensures
            final(self)@ == old(self)@.after_acknowledgement(),
            old(self)@.valid() ==> final(self)@.valid(),
            removed == (old(self)@.errors.len() > 0),
    {
        self.errors.acknowledge().is_some()
    }

    /// The line that tells the user what goes on.
    pub fn status_text(&self) -> (text: String)
        ensures
            text@ == self@.status_text(),
    {
        match self.phase {
            Phase::WaitingForDetection { just_switched, long_detect } => if just_switched {
                "switching inputs".to_owned()
            } else if long_detect {
                "nothing found, retrying".to_owned()
            } else {
                "detecting".to_owned()
            },
            Phase::WaitingForSwitch => "switching, please wait".to_owned(),
            Phase::Ready => match &self.selection {
                Some(selection) => selection.selected().info.summary(),
                None => String::new(),
            },
        }
    }
}

} // verus!
