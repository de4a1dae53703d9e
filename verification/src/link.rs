use crate::command::{Polled, Request, SwitchReply};
use crate::coordinator::{Coordinator, CoordinatorView, Phase, detection_view, switch_view};
use crate::display::{TableDisplayInfo, TableDisplayInfoView};
use crate::input_source::InputSource;
use crate::position_map::{listed, numbers};
use crate::protocol::{
    Event, answered, issued, lemma_one_request_in_flight, lemma_state_after_push, state_after, step,
};
use vstd::prelude::*;

verus! {

/// The sending end of a reply slot of the crate `oneshot`. Nothing of
/// its inside is known here.
#[verifier::external_type_specification]
#[verifier::external_body]
#[verifier::reject_recursive_types(T)]
pub struct ExReplySender<T>(oneshot::Sender<T>);

/// The receiving end of a reply slot of the crate `oneshot`. Nothing of
/// its inside is known here.
#[verifier::external_type_specification]
#[verifier::external_body]
#[verifier::reject_recursive_types(T)]
pub struct ExReplyReceiver<T>(oneshot::Receiver<T>);

/// The error of a blocking receive of the crate `oneshot`, which the
/// receiving end names in its impls. Nothing of its inside is known here.
#[verifier::external_type_specification]
#[verifier::external_body]
pub struct ExRecvError(oneshot::RecvError);

/// The sending end of a channel of `std::sync::mpsc`. Nothing of its
/// inside is known here.
#[verifier::external_type_specification]
#[verifier::external_body]
#[verifier::reject_recursive_types(T)]
pub struct ExCommandSender<T>(std::sync::mpsc::Sender<T>);

/// `oneshot::channel` makes a new reply slot and gives its two ends.
/// Nothing is claimed of them.
pub assume_specification<T>[ oneshot::channel::<T> ]() -> (ends: (
    oneshot::Sender<T>,
    oneshot::Receiver<T>,
));

/// Looks into a reply slot without waiting, by `try_recv` of
/// `oneshot::Receiver`: the reply if it has arrived, else whether one may
/// still come. What is found depends on the other end, so nothing is
/// claimed of it.
#[verifier::external_body]
fn look<T>(slot: &oneshot::Receiver<T>) -> (found: Polled<T>) {
    match slot.try_recv() {
        Ok(reply) => Polled::Delivered(reply),
        Err(oneshot::TryRecvError::Empty) => Polled::Pending,
        Err(oneshot::TryRecvError::Disconnected) => Polled::Disconnected,
    }
}

/// Puts `reply` into a reply slot, by `send` of `oneshot::Sender`, and
/// tells whether the other end was still there to take it. That depends
/// on the other end, so nothing is claimed of it.
#[verifier::external_body]
fn answer<T>(slot: oneshot::Sender<T>, reply: T) -> (taken: bool) {
    slot.send(reply).is_ok()
}

/// Hands `cmd` to the worker, by `send` of `std::sync::mpsc::Sender`, and
/// tells whether the worker's end of the channel was still there. That
/// depends on the worker, so nothing is claimed of it.
#[verifier::external_body]
fn hand_over(commands: &std::sync::mpsc::Sender<Cmd>, cmd: Cmd) -> (taken: bool) {
    commands.send(cmd).is_ok()
}

/// A request on its way to the worker, together with the slot for the
/// answer.
pub enum Cmd {
    /// Enumerate the monitors anew and probe each of them.
    DetectMonitors(oneshot::Sender<Vec<TableDisplayInfo>>),
    /// Make the monitor with this number show this input source.
    SwitchMonitor(u8, InputSource, oneshot::Sender<SwitchReply>),
}

impl Cmd {
    /// What is asked, without the slot.
    pub open spec fn spec_request(&self) -> Request {
        match self {
            Cmd::DetectMonitors(_) => Request::Detect,
            Cmd::SwitchMonitor(monitor, input, _) => Request::Switch {
                monitor: *monitor,
                input: *input,
            },
        }
    }

    /// What is asked, without the slot.
    pub fn request(&self) -> (request: Request)
        ensures
            request == self.spec_request(),
    {
        match self {
            Cmd::DetectMonitors(_) => Request::Detect,
            Cmd::SwitchMonitor(monitor, input, _) => Request::Switch {
                monitor: *monitor,
                input: *input,
            },
        }
    }

    /// The request in words.
    pub fn describe(&self) -> (text: String)
        ensures
            text@ == self.spec_request().spec_describe(),
    {
        self.request().describe()
    }

    /// Answers a detection with `batch`. The answer can be taken only if
    /// this is a detection; whether it is taken then lies with the
    /// coordinator's end of the slot.
    pub fn answer_detection(self, batch: Vec<TableDisplayInfo>) -> (taken: bool)
        ensures
            taken ==> self is DetectMonitors,
    {
        match self {
            Cmd::DetectMonitors(slot) => answer(slot, batch),
            Cmd::SwitchMonitor(_, _, _) => false,
        }
    }

    /// Answers a switch with `reply`. The answer can be taken only if this
    /// is a switch; whether it is taken then lies with the coordinator's
    /// end of the slot.
    pub fn answer_switch(self, reply: SwitchReply) -> (taken: bool)
        ensures
            taken ==> self is SwitchMonitor,
    {
        match self {
            Cmd::DetectMonitors(_) => false,
            Cmd::SwitchMonitor(_, _, slot) => answer(slot, reply),
        }
    }
}

/// The slot in which the answer to the request under way will arrive.
enum Awaited {
    Nothing,
    Detection(oneshot::Receiver<Vec<TableDisplayInfo>>),
    Switch(oneshot::Receiver<SwitchReply>),
}

/// The events of one step of the link: the event itself and, where a
/// request follows that could not be handed to the worker, the failure to
/// send it.
pub open spec fn extended(history: Seq<Event>, event: Event, handed_over: bool) -> Seq<Event> {
    match step(state_after(history), event).1 {
        Some(request) => if handed_over {
            history.push(event)
        } else {
            history.push(event).push(Event::SendFailed(request))
        },
        None => history.push(event),
    }
}

/// The events with which a link starts: none if the first detection was
/// handed to the worker, and the failure to send it if not.
pub open spec fn started(handed_over: bool) -> Seq<Event> {
    if handed_over {
        Seq::empty()
    } else {
        seq![Event::SendFailed(Request::Detect)]
    }
}

/// The coordinator together with its ends of the channels to the worker:
/// it hands each request to the worker with a fresh reply slot, and looks
/// into the slot of the request under way without ever waiting.
pub struct WorkerLink {
    coordinator: Coordinator,
    commands: std::sync::mpsc::Sender<Cmd>,
    awaited: Awaited,
    history: Ghost<Seq<Event>>,
}

impl View for WorkerLink {
    type V = CoordinatorView;

    closed spec fn view(&self) -> CoordinatorView {
        self.coordinator@
    }
}

impl WorkerLink {
    /// All that has happened to the coordinator since its start.
    pub closed spec fn history(&self) -> Seq<Event> {
        self.history@
    }

    /// The coordinator stands where its history has led it, and the link
    /// holds the slot of the request under way, and no other.
    pub closed spec fn wf(&self) -> bool {
        &&& self.coordinator@ == state_after(self.history@)
        &&& self.coordinator@.phase is WaitingForDetection <==> self.awaited is Detection
        &&& self.coordinator@.phase is WaitingForSwitch <==> self.awaited is Switch
    }

    /// The state of a well-formed link is the state after its history. So
    /// it is valid, and at most one request is under way: the requests
    /// issued outnumber the answers taken in by one while an answer is
    /// awaited, and by none while the coordinator is ready.
    pub proof fn lemma_state_follows_history(&self)
        requires
            self.wf(),
        ensures
            self@ == state_after(self.history()),
            self@.valid(),
            issued(self.history()) - answered(self.history()) == (if self@.phase.awaits_reply() {
                1int
            } else {
                0int
            }),
    {
        lemma_one_request_in_flight(self.history());
    }

    /// Hands `request` to the worker with a fresh reply slot, which is
    /// awaited from now on. If it cannot be handed over, a message is
    /// left.
    fn issue(&mut self, request: Request) -> (handed_over: bool)
        requires
            old(self).coordinator@ == state_after(old(self).history()),
            request is Detect <==> old(self).coordinator@.phase is WaitingForDetection,
            request is Switch <==> old(self).coordinator@.phase is WaitingForSwitch,
        ensures
            final(self).wf(),
            final(self).history() == (if handed_over {
                old(self).history()
            } else {
                old(self).history().push(Event::SendFailed(request))
            }),
    {
        let handed_over = match request {
            Request::Detect => {
                let (sender, receiver) = oneshot::channel();
                self.awaited = Awaited::Detection(receiver);
                hand_over(&self.commands, Cmd::DetectMonitors(sender))
            },
            Request::Switch { monitor, input } => {
                let (sender, receiver) = oneshot::channel();
                self.awaited = Awaited::Switch(receiver);
                hand_over(&self.commands, Cmd::SwitchMonitor(monitor, input, sender))
            },
        };
        if !handed_over {
            self.coordinator.note_send_failure(&request);
            proof {
                lemma_state_after_push(self.history@, Event::SendFailed(request));
            }
            self.history = Ghost(self.history@.push(Event::SendFailed(request)));
        }
        handed_over
    }

    /// Takes note of `event`, which the coordinator has just taken in.
    fn record(&mut self, event: Ghost<Event>)
        requires
            old(self).coordinator@ == step(state_after(old(self).history()), event@).0,
        ensures
            final(self).coordinator == old(self).coordinator,
            final(self).awaited == old(self).awaited,
            final(self).history() == old(self).history().push(event@),
            final(self).coordinator@ == state_after(final(self).history()),
    {
        proof {
            lemma_state_after_push(self.history@, event@);
        }
        self.history = Ghost(self.history@.push(event@));
    }

    /// Starts the coordinator and hands the first detection to the
    /// worker, whose commands go through `commands`.
    pub fn start(commands: std::sync::mpsc::Sender<Cmd>) -> (link: WorkerLink)
        ensures
            link.wf(),
            link@ == state_after(link.history()),
            exists|handed_over: bool| link.history() == #[trigger] started(handed_over),
    {
        let (coordinator, request) = Coordinator::start();
        let mut link = WorkerLink {
            coordinator,
            commands,
            awaited: Awaited::Nothing,
            history: Ghost(Seq::empty()),
        };
        let handed_over = link.issue(request);
        assert(link.history() == started(handed_over));
        link
    }

    /// The coordinator, to read its state.
    pub fn coordinator(&self) -> (coordinator: &Coordinator)
        ensures
            coordinator@ == self@,
    {
        &self.coordinator
    }

    /// Looks once into the slot of the request under way, without
    /// waiting, takes in what is found and hands the request that follows,
    /// if any, to the worker. A ready coordinator awaits nothing, and
    /// nothing happens.
    pub fn poll(&mut self)
        requires
            old(self).wf(),
        ensures
            final(self).wf(),
            final(self)@ == state_after(final(self).history()),
            match old(self)@.phase {
                Phase::Ready => final(self).history() == old(self).history(),
                Phase::WaitingForDetection { .. } => exists|
                    found: Polled<Seq<TableDisplayInfoView>>,
                    handed_over: bool,
                |
                    final(self).history() == #[trigger] extended(
                        old(self).history(),
                        Event::Detection(found),
                        handed_over,
                    ),
                Phase::WaitingForSwitch => exists|
                    found: Polled<Result<(), Seq<char>>>,
                    handed_over: bool,
                |
                    final(self).history() == #[trigger] extended(
                        old(self).history(),
                        Event::SwitchOutcome(found),
                        handed_over,
                    ),
            },
    {
        match &self.awaited {
            Awaited::Nothing => {},
            Awaited::Detection(slot) => {
                let found = look(slot);
                let ghost event = Event::Detection(detection_view(found));
                let next = self.coordinator.on_detection(found);
                self.record(Ghost(event));
                match next {
                    Some(request) => {
                        let handed_over = self.issue(request);
                        assert(self.history() == extended(old(self).history(), event, handed_over));
                    },
                    None => {
                        if self.coordinator.phase() == Phase::Ready {
                            self.awaited = Awaited::Nothing;
                        }
                        assert(self.history() == extended(old(self).history(), event, true));
                    },
                }
            },
            Awaited::Switch(slot) => {
                let found = look(slot);
                let ghost event = Event::SwitchOutcome(switch_view(found));
                let next = self.coordinator.on_switch_outcome(found);
                self.record(Ghost(event));
                match next {
                    Some(request) => {
                        let handed_over = self.issue(request);
                        assert(self.history() == extended(old(self).history(), event, handed_over));
                    },
                    None => {
                        assert(self.history() == extended(old(self).history(), event, true));
                    },
                }
            },
        }
    }

    /// Takes in the user's wish to switch and hands the request to the
    /// worker; tells whether there was one to hand, which is so when the
    /// coordinator is ready.
    pub fn activate_switch(&mut self) -> (requested: bool)
        requires
            old(self).wf(),
        ensures
            final(self).wf(),
            final(self)@ == state_after(final(self).history()),
            requested == (old(self)@.phase is Ready),
            exists|handed_over: bool|
                final(self).history() == #[trigger] extended(
                    old(self).history(),
                    Event::Activate,
                    handed_over,
                ),
    {
        proof {
            self.lemma_state_follows_history();
        }
        let next = self.coordinator.activate_switch();
        self.record(Ghost(Event::Activate));
        match next {
            Some(request) => {
                let handed_over = self.issue(request);
                assert(self.history() == extended(old(self).history(), Event::Activate, handed_over));
                true
            },
            None => {
                assert(self.history() == extended(old(self).history(), Event::Activate, true));
                false
            },
        }
    }

    /// Takes in the user's choice of a monitor; tells whether it was
    /// taken: the coordinator is ready and the batch has that monitor.
    pub fn select_monitor(&mut self, monitor: u8) -> (chosen: bool)
        requires
            old(self).wf(),
        ensures
            final(self).wf(),
            final(self)@ == old(self)@.after_monitor_choice(monitor),
            final(self).history() == old(self).history().push(Event::ChooseMonitor(monitor)),
            chosen == (old(self)@.phase is Ready && listed(
                numbers(old(self)@.selection->0.displays),
                monitor as int,
            )),
    {
        proof {
            self.lemma_state_follows_history();
        }
        let chosen = self.coordinator.select_monitor(monitor);
        self.record(Ghost(Event::ChooseMonitor(monitor)));
        chosen
    }

    /// Takes in the user's choice of an input source; tells whether it
    /// was taken: the coordinator is ready.
    pub fn select_input(&mut self, input: InputSource) -> (chosen: bool)
        requires
            old(self).wf(),
        ensures
            final(self).wf(),
            final(self)@ == old(self)@.after_input_choice(input),
            final(self).history() == old(self).history().push(Event::ChooseInput(input)),
            chosen == (old(self)@.phase is Ready),
    {
        proof {
            self.lemma_state_follows_history();
        }
        let chosen = self.coordinator.select_input(input);
        self.record(Ghost(Event::ChooseInput(input)));
        chosen
    }

    /// Removes the oldest failure message, once it has been shown and
    /// dismissed; tells whether there was one.
    pub fn acknowledge_error(&mut self) -> (removed: bool)
        requires
            old(self).wf(),
        ensures
            final(self).wf(),
            final(self)@ == old(self)@.after_acknowledgement(),
            final(self).history() == old(self).history().push(Event::Acknowledge),
            removed == (old(self)@.errors.len() > 0),
    {
        let removed = self.coordinator.acknowledge_error();
        self.record(Ghost(Event::Acknowledge));
        removed
    }
}

} // verus!
