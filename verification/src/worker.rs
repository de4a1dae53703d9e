use crate::command::{BackgroundError, Request, SwitchReply, switch_reply_view};
use crate::display::{MonitorInfo, MonitorInfoView, TableDisplayInfo, TableDisplayInfoView};
use crate::input_source::InputSource;
use crate::text::{decimal, decimal_digits};
use vstd::prelude::*;
use vstd::string::StringExecFns;

verus! {

/// The register of a monitor that selects its input source.
pub const INPUT_SELECT_REGISTER: u8 = 0x60;

/// One write to a register of a monitor.
#[derive(Clone, Copy, Debug, PartialEq, Eq, Structural)]
pub struct RegisterWrite {
    /// Position of the monitor among the enumerated ones.
    pub position: usize,
    /// The register to write.
    pub register: u8,
    /// The value to write.
    pub value: u16,
}

/// Why an input source could not be switched.
#[derive(Debug, PartialEq, Eq)]
pub enum SwitchError {
    /// No monitor with this number is held.
    MonitorGone { monitor: u8 },
    /// The monitor refused the write, for this cause.
    WriteFailed { cause: String },
}

/// The message for a monitor number that no held monitor has.
pub open spec fn gone_text(monitor: u8) -> Seq<char> {
    "monitor number "@ + decimal_digits(monitor as nat) + " out of range"@
}

impl SwitchError {
    /// The failure in words: `gone_text` of the number for a monitor that
    /// is gone, and the cause itself for a failed write.
    pub open spec fn spec_message(self) -> Seq<char> {
        match self {
            SwitchError::MonitorGone { monitor } => gone_text(monitor),
            SwitchError::WriteFailed { cause } => cause@,
        }
    }

    /// The failure in words.
    pub fn message(&self) -> (text: String)
        ensures
            text@ == self.spec_message(),
    {
        match self {
            SwitchError::MonitorGone { monitor } => {
                let mut text = "monitor number ".to_owned();
                let number = decimal(*monitor as u16);
                text.append(number.as_str());
                text.append(" out of range");
                text
            },
            SwitchError::WriteFailed { cause } => cause.clone(),
        }
    }

    /// The failure as the worker reports it to the coordinator: by its
    /// message alone.
    pub fn into_background(self) -> (error: BackgroundError)
        ensures
            error@ == self.spec_message(),
    {
        BackgroundError { msg: self.message() }
    }
}

/// The number under which the monitor at `position` of an enumeration is
/// listed: the position, counted in eight bits.
pub open spec fn number_at(position: int) -> u8 {
    (position % 256) as u8
}

/// The rows for the monitors whose probe succeeded. `probed` holds, for
/// each enumerated monitor in turn, what the probe told of it, or `None`
/// where the probe failed. The rows keep the order of the enumeration,
/// and each has the number of its monitor's position.
pub open spec fn surviving(probed: Seq<Option<MonitorInfoView>>) -> Seq<TableDisplayInfoView>
    decreases probed.len(),
{
    if probed.len() == 0 {
        Seq::empty()
    } else {
        let earlier = surviving(probed.drop_last());
        match probed.last() {
            Some(info) => earlier.push(
                TableDisplayInfoView { number: number_at(probed.len() - 1), info },
            ),
            None => earlier,
        }
    }
}

/// Each row of `surviving` stands for a monitor whose probe succeeded: it
/// carries what the probe told and the number of the monitor's position.
/// No more rows come out than monitors went in.
pub proof fn lemma_surviving_rows(probed: Seq<Option<MonitorInfoView>>, k: int)
    requires
        0 <= k < surviving(probed).len(),
    ensures
        surviving(probed).len() <= probed.len(),
        exists|p: int|
            0 <= p < probed.len() && #[trigger] probed[p] == Some(surviving(probed)[k].info)
                && surviving(probed)[k].number == number_at(p),
    decreases probed.len(),
{
    lemma_surviving_length(probed);
    let earlier = surviving(probed.drop_last());
    if k < earlier.len() {
        lemma_surviving_rows(probed.drop_last(), k);
        let p = choose|p: int|
            0 <= p < probed.drop_last().len() && #[trigger] probed.drop_last()[p] == Some(
                earlier[k].info,
            ) && earlier[k].number == number_at(p);
        assert(probed[p] == probed.drop_last()[p]);
    } else {
        assert(probed[probed.len() - 1] == Some(surviving(probed)[k].info));
    }
}

/// No more rows come out of `surviving` than monitors went in, and where
/// every probe succeeded as many.
pub proof fn lemma_surviving_length(probed: Seq<Option<MonitorInfoView>>)
    ensures
        surviving(probed).len() <= probed.len(),
        (forall|p: int| 0 <= p < probed.len() ==> (#[trigger] probed[p]) is Some) ==> surviving(
            probed,
        ).len() == probed.len(),
    decreases probed.len(),
{
    if probed.len() > 0 {
        lemma_surviving_length(probed.drop_last());
        if forall|p: int| 0 <= p < probed.len() ==> (#[trigger] probed[p]) is Some {
            assert forall|p: int| 0 <= p < probed.drop_last().len() implies (
            #[trigger] probed.drop_last()[p]) is Some by {
                assert(probed[p] is Some);
            }
        }
    }
}

/// Where no more than 256 monitors were enumerated, the number of each
/// row is the position of its monitor itself, and so lies below the count
/// of the monitors.
pub proof fn lemma_surviving_numbers_are_positions(probed: Seq<Option<MonitorInfoView>>, k: int)
    requires
        probed.len() <= 256,
        0 <= k < surviving(probed).len(),
    ensures
        k <= surviving(probed)[k].number < probed.len(),
        probed[surviving(probed)[k].number as int] == Some(surviving(probed)[k].info),
    decreases probed.len(),
{
    let earlier = surviving(probed.drop_last());
    if k < earlier.len() {
        lemma_surviving_numbers_are_positions(probed.drop_last(), k);
    } else {
        lemma_surviving_length(probed.drop_last());
    }
}

/// Where no more than 256 monitors were enumerated, the rows carry their
/// numbers in increasing order, so that no two rows share a number.
pub proof fn lemma_surviving_numbers_increase(
    probed: Seq<Option<MonitorInfoView>>,
    a: int,
    b: int,
)
    requires
        probed.len() <= 256,
        0 <= a < b < surviving(probed).len(),
    ensures
        surviving(probed)[a].number < surviving(probed)[b].number,
    decreases probed.len(),
{
    let earlier = surviving(probed.drop_last());
    if b < earlier.len() {
        lemma_surviving_numbers_increase(probed.drop_last(), a, b);
    } else {
        lemma_surviving_numbers_are_positions(probed.drop_last(), a);
    }
}

/// Lists the monitors whose probe succeeded, each under the number of its
/// position in the enumeration.
pub fn collect_display_info(probed: &Vec<Option<MonitorInfo>>) -> (rows: Vec<TableDisplayInfo>)
    ensures
        rows.deep_view() == surviving(probed.deep_view()),
{
    let ghost all = probed.deep_view();
    let mut rows: Vec<TableDisplayInfo> = Vec::new();
    let mut i: usize = 0;
    while i < probed.len()
        invariant
            i <= probed@.len(),
            all == probed.deep_view(),
            rows.deep_view() == surviving(all.take(i as int)),
        decreases probed@.len() - i,
    {
        let ghost before = rows.deep_view();
        assert(all.take(i + 1).drop_last() =~= all.take(i as int));
        match &probed[i] {
            Some(info) => {
                let number = (i % 256) as u8;
                rows.push(TableDisplayInfo::new(number, info.duplicate()));
                assert(rows.deep_view() =~= before.push(
                    TableDisplayInfoView { number: number_at(i as int), info: info@ },
                ));
            },
            None => {},
        }
        i = i + 1;
    }
    assert(all.take(i as int) =~= all);
    rows
}

/// What it takes to make the monitor with the number `monitor`, one of
/// `held` enumerated monitors, show `input`: one write to the input-select
/// register of the monitor at that position. A number that none of the
/// held monitors has is refused.
pub fn do_switch(held: usize, monitor: u8, input: InputSource) -> (plan: Result<
    RegisterWrite,
    SwitchError,
>)
    ensures
        monitor < held ==> plan == Ok::<RegisterWrite, SwitchError>(
            RegisterWrite {
                position: monitor as usize,
                register: INPUT_SELECT_REGISTER,
                value: input.spec_code(),
            },
        ),
        monitor >= held ==> plan == Err::<RegisterWrite, SwitchError>(
            SwitchError::MonitorGone { monitor },
        ),
{
    if (monitor as usize) < held {
        Ok(
            RegisterWrite {
                position: monitor as usize,
                register: INPUT_SELECT_REGISTER,
                value: input.code(),
            },
        )
    } else {
        Err(SwitchError::MonitorGone { monitor })
    }
}

/// What the worker does next.
#[derive(Debug, PartialEq, Eq)]
pub enum WorkerAction {
    /// Enumerate the monitors, probe each, and hand the outcome to
    /// `Worker::on_enumerated`.
    Enumerate,
    /// Perform this write and hand the outcome to `Worker::on_written`.
    Write(RegisterWrite),
    /// Answer the request with this failure.
    Refuse(BackgroundError),
    /// Stop without an answer: the request cannot be served.
    Terminate,
}

/// A `WorkerAction` as plain values.
pub enum WorkerActionView {
    Enumerate,
    Write(RegisterWrite),
    Refuse(Seq<char>),
    Terminate,
}

impl View for WorkerAction {
    type V = WorkerActionView;

    open spec fn view(&self) -> WorkerActionView {
        match self {
            WorkerAction::Enumerate => WorkerActionView::Enumerate,
            WorkerAction::Write(write) => WorkerActionView::Write(*write),
            WorkerAction::Refuse(error) => WorkerActionView::Refuse(error@),
            WorkerAction::Terminate => WorkerActionView::Terminate,
        }
    }
}

/// For each position of an enumeration, whether the probe of the monitor
/// there succeeded.
pub open spec fn usable(probed: Seq<Option<MonitorInfoView>>) -> Seq<bool> {
    Seq::new(probed.len(), |p: int| probed[p] is Some)
}

/// The worker holds a usable monitor with the number `monitor`: it has
/// enumerated, the number is a position of the latest enumeration, and the
/// probe of the monitor there succeeded.
pub open spec fn holds(held: Option<Seq<bool>>, monitor: u8) -> bool {
    held matches Some(flags) && monitor < flags.len() && flags[monitor as int]
}

/// What a worker does on `request` that holds, for each position of its
/// latest enumeration, whether the probe there succeeded. Detection is
/// always undertaken. A switch needs an enumeration: a worker that never
/// made one stops. One that has writes the register of the monitor asked
/// for if it holds that monitor, and refuses the number if not, be it
/// beyond the enumeration or that of a monitor whose probe failed.
pub open spec fn planned(held: Option<Seq<bool>>, request: Request) -> WorkerActionView {
    match request {
        Request::Detect => WorkerActionView::Enumerate,
        Request::Switch { monitor, input } => if held is None {
            WorkerActionView::Terminate
        } else if holds(held, monitor) {
            WorkerActionView::Write(
                RegisterWrite {
                    position: monitor as usize,
                    register: INPUT_SELECT_REGISTER,
                    value: input.spec_code(),
                },
            )
        } else {
            WorkerActionView::Refuse(gone_text(monitor))
        },
    }
}

/// Every request is answered, but for one case: a switch that reaches a
/// worker that has never enumerated makes it stop. Once the worker holds
/// an enumeration, be it empty, it answers every request.
pub proof fn lemma_worker_answers_once_it_has_enumerated(
    held: Option<Seq<bool>>,
    request: Request,
)
    ensures
        planned(held, request) is Terminate <==> request is Switch && held is None,
        request is Detect ==> planned(held, request) is Enumerate,
{
}

/// A monitor whose probe succeeded has a row in `surviving`, under the
/// number of its position.
pub proof fn lemma_surviving_lists_every_success(probed: Seq<Option<MonitorInfoView>>, p: int)
    requires
        0 <= p < probed.len(),
        probed[p] is Some,
    ensures
        exists|k: int|
            0 <= k < surviving(probed).len() && #[trigger] surviving(probed)[k].number
                == number_at(p),
    decreases probed.len(),
{
    let earlier = surviving(probed.drop_last());
    if p < probed.len() - 1 {
        lemma_surviving_lists_every_success(probed.drop_last(), p);
        let k = choose|k: int|
            0 <= k < earlier.len() && #[trigger] earlier[k].number == number_at(p);
        assert(surviving(probed)[k].number == number_at(p));
    } else {
        assert(surviving(probed)[earlier.len() as int].number == number_at(p));
    }
}

/// Where no more than 256 monitors were enumerated, the worker writes on
/// a switch exactly if the answer to the detection lists a monitor with
/// that number, and refuses the number as gone if it does not: beyond the
/// enumeration, or that of a monitor whose probe failed.
pub proof fn lemma_switch_is_written_for_listed_monitors_only(
    probed: Seq<Option<MonitorInfoView>>,
    monitor: u8,
    input: InputSource,
)
    requires
        probed.len() <= 256,
    ensures
        holds(Some(usable(probed)), monitor) <==> (exists|k: int|
            0 <= k < surviving(probed).len() && #[trigger] surviving(probed)[k].number == monitor),
        planned(Some(usable(probed)), Request::Switch { monitor, input }) is Write <==> holds(
            Some(usable(probed)),
            monitor,
        ),
        !holds(Some(usable(probed)), monitor) ==> planned(
            Some(usable(probed)),
            Request::Switch { monitor, input },
        ) == WorkerActionView::Refuse(gone_text(monitor)),
{
    if holds(Some(usable(probed)), monitor) {
        lemma_surviving_lists_every_success(probed, monitor as int);
    }
    if exists|k: int|
        0 <= k < surviving(probed).len() && #[trigger] surviving(probed)[k].number == monitor {
        let k = choose|k: int|
            0 <= k < surviving(probed).len() && #[trigger] surviving(probed)[k].number == monitor;
        lemma_surviving_numbers_are_positions(probed, k);
    }
}

/// The state of the worker: for each position of the latest enumeration,
/// whether the probe of the monitor there succeeded, once there has been
/// an enumeration.
#[derive(Debug)]
pub struct Worker {
    held: Option<Vec<bool>>,
}

impl Worker {
    /// For each position of the latest enumeration, whether the worker
    /// holds the monitor there as usable; `None` before the first
    /// enumeration.
    pub closed spec fn held(&self) -> Option<Seq<bool>> {
        match self.held {
            Some(flags) => Some(flags@),
            None => None,
        }
    }

    /// A worker that has not enumerated yet.
    pub fn new() -> (worker: Worker)
        ensures
            worker.held() is None,
    {
        Worker { held: None }
    }

    /// Whether the worker has enumerated yet.
    pub fn has_enumerated(&self) -> (enumerated: bool)
        ensures
            enumerated == self.held() is Some,
    {
        self.held.is_some()
    }

    /// Whether the worker holds a usable monitor with the number
    /// `monitor`.
    pub fn holds(&self, monitor: u8) -> (held: bool)
        ensures
            held == holds(self.held(), monitor),
    {
        match &self.held {
            Some(flags) => (monitor as usize) < flags.len() && flags[monitor as usize],
            None => false,
        }
    }

    /// Decides what to do on `request`.
    pub fn on_command(&self, request: Request) -> (action: WorkerAction)
        ensures
            action@ == planned(self.held(), request),
    {
        match request {
            Request::Detect => WorkerAction::Enumerate,
            Request::Switch { monitor, input } => match &self.held {
                None => WorkerAction::Terminate,
                Some(flags) => match do_switch(flags.len(), monitor, input) {
                    Ok(write) => if flags[write.position] {
                        WorkerAction::Write(write)
                    } else {
                        WorkerAction::Refuse(SwitchError::MonitorGone { monitor }.into_background())
                    },
                    Err(error) => WorkerAction::Refuse(error.into_background()),
                },
            },
        }
    }

    /// Takes in a fresh enumeration and gives the answer to the detection:
    /// from now on the worker holds the monitors whose probe succeeded,
    /// each at its position in the enumeration, and the answer lists
    /// them.
    pub fn on_enumerated(&mut self, probed: &Vec<Option<MonitorInfo>>) -> (reply: Vec<
        TableDisplayInfo,
    >)
        ensures
            final(self).held() == Some(Seq::new(probed@.len(), |p: int| probed@[p] is Some)),
            final(self).held() == Some(usable(probed.deep_view())),
            reply.deep_view() == surviving(probed.deep_view()),
    {
        let mut flags: Vec<bool> = Vec::new();
        let mut i: usize = 0;
        while i < probed.len()
            invariant
                i <= probed@.len(),
                flags@.len() == i,
                forall|p: int| 0 <= p < i ==> #[trigger] flags@[p] == (probed@[p] is Some),
            decreases probed@.len() - i,
        {
            flags.push(probed[i].is_some());
            i = i + 1;
        }
        assert(flags@ =~= Seq::new(probed@.len(), |p: int| probed@[p] is Some));
        assert(flags@ =~= usable(probed.deep_view()));
        self.held = Some(flags);
        collect_display_info(probed)
    }

    /// Gives the answer to a switch after the write: success, or the
    /// cause of the failure as the message.
    pub fn on_written(outcome: Result<(), String>) -> (reply: SwitchReply)
        ensures
            switch_reply_view(reply) == (match outcome {
                Ok(_) => Ok::<(), Seq<char>>(()),
                Err(cause) => Err::<(), Seq<char>>(cause@),
            }),
    {
        match outcome {
            Ok(_) => Ok(()),
            Err(cause) => Err(SwitchError::WriteFailed { cause }.into_background()),
        }
    }
}

} // verus!
