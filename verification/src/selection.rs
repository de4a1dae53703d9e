use crate::display::{TableDisplayInfo, TableDisplayInfoView};
use crate::input_source::InputSource;
use crate::position_map::{is_last_position, is_position_map, listed, numbers, position_map};
use vstd::prelude::*;

verus! {

/// What the user has chosen, and what there is to choose from: the
/// monitors of one detection batch, the number of the chosen monitor and
/// the chosen input source.
#[derive(Debug)]
pub struct Selection {
    displays: Vec<TableDisplayInfo>,
    displays_map: Vec<usize>,
    monitor_select: u8,
    input_select: InputSource,
}

/// A `Selection` as plain values.
pub struct SelectionView {
    /// The monitors of the batch, in its order.
    pub displays: Seq<TableDisplayInfoView>,
    /// The number of the chosen monitor.
    pub monitor: u8,
    /// The chosen input source.
    pub input: InputSource,
}

/// The last position at which the number `d` stands among `numbers`.
pub open spec fn last_position(numbers: Seq<u8>, d: int) -> int {
    choose|p: int| is_last_position(numbers, d, p)
}

impl SelectionView {
    /// There is a monitor to choose, and the chosen number is that of a
    /// monitor of the batch.
    pub open spec fn valid(self) -> bool {
        &&& self.displays.len() > 0
        &&& listed(numbers(self.displays), self.monitor as int)
    }

    /// The selection that a batch starts with: its first monitor and the
    /// first input source.
    pub open spec fn fresh(batch: Seq<TableDisplayInfoView>) -> SelectionView {
        SelectionView { displays: batch, monitor: batch[0].number, input: InputSource::spec_first() }
    }

    /// The position of the chosen monitor in the batch.
    pub open spec fn selected_position(self) -> int {
        last_position(numbers(self.displays), self.monitor as int)
    }

    /// The chosen monitor.
    pub open spec fn selected(self) -> TableDisplayInfoView {
        self.displays[self.selected_position()]
    }

    /// The selection after the user asked for the monitor with the number
    /// `monitor`: that monitor is chosen if the batch has it; otherwise
    /// nothing changes.
    pub open spec fn with_monitor(self, monitor: u8) -> SelectionView {
        if listed(numbers(self.displays), monitor as int) {
            SelectionView { monitor, ..self }
        } else {
            self
        }
    }

    /// The selection after the user asked for the input source `input`.
    pub open spec fn with_input(self, input: InputSource) -> SelectionView {
        SelectionView { input, ..self }
    }
}

/// A number that the batch holds has exactly one last position.
pub proof fn lemma_last_position(numbers: Seq<u8>, d: int, p: int)
    requires
        is_last_position(numbers, d, p),
    ensures
        last_position(numbers, d) == p,
{
    let q = last_position(numbers, d);
    assert(is_last_position(numbers, d, q));
}

/// The chosen monitor of a valid selection is one of the batch and has
/// the chosen number.
pub proof fn lemma_selected_is_chosen(s: SelectionView)
    requires
        s.valid(),
    ensures
        0 <= s.selected_position() < s.displays.len(),
        s.selected().number == s.monitor,
{
    let nums = numbers(s.displays);
    let d = s.monitor as int;
    let w = choose|i: int| 0 <= i < nums.len() && #[trigger] nums[i] == d;
    lemma_some_last_position(nums, d, w);
}

/// A number that stands at position `w` has a last position.
proof fn lemma_some_last_position(numbers: Seq<u8>, d: int, w: int)
    requires
        0 <= w < numbers.len(),
        numbers[w] == d,
    ensures
        exists|p: int| is_last_position(numbers, d, p),
    decreases numbers.len() - w,
{
    if exists|j: int| w < j < numbers.len() && #[trigger] numbers[j] == d {
        let j = choose|j: int| w < j < numbers.len() && #[trigger] numbers[j] == d;
        lemma_some_last_position(numbers, d, j);
    } else {
        assert(is_last_position(numbers, d, w));
    }
}

impl View for Selection {
    type V = SelectionView;

    closed spec fn view(&self) -> SelectionView {
        SelectionView {
            displays: self.displays.deep_view(),
            monitor: self.monitor_select,
            input: self.input_select,
        }
    }
}

impl Selection {
    #[verifier::type_invariant]
    spec fn well_formed(&self) -> bool {
        &&& self.displays@.len() > 0
        &&& is_position_map(numbers(self.displays.deep_view()), self.displays_map@)
        &&& listed(numbers(self.displays.deep_view()), self.monitor_select as int)
    }

    /// The selection that a batch starts with: its first monitor and the
    /// first input source. An empty batch has none.
    pub fn fresh(batch: Vec<TableDisplayInfo>) -> (selection: Option<Selection>)
        ensures
            batch@.len() == 0 ==> selection is None,
            batch@.len() > 0 ==> selection is Some && selection->0@ == SelectionView::fresh(
                batch.deep_view(),
            ) && selection->0@.valid(),
    {
        if batch.len() == 0 {
            return None;
        }
        let displays_map = position_map(&batch);
        let monitor_select = batch[0].number;
        proof {
            let nums = numbers(batch.deep_view());
            assert(nums[0] == monitor_select);
        }
        Some(
            Selection {
                displays: batch,
                displays_map,
                monitor_select,
                input_select: InputSource::default(),
            },
        )
    }

    /// The monitors to choose from.
    pub fn displays(&self) -> (displays: &Vec<TableDisplayInfo>)
        ensures
            displays.deep_view() == self@.displays,
            self@.valid(),
    {
        proof {
            use_type_invariant(self);
        }
        &self.displays
    }

    /// The table that leads from the number of a monitor to its position
    /// among `displays`.
    pub fn displays_map(&self) -> (map: &Vec<usize>)
        ensures
            is_position_map(numbers(self@.displays), map@),
    {
        proof {
            use_type_invariant(self);
        }
        &self.displays_map
    }

    /// The number of the chosen monitor.
    pub fn monitor_select(&self) -> (monitor: u8)
        ensures
            monitor == self@.monitor,
            self@.valid(),
    {
        proof {
            use_type_invariant(self);
        }
        self.monitor_select
    }

    /// The chosen input source.
    pub fn input_select(&self) -> (input: InputSource)
        ensures
            input == self@.input,
    {
        self.input_select
    }

    /// Whether the batch has a monitor with the number `monitor`.
    pub fn offers(&self, monitor: u8) -> (offered: bool)
        ensures
            offered == listed(numbers(self@.displays), monitor as int),
    {
        proof {
            use_type_invariant(self);
        }
        let ghost nums = numbers(self.displays.deep_view());
        if (monitor as usize) < self.displays_map.len() {
            let position = self.displays_map[monitor as usize];
            let found = position < self.displays.len() && self.displays[position].number
                == monitor;
            assert(found ==> nums[position as int] == monitor);
            found
        } else {
            false
        }
    }

    /// The chosen monitor.
    pub fn selected(&self) -> (display: &TableDisplayInfo)
        ensures
            display@ == self@.selected(),
            display@.number == self@.monitor,
    {
        proof {
            use_type_invariant(self);
        }
        let ghost nums = numbers(self.displays.deep_view());
        let ghost d = self.monitor_select as int;
        proof {
            lemma_last_position(nums, d, self.displays_map@[d] as int);
        }
        let position = self.displays_map[self.monitor_select as usize];
        &self.displays[position]
    }

    /// Chooses the monitor with the number `monitor`, if the batch has
    /// one; tells whether it has.
    pub fn select_monitor(&mut self, monitor: u8) -> (chosen: bool)
        ensures
            chosen == listed(numbers(old(self)@.displays), monitor as int),
            final(self)@ == old(self)@.with_monitor(monitor),
            final(self)@.valid(),
    {
        proof {
            use_type_invariant(&*self);
        }
        if self.offers(monitor) {
            self.monitor_select = monitor;
            true
        } else {
            false
        }
    }

    /// Chooses the input source `input`.
    pub fn select_input(&mut self, input: InputSource)
        ensures
            final(self)@ == old(self)@.with_input(input),
            final(self)@.valid(),
    {
        proof {
            use_type_invariant(&*self);
        }
        self.input_select = input;
    }
}

} // verus!
