use crate::text::{decimal, decimal_digits};
use vstd::prelude::*;
use vstd::string::StringExecFns;

verus! {

/// What is known of one monitor: the backend that reaches it, the
/// backend's identifier for it, and what the monitor tells of itself.
#[derive(Debug, PartialEq, Eq)]
pub struct MonitorInfo {
    /// Name of the backend or driver that talks to the monitor.
    pub backend: String,
    /// Identifier of the monitor, in the backend's own format.
    pub id: String,
    /// Three-letter identifier of the manufacturer.
    pub manufacturer_id: Option<String>,
    /// Number of the product model.
    pub model_id: Option<u16>,
    /// Name of the model.
    pub model_name: Option<String>,
}

/// A `MonitorInfo` as plain values.
pub struct MonitorInfoView {
    pub backend: Seq<char>,
    pub id: Seq<char>,
    pub manufacturer_id: Option<Seq<char>>,
    pub model_id: Option<u16>,
    pub model_name: Option<Seq<char>>,
}

/// The text of an optional string, as plain values.
pub open spec fn text_of(o: Option<String>) -> Option<Seq<char>> {
    match o {
        Some(s) => Some(s@),
        None => None,
    }
}

/// The text shown where a monitor does not tell a value.
pub open spec fn unknown_text() -> Seq<char> {
    "unknown"@
}

/// The text of `o`, or `unknown_text` where there is none.
pub open spec fn or_unknown(o: Option<Seq<char>>) -> Seq<char> {
    match o {
        Some(s) => s,
        None => unknown_text(),
    }
}

impl View for MonitorInfo {
    type V = MonitorInfoView;

    open spec fn view(&self) -> MonitorInfoView {
        MonitorInfoView {
            backend: self.backend@,
            id: self.id@,
            manufacturer_id: text_of(self.manufacturer_id),
            model_id: self.model_id,
            model_name: text_of(self.model_name),
        }
    }
}

impl DeepView for MonitorInfo {
    type V = MonitorInfoView;

    open spec fn deep_view(&self) -> MonitorInfoView {
        self@
    }
}

impl MonitorInfoView {
    /// The words after backend and identifier in `summary`: the
    /// manufacturer, where known, then the model's name or, failing that,
    /// its number.
    pub open spec fn summary_tail(self) -> Seq<char> {
        let maker = match self.manufacturer_id {
            Some(s) => seq![' '] + s,
            None => Seq::empty(),
        };
        let model = match self.model_name {
            Some(s) => seq![' '] + s,
            None => match self.model_id {
                Some(n) => seq![' '] + decimal_digits(n as nat),
                None => Seq::empty(),
            },
        };
        maker + model
    }

    /// One line that identifies the monitor: backend, a colon, the
    /// identifier, then `summary_tail`.
    pub open spec fn summary(self) -> Seq<char> {
        self.backend + seq![':'] + self.id + self.summary_tail()
    }

    /// The label under which the monitor is offered for choice:
    /// manufacturer, model name, and the backend in parentheses.
    pub open spec fn choice_text(self) -> Seq<char> {
        or_unknown(self.manufacturer_id) + seq![' '] + or_unknown(self.model_name) + seq![' ', '(']
            + self.backend + seq![')']
    }
}

/// A copy of an optional text.
fn copy_of(o: &Option<String>) -> (c: Option<String>)
    ensures
        text_of(c) == text_of(*o),
{
    match o {
        Some(s) => Some(s.clone()),
        None => None,
    }
}

/// The text of `o`, or the text for an unknown value.
fn text_or_unknown(o: &Option<String>) -> (s: String)
    ensures
        s@ == or_unknown(text_of(*o)),
{
    match o {
        Some(t) => t.clone(),
        None => "unknown".to_owned(),
    }
}

impl MonitorInfo {
    /// The description of a monitor of which only backend and identifier
    /// are known.
    pub fn new(backend: String, id: String) -> (info: MonitorInfo)
        ensures
            info@ == (MonitorInfoView {
                backend: backend@,
                id: id@,
                manufacturer_id: None,
                model_id: None,
                model_name: None,
            }),
    {
        MonitorInfo { backend, id, manufacturer_id: None, model_id: None, model_name: None }
    }

    /// A copy with the same contents.
    pub fn duplicate(&self) -> (copy: MonitorInfo)
        ensures
            copy@ == self@,
    {
        MonitorInfo {
            backend: self.backend.clone(),
            id: self.id.clone(),
            manufacturer_id: copy_of(&self.manufacturer_id),
            model_id: self.model_id,
            model_name: copy_of(&self.model_name),
        }
    }

    /// One line that identifies the monitor.
    pub fn summary(&self) -> (s: String)
        ensures
            s@ == self@.summary(),
    {
        proof {
            reveal_strlit(":");
            reveal_strlit(" ");
        }
        let mut s = self.backend.clone();
        s.append(":");
        s.append(self.id.as_str());
        match &self.manufacturer_id {
            Some(m) => {
                s.append(" ");
                s.append(m.as_str());
            },
            None => {},
        }
        match &self.model_name {
            Some(m) => {
                s.append(" ");
                s.append(m.as_str());
            },
            None => match self.model_id {
                Some(n) => {
                    s.append(" ");
                    let digits = decimal(n);
                    s.append(digits.as_str());
                },
                None => {},
            },
        }
        s
    }

    /// The label under which the monitor is offered for choice.
    pub fn choice_text(&self) -> (s: String)
        ensures
            s@ == self@.choice_text(),
    {
        proof {
            reveal_strlit(" ");
            reveal_strlit(" (");
            reveal_strlit(")");
        }
        let mut s = text_or_unknown(&self.manufacturer_id);
        s.append(" ");
        let model = text_or_unknown(&self.model_name);
        s.append(model.as_str());
        s.append(" (");
        s.append(self.backend.as_str());
        s.append(")");
        s
    }
}

/// One row of the monitor table: a monitor and the number under which it
/// is listed and chosen.
#[derive(Debug, PartialEq, Eq)]
pub struct TableDisplayInfo {
    /// The number of the monitor within its detection batch.
    pub number: u8,
    /// What is known of the monitor.
    pub info: MonitorInfo,
}

/// A `TableDisplayInfo` as plain values.
pub struct TableDisplayInfoView {
    pub number: u8,
    pub info: MonitorInfoView,
}

impl View for TableDisplayInfo {
    type V = TableDisplayInfoView;

    open spec fn view(&self) -> TableDisplayInfoView {
        TableDisplayInfoView { number: self.number, info: self.info@ }
    }
}

impl DeepView for TableDisplayInfo {
    type V = TableDisplayInfoView;

    open spec fn deep_view(&self) -> TableDisplayInfoView {
        self@
    }
}

/// The number of columns of the monitor table.
pub const COLUMNS: usize = 5;

/// The headings of the monitor table.
pub open spec fn spec_headers() -> Seq<Seq<char>> {
    seq!["No."@, "Backend"@, "Display ID"@, "Manufacturer ID"@, "Model Name"@]
}

impl TableDisplayInfoView {
    /// The cells of the row, one for each heading: the number in decimal,
    /// the backend, the identifier, the manufacturer and the model name,
    /// the last two replaced by `unknown_text` where the monitor does not
    /// tell them.
    pub open spec fn fields(self) -> Seq<Seq<char>> {
        seq![
            decimal_digits(self.number as nat),
            self.info.backend,
            self.info.id,
            or_unknown(self.info.manufacturer_id),
            or_unknown(self.info.model_name),
        ]
    }
}

impl TableDisplayInfo {
    /// The row that lists `info` under `number`.
    pub fn new(number: u8, info: MonitorInfo) -> (row: TableDisplayInfo)
        ensures
            row.number == number,
            row.info == info,
    {
        TableDisplayInfo { number, info }
    }

    /// A copy that owns all of its contents.
    pub fn to_static(&self) -> (copy: TableDisplayInfo)
        ensures
            copy@ == self@,
    {
        TableDisplayInfo { number: self.number, info: self.info.duplicate() }
    }

    /// The cells of the row, one for each heading.
    pub fn fields(&self) -> (cells: Vec<String>)
        ensures
            cells.deep_view() == self@.fields(),
            cells@.len() == COLUMNS,
    {
        let mut cells: Vec<String> = Vec::new();
        cells.push(decimal(self.number as u16));
        cells.push(self.info.backend.clone());
        cells.push(self.info.id.clone());
        cells.push(text_or_unknown(&self.info.manufacturer_id));
        cells.push(text_or_unknown(&self.info.model_name));
        cells
    }

    /// The headings of the monitor table.
    pub fn headers() -> (cells: Vec<String>)
        ensures
            cells.deep_view() == spec_headers(),
            cells@.len() == COLUMNS,
    {
        let mut cells: Vec<String> = Vec::new();
        cells.push("No.".to_owned());
        cells.push("Backend".to_owned());
        cells.push("Display ID".to_owned());
        cells.push("Manufacturer ID".to_owned());
        cells.push("Model Name".to_owned());
        cells
    }
}

} // verus!
