use crate::input_source::InputSource;
use crate::text::{decimal, decimal_digits};
use vstd::prelude::*;
use vstd::string::StringExecFns;

verus! {

/// What the coordinator asks of the worker.
#[derive(Clone, Copy, Debug, PartialEq, Eq, Structural)]
pub enum Request {
    /// Enumerate the monitors anew and probe each of them.
    Detect,
    /// Make the monitor with this number show this input source.
    Switch { monitor: u8, input: InputSource },
}

impl Request {
    /// The request in words: `DetectMonitors`, or `SwitchMonitor` with the
    /// monitor's number and the name of the input source in parentheses.
    pub open spec fn spec_describe(self) -> Seq<char> {
        match self {
            Request::Detect => "DetectMonitors"@,
            Request::Switch { monitor, input } => "SwitchMonitor ("@ + decimal_digits(
                monitor as nat,
            ) + ", "@ + input.spec_name() + ")"@,
        }
    }

    /// The request in words.
    pub fn describe(&self) -> (text: String)
        ensures
            text@ == self.spec_describe(),
    {
        match self {
            Request::Detect => "DetectMonitors".to_owned(),
            Request::Switch { monitor, input } => {
                let mut text = "SwitchMonitor (".to_owned();
                let number = decimal(*monitor as u16);
                text.append(number.as_str());
                text.append(", ");
                text.append(input.name());
                text.append(")");
                text
            },
        }
    }
}

/// Why the worker could not do what it was asked, in words.
#[derive(Debug, PartialEq, Eq)]
pub struct BackgroundError {
    pub msg: String,
}

impl View for BackgroundError {
    type V = Seq<char>;

    open spec fn view(&self) -> Seq<char> {
        self.msg@
    }
}

impl DeepView for BackgroundError {
    type V = Seq<char>;

    open spec fn deep_view(&self) -> Seq<char> {
        self.msg@
    }
}

/// What one look into a reply slot finds.
#[derive(Debug, PartialEq, Eq)]
pub enum Polled<T> {
    /// The reply has arrived, and this is it.
    Delivered(T),
    /// No reply yet; one may still come.
    Pending,
    /// No reply will come: the worker gave the slot up without an answer,
    /// or the reply was taken before.
    Disconnected,
}

/// What the worker answers to `Request::Switch`.
pub type SwitchReply = Result<(), BackgroundError>;

/// A `SwitchReply` as plain values: the failure is its message.
pub open spec fn switch_reply_view(reply: SwitchReply) -> Result<(), Seq<char>> {
    match reply {
        Ok(_) => Ok(()),
        Err(e) => Err(e@),
    }
}

} // verus!
