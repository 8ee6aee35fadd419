//! Errors of the floating panel.

use vstd::prelude::*;
use vstd::string::StringExecFns;

verus! {

/// Why the panel could not be shown where it was asked for.
#[derive(Debug)]
pub enum Error {
    Panel,
    PanelNotFound(String),
    MonitorNotFound,
}

/// The text shown for a panel error.
pub open spec fn panel_error_message(error: Error) -> Seq<char> {
    match error {
        Error::Panel => "Unable to convert window to panel"@,
        Error::PanelNotFound(label) => "Unable to find panel: "@ + label@,
        Error::MonitorNotFound => "Monitor with cursor not found"@,
    }
}

impl Error {
    /// The text shown for this error.
    pub fn to_string(&self) -> (text: String)
        ensures
            text@ == panel_error_message(*self),
    {
        match self {
            Error::Panel => String::from_str("Unable to convert window to panel"),
            Error::PanelNotFound(label) => String::from_str("Unable to find panel: ").concat(
                label.as_str(),
            ),
            Error::MonitorNotFound => String::from_str("Monitor with cursor not found"),
        }
    }
}

} // verus!
