//! What a run is asked for on the command line, as far as it is a matter
//! of names.

use vstd::prelude::*;
use vstd::string::StringExecFns;

verus! {

/// The form in which a report is written.
#[derive(Clone, Copy, Debug, PartialEq, Eq, Structural)]
pub enum OutputFormat {
    Plain,
    Json,
}

/// The format that a name stands for: `json` for JSON, any other name for
/// plain text.
pub open spec fn format_of(name: Seq<char>) -> OutputFormat {
    if name == "json"@ {
        OutputFormat::Json
    } else {
        OutputFormat::Plain
    }
}

impl OutputFormat {
    /// The format that a name stands for.
    pub fn from_name(name: &String) -> (format: OutputFormat)
        ensures
            format == format_of(name@),
    {
        let json = String::from_str("json");
        if *name == json {
            OutputFormat::Json
        } else {
            OutputFormat::Plain
        }
    }
}

} // verus!
