//! The closed vocabulary of severities a variant can be tagged with, the
//! parsing of a severity name, and the two meanings of a severity: the source
//! text of a dispatch arm and the value that arm returns at run time.

use vstd::prelude::*;

verus! {

/// A severity, as named in a `level(...)` attribute. `No` means the variant is
/// suppressed: it is never reported, and its dispatch arm returns no level.
#[derive(Clone, Copy, Debug, PartialEq, Eq, Structural)]
pub enum Level {
    No,
    Trace,
    Debug,
    Info,
    Warn,
    Error,
}

/// The severity a name stands for, or `None` when the name is not one of the
/// six recognized spellings. The vocabulary is case-exact: no other spelling
/// is ever accepted.
pub open spec fn spec_level_of_name(s: Seq<char>) -> Option<Level> {
    if s == "No"@ {
        Some(Level::No)
    } else if s == "Trace"@ {
        Some(Level::Trace)
    } else if s == "Debug"@ {
        Some(Level::Debug)
    } else if s == "Info"@ {
        Some(Level::Info)
    } else if s == "Warn"@ {
        Some(Level::Warn)
    } else if s == "Error"@ {
        Some(Level::Error)
    } else {
        None
    }
}

/// What the generated dispatch arm for a leveled variant returns at run time:
/// nothing for a suppressed variant, the declared severity otherwise.
pub open spec fn spec_reported(l: Level) -> Option<Level> {
    if l == Level::No {
        None
    } else {
        Some(l)
    }
}

/// The expression emitted as the body of a dispatch arm for a leveled variant.
pub open spec fn spec_level_expr(l: Level) -> Seq<char> {
    match l {
        Level::No => "None"@,
        Level::Trace => "Some(log::Level::Trace)"@,
        Level::Debug => "Some(log::Level::Debug)"@,
        Level::Info => "Some(log::Level::Info)"@,
        Level::Warn => "Some(log::Level::Warn)"@,
        Level::Error => "Some(log::Level::Error)"@,
    }
}

impl Level {
    /// Parses a severity name from a tag argument.
    pub fn from_ident(name: &String) -> (r: Option<Level>)
        ensures
            r == spec_level_of_name(name@),
    {
        let s_no: String = String::from_str("No");
        let s_trace: String = String::from_str("Trace");
        let s_debug: String = String::from_str("Debug");
        let s_info: String = String::from_str("Info");
        let s_warn: String = String::from_str("Warn");
        let s_error: String = String::from_str("Error");
        if *name == s_no {
            Some(Level::No)
        } else if *name == s_trace {
            Some(Level::Trace)
        } else if *name == s_debug {
            Some(Level::Debug)
        } else if *name == s_info {
            Some(Level::Info)
        } else if *name == s_warn {
            Some(Level::Warn)
        } else if *name == s_error {
            Some(Level::Error)
        } else {
            None
        }
    }

    /// The run-time meaning of this severity: what a dispatch arm generated
    /// from it returns.
    pub fn reported(&self) -> (r: Option<Level>)
        ensures
            r == spec_reported(*self),
    {
        match self {
            Level::No => None,
            Level::Trace => Some(Level::Trace),
            Level::Debug => Some(Level::Debug),
            Level::Info => Some(Level::Info),
            Level::Warn => Some(Level::Warn),
            Level::Error => Some(Level::Error),
        }
    }

    /// The source text of the expression a dispatch arm returns for this
    /// severity.
    pub fn to_expr(&self) -> (r: String)
        ensures
            r@ == spec_level_expr(*self),
    {
        match self {
            Level::No => String::from_str("None"),
            Level::Trace => String::from_str("Some(log::Level::Trace)"),
            Level::Debug => String::from_str("Some(log::Level::Debug)"),
            Level::Info => String::from_str("Some(log::Level::Info)"),
            Level::Warn => String::from_str("Some(log::Level::Warn)"),
            Level::Error => String::from_str("Some(log::Level::Error)"),
        }
    }
}

} // verus!
