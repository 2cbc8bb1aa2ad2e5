//! How build messages are marked: each message carries a severity, shown as a
//! fixed-width label in front of it.

use vstd::prelude::*;
use crate::text::text_eq;

verus! {

/// The kind of a build message.
#[derive(Clone, Copy, Debug, PartialEq, Eq, Structural)]
pub enum Severity {
    Error,
    Success,
    Indexing,
    Generating,
    Completed,
    Plain,
}

/// The label shown in front of a message of severity `s`.
pub open spec fn label_of(s: Severity) -> Seq<char> {
    match s {
        Severity::Error => "Error      "@,
        Severity::Success => "Success    "@,
        Severity::Indexing => "Indexing   "@,
        Severity::Generating => "Generating "@,
        Severity::Completed => "Completed  "@,
        Severity::Plain => ""@,
    }
}

/// The severity that a one-letter message code names.
pub open spec fn severity_named(code: Seq<char>) -> Severity {
    if code == "f"@ {
        Severity::Error
    } else if code == "s"@ {
        Severity::Success
    } else if code == "i"@ {
        Severity::Indexing
    } else if code == "g"@ {
        Severity::Generating
    } else if code == "c"@ {
        Severity::Completed
    } else {
        Severity::Plain
    }
}

impl Severity {
    /// The severity of a message code: `f` error, `s` success, `i` indexing,
    /// `g` generating, `c` completed; any other code is plain.
    pub fn from_code(code: &str) -> (r: Severity)
        ensures
            r == severity_named(code@),
    {
        if text_eq(code, "f") {
            Severity::Error
        } else if text_eq(code, "s") {
            Severity::Success
        } else if text_eq(code, "i") {
            Severity::Indexing
        } else if text_eq(code, "g") {
            Severity::Generating
        } else if text_eq(code, "c") {
            Severity::Completed
        } else {
            Severity::Plain
        }
    }

    /// The label shown in front of a message of this severity.
    pub fn label(&self) -> (r: String)
        ensures
            r@ == label_of(*self),
    {
        match self {
            Severity::Error => String::from_str("Error      "),
            Severity::Success => String::from_str("Success    "),
            Severity::Indexing => String::from_str("Indexing   "),
            Severity::Generating => String::from_str("Generating "),
            Severity::Completed => String::from_str("Completed  "),
            Severity::Plain => String::from_str(""),
        }
    }

    /// The terminal title that a message of this severity sets, if any.
    pub fn title(&self) -> (r: Option<String>)
        ensures
            *self == Severity::Error ==> r.deep_view() == Some("Wing Error"@),
            *self == Severity::Indexing ==> r.deep_view() == Some("Indexing"@),
            *self != Severity::Error && *self != Severity::Indexing ==> r is None,
    {
        match self {
            Severity::Error => Some(String::from_str("Wing Error")),
            Severity::Indexing => Some(String::from_str("Indexing")),
            _ => None,
        }
    }
}

} // verus!
