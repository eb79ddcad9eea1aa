//! What is told of a panic: where it came from and what it said.

use vstd::prelude::*;
use crate::text::{decimal, push_decimal};

verus! {

/// How much is told of a panic.
#[derive(Debug, Clone, Copy, PartialEq, Eq, Structural)]
pub enum PanicStyle {
    /// Everything, for the one who mends the program.
    Debug,
    /// A few words, for the one who uses it.
    Human,
}

impl PanicStyle {
    /// The style that the variable `RUST_BACKTRACE` asks for: `Debug` where
    /// it is set, whatever it holds, and `Human` where it is not.
    pub fn from_backtrace(value: Option<&str>) -> (r: PanicStyle)
        ensures
            r == (if value is Some {
                PanicStyle::Debug
            } else {
                PanicStyle::Human
            }),
    {
        match value {
            Some(_) => PanicStyle::Debug,
            None => PanicStyle::Human,
        }
    }
}

/// What is told of one panic.
#[derive(Debug, PartialEq, Eq)]
pub struct DumpData {
    pub origin: String,
    pub cause: String,
}

/// Where a panic came from, in words.
pub open spec fn origin_of(location: Option<(&str, u32)>) -> Seq<char> {
    match location {
        Some((file, line)) => "Panic occurred in file '"@ + file@ + "' at line "@ + decimal(
            line as nat,
        ),
        None => "Panic location unknown."@,
    }
}

/// What a panic said, or `Unknown` where it said nothing that is text.
pub open spec fn cause_of(message: Option<&str>) -> Seq<char> {
    match message {
        Some(words) => words@,
        None => "Unknown"@,
    }
}

/// Tells of a panic from its message, where it has one, and from the file and
/// line that it came from, where they are known.
pub fn handle_dump(message: Option<&str>, location: Option<(&str, u32)>) -> (r: DumpData)
    ensures
        r.origin@ == origin_of(location),
        r.cause@ == cause_of(message),
{
    let mut origin = String::new();
    let cause = match message {
        Some(m) => String::from_str(m),
        None => String::from_str("Unknown"),
    };
    match location {
        Some((file, line)) => {
            origin.append("Panic occurred in file '");
            origin.append(file);
            origin.append("' at line ");
            push_decimal(&mut origin, line);
        },
        None => {
            origin.append("Panic location unknown.");
        },
    }
    DumpData { origin, cause }
}

impl DumpData {
    /// The report as it is shown.
    pub open spec fn text(self) -> Seq<char> {
        "\n\norigin: "@ + self.origin@ + "\ncause: "@ + self.cause@ + "\n"@
    }

    /// The report as it is shown: the origin and the cause, each on a line of
    /// its own.
    pub fn report(&self) -> (r: String)
        ensures
            r@ == self.text(),
    {
        let mut r = String::from_str("\n\norigin: ");
        r.append(self.origin.as_str());
        r.append("\ncause: ");
        r.append(self.cause.as_str());
        r.append("\n");
        r
    }
}

} // verus!
