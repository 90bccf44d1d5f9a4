//! Status codes and typed errors shared by the call, load and dump paths.

use vstd::prelude::*;

verus! {

/// Terminal status the machine reports for call and load operations: a small
/// closed taxonomy, carried across the C boundary as a numeric code.
#[derive(Clone, Copy, PartialEq, Eq, Structural, Debug)]
pub enum Status {
    Success,
    Yield,
    RuntimeError,
    SyntaxError,
    MemoryError,
    Error,
}

/// The numeric code the machine uses for each status.
pub open spec fn status_code(s: Status) -> int {
    match s {
        Status::Success => 0,
        Status::Yield => 1,
        Status::RuntimeError => 2,
        Status::SyntaxError => 3,
        Status::MemoryError => 4,
        Status::Error => 5,
    }
}

impl Status {
    /// The numeric code of this status, as the machine reports it.
    pub fn code(&self) -> (c: i32)
        ensures
            c == status_code(*self),
    {
        match self {
            Status::Success => 0,
            Status::Yield => 1,
            Status::RuntimeError => 2,
            Status::SyntaxError => 3,
            Status::MemoryError => 4,
            Status::Error => 5,
        }
    }

    /// Decodes a numeric code from the machine. Every code of the documented
    /// closed set yields its status; any other code yields nothing, so a
    /// caller sees an out-of-contract report instead of a misread one.
    pub fn from_code(c: i32) -> (r: Option<Status>)
        ensures
            r matches Some(s) ==> status_code(s) == c,
            0 <= c <= 5 ==> r is Some,
            !(0 <= c <= 5) ==> r is None,
    {
        match c {
            0 => Some(Status::Success),
            1 => Some(Status::Yield),
            2 => Some(Status::RuntimeError),
            3 => Some(Status::SyntaxError),
            4 => Some(Status::MemoryError),
            5 => Some(Status::Error),
            _ => None,
        }
    }
}

/// The numeric form loses nothing: no two statuses share a code, so
/// decoding the code of any status yields that status back.
pub proof fn lemma_status_codes_distinct(s: Status)
    ensures
        forall|r: Status| status_code(r) == status_code(s) ==> r == s,
{
}

/// Typed local errors of the adapters. A callback's own failure never becomes
/// one of these: it is raised inside the embedded language instead.
#[derive(Debug)]
pub enum LError {
    /// A protected call failed at runtime; the message stayed on the
    /// machine's own error channel.
    RuntimeError,
    /// The loader rejected the chunk, with its diagnostic text.
    SyntaxError(String),
    /// The machine ran out of memory during a load, with its diagnostic text.
    MemoryError(String),
    /// The serializer failed; it reports a numeric cause only, never text.
    DumpError(i32),
}

/// Selector for what the loader accepts: a precompiled chunk, source text,
/// or either.
#[derive(Clone, Copy, PartialEq, Eq, Structural, Debug)]
pub enum LoadMode {
    Any,
    Binary,
    Text,
}

/// The mode string the loader understands for each selector.
pub open spec fn mode_chars(m: LoadMode) -> Seq<char> {
    match m {
        LoadMode::Any => "bt"@,
        LoadMode::Binary => "b"@,
        LoadMode::Text => "t"@,
    }
}

impl LoadMode {
    /// The mode string passed through to the loader for this selector.
    pub fn mode_str(&self) -> (m: &'static str)
        ensures
            m@ == mode_chars(*self),
    {
        match self {
            LoadMode::Any => "bt",
            LoadMode::Binary => "b",
            LoadMode::Text => "t",
        }
    }
}

} // verus!
