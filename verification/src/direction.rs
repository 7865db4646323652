//! The two directions: how a Stream got in, and how it goes out.
//!
//! The two are deliberately not the same three. A Stream can arrive by being
//! detected; it cannot depart that way, because nothing outside Xmip is
//! watching on Xmip's behalf. Collection replaces detection.

use vstd::prelude::*;

verus! {

/// How a Stream got into Xmip.
///
/// Three ways in, and only one of them is something turning up. A scheduled
/// pickup has no caller at all — Xmip is the client.
#[derive(Clone, Copy, Debug, PartialEq, Eq, Structural, Hash, PartialOrd, Ord)]
pub enum Arriving {
    /// Something connected and sent it.
    Pushed,
    /// Xmip was watching and it appeared. Nobody connected.
    Detected,
    /// A timer fired and Xmip went and fetched it.
    Scheduled,
}

/// The text an arrival is shown as.
pub open spec fn arriving_text(a: Arriving) -> Seq<char> {
    match a {
        Arriving::Pushed => "pushed"@,
        Arriving::Detected => "detected"@,
        Arriving::Scheduled => "scheduled"@,
    }
}

impl Arriving {
    /// The text this arrival is shown as.
    pub fn to_string(&self) -> (r: String)
        ensures
            r@ == arriving_text(*self),
    {
        match self {
            Arriving::Pushed => String::from_str("pushed"),
            Arriving::Detected => String::from_str("detected"),
            Arriving::Scheduled => String::from_str("scheduled"),
        }
    }
}

/// How a Stream leaves Xmip.
///
/// ```text
/// Pushed      Xmip connects and sends it
/// Collected   Xmip holds it and something comes and gets it
/// Scheduled   a timer fires and Xmip sends what has accumulated
/// ```
///
/// A pushed departure fails at Xmip and is Xmip's to retry; a collected one
/// waits, and its failure mode is nobody turning up.
#[derive(Clone, Copy, Debug, PartialEq, Eq, Structural, Hash, PartialOrd, Ord)]
pub enum Departing {
    /// Xmip connects and sends.
    Pushed,
    /// Xmip holds it and something comes and gets it. Xmip is the server, so
    /// it presents no identity: the collector does.
    Collected,
    /// A timer fires and Xmip sends what has accumulated.
    Scheduled,
}

/// The text a departure is shown as.
pub open spec fn departing_text(d: Departing) -> Seq<char> {
    match d {
        Departing::Pushed => "pushed"@,
        Departing::Collected => "collected"@,
        Departing::Scheduled => "scheduled"@,
    }
}

impl Departing {
    /// The text this departure is shown as.
    pub fn to_string(&self) -> (r: String)
        ensures
            r@ == departing_text(*self),
    {
        match self {
            Departing::Pushed => String::from_str("pushed"),
            Departing::Collected => String::from_str("collected"),
            Departing::Scheduled => String::from_str("scheduled"),
        }
    }
}

} // verus!
