//! The relay event: what one ingest adapter hands the router for one
//! inbound protocol line.

use vstd::prelude::*;

verus! {

/// One normalized inbound event. A chat line becomes `PrivMsg`; every other
/// protocol line becomes `Log` with a human-readable rendering.
#[derive(Debug, Clone, PartialEq)]
pub enum MessageReceived {
    PrivMsg { host: String, from: String, channel: String, message: String },
    Log { host: String, message: String },
}

} // verus!
