//! Decisions of a small HTTP service that turns an uploaded `.acsm` license into
//! an e-book: what to do at startup, which commands to run for a download
//! request, and the exact replies it sends. The I/O is done by the caller.
use vstd::prelude::*;

pub mod command;
pub mod download;
pub mod page;
pub mod reply;
pub mod startup;

verus! {

} // verus!
