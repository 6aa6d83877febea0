//! Work handed to the background worker.

pub mod handler;

use crate::app::state::TermSize;
use crate::utils::ImagePath;
use vstd::prelude::*;

verus! {

/// What the worker needs to load one picture: the file, and the picture area
/// at the time of asking.
#[derive(Debug)]
pub struct WorkRequest {
    pub path: ImagePath,
    pub term_size: TermSize,
}

/// One piece of work for the background worker. The worker takes them in the
/// order in which they were queued and finishes each before the next.
#[derive(Debug)]
pub enum IoEvent {
    /// List the directory of this path and start browsing it.
    Initialize(String),
    /// Load and render this picture.
    LoadImage(WorkRequest),
}

} // verus!
