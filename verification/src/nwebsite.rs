//! The result of a whole-site crawl: its links and pages.
use crate::npage::NPage;
use vstd::prelude::*;

verus! {

/// Website main data handed to callers.
pub struct NWebsite {
    /// All of the website links.
    pub links: Vec<String>,
    /// The pages found.
    pub pages: Vec<NPage>,
}

} // verus!
