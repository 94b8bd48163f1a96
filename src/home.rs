//! Pages shared by every part of the site.

use vstd::prelude::*;

verus! {

/// The page shown when a requested record or path does not exist.
#[derive(Clone, Debug)]
pub struct NotFoundTemplate {}

impl NotFoundTemplate {
    /// The not-found page.
    pub fn new() -> (r: NotFoundTemplate) {
        NotFoundTemplate {  }
    }
}

} // verus!
