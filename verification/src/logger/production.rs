//! The backend of the production profile: records leave the process.

use crate::logger::{Persist, PersistView};
use vstd::prelude::*;

verus! {

/// The backend that hands records on to a sink outside the process.
#[derive(Clone, Copy, Debug, PartialEq, Eq)]
pub struct ProductionLogger;

impl ProductionLogger {
    /// The backend; it holds nothing.
    pub fn open() -> (logger: ProductionLogger)
        ensures
            logger == ProductionLogger,
    {
        ProductionLogger
    }

    /// What saving `message` asks for: that it be forwarded as it is.
    pub fn save(&self, message: &String) -> (persist: Persist)
        ensures
            persist@ == (PersistView::Forward { data: message@ }),
    {
        Persist::Forward { data: message.clone() }
    }
}

} // verus!
