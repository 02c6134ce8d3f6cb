//! Process-wide configuration, environment and path state, and the logging
//! facade that is driven by it.
//!
//! The functions here work on plain values. Reading files, the process
//! environment and the executable's location, and writing log lines, are left
//! to the caller, who hands the values in and carries the returned effects
//! out. The one thing that the library reads by itself is the clock.
//!
//! Each kind of state is made once and then shared: [`singleton::Singleton`]
//! is the slot that holds it, and the caller is the one who guards the slot.

use vstd::prelude::*;

pub mod config;
pub mod env;
pub mod logger;
pub mod path;
pub mod singleton;

verus! {

/// The sum of two sizes.
pub fn add(left: usize, right: usize) -> (sum: usize)
    requires
        left + right <= usize::MAX,
    ensures
        sum == left + right,
{
    left + right
}

} // verus!
