//! The two-line display as the aggregator sees it.
use vstd::prelude::*;

verus! {

/// A display that shows two lines of text.
pub trait TwoStringPrint {
    /// Clears the display and writes `s1` on the first line and `s2` on the second.
    fn print_two(&mut self, s1: &str, s2: &str);
}

} // verus!
