//! Criteria for listing published events.

use vstd::prelude::*;

verus! {

/// Published events held on a calendar day (days since 1970-01-01) and at a
/// location containing the given text; an absent criterion selects all.
#[derive(Debug)]
pub struct EventFilter {
    pub date: Option<i32>,
    pub location: Option<String>,
}

impl Default for EventFilter {
    fn default() -> (r: Self)
        ensures
            r.date is None,
            r.location is None,
    {
        EventFilter { date: None, location: None }
    }
}

} // verus!
