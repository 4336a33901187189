//! Choice of the input event that takes effect in a frame.
use vstd::prelude::*;

verus! {

/// The event of a frame that takes effect: of all events that arrived, the
/// last one wins; with none, there is nothing to apply.
pub fn last_event<T: Copy>(events: &Vec<T>) -> (r: Option<T>)
    ensures
        events@.len() == 0 ==> r is None,
        events@.len() > 0 ==> r == Some(events@.last()),
{
    let mut r: Option<T> = None;
    let mut i: usize = 0;
    while i < events.len()
        invariant
            i <= events@.len(),
            i == 0 ==> r is None,
            i > 0 ==> r == Some(events@[i - 1]),
        decreases events@.len() - i,
    {
        r = Some(events[i]);
        i = i + 1;
    }
    r
}

} // verus!
