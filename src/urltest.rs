//! Options of the url-test outbound group.

use vstd::prelude::*;

verus! {

/// Name of the group and whether it offers UDP.
#[derive(Debug)]
pub struct HandlerOptions {
    pub name: String,
    pub udp: bool,
}

impl Default for HandlerOptions {
    fn default() -> (r: HandlerOptions)
        ensures
            r.name@ == Seq::<char>::empty(),
            !r.udp,
    {
        HandlerOptions { name: String::new(), udp: false }
    }
}

} // verus!
