use vstd::prelude::*;

verus! {

/// The port the search starts from.
pub const DEFAULT_PORT: u16 = 8000;

/// How many consecutive ports the search may probe.
pub const MAX_PORT_TRIES: u16 = 100;

/// The `offset`-th candidate of a port search that starts at
/// `start_port`: candidates are probed in increasing order, one apart,
/// at most `MAX_PORT_TRIES` of them, and never past the largest port.
pub fn next_candidate_port(start_port: u16, offset: u16) -> (r: Option<u16>)
    ensures
        offset < MAX_PORT_TRIES && start_port + offset <= u16::MAX ==> r == Some(
            (start_port + offset) as u16,
        ),
        offset >= MAX_PORT_TRIES || start_port + offset > u16::MAX ==> r is None,
{
    if offset < MAX_PORT_TRIES && offset <= u16::MAX - start_port {
        Some(start_port + offset)
    } else {
        None
    }
}

/// The first bindable port at or after `start_port`, given the probe
/// outcome for each candidate: `free[j]` says whether the probe of
/// `start_port + j` succeeded.  Returns the port of the first
/// successful probe, or `None` when every probe in the budget failed.
///
/// When the preferred port itself is free it is chosen; when it is
/// occupied, any port found is strictly greater than it.
pub fn find_available_port(start_port: u16, free: &Vec<bool>) -> (r: Option<u16>)
    requires
        start_port + free@.len() <= u16::MAX + 1,
        free@.len() <= MAX_PORT_TRIES,
    ensures
        match r {
            Some(port) => {
                &&& start_port <= port < start_port + free@.len()
                &&& free@[port - start_port]
                &&& forall|j: int| 0 <= j < port - start_port ==> !free@[j]
            },
            None => forall|j: int| 0 <= j < free@.len() ==> !free@[j],
        },
        free@.len() > 0 && free@[0] ==> r == Some(start_port),
        free@.len() > 0 && !free@[0] && r is Some ==> r->0 > start_port,
{
    let mut i: usize = 0;
    while i < free.len()
        invariant
            i <= free@.len(),
            start_port + free@.len() <= u16::MAX + 1,
            forall|j: int| 0 <= j < i ==> !free@[j],
        decreases free@.len() - i,
    {
        if free[i] {
            return Some(start_port + (i as u16));
        }
        i += 1;
    }
    None
}

} // verus!
