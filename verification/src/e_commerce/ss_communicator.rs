use vstd::prelude::*;

verus! {

/// The end of a connection with another server.
#[derive(Debug, PartialEq, Eq)]
pub struct SSMiddleman {}

/// Start a leader election.
#[derive(Debug, PartialEq, Eq)]
pub struct LeaderElection {}

impl SSMiddleman {
    pub fn new() -> (middleman: SSMiddleman)
        ensures
            middleman == (SSMiddleman {}),
    {
        SSMiddleman {}
    }
}

} // verus!
