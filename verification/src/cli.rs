use vstd::prelude::*;

verus! {

/// Which side of the tunnel to run.
#[derive(Clone, Copy, Debug, PartialEq, Eq, Structural)]
pub enum Command {
    Client,
    Server,
}

/// The command line: the side to run.
#[derive(Clone, Copy, Debug, PartialEq, Eq, Structural)]
pub struct Args {
    pub command: Command,
}

} // verus!
