use vstd::prelude::*;

pub mod gitlab;
pub mod scheduler;
pub mod seed;
pub mod text;
pub mod triage;
pub mod trial;

verus! {

/// Location of the simulator binary used when none is configured.
pub fn default_fdbserver_path() -> (path: String)
    ensures
        path@ == "/usr/sbin/fdbserver"@,
{
    "/usr/sbin/fdbserver".to_owned()
}

} // verus!
