//! Settings shared by every service of the library.
use vstd::prelude::*;

verus! {

/// The device that the client runs on, as it describes itself to the
/// service in the context of a speech configuration.
#[derive(Debug, Clone)]
pub struct Device {
    /// The operating system.
    pub os: String,
    /// The client system.
    pub system: String,
}

impl Default for Device {
    fn default() -> (r: Self)
        ensures
            r.os@ == Seq::<char>::empty(),
            r.system@ == Seq::<char>::empty(),
    {
        Device { os: String::new(), system: String::new() }
    }
}

} // verus!
