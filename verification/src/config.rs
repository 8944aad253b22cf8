//! Where the launcher finds its settings in the environment.

use vstd::prelude::*;

verus! {

/// The variable that names the telemetry sink in a debug build.
pub const SANDBOX_SINK_KEY: &'static str = "ODX_SANDBOX_DSN";

/// The variable that names the telemetry sink in a release build.
pub const SINK_KEY: &'static str = "ODX_DSN";

/// The variable that names the user on whose behalf the command runs.
pub const USER_KEY: &'static str = "USER";

/// The name of the variable that holds the sink address.
pub open spec fn sink_variable_of(debug: bool) -> Seq<char> {
    if debug {
        SANDBOX_SINK_KEY@
    } else {
        SINK_KEY@
    }
}

/// The name of the variable that holds the sink address: the sandbox's in a
/// debug build, the production one otherwise.
pub fn sink_variable(debug: bool) -> (key: &'static str)
    ensures
        key@ == sink_variable_of(debug),
{
    if debug {
        SANDBOX_SINK_KEY
    } else {
        SINK_KEY
    }
}

/// Why no session could be created. Neither keeps the command from running.
#[derive(Clone, Copy, Debug, PartialEq, Eq, Structural)]
pub enum SetupError {
    /// The variable that names the sink is not set.
    SinkAddressNotSet,
    /// The interrupt handler could not be installed.
    InterruptHandler,
}

} // verus!
