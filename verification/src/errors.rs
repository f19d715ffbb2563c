//! Error taxonomy of the renderer: fatal startup failures and the per-frame
//! surface errors, each with its recovery policy decided elsewhere.

use vstd::prelude::*;

verus! {

/// A failure during the one-time startup negotiation. Both variants are
/// fatal: there is no fallback rendering path.
#[derive(Clone, Copy, Debug, PartialEq, Eq, Structural)]
pub enum InitError {
    /// No GPU adapter compatible with the presentation surface was found.
    AdapterUnavailable,
    /// An adapter was found but a logical device could not be obtained.
    DeviceUnavailable,
}

/// Why acquiring the next presentable texture failed, as the presentation
/// API reports it.
#[derive(Clone, Copy, Debug, PartialEq, Eq, Structural)]
pub enum SurfaceError {
    /// The surface was lost and must be reconfigured before the next frame.
    Lost,
    /// The surface no longer matches the window; resolves on a later frame.
    Outdated,
    /// Acquiring timed out; resolves on a later frame.
    Timeout,
    /// The system is out of memory; rendering cannot continue.
    OutOfMemory,
}

/// Checks the two stages of startup negotiation, in order: an adapter must
/// be found before a device is requested from it.
pub fn init_check(adapter_found: bool, device_granted: bool) -> (r: Result<(), InitError>)
    ensures
        r is Ok <==> (adapter_found && device_granted),
        !adapter_found ==> r == Result::<(), InitError>::Err(InitError::AdapterUnavailable),
        (adapter_found && !device_granted) ==> r == Result::<(), InitError>::Err(
            InitError::DeviceUnavailable,
        ),
{
    if !adapter_found {
        Err(InitError::AdapterUnavailable)
    } else if !device_granted {
        Err(InitError::DeviceUnavailable)
    } else {
        Ok(())
    }
}

} // verus!
