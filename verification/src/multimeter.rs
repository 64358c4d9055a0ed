//! Measurement modes.

use vstd::prelude::*;

verus! {

/// Meter measurement modes supported by the application.
///
/// Which modes a specific device supports is told by the device plugin's
/// `DeviceCapabilities::supported_modes`.
#[derive(PartialEq, Eq, Hash, Clone, Copy, Debug, Structural)]
pub enum MeterMode {
    Vdc,
    Vac,
    Adc,
    Aac,
    Res,
    Cap,
    Freq,
    Per,
    Diod,
    Cont,
    Temp,
}

} // verus!
