//! Index types and switch-level vocabulary shared by the bus messages.

use vstd::prelude::*;

verus! {

/// Index of an input on a device.
pub type InIdx = u8;

/// Index of an output on a device.
pub type OutIdx = u8;

/// Index of a layer on a device.
pub type LayerIdx = u8;

/// Index of a stored procedure on a device.
pub type ProcIdx = u8;

/// Index of a shutter on a device.
pub type ShutterIdx = u8;

/// What a switch reported, as classified by the device that owns it.
///
/// A long press runs `Activated`, `LongActivated`, `LongClick`,
/// `LongDeactivated`, `Deactivated`; a short one `Activated`, `ShortClick`,
/// `Deactivated`.
#[derive(Copy, Clone, Eq, PartialEq, Debug, Structural)]
pub enum Trigger {
    /// Longer than the debounce period, shorter than a long click; raised on release.
    ShortClick,
    /// Longer than a short click; raised on release.
    LongClick,
    /// Raised as soon as the debounce period is over.
    Activated,
    /// Raised on release, whatever the duration.
    Deactivated,
    /// The press has outlasted the short-click time.
    LongActivated,
    /// Released after `LongActivated` was raised.
    LongDeactivated,
}

/// Version of this software.
pub const GATE_VERSION: &'static str = "0.1.0";

/// Name under which the gateway announces itself.
pub const GATE_NAME: &'static str = "io-gate";

/// Where to turn for support; empty when there is no such place.
pub const GATE_URL: &'static str = "";

/// Topic prefix under which discovery documents are published.
pub const HA_DISCOVERY_TOPIC: &'static str = "homeassistant";

/// Topic prefix of the state and command topics.
pub const HA_CONTROL_TOPIC: &'static str = "smartenough";

} // verus!
