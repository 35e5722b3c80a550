//! Plain values exchanged with the facility/device registry, an
//! external collaborator of the pool's deployment. The registry's own
//! logic lives outside this crate; these are the status and parameter
//! values that cross its interface.

use vstd::prelude::*;

verus! {

/// Lifecycle status of a cultivation facility.
#[derive(Clone, Copy, Debug, PartialEq, Eq, Structural)]
pub enum FacilityStatus {
    /// Application submitted, pending verification.
    Pending,
    /// Facility verified and active.
    Active,
    /// Facility temporarily suspended.
    Suspended,
    /// Facility permanently revoked.
    Revoked,
    /// Facility undergoing audit.
    UnderAudit,
}

/// Lifecycle status of a telemetry device.
#[derive(Clone, Copy, Debug, PartialEq, Eq, Structural)]
pub enum DeviceStatus {
    /// Device is registered but not yet authorized.
    Registered,
    /// Device is authorized and active.
    Authorized,
    /// Device is suspended.
    Suspended,
    /// Device has been decommissioned.
    Decommissioned,
}

/// Cultivation parameters reported for a facility; fixed-point values
/// with the scales noted per field.
#[derive(Clone, Copy, Debug, PartialEq, Eq, Structural)]
pub struct CultivationParameters {
    /// Water pH level, stored as pH times one hundred.
    pub ph_level: u32,
    /// Temperature in hundredths of a degree celsius.
    pub temperature: i32,
    /// Light intensity in lux.
    pub light_intensity: u32,
    /// Carbon-dioxide concentration in parts per million.
    pub co2_concentration: u32,
    /// Nutrient concentration in hundredths of a milligram per litre.
    pub nutrient_concentration: u32,
    /// Water quality on a zero to ten thousand scale.
    pub water_quality: u32,
}

} // verus!
