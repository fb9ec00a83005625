use vstd::prelude::*;

verus! {

/// The switches, keys and delays of the overlay's settings: the part of the
/// settings that its decisions read. Colours, sizes and the aim smoothing
/// are floating-point settings that only the drawing code reads.
#[derive(Clone, Copy, Debug, PartialEq, Eq)]
pub struct CheatSwitches {
    pub aimbot_enabled: bool,
    pub fov_enabled: bool,
    pub aimbot_key: i32,
    pub trigger_bot_enabled: bool,
    pub trigger_delay_ms: u64,
    pub trigger_key: i32,
    pub trigger_hold_mode: bool,
    pub trigger_team_check: bool,
    pub trigger_scan_delay_ms: u64,
    pub esp_enabled: bool,
    pub esp_box_enabled: bool,
    pub esp_filled_box_enabled: bool,
    pub esp_health_bar_enabled: bool,
    pub esp_name_enabled: bool,
    pub esp_distance_enabled: bool,
    pub esp_skeleton_enabled: bool,
}

impl CheatSwitches {
    /// The settings a fresh start has: aiming and triggering off, aiming on
    /// the left mouse button and triggering on the right one held down, with
    /// no delay before a shot and 1 ms after it; the overlay on with boxes,
    /// health bars, names and distances, without filled boxes or skeletons.
    pub open spec fn spec_default() -> Self {
        CheatSwitches {
            aimbot_enabled: false,
            fov_enabled: true,
            aimbot_key: 0x01,
            trigger_bot_enabled: false,
            trigger_delay_ms: 0,
            trigger_key: 0x02,
            trigger_hold_mode: true,
            trigger_team_check: true,
            trigger_scan_delay_ms: 1,
            esp_enabled: true,
            esp_box_enabled: true,
            esp_filled_box_enabled: false,
            esp_health_bar_enabled: true,
            esp_name_enabled: true,
            esp_distance_enabled: true,
            esp_skeleton_enabled: false,
        }
    }
}

impl Default for CheatSwitches {
    fn default() -> (switches: Self)
        ensures
            switches == CheatSwitches::spec_default(),
    {
        CheatSwitches {
            aimbot_enabled: false,
            fov_enabled: true,
            aimbot_key: 0x01,
            trigger_bot_enabled: false,
            trigger_delay_ms: 0,
            trigger_key: 0x02,
            trigger_hold_mode: true,
            trigger_team_check: true,
            trigger_scan_delay_ms: 1,
            esp_enabled: true,
            esp_box_enabled: true,
            esp_filled_box_enabled: false,
            esp_health_bar_enabled: true,
            esp_name_enabled: true,
            esp_distance_enabled: true,
            esp_skeleton_enabled: false,
        }
    }
}

}
