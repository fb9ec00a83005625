use vstd::prelude::*;

verus! {

/// Byte offsets of the game's globals and object fields, and the indices of
/// the skeleton bones that the overlay draws.
pub struct Offsets;

#[allow(non_upper_case_globals)]
impl Offsets {
    // Globals of the client module.
    pub const dwLocalPlayerPawn: usize = 0x2341698;
    pub const dwEntityList: usize = 0x24E76A0;
    pub const dwViewMatrix: usize = 0x2346B30;
    pub const dwViewAngles: usize = 0x23568C8;
    pub const m_hPlayerPawn: usize = 0x90C;

    // Pawn fields.
    pub const m_iHealth: usize = 0x34C;
    pub const m_iTeamNum: usize = 0x3EB;
    pub const m_vOldOrigin: usize = 0x1390;
    pub const m_skeletonInstance: usize = 0x80;
    pub const m_bDormant: usize = 0x103;
    pub const m_entitySpottedState: usize = 0x1170;
    pub const m_bIsScoped: usize = 0x1C50;
    pub const m_flFlashDuration: usize = 0x1400;
    pub const m_pGameSceneNode: usize = 0x330;
    pub const m_modelState: usize = 0x150;
    pub const m_iIDEntIndex: usize = 0x33FC;
    pub const m_bSpottedByMask: usize = 0xC;
    pub const m_bSpotted: usize = 0x8;
    pub const m_hController: usize = 0x13A8;

    // Controller fields.
    pub const m_hPawn: usize = 0x6BC;
    pub const m_iszPlayerName: usize = 0x6F4;

    // Skeleton bones.
    pub const HAND_L_BONE: usize = 15;
    pub const HAND_R_BONE: usize = 11;
    pub const BONE_HEAD: usize = 25;
    pub const BONE_NECK_END: usize = 12;
    pub const BONE_LEFT_SHOULDER: usize = 13;
    pub const BONE_LEFT_ELBOW: usize = 14;
    pub const BONE_RIGHT_SHOULDER: usize = 9;
    pub const BONE_RIGHT_ELBOW: usize = 10;
    pub const BONE_PELVIS: usize = 2;
    pub const BONE_LEFT_HIP: usize = 20;
    pub const BONE_LEFT_KNEE: usize = 21;
    pub const BONE_LEFT_FOOT: usize = 22;
    pub const BONE_RIGHT_HIP: usize = 17;
    pub const BONE_RIGHT_KNEE: usize = 18;
    pub const BONE_RIGHT_FOOT: usize = 19;

    // Weapon fields.
    pub const m_hMyWeapons: usize = 0x48;
    pub const m_nFallbackPaintKit: usize = 0x1658;
    pub const m_flFallbackWear: usize = 0x1660;
    pub const m_nFallbackSeed: usize = 0x165C;
    pub const m_iItemDefinitionIndex: usize = 0x1BA;
}

}
