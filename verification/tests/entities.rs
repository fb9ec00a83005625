use std::collections::HashMap;

use game_overlay::aim::Aimbot;
use game_overlay::config::CheatSwitches;
use game_overlay::entity::{BoneStage, BoneStep, Entity, SkeletonStep, UpdateStep};
use game_overlay::offsets::Offsets;
use game_overlay::reads::{ReadReply, ReadRequest};
use glam::Vec3;

#[derive(Default)]
struct Memory {
    pointers: HashMap<usize, usize>,
    ints: HashMap<usize, i32>,
    flags: HashMap<usize, bool>,
    texts: HashMap<usize, String>,
    points: HashMap<usize, Vec3>,
}

impl Memory {
    fn answer(&self, request: ReadRequest) -> ReadReply {
        match request {
            ReadRequest::Pointer(a) => ReadReply::Pointer(self.pointers.get(&a).copied()),
            ReadRequest::Int32(a) => ReadReply::Int32(self.ints.get(&a).copied()),
            ReadRequest::Flag(a) => ReadReply::Flag(self.flags.get(&a).copied()),
            ReadRequest::Text(a, max_len) => {
                assert_eq!(max_len, 64);
                ReadReply::Text(self.texts.get(&a).cloned())
            }
            ReadRequest::Point(a) => ReadReply::Point(self.points.get(&a).copied()),
        }
    }
}

const CLIENT: usize = 0x10000;
const LIST: usize = 0x500000;
const CHUNK0: usize = 0x600000;
const CONTROLLER: usize = 0x700000;
const CHUNK1: usize = 0x800000;
const PAWN: usize = 0x900000;
const SCENE: usize = 0xA00000;
const SKELETON: usize = 0xB00000;

/// Memory in which entity 5 is player "bob" of team 3 with 80 health,
/// standing at (1, 2, 3) with the head at (1, 2, 70).
fn world() -> Memory {
    let mut m = Memory::default();
    m.pointers.insert(CLIENT + Offsets::dwEntityList, LIST);
    m.pointers.insert(LIST + 16, CHUNK0);
    m.pointers.insert(CHUNK0 + 112 * 5, CONTROLLER);
    m.texts.insert(CONTROLLER + Offsets::m_iszPlayerName, "bob".to_string());
    m.ints.insert(CONTROLLER + Offsets::m_hPawn, 0x0203);
    m.pointers.insert(LIST + 8 + 16, CHUNK1);
    m.pointers.insert(CHUNK1 + 112 * 3, PAWN);
    m.ints.insert(PAWN + Offsets::m_iHealth, 80);
    m.ints.insert(PAWN + Offsets::m_iTeamNum, 3);
    m.flags.insert(PAWN + Offsets::m_bDormant, false);
    m.points.insert(PAWN + Offsets::m_vOldOrigin, Vec3::new(1.0, 2.0, 3.0));
    m.pointers.insert(PAWN + Offsets::m_pGameSceneNode, SCENE);
    m.pointers.insert(SCENE + Offsets::m_modelState + Offsets::m_skeletonInstance, SKELETON);
    m.points.insert(SKELETON + Offsets::BONE_HEAD * 0x20, Vec3::new(1.0, 2.0, 70.0));
    m
}

/// Runs an update to its end; gives the verdict, whether the head is to be
/// estimated, and how many reads it made.
fn run_update(entity: &mut Entity, memory: &Memory) -> (bool, bool, usize) {
    let mut step = entity.start_update(CLIENT);
    let mut reads = 0;
    loop {
        match step {
            UpdateStep::Read(stage, request) => {
                reads += 1;
                step = entity.update(stage, memory.answer(request));
            }
            UpdateStep::Finish { alive, estimate_head } => return (alive, estimate_head, reads),
        }
    }
}

#[test]
fn new_entity_is_empty_and_dormant() {
    let e = Entity::new(7);
    assert_eq!(e.index, 7);
    assert_eq!(e.controller, 0);
    assert_eq!(e.pawn, 0);
    assert_eq!(e.name, "");
    assert_eq!(e.health, 0);
    assert_eq!(e.team, 0);
    assert_eq!(e.position, Vec3::ZERO);
    assert_eq!(e.head_position, Vec3::ZERO);
    assert!(e.dormant);
    assert!(e.is_visible);
    assert!(!e.is_alive());
}

#[test]
fn update_reads_a_live_player() {
    let memory = world();
    let mut e = Entity::new(5);
    let (alive, estimate_head, reads) = run_update(&mut e, &memory);
    assert!(alive);
    assert!(!estimate_head);
    assert_eq!(reads, 14);
    assert_eq!(e.controller, CONTROLLER);
    assert_eq!(e.pawn, PAWN);
    assert_eq!(e.name, "bob");
    assert_eq!(e.health, 80);
    assert_eq!(e.team, 3);
    assert!(!e.dormant);
    assert_eq!(e.position, Vec3::new(1.0, 2.0, 3.0));
    assert_eq!(e.head_position, Vec3::new(1.0, 2.0, 70.0));
    assert!(e.is_alive());
}

#[test]
fn update_fails_without_entity_list() {
    let mut memory = world();
    memory.pointers.remove(&(CLIENT + Offsets::dwEntityList));
    let mut e = Entity::new(5);
    assert_eq!(run_update(&mut e, &memory), (false, false, 1));
    assert_eq!(e.controller, 0);
}

#[test]
fn update_fails_on_null_controller() {
    let mut memory = world();
    memory.pointers.insert(CHUNK0 + 112 * 5, 0);
    let mut e = Entity::new(5);
    assert_eq!(run_update(&mut e, &memory), (false, false, 3));
    assert_eq!(e.controller, 0);
}

#[test]
fn update_fails_on_missing_pawn_handle() {
    let mut memory = world();
    memory.ints.remove(&(CONTROLLER + Offsets::m_hPawn));
    let mut e = Entity::new(5);
    assert_eq!(run_update(&mut e, &memory), (false, false, 5));
    assert_eq!(e.controller, CONTROLLER);
    assert_eq!(e.name, "bob");
}

#[test]
fn update_fails_on_null_pawn() {
    let mut memory = world();
    memory.pointers.insert(CHUNK1 + 112 * 3, 0);
    let mut e = Entity::new(5);
    assert_eq!(run_update(&mut e, &memory), (false, false, 7));
    assert_eq!(e.pawn, 0);
}

#[test]
fn update_keeps_the_old_name_when_the_name_read_fails() {
    let mut memory = world();
    memory.texts.remove(&(CONTROLLER + Offsets::m_iszPlayerName));
    let mut e = Entity::new(5);
    e.name = "old".to_string();
    let (alive, _, _) = run_update(&mut e, &memory);
    assert!(alive);
    assert_eq!(e.name, "old");
}

#[test]
fn failed_health_team_and_dormant_reads_give_defaults() {
    let mut memory = world();
    memory.ints.remove(&(PAWN + Offsets::m_iHealth));
    memory.ints.remove(&(PAWN + Offsets::m_iTeamNum));
    memory.flags.remove(&(PAWN + Offsets::m_bDormant));
    let mut e = Entity::new(5);
    e.health = 50;
    e.team = 2;
    e.dormant = false;
    let (alive, _, _) = run_update(&mut e, &memory);
    assert!(!alive);
    assert_eq!(e.health, 0);
    assert_eq!(e.team, 0);
    assert!(e.dormant);
}

#[test]
fn dead_or_dormant_players_are_not_alive() {
    let mut memory = world();
    memory.ints.insert(PAWN + Offsets::m_iHealth, 0);
    let mut e = Entity::new(5);
    assert!(!run_update(&mut e, &memory).0);

    let mut memory = world();
    memory.flags.insert(PAWN + Offsets::m_bDormant, true);
    let mut e = Entity::new(5);
    assert!(!run_update(&mut e, &memory).0);
}

#[test]
fn missing_head_bone_asks_for_an_estimate() {
    let mut memory = world();
    memory.pointers.insert(SCENE + Offsets::m_modelState + Offsets::m_skeletonInstance, 0);
    let mut e = Entity::new(5);
    let (alive, estimate_head, reads) = run_update(&mut e, &memory);
    assert!(alive);
    assert!(estimate_head);
    assert_eq!(reads, 13);
    assert_eq!(e.head_position, Vec3::ZERO);
}

#[test]
fn missing_origin_keeps_the_old_position() {
    let mut memory = world();
    memory.points.remove(&(PAWN + Offsets::m_vOldOrigin));
    let mut e = Entity::new(5);
    e.position = Vec3::new(9.0, 9.0, 9.0);
    let (alive, _, _) = run_update(&mut e, &memory);
    assert!(alive);
    assert_eq!(e.position, Vec3::new(9.0, 9.0, 9.0));
}

#[test]
fn bone_lookup_without_pawn_finds_nothing() {
    let e = Entity::new(1);
    assert_eq!(e.get_bone_pos(3), BoneStep::Done(None));
    assert_eq!(e.get_head_position(), BoneStep::Done(None));
}

#[test]
fn bone_lookup_walks_scene_skeleton_and_bone() {
    let memory = world();
    let mut e = Entity::new(5);
    e.pawn = PAWN;
    let mut step = e.get_bone_pos_world(Offsets::BONE_PELVIS);
    assert_eq!(
        step,
        BoneStep::Read(
            BoneStage::SceneNode { bone: Offsets::BONE_PELVIS },
            ReadRequest::Pointer(PAWN + Offsets::m_pGameSceneNode)
        )
    );
    let mut reads = Vec::new();
    while let BoneStep::Read(stage, request) = step {
        reads.push(request);
        step = Entity::resume_bone_pos(stage, memory.answer(request));
    }
    assert_eq!(
        reads,
        vec![
            ReadRequest::Pointer(PAWN + 0x330),
            ReadRequest::Pointer(SCENE + 0x1D0),
            ReadRequest::Point(SKELETON + 2 * 32),
        ]
    );
    // No coordinates are stored for the pelvis in this memory.
    assert_eq!(step, BoneStep::Done(None));
}

#[test]
fn null_scene_node_ends_a_bone_lookup() {
    let step = Entity::resume_bone_pos(BoneStage::SceneNode { bone: 25 }, ReadReply::Pointer(Some(0)));
    assert_eq!(step, BoneStep::Done(None));
    let step = Entity::resume_bone_pos(BoneStage::Skeleton { bone: 25 }, ReadReply::Pointer(None));
    assert_eq!(step, BoneStep::Done(None));
}

#[test]
fn skeleton_collection_gathers_found_bones() {
    let mut memory = world();
    memory.points.insert(SKELETON + Offsets::BONE_PELVIS * 0x20, Vec3::new(0.0, 0.0, 40.0));
    let mut e = Entity::new(5);
    e.pawn = PAWN;
    let mut bones: HashMap<usize, Vec3> = HashMap::new();
    let mut step = e.get_bone_positions();
    let mut reads = 0;
    while let SkeletonStep::Read(stage, request) = step {
        reads += 1;
        step = e.resume_bone_positions(stage, memory.answer(request), &mut bones);
    }
    assert_eq!(reads, 45);
    assert_eq!(bones.len(), 2);
    assert_eq!(bones[&Offsets::BONE_HEAD], Vec3::new(1.0, 2.0, 70.0));
    assert_eq!(bones[&Offsets::BONE_PELVIS], Vec3::new(0.0, 0.0, 40.0));
}

#[test]
fn skeleton_collection_without_pawn_is_empty() {
    let e = Entity::new(5);
    assert_eq!(e.get_bone_positions(), SkeletonStep::Done);
}

#[test]
fn enemy_filter() {
    let mut e = Entity::new(5);
    e.pawn = PAWN;
    e.team = 3;
    assert!(e.is_enemy_of(0x1234, 2));
    assert!(!e.is_enemy_of(PAWN, 2));
    assert!(!e.is_enemy_of(0x1234, 3));
    assert!(!e.is_enemy_of(0x1234, 0));
    e.team = 1;
    assert!(!e.is_enemy_of(0x1234, 2));
    e.team = 2;
    assert!(e.is_enemy_of(0x1234, 3));
}

#[test]
fn aim_targets_live_players_of_other_teams() {
    let mut e = Entity::new(5);
    e.health = 50;
    e.dormant = false;
    e.team = 3;
    assert!(Aimbot::is_target(&e, 2));
    assert!(!Aimbot::is_target(&e, 3));
    e.dormant = true;
    assert!(!Aimbot::is_target(&e, 2));
    e.dormant = false;
    e.health = 0;
    assert!(!Aimbot::is_target(&e, 2));
}

#[test]
fn aiming_needs_the_switch_and_the_key() {
    let mut s = CheatSwitches::default();
    assert!(!Aimbot::should_aim(&s, i16::MIN));
    s.aimbot_enabled = true;
    assert!(Aimbot::should_aim(&s, i16::MIN));
    assert!(!Aimbot::should_aim(&s, 0));
}
