use vstd::prelude::*;

use crate::handles::{chunk_address, chunk_address_of, slot_address, slot_address_of};
use crate::offsets::Offsets;
use crate::reads::{ReadReply, ReadRequest};

verus! {

/// `glam::Vec3::ZERO`, the origin.
#[verifier::external_body]
fn vec3_zero() -> glam::Vec3 {
    glam::Vec3::ZERO
}

/// A player as the overlay sees it: where it sits in the game's entity
/// list, what the game says of it, and where it stands.
pub struct Entity {
    pub index: i32,
    pub controller: usize,
    pub pawn: usize,
    pub name: String,
    pub health: i32,
    pub team: i32,
    pub position: glam::Vec3,
    pub head_position: glam::Vec3,
    pub dormant: bool,
    pub is_visible: bool,
}

/// Where a bone lookup stands: which pointer or point it waits for.
#[derive(Clone, Copy, Debug, PartialEq, Eq)]
pub enum BoneStage {
    /// Waiting for the pawn's scene node pointer.
    SceneNode { bone: usize },
    /// Waiting for the scene node's skeleton pointer.
    Skeleton { bone: usize },
    /// Waiting for the bone's coordinates.
    Bone,
}

/// What a bone lookup asks for next, or what it found.
#[derive(Clone, Debug, PartialEq)]
pub enum BoneStep {
    Read(BoneStage, ReadRequest),
    Done(Option<glam::Vec3>),
}

/// Offset of the skeleton pointer inside a scene node.
pub open spec fn skeleton_field() -> int {
    Offsets::m_modelState + Offsets::m_skeletonInstance
}

/// Address of a bone's coordinates in a skeleton: 32 bytes per bone.
pub open spec fn bone_address_of(skeleton: int, bone: int) -> int {
    skeleton + bone * 0x20
}

/// One step of a bone lookup: a failed read or a null pointer ends it with
/// nothing found; the skeleton pointer sits at `m_modelState +
/// m_skeletonInstance` in the scene node, and the bone 32 bytes per bone into
/// the skeleton.
pub open spec fn bone_transition(stage: BoneStage, reply: ReadReply) -> BoneStep {
    match stage {
        BoneStage::SceneNode { bone } => match reply {
            ReadReply::Pointer(Some(s)) => if s != 0 {
                BoneStep::Read(
                    BoneStage::Skeleton { bone },
                    ReadRequest::Pointer((s + skeleton_field()) as usize),
                )
            } else {
                BoneStep::Done(None)
            },
            _ => BoneStep::Done(None),
        },
        BoneStage::Skeleton { bone } => match reply {
            ReadReply::Pointer(Some(k)) => if k != 0 {
                BoneStep::Read(
                    BoneStage::Bone,
                    ReadRequest::Point(bone_address_of(k as int, bone as int) as usize),
                )
            } else {
                BoneStep::Done(None)
            },
            _ => BoneStep::Done(None),
        },
        BoneStage::Bone => match reply {
            ReadReply::Point(p) => BoneStep::Done(p),
            _ => BoneStep::Done(None),
        },
    }
}

impl BoneStage {
    /// The reply is of the kind this stage waits for, and the address that
    /// the next read would use exists.
    pub open spec fn admits(self, reply: ReadReply) -> bool {
        match self {
            BoneStage::SceneNode { .. } => match reply {
                ReadReply::Pointer(Some(s)) => s != 0 ==> s + skeleton_field() <= usize::MAX,
                ReadReply::Pointer(None) => true,
                _ => false,
            },
            BoneStage::Skeleton { bone } => match reply {
                ReadReply::Pointer(Some(k)) => k != 0 ==> bone_address_of(k as int, bone as int)
                    + 8 <= usize::MAX,
                ReadReply::Pointer(None) => true,
                _ => false,
            },
            BoneStage::Bone => reply is Point,
        }
    }

    /// How far the lookup has come.
    pub open spec fn rank(self) -> nat {
        match self {
            BoneStage::SceneNode { .. } => 0,
            BoneStage::Skeleton { .. } => 1,
            BoneStage::Bone => 2,
        }
    }
}

impl BoneStep {
    /// A read that the step asks for is well formed and comes from a later
    /// stage than `stage`.
    pub open spec fn advances_from(self, rank: nat) -> bool {
        self matches BoneStep::Read(next, request) ==> next.rank() > rank && request.well_formed()
    }
}

impl Entity {
    /// What makes a player count as alive: some health left and not dormant.
    pub open spec fn alive(self) -> bool {
        self.health > 0 && !self.dormant
    }

    /// A fresh record for the entity at `index`: no controller, no pawn, no
    /// name, no health, team 0, dormant, visible, at the origin.
    pub fn new(index: i32) -> (entity: Self)
        ensures
            entity.index == index,
            entity.controller == 0,
            entity.pawn == 0,
            entity.name@ == Seq::<char>::empty(),
            entity.health == 0,
            entity.team == 0,
            entity.dormant,
            entity.is_visible,
    {
        Entity {
            index,
            controller: 0,
            pawn: 0,
            name: String::new(),
            health: 0,
            team: 0,
            position: vec3_zero(),
            head_position: vec3_zero(),
            dormant: true,
            is_visible: true,
        }
    }

    /// Whether the player is alive.
    pub fn is_alive(&self) -> (alive: bool)
        ensures
            alive == self.alive(),
    {
        self.health > 0 && !self.dormant
    }

    /// Starts the lookup of bone `bone_id` of this player's skeleton. Without
    /// a pawn there is nothing to look up; else the pawn's scene node pointer
    /// is read first.
    pub fn get_bone_pos(&self, bone_id: usize) -> (step: BoneStep)
        requires
            self.pawn != 0 ==> self.pawn + Offsets::m_pGameSceneNode <= usize::MAX,
        ensures
            self.pawn == 0 ==> step == BoneStep::Done(None),
            self.pawn != 0 ==> step == BoneStep::Read(
                BoneStage::SceneNode { bone: bone_id },
                ReadRequest::Pointer((self.pawn + Offsets::m_pGameSceneNode) as usize),
            ),
    {
        if self.pawn == 0 {
            return BoneStep::Done(None);
        }
        BoneStep::Read(
            BoneStage::SceneNode { bone: bone_id },
            ReadRequest::Pointer(self.pawn + Offsets::m_pGameSceneNode),
        )
    }

    /// Starts the lookup of the head bone.
    pub fn get_head_position(&self) -> (step: BoneStep)
        requires
            self.pawn != 0 ==> self.pawn + Offsets::m_pGameSceneNode <= usize::MAX,
        ensures
            self.pawn == 0 ==> step == BoneStep::Done(None),
            self.pawn != 0 ==> step == BoneStep::Read(
                BoneStage::SceneNode { bone: Offsets::BONE_HEAD },
                ReadRequest::Pointer((self.pawn + Offsets::m_pGameSceneNode) as usize),
            ),
    {
        self.get_bone_pos(Offsets::BONE_HEAD)
    }

    /// Starts the lookup of bone `bone_id`, in world coordinates.
    pub fn get_bone_pos_world(&self, bone_id: usize) -> (step: BoneStep)
        requires
            self.pawn != 0 ==> self.pawn + Offsets::m_pGameSceneNode <= usize::MAX,
        ensures
            self.pawn == 0 ==> step == BoneStep::Done(None),
            self.pawn != 0 ==> step == BoneStep::Read(
                BoneStage::SceneNode { bone: bone_id },
                ReadRequest::Pointer((self.pawn + Offsets::m_pGameSceneNode) as usize),
            ),
    {
        self.get_bone_pos(bone_id)
    }

    /// Takes a bone lookup one read further.
    pub fn resume_bone_pos(stage: BoneStage, reply: ReadReply) -> (step: BoneStep)
        requires
            stage.admits(reply),
        ensures
            step.advances_from(stage.rank()),
            step == bone_transition(stage, reply),
            match (stage, reply) {
                (BoneStage::SceneNode { bone }, ReadReply::Pointer(Some(s))) => s != 0 ==> step
                    == BoneStep::Read(
                    BoneStage::Skeleton { bone },
                    ReadRequest::Pointer((s + 0x1D0) as usize),
                ),
                (BoneStage::Skeleton { bone }, ReadReply::Pointer(Some(k))) => k != 0 ==> step
                    == BoneStep::Read(BoneStage::Bone, ReadRequest::Point((k + 32 * bone) as usize)),
                (BoneStage::Bone, ReadReply::Point(p)) => step == BoneStep::Done(p),
                _ => step == BoneStep::Done(None),
            },
    {
        match stage {
            BoneStage::SceneNode { bone } => match reply {
                ReadReply::Pointer(Some(scene)) => {
                    if scene == 0 {
                        BoneStep::Done(None)
                    } else {
                        BoneStep::Read(
                            BoneStage::Skeleton { bone },
                            ReadRequest::Pointer(
                                scene + Offsets::m_modelState + Offsets::m_skeletonInstance,
                            ),
                        )
                    }
                },
                _ => BoneStep::Done(None),
            },
            BoneStage::Skeleton { bone } => match reply {
                ReadReply::Pointer(Some(skeleton)) => {
                    if skeleton == 0 {
                        BoneStep::Done(None)
                    } else {
                        BoneStep::Read(BoneStage::Bone, ReadRequest::Point(skeleton + (bone * 0x20)))
                    }
                },
                _ => BoneStep::Done(None),
            },
            BoneStage::Bone => match reply {
                ReadReply::Point(p) => BoneStep::Done(p),
                _ => BoneStep::Done(None),
            },
        }
    }
}


/// Farthest byte past a pawn's address that an update reads: the last
/// coordinate of the pawn's origin.
pub open spec fn pawn_reach() -> int {
    Offsets::m_vOldOrigin + 8
}

/// Where an entity update stands: which read it waits for.
#[derive(Clone, Copy, Debug, PartialEq, Eq)]
pub enum UpdateStage {
    /// Waiting for the entity list pointer.
    EntityList,
    /// Waiting for the chunk pointer of the entity's own handle.
    ListEntry { list: usize },
    /// Waiting for the controller pointer.
    Controller { list: usize },
    /// Waiting for the player's name.
    Name { list: usize },
    /// Waiting for the controller's pawn handle.
    PawnHandle { list: usize },
    /// Waiting for the chunk pointer of the pawn handle.
    PawnEntry { handle: i32 },
    /// Waiting for the pawn pointer.
    Pawn,
    /// Waiting for the pawn's health.
    Health,
    /// Waiting for the pawn's team.
    Team,
    /// Waiting for the pawn's dormant flag.
    Dormant,
    /// Waiting for the pawn's origin.
    Position,
    /// Looking up the head bone.
    Head(BoneStage),
}

/// What an entity update asks for next, or how it ended. `alive` is the
/// update's verdict; `estimate_head` says that the head bone was not found,
/// so that the head is to be placed 70 units above the origin.
#[derive(Clone, Debug, PartialEq)]
pub enum UpdateStep {
    Read(UpdateStage, ReadRequest),
    Finish { alive: bool, estimate_head: bool },
}

impl UpdateStage {
    /// The reply is of the kind this stage waits for, and every address that
    /// the update computes from it exists.
    pub open spec fn admits(self, index: i32, reply: ReadReply) -> bool {
        match self {
            UpdateStage::EntityList => match reply {
                ReadReply::Pointer(Some(l)) => chunk_address_of(l as int, index) <= usize::MAX,
                ReadReply::Pointer(None) => true,
                _ => false,
            },
            UpdateStage::ListEntry { .. } => match reply {
                ReadReply::Pointer(Some(e)) => slot_address_of(e as int, index) <= usize::MAX,
                ReadReply::Pointer(None) => true,
                _ => false,
            },
            UpdateStage::Controller { .. } => match reply {
                ReadReply::Pointer(Some(c)) => c != 0 ==> c + Offsets::m_iszPlayerName
                    <= usize::MAX,
                ReadReply::Pointer(None) => true,
                _ => false,
            },
            UpdateStage::Name { .. } => reply is Text,
            UpdateStage::PawnHandle { list } => match reply {
                ReadReply::Int32(Some(h)) => chunk_address_of(list as int, h) <= usize::MAX,
                ReadReply::Int32(None) => true,
                _ => false,
            },
            UpdateStage::PawnEntry { handle } => match reply {
                ReadReply::Pointer(Some(e)) => slot_address_of(e as int, handle) <= usize::MAX,
                ReadReply::Pointer(None) => true,
                _ => false,
            },
            UpdateStage::Pawn => match reply {
                ReadReply::Pointer(Some(p)) => p != 0 ==> p + pawn_reach() <= usize::MAX,
                ReadReply::Pointer(None) => true,
                _ => false,
            },
            UpdateStage::Health => reply is Int32,
            UpdateStage::Team => reply is Int32,
            UpdateStage::Dormant => reply is Flag,
            UpdateStage::Position => reply is Point,
            UpdateStage::Head(bone) => bone.admits(reply),
        }
    }

    /// What the stages of an update keep true of the entity: once the
    /// controller is read it is not null, once the pawn is read it is not
    /// null, and the head lookup looks up the head bone.
    pub open spec fn holds_for(self, e: Entity) -> bool {
        let controller_known = e.controller != 0 && e.controller + Offsets::m_iszPlayerName
            <= usize::MAX;
        let pawn_known = e.pawn != 0 && e.pawn + pawn_reach() <= usize::MAX;
        match self {
            UpdateStage::EntityList => true,
            UpdateStage::ListEntry { .. } => true,
            UpdateStage::Controller { .. } => true,
            UpdateStage::Name { .. } => controller_known,
            UpdateStage::PawnHandle { .. } => controller_known,
            UpdateStage::PawnEntry { .. } => controller_known,
            UpdateStage::Pawn => controller_known,
            UpdateStage::Head(bone) => controller_known && pawn_known && match bone {
                BoneStage::SceneNode { bone } => bone == Offsets::BONE_HEAD,
                BoneStage::Skeleton { bone } => bone == Offsets::BONE_HEAD,
                BoneStage::Bone => true,
            },
            _ => controller_known && pawn_known,
        }
    }

    /// How far the update has come.
    pub open spec fn rank(self) -> nat {
        match self {
            UpdateStage::EntityList => 0,
            UpdateStage::ListEntry { .. } => 1,
            UpdateStage::Controller { .. } => 2,
            UpdateStage::Name { .. } => 3,
            UpdateStage::PawnHandle { .. } => 4,
            UpdateStage::PawnEntry { .. } => 5,
            UpdateStage::Pawn => 6,
            UpdateStage::Health => 7,
            UpdateStage::Team => 8,
            UpdateStage::Dormant => 9,
            UpdateStage::Position => 10,
            UpdateStage::Head(bone) => 11 + bone.rank(),
        }
    }
}

/// The update's verdict when it runs to its end: whether the entity it
/// filled in is alive.
pub open spec fn finish_alive(e: Entity, estimate_head: bool) -> UpdateStep {
    UpdateStep::Finish { alive: e.alive(), estimate_head }
}

/// The update's verdict when a read fails or a pointer is null.
pub open spec fn finish_failed() -> UpdateStep {
    UpdateStep::Finish { alive: false, estimate_head: false }
}

/// One step of an entity update: the entity after the reply is taken in, and
/// the next step. A failed read of the entity list, a chunk, the controller,
/// the pawn handle or the pawn, and a null controller or pawn, end the
/// update with `false`; a failed name, origin or head read keeps the old
/// value; a failed health, team or dormant read gives 0, 0 and `true`.
pub open spec fn update_transition(stage: UpdateStage, e: Entity, reply: ReadReply) -> (
    Entity,
    UpdateStep,
) {
    match stage {
        UpdateStage::EntityList => match reply {
            ReadReply::Pointer(Some(l)) => (
                e,
                UpdateStep::Read(
                    UpdateStage::ListEntry { list: l },
                    ReadRequest::Pointer(chunk_address_of(l as int, e.index) as usize),
                ),
            ),
            _ => (e, finish_failed()),
        },
        UpdateStage::ListEntry { list } => match reply {
            ReadReply::Pointer(Some(c)) => (
                e,
                UpdateStep::Read(
                    UpdateStage::Controller { list },
                    ReadRequest::Pointer(slot_address_of(c as int, e.index) as usize),
                ),
            ),
            _ => (e, finish_failed()),
        },
        UpdateStage::Controller { list } => match reply {
            ReadReply::Pointer(Some(c)) => {
                let e2 = Entity { controller: c, ..e };
                if c == 0 {
                    (e2, finish_failed())
                } else {
                    (
                        e2,
                        UpdateStep::Read(
                            UpdateStage::Name { list },
                            ReadRequest::Text((c + Offsets::m_iszPlayerName) as usize, 64),
                        ),
                    )
                }
            },
            _ => (e, finish_failed()),
        },
        UpdateStage::Name { list } => {
            let e2 = match reply {
                ReadReply::Text(Some(n)) => Entity { name: n, ..e },
                _ => e,
            };
            (
                e2,
                UpdateStep::Read(
                    UpdateStage::PawnHandle { list },
                    ReadRequest::Int32((e.controller + Offsets::m_hPawn) as usize),
                ),
            )
        },
        UpdateStage::PawnHandle { list } => match reply {
            ReadReply::Int32(Some(h)) => (
                e,
                UpdateStep::Read(
                    UpdateStage::PawnEntry { handle: h },
                    ReadRequest::Pointer(chunk_address_of(list as int, h) as usize),
                ),
            ),
            _ => (e, finish_failed()),
        },
        UpdateStage::PawnEntry { handle } => match reply {
            ReadReply::Pointer(Some(c)) => (
                e,
                UpdateStep::Read(
                    UpdateStage::Pawn,
                    ReadRequest::Pointer(slot_address_of(c as int, handle) as usize),
                ),
            ),
            _ => (e, finish_failed()),
        },
        UpdateStage::Pawn => match reply {
            ReadReply::Pointer(Some(p)) => {
                let e2 = Entity { pawn: p, ..e };
                if p == 0 {
                    (e2, finish_failed())
                } else {
                    (
                        e2,
                        UpdateStep::Read(
                            UpdateStage::Health,
                            ReadRequest::Int32((p + Offsets::m_iHealth) as usize),
                        ),
                    )
                }
            },
            _ => (e, finish_failed()),
        },
        UpdateStage::Health => {
            let h = match reply {
                ReadReply::Int32(Some(h)) => h,
                _ => 0,
            };
            (
                Entity { health: h, ..e },
                UpdateStep::Read(
                    UpdateStage::Team,
                    ReadRequest::Int32((e.pawn + Offsets::m_iTeamNum) as usize),
                ),
            )
        },
        UpdateStage::Team => {
            let t = match reply {
                ReadReply::Int32(Some(t)) => t,
                _ => 0,
            };
            (
                Entity { team: t, ..e },
                UpdateStep::Read(
                    UpdateStage::Dormant,
                    ReadRequest::Flag((e.pawn + Offsets::m_bDormant) as usize),
                ),
            )
        },
        UpdateStage::Dormant => {
            let d = match reply {
                ReadReply::Flag(Some(d)) => d,
                _ => true,
            };
            (
                Entity { dormant: d, ..e },
                UpdateStep::Read(
                    UpdateStage::Position,
                    ReadRequest::Point((e.pawn + Offsets::m_vOldOrigin) as usize),
                ),
            )
        },
        UpdateStage::Position => {
            let e2 = match reply {
                ReadReply::Point(Some(p)) => Entity { position: p, ..e },
                _ => e,
            };
            (
                e2,
                UpdateStep::Read(
                    UpdateStage::Head(BoneStage::SceneNode { bone: Offsets::BONE_HEAD }),
                    ReadRequest::Pointer((e.pawn + Offsets::m_pGameSceneNode) as usize),
                ),
            )
        },
        UpdateStage::Head(bone) => match bone_transition(bone, reply) {
            BoneStep::Read(next, request) => (e, UpdateStep::Read(UpdateStage::Head(next), request)),
            BoneStep::Done(Some(h)) => {
                let e2 = Entity { head_position: h, ..e };
                (e2, finish_alive(e2, false))
            },
            BoneStep::Done(None) => (e, finish_alive(e, true)),
        },
    }
}

impl Entity {
    /// Starts an update of this record from the game's memory: the entity
    /// list pointer is read first, at `dwEntityList` in the client module.
    pub fn start_update(&self, client_base: usize) -> (step: UpdateStep)
        requires
            client_base + Offsets::dwEntityList <= usize::MAX,
        ensures
            step == UpdateStep::Read(
                UpdateStage::EntityList,
                ReadRequest::Pointer((client_base + Offsets::dwEntityList) as usize),
            ),
    {
        UpdateStep::Read(UpdateStage::EntityList, ReadRequest::Pointer(client_base + Offsets::dwEntityList))
    }

    /// Takes an update one read further: the record takes in `reply`, the
    /// answer to the read that `stage` waits for, and the next read or the
    /// verdict comes back. An update that runs to its end answers whether
    /// the player is alive; one that ends early answers `false`.
    pub fn update(&mut self, stage: UpdateStage, reply: ReadReply) -> (step: UpdateStep)
        requires
            stage.admits(old(self).index, reply),
            stage.holds_for(*old(self)),
        ensures
            (*final(self), step) == update_transition(stage, *old(self), reply),
            final(self).index == old(self).index,
            step matches UpdateStep::Read(next, request) ==> {
                &&& next.rank() > stage.rank()
                &&& next.holds_for(*final(self))
                &&& request.well_formed()
            },
            step matches UpdateStep::Finish { alive: true, .. } ==> {
                &&& final(self).alive()
                &&& final(self).controller != 0
                &&& final(self).pawn != 0
            },
            step matches UpdateStep::Finish { alive, .. } ==> alive == (stage is Head
                && final(self).health > 0 && !final(self).dormant),
    {
        match stage {
            UpdateStage::EntityList => match reply {
                ReadReply::Pointer(Some(list)) => UpdateStep::Read(
                    UpdateStage::ListEntry { list },
                    ReadRequest::Pointer(chunk_address(list, self.index)),
                ),
                _ => UpdateStep::Finish { alive: false, estimate_head: false },
            },
            UpdateStage::ListEntry { list } => match reply {
                ReadReply::Pointer(Some(entry)) => UpdateStep::Read(
                    UpdateStage::Controller { list },
                    ReadRequest::Pointer(slot_address(entry, self.index)),
                ),
                _ => UpdateStep::Finish { alive: false, estimate_head: false },
            },
            UpdateStage::Controller { list } => match reply {
                ReadReply::Pointer(Some(controller)) => {
                    self.controller = controller;
                    if controller == 0 {
                        UpdateStep::Finish { alive: false, estimate_head: false }
                    } else {
                        UpdateStep::Read(
                            UpdateStage::Name { list },
                            ReadRequest::Text(controller + Offsets::m_iszPlayerName, 64),
                        )
                    }
                },
                _ => UpdateStep::Finish { alive: false, estimate_head: false },
            },
            UpdateStage::Name { list } => {
                if let ReadReply::Text(Some(name)) = reply {
                    self.name = name;
                }
                UpdateStep::Read(
                    UpdateStage::PawnHandle { list },
                    ReadRequest::Int32(self.controller + Offsets::m_hPawn),
                )
            },
            UpdateStage::PawnHandle { list } => match reply {
                ReadReply::Int32(Some(handle)) => UpdateStep::Read(
                    UpdateStage::PawnEntry { handle },
                    ReadRequest::Pointer(chunk_address(list, handle)),
                ),
                _ => UpdateStep::Finish { alive: false, estimate_head: false },
            },
            UpdateStage::PawnEntry { handle } => match reply {
                ReadReply::Pointer(Some(entry)) => UpdateStep::Read(
                    UpdateStage::Pawn,
                    ReadRequest::Pointer(slot_address(entry, handle)),
                ),
                _ => UpdateStep::Finish { alive: false, estimate_head: false },
            },
            UpdateStage::Pawn => match reply {
                ReadReply::Pointer(Some(pawn)) => {
                    self.pawn = pawn;
                    if pawn == 0 {
                        UpdateStep::Finish { alive: false, estimate_head: false }
                    } else {
                        UpdateStep::Read(
                            UpdateStage::Health,
                            ReadRequest::Int32(pawn + Offsets::m_iHealth),
                        )
                    }
                },
                _ => UpdateStep::Finish { alive: false, estimate_head: false },
            },
            UpdateStage::Health => {
                self.health = match reply {
                    ReadReply::Int32(Some(health)) => health,
                    _ => 0,
                };
                UpdateStep::Read(UpdateStage::Team, ReadRequest::Int32(self.pawn + Offsets::m_iTeamNum))
            },
            UpdateStage::Team => {
                self.team = match reply {
                    ReadReply::Int32(Some(team)) => team,
                    _ => 0,
                };
                UpdateStep::Read(UpdateStage::Dormant, ReadRequest::Flag(self.pawn + Offsets::m_bDormant))
            },
            UpdateStage::Dormant => {
                self.dormant = match reply {
                    ReadReply::Flag(Some(dormant)) => dormant,
                    _ => true,
                };
                UpdateStep::Read(UpdateStage::Position, ReadRequest::Point(self.pawn + Offsets::m_vOldOrigin))
            },
            UpdateStage::Position => {
                if let ReadReply::Point(Some(position)) = reply {
                    self.position = position;
                }
                match self.get_head_position() {
                    BoneStep::Read(bone, request) => UpdateStep::Read(UpdateStage::Head(bone), request),
                    BoneStep::Done(_) => UpdateStep::Finish { alive: self.is_alive(), estimate_head: true },
                }
            },
            UpdateStage::Head(bone) => match Entity::resume_bone_pos(bone, reply) {
                BoneStep::Read(next, request) => UpdateStep::Read(UpdateStage::Head(next), request),
                BoneStep::Done(Some(head)) => {
                    self.head_position = head;
                    UpdateStep::Finish { alive: self.is_alive(), estimate_head: false }
                },
                BoneStep::Done(None) => UpdateStep::Finish { alive: self.is_alive(), estimate_head: true },
            },
        }
    }
}


/// The bones whose positions are collected for drawing the skeleton, in the
/// order they are looked up.
pub open spec fn skeleton_bones() -> Seq<usize> {
    seq![
        Offsets::BONE_HEAD,
        Offsets::BONE_NECK_END,
        Offsets::BONE_LEFT_SHOULDER,
        Offsets::BONE_LEFT_ELBOW,
        Offsets::BONE_RIGHT_SHOULDER,
        Offsets::BONE_RIGHT_ELBOW,
        Offsets::HAND_L_BONE,
        Offsets::HAND_R_BONE,
        Offsets::BONE_PELVIS,
        Offsets::BONE_LEFT_HIP,
        Offsets::BONE_LEFT_KNEE,
        Offsets::BONE_LEFT_FOOT,
        Offsets::BONE_RIGHT_HIP,
        Offsets::BONE_RIGHT_KNEE,
        Offsets::BONE_RIGHT_FOOT,
    ]
}

/// The bone at position `slot` of [`skeleton_bones`].
fn skeleton_bone(slot: usize) -> (bone: usize)
    requires
        slot < skeleton_bones().len(),
    ensures
        bone == skeleton_bones()[slot as int],
{
    let bones: Vec<usize> = vec![
        Offsets::BONE_HEAD,
        Offsets::BONE_NECK_END,
        Offsets::BONE_LEFT_SHOULDER,
        Offsets::BONE_LEFT_ELBOW,
        Offsets::BONE_RIGHT_SHOULDER,
        Offsets::BONE_RIGHT_ELBOW,
        Offsets::HAND_L_BONE,
        Offsets::HAND_R_BONE,
        Offsets::BONE_PELVIS,
        Offsets::BONE_LEFT_HIP,
        Offsets::BONE_LEFT_KNEE,
        Offsets::BONE_LEFT_FOOT,
        Offsets::BONE_RIGHT_HIP,
        Offsets::BONE_RIGHT_KNEE,
        Offsets::BONE_RIGHT_FOOT,
    ];
    assert(bones@ == skeleton_bones());
    bones[slot]
}

/// Where a skeleton collection stands: the bone being looked up, by its
/// position in [`skeleton_bones`], and how far its lookup has come.
#[derive(Clone, Copy, Debug, PartialEq, Eq)]
pub struct SkeletonStage {
    pub slot: usize,
    pub bone: BoneStage,
}

/// What a skeleton collection asks for next.
#[derive(Clone, Copy, Debug, PartialEq, Eq)]
pub enum SkeletonStep {
    Read(SkeletonStage, ReadRequest),
    Done,
}

impl SkeletonStage {
    /// The stage looks up the bone that its slot names, and the reply fits
    /// the stage.
    pub open spec fn admits(self, reply: ReadReply) -> bool {
        &&& self.slot < skeleton_bones().len()
        &&& match self.bone {
            BoneStage::SceneNode { bone } => bone == skeleton_bones()[self.slot as int],
            BoneStage::Skeleton { bone } => bone == skeleton_bones()[self.slot as int],
            BoneStage::Bone => true,
        }
        &&& self.bone.admits(reply)
    }

    /// How far the collection has come.
    pub open spec fn rank(self) -> nat {
        self.slot as nat * 3 + self.bone.rank()
    }
}

/// The first read of the lookup of the bone in slot `slot` of a pawn.
pub open spec fn skeleton_lookup_start(pawn: usize, slot: int) -> SkeletonStep {
    SkeletonStep::Read(
        SkeletonStage {
            slot: slot as usize,
            bone: BoneStage::SceneNode { bone: skeleton_bones()[slot] },
        },
        ReadRequest::Pointer((pawn + Offsets::m_pGameSceneNode) as usize),
    )
}

impl Entity {
    /// Whether a scanned player counts as an enemy of the local player: it
    /// is not the local pawn, the local team is known, and the player is on
    /// the other of the two playing teams (2 and 3).
    pub fn is_enemy_of(&self, local_pawn: usize, local_team: i32) -> (enemy: bool)
        ensures
            enemy == (self.pawn != local_pawn && self.team != local_team && local_team != 0 && (
            self.team == 2 || self.team == 3)),
    {
        if self.pawn == local_pawn {
            return false;
        }
        self.team != local_team && local_team != 0 && (self.team == 2 || self.team == 3)
    }

    /// Starts collecting the positions of the skeleton's bones. Without a
    /// pawn there is nothing to collect.
    pub fn get_bone_positions(&self) -> (step: SkeletonStep)
        requires
            self.pawn != 0 ==> self.pawn + Offsets::m_pGameSceneNode <= usize::MAX,
        ensures
            self.pawn == 0 ==> step == SkeletonStep::Done,
            self.pawn != 0 ==> step == skeleton_lookup_start(self.pawn, 0),
    {
        if self.pawn == 0 {
            return SkeletonStep::Done;
        }
        let bone = skeleton_bone(0);
        SkeletonStep::Read(
            SkeletonStage { slot: 0, bone: BoneStage::SceneNode { bone } },
            ReadRequest::Pointer(self.pawn + Offsets::m_pGameSceneNode),
        )
    }

    /// Takes a skeleton collection one read further. Each bone is looked up
    /// as [`Entity::get_bone_pos`] does; a bone that is found goes into
    /// `bones` under its id, one that is not is left out, and the next bone
    /// follows until all have been tried.
    pub fn resume_bone_positions(
        &self,
        stage: SkeletonStage,
        reply: ReadReply,
        bones: &mut std::collections::HashMap<usize, glam::Vec3>,
    ) -> (step: SkeletonStep)
        requires
            self.pawn != 0,
            self.pawn + Offsets::m_pGameSceneNode <= usize::MAX,
            stage.admits(reply),
        ensures
            match bone_transition(stage.bone, reply) {
                BoneStep::Read(next, request) => {
                    &&& step == SkeletonStep::Read(SkeletonStage { slot: stage.slot, bone: next }, request)
                    &&& final(bones)@ == old(bones)@
                },
                BoneStep::Done(found) => {
                    &&& final(bones)@ == match found {
                        Some(p) => old(bones)@.insert(skeleton_bones()[stage.slot as int], p),
                        None => old(bones)@,
                    }
                    &&& if stage.slot + 1 < skeleton_bones().len() {
                        step == skeleton_lookup_start(self.pawn, stage.slot + 1)
                    } else {
                        step == SkeletonStep::Done
                    }
                },
            },
            step matches SkeletonStep::Read(next, request) ==> {
                &&& next.rank() > stage.rank()
                &&& request.well_formed()
            },
    {
        broadcast use vstd::std_specs::hash::group_hash_axioms;

        match Entity::resume_bone_pos(stage.bone, reply) {
            BoneStep::Read(next, request) => SkeletonStep::Read(
                SkeletonStage { slot: stage.slot, bone: next },
                request,
            ),
            BoneStep::Done(found) => {
                if let Some(position) = found {
                    bones.insert(skeleton_bone(stage.slot), position);
                }
                if stage.slot + 1 < 15 {
                    let bone = skeleton_bone(stage.slot + 1);
                    SkeletonStep::Read(
                        SkeletonStage { slot: stage.slot + 1, bone: BoneStage::SceneNode { bone } },
                        ReadRequest::Pointer(self.pawn + Offsets::m_pGameSceneNode),
                    )
                } else {
                    SkeletonStep::Done
                }
            },
        }
    }
}


/// An update reads at most 14 times: every read leaves it at a later stage
/// (see the `ensures` of [`Entity::update`]) and no stage comes after the
/// 14th.
pub proof fn lemma_update_stages_are_few(stage: UpdateStage)
    ensures
        stage.rank() <= 13,
{
}

/// A skeleton collection reads at most 45 times, three reads per bone.
pub proof fn lemma_skeleton_stages_are_few(stage: SkeletonStage)
    requires
        stage.slot < skeleton_bones().len(),
    ensures
        stage.rank() <= 44,
{
}


/// The verdict of an update: an update that ends while it looks up the head
/// bone, found or not, has read everything and answers exactly whether the
/// player has health left and is not dormant; one that ends at any earlier
/// stage (a failed read, a null controller or pawn) answers `false`.
pub proof fn lemma_update_verdict(stage: UpdateStage, e: Entity, reply: ReadReply)
    ensures
        update_transition(stage, e, reply).1 matches UpdateStep::Finish { alive, .. } ==> alive == (
        stage is Head && update_transition(stage, e, reply).0.health > 0 && !update_transition(
            stage,
            e,
            reply,
        ).0.dormant),
{
}

/// Once the skeleton pointer is known, the lookup of bone `bone` reads the
/// coordinates 32 bytes per bone into the skeleton, for that very bone, so
/// two different bones are read at different addresses; the scene node
/// step keeps the bone it was started for.
pub proof fn lemma_bone_read_address(bone: usize, other: usize, scene: usize, skeleton: usize)
    requires
        scene != 0,
        skeleton != 0,
        scene + 0x1D0 <= usize::MAX,
        skeleton + 32 * bone <= usize::MAX,
        skeleton + 32 * other <= usize::MAX,
    ensures
        bone_transition(BoneStage::SceneNode { bone }, ReadReply::Pointer(Some(scene)))
            == BoneStep::Read(
            BoneStage::Skeleton { bone },
            ReadRequest::Pointer((scene + 0x1D0) as usize),
        ),
        bone_transition(BoneStage::Skeleton { bone }, ReadReply::Pointer(Some(skeleton)))
            == BoneStep::Read(BoneStage::Bone, ReadRequest::Point((skeleton + 32 * bone) as usize)),
        bone != other ==> bone_transition(
            BoneStage::Skeleton { bone },
            ReadReply::Pointer(Some(skeleton)),
        ) != bone_transition(BoneStage::Skeleton { bone: other }, ReadReply::Pointer(Some(skeleton))),
{
}

/// The skeleton collection looks up fifteen different bones, one per
/// joint that the skeleton drawing uses: the head, the neck, both
/// shoulders, elbows and hands, the pelvis, and both hips, knees and feet.
pub proof fn lemma_skeleton_bones_are_the_fifteen_joints()
    ensures
        skeleton_bones().len() == 15,
        forall|i: int, j: int|
            0 <= i < j < 15 ==> skeleton_bones()[i] != skeleton_bones()[j],
        skeleton_bones().to_set() == set![
            25usize, 12usize, 13usize, 14usize, 9usize, 10usize, 15usize, 11usize,
            2usize, 20usize, 21usize, 22usize, 17usize, 18usize, 19usize,
        ],
        skeleton_bones().contains(Offsets::BONE_HEAD),
        skeleton_bones().contains(Offsets::BONE_NECK_END),
        skeleton_bones().contains(Offsets::BONE_LEFT_SHOULDER),
        skeleton_bones().contains(Offsets::BONE_LEFT_ELBOW),
        skeleton_bones().contains(Offsets::BONE_RIGHT_SHOULDER),
        skeleton_bones().contains(Offsets::BONE_RIGHT_ELBOW),
        skeleton_bones().contains(Offsets::HAND_L_BONE),
        skeleton_bones().contains(Offsets::HAND_R_BONE),
        skeleton_bones().contains(Offsets::BONE_PELVIS),
        skeleton_bones().contains(Offsets::BONE_LEFT_HIP),
        skeleton_bones().contains(Offsets::BONE_LEFT_KNEE),
        skeleton_bones().contains(Offsets::BONE_LEFT_FOOT),
        skeleton_bones().contains(Offsets::BONE_RIGHT_HIP),
        skeleton_bones().contains(Offsets::BONE_RIGHT_KNEE),
        skeleton_bones().contains(Offsets::BONE_RIGHT_FOOT),
{
    let b = skeleton_bones();
    assert(b[0] == 25 && b[1] == 12 && b[2] == 13 && b[3] == 14 && b[4] == 9 && b[5] == 10
        && b[6] == 15 && b[7] == 11 && b[8] == 2 && b[9] == 20 && b[10] == 21 && b[11] == 22
        && b[12] == 17 && b[13] == 18 && b[14] == 19);
    assert(b.to_set() =~= set![
        25usize, 12usize, 13usize, 14usize, 9usize, 10usize, 15usize, 11usize,
        2usize, 20usize, 21usize, 22usize, 17usize, 18usize, 19usize,
    ]) by {
        assert forall|x: usize| b.to_set().contains(x) implies set![
            25usize, 12usize, 13usize, 14usize, 9usize, 10usize, 15usize, 11usize,
            2usize, 20usize, 21usize, 22usize, 17usize, 18usize, 19usize,
        ].contains(x) by {
            let i = choose|i: int| 0 <= i < b.len() && b[i] == x;
        }
    }
}


/// An update walks the game's entity list: it reads the list pointer, then
/// the chunk cell and the 112-byte slot that the entity's own index selects
/// (bits 9..15 and bits 0..9), the controller's name (64 bytes at 0x6F4) and
/// pawn handle (at 0x6BC), the chunk cell and slot that the pawn handle
/// selects, and from the pawn its health (0x34C), team (0x3EB), dormant flag
/// (0x103), origin (0x1390) and scene node (0x330). Each step writes at
/// most the one field that its read fills in.
pub proof fn lemma_update_walks_the_entity_list(
    e: Entity,
    list: usize,
    chunk: usize,
    controller: usize,
    handle: i32,
    pawn: usize,
)
    requires
        controller != 0,
        pawn != 0,
        e.pawn == pawn,
        e.controller == controller,
    ensures
        update_transition(UpdateStage::EntityList, e, ReadReply::Pointer(Some(list))) == (
            e,
            UpdateStep::Read(
                UpdateStage::ListEntry { list },
                ReadRequest::Pointer((list + 16 + 8 * (((e.index & 0x7FFF) >> 9) as int)) as usize),
            ),
        ),
        update_transition(UpdateStage::ListEntry { list }, e, ReadReply::Pointer(Some(chunk))) == (
            e,
            UpdateStep::Read(
                UpdateStage::Controller { list },
                ReadRequest::Pointer((chunk + 112 * ((e.index & 0x1FF) as int)) as usize),
            ),
        ),
        update_transition(UpdateStage::Controller { list }, e, ReadReply::Pointer(Some(controller)))
            == ((Entity { controller, ..e }), UpdateStep::Read(
            UpdateStage::Name { list },
            ReadRequest::Text((controller + 0x6F4) as usize, 64),
        )),
        update_transition(UpdateStage::Name { list }, e, ReadReply::Text(None)) == (
            e,
            UpdateStep::Read(
                UpdateStage::PawnHandle { list },
                ReadRequest::Int32((controller + 0x6BC) as usize),
            ),
        ),
        update_transition(UpdateStage::PawnHandle { list }, e, ReadReply::Int32(Some(handle))) == (
            e,
            UpdateStep::Read(
                UpdateStage::PawnEntry { handle },
                ReadRequest::Pointer((list + 16 + 8 * (((handle & 0x7FFF) >> 9) as int)) as usize),
            ),
        ),
        update_transition(UpdateStage::PawnEntry { handle }, e, ReadReply::Pointer(Some(chunk))) == (
            e,
            UpdateStep::Read(
                UpdateStage::Pawn,
                ReadRequest::Pointer((chunk + 112 * ((handle & 0x1FF) as int)) as usize),
            ),
        ),
        update_transition(UpdateStage::Pawn, e, ReadReply::Pointer(Some(pawn))) == (
            e,
            UpdateStep::Read(UpdateStage::Health, ReadRequest::Int32((pawn + 0x34C) as usize)),
        ),
        update_transition(UpdateStage::Health, e, ReadReply::Int32(None)).1 == UpdateStep::Read(
            UpdateStage::Team,
            ReadRequest::Int32((pawn + 0x3EB) as usize),
        ),
        update_transition(UpdateStage::Team, e, ReadReply::Int32(None)).1 == UpdateStep::Read(
            UpdateStage::Dormant,
            ReadRequest::Flag((pawn + 0x103) as usize),
        ),
        update_transition(UpdateStage::Dormant, e, ReadReply::Flag(None)).1 == UpdateStep::Read(
            UpdateStage::Position,
            ReadRequest::Point((pawn + 0x1390) as usize),
        ),
        update_transition(UpdateStage::Position, e, ReadReply::Point(None)) == (
            e,
            UpdateStep::Read(
                UpdateStage::Head(BoneStage::SceneNode { bone: 25 }),
                ReadRequest::Pointer((pawn + 0x330) as usize),
            ),
        ),
{
}

/// What an update makes of failed reads: a failed read of the list, a
/// chunk cell, the controller, the pawn handle or the pawn, and a null
/// controller or pawn, end it with `false`, writing nothing but the null
/// pointer read; a failed name or origin read keeps the old value; a failed
/// health, team or dormant read gives health 0, team 0 and dormant.
pub proof fn lemma_update_failed_reads(e: Entity, list: usize, handle: i32, value: i32, flag: bool)
    ensures
        update_transition(UpdateStage::EntityList, e, ReadReply::Pointer(None)) == (e, finish_failed()),
        update_transition(UpdateStage::ListEntry { list }, e, ReadReply::Pointer(None)) == (
            e,
            finish_failed(),
        ),
        update_transition(UpdateStage::Controller { list }, e, ReadReply::Pointer(None)) == (
            e,
            finish_failed(),
        ),
        update_transition(UpdateStage::Controller { list }, e, ReadReply::Pointer(Some(0))) == (
            (Entity { controller: 0, ..e }),
            finish_failed(),
        ),
        update_transition(UpdateStage::PawnHandle { list }, e, ReadReply::Int32(None)) == (
            e,
            finish_failed(),
        ),
        update_transition(UpdateStage::PawnEntry { handle }, e, ReadReply::Pointer(None)) == (
            e,
            finish_failed(),
        ),
        update_transition(UpdateStage::Pawn, e, ReadReply::Pointer(None)) == (e, finish_failed()),
        update_transition(UpdateStage::Pawn, e, ReadReply::Pointer(Some(0))) == (
            (Entity { pawn: 0, ..e }),
            finish_failed(),
        ),
        finish_failed() == (UpdateStep::Finish { alive: false, estimate_head: false }),
        update_transition(UpdateStage::Name { list }, e, ReadReply::Text(None)).0 == e,
        update_transition(UpdateStage::Position, e, ReadReply::Point(None)).0 == e,
        update_transition(UpdateStage::Health, e, ReadReply::Int32(None)).0 == (Entity {
            health: 0,
            ..e
        }),
        update_transition(UpdateStage::Health, e, ReadReply::Int32(Some(value))).0 == (Entity {
            health: value,
            ..e
        }),
        update_transition(UpdateStage::Team, e, ReadReply::Int32(None)).0 == (Entity { team: 0, ..e }),
        update_transition(UpdateStage::Team, e, ReadReply::Int32(Some(value))).0 == (Entity {
            team: value,
            ..e
        }),
        update_transition(UpdateStage::Dormant, e, ReadReply::Flag(None)).0 == (Entity {
            dormant: true,
            ..e
        }),
        update_transition(UpdateStage::Dormant, e, ReadReply::Flag(Some(flag))).0 == (Entity {
            dormant: flag,
            ..e
        }),
{
}


/// The head lookup at the end of an update: when the head bone's
/// coordinates come back, they become the head position and no estimate is
/// asked for; when they, the scene node or the skeleton are missing, the
/// head is left as it was and an estimate is asked for. Either way the
/// verdict is whether the player has health left and is not dormant.
pub proof fn lemma_update_head(e: Entity, head: glam::Vec3, bone: usize)
    ensures
        update_transition(UpdateStage::Head(BoneStage::Bone), e, ReadReply::Point(Some(head))) == (
            (Entity { head_position: head, ..e }),
            UpdateStep::Finish { alive: e.health > 0 && !e.dormant, estimate_head: false },
        ),
        update_transition(UpdateStage::Head(BoneStage::Bone), e, ReadReply::Point(None)) == (
            e,
            UpdateStep::Finish { alive: e.health > 0 && !e.dormant, estimate_head: true },
        ),
        update_transition(
            UpdateStage::Head(BoneStage::SceneNode { bone }),
            e,
            ReadReply::Pointer(None),
        ) == (e, UpdateStep::Finish { alive: e.health > 0 && !e.dormant, estimate_head: true }),
        update_transition(
            UpdateStage::Head(BoneStage::Skeleton { bone }),
            e,
            ReadReply::Pointer(Some(0)),
        ) == (e, UpdateStep::Finish { alive: e.health > 0 && !e.dormant, estimate_head: true }),
{
}

}
