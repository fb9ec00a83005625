use vstd::prelude::*;

use crate::config::CheatSwitches;
use crate::entity::Entity;
use crate::handles::{chunk_address, chunk_address_of, slot_address, slot_address_of};
use crate::keys::{key_state_pressed, spec_key_down};
use crate::offsets::Offsets;
use crate::reads::{ReadReply, ReadRequest};

verus! {

/// Moves the view towards the nearest enemy head on screen while its key
/// is held.
pub struct Aimbot;

impl Aimbot {
    /// Whether aiming is active this frame: it is enabled and its key,
    /// whose state word is `key_state`, is held down.
    pub fn should_aim(switches: &CheatSwitches, key_state: i16) -> (aim: bool)
        ensures
            aim == (switches.aimbot_enabled && spec_key_down(key_state)),
    {
        switches.aimbot_enabled && key_state_pressed(key_state)
    }

    /// Whether a player may be aimed at: it is alive and not on the local
    /// player's team.
    pub fn is_target(entity: &Entity, local_team: i32) -> (target: bool)
        ensures
            target == (entity.alive() && entity.team != local_team),
    {
        entity.is_alive() && entity.team != local_team
    }
}

/// Fires while the crosshair rests on an enemy.
pub struct TriggerBot;

/// What a trigger run keeps from start to end: where the client module
/// lies, the local player's team, and the pauses before and after a shot.
#[derive(Clone, Copy, Debug, PartialEq, Eq)]
pub struct TriggerContext {
    pub client_base: usize,
    pub local_team: i32,
    pub delay_ms: u64,
    pub scan_delay_ms: u64,
}

/// Where a trigger run stands: the read, pause or shot it waits for.
#[derive(Clone, Copy, Debug, PartialEq, Eq)]
pub enum TriggerStage {
    /// Waiting for the local pawn pointer.
    LocalPawn,
    /// Waiting for the index of the entity under the crosshair.
    TargetIndex,
    /// Waiting for the entity list pointer.
    EntityList { index: i32 },
    /// Waiting for the chunk pointer of the target's index.
    ListEntry { list: usize, index: i32 },
    /// Waiting for the target's controller pointer.
    Controller { list: usize },
    /// Waiting for the team that the target's controller reports.
    TargetTeam { list: usize, controller: usize },
    /// Waiting for the controller's pawn handle.
    PawnHandle { list: usize, team: i32 },
    /// Waiting for the chunk pointer of the pawn handle.
    PawnEntry { team: i32, handle: i32 },
    /// Waiting for the target's pawn pointer.
    Pawn { team: i32 },
    /// Waiting for the target's health.
    Health { team: i32 },
    /// Waiting for the pause before the shot to end.
    Delayed { team: i32 },
    /// Waiting for the shot to be fired.
    Fired { team: i32 },
    /// Waiting for the pause after the shot to end.
    Rested,
}

/// What the caller reports back: the answer to a read, or that a pause or
/// the shot is over.
#[derive(Clone, Debug, PartialEq)]
pub enum TriggerEvent {
    Replied(ReadReply),
    Completed,
}

/// What a trigger run asks for next.
#[derive(Clone, Copy, Debug, PartialEq, Eq)]
pub enum TriggerStep {
    /// Read the game's memory.
    Read(TriggerStage, ReadRequest),
    /// Pause for the given number of milliseconds.
    Sleep(TriggerStage, u64),
    /// Fire one shot.
    Shoot(TriggerStage),
    /// The run is over.
    Done,
}

/// A team that a trigger run fires at: known (not 0) and not the local
/// player's.
pub open spec fn is_hostile(team: i32, local_team: i32) -> bool {
    team != 0 && team != local_team
}

impl TriggerStage {
    /// The event is of the kind this stage waits for, and every address that
    /// the run computes from it exists.
    pub open spec fn admits(self, ctx: TriggerContext, event: TriggerEvent) -> bool {
        match self {
            TriggerStage::LocalPawn => match event {
                TriggerEvent::Replied(ReadReply::Pointer(Some(p))) => p + Offsets::m_iIDEntIndex
                    <= usize::MAX,
                TriggerEvent::Replied(ReadReply::Pointer(None)) => true,
                _ => false,
            },
            TriggerStage::TargetIndex => match event {
                TriggerEvent::Replied(ReadReply::Int32(Some(i))) => i > 0 ==> ctx.client_base
                    + Offsets::dwEntityList <= usize::MAX,
                TriggerEvent::Replied(ReadReply::Int32(None)) => true,
                _ => false,
            },
            TriggerStage::EntityList { index } => match event {
                TriggerEvent::Replied(ReadReply::Pointer(Some(l))) => chunk_address_of(
                    l as int,
                    index,
                ) <= usize::MAX,
                TriggerEvent::Replied(ReadReply::Pointer(None)) => true,
                _ => false,
            },
            TriggerStage::ListEntry { index, .. } => match event {
                TriggerEvent::Replied(ReadReply::Pointer(Some(e))) => slot_address_of(e as int, index)
                    <= usize::MAX,
                TriggerEvent::Replied(ReadReply::Pointer(None)) => true,
                _ => false,
            },
            TriggerStage::Controller { .. } => match event {
                TriggerEvent::Replied(ReadReply::Pointer(Some(c))) => c != 0 ==> c + Offsets::m_hPawn
                    <= usize::MAX,
                TriggerEvent::Replied(ReadReply::Pointer(None)) => true,
                _ => false,
            },
            TriggerStage::TargetTeam { .. } => event matches TriggerEvent::Replied(
                ReadReply::Int32(_),
            ),
            TriggerStage::PawnHandle { list, .. } => match event {
                TriggerEvent::Replied(ReadReply::Int32(Some(h))) => chunk_address_of(list as int, h)
                    <= usize::MAX,
                TriggerEvent::Replied(ReadReply::Int32(None)) => true,
                _ => false,
            },
            TriggerStage::PawnEntry { handle, .. } => match event {
                TriggerEvent::Replied(ReadReply::Pointer(Some(e))) => slot_address_of(
                    e as int,
                    handle,
                ) <= usize::MAX,
                TriggerEvent::Replied(ReadReply::Pointer(None)) => true,
                _ => false,
            },
            TriggerStage::Pawn { .. } => match event {
                TriggerEvent::Replied(ReadReply::Pointer(Some(p))) => p != 0 ==> p + Offsets::m_iHealth
                    <= usize::MAX,
                TriggerEvent::Replied(ReadReply::Pointer(None)) => true,
                _ => false,
            },
            TriggerStage::Health { .. } => event matches TriggerEvent::Replied(ReadReply::Int32(_)),
            TriggerStage::Delayed { .. } => event is Completed,
            TriggerStage::Fired { .. } => event is Completed,
            TriggerStage::Rested => event is Completed,
        }
    }

    /// What the stages of a run keep true: the controller it reads from is
    /// not null and its fields exist, and a pending shot aims at a hostile
    /// team.
    pub open spec fn holds_for(self, ctx: TriggerContext) -> bool {
        match self {
            TriggerStage::TargetTeam { controller, .. } => controller != 0 && controller
                + Offsets::m_hPawn <= usize::MAX,
            TriggerStage::Delayed { team } => is_hostile(team, ctx.local_team),
            TriggerStage::Fired { team } => is_hostile(team, ctx.local_team),
            _ => true,
        }
    }

    /// How far the run has come.
    pub open spec fn rank(self) -> nat {
        match self {
            TriggerStage::LocalPawn => 0,
            TriggerStage::TargetIndex => 1,
            TriggerStage::EntityList { .. } => 2,
            TriggerStage::ListEntry { .. } => 3,
            TriggerStage::Controller { .. } => 4,
            TriggerStage::TargetTeam { .. } => 5,
            TriggerStage::PawnHandle { .. } => 6,
            TriggerStage::PawnEntry { .. } => 7,
            TriggerStage::Pawn { .. } => 8,
            TriggerStage::Health { .. } => 9,
            TriggerStage::Delayed { .. } => 10,
            TriggerStage::Fired { .. } => 11,
            TriggerStage::Rested => 12,
        }
    }
}

impl TriggerStep {
    /// The stage that the step leaves the run in, if it goes on.
    pub open spec fn stage(self) -> Option<TriggerStage> {
        match self {
            TriggerStep::Read(s, _) => Some(s),
            TriggerStep::Sleep(s, _) => Some(s),
            TriggerStep::Shoot(s) => Some(s),
            TriggerStep::Done => None,
        }
    }
}

/// What a trigger run does after the health of a target of team `team` is
/// read: against a hostile team it pauses for the configured delay, if
/// there is one, and then shoots; otherwise it is over.
pub open spec fn after_health(ctx: TriggerContext, team: i32) -> TriggerStep {
    if is_hostile(team, ctx.local_team) {
        if ctx.delay_ms > 0 {
            TriggerStep::Sleep(TriggerStage::Delayed { team }, ctx.delay_ms)
        } else {
            TriggerStep::Shoot(TriggerStage::Fired { team })
        }
    } else {
        TriggerStep::Done
    }
}

/// One step of a trigger run. A failed read, a target index that is not
/// positive, and a null controller or pawn end the run; the target's team is
/// read from its controller, its health is read and not used, and a shot is
/// followed by the configured scan pause.
pub open spec fn trigger_transition(
    ctx: TriggerContext,
    stage: TriggerStage,
    event: TriggerEvent,
) -> TriggerStep {
    match stage {
        TriggerStage::LocalPawn => match event {
            TriggerEvent::Replied(ReadReply::Pointer(Some(p))) => TriggerStep::Read(
                TriggerStage::TargetIndex,
                ReadRequest::Int32((p + Offsets::m_iIDEntIndex) as usize),
            ),
            _ => TriggerStep::Done,
        },
        TriggerStage::TargetIndex => match event {
            TriggerEvent::Replied(ReadReply::Int32(Some(i))) => if i > 0 {
                TriggerStep::Read(
                    TriggerStage::EntityList { index: i },
                    ReadRequest::Pointer((ctx.client_base + Offsets::dwEntityList) as usize),
                )
            } else {
                TriggerStep::Done
            },
            _ => TriggerStep::Done,
        },
        TriggerStage::EntityList { index } => match event {
            TriggerEvent::Replied(ReadReply::Pointer(Some(l))) => TriggerStep::Read(
                TriggerStage::ListEntry { list: l, index },
                ReadRequest::Pointer(chunk_address_of(l as int, index) as usize),
            ),
            _ => TriggerStep::Done,
        },
        TriggerStage::ListEntry { list, index } => match event {
            TriggerEvent::Replied(ReadReply::Pointer(Some(e))) => TriggerStep::Read(
                TriggerStage::Controller { list },
                ReadRequest::Pointer(slot_address_of(e as int, index) as usize),
            ),
            _ => TriggerStep::Done,
        },
        TriggerStage::Controller { list } => match event {
            TriggerEvent::Replied(ReadReply::Pointer(Some(c))) => if c != 0 {
                TriggerStep::Read(
                    TriggerStage::TargetTeam { list, controller: c },
                    ReadRequest::Int32((c + Offsets::m_iTeamNum) as usize),
                )
            } else {
                TriggerStep::Done
            },
            _ => TriggerStep::Done,
        },
        TriggerStage::TargetTeam { list, controller } => match event {
            TriggerEvent::Replied(ReadReply::Int32(Some(t))) => TriggerStep::Read(
                TriggerStage::PawnHandle { list, team: t },
                ReadRequest::Int32((controller + Offsets::m_hPawn) as usize),
            ),
            _ => TriggerStep::Done,
        },
        TriggerStage::PawnHandle { list, team } => match event {
            TriggerEvent::Replied(ReadReply::Int32(Some(h))) => TriggerStep::Read(
                TriggerStage::PawnEntry { team, handle: h },
                ReadRequest::Pointer(chunk_address_of(list as int, h) as usize),
            ),
            _ => TriggerStep::Done,
        },
        TriggerStage::PawnEntry { team, handle } => match event {
            TriggerEvent::Replied(ReadReply::Pointer(Some(e))) => TriggerStep::Read(
                TriggerStage::Pawn { team },
                ReadRequest::Pointer(slot_address_of(e as int, handle) as usize),
            ),
            _ => TriggerStep::Done,
        },
        TriggerStage::Pawn { team } => match event {
            TriggerEvent::Replied(ReadReply::Pointer(Some(p))) => if p != 0 {
                TriggerStep::Read(
                    TriggerStage::Health { team },
                    ReadRequest::Int32((p + Offsets::m_iHealth) as usize),
                )
            } else {
                TriggerStep::Done
            },
            _ => TriggerStep::Done,
        },
        TriggerStage::Health { team } => after_health(ctx, team),
        TriggerStage::Delayed { team } => TriggerStep::Shoot(TriggerStage::Fired { team }),
        TriggerStage::Fired { .. } => TriggerStep::Sleep(TriggerStage::Rested, ctx.scan_delay_ms),
        TriggerStage::Rested => TriggerStep::Done,
    }
}

impl TriggerBot {
    /// Starts a trigger run. It does nothing when triggering is off, or when
    /// the trigger key, whose state word is `key_state`, is not held and
    /// triggering works only while it is held; otherwise it reads the local
    /// pawn pointer at `dwLocalPlayerPawn` in the client module.
    pub fn run(switches: &CheatSwitches, key_state: i16, client_base: usize) -> (step: TriggerStep)
        requires
            switches.trigger_bot_enabled && (spec_key_down(key_state) || !switches.trigger_hold_mode)
                ==> client_base + Offsets::dwLocalPlayerPawn <= usize::MAX,
        ensures
            step == if !switches.trigger_bot_enabled || (!spec_key_down(key_state)
                && switches.trigger_hold_mode) {
                TriggerStep::Done
            } else {
                TriggerStep::Read(
                    TriggerStage::LocalPawn,
                    ReadRequest::Pointer((client_base + Offsets::dwLocalPlayerPawn) as usize),
                )
            },
    {
        if !switches.trigger_bot_enabled {
            return TriggerStep::Done;
        }
        let pressed = key_state_pressed(key_state);
        if !pressed && switches.trigger_hold_mode {
            return TriggerStep::Done;
        }
        TriggerStep::Read(
            TriggerStage::LocalPawn,
            ReadRequest::Pointer(client_base + Offsets::dwLocalPlayerPawn),
        )
    }

    /// The context that a run started by [`TriggerBot::run`] carries: the
    /// client module's address, the local team and the two pauses from the
    /// settings.
    pub fn context(switches: &CheatSwitches, client_base: usize, local_team: i32) -> (ctx:
        TriggerContext)
        ensures
            ctx == (TriggerContext {
                client_base,
                local_team,
                delay_ms: switches.trigger_delay_ms,
                scan_delay_ms: switches.trigger_scan_delay_ms,
            }),
    {
        TriggerContext {
            client_base,
            local_team,
            delay_ms: switches.trigger_delay_ms,
            scan_delay_ms: switches.trigger_scan_delay_ms,
        }
    }

    /// Takes a trigger run one step further, given what became of the step
    /// that `stage` waits for. A shot is only ever asked for at a target
    /// whose team is known and not the local team.
    pub fn resume(ctx: &TriggerContext, stage: TriggerStage, event: TriggerEvent) -> (step:
        TriggerStep)
        requires
            stage.admits(*ctx, event),
            stage.holds_for(*ctx),
        ensures
            step == trigger_transition(*ctx, stage, event),
            step.stage() matches Some(next) ==> next.rank() > stage.rank() && next.holds_for(*ctx),
            step matches TriggerStep::Read(_, request) ==> request.well_formed(),
            step matches TriggerStep::Shoot(TriggerStage::Fired { team }) ==> is_hostile(
                team,
                ctx.local_team,
            ),
            step is Shoot ==> step matches TriggerStep::Shoot(TriggerStage::Fired { .. }),
            stage matches TriggerStage::Health { team } ==> if team != 0 && team != ctx.local_team {
                if ctx.delay_ms > 0 {
                    step == TriggerStep::Sleep(TriggerStage::Delayed { team }, ctx.delay_ms)
                } else {
                    step == TriggerStep::Shoot(TriggerStage::Fired { team })
                }
            } else {
                step == TriggerStep::Done
            },
            stage matches TriggerStage::Delayed { team } ==> step == TriggerStep::Shoot(
                TriggerStage::Fired { team },
            ),
            stage is Fired ==> step == TriggerStep::Sleep(TriggerStage::Rested, ctx.scan_delay_ms),
    {
        match stage {
            TriggerStage::LocalPawn => match event {
                TriggerEvent::Replied(ReadReply::Pointer(Some(pawn))) => TriggerStep::Read(
                    TriggerStage::TargetIndex,
                    ReadRequest::Int32(pawn + Offsets::m_iIDEntIndex),
                ),
                _ => TriggerStep::Done,
            },
            TriggerStage::TargetIndex => match event {
                TriggerEvent::Replied(ReadReply::Int32(Some(index))) => {
                    if index <= 0 {
                        TriggerStep::Done
                    } else {
                        TriggerStep::Read(
                            TriggerStage::EntityList { index },
                            ReadRequest::Pointer(ctx.client_base + Offsets::dwEntityList),
                        )
                    }
                },
                _ => TriggerStep::Done,
            },
            TriggerStage::EntityList { index } => match event {
                TriggerEvent::Replied(ReadReply::Pointer(Some(list))) => TriggerStep::Read(
                    TriggerStage::ListEntry { list, index },
                    ReadRequest::Pointer(chunk_address(list, index)),
                ),
                _ => TriggerStep::Done,
            },
            TriggerStage::ListEntry { list, index } => match event {
                TriggerEvent::Replied(ReadReply::Pointer(Some(entry))) => TriggerStep::Read(
                    TriggerStage::Controller { list },
                    ReadRequest::Pointer(slot_address(entry, index)),
                ),
                _ => TriggerStep::Done,
            },
            TriggerStage::Controller { list } => match event {
                TriggerEvent::Replied(ReadReply::Pointer(Some(controller))) => {
                    if controller == 0 {
                        TriggerStep::Done
                    } else {
                        TriggerStep::Read(
                            TriggerStage::TargetTeam { list, controller },
                            ReadRequest::Int32(controller + Offsets::m_iTeamNum),
                        )
                    }
                },
                _ => TriggerStep::Done,
            },
            TriggerStage::TargetTeam { list, controller } => match event {
                TriggerEvent::Replied(ReadReply::Int32(Some(team))) => TriggerStep::Read(
                    TriggerStage::PawnHandle { list, team },
                    ReadRequest::Int32(controller + Offsets::m_hPawn),
                ),
                _ => TriggerStep::Done,
            },
            TriggerStage::PawnHandle { list, team } => match event {
                TriggerEvent::Replied(ReadReply::Int32(Some(handle))) => TriggerStep::Read(
                    TriggerStage::PawnEntry { team, handle },
                    ReadRequest::Pointer(chunk_address(list, handle)),
                ),
                _ => TriggerStep::Done,
            },
            TriggerStage::PawnEntry { team, handle } => match event {
                TriggerEvent::Replied(ReadReply::Pointer(Some(entry))) => TriggerStep::Read(
                    TriggerStage::Pawn { team },
                    ReadRequest::Pointer(slot_address(entry, handle)),
                ),
                _ => TriggerStep::Done,
            },
            TriggerStage::Pawn { team } => match event {
                TriggerEvent::Replied(ReadReply::Pointer(Some(pawn))) => {
                    if pawn == 0 {
                        TriggerStep::Done
                    } else {
                        TriggerStep::Read(
                            TriggerStage::Health { team },
                            ReadRequest::Int32(pawn + Offsets::m_iHealth),
                        )
                    }
                },
                _ => TriggerStep::Done,
            },
            TriggerStage::Health { team } => {
                if team != 0 && team != ctx.local_team {
                    if ctx.delay_ms > 0 {
                        TriggerStep::Sleep(TriggerStage::Delayed { team }, ctx.delay_ms)
                    } else {
                        TriggerStep::Shoot(TriggerStage::Fired { team })
                    }
                } else {
                    TriggerStep::Done
                }
            },
            TriggerStage::Delayed { team } => TriggerStep::Shoot(TriggerStage::Fired { team }),
            TriggerStage::Fired { .. } => TriggerStep::Sleep(TriggerStage::Rested, ctx.scan_delay_ms),
            TriggerStage::Rested => TriggerStep::Done,
        }
    }
}


/// A trigger run takes at most 13 steps: every step leaves it at a later
/// stage (see the `ensures` of [`TriggerBot::resume`]) and no stage comes
/// after the 13th.
pub proof fn lemma_trigger_stages_are_few(stage: TriggerStage)
    ensures
        stage.rank() <= 12,
{
}


/// Once the target's health has been read, the team read from the target's
/// controller alone decides: a target of a known team other than the local
/// one is fired at, after the configured delay when there is one, whatever
/// its health; a target of team 0 or of the local team is not. A shot is
/// then followed by the scan pause, and the run ends.
pub proof fn lemma_trigger_fires_exactly_at_hostile_targets(
    ctx: TriggerContext,
    team: i32,
    health: Option<i32>,
)
    ensures
        team != 0 && team != ctx.local_team && ctx.delay_ms > 0 ==> trigger_transition(
            ctx,
            TriggerStage::Health { team },
            TriggerEvent::Replied(ReadReply::Int32(health)),
        ) == TriggerStep::Sleep(TriggerStage::Delayed { team }, ctx.delay_ms),
        team != 0 && team != ctx.local_team && ctx.delay_ms == 0 ==> trigger_transition(
            ctx,
            TriggerStage::Health { team },
            TriggerEvent::Replied(ReadReply::Int32(health)),
        ) == TriggerStep::Shoot(TriggerStage::Fired { team }),
        team == 0 || team == ctx.local_team ==> trigger_transition(
            ctx,
            TriggerStage::Health { team },
            TriggerEvent::Replied(ReadReply::Int32(health)),
        ) == TriggerStep::Done,
        trigger_transition(ctx, TriggerStage::Delayed { team }, TriggerEvent::Completed)
            == TriggerStep::Shoot(TriggerStage::Fired { team }),
        trigger_transition(ctx, TriggerStage::Fired { team }, TriggerEvent::Completed)
            == TriggerStep::Sleep(TriggerStage::Rested, ctx.scan_delay_ms),
        trigger_transition(ctx, TriggerStage::Rested, TriggerEvent::Completed) == TriggerStep::Done,
{
}


/// A trigger run finds its target the way the game does: the index under
/// the crosshair is read at 0x33FC in the local pawn; only a positive index
/// goes on, to the entity list, the chunk cell and 112-byte slot that the
/// index selects, the controller's team (0x3EB) and pawn handle (0x6BC), the
/// chunk cell and slot that the pawn handle selects, and the pawn's health
/// (0x34C). Failed reads and null pointers end the run.
pub proof fn lemma_trigger_walks_the_entity_list(
    ctx: TriggerContext,
    local_pawn: usize,
    index: i32,
    list: usize,
    chunk: usize,
    controller: usize,
    team: i32,
    handle: i32,
    pawn: usize,
)
    requires
        controller != 0,
        pawn != 0,
    ensures
        trigger_transition(
            ctx,
            TriggerStage::LocalPawn,
            TriggerEvent::Replied(ReadReply::Pointer(Some(local_pawn))),
        ) == TriggerStep::Read(
            TriggerStage::TargetIndex,
            ReadRequest::Int32((local_pawn + 0x33FC) as usize),
        ),
        index > 0 ==> trigger_transition(
            ctx,
            TriggerStage::TargetIndex,
            TriggerEvent::Replied(ReadReply::Int32(Some(index))),
        ) == TriggerStep::Read(
            TriggerStage::EntityList { index },
            ReadRequest::Pointer((ctx.client_base + 0x24E76A0) as usize),
        ),
        index <= 0 ==> trigger_transition(
            ctx,
            TriggerStage::TargetIndex,
            TriggerEvent::Replied(ReadReply::Int32(Some(index))),
        ) == TriggerStep::Done,
        trigger_transition(
            ctx,
            TriggerStage::EntityList { index },
            TriggerEvent::Replied(ReadReply::Pointer(Some(list))),
        ) == TriggerStep::Read(
            TriggerStage::ListEntry { list, index },
            ReadRequest::Pointer((list + 16 + 8 * (((index & 0x7FFF) >> 9) as int)) as usize),
        ),
        trigger_transition(
            ctx,
            TriggerStage::ListEntry { list, index },
            TriggerEvent::Replied(ReadReply::Pointer(Some(chunk))),
        ) == TriggerStep::Read(
            TriggerStage::Controller { list },
            ReadRequest::Pointer((chunk + 112 * ((index & 0x1FF) as int)) as usize),
        ),
        trigger_transition(
            ctx,
            TriggerStage::Controller { list },
            TriggerEvent::Replied(ReadReply::Pointer(Some(controller))),
        ) == TriggerStep::Read(
            TriggerStage::TargetTeam { list, controller },
            ReadRequest::Int32((controller + 0x3EB) as usize),
        ),
        trigger_transition(
            ctx,
            TriggerStage::Controller { list },
            TriggerEvent::Replied(ReadReply::Pointer(Some(0))),
        ) == TriggerStep::Done,
        trigger_transition(
            ctx,
            TriggerStage::TargetTeam { list, controller },
            TriggerEvent::Replied(ReadReply::Int32(Some(team))),
        ) == TriggerStep::Read(
            TriggerStage::PawnHandle { list, team },
            ReadRequest::Int32((controller + 0x6BC) as usize),
        ),
        trigger_transition(
            ctx,
            TriggerStage::PawnHandle { list, team },
            TriggerEvent::Replied(ReadReply::Int32(Some(handle))),
        ) == TriggerStep::Read(
            TriggerStage::PawnEntry { team, handle },
            ReadRequest::Pointer((list + 16 + 8 * (((handle & 0x7FFF) >> 9) as int)) as usize),
        ),
        trigger_transition(
            ctx,
            TriggerStage::PawnEntry { team, handle },
            TriggerEvent::Replied(ReadReply::Pointer(Some(chunk))),
        ) == TriggerStep::Read(
            TriggerStage::Pawn { team },
            ReadRequest::Pointer((chunk + 112 * ((handle & 0x1FF) as int)) as usize),
        ),
        trigger_transition(
            ctx,
            TriggerStage::Pawn { team },
            TriggerEvent::Replied(ReadReply::Pointer(Some(pawn))),
        ) == TriggerStep::Read(
            TriggerStage::Health { team },
            ReadRequest::Int32((pawn + 0x34C) as usize),
        ),
        trigger_transition(
            ctx,
            TriggerStage::Pawn { team },
            TriggerEvent::Replied(ReadReply::Pointer(Some(0))),
        ) == TriggerStep::Done,
        trigger_transition(
            ctx,
            TriggerStage::LocalPawn,
            TriggerEvent::Replied(ReadReply::Pointer(None)),
        ) == TriggerStep::Done,
        trigger_transition(
            ctx,
            TriggerStage::TargetIndex,
            TriggerEvent::Replied(ReadReply::Int32(None)),
        ) == TriggerStep::Done,
        trigger_transition(
            ctx,
            TriggerStage::EntityList { index },
            TriggerEvent::Replied(ReadReply::Pointer(None)),
        ) == TriggerStep::Done,
        trigger_transition(
            ctx,
            TriggerStage::ListEntry { list, index },
            TriggerEvent::Replied(ReadReply::Pointer(None)),
        ) == TriggerStep::Done,
        trigger_transition(
            ctx,
            TriggerStage::Controller { list },
            TriggerEvent::Replied(ReadReply::Pointer(None)),
        ) == TriggerStep::Done,
        trigger_transition(
            ctx,
            TriggerStage::TargetTeam { list, controller },
            TriggerEvent::Replied(ReadReply::Int32(None)),
        ) == TriggerStep::Done,
        trigger_transition(
            ctx,
            TriggerStage::PawnHandle { list, team },
            TriggerEvent::Replied(ReadReply::Int32(None)),
        ) == TriggerStep::Done,
        trigger_transition(
            ctx,
            TriggerStage::PawnEntry { team, handle },
            TriggerEvent::Replied(ReadReply::Pointer(None)),
        ) == TriggerStep::Done,
        trigger_transition(
            ctx,
            TriggerStage::Pawn { team },
            TriggerEvent::Replied(ReadReply::Pointer(None)),
        ) == TriggerStep::Done,
{
}

}
