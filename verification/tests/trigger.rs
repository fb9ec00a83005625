use std::collections::HashMap;

use game_overlay::aim::{TriggerBot, TriggerContext, TriggerEvent, TriggerStage, TriggerStep};
use game_overlay::config::CheatSwitches;
use game_overlay::offsets::Offsets;
use game_overlay::reads::{ReadReply, ReadRequest};

const CLIENT: usize = 0x10000;
const LOCAL_PAWN: usize = 0x300000;
const LIST: usize = 0x500000;
const CHUNK0: usize = 0x600000;
const CONTROLLER: usize = 0x700000;
const CHUNK1: usize = 0x800000;
const PAWN: usize = 0x900000;

#[derive(Default, Clone)]
struct Memory {
    pointers: HashMap<usize, usize>,
    ints: HashMap<usize, i32>,
}

/// The crosshair rests on entity 5, of team `team`.
fn world(team: i32) -> Memory {
    let mut m = Memory::default();
    m.pointers.insert(CLIENT + Offsets::dwLocalPlayerPawn, LOCAL_PAWN);
    m.ints.insert(LOCAL_PAWN + Offsets::m_iIDEntIndex, 5);
    m.pointers.insert(CLIENT + Offsets::dwEntityList, LIST);
    m.pointers.insert(LIST + 16, CHUNK0);
    m.pointers.insert(CHUNK0 + 112 * 5, CONTROLLER);
    m.ints.insert(CONTROLLER + Offsets::m_iTeamNum, team);
    m.ints.insert(CONTROLLER + Offsets::m_hPawn, 0x0203);
    m.pointers.insert(LIST + 8 + 16, CHUNK1);
    m.pointers.insert(CHUNK1 + 112 * 3, PAWN);
    m.ints.insert(PAWN + Offsets::m_iHealth, 100);
    m
}

#[derive(Debug, PartialEq)]
enum Act {
    Read(ReadRequest),
    Sleep(u64),
    Shoot,
}

/// Runs a trigger pass and lists what it asked for.
fn run(switches: &CheatSwitches, key_state: i16, local_team: i32, memory: &Memory) -> Vec<Act> {
    let ctx = TriggerBot::context(switches, CLIENT, local_team);
    let mut step = TriggerBot::run(switches, key_state, CLIENT);
    let mut acts = Vec::new();
    loop {
        step = match step {
            TriggerStep::Read(stage, request) => {
                acts.push(Act::Read(request));
                let reply = match request {
                    ReadRequest::Pointer(a) => ReadReply::Pointer(memory.pointers.get(&a).copied()),
                    ReadRequest::Int32(a) => ReadReply::Int32(memory.ints.get(&a).copied()),
                    other => panic!("unexpected read {:?}", other),
                };
                TriggerBot::resume(&ctx, stage, TriggerEvent::Replied(reply))
            }
            TriggerStep::Sleep(stage, ms) => {
                acts.push(Act::Sleep(ms));
                TriggerBot::resume(&ctx, stage, TriggerEvent::Completed)
            }
            TriggerStep::Shoot(stage) => {
                acts.push(Act::Shoot);
                TriggerBot::resume(&ctx, stage, TriggerEvent::Completed)
            }
            TriggerStep::Done => return acts,
        }
    }
}

fn enabled() -> CheatSwitches {
    let mut s = CheatSwitches::default();
    s.trigger_bot_enabled = true;
    s
}

#[test]
fn disabled_trigger_does_nothing() {
    let s = CheatSwitches::default();
    assert_eq!(TriggerBot::run(&s, i16::MIN, CLIENT), TriggerStep::Done);
}

#[test]
fn hold_mode_waits_for_the_key() {
    let s = enabled();
    assert_eq!(TriggerBot::run(&s, 0, CLIENT), TriggerStep::Done);
    assert_eq!(
        TriggerBot::run(&s, i16::MIN, CLIENT),
        TriggerStep::Read(
            TriggerStage::LocalPawn,
            ReadRequest::Pointer(CLIENT + Offsets::dwLocalPlayerPawn)
        )
    );
}

#[test]
fn without_hold_mode_the_key_is_not_needed() {
    let mut s = enabled();
    s.trigger_hold_mode = false;
    assert!(matches!(TriggerBot::run(&s, 0, CLIENT), TriggerStep::Read(TriggerStage::LocalPawn, _)));
}

#[test]
fn fires_at_an_enemy_then_rests() {
    let s = enabled();
    let acts = run(&s, i16::MIN, 2, &world(3));
    assert_eq!(
        acts,
        vec![
            Act::Read(ReadRequest::Pointer(CLIENT + Offsets::dwLocalPlayerPawn)),
            Act::Read(ReadRequest::Int32(LOCAL_PAWN + Offsets::m_iIDEntIndex)),
            Act::Read(ReadRequest::Pointer(CLIENT + Offsets::dwEntityList)),
            Act::Read(ReadRequest::Pointer(LIST + 16)),
            Act::Read(ReadRequest::Pointer(CHUNK0 + 112 * 5)),
            Act::Read(ReadRequest::Int32(CONTROLLER + Offsets::m_iTeamNum)),
            Act::Read(ReadRequest::Int32(CONTROLLER + Offsets::m_hPawn)),
            Act::Read(ReadRequest::Pointer(LIST + 8 + 16)),
            Act::Read(ReadRequest::Pointer(CHUNK1 + 112 * 3)),
            Act::Read(ReadRequest::Int32(PAWN + Offsets::m_iHealth)),
            Act::Shoot,
            Act::Sleep(1),
        ]
    );
}

#[test]
fn waits_the_configured_delay_before_firing() {
    let mut s = enabled();
    s.trigger_delay_ms = 25;
    s.trigger_scan_delay_ms = 7;
    let acts = run(&s, i16::MIN, 2, &world(3));
    assert_eq!(&acts[10..], &[Act::Sleep(25), Act::Shoot, Act::Sleep(7)]);
}

#[test]
fn does_not_fire_at_teammates_or_unknown_teams() {
    let s = enabled();
    let acts = run(&s, i16::MIN, 3, &world(3));
    assert_eq!(acts.len(), 10);
    assert!(!acts.contains(&Act::Shoot));
    let acts = run(&s, i16::MIN, 2, &world(0));
    assert_eq!(acts.len(), 10);
    assert!(!acts.contains(&Act::Shoot));
}

#[test]
fn fires_even_at_a_dead_target() {
    // The target's health is read but does not decide.
    let s = enabled();
    let mut memory = world(3);
    memory.ints.insert(PAWN + Offsets::m_iHealth, 0);
    assert!(run(&s, i16::MIN, 2, &memory).contains(&Act::Shoot));
}

#[test]
fn stops_when_nothing_is_under_the_crosshair() {
    let s = enabled();
    let mut memory = world(3);
    memory.ints.insert(LOCAL_PAWN + Offsets::m_iIDEntIndex, 0);
    assert_eq!(run(&s, i16::MIN, 2, &memory).len(), 2);
    memory.ints.insert(LOCAL_PAWN + Offsets::m_iIDEntIndex, -4);
    assert_eq!(run(&s, i16::MIN, 2, &memory).len(), 2);
}

#[test]
fn stops_on_failed_reads_and_null_pointers() {
    let s = enabled();
    let mut memory = world(3);
    memory.pointers.remove(&(CLIENT + Offsets::dwLocalPlayerPawn));
    assert_eq!(run(&s, i16::MIN, 2, &memory).len(), 1);

    let mut memory = world(3);
    memory.pointers.insert(CHUNK0 + 112 * 5, 0);
    assert_eq!(run(&s, i16::MIN, 2, &memory).len(), 5);

    let mut memory = world(3);
    memory.ints.remove(&(CONTROLLER + Offsets::m_iTeamNum));
    assert_eq!(run(&s, i16::MIN, 2, &memory).len(), 6);

    let mut memory = world(3);
    memory.pointers.insert(CHUNK1 + 112 * 3, 0);
    assert_eq!(run(&s, i16::MIN, 2, &memory).len(), 9);
}

#[test]
fn context_carries_the_pauses() {
    let mut s = enabled();
    s.trigger_delay_ms = 3;
    s.trigger_scan_delay_ms = 4;
    assert_eq!(
        TriggerBot::context(&s, 9, 2),
        TriggerContext { client_base: 9, local_team: 2, delay_ms: 3, scan_delay_ms: 4 }
    );
}
