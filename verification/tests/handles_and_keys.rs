use game_overlay::handles::{chunk_address, chunk_index, slot_address, slot_index};
use game_overlay::keys::key_state_pressed;
use game_overlay::offsets::Offsets;

#[test]
fn key_state_high_bit_means_pressed() {
    assert!(key_state_pressed(i16::MIN));
    assert!(key_state_pressed(-1));
    assert!(key_state_pressed(0x8001u16 as i16));
    assert!(!key_state_pressed(0));
    assert!(!key_state_pressed(1));
    assert!(!key_state_pressed(0x7FFF));
}

#[test]
fn handle_splits_into_chunk_and_slot() {
    assert_eq!(chunk_index(0x1234), 9);
    assert_eq!(slot_index(0x1234), 0x34);
    assert_eq!(chunk_index(0), 0);
    assert_eq!(slot_index(0), 0);
    // Only the low 15 bits count.
    assert_eq!(chunk_index(0x1234 | 0x8000), 9);
    assert_eq!(slot_index(0x1234 | 0x8000), 0x34);
    assert_eq!(chunk_index(-1), 63);
    assert_eq!(slot_index(-1), 511);
}

#[test]
fn chunk_and_slot_name_the_entity_number() {
    for handle in [0i32, 1, 511, 512, 0x1234, 0x7FFF, -1, i32::MAX, i32::MIN] {
        assert_eq!(
            chunk_index(handle) * 512 + slot_index(handle),
            (handle & 0x7FFF) as usize
        );
    }
}

#[test]
fn chunk_and_slot_addresses() {
    assert_eq!(chunk_address(0x1000, 0x1234), 0x1000 + 8 * 9 + 16);
    assert_eq!(slot_address(0x2000, 0x1234), 0x2000 + 112 * 0x34);
    assert_eq!(chunk_address(0, 1), 16);
    assert_eq!(slot_address(0, 1), 112);
}

#[test]
fn offsets_hold_their_values() {
    assert_eq!(Offsets::dwEntityList, 0x24E76A0);
    assert_eq!(Offsets::dwLocalPlayerPawn, 0x2341698);
    assert_eq!(Offsets::m_iHealth, 0x34C);
    assert_eq!(Offsets::BONE_HEAD, 25);
    assert_eq!(Offsets::m_iItemDefinitionIndex, 0x1BA);
}
