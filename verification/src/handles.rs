use vstd::prelude::*;

verus! {

// The game keeps its entities in a two-level table. The low 15 bits of an
// entity handle name the entity; bits 9..15 pick one of 64 chunk pointers
// stored after a 16-byte header of the entity list, and bits 0..9 pick one
// of the 512 slots, 112 bytes apart, inside that chunk.

/// Chunk number that a handle selects in the entity list.
pub open spec fn chunk_of(handle: i32) -> int {
    ((handle & 0x7FFF) >> 9) as int
}

/// Slot number that a handle selects inside its chunk.
pub open spec fn slot_of(handle: i32) -> int {
    (handle & 0x1FF) as int
}

/// Address of the chunk pointer that a handle selects, in an entity list
/// that starts at `list`.
pub open spec fn chunk_address_of(list: int, handle: i32) -> int {
    list + 8 * chunk_of(handle) + 16
}

/// Address of the slot that a handle selects, in a chunk that starts at
/// `chunk`.
pub open spec fn slot_address_of(chunk: int, handle: i32) -> int {
    chunk + 112 * slot_of(handle)
}

/// The entity number that a handle names: its low 15 bits.
pub open spec fn entity_number(handle: i32) -> int {
    (handle & 0x7FFF) as int
}

proof fn lemma_handle_bits(handle: i32)
    by (bit_vector)
    ensures
        0 <= ((handle & 0x7FFF) >> 9) < 64,
        0 <= (handle & 0x1FF) < 512,
        ((handle & 0x7FFF) >> 9) * 512 + (handle & 0x1FF) == (handle & 0x7FFF),
{
}

/// A chunk number lies in 0..64 and a slot number in 0..512.
pub proof fn lemma_handle_ranges(handle: i32)
    ensures
        0 <= chunk_of(handle) < 64,
        0 <= slot_of(handle) < 512,
{
    lemma_handle_bits(handle);
}

/// The chunk and the slot that a handle selects are the two digits, in base
/// 512, of the entity number that the handle names: the lookup through the
/// entity list reaches entity `chunk * 512 + slot`, and two handles reach the
/// same slot exactly when they name the same entity.
pub proof fn lemma_chunk_and_slot_name_the_entity(handle: i32, other: i32)
    ensures
        chunk_of(handle) * 512 + slot_of(handle) == entity_number(handle),
        (chunk_of(handle) == chunk_of(other) && slot_of(handle) == slot_of(other))
            <==> entity_number(handle) == entity_number(other),
{
    lemma_handle_bits(handle);
    lemma_handle_bits(other);
}

/// Chunk number that a handle selects.
pub fn chunk_index(handle: i32) -> (index: usize)
    ensures
        index == chunk_of(handle),
        index == ((handle & 0x7FFF) >> 9) as int,
        index < 64,
{
    proof {
        lemma_handle_bits(handle);
    }
    let c: i32 = (handle & 0x7FFF) >> 9;
    c as usize
}

/// Slot number that a handle selects.
pub fn slot_index(handle: i32) -> (index: usize)
    ensures
        index == slot_of(handle),
        index == (handle & 0x1FF) as int,
        index < 512,
{
    proof {
        lemma_handle_bits(handle);
    }
    let s: i32 = handle & 0x1FF;
    s as usize
}

/// Address of the chunk pointer that `handle` selects in the entity list at
/// `entity_list`.
pub fn chunk_address(entity_list: usize, handle: i32) -> (address: usize)
    requires
        chunk_address_of(entity_list as int, handle) <= usize::MAX,
    ensures
        address == chunk_address_of(entity_list as int, handle),
        address == entity_list + 16 + 8 * (((handle & 0x7FFF) >> 9) as int),
{
    entity_list + (8 * chunk_index(handle)) + 16
}

/// Address of the slot that `handle` selects in the chunk at `chunk`.
pub fn slot_address(chunk: usize, handle: i32) -> (address: usize)
    requires
        slot_address_of(chunk as int, handle) <= usize::MAX,
    ensures
        address == slot_address_of(chunk as int, handle),
        address == chunk + 112 * ((handle & 0x1FF) as int),
{
    chunk + 112 * slot_index(handle)
}


/// Each of the 512 slots of a chunk has its own 112-byte record: the slot
/// address of a handle lies 112 times its low nine bits past the chunk, so
/// two handles with different slot bits reach different records of the
/// same chunk, and all records lie within the chunk's 512 * 112 bytes.
pub proof fn lemma_slot_addresses_are_distinct(chunk: int, handle: i32, other: i32)
    ensures
        slot_address_of(chunk, handle) == chunk + 112 * ((handle & 0x1FF) as int),
        chunk <= slot_address_of(chunk, handle) <= chunk + 112 * 511,
        (handle & 0x1FF) != (other & 0x1FF) ==> slot_address_of(chunk, handle)
            != slot_address_of(chunk, other),
        (handle & 0x1FF) == (other & 0x1FF) ==> slot_address_of(chunk, handle)
            == slot_address_of(chunk, other),
{
    lemma_handle_bits(handle);
    lemma_handle_bits(other);
}

/// Each of the 64 chunk pointers has its own 8-byte cell after the list's
/// 16-byte header: the chunk pointer of a handle lies at 16 plus 8 times
/// bits 9..15 of the handle, so handles with different chunk bits read
/// different cells.
pub proof fn lemma_chunk_addresses_are_distinct(list: int, handle: i32, other: i32)
    ensures
        chunk_address_of(list, handle) == list + 16 + 8 * (((handle & 0x7FFF) >> 9) as int),
        list + 16 <= chunk_address_of(list, handle) <= list + 16 + 8 * 63,
        ((handle & 0x7FFF) >> 9) != ((other & 0x7FFF) >> 9) ==> chunk_address_of(list, handle)
            != chunk_address_of(list, other),
{
    lemma_handle_bits(handle);
    lemma_handle_bits(other);
}

}
