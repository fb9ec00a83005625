use vstd::prelude::*;

verus! {

/// Whether a key state word, as the operating system reports it for an
/// asynchronous key query, says that the key is held down: the most
/// significant bit of the 16-bit word is set.
pub open spec fn spec_key_down(state: i16) -> bool {
    state < 0
}

/// Tests the "held down" bit of a key state word.
pub fn key_state_pressed(state: i16) -> (pressed: bool)
    ensures
        pressed == spec_key_down(state),
{
    let mask: i16 = 0x8000u16 as i16;
    assert(mask == i16::MIN) by (bit_vector)
        requires mask == 0x8000u16 as i16;
    assert((state & mask != 0) == (state < 0)) by (bit_vector)
        requires mask == i16::MIN;
    (state & mask) != 0
}

}
