//! Generation-checked handle encoding.
//!
//! A handle packs a 16-bit generation above a 16-bit slot number; slot number
//! `0` and generation `0` are never issued, so the value `0` is never a handle.
use vstd::prelude::*;

use crate::codes::{MAX_GENERATION, MAX_SLOTS};
use crate::error::BridgeError;

verus! {

/// The handle value for slot `index` at `generation`.
pub open spec fn handle_value(index: int, generation: int) -> int {
    generation * 65536 + index + 1
}

/// The slot index a handle names (meaningful when its low half is non-zero).
pub open spec fn handle_index(handle: u32) -> int {
    (handle % 65536) as int - 1
}

/// The generation a handle names.
pub open spec fn handle_generation(handle: u32) -> int {
    (handle / 65536) as int
}

/// Whether a handle value is well formed (non-zero slot and generation).
pub open spec fn handle_well_formed(handle: u32) -> bool {
    handle % 65536 != 0 && handle / 65536 != 0
}

/// The generation that follows `generation`; the last generation retires the slot.
pub open spec fn spec_next_generation(generation: u16) -> u16 {
    if generation == MAX_GENERATION {
        0
    } else {
        (generation + 1) as u16
    }
}

/// Packs a slot index and a generation into a handle.
pub fn encode_handle(index: usize, generation: u16) -> (handle: u32)
    requires
        index < MAX_SLOTS,
    ensures
        handle == handle_value(index as int, generation as int),
{
    let slot: u32 = (index + 1) as u32;
    let g: u32 = generation as u32;
    assert(g < 65536);
    assert(1 <= slot < 65536);
    assert((g << 16u32) | slot == g * 65536 + slot) by (bit_vector)
        requires
            g < 65536,
            slot < 65536,
    ;
    (g << 16u32) | slot
}

/// Unpacks a handle into its slot index and generation.
///
/// Fails with `InvalidHandle` when either half is zero.
pub fn decode_handle(handle: u32) -> (res: Result<(usize, u16), BridgeError>)
    ensures
        res is Ok <==> handle_well_formed(handle),
        res matches Ok((index, generation)) ==> index == handle_index(handle) && generation
            == handle_generation(handle),
        res matches Err(e) ==> e == (BridgeError::InvalidHandle { handle }),
{
    let slot: u32 = handle & 0xffffu32;
    let generation: u32 = handle >> 16u32;
    assert(handle & 0xffffu32 == handle % 65536) by (bit_vector);
    assert(handle >> 16u32 == handle / 65536) by (bit_vector);
    if slot == 0 || generation == 0 {
        return Err(BridgeError::InvalidHandle { handle });
    }
    Ok(((slot - 1) as usize, generation as u16))
}

/// Advances a slot's generation; the last generation retires the slot (`0`).
pub fn next_generation(generation: u16) -> (next: u16)
    requires
        generation <= MAX_GENERATION,
    ensures
        next == spec_next_generation(generation),
        next == 0 || next > generation,
{
    if generation == MAX_GENERATION {
        0
    } else {
        generation + 1
    }
}

/// Decoding an encoded handle gives back its slot index and generation.
pub proof fn lemma_handle_roundtrip(index: int, generation: int)
    requires
        0 <= index < MAX_SLOTS,
        1 <= generation < 65536,
    ensures
        0 <= handle_value(index, generation) <= u32::MAX,
        handle_well_formed(handle_value(index, generation) as u32),
        handle_index(handle_value(index, generation) as u32) == index,
        handle_generation(handle_value(index, generation) as u32) == generation,
{
    let h = handle_value(index, generation);
    assert(h % 65536 == index + 1) by (nonlinear_arith)
        requires
            h == generation * 65536 + index + 1,
            0 <= index < 65535,
            0 <= generation,
    ;
    assert(h / 65536 == generation) by (nonlinear_arith)
        requires
            h == generation * 65536 + index + 1,
            0 <= index < 65535,
            0 <= generation,
    ;
    assert(h <= u32::MAX) by (nonlinear_arith)
        requires
            h == generation * 65536 + index + 1,
            0 <= index < 65535,
            generation < 65536,
    ;
}

/// Distinct (slot, generation) pairs give distinct handles.
pub proof fn lemma_handle_injective(i1: int, g1: int, i2: int, g2: int)
    requires
        0 <= i1 < MAX_SLOTS,
        0 <= i2 < MAX_SLOTS,
        1 <= g1 < 65536,
        1 <= g2 < 65536,
        handle_value(i1, g1) == handle_value(i2, g2),
    ensures
        i1 == i2,
        g1 == g2,
{
    lemma_handle_roundtrip(i1, g1);
    lemma_handle_roundtrip(i2, g2);
}

/// A well-formed handle is the encoding of its own slot index and generation.
pub proof fn lemma_handle_decompose(handle: u32)
    requires
        handle_well_formed(handle),
    ensures
        0 <= handle_index(handle) < MAX_SLOTS,
        1 <= handle_generation(handle) < 65536,
        handle as int == handle_value(handle_index(handle), handle_generation(handle)),
{
    let h = handle as int;
    assert(h == (h / 65536) * 65536 + h % 65536) by (nonlinear_arith);
    assert(h / 65536 < 65536) by (nonlinear_arith)
        requires
            0 <= h <= u32::MAX,
    ;
}

} // verus!
