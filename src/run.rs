//! The whole pipeline on bytes: decode the state and the block that follows
//! it, run the transition, encode the new state, or give a one-byte marker.
use crate::transition::{state_transition, transition};
use crate::types::{BeaconState, SignedBeaconBlock};
use crate::wire::{enc_state, parse_signed_block, parse_state};
use vstd::prelude::*;
use vstd::slice::slice_subrange;

verus! {

/// Output marker: the state could not be decoded.
pub const STATE_DECODE_ERROR: u8 = 0xFF;

/// Output marker: the block could not be decoded.
pub const BLOCK_DECODE_ERROR: u8 = 0xFE;

/// Output marker: the transition failed.
pub const TRANSITION_ERROR: u8 = 0xFD;

/// The output for input bytes `d`: the encoded post-state, or a marker byte.
pub open spec fn transition_output(d: Seq<u8>) -> Seq<u8> {
    match parse_state(d, 0) {
        None => seq![STATE_DECODE_ERROR],
        Some((s, off)) => match parse_signed_block(d.subrange(off as int, d.len() as int), 0) {
            None => seq![BLOCK_DECODE_ERROR],
            Some((b, _o)) => match transition(s, b.message) {
                None => seq![TRANSITION_ERROR],
                Some(t) => enc_state(t),
            },
        },
    }
}

fn marker(b: u8) -> (r: Vec<u8>)
    ensures
        r@ == seq![b],
{
    let mut r: Vec<u8> = Vec::new();
    r.push(b);
    assert(r@ =~= seq![b]);
    r
}

/// Runs the transition on `encode(state) ++ encode(block)`; the result is a
/// function of the input bytes alone.
pub fn run_transition(input: &[u8]) -> (r: Vec<u8>)
    ensures
        r@ == transition_output(input@),
{
    match BeaconState::deserialize(input) {
        Some((pre_state, offset)) => {
            let rest = slice_subrange(input, offset, input.len());
            match SignedBeaconBlock::deserialize(rest) {
                Some((signed_block, _o)) => match state_transition(pre_state, &signed_block) {
                    Ok(post_state) => post_state.serialize(),
                    Err(_e) => marker(TRANSITION_ERROR),
                },
                None => marker(BLOCK_DECODE_ERROR),
            }
        },
        None => marker(STATE_DECODE_ERROR),
    }
}

} // verus!
