//! Byte- and word-level helpers shared by the CPU, MMU, and PPU proofs.

use vstd::prelude::*;

verus! {

/// The byte that an integer wraps to (two's-complement truncation).
pub open spec fn wrap8(v: int) -> u8 {
    (v % 256) as u8
}

/// The 16-bit word that an integer wraps to.
pub open spec fn wrap16(v: int) -> u16 {
    (v % 0x10000) as u16
}

/// Little-endian assembly of two bytes into a 16-bit word.
pub open spec fn word16(hi: u8, lo: u8) -> u16 {
    ((hi as u16) << 8u16) | (lo as u16)
}

/// High byte of a 16-bit word.
pub open spec fn hi8(v: u16) -> u8 {
    (v >> 8u16) as u8
}

/// Low byte of a 16-bit word.
pub open spec fn lo8(v: u16) -> u8 {
    (v & 0xFFu16) as u8
}

/// Splitting a word into bytes and reassembling them gives the word back,
/// and assembling two bytes and taking them apart gives the bytes back.
pub proof fn lemma_u16_bytes()
    by (bit_vector)
    ensures
        forall|v: u16| #[trigger] word16(hi8(v), lo8(v)) == v,
        forall|hi: u8, lo: u8| hi8(#[trigger] word16(hi, lo)) == hi,
        forall|hi: u8, lo: u8| lo8(#[trigger] word16(hi, lo)) == lo,
{
}

/// Shifting a byte eight places left is multiplication by 256; the result
/// is at most 0xFF00.
pub proof fn lemma_shl8()
    by (bit_vector)
    ensures
        forall|v: u8| #[trigger] ((v as u16) << 8u16) == (v as u16) * 256,
{
}

/// Masking the low nibble off a 16-bit word leaves a low byte whose low
/// nibble is zero.
pub proof fn lemma_mask_low_nibble()
    by (bit_vector)
    ensures
        forall|v: u16| #[trigger] lo8(v & 0xFFF0u16) & 0x0Fu8 == 0u8,
{
}

} // verus!
