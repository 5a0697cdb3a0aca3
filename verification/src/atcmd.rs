//! Framing for the checksum-protected extended-command sub-protocol that
//! rides on the Extension-Unit transport.
//!
//! A full frame is `[0xa1, length_indicator, 0x00, 0x00, command_id (4 bytes
//! little-endian), input bytes..., checksum]`, where the trailing checksum
//! byte (an LRC) is chosen so that all frame bytes sum to zero modulo 256.
//! A lighter fixed-layout variant with family tags `0x06`/`0x07` carries a
//! single sub-command byte (plus, for the 10-byte family, one parameter
//! byte) and ends in the same checksum.

use vstd::prelude::*;
use vstd::arithmetic::div_mod::lemma_add_mod_noop;
use vstd::arithmetic::div_mod::lemma_mod_twice;
use vstd::arithmetic::div_mod::lemma_small_mod;

use crate::protocol::UVC_FAMILY_TAG;

verus! {

// ---------------------------------------------------------------------------
// Byte sums and the LRC checksum
// ---------------------------------------------------------------------------

/// The sum of the first `n` bytes of `s`, as an unbounded integer.
pub open spec fn byte_sum_to(s: Seq<u8>, n: int) -> int
    decreases n,
{
    if n <= 0 {
        0
    } else {
        byte_sum_to(s, n - 1) + s[n - 1]
    }
}

/// The sum of all bytes of `s`, as an unbounded integer.
pub open spec fn byte_sum(s: Seq<u8>) -> int {
    byte_sum_to(s, s.len() as int)
}

/// The LRC checksum of `s`: the byte that brings the sum of `s` plus the
/// checksum to zero modulo 256.
pub open spec fn spec_lrc(s: Seq<u8>) -> u8 {
    ((256 - (byte_sum(s) % 256)) % 256) as u8
}

/// `s` followed by its own LRC checksum byte.
pub open spec fn spec_with_lrc(s: Seq<u8>) -> Seq<u8> {
    s.push(spec_lrc(s))
}

/// `byte_sum_to` only looks at the first `n` bytes.
proof fn lemma_byte_sum_to_prefix(s: Seq<u8>, t: Seq<u8>, n: int)
    requires
        0 <= n <= s.len(),
        n <= t.len(),
        forall|i: int| 0 <= i < n ==> s[i] == t[i],
    ensures
        byte_sum_to(s, n) == byte_sum_to(t, n),
    decreases n,
{
    if n > 0 {
        lemma_byte_sum_to_prefix(s, t, n - 1);
    }
}

/// The sum of every byte is non-negative.
proof fn lemma_byte_sum_to_nonneg(s: Seq<u8>, n: int)
    ensures
        byte_sum_to(s, n) >= 0,
    decreases n,
{
    if n > 0 {
        lemma_byte_sum_to_nonneg(s, n - 1);
    }
}

/// The checksum invariant: appending the LRC of a byte sequence yields a
/// sequence whose bytes sum to zero modulo 256.
pub proof fn lemma_lrc_balances(s: Seq<u8>)
    ensures
        byte_sum(spec_with_lrc(s)) % 256 == 0,
{
    let a = byte_sum(s);
    let c = spec_lrc(s) as int;
    let w = spec_with_lrc(s);
    assert(w.len() == s.len() + 1);
    assert(byte_sum_to(w, s.len() as int) == byte_sum_to(s, s.len() as int)) by {
        lemma_byte_sum_to_prefix(s, w, s.len() as int);
    }
    assert(byte_sum(w) == a + c);
    lemma_byte_sum_to_nonneg(s, s.len() as int);
    assert(c == (256 - (a % 256)) % 256);
    if a % 256 == 0 {
        assert(c == 0);
        lemma_add_mod_noop(a, 0, 256);
    } else {
        lemma_small_mod((256 - (a % 256)) as nat, 256);
        assert(c == 256 - (a % 256));
        lemma_add_mod_noop(a, c, 256);
        lemma_mod_twice(a, 256);
        lemma_small_mod(c as nat, 256);
        assert(((a % 256) + (c % 256)) % 256 == (a + c) % 256);
        assert((a % 256) + c == 256);
        lemma_small_mod(0, 256);
    }
}

/// Compute the running byte sum of `v` modulo 256 and append the LRC
/// checksum, so that the whole vector then sums to zero modulo 256.
pub fn append_lrc(v: &mut Vec<u8>)
    ensures
        final(v)@ == spec_with_lrc(old(v)@),
        byte_sum(final(v)@) % 256 == 0,
{
    let mut sum: u8 = 0;
    let mut i: usize = 0;
    while i < v.len()
        invariant
            0 <= i <= v.len(),
            v@ == old(v)@,
            sum as int == byte_sum_to(v@, i as int) % 256,
        decreases v.len() - i,
    {
        proof {
            lemma_byte_sum_to_nonneg(v@, i as int);
            lemma_add_mod_noop(byte_sum_to(v@, i as int), v@[i as int] as int, 256);
            lemma_mod_twice(byte_sum_to(v@, i as int), 256);
            lemma_small_mod(v@[i as int] as nat, 256);
        }
        sum = (((sum as u16) + (v[i] as u16)) % 256) as u8;
        i += 1;
    }
    let chk: u8 = (((256u16 - (sum as u16)) % 256) as u8);
    proof {
        lemma_byte_sum_to_nonneg(v@, v@.len() as int);
        assert(chk == spec_lrc(v@));
        lemma_lrc_balances(v@);
    }
    v.push(chk);
}

// ---------------------------------------------------------------------------
// Little-endian encoding of the command identifier
// ---------------------------------------------------------------------------

/// The four little-endian bytes of a 32-bit value.
pub open spec fn spec_u32_le(x: u32) -> Seq<u8> {
    seq![
        (x % 256) as u8,
        ((x / 256) % 256) as u8,
        ((x / 65536) % 256) as u8,
        ((x / 16777216) % 256) as u8,
    ]
}

/// Append the four little-endian bytes of `x` to `v`.
fn push_u32_le(v: &mut Vec<u8>, x: u32)
    ensures
        final(v)@ == old(v)@ + spec_u32_le(x),
{
    v.push((x % 256) as u8);
    v.push(((x / 256) % 256) as u8);
    v.push(((x / 65536) % 256) as u8);
    v.push(((x / 16777216) % 256) as u8);
    proof {
        assert(v@ =~= old(v)@ + spec_u32_le(x));
    }
}

// ---------------------------------------------------------------------------
// Frame layouts
// ---------------------------------------------------------------------------

/// The length-indicator byte of a full frame: the combined length of the
/// command identifier and the input, plus two, truncated to seven bits.
pub open spec fn spec_length_indicator(input_len: int) -> u8 {
    ((input_len + 6) % 128) as u8
}

/// A full extended-command frame before its checksum byte.
pub open spec fn spec_at_frame_prefix(cmd_id: u32, input: Seq<u8>) -> Seq<u8> {
    seq![UVC_FAMILY_TAG, spec_length_indicator(input.len() as int), 0x00u8, 0x00u8]
        + spec_u32_le(cmd_id) + input
}

/// A full extended-command frame:
/// `[0xa1, length_indicator, 0x00, 0x00, cmd_id (LE), input..., LRC]`.
pub open spec fn spec_at_frame(cmd_id: u32, input: Seq<u8>) -> Seq<u8> {
    spec_with_lrc(spec_at_frame_prefix(cmd_id, input))
}

/// Build a full extended-command frame for `cmd_id` with the given input
/// bytes. The result always satisfies the checksum invariant: its bytes sum
/// to zero modulo 256.
pub fn build_at_frame(cmd_id: u32, input: &[u8]) -> (frame: Vec<u8>)
    requires
        input@.len() + 9 <= usize::MAX,
    ensures
        frame@ == spec_at_frame(cmd_id, input@),
        byte_sum(frame@) % 256 == 0,
{
    let mut frame: Vec<u8> = Vec::new();
    frame.push(UVC_FAMILY_TAG);
    frame.push((((input.len() + 6) % 128) as u8));
    frame.push(0x00);
    frame.push(0x00);
    push_u32_le(&mut frame, cmd_id);
    let mut i: usize = 0;
    while i < input.len()
        invariant
            0 <= i <= input@.len(),
            frame@ == seq![
                UVC_FAMILY_TAG,
                spec_length_indicator(input@.len() as int),
                0x00u8,
                0x00u8,
            ] + spec_u32_le(cmd_id) + input@.subrange(0, i as int),
        decreases input@.len() - i,
    {
        frame.push(input[i]);
        i += 1;
    }
    proof {
        assert(input@.subrange(0, input@.len() as int) =~= input@);
        assert(frame@ =~= spec_at_frame_prefix(cmd_id, input@));
    }
    append_lrc(&mut frame);
    frame
}

/// The 9-byte family 0x06 probe for a single sub-command:
/// `[0xa1, 0x06, 0x00, 0x00, sub_cmd, 0x00, 0x00, 0x00, LRC]`.
pub open spec fn spec_family06_probe(sub_cmd: u8) -> Seq<u8> {
    spec_with_lrc(seq![UVC_FAMILY_TAG, 0x06u8, 0x00u8, 0x00u8, sub_cmd, 0x00u8, 0x00u8, 0x00u8])
}

/// Build a family 0x06 status probe for `sub_cmd`.
pub fn build_family06_probe(sub_cmd: u8) -> (frame: Vec<u8>)
    ensures
        frame@ == spec_family06_probe(sub_cmd),
        byte_sum(frame@) % 256 == 0,
{
    let mut frame: Vec<u8> = Vec::new();
    frame.push(UVC_FAMILY_TAG);
    frame.push(0x06);
    frame.push(0x00);
    frame.push(0x00);
    frame.push(sub_cmd);
    frame.push(0x00);
    frame.push(0x00);
    frame.push(0x00);
    proof {
        assert(frame@ =~= seq![
            UVC_FAMILY_TAG, 0x06u8, 0x00u8, 0x00u8, sub_cmd, 0x00u8, 0x00u8, 0x00u8,
        ]);
    }
    append_lrc(&mut frame);
    frame
}

/// The 10-byte family 0x07 probe, carrying one extra parameter byte:
/// `[0xa1, 0x07, 0x00, 0x00, sub_cmd, 0x00, 0x00, 0x00, param, LRC]`.
pub open spec fn spec_family07_probe(sub_cmd: u8, param: u8) -> Seq<u8> {
    spec_with_lrc(
        seq![UVC_FAMILY_TAG, 0x07u8, 0x00u8, 0x00u8, sub_cmd, 0x00u8, 0x00u8, 0x00u8, param],
    )
}

/// Build a family 0x07 status probe for `sub_cmd` with one parameter byte.
pub fn build_family07_probe(sub_cmd: u8, param: u8) -> (frame: Vec<u8>)
    ensures
        frame@ == spec_family07_probe(sub_cmd, param),
        byte_sum(frame@) % 256 == 0,
{
    let mut frame: Vec<u8> = Vec::new();
    frame.push(UVC_FAMILY_TAG);
    frame.push(0x07);
    frame.push(0x00);
    frame.push(0x00);
    frame.push(sub_cmd);
    frame.push(0x00);
    frame.push(0x00);
    frame.push(0x00);
    frame.push(param);
    proof {
        assert(frame@ =~= seq![
            UVC_FAMILY_TAG, 0x07u8, 0x00u8, 0x00u8, sub_cmd, 0x00u8, 0x00u8, 0x00u8, param,
        ]);
    }
    append_lrc(&mut frame);
    frame
}

/// The frame invariants of every full frame: for any command identifier
/// and any input, the frame begins with the family tag byte, is nine bytes
/// longer than the input, and its bytes sum to zero modulo 256.
pub proof fn lemma_at_frame_checksum(cmd_id: u32, input: Seq<u8>)
    ensures
        byte_sum(spec_at_frame(cmd_id, input)) % 256 == 0,
        spec_at_frame(cmd_id, input).len() == input.len() + 9,
        spec_at_frame(cmd_id, input)[0] == UVC_FAMILY_TAG,
{
    lemma_lrc_balances(spec_at_frame_prefix(cmd_id, input));
}

/// The checksum invariant for both light probe families.
pub proof fn lemma_probe_checksum(sub_cmd: u8, param: u8)
    ensures
        byte_sum(spec_family06_probe(sub_cmd)) % 256 == 0,
        byte_sum(spec_family07_probe(sub_cmd, param)) % 256 == 0,
{
    lemma_lrc_balances(
        seq![UVC_FAMILY_TAG, 0x06u8, 0x00u8, 0x00u8, sub_cmd, 0x00u8, 0x00u8, 0x00u8],
    );
    lemma_lrc_balances(
        seq![UVC_FAMILY_TAG, 0x07u8, 0x00u8, 0x00u8, sub_cmd, 0x00u8, 0x00u8, 0x00u8, param],
    );
}

} // verus!
