//! Format normalizer: turns native sample representations into canonical
//! signed 16-bit little-endian PCM.
//!
//! Three native representations are accepted. Signed 16-bit samples pass
//! through unchanged. Unsigned 16-bit samples are recentred by subtracting
//! the unsigned midpoint. Floating-point samples in `[-1.0, 1.0]` are
//! scaled by 32767 outside this crate (the scaling itself is floating-point
//! work); the scaled value arrives here as a wide integer and is clamped
//! to the signed 16-bit range.

use vstd::prelude::*;

verus! {

/// Smallest canonical sample value.
pub const SAMPLE_MIN: i64 = -32768;

/// Largest canonical sample value.
pub const SAMPLE_MAX: i64 = 32767;

/// What recentring an unsigned 16-bit sample yields: the unsigned midpoint
/// 32768 maps to zero.
pub open spec fn recentre_spec(s: u16) -> int {
    s as int - 32768
}

/// What clamping a scaled floating-point sample yields.
pub open spec fn clamp_spec(v: int) -> int {
    if v < -32768 {
        -32768
    } else if v > 32767 {
        32767
    } else {
        v
    }
}

/// The recentred sample as a signed 16-bit value.
pub open spec fn recentre16(s: u16) -> i16 {
    recentre_spec(s) as i16
}

/// The clamped sample as a signed 16-bit value.
pub open spec fn clamp16(v: int) -> i16 {
    clamp_spec(v) as i16
}

/// A whole batch of unsigned samples, recentred.
pub open spec fn recentred_seq(s: Seq<u16>) -> Seq<i16> {
    Seq::new(s.len(), |i: int| recentre16(s[i]))
}

/// A whole batch of scaled floating-point samples, clamped.
pub open spec fn clamped_seq(s: Seq<i64>) -> Seq<i16> {
    Seq::new(s.len(), |i: int| clamp16(s[i] as int))
}

/// Recentre one unsigned 16-bit sample into the signed 16-bit range.
pub fn normalize_unsigned(s: u16) -> (r: i16)
    ensures
        r as int == recentre_spec(s),
        r == recentre16(s),
{
    ((s as i32) - 32768) as i16
}

/// Clamp one scaled floating-point sample (already multiplied by 32767
/// and truncated to an integer) into the signed 16-bit range.
pub fn normalize_scaled(v: i64) -> (r: i16)
    ensures
        r as int == clamp_spec(v as int),
        r == clamp16(v as int),
{
    if v < SAMPLE_MIN {
        -32768i16
    } else if v > SAMPLE_MAX {
        32767i16
    } else {
        v as i16
    }
}

/// Normalization of scaled samples is monotonic, bounded to the signed
/// 16-bit range, and maps zero to zero.
pub proof fn lemma_normalize_scaled_monotonic_bounded(a: int, b: int)
    ensures
        a <= b ==> clamp_spec(a) <= clamp_spec(b),
        -32768 <= clamp_spec(a) <= 32767,
        clamp_spec(0) == 0,
{
}

/// Recentring unsigned samples is monotonic and bounded: the whole
/// unsigned range lands exactly on the signed 16-bit range.
pub proof fn lemma_normalize_unsigned_monotonic_bounded(a: u16, b: u16)
    ensures
        a <= b ==> recentre_spec(a) <= recentre_spec(b),
        -32768 <= recentre_spec(a) <= 32767,
        recentre_spec(32768u16) == 0,
{
}

/// The sample value wrapped into `[0, 65536)`, as the two's-complement
/// bit pattern of the sample reads when taken unsigned.
pub open spec fn wrap16(s: i16) -> int {
    if s >= 0 {
        s as int
    } else {
        s as int + 65536
    }
}

/// Low byte of the little-endian encoding of one sample.
pub open spec fn lo_byte(s: i16) -> u8 {
    (wrap16(s) % 256) as u8
}

/// High byte of the little-endian encoding of one sample.
pub open spec fn hi_byte(s: i16) -> u8 {
    (wrap16(s) / 256) as u8
}

/// Little-endian byte encoding of a sample sequence: two bytes per
/// sample, low byte first.
pub open spec fn le_bytes_of(s: Seq<i16>) -> Seq<u8> {
    Seq::new((2 * s.len()) as nat, |i: int| if i % 2 == 0 { lo_byte(s[i / 2]) } else { hi_byte(s[i / 2]) })
}

/// Encode one sample as its two little-endian bytes.
pub fn sample_le_bytes(s: i16) -> (b: (u8, u8))
    ensures
        b.0 == lo_byte(s),
        b.1 == hi_byte(s),
{
    let w: i32 = s as i32;
    let u: i32 = if w < 0 { w + 65536 } else { w };
    ((u % 256) as u8, (u / 256) as u8)
}

/// Encode a whole sample buffer as canonical PCM bytes.
pub fn encode_samples_le(samples: &Vec<i16>) -> (b: Vec<u8>)
    ensures
        b@ == le_bytes_of(samples@),
{
    let mut b: Vec<u8> = Vec::new();
    let mut i: usize = 0;
    while i < samples.len()
        invariant
            i <= samples.len(),
            b@.len() == 2 * i,
            forall|k: int| 0 <= k < i ==> b@[2 * k] == lo_byte(samples@[k]),
            forall|k: int| 0 <= k < i ==> b@[2 * k + 1] == hi_byte(samples@[k]),
        decreases samples.len() - i,
    {
        let (lo, hi) = sample_le_bytes(samples[i]);
        b.push(lo);
        b.push(hi);
        i = i + 1;
    }
    proof {
        assert forall|j: int| 0 <= j < b@.len() implies b@[j] == le_bytes_of(samples@)[j] by {
            if j % 2 == 0 {
                assert(b@[2 * (j / 2)] == lo_byte(samples@[j / 2]));
            } else {
                assert(b@[2 * (j / 2) + 1] == hi_byte(samples@[j / 2]));
            }
        }
        assert(b@ =~= le_bytes_of(samples@));
    }
    b
}

} // verus!
