//! The decisions of the resource manager over what the hardware reported.

use vstd::prelude::*;

verus! {

/// Bytes in one MB.
pub const BYTES_PER_MB: u64 = 1_048_576;

/// The free VRAM in MB, from what the first NVIDIA GPU reported:
/// `Some(Some(b))` for `b` free bytes, `Some(None)` where the GPU answered
/// but its memory could not be read, `None` where no GPU (or no NVML)
/// answered. VRAM is reported only where a GPU gave at least one whole MB
/// free, rounded down to whole MB; a reported amount is never zero.
pub open spec fn vram_mb_spec(probe: Option<Option<u64>>) -> Option<u64> {
    match probe {
        Some(Some(free_bytes)) => if free_bytes >= BYTES_PER_MB {
            Some((free_bytes / BYTES_PER_MB) as u64)
        } else {
            None
        },
        _ => None,
    }
}

/// The available VRAM in MB (NVIDIA only), from what the GPU reported.
pub fn available_vram_mb(probe: Option<Option<u64>>) -> (mb: Option<u64>)
    ensures
        mb == vram_mb_spec(probe),
        mb matches Some(v) ==> v > 0,
        match probe {
            Some(Some(b)) => if b >= 1_048_576 {
                mb matches Some(v) && v * 1_048_576 <= b && b < (v + 1) * 1_048_576
            } else {
                mb is None
            },
            _ => mb is None,
        },
{
    match probe {
        Some(Some(free_bytes)) => {
            if free_bytes >= BYTES_PER_MB {
                Some(free_bytes / BYTES_PER_MB)
            } else {
                None
            }
        },
        _ => None,
    }
}

/// What is reported of a byte count `b` is the whole number of MB in it,
/// taken on the full 64-bit count: nothing below one MB, else the `v`
/// with `v` MB at most `b` and `v + 1` MB above it.
pub proof fn lemma_vram_is_whole_megabytes(b: u64)
    ensures
        b < 1_048_576 ==> vram_mb_spec(Some(Some(b))) is None,
        b >= 1_048_576 ==> (vram_mb_spec(Some(Some(b))) matches Some(v)
            && v * 1_048_576 <= b && b < (v + 1) * 1_048_576),
{
}

/// More free bytes never report less VRAM: where `b1 <= b2` and `b1` is
/// reported, `b2` is reported, with at least as many MB.
pub proof fn lemma_vram_monotone(b1: u64, b2: u64)
    requires
        b1 <= b2,
    ensures
        vram_mb_spec(Some(Some(b1))) matches Some(v1) ==> (vram_mb_spec(Some(Some(b2))) matches Some(v2)
            && v1 <= v2),
{
}

/// Without a readable GPU memory report no VRAM is reported.
pub proof fn lemma_no_vram_without_reading()
    ensures
        vram_mb_spec(None) is None,
        vram_mb_spec(Some(None)) is None,
{
}

} // verus!
