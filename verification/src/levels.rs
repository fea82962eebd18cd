//! Root-mean-square levels of a batch of captured audio.
//!
//! A batch is the list of interleaved-stereo chunks drained from the
//! capture engine on one pump tick.  The level of each channel is the
//! square root of the mean squared sample, clamped to `UNIT`; a batch
//! without one complete stereo frame yields nothing, and the previous
//! levels stand.

use vstd::prelude::*;

use crate::units::UNIT;
use crate::units::isqrt;
use crate::units::spec_isqrt;

verus! {

/// Largest square of an `i32` sample.
pub const MAX_SAMPLE_SQ: u64 = 0x4000_0000_0000_0000;

/// Number of complete stereo frames in one chunk.
pub open spec fn chunk_frames(c: Seq<i32>) -> nat {
    c.len() / 2
}

/// Sum of squared left-channel samples of one chunk; an odd trailing
/// sample is ignored.
pub open spec fn chunk_sum_left(c: Seq<i32>) -> nat
    decreases c.len(),
{
    if c.len() < 2 {
        0
    } else {
        (c[0] * c[0] + chunk_sum_left(c.skip(2))) as nat
    }
}

/// Sum of squared right-channel samples of one chunk.
pub open spec fn chunk_sum_right(c: Seq<i32>) -> nat
    decreases c.len(),
{
    if c.len() < 2 {
        0
    } else {
        (c[1] * c[1] + chunk_sum_right(c.skip(2))) as nat
    }
}

/// Complete stereo frames across a whole batch.
pub open spec fn batch_frames(b: Seq<Seq<i32>>) -> nat
    decreases b.len(),
{
    if b.len() == 0 {
        0
    } else {
        batch_frames(b.drop_last()) + chunk_frames(b.last())
    }
}

/// Summed squared left samples across a whole batch.
pub open spec fn batch_sum_left(b: Seq<Seq<i32>>) -> nat
    decreases b.len(),
{
    if b.len() == 0 {
        0
    } else {
        batch_sum_left(b.drop_last()) + chunk_sum_left(b.last())
    }
}

/// Summed squared right samples across a whole batch.
pub open spec fn batch_sum_right(b: Seq<Seq<i32>>) -> nat
    decreases b.len(),
{
    if b.len() == 0 {
        0
    } else {
        batch_sum_right(b.drop_last()) + chunk_sum_right(b.last())
    }
}

/// Root of the mean square, clamped to `UNIT`.
pub open spec fn spec_level(sum: nat, frames: nat) -> nat
    recommends
        frames > 0,
{
    let r = spec_isqrt(sum / frames);
    if r > UNIT {
        UNIT as nat
    } else {
        r
    }
}

/// Squares of samples stay below `MAX_SAMPLE_SQ`.
proof fn lemma_sample_sq_bound(s: i32)
    ensures
        0 <= s * s <= MAX_SAMPLE_SQ,
{
    assert(0 <= s * s <= 0x4000_0000_0000_0000) by (nonlinear_arith)
        requires
            -0x8000_0000 <= s <= 0x7fff_ffff,
    {}
}

/// Compute the clamped RMS level of each stereo channel.  Nothing comes
/// back unless the batch holds at least one complete frame.
pub fn compute_levels(batch: &Vec<Vec<i32>>) -> (r: Option<(u32, u32)>)
    requires
        batch_frames(batch.deep_view()) < 0x8000_0000_0000_0000,
    ensures
        (r is None) <==> batch_frames(batch.deep_view()) == 0,
        r matches Some(l) ==> l.0 == spec_level(
            batch_sum_left(batch.deep_view()),
            batch_frames(batch.deep_view()),
        ) && l.1 == spec_level(
            batch_sum_right(batch.deep_view()),
            batch_frames(batch.deep_view()),
        ),
{
    let ghost full = batch.deep_view();
    let mut sum_l: u128 = 0;
    let mut sum_r: u128 = 0;
    let mut frames: u64 = 0;
    let mut ci: usize = 0;
    while ci < batch.len()
        invariant
            ci <= batch@.len(),
            full == batch.deep_view(),
            full.len() == batch@.len(),
            forall|k: int| 0 <= k < batch@.len() ==> full[k] == batch@[k]@,
            batch_frames(full) < 0x8000_0000_0000_0000,
            frames == batch_frames(full.subrange(0, ci as int)),
            sum_l == batch_sum_left(full.subrange(0, ci as int)),
            sum_r == batch_sum_right(full.subrange(0, ci as int)),
            sum_l <= (frames as nat) * (MAX_SAMPLE_SQ as nat),
            sum_r <= (frames as nat) * (MAX_SAMPLE_SQ as nat),
            frames <= batch_frames(full),
        decreases batch@.len() - ci,
    {
        proof {
            lemma_batch_prefix_frames(full, ci as int);
        }
        let chunk = &batch[ci];
        let ghost c = chunk@;
        let mut i: usize = 0;
        let mut csum_l: u128 = 0;
        let mut csum_r: u128 = 0;
        let mut cframes: u64 = 0;
        proof {
            assert(c.skip(0) =~= c);
        }
        while i + 1 < chunk.len()
            invariant
                c == chunk@,
                i % 2 == 0,
                i <= c.len(),
                cframes == i / 2,
                chunk_sum_left(c) == csum_l + chunk_sum_left(c.skip(i as int)),
                chunk_sum_right(c) == csum_r + chunk_sum_right(c.skip(i as int)),
                csum_l <= (cframes as nat) * (MAX_SAMPLE_SQ as nat),
                csum_r <= (cframes as nat) * (MAX_SAMPLE_SQ as nat),
                cframes <= chunk_frames(c),
            decreases c.len() - i,
        {
            let sl: i64 = chunk[i] as i64;
            let sr: i64 = chunk[i + 1] as i64;
            proof {
                lemma_sample_sq_bound(chunk@[i as int]);
                lemma_sample_sq_bound(chunk@[i as int + 1]);
                assert(c.skip(i as int).skip(2) =~= c.skip(i as int + 2));
                assert(c.skip(i as int)[0] == c[i as int]);
                assert(c.skip(i as int)[1] == c[i as int + 1]);
                assert((cframes as nat + 1) * (MAX_SAMPLE_SQ as nat) == (cframes as nat) * (
                MAX_SAMPLE_SQ as nat) + MAX_SAMPLE_SQ) by (nonlinear_arith) {}
                assert(cframes + 1 <= chunk_frames(c)) by {
                    assert(i + 2 <= c.len());
                    assert((i + 2) / 2 <= c.len() / 2);
                }
            }
            csum_l = csum_l + ((sl * sl) as u128);
            csum_r = csum_r + ((sr * sr) as u128);
            cframes = cframes + 1;
            i = i + 2;
        }
        proof {
            assert(chunk_sum_left(c.skip(i as int)) == 0);
            assert(chunk_sum_right(c.skip(i as int)) == 0);
            assert(c.len() / 2 == i / 2) by (nonlinear_arith)
                requires
                    i % 2 == 0,
                    i <= c.len(),
                    c.len() <= i + 1,
            {}
            assert(cframes == chunk_frames(c));
            lemma_batch_prefix_step(full, ci as int);
            lemma_batch_prefix_frames(full, ci as int + 1);
        }
        sum_l = sum_l + csum_l;
        sum_r = sum_r + csum_r;
        frames = frames + cframes;
        ci = ci + 1;
    }
    proof {
        assert(full.subrange(0, full.len() as int) =~= full);
    }
    if frames == 0 {
        return None;
    }
    let mean_l: u128 = sum_l / (frames as u128);
    let mean_r: u128 = sum_r / (frames as u128);
    proof {
        lemma_mean_bound(sum_l as nat, frames as nat);
        lemma_mean_bound(sum_r as nat, frames as nat);
    }
    let rl = isqrt(mean_l as u64);
    let rr = isqrt(mean_r as u64);
    let ll: u32 = if rl > (UNIT as u64) {
        UNIT
    } else {
        rl as u32
    };
    let lr: u32 = if rr > (UNIT as u64) {
        UNIT
    } else {
        rr as u32
    };
    Some((ll, lr))
}

/// Frames of a prefix never exceed the frames of the whole batch.
proof fn lemma_batch_prefix_frames(b: Seq<Seq<i32>>, i: int)
    requires
        0 <= i <= b.len(),
    ensures
        batch_frames(b.subrange(0, i)) <= batch_frames(b),
    decreases b.len() - i,
{
    if i < b.len() {
        lemma_batch_prefix_frames(b, i + 1);
        lemma_batch_prefix_step(b, i);
    } else {
        assert(b.subrange(0, b.len() as int) =~= b);
    }
}

/// Extending a prefix by one chunk adds that chunk's frames and sums.
proof fn lemma_batch_prefix_step(b: Seq<Seq<i32>>, i: int)
    requires
        0 <= i < b.len(),
    ensures
        batch_frames(b.subrange(0, i + 1)) == batch_frames(b.subrange(0, i)) + chunk_frames(b[i]),
        batch_sum_left(b.subrange(0, i + 1)) == batch_sum_left(b.subrange(0, i)) + chunk_sum_left(
            b[i],
        ),
        batch_sum_right(b.subrange(0, i + 1)) == batch_sum_right(b.subrange(0, i))
            + chunk_sum_right(b[i]),
{
    let p = b.subrange(0, i + 1);
    assert(p.drop_last() =~= b.subrange(0, i));
    assert(p.last() == b[i]);
}

/// With `sum <= frames * MAX_SAMPLE_SQ`, the mean stays within `isqrt`'s
/// domain.
proof fn lemma_mean_bound(sum: nat, frames: nat)
    requires
        frames > 0,
        sum <= frames * (MAX_SAMPLE_SQ as nat),
    ensures
        sum / frames <= MAX_SAMPLE_SQ,
{
    assert(sum / frames <= MAX_SAMPLE_SQ) by (nonlinear_arith)
        requires
            frames > 0,
            sum <= frames * (MAX_SAMPLE_SQ as nat),
    {}
}

} // verus!
