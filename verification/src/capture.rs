//! The capture callback's share of the work: from the two blocks of one
//! processing cycle to the frames that go into the container.
//!
//! The audio graph delivers one block per input port and cycle. The caller
//! scales each sample and cuts it off toward zero, in floating point; the
//! scaled blocks are paired up here, sample by sample, and narrowed to 16
//! bits. Nothing is clamped, reordered or dropped, except what one block has
//! beyond the length of the other.

use vstd::prelude::*;
use crate::sample::{narrow, wrap16};

verus! {

/// The frames that two scaled blocks make: frame `i` holds the narrowed
/// samples `i` of the left and of the right block, and there are as many
/// frames as the shorter block has samples.
pub open spec fn paired(left: Seq<i64>, right: Seq<i64>) -> Seq<(i16, i16)> {
    Seq::new(
        if left.len() <= right.len() {
            left.len()
        } else {
            right.len()
        },
        |i: int| (wrap16(left[i] as int) as i16, wrap16(right[i] as int) as i16),
    )
}

/// Replaces the contents of `frames` by the frames of one cycle. The buffer is
/// the caller's, so that a callback can use the same one in every cycle.
pub fn collect_frames(left: &[i64], right: &[i64], frames: &mut Vec<(i16, i16)>)
    ensures
        final(frames)@ == paired(left@, right@),
{
    frames.clear();
    let n = if left.len() <= right.len() {
        left.len()
    } else {
        right.len()
    };
    let mut i: usize = 0;
    while i < n
        invariant
            i <= n,
            n <= left.len(),
            n <= right.len(),
            n == paired(left@, right@).len(),
            frames@ == paired(left@, right@).take(i as int),
        decreases n - i,
    {
        let pair = (narrow(left[i]), narrow(right[i]));
        frames.push(pair);
        assert(frames@ =~= paired(left@, right@).take(i + 1));
        i += 1;
    }
    assert(frames@ =~= paired(left@, right@));
}

/// Blocks of equal length, as the audio graph delivers them, make one frame
/// for each sample, and a block whose samples all lie in the 16-bit range comes
/// through unchanged.
pub proof fn lemma_paired_keeps_samples(left: Seq<i64>, right: Seq<i64>)
    requires
        left.len() == right.len(),
    ensures
        paired(left, right).len() == left.len(),
        forall|i: int|
            0 <= i < left.len() && -32768 <= left[i] <= 32767 ==> (#[trigger] paired(
                left,
                right,
            )[i]).0 == left[i],
        forall|i: int|
            0 <= i < right.len() && -32768 <= right[i] <= 32767 ==> (#[trigger] paired(
                left,
                right,
            )[i]).1 == right[i],
{
}

} // verus!
