//! The file sink: one open container that takes sample pairs and can be
//! flushed at any time.
//!
//! Writing the container is the encoder's work, and the encoder writes to a
//! file, so the handle lives with the caller. This module holds the account of
//! what went into the container and decides what may be handed to the encoder:
//! every accepted pair is one frame, left sample first, and a sink that saw a
//! failure takes nothing more, so that no sample ever stands in the stream
//! without its partner and with further frames behind it.
//!
//! The caller asks before each step (`can_append`, `can_flush`), lets the
//! encoder work where the answer is yes, and books what the encoder said
//! (`record`, `settle_flush`, `finalize`).

use vstd::prelude::*;
use crate::error::RecordError;
use crate::wav::WavFormat;

verus! {

/// Most frames that one container can hold. The header counts the data bytes,
/// four per frame, and the 36 header bytes behind its first length field, in 32
/// bits: `4 * MAX_FRAMES + 36` is the largest such sum that fits.
pub const MAX_FRAMES: u32 = 1_073_741_814;

/// The sample stream that a sequence of frames makes: left, right, left, right.
pub open spec fn interleave(frames: Seq<(i16, i16)>) -> Seq<i16> {
    Seq::new(
        2 * frames.len(),
        |i: int|
            if i % 2 == 0 {
                frames[i / 2].0
            } else {
                frames[i / 2].1
            },
    )
}

/// The frames of a sink after each pair of `pairs` was appended in turn and
/// accepted.
pub open spec fn appended(start: Seq<(i16, i16)>, pairs: Seq<(i16, i16)>) -> Seq<(i16, i16)>
    decreases pairs.len(),
{
    if pairs.len() == 0 {
        start
    } else {
        appended(start.push(pairs[0]), pairs.drop_first())
    }
}

/// A stream of frames has two samples for each frame; the left sample of frame
/// `i` stands at `2 * i` and its right sample directly behind.
pub proof fn lemma_interleave_layout(frames: Seq<(i16, i16)>)
    ensures
        interleave(frames).len() == 2 * frames.len(),
        forall|i: int|
            0 <= i < frames.len() ==> interleave(frames)[2 * i] == (#[trigger] frames[i]).0
                && interleave(frames)[2 * i + 1] == frames[i].1,
{
    assert forall|i: int| 0 <= i < frames.len() implies interleave(frames)[2 * i] == (
    #[trigger] frames[i]).0 && interleave(frames)[2 * i + 1] == frames[i].1 by {
        assert((2 * i) % 2 == 0 && (2 * i) / 2 == i);
        assert((2 * i + 1) % 2 == 1 && (2 * i + 1) / 2 == i);
    }
}

/// One more frame adds its left sample and then its right sample to the end
/// of the stream, and changes nothing before them.
pub proof fn lemma_interleave_push(frames: Seq<(i16, i16)>, left: i16, right: i16)
    ensures
        interleave(frames.push((left, right))) == interleave(frames).push(left).push(right),
{
    let longer = frames.push((left, right));
    assert forall|i: int| 0 <= i < 2 * longer.len() implies interleave(longer)[i] == interleave(
        frames,
    ).push(left).push(right)[i] by {
        if i / 2 < frames.len() {
            assert(longer[i / 2] == frames[i / 2]);
        } else {
            assert(i / 2 == frames.len());
        }
    }
    assert(interleave(longer) =~= interleave(frames).push(left).push(right));
}

/// Appending pairs one after the other adds them, in the order of the calls,
/// behind the frames that were there.
pub proof fn lemma_appended_concat(start: Seq<(i16, i16)>, pairs: Seq<(i16, i16)>)
    ensures
        appended(start, pairs) == start + pairs,
    decreases pairs.len(),
{
    if pairs.len() == 0 {
        assert(start + pairs =~= start);
    } else {
        lemma_appended_concat(start.push(pairs[0]), pairs.drop_first());
        assert(start.push(pairs[0]) + pairs.drop_first() =~= start + pairs);
    }
}

/// After N appends to an empty sink the container holds exactly 2N samples,
/// alternating left and right, in the order of the calls.
pub proof fn lemma_appends_alternate(pairs: Seq<(i16, i16)>)
    ensures
        interleave(appended(Seq::empty(), pairs)).len() == 2 * pairs.len(),
        forall|i: int|
            0 <= i < pairs.len() ==> interleave(appended(Seq::empty(), pairs))[2 * i] == (
            #[trigger] pairs[i]).0 && interleave(appended(Seq::empty(), pairs))[2 * i + 1]
                == pairs[i].1,
{
    lemma_appended_concat(Seq::empty(), pairs);
    assert(Seq::<(i16, i16)>::empty() + pairs =~= pairs);
    lemma_interleave_layout(pairs);
}

/// One call on a sink: an append of a pair, or a flush.
#[derive(Clone, Copy, Debug, PartialEq, Eq, Structural)]
pub enum Call {
    Append(i16, i16),
    Flush,
}

/// The frames of a sink after the calls were made one at a time, each to its
/// end, and all of them went well.
pub open spec fn after_calls(start: Seq<(i16, i16)>, calls: Seq<Call>) -> Seq<(i16, i16)>
    decreases calls.len(),
{
    if calls.len() == 0 {
        start
    } else {
        match calls[0] {
            Call::Append(left, right) => after_calls(
                start.push((left, right)),
                calls.drop_first(),
            ),
            Call::Flush => after_calls(start, calls.drop_first()),
        }
    }
}

/// The pairs of the appends among the calls, in the order of the calls.
pub open spec fn appends_of(calls: Seq<Call>) -> Seq<(i16, i16)>
    decreases calls.len(),
{
    if calls.len() == 0 {
        Seq::empty()
    } else {
        match calls[0] {
            Call::Append(left, right) => seq![(left, right)] + appends_of(calls.drop_first()),
            Call::Flush => appends_of(calls.drop_first()),
        }
    }
}

/// However the appends of one caller and the flushes of another are put in a
/// row, the container holds the appended pairs in the order of the appends,
/// and nothing else: a flush between two appends changes no frame.
pub proof fn lemma_flushes_leave_the_stream(start: Seq<(i16, i16)>, calls: Seq<Call>)
    ensures
        after_calls(start, calls) == start + appends_of(calls),
    decreases calls.len(),
{
    if calls.len() == 0 {
        assert(start + appends_of(calls) =~= start);
    } else {
        match calls[0] {
            Call::Append(left, right) => {
                lemma_flushes_leave_the_stream(start.push((left, right)), calls.drop_first());
                assert(start.push((left, right)) + appends_of(calls.drop_first()) =~= start
                    + appends_of(calls));
            },
            Call::Flush => {
                lemma_flushes_leave_the_stream(start, calls.drop_first());
            },
        }
    }
}

/// After any row of appends and flushes on an empty sink, the container holds
/// two samples for each append that was made, whatever the number of flushes.
pub proof fn lemma_stream_counts_appends(calls: Seq<Call>)
    ensures
        after_calls(Seq::empty(), calls) == appends_of(calls),
        interleave(after_calls(Seq::empty(), calls)).len() == 2 * appends_of(calls).len(),
{
    lemma_flushes_leave_the_stream(Seq::empty(), calls);
    assert(Seq::<(i16, i16)>::empty() + appends_of(calls) =~= appends_of(calls));
}

/// The account of what a sink holds: its format, the frames accepted so far,
/// and whether a failure has made the sink unusable.
pub struct Ledger {
    format: WavFormat,
    count: u32,
    broken: bool,
    history: Ghost<Seq<(i16, i16)>>,
}

impl Ledger {
    #[verifier::type_invariant]
    spec fn well_formed(self) -> bool {
        &&& self.history@.len() == self.count
        &&& self.count <= MAX_FRAMES
        &&& self.format.recordable()
    }

    /// The format that the container was created with.
    pub closed spec fn format(&self) -> WavFormat {
        self.format
    }

    /// The frames accepted so far, oldest first.
    pub closed spec fn frames(&self) -> Seq<(i16, i16)> {
        self.history@
    }

    /// The samples in the container, in the order of its data chunk.
    pub open spec fn samples(&self) -> Seq<i16> {
        interleave(self.frames())
    }

    /// Whether a failure has made the sink unusable.
    pub closed spec fn broken(&self) -> bool {
        self.broken
    }

    /// Whether one more frame can be taken.
    pub open spec fn accepts(&self) -> bool {
        !self.broken() && self.frames().len() < MAX_FRAMES
    }

    /// Books the creation of a container in `format`. `opened` says whether
    /// the encoder could start the file. A format that is not recordable is
    /// refused whatever the encoder said; the caller asks `is_recordable` first
    /// and leaves the encoder alone if the answer is no.
    pub fn create(format: WavFormat, opened: bool) -> (r: Result<Ledger, RecordError>)
        ensures
            r is Ok <==> format.recordable() && opened,
            match r {
                Ok(ledger) => ledger.format() == format && ledger.frames() == Seq::<
                    (i16, i16),
                >::empty() && !ledger.broken(),
                Err(e) => e == RecordError::FileCreation,
            },
    {
        if format.is_recordable() && opened {
            Ok(Ledger { format, count: 0, broken: false, history: Ghost(Seq::empty()) })
        } else {
            Err(RecordError::FileCreation)
        }
    }

    /// The format that the container was created with.
    pub fn wav_format(&self) -> (format: WavFormat)
        ensures
            format == self.format(),
            format.recordable(),
    {
        proof {
            use_type_invariant(self);
        }
        self.format
    }

    /// Number of frames in the container.
    pub fn frame_count(&self) -> (n: u32)
        ensures
            n == self.frames().len(),
            n <= MAX_FRAMES,
    {
        proof {
            use_type_invariant(self);
        }
        self.count
    }

    /// Number of samples in the container: two for each frame.
    pub fn sample_count(&self) -> (n: u32)
        ensures
            n == self.samples().len(),
            n == 2 * self.frames().len(),
    {
        proof {
            use_type_invariant(self);
        }
        2 * self.count
    }

    /// Number of bytes in the data chunk of the container: two for each
    /// sample.
    pub fn data_bytes(&self) -> (n: u32)
        ensures
            n == 4 * self.frames().len(),
            n + 36 <= u32::MAX,
    {
        proof {
            use_type_invariant(self);
        }
        4 * self.count
    }

    /// Tells whether a failure has made the sink unusable.
    pub fn is_broken(&self) -> (yes: bool)
        ensures
            yes == self.broken(),
    {
        self.broken
    }

    /// Tells whether one more frame can be taken. Only then may a pair be
    /// handed to the encoder.
    pub fn can_append(&self) -> (yes: bool)
        ensures
            yes == self.accepts(),
    {
        proof {
            use_type_invariant(self);
        }
        !self.broken && self.count < MAX_FRAMES
    }

    /// Tells whether the container may be flushed or completed: whether the
    /// sink is usable.
    pub fn can_flush(&self) -> (yes: bool)
        ensures
            yes == !self.broken(),
    {
        !self.broken
    }

    /// Books the outcome of one append. `written` says whether the encoder took
    /// both samples, the left one first.
    ///
    /// An account that accepts nothing refuses the pair and stays as it is. On
    /// any other, a pair that was taken is the newest frame, and its two samples
    /// are the end of the stream; one that was not taken leaves the frames as
    /// they were and the sink broken.
    pub fn record(&mut self, left: i16, right: i16, written: bool) -> (r: Result<(), RecordError>)
        ensures
            r is Ok <==> old(self).accepts() && written,
            r is Err ==> r == Err::<(), RecordError>(RecordError::Write),
            r is Ok ==> final(self).frames() == old(self).frames().push((left, right)),
            r is Ok ==> final(self).samples() == old(self).samples().push(left).push(right),
            r is Err ==> final(self).frames() == old(self).frames(),
            final(self).broken() == (old(self).broken() || (old(self).accepts() && !written)),
            final(self).format() == old(self).format(),
            !old(self).accepts() ==> *final(self) == *old(self),
    {
        proof {
            use_type_invariant(&*self);
        }
        if self.broken || self.count >= MAX_FRAMES {
            return Err(RecordError::Write);
        }
        if written {
            proof {
                lemma_interleave_push(self.history@, left, right);
            }
            *self = Ledger {
                format: self.format,
                count: self.count + 1,
                broken: false,
                history: Ghost(self.history@.push((left, right))),
            };
            Ok(())
        } else {
            *self = Ledger {
                format: self.format,
                count: self.count,
                broken: true,
                history: Ghost(self.history@),
            };
            Err(RecordError::Write)
        }
    }

    /// Books the outcome of a flush. `done` says whether the encoder brought
    /// the file up to date.
    ///
    /// A flush adds and removes no frame. A broken sink is not flushed, and a
    /// flush that failed leaves the sink broken. A flush that went well leaves
    /// the account exactly as it was, so that a second one right behind it is
    /// asked of the same container.
    pub fn settle_flush(&mut self, done: bool) -> (r: Result<(), RecordError>)
        ensures
            r is Ok <==> !old(self).broken() && done,
            r is Err ==> r == Err::<(), RecordError>(RecordError::Flush),
            final(self).frames() == old(self).frames(),
            final(self).format() == old(self).format(),
            final(self).broken() == (old(self).broken() || !done),
            r is Ok ==> *final(self) == *old(self),
    {
        proof {
            use_type_invariant(&*self);
        }
        if self.broken {
            return Err(RecordError::Flush);
        }
        if done {
            Ok(())
        } else {
            *self = Ledger {
                format: self.format,
                count: self.count,
                broken: true,
                history: Ghost(self.history@),
            };
            Err(RecordError::Flush)
        }
    }

    /// Books the end of the recording and gives the account up. `done` says
    /// whether the encoder completed and closed the file. A broken sink cannot
    /// be completed.
    pub fn finalize(self, done: bool) -> (r: Result<(), RecordError>)
        ensures
            r is Ok <==> !self.broken() && done,
            r is Err ==> r == Err::<(), RecordError>(RecordError::Flush),
    {
        if !self.broken && done {
            Ok(())
        } else {
            Err(RecordError::Flush)
        }
    }
}

} // verus!
