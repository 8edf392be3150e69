//! What is done to a batch of grains around its analysis: the batch is
//! held to the size of the transform buffer, each grain is cut out of the
//! recording, and each surviving grain is padded to the buffer's size.
use crate::text::{append_decimal, decimal};
use vstd::prelude::*;
use vstd::string::StringExecFns;

verus! {

/// Why a batch of grains was not analyzed.
#[derive(Debug, Clone)]
pub enum GrainError {
    GrainTooShort(String),
    GrainTooLong(String),
}

/// The number of samples in a frame.
pub open spec fn grain_len(frame: (usize, usize)) -> int {
    frame.1 - frame.0
}

/// Whether no frame ends before it starts.
pub open spec fn frames_ordered(frames: Seq<(usize, usize)>) -> bool {
    forall|k: int| 0 <= k < frames.len() ==> (#[trigger] frames[k]).0 <= frames[k].1
}

/// Whether every frame is ordered and ends within a recording of
/// `audio_len` samples.
pub open spec fn frames_within(frames: Seq<(usize, usize)>, audio_len: int) -> bool {
    forall|k: int| 0 <= k < frames.len() ==> (#[trigger] frames[k]).0 <= frames[k].1 <= audio_len
}

/// Whether frame `i` is the first that is longer than `fft_size`.
pub open spec fn first_too_long(frames: Seq<(usize, usize)>, fft_size: int, i: int) -> bool {
    &&& 0 <= i < frames.len()
    &&& grain_len(frames[i]) > fft_size
    &&& forall|k: int| 0 <= k < i ==> grain_len(#[trigger] frames[k]) <= fft_size
}

/// What is reported of a grain that is too long.
pub open spec fn too_long_message(index: nat, fft_size: nat, grain_len: nat) -> Seq<char> {
    "Grain "@ + decimal(index) + " is too long. The FFT size is "@ + decimal(fft_size)
        + ", but the grain len is "@ + decimal(grain_len) + "."@
}

fn write_too_long(index: usize, fft_size: usize, grain_len: usize) -> (message: String)
    ensures
        message@ == too_long_message(index as nat, fft_size as nat, grain_len as nat),
{
    let mut message = String::from_str("Grain ");
    append_decimal(&mut message, index);
    message.append(" is too long. The FFT size is ");
    append_decimal(&mut message, fft_size);
    message.append(", but the grain len is ");
    append_decimal(&mut message, grain_len);
    message.append(".");
    message
}

/// Holds a batch of frames to the size of the transform buffer.
///
/// The batch passes when no grain is longer than `fft_size`.  Otherwise
/// the whole batch fails, on its first grain that is too long, and the
/// error names that grain, the buffer's size and the grain's length.
pub fn check_grain_sizes(grain_frames: &Vec<(usize, usize)>, fft_size: usize) -> (checked: Result<
    (),
    GrainError,
>)
    requires
        frames_ordered(grain_frames@),
    ensures
        checked is Err <==> exists|k: int|
            0 <= k < grain_frames.len() && grain_len(#[trigger] grain_frames[k]) > fft_size,
        match checked {
            Ok(_) => forall|k: int|
                0 <= k < grain_frames.len() ==> grain_len(#[trigger] grain_frames[k]) <= fft_size,
            Err(GrainError::GrainTooLong(message)) => exists|i: int|
                #![trigger grain_frames[i]]
                {
                    &&& first_too_long(grain_frames@, fft_size as int, i)
                    &&& message@ == too_long_message(
                        i as nat,
                        fft_size as nat,
                        grain_len(grain_frames[i]) as nat,
                    )
                },
            Err(GrainError::GrainTooShort(_)) => false,
        },
{
    let mut i: usize = 0;
    while i < grain_frames.len()
        invariant
            i <= grain_frames.len(),
            frames_ordered(grain_frames@),
            forall|k: int| 0 <= k < i ==> grain_len(#[trigger] grain_frames[k]) <= fft_size,
        decreases grain_frames.len() - i,
    {
        let frame: (usize, usize) = grain_frames[i];
        let grain_size: usize = frame.1 - frame.0;
        if grain_size > fft_size {
            let message = write_too_long(i, fft_size, grain_size);
            assert(first_too_long(grain_frames@, fft_size as int, i as int));
            return Err(GrainError::GrainTooLong(message));
        }
        i += 1;
    }
    Ok(())
}

/// Copies the samples of one frame out of a recording.
pub fn extract_grain<S: Copy>(audio: &Vec<S>, frame: (usize, usize)) -> (grain: Vec<S>)
    requires
        frame.0 <= frame.1 <= audio.len(),
    ensures
        grain@ == audio@.subrange(frame.0 as int, frame.1 as int),
{
    let mut grain: Vec<S> = Vec::new();
    let mut i: usize = frame.0;
    while i < frame.1
        invariant
            frame.0 <= i <= frame.1 <= audio.len(),
            grain@ == audio@.subrange(frame.0 as int, i as int),
        decreases frame.1 - i,
    {
        grain.push(audio[i]);
        assert(grain@ =~= audio@.subrange(frame.0 as int, i + 1));
        i += 1;
    }
    grain
}

/// Lengthens `grain` to `fft_size` samples with copies of `zero` at its
/// end.  The samples it had stay as they were.
pub fn zero_pad<S: Copy>(grain: &mut Vec<S>, fft_size: usize, zero: S)
    requires
        old(grain).len() <= fft_size,
    ensures
        final(grain).len() == fft_size,
        final(grain)@ == old(grain)@ + Seq::new((fft_size - old(grain).len()) as nat, |i: int| zero),
{
    let ghost before = grain@;
    while grain.len() < fft_size
        invariant
            before.len() <= grain.len() <= fft_size,
            grain@ == before + Seq::new((grain.len() - before.len()) as nat, |i: int| zero),
        decreases fft_size - grain.len(),
    {
        grain.push(zero);
        assert(grain@ =~= before + Seq::new((grain.len() - before.len()) as nat, |i: int| zero));
    }
}

} // verus!
