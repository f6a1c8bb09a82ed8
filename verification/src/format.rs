use vstd::prelude::*;

verus! {

/// Sample encodings a decoded frame may arrive in. Integer samples are
/// stored widened to a machine integer; a 24-bit sample is carried widened
/// to 32 bits. Anything the pipeline does not recognize is `Unsupported`.
#[derive(Clone, Copy, PartialEq, Eq, Structural, Debug)]
pub enum SampleFormat {
    Float32,
    Float64,
    Signed16,
    Unsigned8,
    Signed24,
    Signed32,
    Unsupported,
}

/// How one decoded sample becomes one canonical normalized sample:
/// - `Passthrough`: already in canonical form;
/// - `Narrow`: double precision, narrowed to single precision;
/// - `Scale(d)`: an integer sample, divided by the encoding's full-scale
///   divisor `d`;
/// - `Skip`: unrecognized encoding, the whole frame is skipped.
#[derive(Clone, Copy, PartialEq, Eq, Structural, Debug)]
pub enum NormalizationRule {
    Passthrough,
    Narrow,
    Scale(u32),
    Skip,
}

/// The normalization dispatch, one rule per encoding. The divisors are the
/// formats' positive full-scale values: 32767 for signed 16-bit (the
/// maximum of a signed 16-bit integer, deliberately not 32768, so the most
/// negative sample maps slightly below -1), 255 for unsigned 8-bit,
/// 2^23 = 8388608 for signed 24-bit, and 2147483647 (the maximum of a
/// signed 32-bit integer) for signed 32-bit.
pub open spec fn spec_normalization_rule(fmt: SampleFormat) -> NormalizationRule {
    match fmt {
        SampleFormat::Float32 => NormalizationRule::Passthrough,
        SampleFormat::Float64 => NormalizationRule::Narrow,
        SampleFormat::Signed16 => NormalizationRule::Scale(32767),
        SampleFormat::Unsigned8 => NormalizationRule::Scale(255),
        SampleFormat::Signed24 => NormalizationRule::Scale(8388608),
        SampleFormat::Signed32 => NormalizationRule::Scale(2147483647),
        SampleFormat::Unsupported => NormalizationRule::Skip,
    }
}

/// Executable form of the normalization dispatch.
pub fn normalization_rule(fmt: SampleFormat) -> (r: NormalizationRule)
    ensures
        r == spec_normalization_rule(fmt),
{
    match fmt {
        SampleFormat::Float32 => NormalizationRule::Passthrough,
        SampleFormat::Float64 => NormalizationRule::Narrow,
        SampleFormat::Signed16 => NormalizationRule::Scale(32767),
        SampleFormat::Unsigned8 => NormalizationRule::Scale(255),
        SampleFormat::Signed24 => NormalizationRule::Scale(8388608),
        SampleFormat::Signed32 => NormalizationRule::Scale(2147483647),
        SampleFormat::Unsupported => NormalizationRule::Skip,
    }
}

/// The planar channel data of one decoded frame, as a sequence of per-channel
/// sample sequences.
pub open spec fn planar_view<T>(chans: Seq<Vec<T>>) -> Seq<Seq<T>> {
    Seq::new(chans.len(), |c: int| chans[c]@)
}

/// All channels' samples for frame `f`, in channel order.
pub open spec fn frame_row<T>(chans: Seq<Seq<T>>, f: int) -> Seq<T> {
    Seq::new(chans.len(), |c: int| chans[c][f])
}

/// The canonical interleaving of planar channel data: frame by frame, each
/// channel's sample in channel order.
pub open spec fn interleaving<T>(chans: Seq<Seq<T>>, frames: int) -> Seq<T>
    decreases frames,
{
    if frames <= 0 {
        Seq::empty()
    } else {
        interleaving(chans, frames - 1) + frame_row(chans, frames - 1)
    }
}

/// Interleaving `frames` frames over `chans` channels yields exactly
/// `frames * chans` samples.
pub proof fn lemma_interleaving_len<T>(chans: Seq<Seq<T>>, frames: int)
    requires
        frames >= 0,
    ensures
        interleaving(chans, frames).len() == frames * chans.len(),
    decreases frames,
{
    let cl: int = chans.len() as int;
    if frames == 0 {
        assert(frames * cl == 0) by (nonlinear_arith)
            requires
                frames == 0,
        ;
    } else {
        lemma_interleaving_len(chans, frames - 1);
        assert(interleaving(chans, frames).len() == (frames - 1) * cl + cl);
        assert((frames - 1) * cl + cl == frames * cl) by (nonlinear_arith);
    }
}

/// In the interleaved stream, frame `f`'s sample for channel `c` sits at
/// position `f * channels + c`.
pub proof fn lemma_interleaving_index<T>(chans: Seq<Seq<T>>, frames: int, f: int, c: int)
    requires
        0 <= f < frames,
        0 <= c < chans.len(),
    ensures
        interleaving(chans, frames)[f * chans.len() + c] == chans[c][f],
    decreases frames,
{
    let cl: int = chans.len() as int;
    lemma_interleaving_len(chans, frames - 1);
    if f == frames - 1 {
        assert(f * cl + c == (frames - 1) * cl + c) by (nonlinear_arith)
            requires
                f == frames - 1,
        ;
        assert(interleaving(chans, frames)[f * cl + c] == frame_row(chans, f)[c]);
    } else {
        lemma_interleaving_index(chans, frames - 1, f, c);
        assert(f * cl + c < (frames - 1) * cl) by (nonlinear_arith)
            requires
                0 <= f < frames - 1,
                0 <= c < cl,
        ;
    }
}

/// Turn planar channel data (one `Vec` per channel, each `frames` samples
/// long) into one interleaved stream, frame by frame in channel order. This
/// is the order in which the decode worker appends samples to the queue and
/// in which the audio sink consumes them.
pub fn interleave<T: Copy>(chans: &Vec<Vec<T>>, frames: usize) -> (out: Vec<T>)
    requires
        forall|c: int| 0 <= c < chans@.len() ==> (#[trigger] chans@[c])@.len() == frames,
    ensures
        out@ == interleaving(planar_view(chans@), frames as int),
        out@.len() == frames * chans@.len(),
        forall|f: int, c: int|
            0 <= f < frames && 0 <= c < chans@.len() ==> #[trigger] out@[f * chans@.len() + c]
                == chans@[c]@[f],
{
    let channels: usize = chans.len();
    let mut out: Vec<T> = Vec::new();
    let mut f: usize = 0;
    while f < frames
        invariant
            f <= frames,
            channels == chans@.len(),
            forall|c: int| 0 <= c < chans@.len() ==> (#[trigger] chans@[c])@.len() == frames,
            out@ == interleaving(planar_view(chans@), f as int),
        decreases frames - f,
    {
        let mut c: usize = 0;
        while c < channels
            invariant
                c <= channels,
                f < frames,
                channels == chans@.len(),
                forall|ch: int| 0 <= ch < chans@.len() ==> (#[trigger] chans@[ch])@.len()
                    == frames,
                out@ == interleaving(planar_view(chans@), f as int) + frame_row(
                    planar_view(chans@),
                    f as int,
                ).take(c as int),
            decreases channels - c,
        {
            out.push(chans[c][f]);
            proof {
                assert(frame_row(planar_view(chans@), f as int).take(c + 1) =~= frame_row(
                    planar_view(chans@),
                    f as int,
                ).take(c as int).push(chans@[c as int]@[f as int]));
            }
            c = c + 1;
        }
        proof {
            assert(frame_row(planar_view(chans@), f as int).take(channels as int) =~= frame_row(
                planar_view(chans@),
                f as int,
            ));
        }
        f = f + 1;
    }
    proof {
        lemma_interleaving_len(planar_view(chans@), frames as int);
        assert forall|fi: int, ci: int|
            0 <= fi < frames && 0 <= ci < chans@.len() implies #[trigger] out@[fi * chans@.len()
            + ci] == chans@[ci]@[fi] by {
            lemma_interleaving_index(planar_view(chans@), frames as int, fi, ci);
        }
    }
    out
}

} // verus!
