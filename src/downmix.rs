use vstd::prelude::*;

verus! {

/// Number of frames in an interleaved buffer of `len` samples with `channels`
/// samples per frame; a trailing partial frame counts as a frame.
pub open spec fn frame_count(len: nat, channels: nat) -> nat {
    if channels == 0 {
        0
    } else {
        ((len + channels - 1) / (channels as int)) as nat
    }
}

/// The first-channel downmix: the first sample of every frame, in order.
pub open spec fn first_channel_of<T>(s: Seq<T>, channels: nat) -> Seq<T> {
    Seq::new(frame_count(s.len(), channels), |i: int| s[i * channels])
}

proof fn lemma_frame_count_exact(len: int, c: int, k: int)
    requires
        c > 0,
        k >= 0,
        k * c >= len,
        k == 0 || (k - 1) * c < len,
        len >= 0,
    ensures
        k == (len + c - 1) / c,
{
    if k == 0 {
        assert(len == 0) by (nonlinear_arith)
            requires k * c >= len, k == 0, len >= 0;
        assert((c - 1) / c == 0) by (nonlinear_arith)
            requires c > 0;
    } else {
        assert(k * c <= len + c - 1 < (k + 1) * c) by (nonlinear_arith)
            requires k * c >= len, (k - 1) * c < len, c > 0;
        vstd::arithmetic::div_mod::lemma_fundamental_div_mod_converse(
            len + c - 1,
            c,
            k,
            len + c - 1 - k * c,
        );
    }
}

/// Keeps the first sample of each frame of an interleaved buffer.
pub fn first_channel<T: Copy>(data: &[T], channels: usize) -> (r: Vec<T>)
    requires
        channels > 0,
    ensures
        r@ == first_channel_of(data@, channels as nat),
{
    let mut out: Vec<T> = Vec::new();
    let mut idx: usize = 0;
    let ghost c = channels as int;
    assert(0 * c == 0) by (nonlinear_arith);
    while idx < data.len()
        invariant
            c == channels as int,
            c > 0,
            idx == out.len() * c,
            out.len() == 0 || (out.len() - 1) * c < data.len(),
            forall|j: int| 0 <= j < out.len() ==> #[trigger] out@[j] == data@[j * c],
        decreases data.len() - idx,
    {
        out.push(data[idx]);
        assert((out.len() - 1) * c == idx as int) by (nonlinear_arith)
            requires idx == (out.len() - 1) * c, c > 0;
        if channels >= data.len() - idx {
            proof {
                assert(out.len() * c == idx + c) by (nonlinear_arith)
                    requires idx == (out.len() - 1) * c;
                lemma_frame_count_exact(data.len() as int, c, out.len() as int);
            }
            assert(out@ =~= first_channel_of(data@, channels as nat));
            return out;
        }
        idx = idx + channels;
        assert(idx == out.len() * c) by (nonlinear_arith)
            requires idx == (out.len() - 1) * c + c;
    }
    proof {
        lemma_frame_count_exact(data.len() as int, c, out.len() as int);
    }
    assert(out@ =~= first_channel_of(data@, channels as nat));
    out
}

/// Interleaves two channels into frames `[l0, r0, l1, r1, ...]`.
pub open spec fn interleave<T>(left: Seq<T>, right: Seq<T>) -> Seq<T> {
    Seq::new(2 * left.len(), |i: int| if i % 2 == 0 { left[i / 2] } else { right[i / 2] })
}

/// Downmixing interleaved stereo frames `[(L0, R0), (L1, R1), ...]` with the
/// first-channel policy yields exactly the left channel `[L0, L1, ...]`.
pub proof fn lemma_stereo_first_channel<T>(left: Seq<T>, right: Seq<T>)
    requires
        left.len() == right.len(),
    ensures
        first_channel_of(interleave(left, right), 2) == left,
{
    let s = interleave(left, right);
    assert(frame_count(s.len(), 2) == left.len());
    assert forall|i: int| 0 <= i < left.len() implies #[trigger] first_channel_of(s, 2)[i]
        == left[i] by {
        assert((i * 2) % 2 == 0 && (i * 2) / 2 == i);
    }
    assert(first_channel_of(s, 2) =~= left);
}

} // verus!
