use crate::queue::{left_after_take, taken_from_front};
use crate::state::{autoplay_after, PlaybackState};
use vstd::math::min;
use vstd::prelude::*;

verus! {

/// The samples one callback invocation writes into a block of `n` output
/// slots: all silence while paused; otherwise the queue's front samples in
/// order, then silence padding for whatever the queue could not supply.
pub open spec fn callback_output<T>(q: Seq<T>, paused: bool, n: int, silence: T) -> Seq<T> {
    if paused {
        Seq::new(n as nat, |i: int| silence)
    } else {
        taken_from_front(q, n) + Seq::new((n - min(n, q.len() as int)) as nat, |i: int| silence)
    }
}

/// The queue contents after one callback invocation asked for `n` samples:
/// untouched while paused, otherwise the front `n` samples (or all of them,
/// if fewer) are gone.
pub open spec fn queue_after_callback<T>(q: Seq<T>, paused: bool, n: int) -> Seq<T> {
    if paused {
        q
    } else {
        left_after_take(q, n)
    }
}

/// The autoplay trigger after one callback invocation: unchanged while
/// paused; otherwise raised exactly when the queue is empty once the block
/// is filled and decoding has finished, and kept once raised.
pub open spec fn autoplay_after_callback<T>(q: Seq<T>, st: PlaybackState, n: int) -> bool {
    if st.paused {
        st.autoplay_trigger
    } else {
        autoplay_after(
            st.autoplay_trigger,
            st.decode_finished,
            queue_after_callback(q, false, n).len() == 0,
        )
    }
}

/// The queue contents after a run of consecutive callback invocations with
/// block sizes `ns`, oldest first.
pub open spec fn queue_after_callbacks<T>(q: Seq<T>, paused: bool, ns: Seq<int>) -> Seq<T>
    decreases ns.len(),
{
    if ns.len() == 0 {
        q
    } else {
        queue_after_callbacks(queue_after_callback(q, paused, ns[0]), paused, ns.skip(1))
    }
}

/// Underrun padding: an unpaused callback asked for more than the queue
/// holds hands out every buffered sample in order, fills the rest of the
/// block with silence, and leaves the queue empty.
pub proof fn lemma_underrun_padding<T>(q: Seq<T>, n: int, silence: T)
    requires
        q.len() <= n,
    ensures
        callback_output(q, false, n, silence).len() == n,
        callback_output(q, false, n, silence).take(q.len() as int) == q,
        forall|i: int|
            q.len() <= i < n ==> #[trigger] callback_output(q, false, n, silence)[i] == silence,
        queue_after_callback(q, false, n).len() == 0,
{
    assert(taken_from_front(q, n) =~= q);
    assert(callback_output(q, false, n, silence).take(q.len() as int) =~= q);
}

/// Pause invariant: while the paused flag stands, any run of callback
/// invocations leaves the queue exactly as it was, and every block handed
/// out is silence from end to end.
pub proof fn lemma_pause_preserves_queue<T>(q: Seq<T>, ns: Seq<int>, n: int, silence: T)
    requires
        n >= 0,
    ensures
        queue_after_callbacks(q, true, ns) == q,
        callback_output(q, true, n, silence).len() == n,
        forall|i: int|
            0 <= i < n ==> #[trigger] callback_output(q, true, n, silence)[i] == silence,
    decreases ns.len(),
{
    if ns.len() > 0 {
        lemma_pause_preserves_queue(queue_after_callback(q, true, ns[0]), ns.skip(1), n, silence);
    }
}

/// Completion signal: a callback invocation raises the autoplay trigger
/// exactly when it runs unpaused, leaves the queue empty, and the decode
/// worker has already reported the end of the stream. In particular a queue
/// that merely runs dry while decoding is still in progress — a buffering
/// stall — never raises it.
pub proof fn lemma_completion_signal<T>(q: Seq<T>, st: PlaybackState, n: int)
    requires
        n >= 0,
    ensures
        autoplay_after_callback(q, st, n) == (st.autoplay_trigger || (!st.paused && q.len() <= n
            && st.decode_finished)),
        !st.decode_finished && !st.autoplay_trigger ==> !autoplay_after_callback(q, st, n),
{
}

} // verus!
