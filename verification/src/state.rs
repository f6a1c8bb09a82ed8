use vstd::prelude::*;

verus! {

/// Lifecycle of one playback session. The controller binds loading and
/// starting into a single `play` call and reuses an idle player for the next
/// session, so `Loaded` and `Stopped` are passed through inside those calls;
/// the states a caller can observe between calls are `Idle`, `Playing` and
/// `Paused`.
#[derive(Clone, Copy, PartialEq, Eq, Structural, Debug)]
pub enum Lifecycle {
    Idle,
    Loaded,
    Playing,
    Paused,
    Stopped,
}

/// The shared playback flags, observed by the audio callback on every
/// invocation and written from the control and decode sides:
/// - `paused` is written by the controller and makes the callback emit
///   silence without consuming samples;
/// - `decode_finished` is raised once by the decode worker when the packet
///   stream is exhausted;
/// - `autoplay_trigger` is raised by the callback when it observes an empty
///   queue while decoding is finished, signalling that the track has been
///   fully produced and fully consumed.
pub struct PlaybackState {
    pub paused: bool,
    pub decode_finished: bool,
    pub autoplay_trigger: bool,
}

/// Value of the autoplay trigger after a callback that observed whether the
/// queue was empty: raised exactly when decoding had finished and the queue
/// was seen empty, and never lowered once raised.
pub open spec fn autoplay_after(
    trigger: bool,
    decode_finished: bool,
    queue_empty: bool,
) -> bool {
    trigger || (queue_empty && decode_finished)
}

impl PlaybackState {
    /// The completion signal is trustworthy: it is raised only after the
    /// decode worker has reported the end of the stream, never on a queue
    /// that is merely empty because decoding is lagging behind.
    pub open spec fn wf(self) -> bool {
        self.autoplay_trigger ==> self.decode_finished
    }

    /// Fresh flags: nothing paused, nothing decoded, nothing signalled.
    pub fn new() -> (s: Self)
        ensures
            s == (PlaybackState { paused: false, decode_finished: false, autoplay_trigger: false }),
    {
        PlaybackState { paused: false, decode_finished: false, autoplay_trigger: false }
    }

    /// Start of a new session: clear the per-session signals. The paused
    /// flag is a standing control setting and is deliberately kept.
    pub fn reset_for_session(&mut self)
        ensures
            final(self).paused == old(self).paused,
            !final(self).decode_finished,
            !final(self).autoplay_trigger,
            final(self).wf(),
    {
        self.decode_finished = false;
        self.autoplay_trigger = false;
    }

    /// Control side: set or clear the paused flag.
    pub fn set_paused(&mut self, paused: bool)
        ensures
            final(self).paused == paused,
            final(self).decode_finished == old(self).decode_finished,
            final(self).autoplay_trigger == old(self).autoplay_trigger,
            old(self).wf() ==> final(self).wf(),
    {
        self.paused = paused;
    }

    /// Decode side: the packet stream is exhausted. Raising the flag again
    /// is harmless; it is never lowered within a session.
    pub fn finish_decode(&mut self)
        ensures
            final(self).paused == old(self).paused,
            final(self).decode_finished,
            final(self).autoplay_trigger == old(self).autoplay_trigger,
            old(self).wf() ==> final(self).wf(),
    {
        self.decode_finished = true;
    }

    /// Callback side: after filling a block, report whether the queue was
    /// observed empty; the autoplay trigger is raised exactly when it was
    /// and decoding has finished, and stays raised once set.
    pub fn observe_drained(&mut self, queue_empty: bool)
        ensures
            final(self).paused == old(self).paused,
            final(self).decode_finished == old(self).decode_finished,
            final(self).autoplay_trigger == autoplay_after(
                old(self).autoplay_trigger,
                old(self).decode_finished,
                queue_empty,
            ),
            old(self).wf() ==> final(self).wf(),
    {
        if queue_empty && self.decode_finished {
            self.autoplay_trigger = true;
        }
    }
}

} // verus!
