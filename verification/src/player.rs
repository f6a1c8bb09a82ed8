use crate::callback::{autoplay_after_callback, callback_output, queue_after_callback};
use crate::queue::SampleQueue;
use crate::state::{Lifecycle, PlaybackState};
use vstd::prelude::*;

verus! {

/// One step of the decode worker's loop, seen from the core: what the
/// demuxer and decoder produced for one packet. A host program translates
/// each turn of its decode loop into one of these events.
pub enum DecodeEvent<T> {
    /// A packet decoded cleanly; its samples, already normalized and
    /// interleaved by channel in production order.
    Samples(Vec<T>),
    /// The decoder failed on this packet; it is skipped and decoding
    /// continues.
    PacketError,
    /// The packet's samples arrived in an encoding the pipeline does not
    /// recognize; they are skipped whole and decoding continues.
    UnsupportedFormat,
    /// The demuxer reported end of stream (or a demux error): decoding is
    /// over for this session.
    EndOfStream,
}

/// The playback controller and, with it, the whole session model: the
/// sample queue shared by the decode producer and the audio consumer, the
/// shared flags, and the session identity. A host program owns the real
/// threads, the audio device and the codec, and drives this model: control
/// calls (`play`, `stop`, `pause`, `resume`) from its control thread, one
/// `on_decode_event` per packet from its decode thread, and one
/// `on_callback` per block the audio sink requests.
pub struct Player<T> {
    /// Identity of the source being played, `None` while idle.
    pub current_path: Option<String>,
    /// Whether a session is active (set by `play`, cleared by `stop`).
    pub is_playing: bool,
    /// Control-side mirror of the shared paused flag.
    pub is_paused: bool,
    /// The shared playback flags.
    pub state: PlaybackState,
    /// The shared FIFO of normalized samples.
    pub queue: SampleQueue<T>,
}

impl<T: Copy> Player<T> {
    /// Consistency of a player between calls: the completion signal only
    /// ever stands on a finished decode, the control-side paused mirror
    /// agrees with the shared flag, and a source is loaded exactly while a
    /// session is active.
    pub open spec fn wf(self) -> bool {
        &&& self.state.wf()
        &&& self.is_paused == self.state.paused
        &&& (self.current_path is Some <==> self.is_playing)
    }

    /// The session lifecycle a caller observes, derived from the flags.
    pub open spec fn lifecycle(self) -> Lifecycle {
        if !self.is_playing {
            Lifecycle::Idle
        } else if self.state.paused {
            Lifecycle::Paused
        } else {
            Lifecycle::Playing
        }
    }

    /// A fresh, idle player: nothing loaded, nothing buffered, all flags
    /// down.
    pub fn new() -> (p: Self)
        ensures
            p.wf(),
            p.current_path is None,
            !p.is_playing,
            !p.is_paused,
            p.state == (PlaybackState {
                paused: false,
                decode_finished: false,
                autoplay_trigger: false,
            }),
            p.queue@ == Seq::<T>::empty(),
            p.lifecycle() is Idle,
    {
        Player {
            current_path: None,
            is_playing: false,
            is_paused: false,
            state: PlaybackState::new(),
            queue: SampleQueue::new(),
        }
    }

    /// Start a session for `path`: any current session is stopped first,
    /// the per-session signals are cleared, the queue starts empty, and the
    /// player is playing. The standing paused setting is kept, so a player
    /// paused before `play` stays paused and the callback emits silence
    /// until `resume`.
    pub fn play(&mut self, path: String)
        ensures
            final(self).current_path == Some(path),
            final(self).is_playing,
            !final(self).state.decode_finished,
            !final(self).state.autoplay_trigger,
            final(self).queue@ == Seq::<T>::empty(),
            final(self).state.paused == old(self).state.paused,
            final(self).is_paused == old(self).is_paused,
            old(self).wf() ==> final(self).wf(),
            !final(self).state.paused ==> final(self).lifecycle() is Playing,
    {
        self.stop();
        self.state.reset_for_session();
        self.current_path = Some(path);
        self.is_playing = true;
    }

    /// End the current session: the source identity is dropped and every
    /// buffered sample is discarded. The shared flags are left as they are;
    /// `play` clears the per-session ones when the next session starts.
    pub fn stop(&mut self)
        ensures
            final(self).current_path is None,
            !final(self).is_playing,
            final(self).queue@ == Seq::<T>::empty(),
            final(self).state == old(self).state,
            final(self).is_paused == old(self).is_paused,
            old(self).wf() ==> final(self).wf(),
            final(self).lifecycle() is Idle,
    {
        self.is_playing = false;
        self.current_path = None;
        self.queue.clear();
    }

    /// Whether a source is currently loaded.
    pub fn is_loaded(&self) -> (r: bool)
        ensures
            r == (self.current_path is Some),
    {
        match &self.current_path {
            Option::Some(_) => true,
            Option::None => false,
        }
    }

    /// Whether the queue has run dry while a session is nominally playing.
    /// This is also true transiently when decoding lags behind playback; the
    /// robust end-of-track signal is `state.autoplay_trigger`.
    pub fn is_done(&self) -> (r: bool)
        ensures
            r == (self.queue@.len() == 0 && self.is_playing),
    {
        self.queue.is_empty() && self.is_playing
    }

    /// Control side: set or clear the paused flag. Takes effect on the next
    /// callback invocation; nothing else changes.
    pub fn set_paused(&mut self, paused: bool)
        ensures
            final(self).is_paused == paused,
            final(self).state.paused == paused,
            final(self).state.decode_finished == old(self).state.decode_finished,
            final(self).state.autoplay_trigger == old(self).state.autoplay_trigger,
            final(self).queue@ == old(self).queue@,
            final(self).current_path == old(self).current_path,
            final(self).is_playing == old(self).is_playing,
            old(self).wf() ==> final(self).wf(),
    {
        self.is_paused = paused;
        self.state.set_paused(paused);
    }

    /// Pause playback: buffered samples are preserved, not dropped.
    pub fn pause(&mut self)
        ensures
            final(self).is_paused,
            final(self).state.paused,
            final(self).state.decode_finished == old(self).state.decode_finished,
            final(self).state.autoplay_trigger == old(self).state.autoplay_trigger,
            final(self).queue@ == old(self).queue@,
            final(self).current_path == old(self).current_path,
            final(self).is_playing == old(self).is_playing,
            old(self).wf() ==> final(self).wf(),
            old(self).is_playing ==> final(self).lifecycle() is Paused,
    {
        self.set_paused(true);
    }

    /// Resume playback from where it was paused.
    pub fn resume(&mut self)
        ensures
            !final(self).is_paused,
            !final(self).state.paused,
            final(self).state.decode_finished == old(self).state.decode_finished,
            final(self).state.autoplay_trigger == old(self).state.autoplay_trigger,
            final(self).queue@ == old(self).queue@,
            final(self).current_path == old(self).current_path,
            final(self).is_playing == old(self).is_playing,
            old(self).wf() ==> final(self).wf(),
            old(self).is_playing ==> final(self).lifecycle() is Playing,
    {
        self.set_paused(false);
    }

    /// Decode side: apply what one turn of the decode loop produced. A
    /// clean packet's samples are appended to the queue in order; a failed
    /// or unsupported packet changes nothing; the end of the stream raises
    /// `decode_finished` exactly once per session. The decode side never
    /// touches the paused flag or the completion signal.
    pub fn on_decode_event(&mut self, event: DecodeEvent<T>)
        ensures
            final(self).current_path == old(self).current_path,
            final(self).is_playing == old(self).is_playing,
            final(self).is_paused == old(self).is_paused,
            final(self).state.paused == old(self).state.paused,
            final(self).state.autoplay_trigger == old(self).state.autoplay_trigger,
            (match event {
                DecodeEvent::Samples(batch) => final(self).queue@ == old(self).queue@ + batch@
                    && final(self).state.decode_finished == old(self).state.decode_finished,
                DecodeEvent::PacketError => *final(self) == *old(self),
                DecodeEvent::UnsupportedFormat => *final(self) == *old(self),
                DecodeEvent::EndOfStream => final(self).queue@ == old(self).queue@
                    && final(self).state.decode_finished,
            }),
            old(self).wf() ==> final(self).wf(),
    {
        match event {
            DecodeEvent::Samples(batch) => {
                self.queue.push(&batch);
            },
            DecodeEvent::PacketError => {},
            DecodeEvent::UnsupportedFormat => {},
            DecodeEvent::EndOfStream => {
                self.state.finish_decode();
            },
        }
    }

    /// Audio side: fill one block of `n` output slots at the sink's
    /// request. While paused the block is all silence and the player —
    /// queue included — is left untouched. Otherwise the queue's front
    /// samples fill the block in order, silence pads any underrun, and the
    /// autoplay trigger is raised exactly when the queue is empty once the
    /// block is filled and decoding has finished. This call never waits for
    /// the producer.
    pub fn on_callback(&mut self, n: usize, silence: T) -> (out: Vec<T>)
        ensures
            out@.len() == n,
            out@ == callback_output(old(self).queue@, old(self).state.paused, n as int, silence),
            final(self).queue@ == queue_after_callback(
                old(self).queue@,
                old(self).state.paused,
                n as int,
            ),
            final(self).state.autoplay_trigger == autoplay_after_callback(
                old(self).queue@,
                old(self).state,
                n as int,
            ),
            final(self).current_path == old(self).current_path,
            final(self).is_playing == old(self).is_playing,
            final(self).is_paused == old(self).is_paused,
            final(self).state.paused == old(self).state.paused,
            final(self).state.decode_finished == old(self).state.decode_finished,
            old(self).state.paused ==> *final(self) == *old(self),
            old(self).wf() ==> final(self).wf(),
    {
        if self.state.paused {
            let mut out: Vec<T> = Vec::new();
            let mut i: usize = 0;
            while i < n
                invariant
                    i <= n,
                    out@ == Seq::new(i as nat, |j: int| silence),
                decreases n - i,
            {
                out.push(silence);
                proof {
                    assert(Seq::new((i + 1) as nat, |j: int| silence) =~= Seq::new(
                        i as nat,
                        |j: int| silence,
                    ).push(silence));
                }
                i = i + 1;
            }
            out
        } else {
            let popped = self.queue.pop_front(n);
            let mut out: Vec<T> = popped.0;
            let k: usize = popped.1;
            let mut i: usize = k;
            while i < n
                invariant
                    k <= i <= n,
                    out@ == crate::queue::taken_from_front(old(self).queue@, n as int) + Seq::new(
                        (i - k) as nat,
                        |j: int| silence,
                    ),
                decreases n - i,
            {
                out.push(silence);
                proof {
                    assert(Seq::new((i + 1 - k) as nat, |j: int| silence) =~= Seq::new(
                        (i - k) as nat,
                        |j: int| silence,
                    ).push(silence));
                }
                i = i + 1;
            }
            let drained = self.queue.is_empty();
            self.state.observe_drained(drained);
            out
        }
    }
}

} // verus!
