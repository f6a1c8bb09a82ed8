//! A verified single-track audio playback core.
//!
//! The library models the hand-off between a decode producer and a
//! hard-real-time audio consumer: a FIFO queue of normalized samples, the
//! shared playback flags (paused, decode finished, autoplay trigger), the
//! per-invocation behaviour of the output callback, the per-packet behaviour
//! of the decode worker, and the controller that owns a session's lifecycle.
//!
//! Format probing, codec internals, audio devices and threads are external
//! collaborators; a host program drives this core by translating their
//! events into calls on [`player::Player`].

pub mod callback;
pub mod format;
pub mod player;
pub mod queue;
pub mod state;
